use vstd::prelude::*;

verus! {

#[verifier::external_type_specification]
#[verifier::external_body]
pub struct ExObject(json::object::Object);

/// One field of a record, as plain values: its key, the text of its value when
/// that value is a JSON string, and the value written out as compact JSON.
pub struct FieldView {
    pub key: Seq<char>,
    pub text: Option<Seq<char>>,
    pub json: Seq<char>,
}

/// The fields of a JSON object, in the object's own order.
pub uninterp spec fn object_fields(o: json::object::Object) -> Seq<FieldView>;

/// The compact JSON text of an object that holds `fields`.
pub uninterp spec fn json_text_of(fields: Seq<FieldView>) -> Seq<char>;

/// The fields of the JSON object that `line` holds; `None` when `line` is not
/// valid JSON, or is JSON but not an object.
pub uninterp spec fn json_object_of(line: Seq<char>) -> Option<Seq<FieldView>>;

/// The field stored under `key`, if any.
pub open spec fn field(fields: Seq<FieldView>, key: Seq<char>) -> Option<FieldView>
    decreases fields.len(),
{
    if fields.len() == 0 {
        None
    } else if fields.last().key == key {
        Some(fields.last())
    } else {
        field(fields.drop_last(), key)
    }
}

/// Whether some field is stored under `key`.
pub open spec fn has_field(fields: Seq<FieldView>, key: Seq<char>) -> bool {
    field(fields, key) is Some
}

/// The text under `key`, when a field is stored there and holds a JSON string.
pub open spec fn field_text(fields: Seq<FieldView>, key: Seq<char>) -> Option<Seq<char>> {
    match field(fields, key) {
        Some(f) => f.text,
        None => None,
    }
}

/// The fields, in order, but those stored under `key`.
pub open spec fn without(fields: Seq<FieldView>, key: Seq<char>) -> Seq<FieldView>
    decreases fields.len(),
{
    if fields.len() == 0 {
        fields
    } else {
        let rest = without(fields.drop_last(), key);
        if fields.last().key == key {
            rest
        } else {
            rest.push(fields.last())
        }
    }
}

/// Dropping the fields under `key` hides what was stored there and nothing else.
pub proof fn lemma_field_without(fields: Seq<FieldView>, key: Seq<char>, k: Seq<char>)
    ensures
        field(without(fields, key), k) == (if k == key {
            None
        } else {
            field(fields, k)
        }),
    decreases fields.len(),
{
    if fields.len() > 0 {
        lemma_field_without(fields.drop_last(), key, k);
        let rest = without(fields.drop_last(), key);
        if fields.last().key != key {
            assert(rest.push(fields.last()).drop_last() =~= rest);
        }
    }
}

/// The text of an optional borrowed string.
pub open spec fn text_view(t: Option<&str>) -> Option<Seq<char>> {
    match t {
        Some(s) => Some(s@),
        None => None,
    }
}

/// Relies on json::parse: it reads a whole line as one JSON value; the line is
/// a record when that value is an object.
#[verifier::external_body]
pub(crate) fn parse_object(line: &str) -> (r: Option<json::object::Object>)
    ensures
        r is None <==> json_object_of(line@) is None,
        r matches Some(o) ==> json_object_of(line@) == Some(object_fields(o)),
{
    match json::parse(line) {
        Ok(json::JsonValue::Object(o)) => Some(o),
        _ => None,
    }
}

/// Relies on json's Object::get, which finds the value stored under `key`, and
/// JsonValue::as_str, which gives its text when it is a JSON string. `None`
/// when no value is stored under `key`.
#[verifier::external_body]
pub(crate) fn object_lookup<'a>(o: &'a json::object::Object, key: &str) -> (r: Option<Option<&'a str>>)
    ensures
        r is None <==> !has_field(object_fields(*o), key@),
        r matches Some(t) ==> text_view(t) == field_text(object_fields(*o), key@),
{
    match o.get(key) {
        Some(v) => Some(v.as_str()),
        None => None,
    }
}

/// Relies on json's Object::remove: it drops the field stored under `key` and
/// keeps the others in their order.
#[verifier::external_body]
pub(crate) fn object_remove(o: &mut json::object::Object, key: &str)
    ensures
        object_fields(*final(o)) == without(object_fields(*old(o)), key@),
{
    let _ = o.remove(key);
}

/// Relies on json's Object::len: the number of fields.
#[verifier::external_body]
pub(crate) fn object_len(o: &json::object::Object) -> (r: usize)
    ensures
        r == object_fields(*o).len(),
{
    o.len()
}

/// Relies on json's Object::dump: the object written out as compact JSON.
#[verifier::external_body]
pub(crate) fn object_dump(o: &json::object::Object) -> (r: String)
    ensures
        r@ == json_text_of(object_fields(*o)),
{
    o.dump()
}

} // verus!
