use vstd::prelude::*;
use crate::colors::{colored_when, colorize_when, Color};
use crate::record::{json_text_of, object_dump, object_fields, object_len, FieldView};
use crate::text::same_text;

verus! {

/// The block-style YAML text, after its `---` marker, of the first document
/// read from `text`; `None` when `text` holds no document or does not load.
pub uninterp spec fn yaml_block_of(text: Seq<char>) -> Option<Seq<char>>;

/// The text of an optional string.
pub open spec fn string_view(t: Option<String>) -> Option<Seq<char>> {
    match t {
        Some(s) => Some(s@),
        None => None,
    }
}

/// Relies on yaml_rust's YamlLoader::load_from_str, which reads the documents
/// of a YAML (hence JSON) text, and YamlEmitter::dump, which writes one out in
/// block style after a `---` marker. The document between the two calls is
/// yaml_rust's own value and is not seen here.
#[verifier::external_body]
fn yaml_block(text: &str) -> (r: Option<String>)
    ensures
        string_view(r) == yaml_block_of(text@),
{
    let docs = match yaml_rust::YamlLoader::load_from_str(text) {
        Ok(docs) => docs,
        Err(_) => return None,
    };
    let mut out = String::new();
    match docs.first() {
        Some(doc) => match yaml_rust::YamlEmitter::new(&mut out).dump(doc) {
            Ok(()) => Some(out),
            Err(_) => None,
        },
        None => None,
    }
}

/// Whether `s` starts with the document marker `---`.
pub open spec fn starts_with_marker(s: Seq<char>) -> bool {
    s.len() >= 3 && s[0] == '-' && s[1] == '-' && s[2] == '-'
}

/// `s` without the document markers it starts with.
pub open spec fn strip_markers(s: Seq<char>) -> Seq<char>
    decreases s.len(),
{
    if starts_with_marker(s) {
        strip_markers(s.subrange(3, s.len() as int))
    } else {
        s
    }
}

/// `s` with every line break followed by one more indentation step.
pub open spec fn indented(s: Seq<char>) -> Seq<char>
    decreases s.len(),
{
    if s.len() == 0 {
        s
    } else if s.last() == '\n' {
        indented(s.drop_last()) + seq!['\n', ' ', ' ']
    } else {
        indented(s.drop_last()).push(s.last())
    }
}

/// A serialized document with nothing in it.
pub open spec fn is_empty_document(y: Seq<char>) -> bool {
    y == "---\n{}"@ || y == "---"@ || y.len() == 0
}

/// The block that follows a log line for the fields left in its record:
/// nothing when none is left, else their YAML text nested one step and gray.
pub open spec fn residual_block(fields: Seq<FieldView>, color: bool) -> Seq<char> {
    if fields.len() == 0 {
        Seq::empty()
    } else {
        match yaml_block_of(json_text_of(fields)) {
            Some(y) => if is_empty_document(y) {
                Seq::empty()
            } else {
                colored_when(indented(strip_markers(y)), Color::Gray, color)
            },
            None => Seq::empty(),
        }
    }
}

fn strip_markers_exec(s: &str) -> (r: &str)
    ensures
        r@ == strip_markers(s@),
{
    let n = s.unicode_len();
    let mut start: usize = 0;
    assert(s@.subrange(0, n as int) =~= s@);
    while 3 <= n - start && s.get_char(start) == '-' && s.get_char(start + 1) == '-'
        && s.get_char(start + 2) == '-'
        invariant
            n == s@.len(),
            start <= n,
            strip_markers(s@) == strip_markers(s@.subrange(start as int, n as int)),
        decreases n - start,
    {
        let ghost rest = s@.subrange(start as int, n as int);
        assert(rest.subrange(3, rest.len() as int) =~= s@.subrange(start + 3, n as int));
        start = start + 3;
    }
    let r = s.substring_char(start, n);
    r
}

fn indent_exec(s: &str) -> (r: String)
    ensures
        r@ == indented(s@),
{
    let n = s.unicode_len();
    let mut r = String::new();
    let mut i: usize = 0;
    while i < n
        invariant
            n == s@.len(),
            i <= n,
            r@ == indented(s@.subrange(0, i as int)),
        decreases n - i,
    {
        let c = s.get_char(i);
        let ghost prefix = s@.subrange(0, i + 1);
        assert(prefix.drop_last() =~= s@.subrange(0, i as int));
        if c == '\n' {
            r.push('\n');
            r.push(' ');
            r.push(' ');
            assert(indented(prefix) =~= r@);
        } else {
            r.push(c);
        }
        i = i + 1;
    }
    assert(s@ =~= s@.subrange(0, n as int));
    r
}

/// Renders the fields left in a record as an indented, gray YAML block; empty
/// when no field is left, or when the serializer gives back an empty document
/// or none at all.
pub fn render_residual(obj: &json::object::Object, color_output: bool) -> (r: String)
    ensures
        r@ == residual_block(object_fields(*obj), color_output),
{
    if object_len(obj) == 0 {
        return String::new();
    }
    let dumped = object_dump(obj);
    match yaml_block(dumped.as_str()) {
        Some(y) => {
            if same_text(y.as_str(), "---\n{}") || same_text(y.as_str(), "---")
                || y.as_str().unicode_len() == 0 {
                String::new()
            } else {
                let body = indent_exec(strip_markers_exec(y.as_str()));
                colorize_when(body.as_str(), Color::Gray, color_output)
            }
        },
        None => String::new(),
    }
}

} // verus!
