use vstd::prelude::*;
use crate::clock::{clock_text, parse_rfc3339, rfc3339_of, Timestamp};
use crate::colors::{colored_when, colorize_when, Color};
use crate::record::{
    field_text, has_field, json_object_of, object_fields, object_lookup, object_remove,
    parse_object, without, FieldView,
};
use crate::residual::{render_residual, residual_block};
use crate::text::same_text;

verus! {

/// The layout asked for on the command line.
#[derive(Clone, Copy, Debug, PartialEq, Eq)]
pub enum Output {
    Unknown,
    Normal,
    Short,
}

/// The views of a list of keys.
pub open spec fn key_views(keys: Seq<&'static str>) -> Seq<Seq<char>> {
    keys.map_values(|k: &'static str| k@)
}

/// The first of `keys` under which some field is stored.
pub open spec fn first_present(fields: Seq<FieldView>, keys: Seq<Seq<char>>) -> Option<Seq<char>>
    decreases keys.len(),
{
    if keys.len() == 0 {
        None
    } else if has_field(fields, keys[0]) {
        Some(keys[0])
    } else {
        first_present(fields, keys.drop_first())
    }
}

/// The keys that may hold a record's timestamp, in order of priority.
pub open spec fn date_keys() -> Seq<Seq<char>> {
    seq!["ts"@, "time"@, "timestamp"@]
}

/// The keys that may hold a record's severity, in order of priority.
pub open spec fn severity_keys() -> Seq<Seq<char>> {
    seq!["severity"@, "level"@, "lvl"@]
}

/// The timestamp of a record and the key it was read from: the first date key
/// present must hold an RFC 3339 string, else the record has no timestamp.
pub open spec fn date_of(fields: Seq<FieldView>) -> Option<(Timestamp, Seq<char>)> {
    match first_present(fields, date_keys()) {
        Some(k) => match field_text(fields, k) {
            Some(s) => match rfc3339_of(s) {
                Some(t) => Some((t, k)),
                None => None,
            },
            None => None,
        },
        None => None,
    }
}

/// The severity of a record and the key it was read from: the first severity
/// key present must hold a string, else the record has no severity.
pub open spec fn severity_of(fields: Seq<FieldView>) -> Option<(Seq<char>, Seq<char>)> {
    match first_present(fields, severity_keys()) {
        Some(k) => match field_text(fields, k) {
            Some(s) => Some((s, k)),
            None => None,
        },
        None => None,
    }
}

/// A bracketed severity label: `[`, the name (colored), then `close`.
pub open spec fn label(name: Seq<char>, color: Color, close: Seq<char>, enabled: bool) -> Seq<
    char,
> {
    "["@ + colored_when(name, color, enabled) + close
}

/// Whether `raw` is one of the severities that get a bracketed label.
pub open spec fn known_severity(raw: Seq<char>) -> bool {
    ||| raw == "trace"@
    ||| raw == "debug"@
    ||| raw == "info"@
    ||| raw == "warn"@
    ||| raw == "warning"@
    ||| raw == "error"@
    ||| raw == "fatal"@
}

/// How a severity is shown: a bracketed label for a known one, the raw text
/// otherwise.
pub open spec fn severity_label(raw: Seq<char>, enabled: bool) -> Seq<char> {
    if raw == "trace"@ {
        label("TRACE"@, Color::Plain, "]"@, enabled)
    } else if raw == "debug"@ {
        label("DEBUG"@, Color::Bold, "]"@, enabled)
    } else if raw == "info"@ {
        label("INFO"@, Color::Green, " ]"@, enabled)
    } else if raw == "warn"@ || raw == "warning"@ {
        label("WARN"@, Color::Yellow, " ]"@, enabled)
    } else if raw == "error"@ {
        label("ERROR"@, Color::Red, "]"@, enabled)
    } else if raw == "fatal"@ {
        label("FATAL"@, Color::Bold, "]"@, enabled)
    } else {
        raw
    }
}

/// The first segment of a line: the clock time, or a placeholder.
pub open spec fn date_part(fields: Seq<FieldView>) -> Seq<char> {
    match date_of(fields) {
        Some((t, _)) => clock_text(t),
        None => "00:00:000.000"@,
    }
}

/// What is left of a record once its timestamp is taken out.
pub open spec fn after_date(fields: Seq<FieldView>) -> Seq<FieldView> {
    match date_of(fields) {
        Some((_, k)) => without(fields, k),
        None => fields,
    }
}

/// The severity segment, read from what the timestamp left.
pub open spec fn severity_part(fields: Seq<FieldView>, color: bool) -> Seq<char> {
    match severity_of(fields) {
        Some((s, _)) => seq![' '] + severity_label(s, color),
        None => " [UNKNOWN]"@,
    }
}

/// What is left once the severity is taken out.
pub open spec fn after_severity(fields: Seq<FieldView>) -> Seq<FieldView> {
    match severity_of(fields) {
        Some((_, k)) => without(fields, k),
        None => fields,
    }
}

/// The component segment: the component in cyan, or nothing.
pub open spec fn component_part(fields: Seq<FieldView>, color: bool) -> Seq<char> {
    match field_text(fields, "component"@) {
        Some(c) => seq![' '] + colored_when(c, Color::Cyan, color),
        None => Seq::empty(),
    }
}

/// What is left once the component is taken out.
pub open spec fn after_component(fields: Seq<FieldView>) -> Seq<FieldView> {
    match field_text(fields, "component"@) {
        Some(_) => without(fields, "component"@),
        None => fields,
    }
}

/// The message segment: the message as it is, or a placeholder.
pub open spec fn message_part(fields: Seq<FieldView>) -> Seq<char> {
    match field_text(fields, "message"@) {
        Some(m) => seq![' '] + m,
        None => " <no message>"@,
    }
}

/// What is left once the message is taken out.
pub open spec fn after_message(fields: Seq<FieldView>) -> Seq<FieldView> {
    match field_text(fields, "message"@) {
        Some(_) => without(fields, "message"@),
        None => fields,
    }
}

/// The fields of a record that none of the four segments took.
pub open spec fn residual_fields(fields: Seq<FieldView>) -> Seq<FieldView> {
    after_message(after_component(after_severity(after_date(fields))))
}

/// The four segments of a line, without the residual block.
pub open spec fn head_text(fields: Seq<FieldView>, color: bool) -> Seq<char> {
    let f1 = after_date(fields);
    let f2 = after_severity(f1);
    let f3 = after_component(f2);
    date_part(fields) + severity_part(f1, color) + component_part(f2, color) + message_part(f3)
}

/// The line that a record is rewritten into.
pub open spec fn line_text(fields: Seq<FieldView>, color: bool) -> Seq<char> {
    head_text(fields, color) + residual_block(residual_fields(fields), color)
}

/// The first of `keys` under which `obj` stores a field.
fn first_present_key(obj: &json::object::Object, keys: &[&'static str]) -> (r: Option<
    &'static str,
>)
    ensures
        match r {
            Some(k) => first_present(object_fields(*obj), key_views(keys@)) == Some(k@),
            None => first_present(object_fields(*obj), key_views(keys@)) is None,
        },
{
    let ghost fields = object_fields(*obj);
    let ghost ks = key_views(keys@);
    let mut i: usize = 0;
    assert(ks.subrange(0, ks.len() as int) =~= ks);
    while i < keys.len()
        invariant
            ks == key_views(keys@),
            fields == object_fields(*obj),
            i <= keys@.len(),
            first_present(fields, ks) == first_present(fields, ks.subrange(i as int, ks.len() as int)),
        decreases keys@.len() - i,
    {
        let ghost rest = ks.subrange(i as int, ks.len() as int);
        assert(rest.drop_first() =~= ks.subrange(i + 1, ks.len() as int));
        assert(rest[0] == keys@[i as int]@);
        if object_lookup(obj, keys[i]).is_some() {
            return Some(keys[i]);
        }
        i = i + 1;
    }
    None
}

/// Returns the timestamp of a record with the key it was read from. Keys are
/// tried in the order `ts`, `time`, `timestamp`; the first one present decides.
pub fn extract_date(obj: &json::object::Object) -> (r: Option<(Timestamp, &'static str)>)
    ensures
        match r {
            Some((t, k)) => date_of(object_fields(*obj)) == Some((t, k@)),
            None => date_of(object_fields(*obj)) is None,
        },
        r matches Some((t, _)) ==> t.wf(),
{
    let keys: [&'static str; 3] = ["ts", "time", "timestamp"];
    assert(key_views(keys@) =~= date_keys());
    let key = match first_present_key(obj, keys.as_slice()) {
        Some(k) => k,
        None => return None,
    };
    match object_lookup(obj, key) {
        Some(Some(text)) => match parse_rfc3339(text) {
            Some(t) => Some((t, key)),
            None => None,
        },
        _ => None,
    }
}

/// Returns the severity of a record with the key it was read from. Keys are
/// tried in the order `severity`, `level`, `lvl`; the first one present decides.
pub fn extract_severity<'a>(obj: &'a json::object::Object) -> (r: Option<(&'a str, &'static str)>)
    ensures
        match r {
            Some((s, k)) => severity_of(object_fields(*obj)) == Some((s@, k@)),
            None => severity_of(object_fields(*obj)) is None,
        },
{
    let keys: [&'static str; 3] = ["severity", "level", "lvl"];
    assert(key_views(keys@) =~= severity_keys());
    let key = match first_present_key(obj, keys.as_slice()) {
        Some(k) => k,
        None => return None,
    };
    match object_lookup(obj, key) {
        Some(Some(text)) => Some((text, key)),
        _ => None,
    }
}

fn bracketed(name: &str, color: Color, close: &str, color_output: bool) -> (r: String)
    ensures
        r@ == label(name@, color, close@, color_output),
{
    let mut r = String::from_str("[");
    let inner = colorize_when(name, color, color_output);
    r.append(inner.as_str());
    r.append(close);
    r
}

/// Shows a severity as a bracketed label seven characters wide (before
/// coloring); an unknown severity is shown as it is.
pub fn severity_fmt(s: &str, color_output: bool) -> (r: String)
    ensures
        r@ == severity_label(s@, color_output),
{
    if same_text(s, "trace") {
        bracketed("TRACE", Color::Plain, "]", color_output)
    } else if same_text(s, "debug") {
        bracketed("DEBUG", Color::Bold, "]", color_output)
    } else if same_text(s, "info") {
        bracketed("INFO", Color::Green, " ]", color_output)
    } else if same_text(s, "warn") || same_text(s, "warning") {
        bracketed("WARN", Color::Yellow, " ]", color_output)
    } else if same_text(s, "error") {
        bracketed("ERROR", Color::Red, "]", color_output)
    } else if same_text(s, "fatal") {
        bracketed("FATAL", Color::Bold, "]", color_output)
    } else {
        String::from_str(s)
    }
}

/// Rewrites one record into its line: clock time, severity, component,
/// message, then the remaining fields as an indented block. Each field shown in
/// the first four segments is taken out of the record before the block is made.
pub fn format_line(obj: json::object::Object, _mode: &Output, color_output: bool) -> (r: String)
    ensures
        r@ == line_text(object_fields(obj), color_output),
{
    let ghost f0 = object_fields(obj);
    let ghost f1 = after_date(f0);
    let ghost f2 = after_severity(f1);
    let ghost f3 = after_component(f2);
    let mut obj = obj;
    let mut result = String::new();

    match extract_date(&obj) {
        Some((t, key)) => {
            let clock = t.clock();
            result.append(clock.as_str());
            object_remove(&mut obj, key);
        },
        None => result.append("00:00:000.000"),
    }
    assert(result@ == date_part(f0));
    assert(object_fields(obj) == f1);

    let ghost before = result@;
    match extract_severity(&obj) {
        Some((s, key)) => {
            let shown = severity_fmt(s, color_output);
            result.push(' ');
            result.append(shown.as_str());
            object_remove(&mut obj, key);
            assert(result@ =~= before + severity_part(f1, color_output));
        },
        None => result.append(" [UNKNOWN]"),
    }
    assert(object_fields(obj) == f2);

    let ghost before = result@;
    match object_lookup(&obj, "component") {
        Some(Some(c)) => {
            let shown = colorize_when(c, Color::Cyan, color_output);
            result.push(' ');
            result.append(shown.as_str());
            object_remove(&mut obj, "component");
            assert(result@ =~= before + component_part(f2, color_output));
        },
        _ => {
            assert(result@ =~= before + component_part(f2, color_output));
        },
    }
    assert(object_fields(obj) == f3);

    let ghost before = result@;
    match object_lookup(&obj, "message") {
        Some(Some(m)) => {
            result.push(' ');
            result.append(m);
            object_remove(&mut obj, "message");
            assert(result@ =~= before + message_part(f3));
        },
        _ => result.append(" <no message>"),
    }
    assert(object_fields(obj) == residual_fields(f0));

    let residual = render_residual(&obj, color_output);
    result.append(residual.as_str());
    result
}

/// Rewrites one input line: a JSON object becomes its formatted line; any
/// other line comes back exactly as it was.
pub fn render_line(line: &str, mode: &Output, color_output: bool) -> (r: String)
    ensures
        r@ == match json_object_of(line@) {
            Some(fields) => line_text(fields, color_output),
            None => line@,
        },
        json_object_of(line@) is None ==> r@ == line@,
{
    match parse_object(line) {
        Some(obj) => format_line(obj, mode, color_output),
        None => String::from_str(line),
    }
}

} // verus!
