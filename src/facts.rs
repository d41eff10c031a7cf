use vstd::prelude::*;
use crate::format::{
    after_component, after_date, after_severity, date_keys, date_of, date_part, first_present,
    head_text, known_severity, line_text, residual_fields, severity_keys, severity_label,
    severity_of, severity_part,
};
use crate::record::{field_text, has_field, lemma_field_without, without, FieldView};
use crate::residual::residual_block;

verus! {

/// A key found by a scan over `keys` is one of them.
proof fn lemma_first_present_in(fields: Seq<FieldView>, keys: Seq<Seq<char>>)
    ensures
        first_present(fields, keys) matches Some(k) ==> keys.contains(k),
    decreases keys.len(),
{
    if keys.len() > 0 && !has_field(fields, keys[0]) {
        lemma_first_present_in(fields, keys.drop_first());
        if let Some(k) = first_present(fields, keys.drop_first()) {
            let i = choose|i: int| 0 <= i < keys.drop_first().len() && keys.drop_first()[i] == k;
            assert(keys[i + 1] == k);
        }
    }
    if keys.len() > 0 && has_field(fields, keys[0]) {
        assert(keys[0] == keys[0]);
    }
}

/// A scan finds nothing when none of its keys is present.
proof fn lemma_first_present_none(fields: Seq<FieldView>, keys: Seq<Seq<char>>)
    requires
        forall|i: int| 0 <= i < keys.len() ==> !has_field(fields, #[trigger] keys[i]),
    ensures
        first_present(fields, keys) is None,
    decreases keys.len(),
{
    if keys.len() > 0 {
        assert forall|i: int| 0 <= i < keys.drop_first().len() implies !has_field(
            fields,
            #[trigger] keys.drop_first()[i],
        ) by {
            assert(keys.drop_first()[i] == keys[i + 1]);
        }
        lemma_first_present_none(fields, keys.drop_first());
    }
}

/// Removing a key never brings back a key that is absent.
proof fn lemma_absent_stays(fields: Seq<FieldView>, removed: Seq<char>, k: Seq<char>)
    requires
        !has_field(fields, k),
    ensures
        !has_field(without(fields, removed), k),
{
    lemma_field_without(fields, removed, k);
}

/// Removing a key keeps every other key that is present.
proof fn lemma_present_stays(fields: Seq<FieldView>, removed: Seq<char>, k: Seq<char>)
    requires
        has_field(fields, k),
        k != removed,
    ensures
        has_field(without(fields, removed), k),
{
    lemma_field_without(fields, removed, k);
}

/// A record with none of the keys `ts`, `time` and `timestamp` gets the
/// placeholder `00:00:000.000` as the start of its line.
pub proof fn missing_timestamp_placeholder(fields: Seq<FieldView>, color: bool)
    requires
        !has_field(fields, "ts"@),
        !has_field(fields, "time"@),
        !has_field(fields, "timestamp"@),
    ensures
        date_of(fields) is None,
        line_text(fields, color).subrange(0, 13) == "00:00:000.000"@,
{
    reveal_strlit("00:00:000.000");
    assert forall|i: int| 0 <= i < date_keys().len() implies !has_field(
        fields,
        #[trigger] date_keys()[i],
    ) by {
        if i == 0 {
            assert(date_keys()[0] == "ts"@);
        } else if i == 1 {
            assert(date_keys()[1] == "time"@);
        } else {
            assert(date_keys()[2] == "timestamp"@);
        }
    }
    lemma_first_present_none(fields, date_keys());
    let line = line_text(fields, color);
    let d = date_part(fields);
    assert(d == "00:00:000.000"@);
    assert(line =~= d + (line.subrange(13, line.len() as int)));
    assert(line.subrange(0, 13) =~= d);
}

/// A record with none of the keys `severity`, `level` and `lvl` shows
/// ` [UNKNOWN]` as its severity segment, right after the first segment.
pub proof fn missing_severity_placeholder(fields: Seq<FieldView>, color: bool)
    requires
        !has_field(fields, "severity"@),
        !has_field(fields, "level"@),
        !has_field(fields, "lvl"@),
    ensures
        severity_part(after_date(fields), color) == " [UNKNOWN]"@,
        line_text(fields, color).subrange(
            date_part(fields).len() as int,
            date_part(fields).len() + 10 as int,
        ) == " [UNKNOWN]"@,
{
    reveal_strlit(" [UNKNOWN]");
    let f1 = after_date(fields);
    assert forall|i: int| 0 <= i < severity_keys().len() implies !has_field(
        f1,
        #[trigger] severity_keys()[i],
    ) by {
        let k = severity_keys()[i];
        assert(!has_field(fields, k)) by {
            if i == 0 {
                assert(k == "severity"@);
            } else if i == 1 {
                assert(k == "level"@);
            } else {
                assert(k == "lvl"@);
            }
        }
        if let Some((_, dk)) = date_of(fields) {
            lemma_absent_stays(fields, dk, k);
        }
    }
    lemma_first_present_none(f1, severity_keys());
    let line = line_text(fields, color);
    let d = date_part(fields);
    let u = " [UNKNOWN]"@;
    assert(line.subrange(0, d.len() + 10 as int) =~= d + u);
    assert(line.subrange(d.len() as int, d.len() + 10 as int) =~= u);
}

/// Every known severity is shown, before coloring, as a label exactly seven
/// characters wide that opens with `[` and closes with `]`.
pub proof fn known_severity_width(raw: Seq<char>)
    requires
        known_severity(raw),
    ensures
        severity_label(raw, false).len() == 7,
        severity_label(raw, false)[0] == '[',
        severity_label(raw, false)[6] == ']',
{
    reveal_strlit("[");
    reveal_strlit("]");
    reveal_strlit(" ]");
    reveal_strlit("TRACE");
    reveal_strlit("DEBUG");
    reveal_strlit("INFO");
    reveal_strlit("WARN");
    reveal_strlit("ERROR");
    reveal_strlit("FATAL");
}

/// No field shown in the first four segments of a line is left among the
/// fields that the residual block is made of.
pub proof fn extracted_fields_not_residual(fields: Seq<FieldView>)
    ensures
        date_of(fields) matches Some((_, k)) ==> !has_field(residual_fields(fields), k),
        severity_of(after_date(fields)) matches Some((_, k)) ==> !has_field(
            residual_fields(fields),
            k,
        ),
        field_text(after_severity(after_date(fields)), "component"@) is Some ==> !has_field(
            residual_fields(fields),
            "component"@,
        ),
        field_text(after_component(after_severity(after_date(fields))), "message"@) is Some
            ==> !has_field(residual_fields(fields), "message"@),
{
    let f1 = after_date(fields);
    let f2 = after_severity(f1);
    let f3 = after_component(f2);
    let f4 = residual_fields(fields);
    assert forall|k: Seq<char>| !has_field(f1, k) implies !has_field(f4, k) by {
        if let Some((_, sk)) = severity_of(f1) {
            lemma_absent_stays(f1, sk, k);
        }
        if field_text(f2, "component"@) is Some {
            lemma_absent_stays(f2, "component"@, k);
        }
        if field_text(f3, "message"@) is Some {
            lemma_absent_stays(f3, "message"@, k);
        }
    }
    if let Some((_, k)) = date_of(fields) {
        lemma_field_without(fields, k, k);
    }
    if let Some((_, k)) = severity_of(f1) {
        lemma_field_without(f1, k, k);
        assert forall|j: Seq<char>| !has_field(f2, j) implies !has_field(f4, j) by {
            if field_text(f2, "component"@) is Some {
                lemma_absent_stays(f2, "component"@, j);
            }
            if field_text(f3, "message"@) is Some {
                lemma_absent_stays(f3, "message"@, j);
            }
        }
    }
    if field_text(f2, "component"@) is Some {
        lemma_field_without(f2, "component"@, "component"@);
        if field_text(f3, "message"@) is Some {
            lemma_absent_stays(f3, "message"@, "component"@);
        }
    }
    if field_text(f3, "message"@) is Some {
        lemma_field_without(f3, "message"@, "message"@);
    }
}

/// When no field is left after the four segments, the line is those segments
/// and nothing more.
pub proof fn empty_residual_omitted(fields: Seq<FieldView>, color: bool)
    requires
        residual_fields(fields).len() == 0,
    ensures
        residual_block(residual_fields(fields), color) == Seq::<char>::empty(),
        line_text(fields, color) == head_text(fields, color),
{
    assert(line_text(fields, color) =~= head_text(fields, color));
}

/// With both `ts` and `time` present, the timestamp is looked for under `ts`
/// alone, and the field under `time` stays among the remaining fields.
pub proof fn ts_takes_priority_over_time(fields: Seq<FieldView>)
    requires
        has_field(fields, "ts"@),
        has_field(fields, "time"@),
    ensures
        first_present(fields, date_keys()) == Some("ts"@),
        date_of(fields) matches Some((_, k)) ==> k == "ts"@,
        has_field(residual_fields(fields), "time"@),
{
    reveal_strlit("ts");
    reveal_strlit("time");
    reveal_strlit("severity");
    reveal_strlit("level");
    reveal_strlit("lvl");
    reveal_strlit("component");
    reveal_strlit("message");
    let time = "time"@;
    assert(date_keys()[0] == "ts"@);
    let f1 = after_date(fields);
    let f2 = after_severity(f1);
    let f3 = after_component(f2);
    if let Some((_, k)) = date_of(fields) {
        assert(k != time);
        lemma_present_stays(fields, k, time);
    }
    if let Some((_, k)) = severity_of(f1) {
        lemma_first_present_in(f1, severity_keys());
        assert(severity_keys() =~= seq!["severity"@, "level"@, "lvl"@]);
        assert(k.len() != 4);
        lemma_present_stays(f1, k, time);
    }
    if field_text(f2, "component"@) is Some {
        assert("component"@.len() != time.len());
        lemma_present_stays(f2, "component"@, time);
    }
    if field_text(f3, "message"@) is Some {
        assert("message"@.len() != time.len());
        lemma_present_stays(f3, "message"@, time);
    }
}

} // verus!
