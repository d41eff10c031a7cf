use vstd::prelude::*;
use chrono::{Datelike, Timelike};

verus! {

/// An instant as read from an RFC 3339 timestamp: the date and the time of day
/// in the timestamp's own offset, and that offset from UTC in seconds.
#[derive(Clone, Copy, Debug, PartialEq, Eq)]
pub struct Timestamp {
    pub year: i32,
    pub month: u32,
    pub day: u32,
    pub hour: u32,
    pub minute: u32,
    pub second: u32,
    /// Nanoseconds since the whole second; 1_000_000_000 and above during a leap second.
    pub nanosecond: u32,
    pub offset_seconds: i32,
}

impl Timestamp {
    /// The ranges that chrono gives each part of an instant.
    pub open spec fn wf(self) -> bool {
        &&& 1 <= self.month <= 12
        &&& 1 <= self.day <= 31
        &&& self.hour < 24
        &&& self.minute < 60
        &&& self.second < 60
        &&& self.nanosecond < 2_000_000_000
    }
}

/// The instant that an RFC 3339 text denotes, if it is one.
pub uninterp spec fn rfc3339_of(s: Seq<char>) -> Option<Timestamp>;

/// Relies on chrono's DateTime::parse_from_rfc3339, read back through the
/// Datelike and Timelike accessors, whose ranges chrono documents.
#[verifier::external_body]
pub(crate) fn parse_rfc3339(s: &str) -> (r: Option<Timestamp>)
    ensures
        r == rfc3339_of(s@),
        r matches Some(t) ==> t.wf(),
{
    match chrono::DateTime::parse_from_rfc3339(s) {
        Ok(d) => Some(Timestamp {
            year: d.year(),
            month: d.month(),
            day: d.day(),
            hour: d.hour(),
            minute: d.minute(),
            second: d.second(),
            nanosecond: d.nanosecond(),
            offset_seconds: d.offset().local_minus_utc(),
        }),
        Err(_) => None,
    }
}

/// The decimal digit `d`.
pub open spec fn digit(d: nat) -> char
    recommends
        d < 10,
{
    ((d + 48) as u8) as char
}

/// `n` in exactly `width` decimal digits, zero-padded on the left.
pub open spec fn padded(n: nat, width: nat) -> Seq<char>
    decreases width,
{
    if width == 0 {
        Seq::empty()
    } else {
        padded(n / 10, (width - 1) as nat).push(digit(n % 10))
    }
}

/// The second as a clock shows it: 60 during a leap second.
pub open spec fn clock_second(t: Timestamp) -> nat {
    (t.second + t.nanosecond / 1_000_000_000) as nat
}

/// The millisecond within the second.
pub open spec fn clock_millis(t: Timestamp) -> nat {
    (t.nanosecond / 1_000_000 % 1000) as nat
}

/// The time of day as `HH:MM:SS.mmm`.
pub open spec fn clock_text(t: Timestamp) -> Seq<char> {
    padded(t.hour as nat, 2) + seq![':'] + padded(t.minute as nat, 2) + seq![':']
        + padded(clock_second(t), 2) + seq!['.'] + padded(clock_millis(t), 3)
}

/// Appends `n` in `width` decimal digits, zero-padded on the left.
fn push_padded(out: &mut String, n: u64, width: u32)
    ensures
        final(out)@ == old(out)@ + padded(n as nat, width as nat),
    decreases width,
{
    if width > 0 {
        let ghost before = out@;
        push_padded(out, n / 10, width - 1);
        out.push(((n % 10) as u8 + 48) as char);
        assert(before + padded(n as nat, width as nat) =~= (before + padded(
            (n / 10) as nat,
            (width - 1) as nat,
        )).push(digit((n % 10) as nat)));
    }
}

impl Timestamp {
    /// The time of day in the timestamp's own offset, as `HH:MM:SS.mmm`.
    pub fn clock(&self) -> (r: String)
        ensures
            r@ == clock_text(*self),
    {
        let mut r = String::new();
        push_padded(&mut r, self.hour as u64, 2);
        r.push(':');
        push_padded(&mut r, self.minute as u64, 2);
        r.push(':');
        push_padded(&mut r, self.second as u64 + (self.nanosecond / 1_000_000_000) as u64, 2);
        r.push('.');
        push_padded(&mut r, (self.nanosecond / 1_000_000 % 1000) as u64, 3);
        r
    }
}

} // verus!
