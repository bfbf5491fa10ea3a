//! Timestamps: RFC 3339 text read through chrono, and the fixed display
//! pattern `DD.MM.YY HH:MM:SS`.
use vstd::prelude::*;
use chrono::{Datelike, Timelike};
use crate::text::{digit_char, push_two_digits};

verus! {

/// The local date and time that an RFC 3339 timestamp writes.
#[derive(Debug, Clone, Copy, PartialEq, Eq)]
pub struct Timestamp {
    pub year: i32,
    /// 1 to 12.
    pub month: u32,
    /// 1 to 31.
    pub day: u32,
    /// 0 to 23.
    pub hour: u32,
    /// 0 to 59.
    pub minute: u32,
    /// 0 to 59.
    pub second: u32,
    /// Below 2,000,000,000; from 1,000,000,000 on it counts into a leap second.
    pub nanosecond: u32,
}

impl Timestamp {
    /// Every field lies in its range.
    pub open spec fn wf(&self) -> bool {
        &&& 1 <= self.month <= 12
        &&& 1 <= self.day <= 31
        &&& self.hour <= 23
        &&& self.minute <= 59
        &&& self.second <= 59
        &&& self.nanosecond < 2_000_000_000
    }
}

#[verifier::external_type_specification]
#[verifier::external_body]
pub struct ExParseError(chrono::ParseError);

/// The date and time that chrono reads from RFC 3339 text, or `None` where it
/// refuses the text.
pub uninterp spec fn rfc3339_fields(s: Seq<char>) -> Option<Timestamp>;

/// Relies on chrono's `DateTime::parse_from_rfc3339`, and on its `Datelike` and
/// `Timelike` accessors for the fields of the local date and time, whose
/// documented ranges `Timestamp::wf` states.
#[verifier::external_body]
fn parse_rfc3339(s: &str) -> (r: Result<Timestamp, chrono::ParseError>)
    ensures
        match r {
            Ok(t) => rfc3339_fields(s@) == Some(t) && t.wf(),
            Err(_) => rfc3339_fields(s@) is None,
        },
{
    let d = chrono::DateTime::parse_from_rfc3339(s)?;
    Ok(Timestamp {
        year: d.year(),
        month: d.month(),
        day: d.day(),
        hour: d.hour(),
        minute: d.minute(),
        second: d.second(),
        nanosecond: d.nanosecond(),
    })
}

/// `n` as two digits (`0 <= n < 100`).
pub open spec fn two_digits(n: int) -> Seq<char> {
    seq![digit_char((n / 10) as nat), digit_char((n % 10) as nat)]
}

/// `t` as `DD.MM.YY HH:MM:SS`: the year modulo 100, a 24-hour clock, and
/// second 60 during a leap second.
pub open spec fn display_text(t: Timestamp) -> Seq<char> {
    two_digits(t.day as int) + seq!['.'] + two_digits(t.month as int) + seq!['.']
        + two_digits(t.year as int % 100) + seq![' '] + two_digits(t.hour as int) + seq![':']
        + two_digits(t.minute as int) + seq![':'] + two_digits(
        t.second + t.nanosecond / 1_000_000_000,
    )
}

/// Writes `t` in the display pattern `DD.MM.YY HH:MM:SS`.
pub fn format_timestamp(t: &Timestamp) -> (r: String)
    requires
        t.wf(),
    ensures
        r@ == display_text(*t),
{
    proof {
        reveal_strlit(".");
        reveal_strlit(" ");
        reveal_strlit(":");
    }
    let y: i64 = t.year as i64 % 100;
    let year: u64 = if y < 0 { (y + 100) as u64 } else { y as u64 };
    assert(year == t.year as int % 100);
    let mut out = String::new();
    push_two_digits(&mut out, t.day as u64);
    out.append(".");
    push_two_digits(&mut out, t.month as u64);
    out.append(".");
    push_two_digits(&mut out, year);
    out.append(" ");
    push_two_digits(&mut out, t.hour as u64);
    out.append(":");
    push_two_digits(&mut out, t.minute as u64);
    out.append(":");
    push_two_digits(&mut out, (t.second + t.nanosecond / 1_000_000_000) as u64);
    assert(out@ =~= display_text(*t));
    out
}

/// The display text for the raw `@t` value `raw`: empty for an empty value,
/// `None` where chrono refuses it as RFC 3339.
pub open spec fn display_of(raw: Seq<char>) -> Option<Seq<char>> {
    if raw.len() == 0 {
        Some(Seq::empty())
    } else {
        match rfc3339_fields(raw) {
            Some(t) => Some(display_text(t)),
            None => None,
        }
    }
}

/// Reads the raw `@t` value `raw` and writes it in the display pattern; an
/// empty value stays empty.
pub fn display_timestamp(raw: &str) -> (r: Option<String>)
    ensures
        match r {
            Some(s) => display_of(raw@) == Some(s@),
            None => display_of(raw@) is None,
        },
{
    if raw.unicode_len() == 0 {
        return Some(String::new());
    }
    match parse_rfc3339(raw) {
        Ok(t) => Some(format_timestamp(&t)),
        Err(_) => None,
    }
}

} // verus!
