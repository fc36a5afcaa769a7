//! Elapsed times as the player shows them.
use vstd::prelude::*;

verus! {

/// The text `hh:mm:ss` of a clock reading, each field in decimal with at
/// least two digits.
pub uninterp spec fn hms_text(hours: u64, minutes: u64, seconds: u64) -> Seq<char>;

/// The text `mm:ss` of a clock reading, each field in decimal with at least
/// two digits.
pub uninterp spec fn ms_text(minutes: u64, seconds: u64) -> Seq<char>;

/// Relies on std's `format!("{:02}:{:02}:{:02}")`: each field in decimal,
/// padded with zeros to two digits, joined by colons.
#[verifier::external_body]
fn hms_string(hours: u64, minutes: u64, seconds: u64) -> (r: String)
    ensures
        r@ == hms_text(hours, minutes, seconds),
{
    format!("{hours:02}:{minutes:02}:{seconds:02}")
}

/// Relies on std's `format!("{:02}:{:02}")`: each field in decimal, padded
/// with zeros to two digits, joined by a colon.
#[verifier::external_body]
fn ms_string(minutes: u64, seconds: u64) -> (r: String)
    ensures
        r@ == ms_text(minutes, seconds),
{
    format!("{minutes:02}:{seconds:02}")
}

/// Splits a number of seconds into hours, minutes under 60 and seconds
/// under 60.
pub fn clock_parts(secs: u64) -> (r: (u64, u64, u64))
    ensures
        r.0 == secs / 3600,
        r.1 == (secs / 60) % 60,
        r.2 == secs % 60,
        r.1 < 60 && r.2 < 60,
        r.0 * 3600 + r.1 * 60 + r.2 == secs,
{
    let (mins, s) = (secs / 60, secs % 60);
    let (hours, m) = (mins / 60, mins % 60);
    assert(hours == secs / 3600) by (nonlinear_arith)
        requires
            mins == secs / 60,
            hours == mins / 60,
    {
        vstd::arithmetic::div_mod::lemma_div_denominator(secs as int, 60, 60);
    }
    assert(hours * 3600 + m * 60 + s == secs) by (nonlinear_arith)
        requires
            mins == secs / 60,
            s == secs % 60,
            hours == mins / 60,
            m == mins % 60,
    {
        vstd::arithmetic::div_mod::lemma_fundamental_div_mod(secs as int, 60);
        vstd::arithmetic::div_mod::lemma_fundamental_div_mod(mins as int, 60);
    }
    (hours, m, s)
}

/// Formats a number of seconds as `mm:ss`, or as `hh:mm:ss` from one hour on.
pub fn format_time(secs: &u64) -> (r: String)
    ensures
        *secs / 3600 != 0 ==> r@ == hms_text(*secs / 3600, (*secs / 60) % 60, *secs % 60),
        *secs / 3600 == 0 ==> r@ == ms_text((*secs / 60) % 60, *secs % 60),
{
    let (hours, mins, s) = clock_parts(*secs);
    if hours != 0 {
        hms_string(hours, mins, s)
    } else {
        ms_string(mins, s)
    }
}

} // verus!
