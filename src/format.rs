//! Text for the countdown and settings labels.
use vstd::prelude::*;

use crate::duration::{Duration, NANOS_PER_SEC};

verus! {

/// Relies on `String::push`: appends `c` at the end of `s`.
#[verifier::external_body]
fn push_char(s: &mut String, c: char)
    ensures
        final(s)@ == old(s)@.push(c),
{
    s.push(c);
}

/// The decimal digit for `d`, where `d < 10`.
pub open spec fn digit_char(d: nat) -> char {
    ((48 + d) as u8) as char
}

/// `n` written in decimal, without leading zeros.
pub open spec fn decimal(n: nat) -> Seq<char>
    decreases n,
{
    if n < 10 {
        seq![digit_char(n)]
    } else {
        decimal(n / 10).push(digit_char(n % 10))
    }
}

/// The whole seconds in a span of `nanos` nanoseconds.
pub open spec fn whole_secs(nanos: nat) -> nat {
    nanos / (NANOS_PER_SEC as nat)
}

/// `<hours>h<minutes>m` for a span of `nanos` nanoseconds.
pub open spec fn hours_minutes(nanos: nat) -> Seq<char> {
    let secs = whole_secs(nanos);
    decimal(secs / 3600) + seq!['h'] + decimal((secs / 60) % 60) + seq!['m']
}

/// `<hours>h<minutes>m<seconds>s` for a span of `nanos` nanoseconds.
pub open spec fn hours_minutes_seconds(nanos: nat) -> Seq<char> {
    let secs = whole_secs(nanos);
    decimal(secs / 3600) + seq!['h'] + decimal((secs / 60) % 60) + seq!['m'] + decimal(secs % 60)
        + seq!['s']
}

fn push_decimal(s: &mut String, n: u64)
    ensures
        final(s)@ == old(s)@ + decimal(n as nat),
    decreases n,
{
    if n >= 10 {
        push_decimal(s, n / 10);
    }
    let d = (n % 10) as u8;
    push_char(s, (48u8 + d) as char);
    assert(final(s)@ =~= old(s)@ + decimal(n as nat));
}

/// `<hours>h<minutes>m`, as the settings labels show a duration.
pub fn format_duration_hours_minutes(duration: Duration) -> (r: String)
    ensures
        r@ == hours_minutes(duration@),
{
    let secs = duration.as_secs();
    let mut s = String::new();
    push_decimal(&mut s, secs / 3600);
    push_char(&mut s, 'h');
    push_decimal(&mut s, (secs / 60) % 60);
    push_char(&mut s, 'm');
    assert(s@ =~= hours_minutes(duration@));
    s
}

/// `<hours>h<minutes>m<seconds>s`, as the countdown label shows a duration.
pub fn format_duration_hours_minutes_seconds(duration: Duration) -> (r: String)
    ensures
        r@ == hours_minutes_seconds(duration@),
{
    let secs = duration.as_secs();
    let mut s = String::new();
    push_decimal(&mut s, secs / 3600);
    push_char(&mut s, 'h');
    push_decimal(&mut s, (secs / 60) % 60);
    push_char(&mut s, 'm');
    push_decimal(&mut s, secs % 60);
    push_char(&mut s, 's');
    assert(s@ =~= hours_minutes_seconds(duration@));
    s
}

} // verus!
