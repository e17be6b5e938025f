//! Readouts of the stopwatch and the timer.

use vstd::prelude::*;
use crate::text::{
    decimal, decimal_string, law_decimal_injective, law_padded_injective, law_padded_len, padded,
    padded_string,
};

verus! {

broadcast use vstd::string::group_string_axioms;

/// Nanoseconds in a second.
pub const SECOND: u128 = 1_000_000_000;

/// Nanoseconds in a hundredth of a second.
pub const CENTISECOND: u128 = 10_000_000;

/// `seconds` as minutes and seconds, after the hours where there are any:
/// "01:23" or "1:02:03".
pub open spec fn clock_text(seconds: nat) -> Seq<char> {
    let short = padded((seconds / 60) % 60) + seq![':'] + padded(seconds % 60);
    if seconds >= 3600 {
        decimal(seconds / 3600) + seq![':'] + short
    } else {
        short
    }
}

/// `nanos` with hundredths of a second: "01:23.45" or "1:02:03.45".
pub open spec fn elapsed_text(nanos: nat) -> Seq<char> {
    let hundredths = nanos / (CENTISECOND as nat);
    clock_text(hundredths / 100) + seq!['.'] + padded(hundredths % 100)
}

/// `nanos` to the second: "01:23" or "1:02:03".
pub open spec fn elapsed_short_text(nanos: nat) -> Seq<char> {
    clock_text(nanos / (SECOND as nat))
}

/// Two readouts read the same only where they stand for the same number of seconds.
pub proof fn law_clock_text_injective(a: nat, b: nat)
    requires
        clock_text(a) == clock_text(b),
    ensures
        a == b,
{
    let short_a = padded((a / 60) % 60) + seq![':'] + padded(a % 60);
    let short_b = padded((b / 60) % 60) + seq![':'] + padded(b % 60);
    lemma_short_len(a);
    lemma_short_len(b);
    let n = clock_text(a).len();
    assert(clock_text(a).skip(n - 5) == short_a);
    assert(clock_text(b).skip(n - 5) == short_b);
    assert(short_a.skip(3) == padded(a % 60) && short_b.skip(3) == padded(b % 60));
    assert(short_a.take(2) == padded((a / 60) % 60) && short_b.take(2) == padded((b / 60) % 60));
    law_padded_injective(a % 60, b % 60);
    law_padded_injective((a / 60) % 60, (b / 60) % 60);
    if a >= 3600 && b >= 3600 {
        assert(clock_text(a).take(n - 6) == decimal(a / 3600));
        assert(clock_text(b).take(n - 6) == decimal(b / 3600));
        law_decimal_injective(a / 3600, b / 3600);
    }
}

/// Below the hour a readout has five characters, above it more than six.
proof fn lemma_short_len(seconds: nat)
    ensures
        (padded((seconds / 60) % 60) + seq![':'] + padded(seconds % 60)).len() == 5,
        padded((seconds / 60) % 60).len() == 2,
        padded(seconds % 60).len() == 2,
        seconds < 3600 ==> clock_text(seconds).len() == 5,
        seconds >= 3600 ==> clock_text(seconds).len() == decimal(seconds / 3600).len() + 6,
{
    law_padded_len((seconds / 60) % 60);
    law_padded_len(seconds % 60);
}

/// The readout with hundredths starts with the readout to the second.
pub proof fn law_elapsed_extends_short(nanos: nat)
    ensures
        elapsed_text(nanos) == elapsed_short_text(nanos) + seq!['.'] + padded(
            (nanos / (CENTISECOND as nat)) % 100,
        ),
{
    assert(nanos / (CENTISECOND as nat) / 100 == nanos / (SECOND as nat));
}

fn clock_string(seconds: u128) -> (text: String)
    ensures
        text@ == clock_text(seconds as nat),
{
    let secs: u128 = seconds % 60;
    let mins: u128 = (seconds / 60) % 60;
    let hours: u128 = seconds / 3600;
    let mut short = padded_string(mins);
    short.push(':');
    short.append(padded_string(secs).as_str());
    assert(short@ == padded(mins as nat) + seq![':'] + padded(secs as nat));
    if hours > 0 {
        let mut text = decimal_string(hours);
        text.push(':');
        text.append(short.as_str());
        assert(text@ == decimal(hours as nat) + seq![':'] + short@);
        text
    } else {
        short
    }
}

/// Stopwatch readout with centiseconds, e.g. "01:23.45" or "1:02:03.45".
pub fn format_elapsed(nanos: u128) -> (text: String)
    ensures
        text@ == elapsed_text(nanos as nat),
{
    let hundredths: u128 = nanos / CENTISECOND;
    let mut text = clock_string(hundredths / 100);
    text.push('.');
    text.append(padded_string(hundredths % 100).as_str());
    assert(text@ == clock_text((hundredths / 100) as nat) + seq!['.'] + padded(
        (hundredths % 100) as nat,
    ));
    text
}

/// Compact stopwatch or timer readout for the panel, no centiseconds: "01:23" or "1:02:03".
pub fn format_elapsed_short(nanos: u128) -> (text: String)
    ensures
        text@ == elapsed_short_text(nanos as nat),
{
    clock_string(nanos / SECOND)
}

} // verus!
