//! Start-up timing messages.

use vstd::prelude::*;
use vstd::string::*;
use std::time::Instant;

verus! {

/// `std::time::Instant`, a clock reading the library only passes along.
#[verifier::external_type_specification]
#[verifier::external_body]
pub struct ExInstant(Instant);

/// Calls `std::time::Instant::now`.  Nothing is claimed of the reading: it
/// comes from the system clock.
#[verifier::external_body]
fn instant_now() -> Instant {
    Instant::now()
}

/// The whole milliseconds from `earlier` to `later`, zero when `later` is
/// not after `earlier`: what `later.duration_since(earlier).as_millis()`
/// gives, a function of the two clock readings alone.
pub uninterp spec fn millis_between(later: Instant, earlier: Instant) -> u128;

/// Calls `std::time::Instant::duration_since` and then
/// `std::time::Duration::as_millis`.  Claims only that the result is
/// `millis_between` of the two readings.
#[verifier::external_body]
fn millis_since(later: &Instant, earlier: &Instant) -> (r: u128)
    ensures
        r == millis_between(*later, *earlier),
{
    later.duration_since(*earlier).as_millis()
}

/// The character of a decimal digit.
pub open spec fn digit_char(d: int) -> char {
    if d == 0 {
        '0'
    } else if d == 1 {
        '1'
    } else if d == 2 {
        '2'
    } else if d == 3 {
        '3'
    } else if d == 4 {
        '4'
    } else if d == 5 {
        '5'
    } else if d == 6 {
        '6'
    } else if d == 7 {
        '7'
    } else if d == 8 {
        '8'
    } else {
        '9'
    }
}

/// The decimal notation of `n`, without leading zeros.
pub open spec fn decimal(n: nat) -> Seq<char>
    decreases n,
{
    if n < 10 {
        seq![digit_char(n as int)]
    } else {
        decimal(n / 10) + seq![digit_char((n % 10) as int)]
    }
}

/// The message for a start-up step: `"<label>: +<since_last>ms (total <total>ms)"`.
pub open spec fn step_message_spec(label: Seq<char>, since_last_ms: nat, total_ms: nat) -> Seq<char> {
    label + seq![':', ' ', '+'] + decimal(since_last_ms) + seq!['m', 's', ' ', '(', 't', 'o', 't', 'a', 'l', ' ']
        + decimal(total_ms) + seq!['m', 's', ')']
}

fn digit_str(d: u128) -> (r: &'static str)
    requires
        d < 10,
    ensures
        r@ == seq![digit_char(d as int)],
{
    proof {
        reveal_strlit("0");
        reveal_strlit("1");
        reveal_strlit("2");
        reveal_strlit("3");
        reveal_strlit("4");
        reveal_strlit("5");
        reveal_strlit("6");
        reveal_strlit("7");
        reveal_strlit("8");
        reveal_strlit("9");
    }
    let r = if d == 0 {
        "0"
    } else if d == 1 {
        "1"
    } else if d == 2 {
        "2"
    } else if d == 3 {
        "3"
    } else if d == 4 {
        "4"
    } else if d == 5 {
        "5"
    } else if d == 6 {
        "6"
    } else if d == 7 {
        "7"
    } else if d == 8 {
        "8"
    } else {
        "9"
    };
    assert(r@ =~= seq![digit_char(d as int)]);
    r
}

/// Appends the decimal notation of `n` to `s`.
pub fn append_decimal(s: &mut String, n: u128)
    ensures
        final(s)@ == old(s)@ + decimal(n as nat),
    decreases n,
{
    if n >= 10 {
        append_decimal(s, n / 10);
    }
    s.append(digit_str(n % 10));
    assert(decimal(n as nat) == if n < 10 {
        seq![digit_char(n as int)]
    } else {
        decimal((n / 10) as nat) + seq![digit_char((n % 10) as int)]
    });
}

/// The message that reports how long a start-up step took.
pub fn step_message(label: &str, since_last_ms: u128, total_ms: u128) -> (r: String)
    ensures
        r@ == step_message_spec(label@, since_last_ms as nat, total_ms as nat),
{
    proof {
        reveal_strlit(": +");
        reveal_strlit("ms (total ");
        reveal_strlit("ms)");
    }
    let mut message = String::from_str(label);
    message.append(": +");
    append_decimal(&mut message, since_last_ms);
    message.append("ms (total ");
    append_decimal(&mut message, total_ms);
    message.append("ms)");
    assert(message@ =~= step_message_spec(label@, since_last_ms as nat, total_ms as nat));
    message
}

/// Marks the end of a start-up step: reads the clock once, moves `last` to
/// that reading and returns the message that reports the milliseconds from
/// the previous step's reading and from `start` to it.
pub fn log_step(start: Instant, last: &mut Instant, label: &str) -> (message: String)
    ensures
        exists|now: Instant|
            *final(last) == now && message@ == step_message_spec(
                label@,
                millis_between(now, *old(last)) as nat,
                millis_between(now, start) as nat,
            ),
{
    let now = instant_now();
    let since_last = millis_since(&now, last);
    let total = millis_since(&now, &start);
    let message = step_message(label, since_last, total);
    *last = now;
    message
}

} // verus!
