//! Texts for the log and for the store.

use http::HeaderMap;
use vstd::prelude::*;

use crate::duration::Duration;
use crate::trigger_delay::{all_digits, decimal_value, is_digit};

verus! {

/// The characters of a text, one by one.
pub(crate) fn chars_of(text: &str) -> (chars: Vec<char>)
    ensures
        chars@ == text@,
{
    let mut chars: Vec<char> = Vec::new();
    for c in it: text.chars()
        invariant
            it.seq() == text@,
            chars@ == it.seq().take(it.index() as int),
    {
        chars.push(c);
    }
    chars
}

/// The character that writes the digit `d`.
pub open spec fn digit_char(d: nat) -> char {
    if d == 0 {
        '0'
    } else if d == 1 {
        '1'
    } else if d == 2 {
        '2'
    } else if d == 3 {
        '3'
    } else if d == 4 {
        '4'
    } else if d == 5 {
        '5'
    } else if d == 6 {
        '6'
    } else if d == 7 {
        '7'
    } else if d == 8 {
        '8'
    } else {
        '9'
    }
}

/// The number `n` in base ten, without leading zeros.
pub open spec fn decimal_text(n: nat) -> Seq<char>
    decreases n,
{
    if n < 10 {
        seq![digit_char(n)]
    } else {
        decimal_text(n / 10).push(digit_char(n % 10))
    }
}

/// The number `n` in base ten, in two places at least.
pub open spec fn padded_text(n: nat) -> Seq<char> {
    if n < 10 {
        seq!['0', digit_char(n)]
    } else {
        decimal_text(n)
    }
}

/// A span of time as the log shows it: the whole hours, the whole
/// minutes and the seconds past the minute, each in two places at least
/// and with colons between them. The minutes are those of the whole span,
/// not those past the hour. What is less than a second is left out.
pub open spec fn duration_text(duration: Duration) -> Seq<char> {
    let seconds = duration@ / 1000;
    let minutes = seconds / 60;
    let hours = minutes / 60;
    padded_text(hours) + seq![':'] + padded_text(minutes) + seq![':'] + padded_text(seconds % 60)
}

/// The text of one digit.
fn digit_str(d: u128) -> (text: &'static str)
    requires
        d < 10,
    ensures
        text@ == seq![digit_char(d as nat)],
{
    proof {
        reveal_strlit("0");
        reveal_strlit("1");
        reveal_strlit("2");
        reveal_strlit("3");
        reveal_strlit("4");
        reveal_strlit("5");
        reveal_strlit("6");
        reveal_strlit("7");
        reveal_strlit("8");
        reveal_strlit("9");
    }
    if d == 0 {
        "0"
    } else if d == 1 {
        "1"
    } else if d == 2 {
        "2"
    } else if d == 3 {
        "3"
    } else if d == 4 {
        "4"
    } else if d == 5 {
        "5"
    } else if d == 6 {
        "6"
    } else if d == 7 {
        "7"
    } else if d == 8 {
        "8"
    } else {
        "9"
    }
}

/// Writes `n` in base ten behind `text`.
fn push_decimal(text: &mut String, n: u128)
    ensures
        final(text)@ == old(text)@ + decimal_text(n as nat),
    decreases n,
{
    if n >= 10 {
        push_decimal(text, n / 10);
    }
    text.append(digit_str(n % 10));
}

/// Writes `n` in base ten behind `text`, in two places at least.
fn push_padded(text: &mut String, n: u128)
    ensures
        final(text)@ == old(text)@ + padded_text(n as nat),
{
    if n < 10 {
        proof {
            reveal_strlit("0");
        }
        text.append("0");
    }
    push_decimal(text, n);
}

/// A span of time as the log shows it.
pub fn format_duration(duration: Duration) -> (text: String)
    ensures
        text@ == duration_text(duration),
{
    let seconds: u128 = duration.as_secs();
    let minutes: u128 = seconds / 60;
    let hours: u128 = minutes / 60;
    let mut text = String::new();
    proof {
        reveal_strlit(":");
    }
    push_padded(&mut text, hours);
    text.append(":");
    push_padded(&mut text, minutes);
    text.append(":");
    push_padded(&mut text, seconds % 60);
    text
}

/// What `decimal_text` writes, a delay token reads back: the text holds
/// digits only, and its value is the number that was written.
pub proof fn decimal_text_reads_back(n: nat)
    ensures
        decimal_text(n).len() >= 1,
        all_digits(decimal_text(n)),
        decimal_value(decimal_text(n)) == n,
    decreases n,
{
    if n < 10 {
        let text = decimal_text(n);
        assert(decimal_value(text.drop_last()) == 0);
    } else {
        decimal_text_reads_back(n / 10);
        let text = decimal_text(n);
        assert(text.drop_last() =~= decimal_text(n / 10));
        assert forall|i: int| 0 <= i < text.len() implies is_digit(#[trigger] text[i]) by {}
    }
}

/// The headers of a map as `std::fmt::Debug` writes them down for an
/// `http::HeaderMap`: every name with every value, in the order in which
/// the map walks them. The text is made of the map alone.
pub uninterp spec fn header_debug_text(headers: HeaderMap) -> Seq<char>;

/// The headers of a submission as the store keeps them: what
/// `std::fmt::Debug` writes for the `http::HeaderMap`. Trusted: the
/// result is what `header_debug_text` names.
#[verifier::external_body]
pub fn convert(headers: &HeaderMap) -> (text: String)
    ensures
        text@ == header_debug_text(*headers),
{
    format!("{:?}", headers)
}

} // verus!
