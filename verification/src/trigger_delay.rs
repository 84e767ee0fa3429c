//! Delay tokens: a decimal count followed by one unit letter.

use vstd::prelude::*;
use vstd::string::*;
use vstd::utf8::is_ascii_chars;

use crate::duration::Duration;
use crate::utils::{decimal_text, decimal_text_reads_back};

verus! {

/// Whether `c` is one of the ten decimal digits.
pub open spec fn is_digit(c: char) -> bool {
    '0' <= c <= '9'
}

/// The number that the digit `c` stands for; zero for any other character.
pub open spec fn digit_value(c: char) -> nat {
    if is_digit(c) {
        (c as int - '0' as int) as nat
    } else {
        0
    }
}

/// Whether `s` holds decimal digits and nothing else.
pub open spec fn all_digits(s: Seq<char>) -> bool {
    forall|i: int| 0 <= i < s.len() ==> is_digit(#[trigger] s[i])
}

/// The number that `s` writes in base ten, most significant digit first.
pub open spec fn decimal_value(s: Seq<char>) -> nat
    decreases s.len(),
{
    if s.len() == 0 {
        0
    } else {
        decimal_value(s.drop_last()) * 10 + digit_value(s.last())
    }
}

/// The seconds that one unit lasts, for the four unit letters.
pub open spec fn unit_seconds(unit: char) -> nat {
    if unit == 's' {
        1
    } else if unit == 'm' {
        60
    } else if unit == 'h' {
        3600
    } else {
        86400
    }
}

/// A delay as its token states it: a count and the unit it is counted in.
#[derive(Clone, Copy, Debug, PartialEq, Eq, Structural)]
pub enum TriggerTime {
    Minute(u64),
    Second(u64),
    Hour(u64),
    Day(u64),
}

impl TriggerTime {
    /// The seconds that this delay lasts.
    pub open spec fn seconds(self) -> nat {
        match self {
            TriggerTime::Minute(n) => n as nat * 60,
            TriggerTime::Second(n) => n as nat,
            TriggerTime::Hour(n) => n as nat * 3600,
            TriggerTime::Day(n) => n as nat * 86400,
        }
    }

    /// The delay of `count` units, where `unit` is one of the letters
    /// `s`, `m`, `h` and `d`.
    pub open spec fn with_unit(unit: char, count: u64) -> Option<TriggerTime> {
        if unit == 's' {
            Some(TriggerTime::Second(count))
        } else if unit == 'm' {
            Some(TriggerTime::Minute(count))
        } else if unit == 'h' {
            Some(TriggerTime::Hour(count))
        } else if unit == 'd' {
            Some(TriggerTime::Day(count))
        } else {
            None
        }
    }

    /// What a token means. A token is one or more decimal digits, whose
    /// value fits in 64 bits, followed by exactly one unit letter. Every
    /// other text means nothing.
    pub open spec fn parsed(token: Seq<char>) -> Option<TriggerTime> {
        if token.len() >= 2 && all_digits(token.drop_last()) && decimal_value(token.drop_last())
            <= u64::MAX {
            Self::with_unit(token.last(), decimal_value(token.drop_last()) as u64)
        } else {
            None
        }
    }

    /// The span of time that a token asks for, if it is a token at all.
    pub open spec fn resolved(token: Seq<char>) -> Option<Duration> {
        match Self::parsed(token) {
            Some(delay) => Some(Duration::of_secs(delay.seconds())),
            None => None,
        }
    }

    /// Turns the delay into a span of time.
    pub fn to_duration(&self) -> (d: Duration)
        ensures
            d == Duration::of_secs(self.seconds()),
    {
        match self {
            TriggerTime::Minute(mins) => {
                let wide: u128 = *mins as u128;
                Duration { millis: wide * 60_000 }
            },
            TriggerTime::Second(secs) => Duration::from_secs(*secs),
            TriggerTime::Hour(hours) => {
                let wide: u128 = *hours as u128;
                Duration { millis: wide * 3_600_000 }
            },
            TriggerTime::Day(days) => {
                let wide: u128 = *days as u128;
                Duration { millis: wide * 86_400_000 }
            },
        }
    }

    /// Reads a token.
    pub fn parse(token: &str) -> (delay: Option<TriggerTime>)
        ensures
            delay == Self::parsed(token@),
    {
        if !token.is_ascii() {
            proof {
                lemma_tokens_are_ascii(token@);
            }
            return None;
        }
        let bytes = token.as_bytes();
        proof {
            is_ascii_spec_bytes(token);
        }
        let len: usize = bytes.len();
        if len < 2 {
            return None;
        }
        let ghost digits = token@.drop_last();
        let mut count: u64 = 0;
        let mut i: usize = 0;
        while i < len - 1
            invariant
                2 <= len == bytes@.len() == token@.len(),
                forall|k: int| 0 <= k < len ==> token@[k] as u8 == #[trigger] bytes@[k],
                is_ascii_chars(token@),
                digits == token@.drop_last(),
                0 <= i <= len - 1,
                all_digits(digits.take(i as int)),
                count as nat == decimal_value(digits.take(i as int)),
            decreases len - 1 - i,
        {
            let b: u8 = bytes[i];
            assert(digits.take(i + 1).drop_last() == digits.take(i as int));
            if b < 48 || b > 57 {
                assert(!is_digit(digits[i as int]));
                return None;
            }
            let digit: u64 = (b - 48) as u64;
            let next: Option<u64> = match count.checked_mul(10) {
                Some(tens) => tens.checked_add(digit),
                None => None,
            };
            match next {
                Some(n) => {
                    count = n;
                },
                None => {
                    proof {
                        lemma_decimal_value_grows(digits, i + 1);
                    }
                    return None;
                },
            }
            i += 1;
        }
        assert(digits.take(i as int) == digits);
        let unit: u8 = bytes[len - 1];
        if unit == 115 {
            Some(TriggerTime::Second(count))
        } else if unit == 109 {
            Some(TriggerTime::Minute(count))
        } else if unit == 104 {
            Some(TriggerTime::Hour(count))
        } else if unit == 100 {
            Some(TriggerTime::Day(count))
        } else {
            None
        }
    }

    /// Resolves the delay token of a submission, if it carries one. The
    /// result is the span that the token asks for; a submission without a
    /// token, and one whose token is malformed, resolve to nothing.
    pub fn from_string(s: Option<String>) -> (d: Option<Duration>)
        ensures
            d == match s {
                Some(token) => Self::resolved(token@),
                None => None,
            },
    {
        match s {
            Some(token) => match Self::parse(token.as_str()) {
                Some(delay) => Some(delay.to_duration()),
                None => None,
            },
            None => None,
        }
    }
}

/// A count written in base ten with a unit letter behind it is a token,
/// and it resolves to that count of seconds, minutes, hours or days.
pub proof fn written_token_resolves(count: u64, unit: char)
    requires
        unit == 's' || unit == 'm' || unit == 'h' || unit == 'd',
    ensures
        TriggerTime::resolved(decimal_text(count as nat).push(unit)) == Some(
            Duration::of_secs(count as nat * unit_seconds(unit)),
        ),
{
    let digits = decimal_text(count as nat);
    let token = digits.push(unit);
    decimal_text_reads_back(count as nat);
    assert(token.drop_last() == digits);
    let n = count as nat;
    let each = unit_seconds(unit);
    let whole = match TriggerTime::with_unit(unit, count) {
        Some(delay) => delay.seconds(),
        None => 0,
    };
    assert(n * each == whole) by (nonlinear_arith)
        requires
            (each == 1 && whole == n) || (each == 60 && whole == n * 60) || (each == 3600 && whole
                == n * 3600) || (each == 86400 && whole == n * 86400),
    ;
}

/// A text with a character beyond ASCII is no token.
proof fn lemma_tokens_are_ascii(token: Seq<char>)
    requires
        !is_ascii_chars(token),
    ensures
        TriggerTime::parsed(token) is None,
{
    let i = choose|i: int| 0 <= i < token.len() && !('\0' <= #[trigger] token[i] <= '\u{7f}');
    if token.len() >= 2 {
        if i < token.len() - 1 {
            assert(!is_digit(token.drop_last()[i]));
        }
    }
}

/// Writing more digits behind a number never makes it smaller.
proof fn lemma_decimal_value_grows(s: Seq<char>, n: int)
    requires
        0 <= n <= s.len(),
    ensures
        decimal_value(s.take(n)) <= decimal_value(s),
    decreases s.len() - n,
{
    if n == s.len() {
        assert(s.take(n) == s);
    } else {
        lemma_decimal_value_grows(s, n + 1);
        assert(s.take(n + 1).drop_last() == s.take(n));
    }
}

} // verus!
