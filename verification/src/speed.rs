//! The speed limit as the user writes it: a number, then `B`, `KB` or `MB`,
//! or nothing, which is `B`.

use crate::text::{digits_len, is_digit, lemma_digits_len_is, same_text};
use vstd::prelude::*;
use vstd::string::*;

verus! {

/// Why a speed limit was refused.
#[derive(Clone, Copy, Debug, PartialEq, Eq, Structural)]
pub enum SpeedLimitError {
    /// The text is not a number followed by `B`, `KB`, `MB` or nothing.
    Malformed,
    /// The limit is more bytes per second than can be counted.
    TooLarge,
}

/// The value of a decimal digit.
pub open spec fn digit_value(c: char) -> nat {
    (c as nat - '0' as nat) as nat
}

/// The number that a sequence of digits writes.
pub open spec fn decimal_value(digits: Seq<char>) -> nat
    decreases digits.len(),
{
    if digits.len() == 0 {
        0
    } else {
        10 * decimal_value(digits.drop_last()) + digit_value(digits.last())
    }
}

/// How many bytes one of `unit` is; `None` where `unit` is no unit. A
/// kilobyte is 1024 bytes and a megabyte 1024 kilobytes.
pub open spec fn unit_factor(unit: Seq<char>) -> Option<nat> {
    if unit.len() == 0 || unit == "B"@ {
        Some(1)
    } else if unit == "KB"@ {
        Some(1024)
    } else if unit == "MB"@ {
        Some(1024 * 1024)
    } else {
        None
    }
}

/// The bytes per second that `s` stands for: the number that its leading
/// digits write, times what its unit holds. `Malformed` where it begins with
/// no digit or what follows the digits is no unit.
pub open spec fn speed_limit_of(s: Seq<char>) -> Result<nat, SpeedLimitError> {
    let n = digits_len(s) as int;
    let factor = unit_factor(s.subrange(n, s.len() as int));
    if n == 0 || factor is None {
        Err(SpeedLimitError::Malformed)
    } else {
        Ok(decimal_value(s.subrange(0, n)) * factor->0)
    }
}

/// Parses a speed limit into bytes per second. A limit that does not fit
/// into 32 bits is refused as too large.
pub fn parse_speed_limit(s: &str) -> (r: Result<u32, SpeedLimitError>)
    ensures
        match speed_limit_of(s@) {
            Ok(bytes) => if bytes <= u32::MAX {
                r == Ok::<u32, SpeedLimitError>(bytes as u32)
            } else {
                r == Err::<u32, SpeedLimitError>(SpeedLimitError::TooLarge)
            },
            Err(error) => r == Err::<u32, SpeedLimitError>(error),
        },
{
    let len = s.unicode_len();
    let mut value: u64 = 0;
    let mut huge = false;
    let mut n: usize = 0;
    assert(s@.subrange(0, 0) =~= Seq::<char>::empty());
    let mut scanning = true;
    while scanning && n < len
        invariant
            n <= len,
            len == s@.len(),
            forall|j: int| 0 <= j < n ==> is_digit(s@[j]),
            !scanning ==> n < len && !is_digit(s@[n as int]),
            !huge ==> value == decimal_value(s@.subrange(0, n as int)),
            huge ==> decimal_value(s@.subrange(0, n as int)) > u32::MAX,
            value <= u32::MAX,
        decreases len - n + (if scanning { 1int } else { 0int }),
    {
        let c = s.get_char(n);
        if '0' <= c && c <= '9' {
            let digit: u64 = (c as u32 - '0' as u32) as u64;
            proof {
                let now = s@.subrange(0, n as int + 1);
                assert(now.drop_last() =~= s@.subrange(0, n as int));
                assert(now.last() == c);
                assert(digit == digit_value(c));
            }
            if !huge {
                value = value * 10 + digit;
                if value > 0xffff_ffff {
                    huge = true;
                    value = 0;
                }
            }
            n += 1;
        } else {
            scanning = false;
        }
    }
    proof {
        lemma_digits_len_is(s@, n as int);
    }
    let unit = s.substring_char(n, len);
    let factor: u64 = if unit.unicode_len() == 0 || same_text(unit, "B") {
        1
    } else if same_text(unit, "KB") {
        1024
    } else if same_text(unit, "MB") {
        1024 * 1024
    } else {
        return Err(SpeedLimitError::Malformed);
    };
    if n == 0 {
        return Err(SpeedLimitError::Malformed);
    }
    assert(unit_factor(unit@) == Some(factor as nat));
    if huge {
        assert(decimal_value(s@.subrange(0, n as int)) * factor > u32::MAX) by (nonlinear_arith)
            requires
                decimal_value(s@.subrange(0, n as int)) > u32::MAX,
                factor >= 1,
        ;
        return Err(SpeedLimitError::TooLarge);
    }
    assert(value * factor <= 0xffff_ffff * 0x10_0000) by (nonlinear_arith)
        requires
            value <= 0xffff_ffff,
            factor <= 0x10_0000,
    ;
    let bytes: u64 = value * factor;
    if bytes > 0xffff_ffff {
        Err(SpeedLimitError::TooLarge)
    } else {
        Ok(bytes as u32)
    }
}

/// A number followed by a unit stands for the number times what the unit
/// holds: `digits` is one digit or more and `unit` is `B`, `KB`, `MB` or
/// empty. Any other text after the digits, and no digit at all, is
/// malformed.
pub proof fn law_number_and_unit(digits: Seq<char>, unit: Seq<char>)
    requires
        forall|j: int| 0 <= j < digits.len() ==> is_digit(digits[j]),
        unit.len() > 0 ==> !is_digit(unit[0]),
    ensures
        speed_limit_of(digits + unit) == if digits.len() == 0 || unit_factor(unit) is None {
            Err::<nat, SpeedLimitError>(SpeedLimitError::Malformed)
        } else {
            Ok::<nat, SpeedLimitError>(decimal_value(digits) * unit_factor(unit)->0)
        },
        unit_factor(unit) is Some <==> unit.len() == 0 || unit == "B"@ || unit == "KB"@ || unit
            == "MB"@,
        unit == "KB"@ ==> unit_factor(unit) == Some(1024nat),
        unit == "MB"@ ==> unit_factor(unit) == Some(1048576nat),
{
    let s = digits + unit;
    let n = digits.len() as int;
    assert forall|j: int| 0 <= j < n implies is_digit(s[j]) by {
        assert(s[j] == digits[j]);
    }
    if n < s.len() {
        assert(s[n] == unit[0]);
    }
    lemma_digits_len_is(s, n);
    assert(s.subrange(0, n) =~= digits);
    assert(s.subrange(n, s.len() as int) =~= unit);
    reveal_strlit("B");
    reveal_strlit("KB");
    reveal_strlit("MB");
    assert("B"@.len() == 1 && "KB"@.len() == 2 && "MB"@.len() == 2);
    assert("KB"@[0] == 'K' && "MB"@[0] == 'M');
}

} // verus!
