//! Decision logic behind the command handlers: resolving effective settings
//! from the loaded configuration and the command-line override, and parsing
//! a record id out of its command-line text.

use vstd::prelude::*;
use vstd::string::StrSliceExecFns;

use crate::domain::Settings;
use crate::domain::TodoError;

verus! {

/// Whether `c` is a decimal digit.
pub open spec fn is_digit(c: char) -> bool {
    48 <= c as u32 && c as u32 <= 57
}

/// The value of a decimal digit.
pub open spec fn digit_val(c: char) -> int {
    c as u32 - 48
}

/// The value of a digit string, most significant digit first.
pub open spec fn digits_val(s: Seq<char>) -> int
    decreases s.len(),
{
    if s.len() == 0 {
        0
    } else {
        digits_val(s.drop_last()) * 10 + digit_val(s.last())
    }
}

pub open spec fn all_digits(s: Seq<char>) -> bool {
    forall|i: int| 0 <= i < s.len() ==> is_digit(#[trigger] s[i])
}

/// What parsing a signed 64-bit decimal integer yields: an optional sign,
/// then at least one digit and nothing else, within the type's range.
pub open spec fn parse_i64_spec(s: Seq<char>) -> Option<i64> {
    let negative = s.len() > 0 && s[0] == '-';
    let digits = if s.len() > 0 && (s[0] == '-' || s[0] == '+') {
        s.skip(1)
    } else {
        s
    };
    if digits.len() == 0 || !all_digits(digits) {
        None
    } else if negative {
        if digits_val(digits) <= 0x8000_0000_0000_0000 {
            Some((-digits_val(digits)) as i64)
        } else {
            None
        }
    } else {
        if digits_val(digits) <= 0x7fff_ffff_ffff_ffff {
            Some(digits_val(digits) as i64)
        } else {
            None
        }
    }
}

proof fn lemma_digits_val_nonneg(s: Seq<char>)
    requires
        all_digits(s),
    ensures
        digits_val(s) >= 0,
    decreases s.len(),
{
    if s.len() > 0 {
        let prefix = s.drop_last();
        assert forall|i: int| 0 <= i < prefix.len() implies is_digit(#[trigger] prefix[i]) by {
            assert(is_digit(s[i]));
        }
        lemma_digits_val_nonneg(prefix);
    }
}

/// Parses a signed 64-bit decimal integer, as the command line carries ids.
pub fn parse_i64(s: &str) -> (r: Option<i64>)
    ensures
        r == parse_i64_spec(s@),
{
    let n = s.unicode_len();
    let mut start: usize = 0;
    let mut negative = false;
    if n > 0 {
        let c0 = s.get_char(0);
        if c0 == '-' {
            negative = true;
            start = 1;
        } else if c0 == '+' {
            start = 1;
        }
    }
    if start == n {
        return None;
    }
    let ghost digits = if start == 1 {
        s@.skip(1)
    } else {
        s@
    };
    let mut mag: u128 = 0;
    let mut too_big = false;
    let mut i: usize = start;
    while i < n
        invariant
            start <= i <= n,
            n == s@.len(),
            start < n,
            start == 0 || start == 1,
            (start == 1) == (s@.len() > 0 && (s@[0] == '-' || s@[0] == '+')),
            negative == (s@.len() > 0 && s@[0] == '-'),
            digits == (if start == 1 {
                s@.skip(1)
            } else {
                s@
            }),
            forall|j: int| start <= j < i ==> is_digit(#[trigger] s@[j]),
            !too_big ==> mag == digits_val(s@.subrange(start as int, i as int)) && mag
                <= 0x8000_0000_0000_0000u128,
            too_big ==> digits_val(s@.subrange(start as int, i as int))
                > 0x8000_0000_0000_0000,
        decreases n - i,
    {
        let c = s.get_char(i);
        let cv = c as u32;
        if cv < 48 || cv > 57 {
            proof {
                let j = i - start;
                assert(digits[j as int] == s@[i as int]);
                assert(!all_digits(digits));
            }
            return None;
        }
        let d = (cv - 48) as u128;
        let ghost prefix = s@.subrange(start as int, i as int);
        let ghost prefix2 = s@.subrange(start as int, i + 1);
        proof {
            assert(prefix2.drop_last() =~= prefix);
            assert(prefix2.last() == s@[i as int]);
            assert(digits_val(prefix2) == digits_val(prefix) * 10 + digit_val(s@[i as int]));
        }
        if too_big {
            proof {
                assert forall|j: int| 0 <= j < prefix.len() implies is_digit(
                    #[trigger] prefix[j],
                ) by {
                    assert(is_digit(s@[start + j]));
                }
                lemma_digits_val_nonneg(prefix);
            }
        } else {
            let next = mag * 10 + d;
            if next > 0x8000_0000_0000_0000u128 {
                too_big = true;
            } else {
                mag = next;
            }
        }
        i = i + 1;
    }
    proof {
        assert(s@.subrange(start as int, n as int) =~= digits);
    }
    if too_big {
        return None;
    }
    if negative {
        if mag == 0x8000_0000_0000_0000u128 {
            Some(i64::MIN)
        } else {
            Some(-(mag as i64))
        }
    } else {
        if mag <= 0x7fff_ffff_ffff_ffffu128 {
            Some(mag as i64)
        } else {
            None
        }
    }
}

/// Resolves the effective settings for one invocation: the loaded
/// configuration when there is one, the system default otherwise, with the
/// logical name replaced by the command-line override when one was given.
pub fn resolve_settings(loaded: Result<Settings, TodoError>, db_arg: Option<String>) -> (r:
    Settings)
    ensures
        match (loaded, db_arg) {
            (Ok(s), None) => r == s,
            (Ok(s), Some(d)) => r.db == d && r.is_saved == s.is_saved,
            (Err(_), None) => r.db@ == "todo"@ && !r.is_saved,
            (Err(_), Some(d)) => r.db == d && !r.is_saved,
        },
{
    let base = match loaded {
        Ok(s) => s,
        Err(_) => Settings::system_default(),
    };
    match db_arg {
        Some(d) => base.update(d),
        None => base,
    }
}

} // verus!
