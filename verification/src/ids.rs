//! Job identifiers and submission timestamps. Ids are time-derived: the
//! wall clock in nanoseconds, rendered in hexadecimal, which keeps them
//! distinguishable under the expected submission rate.

use vstd::prelude::*;
use vstd::string::StringExecFns;

verus! {

/// Relies on `std::time::SystemTime::now` and its `duration_since` of
/// `UNIX_EPOCH`: the wall clock in nanoseconds since the epoch, or `None`
/// when the clock reads earlier than the epoch. Nothing is promised of the
/// clock's value.
#[verifier::external_body]
fn now_unix_nanos() -> Option<u128> {
    match std::time::SystemTime::now().duration_since(std::time::UNIX_EPOCH) {
        Ok(d) => Some(d.as_nanos()),
        Err(_) => None,
    }
}

/// The whole seconds a clock reading in nanoseconds stands for: the
/// nanoseconds divided down, saturated at `u64::MAX`, and zero for a
/// reading from before the epoch.
pub open spec fn secs_of_reading(reading: Option<u128>) -> u64 {
    match reading {
        Some(v) => if v / 1_000_000_000 > u64::MAX as u128 {
            u64::MAX
        } else {
            (v / 1_000_000_000) as u64
        },
        None => 0,
    }
}

/// Convert a clock reading to whole seconds, exactly as `secs_of_reading`
/// states it.
pub fn nanos_to_secs(reading: Option<u128>) -> (r: u64)
    ensures
        r == secs_of_reading(reading),
{
    match reading {
        Some(v) => {
            let s = v / 1_000_000_000;
            if s > u64::MAX as u128 {
                u64::MAX
            } else {
                s as u64
            }
        },
        None => 0,
    }
}

/// Submission timestamps: whole seconds since the Unix epoch by the wall
/// clock — the current reading put through `secs_of_reading`, so zero when
/// the clock reads earlier than the epoch.
pub fn now_secs() -> u64 {
    nanos_to_secs(now_unix_nanos())
}

/// The character a single hexadecimal digit renders as.
pub open spec fn hex_digit_char(d: int) -> char
    recommends
        0 <= d < 16,
{
    if d == 0 {
        '0'
    } else if d == 1 {
        '1'
    } else if d == 2 {
        '2'
    } else if d == 3 {
        '3'
    } else if d == 4 {
        '4'
    } else if d == 5 {
        '5'
    } else if d == 6 {
        '6'
    } else if d == 7 {
        '7'
    } else if d == 8 {
        '8'
    } else if d == 9 {
        '9'
    } else if d == 10 {
        'a'
    } else if d == 11 {
        'b'
    } else if d == 12 {
        'c'
    } else if d == 13 {
        'd'
    } else if d == 14 {
        'e'
    } else {
        'f'
    }
}

/// The hexadecimal rendering of a number, most significant digit first,
/// without leading zeroes (a single `0` for zero itself).
pub open spec fn hex_of(n: nat) -> Seq<char>
    decreases n,
{
    if n < 16 {
        seq![hex_digit_char(n as int)]
    } else {
        hex_of(n / 16) + seq![hex_digit_char((n % 16) as int)]
    }
}

pub open spec fn is_hex_char(c: char) -> bool {
    ||| c == '0'
    ||| c == '1'
    ||| c == '2'
    ||| c == '3'
    ||| c == '4'
    ||| c == '5'
    ||| c == '6'
    ||| c == '7'
    ||| c == '8'
    ||| c == '9'
    ||| c == 'a'
    ||| c == 'b'
    ||| c == 'c'
    ||| c == 'd'
    ||| c == 'e'
    ||| c == 'f'
}

/// A hexadecimal rendering is never empty and holds hex digits only.
pub proof fn hex_of_wf(n: nat)
    ensures
        hex_of(n).len() >= 1,
        forall|i: int| 0 <= i < hex_of(n).len() ==> is_hex_char(hex_of(n)[i]),
    decreases n,
{
    if n >= 16 {
        hex_of_wf(n / 16);
    }
}

fn hex_digit_str(d: u128) -> (r: &'static str)
    requires
        d < 16,
    ensures
        r@ =~= seq![hex_digit_char(d as int)],
{
    proof {
        reveal_strlit("0");
        reveal_strlit("1");
        reveal_strlit("2");
        reveal_strlit("3");
        reveal_strlit("4");
        reveal_strlit("5");
        reveal_strlit("6");
        reveal_strlit("7");
        reveal_strlit("8");
        reveal_strlit("9");
        reveal_strlit("a");
        reveal_strlit("b");
        reveal_strlit("c");
        reveal_strlit("d");
        reveal_strlit("e");
        reveal_strlit("f");
    }
    match d {
        0 => "0",
        1 => "1",
        2 => "2",
        3 => "3",
        4 => "4",
        5 => "5",
        6 => "6",
        7 => "7",
        8 => "8",
        9 => "9",
        10 => "a",
        11 => "b",
        12 => "c",
        13 => "d",
        14 => "e",
        _ => "f",
    }
}

/// Render a number in hexadecimal, exactly as `hex_of` states it.
pub fn u128_to_hex(n: u128) -> (r: String)
    ensures
        r@ == hex_of(n as nat),
    decreases n,
{
    if n < 16 {
        String::from_str(hex_digit_str(n))
    } else {
        let prefix = u128_to_hex(n / 16);
        prefix.concat(hex_digit_str(n % 16))
    }
}

/// A fresh, time-derived job id: always a non-empty string of hexadecimal
/// digits. Which digits come out depends on the clock.
pub fn generate_id() -> (r: String)
    ensures
        r@.len() >= 1,
        forall|i: int| 0 <= i < r@.len() ==> is_hex_char(r@[i]),
{
    let n: u128 = match now_unix_nanos() {
        Some(v) => v,
        None => 0,
    };
    let r = u128_to_hex(n);
    proof {
        hex_of_wf(n as nat);
    }
    r
}

} // verus!
