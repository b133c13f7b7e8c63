//! Formatting helpers: the compact "how long ago" label shown beside each
//! post, written over a duration in milliseconds.

use vstd::prelude::*;

use crate::text::push_char;

verus! {

pub const MS_PER_SECOND: u64 = 1000;

pub const MS_PER_MINUTE: u64 = 60000;

pub const MS_PER_HOUR: u64 = 3600000;

pub const MS_PER_DAY: u64 = 86400000;

pub const MS_PER_WEEK: u64 = 604800000;

/// The decimal digit `d` as a character.
pub open spec fn digit_char(d: int) -> char {
    if d == 0 {
        '0'
    } else if d == 1 {
        '1'
    } else if d == 2 {
        '2'
    } else if d == 3 {
        '3'
    } else if d == 4 {
        '4'
    } else if d == 5 {
        '5'
    } else if d == 6 {
        '6'
    } else if d == 7 {
        '7'
    } else if d == 8 {
        '8'
    } else {
        '9'
    }
}

/// The decimal writing of `n`, most significant digit first.
pub open spec fn dec_str(n: nat) -> Seq<char>
    decreases n,
{
    if n < 10 {
        seq![digit_char(n as int)]
    } else {
        dec_str(n / 10).push(digit_char((n % 10) as int))
    }
}

/// The leading minus sign of a negative quantity.
pub open spec fn sign_prefix(neg: bool) -> Seq<char> {
    if neg {
        seq!['-']
    } else {
        Seq::<char>::empty()
    }
}

/// The label for a duration of `ms` milliseconds: the count of the largest
/// whole unit that fits, then that unit's letter, with a minus sign for a
/// negative duration.
pub open spec fn duration_label_view(ms: int) -> Seq<char> {
    let neg = ms < 0;
    let m = if ms < 0 {
        -ms
    } else {
        ms
    };
    if m / (MS_PER_WEEK as int) > 0 {
        sign_prefix(neg) + dec_str((m / (MS_PER_WEEK as int)) as nat) + seq!['w']
    } else if m / (MS_PER_DAY as int) > 0 {
        sign_prefix(neg) + dec_str((m / (MS_PER_DAY as int)) as nat) + seq!['d']
    } else if m / (MS_PER_HOUR as int) > 0 {
        sign_prefix(neg) + dec_str((m / (MS_PER_HOUR as int)) as nat) + seq!['h']
    } else if m / (MS_PER_MINUTE as int) > 0 {
        sign_prefix(neg) + dec_str((m / (MS_PER_MINUTE as int)) as nat) + seq!['m']
    } else if m / (MS_PER_SECOND as int) > 0 {
        sign_prefix(neg) + dec_str((m / (MS_PER_SECOND as int)) as nat) + seq!['s']
    } else {
        sign_prefix(neg) + dec_str(m as nat) + seq!['m', 's']
    }
}

/// The digits of `s` read back to front, as characters.
pub open spec fn rev_digit_chars(s: Seq<u8>) -> Seq<char> {
    Seq::new(s.len(), |i: int| digit_char(s[s.len() - 1 - i] as int))
}

/// The decimal digit `d` as an executable character.
fn digit_to_char(d: u8) -> (c: char)
    requires
        d < 10,
    ensures
        c == digit_char(d as int),
{
    match d {
        0 => '0',
        1 => '1',
        2 => '2',
        3 => '3',
        4 => '4',
        5 => '5',
        6 => '6',
        7 => '7',
        8 => '8',
        _ => '9',
    }
}

/// The decimal writing of `n`.
pub fn u64_to_string(n: u64) -> (s: String)
    ensures
        s@ == dec_str(n as nat),
{
    if n == 0 {
        let s = String::from_str("0");
        proof {
            reveal_strlit("0");
            assert(s@ =~= dec_str(0));
        }
        return s;
    }
    let mut digits: Vec<u8> = Vec::new();
    let mut m = n;
    while m > 0
        invariant
            n > 0,
            forall|i: int| 0 <= i < digits@.len() ==> digits@[i] < 10,
            m > 0 ==> dec_str(n as nat) =~= dec_str(m as nat) + rev_digit_chars(digits@),
            m == 0 ==> dec_str(n as nat) =~= rev_digit_chars(digits@),
        decreases m,
    {
        let ghost digits0 = digits@;
        let ghost m0 = m as nat;
        let d = (m % 10) as u8;
        digits.push(d);
        m = m / 10;
        proof {
            assert(rev_digit_chars(digits@) =~= seq![digit_char(d as int)] + rev_digit_chars(
                digits0,
            ));
            if m > 0 {
                assert(dec_str(m0) =~= dec_str(m as nat).push(digit_char(d as int)));
                assert(dec_str(n as nat) =~= dec_str(m as nat) + rev_digit_chars(digits@));
            } else {
                assert(m0 < 10);
                assert(dec_str(m0) =~= seq![digit_char(d as int)]);
                assert(dec_str(n as nat) =~= rev_digit_chars(digits@));
            }
        }
    }
    let mut s = String::new();
    let mut i = digits.len();
    while i > 0
        invariant
            i <= digits@.len(),
            forall|k: int| 0 <= k < digits@.len() ==> digits@[k] < 10,
            dec_str(n as nat) =~= rev_digit_chars(digits@),
            s@ =~= rev_digit_chars(digits@).subrange(0, digits@.len() - i),
        decreases i,
    {
        i = i - 1;
        let c = digit_to_char(digits[i]);
        push_char(&mut s, c);
        proof {
            assert(s@ =~= rev_digit_chars(digits@).subrange(0, digits@.len() - i));
        }
    }
    proof {
        assert(s@ =~= rev_digit_chars(digits@));
    }
    s
}

/// The compact age label for a duration of `ms` milliseconds: whole weeks if
/// any, else whole days, hours, minutes, seconds, else the milliseconds
/// themselves.
pub fn get_duration_string(ms: i64) -> (s: String)
    requires
        ms > i64::MIN,
    ensures
        s@ == duration_label_view(ms as int),
{
    proof {
        reveal_strlit("w");
        reveal_strlit("d");
        reveal_strlit("h");
        reveal_strlit("m");
        reveal_strlit("s");
        reveal_strlit("ms");
    }
    let neg = ms < 0;
    let m: u64 = if neg {
        (-ms) as u64
    } else {
        ms as u64
    };
    let mut s = String::new();
    if neg {
        push_char(&mut s, '-');
    }
    assert(s@ == sign_prefix(ms < 0));
    if m / MS_PER_WEEK > 0 {
        s.append(u64_to_string(m / MS_PER_WEEK).as_str());
        s.append("w");
        proof {
            assert("w"@ =~= seq!['w']);
        }
    } else if m / MS_PER_DAY > 0 {
        s.append(u64_to_string(m / MS_PER_DAY).as_str());
        s.append("d");
        proof {
            assert("d"@ =~= seq!['d']);
        }
    } else if m / MS_PER_HOUR > 0 {
        s.append(u64_to_string(m / MS_PER_HOUR).as_str());
        s.append("h");
        proof {
            assert("h"@ =~= seq!['h']);
        }
    } else if m / MS_PER_MINUTE > 0 {
        s.append(u64_to_string(m / MS_PER_MINUTE).as_str());
        s.append("m");
        proof {
            assert("m"@ =~= seq!['m']);
        }
    } else if m / MS_PER_SECOND > 0 {
        s.append(u64_to_string(m / MS_PER_SECOND).as_str());
        s.append("s");
        proof {
            assert("s"@ =~= seq!['s']);
        }
    } else {
        s.append(u64_to_string(m).as_str());
        s.append("ms");
        proof {
            assert("ms"@ =~= seq!['m', 's']);
        }
    }
    s
}

} // verus!
