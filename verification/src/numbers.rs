//! Decimal text: parsing unsigned integers the way `str::parse` does for
//! unsigned types (an optional leading `+`, then one or more ASCII digits,
//! value within range), and rendering unsigned integers back to decimal.

use vstd::prelude::*;

verus! {

/// An ASCII decimal digit.
pub open spec fn is_digit(c: char) -> bool {
    48 <= c as int && c as int <= 57
}

/// Every character of `s` is an ASCII decimal digit.
pub open spec fn all_digits(s: Seq<char>) -> bool {
    forall|i: int| 0 <= i < s.len() ==> is_digit(s[i])
}

/// The numeric value of a digit string, most significant digit first.
pub open spec fn dec_val(s: Seq<char>) -> int
    decreases s.len(),
{
    if s.len() == 0 {
        0
    } else {
        dec_val(s.drop_last()) * 10 + (s.last() as int - 48)
    }
}

/// The digit part of an unsigned decimal literal: everything after an
/// optional leading `+`.
pub open spec fn unsigned_digits(s: Seq<char>) -> Seq<char> {
    if s.len() > 0 && s[0] == '+' {
        s.subrange(1, s.len() as int)
    } else {
        s
    }
}

/// What `str::parse` yields on `s` for an unsigned integer type whose
/// largest value is `cap`: the value when the digits are well formed and in
/// range, nothing otherwise.
pub open spec fn parse_uint_spec(s: Seq<char>, cap: int) -> Option<u32> {
    let d = unsigned_digits(s);
    if d.len() > 0 && all_digits(d) && dec_val(d) <= cap {
        Some(dec_val(d) as u32)
    } else {
        None
    }
}

/// A digit string with at least one digit has a non-negative value.
pub proof fn lemma_dec_val_nonneg(s: Seq<char>)
    requires
        all_digits(s),
    ensures
        dec_val(s) >= 0,
    decreases s.len(),
{
    if s.len() > 0 {
        assert(all_digits(s.drop_last())) by {
            assert(forall|i: int| 0 <= i < s.len() - 1 ==> is_digit(s.drop_last()[i]));
        }
        lemma_dec_val_nonneg(s.drop_last());
    }
}

/// Parse an unsigned decimal literal no larger than `cap`, as `str::parse`
/// does for an unsigned integer type: an optional leading `+`, then one or
/// more ASCII digits, rejected when any other character appears or the
/// value exceeds `cap`.
pub fn parse_capped(s: &str, cap: u32) -> (r: Option<u32>)
    ensures
        r == parse_uint_spec(s@, cap as int),
{
    let n = s.unicode_len();
    let start: usize = if n > 0 && s.get_char(0) == '+' {
        1
    } else {
        0
    };
    if n == start {
        return None;
    }
    let ghost d = unsigned_digits(s@);
    proof {
        assert(d =~= s@.subrange(start as int, n as int));
    }
    let mut val: u64 = 0;
    let mut over = false;
    let mut i: usize = start;
    while i < n
        invariant
            start <= i <= n,
            n == s@.len(),
            start < n,
            d == unsigned_digits(s@),
            d =~= s@.subrange(start as int, n as int),
            forall|j: int| start <= j < i ==> is_digit(s@[j]),
            !over ==> val == dec_val(s@.subrange(start as int, i as int)) && val <= cap,
            over ==> dec_val(s@.subrange(start as int, i as int)) > cap,
        decreases n - i,
    {
        let c = s.get_char(i);
        let u = c as u32;
        if u < 48 || u > 57 {
            proof {
                let k = i as int - start as int;
                assert(0 <= k < d.len());
                assert(d[k] == s@[i as int]);
                assert(!is_digit(d[k]));
                assert(!all_digits(d));
            }
            return None;
        }
        let dig = (u - 48) as u64;
        let ghost pre = s@.subrange(start as int, i as int);
        let ghost post = s@.subrange(start as int, i as int + 1);
        proof {
            assert(post.drop_last() =~= pre);
            assert(post.last() == s@[i as int]);
            assert(dec_val(post) == dec_val(pre) * 10 + (s@[i as int] as int - 48));
        }
        if !over {
            let nv = val * 10 + dig;
            if nv > cap as u64 {
                over = true;
            } else {
                val = nv;
            }
        }
        i += 1;
    }
    proof {
        assert(s@.subrange(start as int, n as int) =~= d);
        assert(all_digits(d));
    }
    if over {
        None
    } else {
        Some(val as u32)
    }
}

/// The decimal digit character for `d`.
pub open spec fn dchar(d: int) -> char {
    ((48 + d) as u8) as char
}

/// The decimal rendering of a non-negative integer, without sign or
/// leading zeros.
pub open spec fn dec_repr(v: int) -> Seq<char>
    decreases v,
{
    if v < 10 {
        seq![dchar(v)]
    } else {
        dec_repr(v / 10) + seq![dchar(v % 10)]
    }
}

/// The one-character string for a decimal digit.
pub(crate) fn digit_str(d: u32) -> (s: &'static str)
    requires
        d < 10,
    ensures
        s@ == seq![dchar(d as int)],
{
    let s: &'static str = if d == 0 {
        proof {
            reveal_strlit("0");
        }
        "0"
    } else if d == 1 {
        proof {
            reveal_strlit("1");
        }
        "1"
    } else if d == 2 {
        proof {
            reveal_strlit("2");
        }
        "2"
    } else if d == 3 {
        proof {
            reveal_strlit("3");
        }
        "3"
    } else if d == 4 {
        proof {
            reveal_strlit("4");
        }
        "4"
    } else if d == 5 {
        proof {
            reveal_strlit("5");
        }
        "5"
    } else if d == 6 {
        proof {
            reveal_strlit("6");
        }
        "6"
    } else if d == 7 {
        proof {
            reveal_strlit("7");
        }
        "7"
    } else if d == 8 {
        proof {
            reveal_strlit("8");
        }
        "8"
    } else {
        proof {
            reveal_strlit("9");
        }
        "9"
    };
    proof {
        assert(s@ =~= seq![dchar(d as int)]);
    }
    s
}

/// Render `v` in decimal.
pub fn u32_dec(v: u32) -> (s: String)
    ensures
        s@ == dec_repr(v as int),
    decreases v,
{
    if v < 10 {
        String::from_str(digit_str(v))
    } else {
        let mut s = u32_dec(v / 10);
        s.append(digit_str(v % 10));
        proof {
            assert(s@ =~= dec_repr(v as int));
        }
        s
    }
}

} // verus!
