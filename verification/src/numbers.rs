//! Decimal parsing for the `exit` builtin: an optional sign followed by
//! ASCII digits, rejected on any other character or on overflow of `i32`.

use vstd::prelude::*;
use crate::text::{first_non_ws_index, first_ws_index, is_ws, is_ws_char, lemma_first_non_ws_index_unique, lemma_first_ws_index_unique};

verus! {

pub open spec fn is_digit(c: char) -> bool {
    '0' as int <= c as int <= '9' as int
}

pub open spec fn digit_val(c: char) -> int {
    c as int - '0' as int
}

pub open spec fn all_digits(s: Seq<char>) -> bool {
    s.len() > 0 && (forall|i: int| 0 <= i < s.len() ==> is_digit(s[i]))
}

/// Value of a digit string read in base ten.
pub open spec fn digits_val(s: Seq<char>) -> int
    decreases s.len(),
{
    if s.len() == 0 {
        0
    } else {
        digits_val(s.drop_last()) * 10 + digit_val(s.last())
    }
}

pub open spec fn from_magnitude_pos(d: Seq<char>) -> Option<i32> {
    if all_digits(d) && digits_val(d) <= 0x7fff_ffff {
        Some(digits_val(d) as i32)
    } else {
        None
    }
}

pub open spec fn from_magnitude_neg(d: Seq<char>) -> Option<i32> {
    if all_digits(d) && digits_val(d) <= 0x8000_0000 {
        Some((-digits_val(d)) as i32)
    } else {
        None
    }
}

/// What a decimal string denotes as an `i32`: an optional `+` or `-` sign,
/// then one or more ASCII digits and nothing else; `None` on any other shape
/// or when the value does not fit.
pub open spec fn parse_i32_spec(s: Seq<char>) -> Option<i32> {
    if s.len() == 0 {
        None
    } else if s[0] == '-' {
        from_magnitude_neg(s.subrange(1, s.len() as int))
    } else if s[0] == '+' {
        from_magnitude_pos(s.subrange(1, s.len() as int))
    } else {
        from_magnitude_pos(s)
    }
}

proof fn lemma_digits_val_nonneg(s: Seq<char>)
    requires
        forall|i: int| 0 <= i < s.len() ==> is_digit(s[i]),
    ensures
        digits_val(s) >= 0,
    decreases s.len(),
{
    if s.len() > 0 {
        lemma_digits_val_nonneg(s.drop_last());
    }
}

#[verifier::loop_isolation(false)]
pub fn parse_i32(s: &str) -> (r: Option<i32>)
    ensures
        r == parse_i32_spec(s@),
{
    let n = s.unicode_len();
    if n == 0 {
        return None;
    }
    let c0 = s.get_char(0);
    let neg: bool = c0 == '-';
    let start: usize = if c0 == '-' || c0 == '+' {
        1
    } else {
        0
    };
    let ghost d = s@.subrange(start as int, n as int);
    if start == n {
        return None;
    }
    let mut acc: u64 = 0;
    let mut over: bool = false;
    let mut i: usize = start;
    while i < n
        invariant
            start <= i <= n,
            forall|j: int| start <= j < i ==> is_digit(s@[j]),
            !over ==> acc as int == digits_val(s@.subrange(start as int, i as int)) && acc
                <= 0x8000_0000,
            over ==> digits_val(s@.subrange(start as int, i as int)) > 0x8000_0000,
        decreases n - i,
    {
        let c = s.get_char(i);
        let u = c as u32;
        if u < 48 || u > 57 {
            proof {
                assert(d[i - start] == s@[i as int]);
                assert(!all_digits(d));
            }
            return None;
        }
        proof {
            let pre = s@.subrange(start as int, i as int);
            let ext = s@.subrange(start as int, i as int + 1);
            assert(ext.drop_last() =~= pre);
            assert(ext.last() == s@[i as int]);
            if over {
                lemma_digits_val_nonneg(pre);
            }
        }
        let dv = (u - 48) as u64;
        if !over {
            let na = acc * 10 + dv;
            if na > 0x8000_0000 {
                over = true;
            } else {
                acc = na;
            }
        }
        i += 1;
    }
    proof {
        assert(d =~= s@.subrange(start as int, n as int));
        assert(all_digits(d));
        if start == 1 {
            assert(d == s@.subrange(1, s@.len() as int));
        } else {
            assert(d =~= s@);
        }
        assert(parse_i32_spec(s@) == if neg {
            from_magnitude_neg(d)
        } else {
            from_magnitude_pos(d)
        });
    }
    if over {
        return None;
    }
    if neg {
        if acc == 0x8000_0000 {
            Some(i32::MIN)
        } else {
            Some(-(acc as i32))
        }
    } else {
        if acc > 0x7fff_ffff {
            None
        } else {
            Some(acc as i32)
        }
    }
}

/// The first whitespace-delimited token of `s`, if any.
pub open spec fn first_token(s: Seq<char>) -> Option<Seq<char>> {
    let i = first_non_ws_index(s);
    if i == s.len() {
        None
    } else {
        let rest = s.subrange(i, s.len() as int);
        Some(rest.subrange(0, first_ws_index(rest)))
    }
}

/// The status that `exit` terminates with: its first argument token read as a
/// decimal `i32`, or 1 when the token is missing or not a number.
pub open spec fn exit_code_spec(args: Seq<char>) -> int {
    match first_token(args) {
        None => 1,
        Some(tok) => match parse_i32_spec(tok) {
            Some(v) => v as int,
            None => 1,
        },
    }
}

#[verifier::loop_isolation(false)]
pub fn exit_code_of(args: &str) -> (r: i32)
    ensures
        r as int == exit_code_spec(args@),
{
    let n = args.unicode_len();
    let mut i: usize = 0;
    while i < n && is_ws_char(args.get_char(i))
        invariant
            0 <= i <= n,
            forall|j: int| 0 <= j < i ==> is_ws(args@[j]),
        decreases n - i,
    {
        i += 1;
    }
    proof {
        lemma_first_non_ws_index_unique(args@, i as int);
    }
    if i == n {
        return 1;
    }
    let mut j: usize = i;
    while j < n && !is_ws_char(args.get_char(j))
        invariant
            i <= j <= n,
            forall|k: int| i <= k < j ==> !is_ws(args@[k]),
        decreases n - j,
    {
        j += 1;
    }
    let tok = args.substring_char(i, j);
    proof {
        let rest = args@.subrange(i as int, n as int);
        assert forall|k: int| 0 <= k < j - i implies !is_ws(rest[k]) by {
            assert(rest[k] == args@[i + k]);
        }
        if (j as int) - (i as int) < rest.len() {
            assert(rest[j - i] == args@[j as int]);
        }
        lemma_first_ws_index_unique(rest, j as int - i as int);
        assert(rest.subrange(0, j as int - i as int) =~= args@.subrange(i as int, j as int));
    }
    match parse_i32(tok) {
        Some(v) => v,
        None => 1,
    }
}

} // verus!
