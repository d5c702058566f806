//! Text primitives for the command line: the whitespace class, trimming,
//! and the split of a line into a command token and its raw argument rest.

use vstd::prelude::*;

verus! {

/// Characters treated as blank when a command line is split: the Unicode
/// `White_Space` set, as `char::is_whitespace` recognizes it.
pub open spec fn is_ws(c: char) -> bool {
    ||| c == ' '
    ||| c == '\t'
    ||| c == '\n'
    ||| c == '\x0b'
    ||| c == '\x0c'
    ||| c == '\r'
    ||| c == '\u{85}'
    ||| c == '\u{a0}'
    ||| c == '\u{1680}'
    ||| ((c as u32) >= 0x2000 && (c as u32) <= 0x200a)
    ||| c == '\u{2028}'
    ||| c == '\u{2029}'
    ||| c == '\u{202f}'
    ||| c == '\u{205f}'
    ||| c == '\u{3000}'
}

/// Index of the first whitespace character of `s`; `s.len()` if there is none.
pub open spec fn first_ws_index(s: Seq<char>) -> int
    decreases s.len(),
{
    if s.len() == 0 {
        0
    } else if is_ws(s[0]) {
        0
    } else {
        1 + first_ws_index(s.drop_first())
    }
}

/// Index of the first non-whitespace character of `s`; `s.len()` if there is none.
pub open spec fn first_non_ws_index(s: Seq<char>) -> int
    decreases s.len(),
{
    if s.len() == 0 {
        0
    } else if !is_ws(s[0]) {
        0
    } else {
        1 + first_non_ws_index(s.drop_first())
    }
}

pub proof fn lemma_first_ws_index(s: Seq<char>)
    ensures
        0 <= first_ws_index(s) <= s.len(),
        forall|i: int| 0 <= i < first_ws_index(s) ==> !is_ws(s[i]),
        first_ws_index(s) < s.len() ==> is_ws(s[first_ws_index(s)]),
    decreases s.len(),
{
    if s.len() == 0 {
    } else if is_ws(s[0]) {
    } else {
        lemma_first_ws_index(s.drop_first());
        assert forall|i: int| 0 <= i < first_ws_index(s) implies !is_ws(s[i]) by {
            if i > 0 {
                assert(s.drop_first()[i - 1] == s[i]);
            }
        }
        if first_ws_index(s) < s.len() {
            assert(s.drop_first()[first_ws_index(s) - 1] == s[first_ws_index(s)]);
        }
    }
}

/// The first whitespace index is the unique position with no whitespace
/// before it and whitespace (or the end) at it.
pub proof fn lemma_first_ws_index_unique(s: Seq<char>, k: int)
    requires
        0 <= k <= s.len(),
        forall|i: int| 0 <= i < k ==> !is_ws(s[i]),
        k < s.len() ==> is_ws(s[k]),
    ensures
        first_ws_index(s) == k,
{
    lemma_first_ws_index(s);
    if first_ws_index(s) < k {
        assert(!is_ws(s[first_ws_index(s)]));
    } else if first_ws_index(s) > k {
        assert(!is_ws(s[k]));
    }
}

pub proof fn lemma_first_non_ws_index(s: Seq<char>)
    ensures
        0 <= first_non_ws_index(s) <= s.len(),
        forall|i: int| 0 <= i < first_non_ws_index(s) ==> is_ws(s[i]),
        first_non_ws_index(s) < s.len() ==> !is_ws(s[first_non_ws_index(s)]),
    decreases s.len(),
{
    if s.len() == 0 {
    } else if !is_ws(s[0]) {
    } else {
        lemma_first_non_ws_index(s.drop_first());
        assert forall|i: int| 0 <= i < first_non_ws_index(s) implies is_ws(s[i]) by {
            if i > 0 {
                assert(s.drop_first()[i - 1] == s[i]);
            }
        }
        if first_non_ws_index(s) < s.len() {
            assert(s.drop_first()[first_non_ws_index(s) - 1] == s[first_non_ws_index(s)]);
        }
    }
}

pub proof fn lemma_first_non_ws_index_unique(s: Seq<char>, k: int)
    requires
        0 <= k <= s.len(),
        forall|i: int| 0 <= i < k ==> is_ws(s[i]),
        k < s.len() ==> !is_ws(s[k]),
    ensures
        first_non_ws_index(s) == k,
{
    lemma_first_non_ws_index(s);
    if first_non_ws_index(s) < k {
        assert(is_ws(s[first_non_ws_index(s)]));
    } else if first_non_ws_index(s) > k {
        assert(is_ws(s[k]));
    }
}

/// `s` without its leading and trailing whitespace.
pub open spec fn trim_spec(s: Seq<char>) -> Seq<char>
    decreases s.len(),
{
    if s.len() == 0 {
        s
    } else if is_ws(s[0]) {
        trim_spec(s.drop_first())
    } else if is_ws(s.last()) {
        trim_spec(s.drop_last())
    } else {
        s
    }
}

/// The command token of an already-trimmed line: everything before the first
/// whitespace character.
pub open spec fn command_of(t: Seq<char>) -> Seq<char> {
    t.subrange(0, first_ws_index(t))
}

/// The raw argument rest of an already-trimmed line: everything after the
/// first whitespace run, as one opaque string.
pub open spec fn args_of(t: Seq<char>) -> Seq<char> {
    let rest = t.subrange(first_ws_index(t), t.len() as int);
    rest.subrange(first_non_ws_index(rest), rest.len() as int)
}

pub fn is_ws_char(c: char) -> (r: bool)
    ensures
        r == is_ws(c),
{
    let u = c as u32;
    c == ' ' || c == '\t' || c == '\n' || c == '\x0b' || c == '\x0c' || c == '\r' || c == '\u{85}'
        || c == '\u{a0}' || c == '\u{1680}' || (u >= 0x2000 && u <= 0x200a) || c == '\u{2028}'
        || c == '\u{2029}' || c == '\u{202f}' || c == '\u{205f}' || c == '\u{3000}'
}

/// Character-for-character string equality.
pub fn str_eq(a: &str, b: &str) -> (r: bool)
    ensures
        r == (a@ == b@),
{
    let na = a.unicode_len();
    let nb = b.unicode_len();
    if na != nb {
        return false;
    }
    let mut i: usize = 0;
    while i < na
        invariant
            0 <= i <= na,
            na == a@.len(),
            na == b@.len(),
            forall|j: int| 0 <= j < i ==> a@[j] == b@[j],
        decreases na - i,
    {
        if a.get_char(i) != b.get_char(i) {
            return false;
        }
        i += 1;
    }
    proof {
        assert(a@ =~= b@);
    }
    true
}

/// `a` followed by `b` in a fresh string.
pub fn concat2(a: &str, b: &str) -> (r: String)
    ensures
        r@ == a@ + b@,
{
    let mut s = a.to_owned();
    s.append(b);
    s
}

/// `a`, `b`, `c` and `d` concatenated in order.
pub fn concat4(a: &str, b: &str, c: &str, d: &str) -> (r: String)
    ensures
        r@ == a@ + b@ + c@ + d@,
{
    let mut s = a.to_owned();
    s.append(b);
    s.append(c);
    s.append(d);
    s
}

/// `s` without leading and trailing whitespace, as a borrowed slice.
#[verifier::loop_isolation(false)]
pub fn trim_of<'a>(s: &'a str) -> (r: &'a str)
    ensures
        r@ == trim_spec(s@),
{
    let n = s.unicode_len();
    let mut i: usize = 0;
    let mut j: usize = n;
    proof {
        assert(s@.subrange(0, n as int) =~= s@);
    }
    while i < j && is_ws_char(s.get_char(i))
        invariant
            0 <= i <= j <= n,
            trim_spec(s@) == trim_spec(s@.subrange(i as int, j as int)),
        decreases j - i,
    {
        proof {
            let sub = s@.subrange(i as int, j as int);
            assert(sub[0] == s@[i as int]);
            assert(sub.drop_first() =~= s@.subrange(i as int + 1, j as int));
        }
        i += 1;
    }
    while i < j && is_ws_char(s.get_char(j - 1))
        invariant
            0 <= i <= j <= n,
            trim_spec(s@) == trim_spec(s@.subrange(i as int, j as int)),
            i < j ==> !is_ws(s@[i as int]),
        decreases j,
    {
        proof {
            let sub = s@.subrange(i as int, j as int);
            assert(sub[0] == s@[i as int]);
            assert(sub.last() == s@[j - 1]);
            assert(sub.drop_last() =~= s@.subrange(i as int, j as int - 1));
        }
        j -= 1;
    }
    proof {
        let sub = s@.subrange(i as int, j as int);
        if i == j {
            assert(sub =~= Seq::<char>::empty());
        } else {
            assert(sub[0] == s@[i as int]);
            assert(sub.last() == s@[j - 1]);
        }
    }
    s.substring_char(i, j)
}

/// Splits a line into the command token and the raw argument rest: the line
/// is trimmed, the command runs to the first whitespace character, and the
/// rest starts after that whitespace run.
#[verifier::loop_isolation(false)]
pub fn parse_line(line: &str) -> (r: (String, String))
    ensures
        r.0@ == command_of(trim_spec(line@)),
        r.1@ == args_of(trim_spec(line@)),
{
    let t = trim_of(line);
    let n = t.unicode_len();
    let mut k: usize = 0;
    while k < n && !is_ws_char(t.get_char(k))
        invariant
            0 <= k <= n,
            forall|i: int| 0 <= i < k ==> !is_ws(t@[i]),
        decreases n - k,
    {
        k += 1;
    }
    proof {
        lemma_first_ws_index_unique(t@, k as int);
    }
    let cmd = String::from_str(t.substring_char(0, k));
    let mut m: usize = k;
    while m < n && is_ws_char(t.get_char(m))
        invariant
            k <= m <= n,
            forall|i: int| k <= i < m ==> is_ws(t@[i]),
        decreases n - m,
    {
        m += 1;
    }
    let args = String::from_str(t.substring_char(m, n));
    proof {
        let rest = t@.subrange(k as int, n as int);
        assert forall|i: int| 0 <= i < m - k implies is_ws(rest[i]) by {
            assert(rest[i] == t@[k + i]);
        }
        if (m as int) - (k as int) < rest.len() {
            assert(rest[m - k] == t@[m as int]);
        }
        lemma_first_non_ws_index_unique(rest, m as int - k as int);
        assert(rest.subrange(m as int - k as int, rest.len() as int) =~= t@.subrange(
            m as int,
            n as int,
        ));
    }
    (cmd, args)
}

} // verus!
