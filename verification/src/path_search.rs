//! The PATH resolver's pure half: splitting a PATH-like value on `:` and
//! joining each entry with a command name, in order.  Only literal, nonempty
//! entries become candidates: an empty entry is never searched, so no
//! implicit current-directory match can arise.  Whether a candidate exists
//! on the filesystem is answered outside and fed back as an event.

use vstd::prelude::*;
use crate::text::concat2;

verus! {

/// Index of the first `:` in `s`; `s.len()` if there is none.
pub open spec fn first_colon_index(s: Seq<char>) -> int
    decreases s.len(),
{
    if s.len() == 0 {
        0
    } else if s[0] == ':' {
        0
    } else {
        1 + first_colon_index(s.drop_first())
    }
}

pub proof fn lemma_first_colon_index(s: Seq<char>)
    ensures
        0 <= first_colon_index(s) <= s.len(),
        forall|i: int| 0 <= i < first_colon_index(s) ==> s[i] != ':',
        first_colon_index(s) < s.len() ==> s[first_colon_index(s)] == ':',
    decreases s.len(),
{
    if s.len() == 0 {
    } else if s[0] == ':' {
    } else {
        lemma_first_colon_index(s.drop_first());
        assert forall|i: int| 0 <= i < first_colon_index(s) implies s[i] != ':' by {
            if i > 0 {
                assert(s.drop_first()[i - 1] == s[i]);
            }
        }
        if first_colon_index(s) < s.len() {
            assert(s.drop_first()[first_colon_index(s) - 1] == s[first_colon_index(s)]);
        }
    }
}

pub proof fn lemma_first_colon_index_unique(s: Seq<char>, k: int)
    requires
        0 <= k <= s.len(),
        forall|i: int| 0 <= i < k ==> s[i] != ':',
        k < s.len() ==> s[k] == ':',
    ensures
        first_colon_index(s) == k,
{
    lemma_first_colon_index(s);
    if first_colon_index(s) < k {
        assert(s[first_colon_index(s)] != ':');
    } else if first_colon_index(s) > k {
        assert(s[k] != ':');
    }
}

/// The entries of a PATH-like value, in order: the pieces between `:`
/// separators.  Splitting never yields an empty sequence; an empty value
/// yields one empty entry.
pub open spec fn split_colon(s: Seq<char>) -> Seq<Seq<char>>
    decreases s.len(),
    via split_colon_decreases
{
    let k = first_colon_index(s);
    if k == s.len() {
        seq![s]
    } else {
        seq![s.subrange(0, k)] + split_colon(s.subrange(k + 1, s.len() as int))
    }
}

#[via_fn]
proof fn split_colon_decreases(s: Seq<char>) {
    lemma_first_colon_index(s);
}

/// A PATH entry joined with a command name.  A name that is already
/// absolute stands alone; otherwise a single `/` separates the two, unless
/// the entry already ends with `/`.  Joining an empty entry yields the bare
/// name, for totality only: the resolver never searches an empty entry.
pub open spec fn join_cand(dir: Seq<char>, name: Seq<char>) -> Seq<char> {
    if name.len() > 0 && name[0] == '/' {
        name
    } else if dir.len() == 0 {
        name
    } else if dir.last() == '/' {
        dir + name
    } else {
        dir + "/"@ + name
    }
}

/// The candidates contributed by a sequence of PATH entries, in order: one
/// per nonempty entry; empty entries contribute nothing.
pub open spec fn candidates_of(entries: Seq<Seq<char>>, name: Seq<char>) -> Seq<Seq<char>>
    decreases entries.len(),
{
    if entries.len() == 0 {
        Seq::empty()
    } else if entries[0].len() > 0 {
        seq![join_cand(entries[0], name)] + candidates_of(entries.drop_first(), name)
    } else {
        candidates_of(entries.drop_first(), name)
    }
}

/// All candidates for a command name, in PATH order: one per nonempty PATH
/// entry.  Empty entries are not searched.
pub open spec fn candidates_spec(path_var: Seq<char>, name: Seq<char>) -> Seq<Seq<char>> {
    candidates_of(split_colon(path_var), name)
}

pub fn join_candidate(dir: &str, name: &str) -> (r: String)
    ensures
        r@ == join_cand(dir@, name@),
{
    let nn = name.unicode_len();
    if nn > 0 && name.get_char(0) == '/' {
        return name.to_owned();
    }
    let nd = dir.unicode_len();
    if nd == 0 {
        name.to_owned()
    } else if dir.get_char(nd - 1) == '/' {
        proof {
            assert(dir@.last() == dir@[nd - 1]);
        }
        concat2(dir, name)
    } else {
        let mut s = dir.to_owned();
        s.append("/");
        s.append(name);
        s
    }
}

/// Splits a PATH-like value on `:` into its entries, in order.
#[verifier::loop_isolation(false)]
pub fn split_path(path_var: &str) -> (r: Vec<String>)
    ensures
        r.deep_view() == split_colon(path_var@),
        r.len() >= 1,
{
    let n = path_var.unicode_len();
    let mut out: Vec<String> = Vec::new();
    let mut start: usize = 0;
    proof {
        assert(path_var@.subrange(0, n as int) =~= path_var@);
    }
    loop
        invariant
            0 <= start <= n,
            split_colon(path_var@) =~~= out.deep_view() + split_colon(
                path_var@.subrange(start as int, n as int),
            ),
        decreases n - start,
    {
        let mut k: usize = start;
        while k < n && path_var.get_char(k) != ':'
            invariant
                start <= k <= n,
                forall|i: int| start <= i < k ==> path_var@[i] != ':',
            decreases n - k,
        {
            k += 1;
        }
        let piece = String::from_str(path_var.substring_char(start, k));
        proof {
            let rest = path_var@.subrange(start as int, n as int);
            assert forall|i: int| 0 <= i < k - start implies rest[i] != ':' by {
                assert(rest[i] == path_var@[start + i]);
            }
            if (k as int) - (start as int) < rest.len() {
                assert(rest[k - start] == path_var@[k as int]);
            }
            lemma_first_colon_index_unique(rest, k as int - start as int);
            assert(rest.subrange(0, k as int - start as int) =~= path_var@.subrange(
                start as int,
                k as int,
            ));
            if k < n {
                assert(rest.subrange(k as int - start as int + 1, rest.len() as int)
                    =~= path_var@.subrange(k as int + 1, n as int));
            }
        }
        out.push(piece);
        if k == n {
            proof {
                assert(out.deep_view() =~~= split_colon(path_var@));
            }
            return out;
        }
        start = k + 1;
        proof {
            assert(split_colon(path_var@) =~~= out.deep_view() + split_colon(
                path_var@.subrange(start as int, n as int),
            ));
        }
    }
}

/// All candidates for a command name under the given PATH value, in order,
/// skipping empty PATH entries.
#[verifier::loop_isolation(false)]
pub fn candidates(path_var: &str, name: &str) -> (r: Vec<String>)
    ensures
        r.deep_view() == candidates_spec(path_var@, name@),
{
    let dirs = split_path(path_var);
    let ghost entries = dirs.deep_view();
    let mut out: Vec<String> = Vec::new();
    let mut i: usize = 0;
    proof {
        assert(entries.subrange(0, entries.len() as int) =~~= entries);
    }
    while i < dirs.len()
        invariant
            0 <= i <= dirs.len(),
            candidates_of(entries, name@) =~~= out.deep_view() + candidates_of(
                entries.subrange(i as int, entries.len() as int),
                name@,
            ),
        decreases dirs.len() - i,
    {
        proof {
            let rest = entries.subrange(i as int, entries.len() as int);
            assert(rest[0] == entries[i as int]);
            assert(rest.drop_first() =~= entries.subrange(i as int + 1, entries.len() as int));
        }
        if dirs[i].as_str().unicode_len() > 0 {
            let c = join_candidate(dirs[i].as_str(), name);
            out.push(c);
        }
        i += 1;
        proof {
            assert(candidates_of(entries, name@) =~~= out.deep_view() + candidates_of(
                entries.subrange(i as int, entries.len() as int),
                name@,
            ));
        }
    }
    proof {
        assert(candidates_of(entries, name@) =~~= out.deep_view());
    }
    out
}

} // verus!
