//! Proved laws of the dispatcher, stated over `step_spec`.

use vstd::prelude::*;
use crate::builtins::{builtin_of_spec, Builtin};
use crate::numbers::exit_code_spec;
use crate::path_search::{
    candidates_of, candidates_spec, join_cand, lemma_first_colon_index_unique, split_colon,
};
use crate::shell::{
    accepts, cwd_display, idle, step_spec, wf, EffectV, EventV, PendingV, Purpose, StateV,
};
use crate::text::{args_of, command_of, trim_spec};

verus! {

/// Each builtin name resolves to its builtin, and to nothing else.
pub proof fn lemma_builtin_names()
    ensures
        builtin_of_spec("exit"@) == Some(Builtin::Exit),
        builtin_of_spec("echo"@) == Some(Builtin::Echo),
        builtin_of_spec("pwd"@) == Some(Builtin::Pwd),
        builtin_of_spec("cd"@) == Some(Builtin::Cd),
        builtin_of_spec("type"@) == Some(Builtin::Type),
{
    reveal_strlit("exit");
    reveal_strlit("echo");
    reveal_strlit("pwd");
    reveal_strlit("cd");
    reveal_strlit("type");
    assert("exit"@.len() == 4 && "exit"@[0] == 'e' && "exit"@[1] == 'x');
    assert("echo"@.len() == 4 && "echo"@[0] == 'e' && "echo"@[1] == 'c');
    assert("pwd"@.len() == 3);
    assert("cd"@.len() == 2);
    assert("type"@.len() == 4 && "type"@[0] == 't');
}

/// An `exit` line never touches the state or the output: its whole result is
/// the `Exit` effect, carrying its first argument token read as a number,
/// or 1 when that token is missing or unreadable.
pub proof fn lemma_exit_effect(s: StateV, text: Seq<char>, pv: Option<Seq<char>>)
    requires
        s.pending is Idle,
        command_of(trim_spec(text)) == "exit"@,
    ensures
        ({
            let r = step_spec(s, (EventV::Line { text, path_var: pv }));
            &&& r.effect == EffectV::Exit(exit_code_spec(args_of(trim_spec(text))))
            &&& r.output is None
            &&& r.state == idle(s.cwd)
        }),
{
    lemma_builtin_names();
}

/// `echo` writes its raw argument rest followed by one newline, succeeds,
/// and leaves the state as it was.
pub proof fn lemma_echo_output(s: StateV, text: Seq<char>, pv: Option<Seq<char>>)
    requires
        s.pending is Idle,
        command_of(trim_spec(text)) == "echo"@,
    ensures
        ({
            let r = step_spec(s, (EventV::Line { text, path_var: pv }));
            &&& r.output == Some(args_of(trim_spec(text)) + "\n"@)
            &&& r.effect == EffectV::Done(0)
            &&& r.state == idle(s.cwd)
        }),
{
    lemma_builtin_names();
}

/// `pwd` prints exactly the tracked working directory and a newline, and
/// changes nothing.
pub proof fn lemma_pwd_prints_cwd(s: StateV, text: Seq<char>, pv: Option<Seq<char>>)
    requires
        s.pending is Idle,
        command_of(trim_spec(text)) == "pwd"@,
    ensures
        ({
            let r = step_spec(s, (EventV::Line { text, path_var: pv }));
            &&& r.output == Some(cwd_display(s.cwd) + "\n"@)
            &&& r.effect == EffectV::Done(0)
            &&& r.state == idle(s.cwd)
        }),
{
    lemma_builtin_names();
}

/// Running `pwd` twice with nothing in between yields the same output both
/// times.
pub proof fn lemma_pwd_idempotent(
    s: StateV,
    text: Seq<char>,
    pv: Option<Seq<char>>,
    pv2: Option<Seq<char>>,
)
    requires
        s.pending is Idle,
        command_of(trim_spec(text)) == "pwd"@,
    ensures
        ({
            let r1 = step_spec(s, (EventV::Line { text, path_var: pv }));
            let r2 = step_spec(r1.state, (EventV::Line { text, path_var: pv2 }));
            &&& r1.output == r2.output
            &&& r2.state == r1.state
        }),
{
    lemma_pwd_prints_cwd(s, text, pv);
    let r1 = step_spec(s, (EventV::Line { text, path_var: pv }));
    lemma_pwd_prints_cwd(r1.state, text, pv2);
}

/// A successful `cd` adopts the canonicalized directory, and `pwd` then
/// prints exactly that directory.
pub proof fn lemma_pwd_after_cd(
    s: StateV,
    input: Seq<char>,
    p: Seq<char>,
    text: Seq<char>,
    pv: Option<Seq<char>>,
)
    requires
        s.pending == (PendingV::CdPath { input }),
        command_of(trim_spec(text)) == "pwd"@,
    ensures
        ({
            let r1 = step_spec(s, EventV::Canonical(Some(p)));
            let r2 = step_spec(r1.state, (EventV::Line { text, path_var: pv }));
            &&& r1.state == idle(Some(p))
            &&& r1.effect == EffectV::ChangeDir(p)
            &&& r1.output is None
            &&& r2.output == Some(p + "\n"@)
        }),
{
    let r1 = step_spec(s, EventV::Canonical(Some(p)));
    lemma_pwd_prints_cwd(r1.state, text, pv);
}

/// A `cd` line with a path argument changes nothing yet: it only asks for
/// that path, canonicalized, and waits for the answer.
pub proof fn lemma_cd_starts_canonicalize(s: StateV, text: Seq<char>, pv: Option<Seq<char>>)
    requires
        s.pending is Idle,
        command_of(trim_spec(text)) == "cd"@,
        args_of(trim_spec(text)) != "~"@,
        args_of(trim_spec(text)).len() > 0,
    ensures
        ({
            let r = step_spec(s, (EventV::Line { text, path_var: pv }));
            &&& r.effect == EffectV::QueryCanonical(args_of(trim_spec(text)))
            &&& r.output is None
            &&& r.state.cwd == s.cwd
            &&& r.state.pending == (PendingV::CdPath { input: args_of(trim_spec(text)) })
        }),
{
    lemma_builtin_names();
}

/// A `cd` line with `~` or nothing asks for the home directory, and a found
/// home becomes the working directory.
pub proof fn lemma_cd_home(s: StateV, text: Seq<char>, pv: Option<Seq<char>>, h: Seq<char>)
    requires
        s.pending is Idle,
        command_of(trim_spec(text)) == "cd"@,
        args_of(trim_spec(text)) == "~"@ || args_of(trim_spec(text)).len() == 0,
    ensures
        ({
            let r1 = step_spec(s, (EventV::Line { text, path_var: pv }));
            let r2 = step_spec(r1.state, EventV::HomeDir(Some(h)));
            &&& r1.effect == EffectV::QueryHome
            &&& r1.output is None
            &&& r1.state.cwd == s.cwd
            &&& r2.state == idle(Some(h))
            &&& r2.effect == EffectV::ChangeDir(h)
        }),
{
    lemma_builtin_names();
}

/// `type` on a name that is a builtin reports it as a shell builtin and
/// succeeds, without touching PATH.
pub proof fn lemma_type_builtin(s: StateV, text: Seq<char>, pv: Option<Seq<char>>)
    requires
        s.pending is Idle,
        command_of(trim_spec(text)) == "type"@,
        builtin_of_spec(trim_spec(args_of(trim_spec(text)))) is Some,
    ensures
        ({
            let r = step_spec(s, (EventV::Line { text, path_var: pv }));
            &&& r.output == Some(trim_spec(args_of(trim_spec(text))) + " is a shell builtin\n"@)
            &&& r.effect == EffectV::Done(0)
            &&& r.state == idle(s.cwd)
        }),
{
    lemma_builtin_names();
}

/// A failed `cd` reports `<input>: No such file or directory`, still ends
/// the line with status 0, and leaves the working directory untouched.
pub proof fn lemma_cd_failure(s: StateV, input: Seq<char>)
    requires
        s.pending == (PendingV::CdPath { input }),
    ensures
        ({
            let r = step_spec(s, EventV::Canonical(None));
            &&& r.output == Some(input + ": No such file or directory\n"@)
            &&& r.effect == EffectV::Done(0)
            &&& r.state == idle(s.cwd)
        }),
{
}

/// After a failed `cd`, `pwd` prints the same directory it printed before.
pub proof fn lemma_cd_failure_pwd_unchanged(
    s: StateV,
    input: Seq<char>,
    text: Seq<char>,
    pv: Option<Seq<char>>,
)
    requires
        s.pending == (PendingV::CdPath { input }),
        command_of(trim_spec(text)) == "pwd"@,
    ensures
        ({
            let after = step_spec(s, EventV::Canonical(None)).state;
            step_spec(after, (EventV::Line { text, path_var: pv })).output == Some(
                cwd_display(s.cwd) + "\n"@,
            )
        }),
{
    lemma_cd_failure(s, input);
    let after = step_spec(s, EventV::Canonical(None)).state;
    lemma_pwd_prints_cwd(after, text, pv);
}

/// An exhausted search for a command to run reports
/// `<command>: command not found`, and the machine is back between lines,
/// ready for any further input.
pub proof fn lemma_not_found_continues(
    s: StateV,
    name: Seq<char>,
    args: Seq<char>,
    cands: Seq<Seq<char>>,
    idx: int,
)
    requires
        s.pending == (PendingV::Search { name, args, cands, idx, purpose: Purpose::Execute }),
        wf(s),
        idx == cands.len() - 1,
    ensures
        ({
            let r = step_spec(s, EventV::Exists(false));
            &&& r.output == Some(name + ": command not found\n"@)
            &&& r.effect == EffectV::Done(1)
            &&& r.state == idle(s.cwd)
            &&& forall|text: Seq<char>, pv: Option<Seq<char>>|
                accepts(r.state, (EventV::Line { text, path_var: pv }))
        }),
{
}

/// Empty PATH entries are not searched: entries that are all empty yield no
/// candidate at all.
pub proof fn lemma_empty_entries_no_candidates(entries: Seq<Seq<char>>, name: Seq<char>)
    requires
        forall|j: int| 0 <= j < entries.len() ==> entries[j].len() == 0,
    ensures
        candidates_of(entries, name).len() == 0,
    decreases entries.len(),
{
    if entries.len() > 0 {
        assert forall|j: int| 0 <= j < entries.drop_first().len() implies entries.drop_first()[
            j
        ].len() == 0 by {
            assert(entries.drop_first()[j] == entries[j + 1]);
        }
        lemma_empty_entries_no_candidates(entries.drop_first(), name);
    }
}

/// A PATH value with no nonempty entry gives a search nothing to do: the
/// command is reported not found at once, and in particular no
/// current-directory-relative candidate is ever queried.
pub proof fn lemma_no_search_without_real_entries(s: StateV, text: Seq<char>, pv: Seq<char>)
    requires
        s.pending is Idle,
        builtin_of_spec(command_of(trim_spec(text))) is None,
        command_of(trim_spec(text)).len() > 0,
        forall|j: int| 0 <= j < split_colon(pv).len() ==> split_colon(pv)[j].len() == 0,
    ensures
        ({
            let r = step_spec(s, (EventV::Line { text, path_var: Some(pv) }));
            &&& r.output == Some(command_of(trim_spec(text)) + ": command not found\n"@)
            &&& r.effect == EffectV::Done(1)
            &&& r.state == idle(s.cwd)
        }),
{
    lemma_builtin_names();
    lemma_empty_entries_no_candidates(split_colon(pv), command_of(trim_spec(text)));
}

/// Splitting `A:B` on the separator yields exactly `[A, B]` when neither
/// side holds a separator of its own.
pub proof fn lemma_split_colon_pair(a: Seq<char>, b: Seq<char>)
    requires
        forall|i: int| 0 <= i < a.len() ==> a[i] != ':',
        forall|i: int| 0 <= i < b.len() ==> b[i] != ':',
    ensures
        split_colon(a + ":"@ + b) == seq![a, b],
{
    reveal_strlit(":");
    let s = a + ":"@ + b;
    assert forall|i: int| 0 <= i < a.len() implies s[i] != ':' by {
        assert(s[i] == a[i]);
    }
    assert(s[a.len() as int] == ':');
    lemma_first_colon_index_unique(s, a.len() as int);
    assert(s.subrange(0, a.len() as int) =~= a);
    assert(s.subrange(a.len() as int + 1, s.len() as int) =~= b);
    lemma_first_colon_index_unique(b, b.len() as int);
    assert(split_colon(b) == seq![b]);
    assert(split_colon(s) =~= seq![a, b]);
}

/// PATH order decides: a `type` search over PATH `A:B`, with `A` and `B`
/// real entries, queries the candidate under `A` first, and when that
/// candidate exists the search resolves to it, whatever lies under `B`.
pub proof fn lemma_path_order(s: StateV, text: Seq<char>, a: Seq<char>, b: Seq<char>)
    requires
        s.pending is Idle,
        command_of(trim_spec(text)) == "type"@,
        builtin_of_spec(trim_spec(args_of(trim_spec(text)))) is None,
        a.len() > 0,
        b.len() > 0,
        forall|i: int| 0 <= i < a.len() ==> a[i] != ':',
        forall|i: int| 0 <= i < b.len() ==> b[i] != ':',
    ensures
        ({
            let name = trim_spec(args_of(trim_spec(text)));
            let r1 = step_spec(s, (EventV::Line { text, path_var: Some(a + ":"@ + b) }));
            let r2 = step_spec(r1.state, EventV::Exists(true));
            &&& r1.effect == EffectV::QueryExists(join_cand(a, name))
            &&& r2.output == Some(name + " is "@ + join_cand(a, name) + "\n"@)
            &&& r2.effect == EffectV::Done(1)
        }),
{
    lemma_builtin_names();
    let name = trim_spec(args_of(trim_spec(text)));
    let pv = a + ":"@ + b;
    lemma_split_colon_pair(a, b);
    assert(seq![a, b].drop_first() =~= seq![b]);
    assert(seq![b].drop_first() =~= Seq::<Seq<char>>::empty());
    assert(candidates_of(Seq::<Seq<char>>::empty(), name) =~= Seq::<Seq<char>>::empty());
    assert(candidates_of(seq![b], name) =~= seq![join_cand(b, name)]);
    assert(candidates_of(seq![a, b], name) =~= seq![join_cand(a, name), join_cand(b, name)]);
    assert(candidates_spec(pv, name) =~= seq![join_cand(a, name), join_cand(b, name)]);
}

/// Nothing terminates the interpreter but the `exit` builtin and the end of
/// input: any other event leaves the loop running.
pub proof fn lemma_only_exit_terminates(s: StateV, e: EventV)
    ensures
        step_spec(s, e).effect is Exit ==> match e {
            EventV::Line { text, path_var } => builtin_of_spec(command_of(trim_spec(text)))
                == Some(Builtin::Exit),
            EventV::EndOfInput => s.pending is Idle,
            _ => false,
        },
{
}

} // verus!
