//! The dispatcher as a pure state machine.
//!
//! One input line is handled as a short exchange: the caller feeds
//! [`ShellState::step`] an [`Event`], and `step` answers with text to print
//! and an [`Effect`] to perform.  `Done` and `ChangeDir` end the line;
//! the query effects ask the caller for one fact about the outside world
//! (the home directory, a canonicalized directory, a file's existence, a
//! child's exit status), whose answer is the next event.  All decisions —
//! builtin dispatch, PATH order, every message and status — are made here
//! and fixed by `step_spec`.

use vstd::prelude::*;
use crate::builtins::{builtin_of, builtin_of_spec, Builtin};
use crate::numbers::{exit_code_of, exit_code_spec};
use crate::path_search::{candidates, candidates_spec};
use crate::text::{args_of, command_of, concat2, concat4, parse_line, str_eq, trim_of, trim_spec};

verus! {

/// Why a PATH search is running: to report the match (`type`) or to run it.
#[derive(Clone, Copy, Debug, PartialEq, Eq, Structural)]
pub enum Purpose {
    TypeQuery,
    Execute,
}

/// What the machine is waiting for within the current line.
#[derive(Debug)]
pub enum Pending {
    /// Between lines: the next event must be a line or end of input.
    Idle,
    /// `cd` with `~` or no argument: waiting for the home directory.
    CdHome,
    /// `cd <input>`: waiting for the canonicalized directory.
    CdPath { input: String },
    /// PATH search: waiting to hear whether `cands[idx]` exists.
    Search { name: String, args: String, cands: Vec<String>, idx: usize, purpose: Purpose },
    /// An external command was spawned: waiting for its exit status.
    AwaitChild,
}

/// The interpreter's state: the working directory it exposes, and what it
/// awaits.
#[derive(Debug)]
pub struct ShellState {
    cwd: Option<String>,
    pending: Pending,
}

/// One event fed to the machine: an input line, or the answer to the query
/// the previous effect asked for.
#[derive(Debug)]
pub enum Event {
    /// A line read from the user, with the PATH value of that moment
    /// (`None` when the variable is absent or not text).
    Line { text: String, path_var: Option<String> },
    /// The input stream is exhausted.
    EndOfInput,
    /// The home directory, if one could be resolved.
    HomeDir(Option<String>),
    /// The canonicalized path, provided it exists and is a directory.
    Canonical(Option<String>),
    /// Whether the queried candidate path exists.
    Exists(bool),
    /// The spawned child's exit code; `None` when it could not be spawned or
    /// returned no code.
    ChildStatus(Option<i32>),
}

/// What the caller must do next.
#[derive(Debug)]
pub enum Effect {
    /// The line is finished with this status; prompt and read the next line.
    Done(i32),
    /// Terminate the process with this status.
    Exit(i32),
    /// Answer with `Event::HomeDir`.
    QueryHome,
    /// Canonicalize this path and answer with `Event::Canonical`.
    QueryCanonical(String),
    /// Answer with `Event::Exists` for this path.
    QueryExists(String),
    /// Run this program, blocking, and answer with `Event::ChildStatus`.
    Spawn { program: String, arg: Option<String> },
    /// Make this the working directory (environment variable and OS state
    /// alike); the line is finished with status 0.
    ChangeDir(String),
}

/// What one step produced: the successor state, the text to write to
/// standard output, and the effect to perform.
pub struct StepOutcome {
    pub state: ShellState,
    pub output: Option<String>,
    pub effect: Effect,
}

pub enum PendingV {
    Idle,
    CdHome,
    CdPath { input: Seq<char> },
    Search { name: Seq<char>, args: Seq<char>, cands: Seq<Seq<char>>, idx: int, purpose: Purpose },
    AwaitChild,
}

pub struct StateV {
    pub cwd: Option<Seq<char>>,
    pub pending: PendingV,
}

pub enum EventV {
    Line { text: Seq<char>, path_var: Option<Seq<char>> },
    EndOfInput,
    HomeDir(Option<Seq<char>>),
    Canonical(Option<Seq<char>>),
    Exists(bool),
    ChildStatus(Option<i32>),
}

pub enum EffectV {
    Done(int),
    Exit(int),
    QueryHome,
    QueryCanonical(Seq<char>),
    QueryExists(Seq<char>),
    Spawn { program: Seq<char>, arg: Option<Seq<char>> },
    ChangeDir(Seq<char>),
}

pub struct StepV {
    pub state: StateV,
    pub output: Option<Seq<char>>,
    pub effect: EffectV,
}

impl View for Pending {
    type V = PendingV;

    open spec fn view(&self) -> PendingV {
        match self {
            Pending::Idle => PendingV::Idle,
            Pending::CdHome => PendingV::CdHome,
            Pending::CdPath { input } => PendingV::CdPath { input: input@ },
            Pending::Search { name, args, cands, idx, purpose } => PendingV::Search {
                name: name@,
                args: args@,
                cands: cands.deep_view(),
                idx: *idx as int,
                purpose: *purpose,
            },
            Pending::AwaitChild => PendingV::AwaitChild,
        }
    }
}

impl View for ShellState {
    type V = StateV;

    closed spec fn view(&self) -> StateV {
        StateV { cwd: self.cwd.deep_view(), pending: self.pending@ }
    }
}

impl View for Event {
    type V = EventV;

    open spec fn view(&self) -> EventV {
        match self {
            Event::Line { text, path_var } => EventV::Line {
                text: text@,
                path_var: path_var.deep_view(),
            },
            Event::EndOfInput => EventV::EndOfInput,
            Event::HomeDir(h) => EventV::HomeDir(h.deep_view()),
            Event::Canonical(c) => EventV::Canonical(c.deep_view()),
            Event::Exists(b) => EventV::Exists(*b),
            Event::ChildStatus(c) => EventV::ChildStatus(*c),
        }
    }
}

impl View for Effect {
    type V = EffectV;

    open spec fn view(&self) -> EffectV {
        match self {
            Effect::Done(c) => EffectV::Done(*c as int),
            Effect::Exit(c) => EffectV::Exit(*c as int),
            Effect::QueryHome => EffectV::QueryHome,
            Effect::QueryCanonical(p) => EffectV::QueryCanonical(p@),
            Effect::QueryExists(p) => EffectV::QueryExists(p@),
            Effect::Spawn { program, arg } => EffectV::Spawn {
                program: program@,
                arg: arg.deep_view(),
            },
            Effect::ChangeDir(p) => EffectV::ChangeDir(p@),
        }
    }
}

impl View for StepOutcome {
    type V = StepV;

    open spec fn view(&self) -> StepV {
        StepV { state: self.state@, output: self.output.deep_view(), effect: self.effect@ }
    }
}

/// A state between lines, with nothing pending.
pub open spec fn idle(cwd: Option<Seq<char>>) -> StateV {
    StateV { cwd, pending: PendingV::Idle }
}

/// A search in flight points at a real candidate.
pub open spec fn wf(s: StateV) -> bool {
    match s.pending {
        PendingV::Search { name, args, cands, idx, purpose } => 0 <= idx < cands.len(),
        _ => true,
    }
}

/// Which events the machine can take in this state: a line (or end of input)
/// between lines, otherwise exactly the answer to the pending query.
pub open spec fn accepts(s: StateV, e: EventV) -> bool {
    match s.pending {
        PendingV::Idle => e is Line || e is EndOfInput,
        PendingV::CdHome => e is HomeDir,
        PendingV::CdPath { .. } => e is Canonical,
        PendingV::Search { .. } => e is Exists,
        PendingV::AwaitChild => e is ChildStatus,
    }
}

/// What `pwd` shows: the tracked directory, or nothing when it is unset.
pub open spec fn cwd_display(cwd: Option<Seq<char>>) -> Seq<char> {
    match cwd {
        Some(p) => p,
        None => Seq::empty(),
    }
}

/// The message that ends a failed search.
pub open spec fn search_fail_msg(purpose: Purpose, name: Seq<char>) -> Seq<char> {
    match purpose {
        Purpose::TypeQuery => name + " not found\n"@,
        Purpose::Execute => name + ": command not found\n"@,
    }
}

/// Entering a PATH search: with no PATH value, or no nonempty PATH entry to
/// search, the search fails at once; otherwise the first candidate is
/// queried.
pub open spec fn search_start_spec(
    cwd: Option<Seq<char>>,
    name: Seq<char>,
    args: Seq<char>,
    purpose: Purpose,
    path_var: Option<Seq<char>>,
) -> StepV {
    match path_var {
        None => StepV {
            state: idle(cwd),
            output: Some(search_fail_msg(purpose, name)),
            effect: EffectV::Done(1),
        },
        Some(pv) => {
            let cands = candidates_spec(pv, name);
            if cands.len() == 0 {
                StepV {
                    state: idle(cwd),
                    output: Some(search_fail_msg(purpose, name)),
                    effect: EffectV::Done(1),
                }
            } else {
                StepV {
                    state: StateV {
                        cwd,
                        pending: (PendingV::Search { name, args, cands, idx: 0, purpose }),
                    },
                    output: None,
                    effect: EffectV::QueryExists(cands[0]),
                }
            }
        },
    }
}

/// Dispatch of one parsed line: builtins first, then PATH search, and
/// `<command>: command not found` for an empty command.
pub open spec fn line_spec(
    cwd: Option<Seq<char>>,
    text: Seq<char>,
    path_var: Option<Seq<char>>,
) -> StepV {
    let t = trim_spec(text);
    let cmd = command_of(t);
    let args = args_of(t);
    match builtin_of_spec(cmd) {
        Some(Builtin::Exit) => StepV {
            state: idle(cwd),
            output: None,
            effect: EffectV::Exit(exit_code_spec(args)),
        },
        Some(Builtin::Echo) => StepV {
            state: idle(cwd),
            output: Some(args + "\n"@),
            effect: EffectV::Done(0),
        },
        Some(Builtin::Pwd) => StepV {
            state: idle(cwd),
            output: Some(cwd_display(cwd) + "\n"@),
            effect: EffectV::Done(0),
        },
        Some(Builtin::Cd) => if args == "~"@ || args.len() == 0 {
            StepV { state: StateV { cwd, pending: PendingV::CdHome }, output: None, effect: EffectV::QueryHome }
        } else {
            StepV {
                state: StateV { cwd, pending: (PendingV::CdPath { input: args }) },
                output: None,
                effect: EffectV::QueryCanonical(args),
            }
        },
        Some(Builtin::Type) => {
            let name = trim_spec(args);
            if builtin_of_spec(name) is Some {
                StepV {
                    state: idle(cwd),
                    output: Some(name + " is a shell builtin\n"@),
                    effect: EffectV::Done(0),
                }
            } else {
                search_start_spec(cwd, name, Seq::empty(), Purpose::TypeQuery, path_var)
            }
        },
        None => if cmd.len() == 0 {
            StepV {
                state: idle(cwd),
                output: Some(search_fail_msg(Purpose::Execute, cmd)),
                effect: EffectV::Done(1),
            }
        } else {
            search_start_spec(cwd, cmd, args, Purpose::Execute, path_var)
        },
    }
}

/// `cd` toward home: adopt the resolved directory, or report that none was
/// found and change nothing.
pub open spec fn home_spec(cwd: Option<Seq<char>>, h: Option<Seq<char>>) -> StepV {
    match h {
        Some(p) => StepV { state: idle(Some(p)), output: None, effect: EffectV::ChangeDir(p) },
        None => StepV {
            state: idle(cwd),
            output: Some("no home directory found\n"@),
            effect: EffectV::Done(0),
        },
    }
}

/// `cd <input>`: adopt the canonicalized directory; when the path does not
/// name an existing directory, report it and leave the state unchanged.
/// Failure still ends the line with status 0.
pub open spec fn canon_spec(
    cwd: Option<Seq<char>>,
    input: Seq<char>,
    c: Option<Seq<char>>,
) -> StepV {
    match c {
        Some(p) => StepV { state: idle(Some(p)), output: None, effect: EffectV::ChangeDir(p) },
        None => StepV {
            state: idle(cwd),
            output: Some(input + ": No such file or directory\n"@),
            effect: EffectV::Done(0),
        },
    }
}

/// One answer in a PATH search: the first candidate that exists wins; a miss
/// moves to the next candidate; exhaustion fails the search.
pub open spec fn exists_spec(
    cwd: Option<Seq<char>>,
    name: Seq<char>,
    args: Seq<char>,
    cands: Seq<Seq<char>>,
    idx: int,
    purpose: Purpose,
    b: bool,
) -> StepV {
    if b {
        match purpose {
            Purpose::TypeQuery => StepV {
                state: idle(cwd),
                output: Some(name + " is "@ + cands[idx] + "\n"@),
                effect: EffectV::Done(1),
            },
            Purpose::Execute => StepV {
                state: StateV { cwd, pending: PendingV::AwaitChild },
                output: None,
                effect: (EffectV::Spawn {
                    program: cands[idx],
                    arg: if args.len() == 0 {
                        None
                    } else {
                        Some(args)
                    },
                }),
            },
        }
    } else if idx + 1 < cands.len() {
        StepV {
            state: StateV {
                cwd,
                pending: (PendingV::Search { name, args, cands, idx: idx + 1, purpose }),
            },
            output: None,
            effect: EffectV::QueryExists(cands[idx + 1]),
        }
    } else {
        StepV {
            state: idle(cwd),
            output: Some(search_fail_msg(purpose, name)),
            effect: EffectV::Done(1),
        }
    }
}

/// A finished child yields its code; a child that could not be run or
/// reported no code yields the failure status 1.
pub open spec fn child_spec(cwd: Option<Seq<char>>, c: Option<i32>) -> StepV {
    match c {
        Some(code) => StepV { state: idle(cwd), output: None, effect: EffectV::Done(code as int) },
        None => StepV { state: idle(cwd), output: None, effect: EffectV::Done(1) },
    }
}

/// A state that received an event it does not accept stays put and reports
/// failure; `step` never reaches this.
pub open spec fn stuck(s: StateV) -> StepV {
    StepV { state: s, output: None, effect: EffectV::Done(1) }
}

/// The transition function of the machine.
pub open spec fn step_spec(s: StateV, e: EventV) -> StepV {
    match s.pending {
        PendingV::Idle => match e {
            EventV::Line { text, path_var } => line_spec(s.cwd, text, path_var),
            EventV::EndOfInput => StepV { state: s, output: None, effect: EffectV::Exit(0) },
            _ => stuck(s),
        },
        PendingV::CdHome => match e {
            EventV::HomeDir(h) => home_spec(s.cwd, h),
            _ => stuck(s),
        },
        PendingV::CdPath { input } => match e {
            EventV::Canonical(c) => canon_spec(s.cwd, input, c),
            _ => stuck(s),
        },
        PendingV::Search { name, args, cands, idx, purpose } => match e {
            EventV::Exists(b) => exists_spec(s.cwd, name, args, cands, idx, purpose, b),
            _ => stuck(s),
        },
        PendingV::AwaitChild => match e {
            EventV::ChildStatus(c) => child_spec(s.cwd, c),
            _ => stuck(s),
        },
    }
}

fn fail_msg(purpose: Purpose, name: &str) -> (r: String)
    ensures
        r@ == search_fail_msg(purpose, name@),
{
    match purpose {
        Purpose::TypeQuery => concat2(name, " not found\n"),
        Purpose::Execute => concat2(name, ": command not found\n"),
    }
}

fn start_search(
    cwd: Option<String>,
    name: String,
    args: String,
    purpose: Purpose,
    path_var: Option<String>,
) -> (r: StepOutcome)
    ensures
        r@ == search_start_spec(cwd.deep_view(), name@, args@, purpose, path_var.deep_view()),
        wf(r@.state),
{
    match path_var {
        None => {
            let msg = fail_msg(purpose, name.as_str());
            StepOutcome {
                state: ShellState { cwd, pending: Pending::Idle },
                output: Some(msg),
                effect: Effect::Done(1),
            }
        },
        Some(pv) => {
            let cands = candidates(pv.as_str(), name.as_str());
            proof {
                assert(cands.deep_view().len() == cands@.len());
            }
            if cands.len() == 0 {
                let msg = fail_msg(purpose, name.as_str());
                StepOutcome {
                    state: ShellState { cwd, pending: Pending::Idle },
                    output: Some(msg),
                    effect: Effect::Done(1),
                }
            } else {
                let first = cands[0].clone();
                StepOutcome {
                    state: ShellState {
                        cwd,
                        pending: Pending::Search { name, args, cands, idx: 0, purpose },
                    },
                    output: None,
                    effect: Effect::QueryExists(first),
                }
            }
        },
    }
}

fn dispatch_line(cwd: Option<String>, text: String, path_var: Option<String>) -> (r: StepOutcome)
    ensures
        r@ == line_spec(cwd.deep_view(), text@, path_var.deep_view()),
        wf(r@.state),
{
    let (cmd, args) = parse_line(text.as_str());
    match builtin_of(cmd.as_str()) {
        Some(Builtin::Exit) => {
            let code = exit_code_of(args.as_str());
            StepOutcome {
                state: ShellState { cwd, pending: Pending::Idle },
                output: None,
                effect: Effect::Exit(code),
            }
        },
        Some(Builtin::Echo) => {
            let msg = concat2(args.as_str(), "\n");
            StepOutcome {
                state: ShellState { cwd, pending: Pending::Idle },
                output: Some(msg),
                effect: Effect::Done(0),
            }
        },
        Some(Builtin::Pwd) => {
            let msg = match &cwd {
                Some(p) => concat2(p.as_str(), "\n"),
                None => "\n".to_owned(),
            };
            proof {
                assert(msg@ =~= cwd_display(cwd.deep_view()) + "\n"@);
            }
            StepOutcome {
                state: ShellState { cwd, pending: Pending::Idle },
                output: Some(msg),
                effect: Effect::Done(0),
            }
        },
        Some(Builtin::Cd) => {
            if str_eq(args.as_str(), "~") || args.unicode_len() == 0 {
                StepOutcome {
                    state: ShellState { cwd, pending: Pending::CdHome },
                    output: None,
                    effect: Effect::QueryHome,
                }
            } else {
                let query = args.clone();
                StepOutcome {
                    state: ShellState { cwd, pending: Pending::CdPath { input: args } },
                    output: None,
                    effect: Effect::QueryCanonical(query),
                }
            }
        },
        Some(Builtin::Type) => {
            let name = trim_of(args.as_str());
            match builtin_of(name) {
                Some(_) => {
                    let msg = concat2(name, " is a shell builtin\n");
                    StepOutcome {
                        state: ShellState { cwd, pending: Pending::Idle },
                        output: Some(msg),
                        effect: Effect::Done(0),
                    }
                },
                None => {
                    let owned_name = String::from_str(name);
                    start_search(cwd, owned_name, String::new(), Purpose::TypeQuery, path_var)
                },
            }
        },
        None => {
            if cmd.unicode_len() == 0 {
                let msg = concat2(cmd.as_str(), ": command not found\n");
                StepOutcome {
                    state: ShellState { cwd, pending: Pending::Idle },
                    output: Some(msg),
                    effect: Effect::Done(1),
                }
            } else {
                start_search(cwd, cmd, args, Purpose::Execute, path_var)
            }
        },
    }
}

impl ShellState {
    /// A fresh session: the inherited working directory, nothing pending.
    pub fn initial(cwd: Option<String>) -> (r: ShellState)
        ensures
            r@ == idle(cwd.deep_view()),
            wf(r@),
    {
        ShellState { cwd, pending: Pending::Idle }
    }

    /// Whether the state is well formed; `step` keeps this, so it can only
    /// be false for a state that was never produced by `initial` and `step`.
    pub fn is_well_formed(&self) -> (r: bool)
        ensures
            r == wf(self@),
    {
        match &self.pending {
            Pending::Search { cands, idx, .. } => *idx < cands.len(),
            _ => true,
        }
    }

    /// Whether `event` is the one this state awaits; `step` may only be
    /// called when it is.
    pub fn accepts_event(&self, event: &Event) -> (r: bool)
        ensures
            r == accepts(self@, event@),
    {
        match &self.pending {
            Pending::Idle => matches!(event, Event::Line { .. } | Event::EndOfInput),
            Pending::CdHome => matches!(event, Event::HomeDir(_)),
            Pending::CdPath { .. } => matches!(event, Event::Canonical(_)),
            Pending::Search { .. } => matches!(event, Event::Exists(_)),
            Pending::AwaitChild => matches!(event, Event::ChildStatus(_)),
        }
    }

    /// One transition: exactly `step_spec` on the views.
    pub fn step(self, event: Event) -> (r: StepOutcome)
        requires
            accepts(self@, event@),
            wf(self@),
        ensures
            r@ == step_spec(self@, event@),
            wf(r@.state),
    {
        let ShellState { cwd, pending } = self;
        match pending {
            Pending::Idle => match event {
                Event::Line { text, path_var } => dispatch_line(cwd, text, path_var),
                Event::EndOfInput => StepOutcome {
                    state: ShellState { cwd, pending: Pending::Idle },
                    output: None,
                    effect: Effect::Exit(0),
                },
                _ => StepOutcome {
                    state: ShellState { cwd, pending: Pending::Idle },
                    output: None,
                    effect: Effect::Done(1),
                },
            },
            Pending::CdHome => match event {
                Event::HomeDir(h) => match h {
                    Some(p) => {
                        let target = p.clone();
                        StepOutcome {
                            state: ShellState { cwd: Some(p), pending: Pending::Idle },
                            output: None,
                            effect: Effect::ChangeDir(target),
                        }
                    },
                    None => StepOutcome {
                        state: ShellState { cwd, pending: Pending::Idle },
                        output: Some("no home directory found\n".to_owned()),
                        effect: Effect::Done(0),
                    },
                },
                _ => StepOutcome {
                    state: ShellState { cwd, pending: Pending::CdHome },
                    output: None,
                    effect: Effect::Done(1),
                },
            },
            Pending::CdPath { input } => match event {
                Event::Canonical(c) => match c {
                    Some(p) => {
                        let target = p.clone();
                        StepOutcome {
                            state: ShellState { cwd: Some(p), pending: Pending::Idle },
                            output: None,
                            effect: Effect::ChangeDir(target),
                        }
                    },
                    None => {
                        let msg = concat2(input.as_str(), ": No such file or directory\n");
                        StepOutcome {
                            state: ShellState { cwd, pending: Pending::Idle },
                            output: Some(msg),
                            effect: Effect::Done(0),
                        }
                    },
                },
                _ => StepOutcome {
                    state: ShellState { cwd, pending: Pending::CdPath { input } },
                    output: None,
                    effect: Effect::Done(1),
                },
            },
            Pending::Search { name, args, cands, idx, purpose } => match event {
                Event::Exists(b) => {
                    if b {
                        match purpose {
                            Purpose::TypeQuery => {
                                let msg = concat4(name.as_str(), " is ", cands[idx].as_str(), "\n");
                                StepOutcome {
                                    state: ShellState { cwd, pending: Pending::Idle },
                                    output: Some(msg),
                                    effect: Effect::Done(1),
                                }
                            },
                            Purpose::Execute => {
                                let program = cands[idx].clone();
                                let arg = if args.unicode_len() == 0 {
                                    None
                                } else {
                                    Some(args)
                                };
                                StepOutcome {
                                    state: ShellState { cwd, pending: Pending::AwaitChild },
                                    output: None,
                                    effect: Effect::Spawn { program, arg },
                                }
                            },
                        }
                    } else {
                        let n = cands.len();
                        proof {
                            assert((idx as int) < cands.deep_view().len());
                            assert(cands.deep_view().len() == n as int);
                        }
                        if idx + 1 < n {
                            let next = cands[idx + 1].clone();
                            StepOutcome {
                                state: ShellState {
                                    cwd,
                                    pending: Pending::Search {
                                        name,
                                        args,
                                        cands,
                                        idx: idx + 1,
                                        purpose,
                                    },
                                },
                                output: None,
                                effect: Effect::QueryExists(next),
                            }
                        } else {
                            let msg = fail_msg(purpose, name.as_str());
                            StepOutcome {
                                state: ShellState { cwd, pending: Pending::Idle },
                                output: Some(msg),
                                effect: Effect::Done(1),
                            }
                        }
                    }
                },
                _ => StepOutcome {
                    state: ShellState {
                        cwd,
                        pending: Pending::Search { name, args, cands, idx, purpose },
                    },
                    output: None,
                    effect: Effect::Done(1),
                },
            },
            Pending::AwaitChild => match event {
                Event::ChildStatus(c) => match c {
                    Some(code) => StepOutcome {
                        state: ShellState { cwd, pending: Pending::Idle },
                        output: None,
                        effect: Effect::Done(code),
                    },
                    None => StepOutcome {
                        state: ShellState { cwd, pending: Pending::Idle },
                        output: None,
                        effect: Effect::Done(1),
                    },
                },
                _ => StepOutcome {
                    state: ShellState { cwd, pending: Pending::AwaitChild },
                    output: None,
                    effect: Effect::Done(1),
                },
            },
        }
    }
}

} // verus!
