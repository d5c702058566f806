//! The fixed builtin registry: a closed set of command names, looked up by
//! exact, case-sensitive match.

use vstd::prelude::*;
use crate::text::str_eq;

verus! {

/// The commands the interpreter implements itself.
#[derive(Clone, Copy, Debug, PartialEq, Eq, Structural)]
pub enum Builtin {
    Exit,
    Echo,
    Pwd,
    Cd,
    Type,
}

/// Which builtin, if any, a command name denotes.
pub open spec fn builtin_of_spec(name: Seq<char>) -> Option<Builtin> {
    if name == "exit"@ {
        Some(Builtin::Exit)
    } else if name == "echo"@ {
        Some(Builtin::Echo)
    } else if name == "pwd"@ {
        Some(Builtin::Pwd)
    } else if name == "cd"@ {
        Some(Builtin::Cd)
    } else if name == "type"@ {
        Some(Builtin::Type)
    } else {
        None
    }
}

pub fn builtin_of(name: &str) -> (r: Option<Builtin>)
    ensures
        r == builtin_of_spec(name@),
{
    if str_eq(name, "exit") {
        Some(Builtin::Exit)
    } else if str_eq(name, "echo") {
        Some(Builtin::Echo)
    } else if str_eq(name, "pwd") {
        Some(Builtin::Pwd)
    } else if str_eq(name, "cd") {
        Some(Builtin::Cd)
    } else if str_eq(name, "type") {
        Some(Builtin::Type)
    } else {
        None
    }
}

} // verus!
