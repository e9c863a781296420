//! What the runtime was asked to do, read from its command line.
use vstd::prelude::*;
use crate::text::{is_i32_text, parse_pid, signed_value};

verus! {

/// The texts of a sequence of strings.
pub open spec fn texts(v: Seq<String>) -> Seq<Seq<char>> {
    v.map_values(|s: String| s@)
}

/// A request to the runtime.
#[derive(Debug, PartialEq, Eq)]
pub enum Invocation {
    /// Create a container that runs `command`.
    Run { command: Vec<String> },
    /// Run `command` inside the running container whose init process is `pid`.
    Exec { pid: i32, command: Vec<String> },
    /// The command line asks for neither.
    Usage,
}

pub enum InvocationView {
    Run { command: Seq<Seq<char>> },
    Exec { pid: i32, command: Seq<Seq<char>> },
    Usage,
}

impl View for Invocation {
    type V = InvocationView;

    open spec fn view(&self) -> InvocationView {
        match self {
            Invocation::Run { command } => InvocationView::Run { command: texts(command@) },
            Invocation::Exec { pid, command } => InvocationView::Exec {
                pid: *pid,
                command: texts(command@),
            },
            Invocation::Usage => InvocationView::Usage,
        }
    }
}

/// What a command line asks for. The first word is the program's path;
/// `run <cmd> [args...]` and `exec <pid> <cmd> [args...]` need at least one
/// word of command, and the pid must be the decimal text of an `i32`.
pub open spec fn invocation_of(args: Seq<Seq<char>>) -> InvocationView {
    if args.len() >= 3 && args[1] == "run"@ {
        InvocationView::Run { command: args.skip(2) }
    } else if args.len() >= 4 && args[1] == "exec"@ && is_i32_text(args[2]) {
        InvocationView::Exec { pid: signed_value(args[2]) as i32, command: args.skip(3) }
    } else {
        InvocationView::Usage
    }
}

/// Reads a command line, the program's path first.
pub fn parse_args(args: Vec<String>) -> (r: Invocation)
    ensures
        r@ == invocation_of(texts(args@)),
{
    let mut args = args;
    let ghost all = texts(args@);
    if args.len() < 3 {
        return Invocation::Usage;
    }
    let run = String::from_str("run");
    let exec = String::from_str("exec");
    if args[1] == run {
        let command = args.split_off(2);
        assert(texts(command@) =~= all.skip(2));
        Invocation::Run { command }
    } else if args.len() >= 4 && args[1] == exec {
        match parse_pid(args[2].as_str()) {
            Some(pid) => {
                let command = args.split_off(3);
                assert(texts(command@) =~= all.skip(3));
                Invocation::Exec { pid, command }
            },
            None => Invocation::Usage,
        }
    } else {
        Invocation::Usage
    }
}

} // verus!
