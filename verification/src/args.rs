//! Startup argument check: the client is started as
//! `tuirc <nickname> <host> <port> <optional user description>`, and a wrong
//! argument count must be answered with a message instead of starting the
//! state machine.

use vstd::prelude::*;

verus! {

/// Replies of the startup argument check.
#[derive(Clone, Copy, Debug, PartialEq, Eq, Structural)]
pub enum ArgInput {
    Help,
    InvalidArgLength,
}

impl ArgInput {
    /// The message to print for this reply.
    pub fn value(&self) -> (r: &str)
        ensures
            self is Help ==> r@ == "Usage:\n\ttuirc <nickname> <host> <port> <optional user description>"@,
            self is InvalidArgLength ==> r@ == "Invalid argument length. Use --help (-h) to see docs."@,
    {
        match self {
            ArgInput::InvalidArgLength => "Invalid argument length. Use --help (-h) to see docs.",
            ArgInput::Help => "Usage:\n\ttuirc <nickname> <host> <port> <optional user description>",
        }
    }
}

/// Whether one argument is a request for help.
pub open spec fn spec_is_help_flag(a: Seq<char>) -> bool {
    a == "-h"@ || a == "--help"@
}

/// Whether some argument is a request for help.
pub open spec fn spec_has_help_flag(args: Seq<Seq<char>>) -> bool {
    exists|i: int| 0 <= i < args.len() && spec_is_help_flag(args[i])
}

/// What the startup check decides on an argument list (the program name is
/// the first entry): with fewer than four entries the client does not start;
/// two entries of which one asks for help get the usage message, any other
/// short list is rejected.
pub open spec fn spec_classify_args(args: Seq<Seq<char>>) -> Option<ArgInput> {
    if args.len() >= 4 {
        None
    } else if args.len() == 2 && spec_has_help_flag(args) {
        Some(ArgInput::Help)
    } else {
        Some(ArgInput::InvalidArgLength)
    }
}

fn is_help_flag(a: &String) -> (r: bool)
    ensures
        r == spec_is_help_flag(a@),
{
    let short = String::from_str("-h");
    let long = String::from_str("--help");
    *a == short || *a == long
}

fn has_help_flag(args: &Vec<String>) -> (r: bool)
    ensures
        r == spec_has_help_flag(args.deep_view()),
{
    let n = args.len();
    let mut i: usize = 0;
    while i < n
        invariant
            n == args@.len(),
            0 <= i <= n,
            forall|j: int| 0 <= j < i ==> !spec_is_help_flag(args.deep_view()[j]),
        decreases n - i,
    {
        if is_help_flag(&args[i]) {
            assert(args.deep_view()[i as int] == args@[i as int]@);
            return true;
        }
        assert(args.deep_view()[i as int] == args@[i as int]@);
        i += 1;
    }
    false
}

/// The startup argument check: `None` means the argument list is long enough
/// to start the client; `Some` carries the reply to print instead.
pub fn classify_args(args: &Vec<String>) -> (r: Option<ArgInput>)
    ensures
        r == spec_classify_args(args.deep_view()),
{
    assert(args.deep_view().len() == args@.len());
    if args.len() >= 4 {
        None
    } else if args.len() == 2 && has_help_flag(args) {
        Some(ArgInput::Help)
    } else {
        Some(ArgInput::InvalidArgLength)
    }
}

} // verus!
