//! The command tree produced by parsing and consumed by execution, together
//! with its mathematical model.

use vstd::prelude::*;

verus! {

/// Which of the three standard streams a redirection replaces, and how the
/// target file is opened: `In` (`<`), `Out` (`>`, truncating), `Append`
/// (`>>`), `Stderr` (`2>`).
#[derive(Clone, Copy, Debug, PartialEq, Eq, Structural)]
pub enum RedirectionType {
    In,
    Out,
    Append,
    Stderr,
}

/// A parsed command: a finite tree whose leaves are `Simple` commands and
/// whose inner nodes route the standard streams of their children.
#[derive(Debug)]
pub enum Command {
    /// One program or builtin invocation with its argument vector.
    Simple { cmd_path: String, cmd_args: Vec<String> },
    /// `left | right`: left's standard output feeds right's standard input.
    Pipe { left: Box<Command>, right: Box<Command> },
    /// `command op file`: run `command` with one standard stream replaced by
    /// the named file.
    Redirection { kind: RedirectionType, command: Box<Command>, file: String },
    /// `left ; right`: run left to completion, then right, unconditionally.
    Separator { left: Box<Command>, right: Box<Command> },
}

/// The mathematical model of a `Command`: the same tree over `Seq<char>`.
/// Contracts about parsing and execution are stated over this type.
#[verifier::ext_equal]
pub enum CommandModel {
    Simple { path: Seq<char>, args: Seq<Seq<char>> },
    Pipe { left: Box<CommandModel>, right: Box<CommandModel> },
    Redirection { kind: RedirectionType, command: Box<CommandModel>, file: Seq<char> },
    Separator { left: Box<CommandModel>, right: Box<CommandModel> },
}

/// The model of a `Command`: the same tree with every `String` replaced by
/// its sequence of characters.
pub open spec fn command_model(c: Command) -> CommandModel
    decreases c,
{
    match c {
        Command::Simple { cmd_path, cmd_args } => CommandModel::Simple {
            path: cmd_path@,
            args: cmd_args.deep_view(),
        },
        Command::Pipe { left, right } => CommandModel::Pipe {
            left: Box::new(command_model(*left)),
            right: Box::new(command_model(*right)),
        },
        Command::Redirection { kind, command, file } => CommandModel::Redirection {
            kind,
            command: Box::new(command_model(*command)),
            file: file@,
        },
        Command::Separator { left, right } => CommandModel::Separator {
            left: Box::new(command_model(*left)),
            right: Box::new(command_model(*right)),
        },
    }
}

impl View for Command {
    type V = CommandModel;

    open spec fn view(&self) -> CommandModel {
        command_model(*self)
    }
}

/// Whether two argument vectors hold the same words.
fn vec_string_eq(a: &Vec<String>, b: &Vec<String>) -> (r: bool)
    ensures
        r == (a.deep_view() == b.deep_view()),
{
    if a.len() != b.len() {
        proof {
            assert(a.deep_view().len() == a@.len());
            assert(b.deep_view().len() == b@.len());
        }
        return false;
    }
    let mut i: usize = 0;
    while i < a.len()
        invariant
            0 <= i <= a@.len(),
            a@.len() == b@.len(),
            forall|j: int| 0 <= j < i ==> a.deep_view()[j] == b.deep_view()[j],
        decreases a@.len() - i,
    {
        if !(a[i] == b[i]) {
            proof {
                assert(a.deep_view()[i as int] == a@[i as int]@);
                assert(b.deep_view()[i as int] == b@[i as int]@);
            }
            return false;
        }
        i += 1;
    }
    proof {
        assert(a.deep_view() =~= b.deep_view());
    }
    true
}

impl PartialEq for Command {
    /// Two command trees are equal when they have the same shape and the same
    /// words at every node.
    fn eq(&self, other: &Command) -> (r: bool)
        decreases self,
    {
        match (self, other) {
            (
                Command::Simple { cmd_path: p1, cmd_args: a1 },
                Command::Simple { cmd_path: p2, cmd_args: a2 },
            ) => *p1 == *p2 && vec_string_eq(a1, a2),
            (
                Command::Pipe { left: l1, right: r1 },
                Command::Pipe { left: l2, right: r2 },
            ) => **l1 == **l2 && **r1 == **r2,
            (
                Command::Redirection { kind: k1, command: c1, file: f1 },
                Command::Redirection { kind: k2, command: c2, file: f2 },
            ) => *k1 == *k2 && *f1 == *f2 && **c1 == **c2,
            (
                Command::Separator { left: l1, right: r1 },
                Command::Separator { left: l2, right: r2 },
            ) => **l1 == **l2 && **r1 == **r2,
            _ => false,
        }
    }
}

impl vstd::std_specs::cmp::PartialEqSpecImpl for Command {
    open spec fn obeys_eq_spec() -> bool {
        true
    }

    open spec fn eq_spec(&self, other: &Command) -> bool {
        self@ == other@
    }
}

} // verus!
