//! What the shell needs from its input source.
//!
//! Interactive line editing, prompt rendering and history live outside the
//! library, in whatever program drives the shell; the library only fixes
//! the contract between the two.

use vstd::prelude::*;

verus! {

/// One round of input: a line of text to run, a round with nothing to run
/// (empty input, or an interruption such as Ctrl-C), or end of input, after
/// which the caller should stop requesting lines and shut down.
pub enum UserInput {
    Line(String),
    NoSpecialInput,
    Eof,
}

/// Why an input source failed to produce a round of input.
#[derive(Debug)]
pub struct InteractionError {
    pub message: String,
}

/// The contract that an interaction with the user should respect: it yields
/// one logical command line at a time and may keep a history of them.
pub trait Interaction {
    /// Waits for and returns the user's next round of input.
    fn receive_input(&mut self) -> Result<UserInput, InteractionError>;

    /// Persists the input history, where the source keeps one.
    fn save_history(&mut self) -> Result<(), InteractionError>;
}

} // verus!
