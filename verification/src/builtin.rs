//! The built-in commands: `exit`, `cd`, `pwd`.
//!
//! A built-in is handled by the engine itself and never spawns a child
//! process.  `exit` is surfaced to the caller as
//! `ExecutionError::ExitRequested`; the shell's outer loop performs the
//! actual process exit.

use vstd::prelude::*;

use vstd::string::StrSliceExecFns;
use vstd::string::StringExecFns;
use vstd::utf8::encode_utf8;

use crate::execution::{ExecutionError, IoContext};
use crate::sys::{sys_chdir, sys_getcwd, sys_write_stdout, sys_write_writer};

verus! {

/// Whether a command path names a built-in command.
pub open spec fn is_builtin_path(path: Seq<char>) -> bool {
    path == "exit"@ || path == "cd"@ || path == "pwd"@
}

/// Whether two string slices hold the same characters.
fn str_eq_str(a: &str, b: &str) -> (r: bool)
    ensures
        r == (a@ == b@),
{
    let na = a.unicode_len();
    let nb = b.unicode_len();
    if na != nb {
        return false;
    }
    let mut i: usize = 0;
    while i < na
        invariant
            0 <= i <= na,
            na == a@.len(),
            na == b@.len(),
            forall|j: int| 0 <= j < i ==> a@[j] == b@[j],
        decreases na - i,
    {
        if a.get_char(i) != b.get_char(i) {
            return false;
        }
        i += 1;
    }
    proof {
        assert(a@ =~= b@);
    }
    true
}

/// Changes the process-wide current working directory.  An error carries the
/// OS error code of the failed directory change.
pub fn change_directory(to: &str) -> (r: Result<(), ExecutionError>)
    ensures
        r matches Err(e) ==> e matches ExecutionError::CommandError(_),
{
    match sys_chdir(to) {
        Ok(()) => Ok(()),
        Err(code) => Err(ExecutionError::CommandError(code)),
    }
}

/// Returns the process-wide current working directory.
pub fn get_working_directory() -> (r: Result<String, ExecutionError>)
    ensures
        r matches Err(e) ==> e matches ExecutionError::CommandError(_),
{
    match sys_getcwd() {
        Ok(s) => Ok(s),
        Err(code) => Err(ExecutionError::CommandError(code)),
    }
}

/// Writes all of `buf` to the given stream, retrying on short writes.
fn write_all_writer(stream: &std::io::PipeWriter, buf: &Vec<u8>) -> (r: Result<(), ExecutionError>)
    ensures
        r matches Err(e) ==> e matches ExecutionError::CommandError(_),
{
    let mut start: usize = 0;
    while start < buf.len()
        invariant
            0 <= start <= buf@.len(),
        decreases buf@.len() - start,
    {
        match sys_write_writer(stream, buf, start) {
            Ok(n) => {
                start += n;
            },
            Err(code) => {
                return Err(ExecutionError::CommandError(code));
            },
        }
    }
    Ok(())
}

/// The bytes `pwd` writes for a given working directory: the directory
/// followed by a newline, UTF-8 encoded.
fn pwd_output_bytes(cwd: String) -> (r: Vec<u8>)
    ensures
        r@ == encode_utf8(cwd@ + "\n"@),
{
    let line = cwd.concat("\n");
    line.as_str().as_bytes_vec()
}

/// Writes the current working directory followed by a newline to the
/// context's standard output stream (the shell's own standard output when
/// the context inherits it).
fn print_working_directory(io_context: &IoContext) -> (r: Result<(), ExecutionError>)
    ensures
        r matches Err(e) ==> e matches ExecutionError::CommandError(_),
{
    let cwd = match get_working_directory() {
        Ok(s) => s,
        Err(e) => {
            return Err(e);
        },
    };
    let bytes = pwd_output_bytes(cwd);
    match &io_context.stdout {
        None => match sys_write_stdout(&bytes) {
            Ok(()) => Ok(()),
            Err(code) => Err(ExecutionError::CommandError(code)),
        },
        Some(stream) => write_all_writer(stream, &bytes),
    }
}

/// Attempts to run `cmd_path` as a built-in command.
///
/// Returns `Ok(None)` exactly when `cmd_path` is not a built-in; `Ok(Some(()))`
/// when a built-in ran to completion.  `exit` always yields
/// `Err(ExitRequested)`, the deliberate immediate-exit escape hatch; `cd`
/// without an argument yields `Err(BuiltinExecError)`, and with one changes
/// the working directory to its first argument (extra arguments are
/// ignored); `pwd` writes the working directory and a newline to the
/// context's standard output.
pub fn try_execute_builtin(cmd_path: &str, cmd_args: &Vec<String>, io_context: &IoContext) -> (r:
    Result<Option<()>, ExecutionError>)
    ensures
        r == Ok::<Option<()>, ExecutionError>(None) <==> !is_builtin_path(cmd_path@),
        r == Err::<Option<()>, ExecutionError>(ExecutionError::ExitRequested) <==> cmd_path@
            == "exit"@,
        cmd_path@ == "cd"@ ==> ((r == Err::<Option<()>, ExecutionError>(
            ExecutionError::BuiltinExecError,
        )) <==> cmd_args@.len() == 0),
        cmd_path@ == "cd"@ && cmd_args@.len() > 0 ==> (r == Ok::<Option<()>, ExecutionError>(
            Some(()),
        ) || (r matches Err(e) && e matches ExecutionError::CommandError(_))),
        cmd_path@ == "pwd"@ ==> (r == Ok::<Option<()>, ExecutionError>(Some(())) || (r matches
        Err(e) && e matches ExecutionError::CommandError(_))),
{
    proof {
        // the three built-in names are pairwise distinct
        reveal_strlit("exit");
        reveal_strlit("cd");
        reveal_strlit("pwd");
        assert("exit"@.len() == 4);
        assert("cd"@.len() == 2);
        assert("pwd"@.len() == 3);
    }
    if str_eq_str(cmd_path, "exit") {
        Err(ExecutionError::ExitRequested)
    } else if str_eq_str(cmd_path, "cd") {
        // cd takes no more arguments than the target path
        if cmd_args.len() == 0 {
            return Err(ExecutionError::BuiltinExecError);
        }
        match change_directory(cmd_args[0].as_str()) {
            Ok(()) => Ok(Some(())),
            Err(e) => Err(e),
        }
    } else if str_eq_str(cmd_path, "pwd") {
        match print_working_directory(io_context) {
            Ok(()) => Ok(Some(())),
            Err(e) => Err(e),
        }
    } else {
        Ok(None)
    }
}

} // verus!
