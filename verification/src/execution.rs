//! The execution engine: a recursive interpreter of the command tree.
//!
//! Each node derives an `IoContext` for its children and transfers ownership
//! of every stream into exactly one recursive call, so a pipe's write end is
//! closed in the shell as soon as the child holding it has been spawned and
//! a reader can always observe end-of-input.  Child processes are returned
//! up the recursion as `ChildProc` handles and every spawned child is
//! waited on, so none is left a zombie.

use vstd::prelude::*;

use vstd::string::StrSliceExecFns;
use vstd::string::StringSliceAdditionalSpecFns;

use crate::builtin::{is_builtin_path, try_execute_builtin};
use crate::command::{Command, CommandModel};
use crate::sys::{
    is_c_string_bytes, sys_actions_add_dup2, sys_close_fd, sys_dup_fd_reader, sys_dup_fd_writer,
    sys_open_append, sys_open_read, sys_open_trunc, sys_pipe, sys_posix_spawnp,
    sys_spawn_actions_new, sys_spawn_attr_new, sys_waitpid, sys_write_stderr,
};
use crate::command::RedirectionType;

verus! {

/// The OS error code for an invalid argument (`EINVAL`); returned when a
/// word cannot be handed to the OS because it contains a NUL character.
pub const OS_INVALID_ARGUMENT: i32 = 22;

/// Whether a word cannot be handed to the OS as a C string: its UTF-8
/// encoding holds a NUL byte.
pub open spec fn word_has_nul_byte(w: Seq<char>) -> bool {
    exists|i: int|
        0 <= i < vstd::utf8::encode_utf8(w).len() && vstd::utf8::encode_utf8(w)[i] == 0
}

/// Whether a simple command holds a word that cannot be handed to the OS.
pub open spec fn simple_has_nul_word(path: Seq<char>, args: Seq<Seq<char>>) -> bool {
    word_has_nul_byte(path) || exists|j: int| 0 <= j < args.len() && word_has_nul_byte(args[j])
}

/// Whether the tree holds an `exit` leaf: the only thing the engine ever
/// turns into `ExitRequested`.
pub open spec fn may_request_exit(c: CommandModel) -> bool
    decreases c,
{
    match c {
        CommandModel::Simple { path, .. } => path == "exit"@,
        CommandModel::Pipe { left, right } => may_request_exit(*left) || may_request_exit(*right),
        CommandModel::Redirection { command, .. } => may_request_exit(*command),
        CommandModel::Separator { left, right } => may_request_exit(*left) || may_request_exit(
            *right,
        ),
    }
}

/// Why executing a command failed.
///
/// `CommandError` carries the raw OS error code of the failed call (a spawn,
/// an open, a pipe, a wait, or a directory change).  `BuiltinExecError` is a
/// built-in argument error (`cd` without a path).  `MissingChildProcess` is
/// an internal-invariant error: a pipe's side unexpectedly produced no
/// process to wait on.  `ExitRequested`
/// is not a failure: it surfaces the `exit` built-in to the caller, who
/// performs the actual process exit.
#[derive(Debug, Clone, Copy, PartialEq, Eq, Structural)]
pub enum ExecutionError {
    CommandError(i32),
    BuiltinExecError,
    MissingChildProcess,
    ExitRequested,
}

impl ExecutionError {
    /// A human-readable description of the error.
    pub fn message(&self) -> (r: String)
        ensures
            self matches ExecutionError::CommandError(_) ==> r@ == "command execution error"@,
            self is BuiltinExecError ==> r@ == "error occurred during built-in command execution"@,
            self is MissingChildProcess ==> r@ == "expected a child process"@,
            self is ExitRequested ==> r@ == "exit"@,
    {
        match self {
            ExecutionError::CommandError(_) => "command execution error".to_owned(),
            ExecutionError::BuiltinExecError => {
                "error occurred during built-in command execution".to_owned()
            },
            ExecutionError::MissingChildProcess => "expected a child process".to_owned(),
            ExecutionError::ExitRequested => "exit".to_owned(),
        }
    }
}

/// What the three standard streams of one execution step should be: each
/// slot either inherits the enclosing stream (`None`) or names a specific
/// open stream, a file or a pipe end (`Some`).  Each stream is owned by
/// exactly one context and is moved, never duplicated, into the one
/// recursive call that consumes it.
pub struct IoContext {
    pub stdin: Option<std::io::PipeReader>,
    pub stdout: Option<std::io::PipeWriter>,
    pub stderr: Option<std::io::PipeWriter>,
}

impl Default for IoContext {
    /// The context of a top-level invocation: all three streams inherited
    /// from the shell's own standard streams.
    fn default() -> (r: IoContext)
        ensures
            r.stdin is None,
            r.stdout is None,
            r.stderr is None,
    {
        IoContext { stdin: None, stdout: None, stderr: None }
    }
}

/// A handle to a spawned child process: its process id, and whether its exit
/// status has already been collected.  Waiting a second time is a no-op, as
/// it is for an OS child handle.
pub struct ChildProc {
    pub pid: i32,
    pub reaped: bool,
}

impl ChildProc {
    /// Collects the child's exit status, blocking until it has exited; a
    /// handle that was already waited on is left as it is.  A failed wait is
    /// not retried.
    pub fn wait(&mut self) -> (r: Result<(), ExecutionError>)
        ensures
            final(self).reaped,
            final(self).pid == old(self).pid,
            old(self).reaped ==> r is Ok,
            r matches Err(e) ==> e matches ExecutionError::CommandError(_),
    {
        if self.reaped {
            return Ok(());
        }
        self.reaped = true;
        match sys_waitpid(self.pid) {
            Ok(()) => Ok(()),
            Err(code) => Err(ExecutionError::CommandError(code)),
        }
    }
}

/// The NUL-terminated byte form of a word, as handed to the OS.  Fails with
/// `CommandError(OS_INVALID_ARGUMENT)` exactly when the word itself encodes
/// a NUL byte.
fn cstring_bytes(s: &str) -> (r: Result<Vec<u8>, ExecutionError>)
    ensures
        r matches Ok(v) ==> is_c_string_bytes(v@) && v@ == s.spec_bytes().push(0),
        r is Err <==> exists|i: int| 0 <= i < s.spec_bytes().len() && s.spec_bytes()[i] == 0,
        r matches Err(e) ==> e == ExecutionError::CommandError(OS_INVALID_ARGUMENT),
{
    let mut bytes = s.as_bytes_vec();
    let mut i: usize = 0;
    while i < bytes.len()
        invariant
            0 <= i <= bytes@.len(),
            bytes@ == s.spec_bytes(),
            forall|j: int| 0 <= j < i ==> bytes@[j] != 0,
        decreases bytes@.len() - i,
    {
        if bytes[i] == 0 {
            return Err(ExecutionError::CommandError(OS_INVALID_ARGUMENT));
        }
        i += 1;
    }
    bytes.push(0);
    Ok(bytes)
}

/// Closes every descriptor number in the list (best effort).
fn close_fds(fds: &Vec<i32>) {
    let mut i: usize = 0;
    while i < fds.len()
        decreases fds@.len() - i,
    {
        let _ = sys_close_fd(fds[i]);
        i += 1;
    }
}

/// The argument vector handed to the OS for one program invocation: the
/// program name followed by the arguments, in order, each as NUL-terminated
/// bytes.  Fails with `CommandError(OS_INVALID_ARGUMENT)` exactly when one
/// of the words encodes a NUL byte.
fn build_argv(cmd_path: &str, cmd_args: &Vec<String>) -> (r: Result<Vec<Vec<u8>>, ExecutionError>)
    ensures
        r matches Ok(argv) ==> {
            &&& argv@.len() == 1 + cmd_args@.len()
            &&& argv@[0]@ == vstd::utf8::encode_utf8(cmd_path@).push(0)
            &&& forall|j: int|
                0 <= j < cmd_args@.len() ==> #[trigger] argv@[j + 1]@ == vstd::utf8::encode_utf8(
                    cmd_args@[j]@,
                ).push(0)
            &&& forall|j: int| 0 <= j < argv@.len() ==> is_c_string_bytes(#[trigger] argv@[j]@)
        },
        r is Ok <==> !simple_has_nul_word(cmd_path@, cmd_args.deep_view()),
        r matches Err(e) ==> e == ExecutionError::CommandError(OS_INVALID_ARGUMENT),
{
    let path_bytes = match cstring_bytes(cmd_path) {
        Ok(v) => v,
        Err(e) => {
            return Err(e);
        },
    };
    // argv starts, by convention, with the program name itself
    let mut argv: Vec<Vec<u8>> = Vec::new();
    argv.push(path_bytes);
    let mut i: usize = 0;
    while i < cmd_args.len()
        invariant
            0 <= i <= cmd_args@.len(),
            argv@.len() == 1 + i,
            argv@[0]@ == vstd::utf8::encode_utf8(cmd_path@).push(0),
            forall|j: int|
                0 <= j < i ==> #[trigger] argv@[j + 1]@ == vstd::utf8::encode_utf8(
                    cmd_args@[j]@,
                ).push(0),
            forall|j: int| 0 <= j < argv@.len() ==> is_c_string_bytes(#[trigger] argv@[j]@),
            forall|j: int| 0 <= j < i ==> !word_has_nul_byte(#[trigger] cmd_args@[j]@),
            !word_has_nul_byte(cmd_path@),
        decreases cmd_args@.len() - i,
    {
        match cstring_bytes(cmd_args[i].as_str()) {
            Ok(v) => argv.push(v),
            Err(e) => {
                proof {
                    assert(cmd_args.deep_view()[i as int] == cmd_args@[i as int]@);
                }
                return Err(e);
            },
        }
        i += 1;
    }
    proof {
        assert forall|j: int|
            0 <= j < cmd_args.deep_view().len() implies !word_has_nul_byte(
            #[trigger] cmd_args.deep_view()[j],
        ) by {
            assert(cmd_args.deep_view()[j] == cmd_args@[j]@);
        }
    }
    Ok(argv)
}

/// Spawns one external program as a child process, attaching the child's
/// standard streams to the streams of `io_context` (an inherited slot leaves
/// the shell's own stream in place).  Does not run built-ins.  Returns the
/// child's handle, not yet waited on; the context's streams are released in
/// the shell before returning, so that only the child holds them.
fn execute_simple_command(cmd_path: &str, cmd_args: &Vec<String>, io_context: IoContext) -> (r:
    Result<ChildProc, ExecutionError>)
    ensures
        r matches Ok(c) ==> !c.reaped,
        r matches Err(e) ==> e matches ExecutionError::CommandError(_),
        simple_has_nul_word(cmd_path@, cmd_args.deep_view()) ==> r == Err::<
            ChildProc,
            ExecutionError,
        >(ExecutionError::CommandError(OS_INVALID_ARGUMENT)),
{
    let argv = match build_argv(cmd_path, cmd_args) {
        Ok(v) => v,
        Err(e) => {
            return Err(e);
        },
    };
    let mut actions = match sys_spawn_actions_new() {
        Ok(a) => a,
        Err(code) => {
            return Err(ExecutionError::CommandError(code));
        },
    };
    let attr = match sys_spawn_attr_new() {
        Ok(a) => a,
        Err(code) => {
            return Err(ExecutionError::CommandError(code));
        },
    };
    // Record one dup2 action per explicit stream; the temporary duplicate
    // descriptors stay open across the spawn and are closed right after.
    let mut temp_fds: Vec<i32> = Vec::new();
    if let Some(stream) = &io_context.stdin {
        match sys_dup_fd_reader(stream) {
            Ok(fd) => {
                temp_fds.push(fd);
                match sys_actions_add_dup2(&mut actions, fd, 0) {
                    Ok(()) => (),
                    Err(code) => {
                        close_fds(&temp_fds);
                        return Err(ExecutionError::CommandError(code));
                    },
                }
            },
            Err(code) => {
                close_fds(&temp_fds);
                return Err(ExecutionError::CommandError(code));
            },
        }
    }
    if let Some(stream) = &io_context.stdout {
        match sys_dup_fd_writer(stream) {
            Ok(fd) => {
                temp_fds.push(fd);
                match sys_actions_add_dup2(&mut actions, fd, 1) {
                    Ok(()) => (),
                    Err(code) => {
                        close_fds(&temp_fds);
                        return Err(ExecutionError::CommandError(code));
                    },
                }
            },
            Err(code) => {
                close_fds(&temp_fds);
                return Err(ExecutionError::CommandError(code));
            },
        }
    }
    if let Some(stream) = &io_context.stderr {
        match sys_dup_fd_writer(stream) {
            Ok(fd) => {
                temp_fds.push(fd);
                match sys_actions_add_dup2(&mut actions, fd, 2) {
                    Ok(()) => (),
                    Err(code) => {
                        close_fds(&temp_fds);
                        return Err(ExecutionError::CommandError(code));
                    },
                }
            },
            Err(code) => {
                close_fds(&temp_fds);
                return Err(ExecutionError::CommandError(code));
            },
        }
    }
    let spawn_result = sys_posix_spawnp(&argv[0], &argv, &actions, &attr);
    close_fds(&temp_fds);
    // `io_context` is dropped here: the shell's copies of the streams are
    // closed, the child keeps its own.
    match spawn_result {
        Ok(pid) => Ok(ChildProc { pid, reaped: false }),
        Err(code) => Err(ExecutionError::CommandError(code)),
    }
}

/// Reports an execution error on the shell's standard error stream.
fn report_error(error: &ExecutionError) {
    let line = error.message().concat("\n");
    let bytes = line.as_str().as_bytes_vec();
    sys_write_stderr(&bytes);
}

impl Command {
    /// Executes the command and waits for it to complete if necessary.
    ///
    /// A simple command whose path is the `exit` built-in always yields
    /// `Err(ExitRequested)`: the caller performs the actual process exit.
    pub fn execute(&self, io_context: IoContext) -> (r: Result<(), ExecutionError>)
        ensures
            self@ matches CommandModel::Simple { path, args } ==> {
                &&& (path == "exit"@ ==> r == Err::<(), ExecutionError>(
                    ExecutionError::ExitRequested,
                ))
                &&& (path == "cd"@ && args.len() == 0 ==> r == Err::<(), ExecutionError>(
                    ExecutionError::BuiltinExecError,
                ))
                &&& (!is_builtin_path(path) && simple_has_nul_word(path, args) ==> r == Err::<
                    (),
                    ExecutionError,
                >(ExecutionError::CommandError(OS_INVALID_ARGUMENT)))
            },
            self@ matches CommandModel::Separator { left, .. } ==> ((*left)
                matches CommandModel::Simple { path, .. } ==> (path == "exit"@ ==> r == Err::<
                (),
                ExecutionError,
            >(ExecutionError::ExitRequested))),
            r == Err::<(), ExecutionError>(ExecutionError::ExitRequested) ==> may_request_exit(
                self@,
            ),
    {
        // Execute the command, then wait for the returned child, if any.
        match self.execute_recursive(io_context) {
            Ok(Some(mut child_process)) => child_process.wait(),
            Ok(None) => Ok(()),
            Err(e) => Err(e),
        }
    }

    /// Recursively executes the command, deriving a transformed context for
    /// each child node.
    ///
    /// Returns `Ok(None)` if there is no child process to wait for (the case
    /// for the built-in commands and for a separator, which waits for its
    /// own children), `Ok(Some(_))` with the child to wait for otherwise.
    fn execute_recursive(&self, io_context: IoContext) -> (r: Result<
        Option<ChildProc>,
        ExecutionError,
    >)
        ensures
            self@ matches CommandModel::Simple { path, args } ==> {
                &&& (r matches Ok(o) ==> ((o is Some) <==> !is_builtin_path(path)))
                &&& (r matches Ok(Some(c)) ==> !c.reaped)
                &&& (path == "exit"@ ==> r == Err::<Option<ChildProc>, ExecutionError>(
                    ExecutionError::ExitRequested,
                ))
                &&& (path == "cd"@ && args.len() == 0 ==> r == Err::<
                    Option<ChildProc>,
                    ExecutionError,
                >(ExecutionError::BuiltinExecError))
                &&& (!is_builtin_path(path) && simple_has_nul_word(path, args) ==> r == Err::<
                    Option<ChildProc>,
                    ExecutionError,
                >(ExecutionError::CommandError(OS_INVALID_ARGUMENT)))
            },
            self@ is Pipe ==> (r matches Ok(o) ==> (o matches Some(c) && c.reaped)),
            self@ matches CommandModel::Pipe { left, right } ==> {
                &&& ((*left) matches CommandModel::Simple { path, .. } && is_builtin_path(path)
                    ==> r is Err)
                &&& ((*right) matches CommandModel::Simple { path, .. } && is_builtin_path(path)
                    ==> r is Err)
            },
            self@ is Separator ==> (r matches Ok(o) ==> o is None),
            self@ matches CommandModel::Separator { left, right } ==> {
                &&& ((*left) matches CommandModel::Simple { path, .. } ==> (path == "exit"@
                    ==> r == Err::<Option<ChildProc>, ExecutionError>(
                    ExecutionError::ExitRequested,
                )))
                &&& ((*right) matches CommandModel::Simple { path, .. } ==> (path == "exit"@
                    ==> r == Err::<Option<ChildProc>, ExecutionError>(
                    ExecutionError::ExitRequested,
                )))
            },
            self@ matches CommandModel::Redirection { command, .. } ==> {
                &&& ((*command) matches CommandModel::Simple { path, .. } ==> {
                    &&& (r matches Ok(o) ==> ((o is Some) <==> !is_builtin_path(path)))
                    &&& (r matches Ok(Some(c)) ==> !c.reaped)
                    &&& (path == "exit"@ ==> r is Err)
                })
                &&& ((*command) is Pipe ==> (r matches Ok(o) ==> (o matches Some(c) && c.reaped)))
                &&& ((*command) is Separator ==> (r matches Ok(o) ==> o is None))
            },
            r == Err::<Option<ChildProc>, ExecutionError>(ExecutionError::ExitRequested)
                ==> may_request_exit(self@),
        decreases self, 1int,
    {
        match self {
            Command::Simple { cmd_path, cmd_args } => {
                // Run it as a built-in if it is one; otherwise spawn it.
                match try_execute_builtin(cmd_path.as_str(), cmd_args, &io_context) {
                    Ok(Some(())) => Ok(None),
                    Ok(None) => match execute_simple_command(
                        cmd_path.as_str(),
                        cmd_args,
                        io_context,
                    ) {
                        Ok(c) => Ok(Some(c)),
                        Err(e) => Err(e),
                    },
                    Err(e) => Err(e),
                }
            },
            Command::Redirection { .. } => self.execute_redirection_command(io_context),
            Command::Pipe { .. } => self.execute_pipe_command(io_context),
            Command::Separator { .. } => self.execute_separator_command(io_context),
        }
    }

    /// Executes a redirection: opens the file in the mode determined by the
    /// redirection kind, then executes the wrapped command with a derived
    /// context in which exactly the corresponding slot is replaced by the
    /// opened file.  An open error is returned without attempting the
    /// wrapped command.
    fn execute_redirection_command(&self, io_context: IoContext) -> (r: Result<
        Option<ChildProc>,
        ExecutionError,
    >)
        requires
            self is Redirection,
        ensures
            self@ matches CommandModel::Redirection { command, .. } ==> {
                &&& ((*command) matches CommandModel::Simple { path, .. } ==> {
                    &&& (r matches Ok(o) ==> ((o is Some) <==> !is_builtin_path(path)))
                    &&& (r matches Ok(Some(c)) ==> !c.reaped)
                    &&& (path == "exit"@ ==> r is Err)
                })
                &&& ((*command) is Pipe ==> (r matches Ok(o) ==> (o matches Some(c) && c.reaped)))
                &&& ((*command) is Separator ==> (r matches Ok(o) ==> o is None))
            },
            r == Err::<Option<ChildProc>, ExecutionError>(ExecutionError::ExitRequested)
                ==> may_request_exit(self@),
        decreases self, 0int,
    {
        match self {
            Command::Redirection { kind, command, file } => {
                let new_io_context = match kind {
                    RedirectionType::In => match sys_open_read(file.as_str()) {
                        Ok(stream) => IoContext {
                            stdin: Some(stream),
                            stdout: io_context.stdout,
                            stderr: io_context.stderr,
                        },
                        Err(code) => {
                            return Err(ExecutionError::CommandError(code));
                        },
                    },
                    RedirectionType::Out => match sys_open_trunc(file.as_str()) {
                        Ok(stream) => IoContext {
                            stdin: io_context.stdin,
                            stdout: Some(stream),
                            stderr: io_context.stderr,
                        },
                        Err(code) => {
                            return Err(ExecutionError::CommandError(code));
                        },
                    },
                    RedirectionType::Append => match sys_open_append(file.as_str()) {
                        Ok(stream) => IoContext {
                            stdin: io_context.stdin,
                            stdout: Some(stream),
                            stderr: io_context.stderr,
                        },
                        Err(code) => {
                            return Err(ExecutionError::CommandError(code));
                        },
                    },
                    RedirectionType::Stderr => match sys_open_trunc(file.as_str()) {
                        Ok(stream) => IoContext {
                            stdin: io_context.stdin,
                            stdout: io_context.stdout,
                            stderr: Some(stream),
                        },
                        Err(code) => {
                            return Err(ExecutionError::CommandError(code));
                        },
                    },
                };
                command.execute_recursive(new_io_context)
            },
            _ => unreached(),
        }
    }

    /// Executes a pipe: creates one OS pipe, launches the left side with the
    /// pipe's write end as its standard output, releases the shell's copy of
    /// the write end, launches the right side with the pipe's read end as
    /// its standard input, and only then waits for both children (so the
    /// two sides run concurrently and the pipe cannot deadlock).  The
    /// inherited input and error streams go to the left side.  A failure of
    /// either side is surfaced, but every launched child is still waited on.
    fn execute_pipe_command(&self, io_context: IoContext) -> (r: Result<
        Option<ChildProc>,
        ExecutionError,
    >)
        requires
            self is Pipe,
        ensures
            r matches Ok(o) ==> (o matches Some(c) && c.reaped),
            self@ matches CommandModel::Pipe { left, right } ==> {
                &&& ((*left) matches CommandModel::Simple { path, .. } && is_builtin_path(path)
                    ==> r is Err)
                &&& ((*right) matches CommandModel::Simple { path, .. } && is_builtin_path(path)
                    ==> r is Err)
                &&& ((*left) matches CommandModel::Simple { path, .. } && path == "exit"@ ==> (r
                    matches Err(e) && (e == ExecutionError::ExitRequested || e matches
                ExecutionError::CommandError(_))))
            },
            r == Err::<Option<ChildProc>, ExecutionError>(ExecutionError::ExitRequested)
                ==> may_request_exit(self@),
        decreases self, 0int,
    {
        match self {
            Command::Pipe { left, right } => {
                let (pipe_read, pipe_write) = match sys_pipe() {
                    Ok(p) => p,
                    Err(code) => {
                        return Err(ExecutionError::CommandError(code));
                    },
                };
                let left_io_context = IoContext {
                    stdin: io_context.stdin,
                    stdout: Some(pipe_write),
                    stderr: io_context.stderr,
                };
                // The left context, and with it the shell's copy of the
                // pipe's write end, is released inside this call, once the
                // left child has been spawned.
                let mut left_child = match left.execute_recursive(left_io_context) {
                    Ok(Some(c)) => c,
                    Ok(None) => {
                        return Err(ExecutionError::MissingChildProcess);
                    },
                    Err(e) => {
                        return Err(e);
                    },
                };
                let right_io_context = IoContext {
                    stdin: Some(pipe_read),
                    stdout: io_context.stdout,
                    stderr: None,
                };
                match right.execute_recursive(right_io_context) {
                    Ok(Some(mut right_child)) => {
                        // Wait for both children, so neither is left a
                        // zombie; surface the first wait failure.
                        let right_wait = right_child.wait();
                        let left_wait = left_child.wait();
                        match right_wait {
                            Ok(()) => match left_wait {
                                Ok(()) => Ok(Some(right_child)),
                                Err(e) => Err(e),
                            },
                            Err(e) => Err(e),
                        }
                    },
                    Ok(None) => {
                        if let Err(wait_error) = left_child.wait() {
                            report_error(&wait_error);
                        }
                        Err(ExecutionError::MissingChildProcess)
                    },
                    Err(ExecutionError::ExitRequested) => {
                        // the shell is about to exit; do not block on the
                        // left child (it may be waiting for input)
                        Err(ExecutionError::ExitRequested)
                    },
                    Err(e) => {
                        if let Err(wait_error) = left_child.wait() {
                            report_error(&wait_error);
                        }
                        Err(e)
                    },
                }
            },
            _ => unreached(),
        }
    }

    /// Executes a separator: runs the left side to completion, reporting
    /// but not propagating its failure, then unconditionally runs the right
    /// side with a fresh inherited context.  Only `ExitRequested` cuts the
    /// sequence short.
    fn execute_separator_command(&self, io_context: IoContext) -> (r: Result<
        Option<ChildProc>,
        ExecutionError,
    >)
        requires
            self is Separator,
        ensures
            r matches Ok(o) ==> o is None,
            self@ matches CommandModel::Separator { left, right } ==> {
                &&& ((*left) matches CommandModel::Simple { path, .. } ==> (path == "exit"@
                    ==> r == Err::<Option<ChildProc>, ExecutionError>(
                    ExecutionError::ExitRequested,
                )))
                &&& ((*right) matches CommandModel::Simple { path, .. } ==> (path == "exit"@
                    ==> r == Err::<Option<ChildProc>, ExecutionError>(
                    ExecutionError::ExitRequested,
                )))
            },
            r == Err::<Option<ChildProc>, ExecutionError>(ExecutionError::ExitRequested)
                ==> may_request_exit(self@),
        decreases self, 0int,
    {
        match self {
            Command::Separator { left, right } => {
                match left.execute_recursive(io_context) {
                    Ok(Some(mut child)) => {
                        if let Err(e) = child.wait() {
                            report_error(&e);
                        }
                    },
                    Ok(None) => (),
                    Err(e) => {
                        if let ExecutionError::ExitRequested = e {
                            return Err(e);
                        }
                        report_error(&e);
                    },
                }
                let right_io_context = IoContext::default();
                match right.execute_recursive(right_io_context) {
                    Ok(Some(mut right_child)) => match right_child.wait() {
                        Ok(()) => Ok(None),
                        Err(e) => Err(e),
                    },
                    Ok(None) => Ok(None),
                    Err(e) => Err(e),
                }
            },
            _ => unreached(),
        }
    }
}

} // verus!
