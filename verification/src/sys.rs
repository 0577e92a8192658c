//! The trusted boundary to the operating system.
//!
//! Every function here is `external_body`: its body makes one call into an
//! outside crate (or into `std::io`) and converts arguments and results
//! between the library's plain values and the outside types.  Streams are
//! carried as `std::io::PipeReader` / `std::io::PipeWriter`: an owned,
//! readable or writable file descriptor.  A descriptor opened on a
//! redirection file is converted into the same handle types, so that the
//! verified engine routes every stream the same way.  Errors are surfaced as
//! the raw OS error code (`errno`) of the failed call.

use vstd::prelude::*;

use nix::fcntl::OFlag;
use std::io::Write;

verus! {

#[verifier::external_type_specification]
#[verifier::external_body]
pub struct ExPipeReader(std::io::PipeReader);

#[verifier::external_type_specification]
#[verifier::external_body]
pub struct ExPipeWriter(std::io::PipeWriter);

#[verifier::external_type_specification]
#[verifier::external_body]
pub struct ExPosixSpawnFileActions(nix::spawn::PosixSpawnFileActions);

#[verifier::external_type_specification]
#[verifier::external_body]
pub struct ExPosixSpawnAttr(nix::spawn::PosixSpawnAttr);

/// A well-formed C string in byte form: non-empty, terminated by exactly one
/// NUL byte, with no NUL anywhere before it.
pub open spec fn is_c_string_bytes(v: Seq<u8>) -> bool {
    &&& v.len() >= 1
    &&& v[v.len() - 1] == 0
    &&& forall|i: int| 0 <= i < v.len() - 1 ==> v[i] != 0
}

/// Relies on `std::io::pipe`: on success the result is the (read end, write
/// end) pair of a fresh OS pipe; both descriptors are close-on-exec.  On
/// failure the raw OS error code is returned.
#[verifier::external_body]
pub(crate) fn sys_pipe() -> Result<(std::io::PipeReader, std::io::PipeWriter), i32> {
    match std::io::pipe() {
        Ok((rd, wr)) => Ok((rd, wr)),
        Err(e) => Err(e.raw_os_error().unwrap_or(0)),
    }
}

/// Relies on `nix::fcntl::open` with `O_RDONLY | O_CLOEXEC`: opens an
/// existing file for reading.  On failure (e.g. the file does not exist) the
/// raw OS error code is returned.
#[verifier::external_body]
pub(crate) fn sys_open_read(path: &str) -> Result<std::io::PipeReader, i32> {
    match nix::fcntl::open(path, OFlag::O_RDONLY | OFlag::O_CLOEXEC, nix::sys::stat::Mode::empty())
    {
        Ok(fd) => Ok(std::io::PipeReader::from(fd)),
        Err(e) => Err(e as i32),
    }
}

/// Relies on `nix::fcntl::open` with `O_WRONLY | O_CREAT | O_TRUNC |
/// O_CLOEXEC` and permission bits `rw-r--r--`: opens the file for writing,
/// creating it if absent and truncating it to empty otherwise.
#[verifier::external_body]
pub(crate) fn sys_open_trunc(path: &str) -> Result<std::io::PipeWriter, i32> {
    let flags = OFlag::O_WRONLY | OFlag::O_CREAT | OFlag::O_TRUNC | OFlag::O_CLOEXEC;
    match nix::fcntl::open(path, flags, nix::sys::stat::Mode::from_bits_truncate(0o644)) {
        Ok(fd) => Ok(std::io::PipeWriter::from(fd)),
        Err(e) => Err(e as i32),
    }
}

/// Relies on `nix::fcntl::open` with `O_WRONLY | O_CREAT | O_APPEND |
/// O_CLOEXEC` and permission bits `rw-r--r--`: opens the file for writing,
/// creating it if absent, with every write appended to the existing content.
#[verifier::external_body]
pub(crate) fn sys_open_append(path: &str) -> Result<std::io::PipeWriter, i32> {
    let flags = OFlag::O_WRONLY | OFlag::O_CREAT | OFlag::O_APPEND | OFlag::O_CLOEXEC;
    match nix::fcntl::open(path, flags, nix::sys::stat::Mode::from_bits_truncate(0o644)) {
        Ok(fd) => Ok(std::io::PipeWriter::from(fd)),
        Err(e) => Err(e as i32),
    }
}

/// Relies on `nix::spawn::PosixSpawnFileActions::init`: a fresh, empty set of
/// file actions for one spawn.
#[verifier::external_body]
pub(crate) fn sys_spawn_actions_new() -> Result<nix::spawn::PosixSpawnFileActions, i32> {
    match nix::spawn::PosixSpawnFileActions::init() {
        Ok(a) => Ok(a),
        Err(e) => Err(e as i32),
    }
}

/// Relies on `nix::spawn::PosixSpawnAttr::init`: default spawn attributes.
#[verifier::external_body]
pub(crate) fn sys_spawn_attr_new() -> Result<nix::spawn::PosixSpawnAttr, i32> {
    match nix::spawn::PosixSpawnAttr::init() {
        Ok(a) => Ok(a),
        Err(e) => Err(e as i32),
    }
}

/// Relies on `nix::fcntl::fcntl` with `F_DUPFD_CLOEXEC`: returns the number
/// of a fresh descriptor (at least 3) referring to the same open stream as
/// `stream`.  The caller owns the new descriptor and must close it with
/// `sys_close_fd`.
#[verifier::external_body]
pub(crate) fn sys_dup_fd_reader(stream: &std::io::PipeReader) -> Result<i32, i32> {
    match nix::fcntl::fcntl(stream, nix::fcntl::FcntlArg::F_DUPFD_CLOEXEC(3)) {
        Ok(fd) => Ok(fd),
        Err(e) => Err(e as i32),
    }
}

/// Relies on `nix::fcntl::fcntl` with `F_DUPFD_CLOEXEC`: as
/// `sys_dup_fd_reader`, for a write stream.
#[verifier::external_body]
pub(crate) fn sys_dup_fd_writer(stream: &std::io::PipeWriter) -> Result<i32, i32> {
    match nix::fcntl::fcntl(stream, nix::fcntl::FcntlArg::F_DUPFD_CLOEXEC(3)) {
        Ok(fd) => Ok(fd),
        Err(e) => Err(e as i32),
    }
}

/// Relies on `nix::spawn::PosixSpawnFileActions::add_dup2`: records that the
/// spawned child shall receive a duplicate of descriptor `fd` as its
/// descriptor `slot` (0, 1 or 2); the duplicate is not close-on-exec.
#[verifier::external_body]
pub(crate) fn sys_actions_add_dup2(
    actions: &mut nix::spawn::PosixSpawnFileActions,
    fd: i32,
    slot: i32,
) -> Result<(), i32> {
    match actions.add_dup2(fd, slot) {
        Ok(()) => Ok(()),
        Err(e) => Err(e as i32),
    }
}

/// Relies on `nix::unistd::close`: closes the descriptor number obtained
/// from `sys_dup_fd_reader` / `sys_dup_fd_writer`.
#[verifier::external_body]
pub(crate) fn sys_close_fd(fd: i32) -> Result<(), i32> {
    match nix::unistd::close(fd) {
        Ok(()) => Ok(()),
        Err(e) => Err(e as i32),
    }
}

/// Relies on `nix::spawn::posix_spawnp`: starts a child process running the
/// program named by `path` (looked up on the shell's own search path when it
/// holds no slash), with `args` as its full argument vector (`args[0]` is by
/// convention the program name), the recorded file actions applied to its
/// descriptors, and an empty environment.  On success the child's process id
/// is returned; the child runs concurrently from here on.  On failure the
/// raw OS error code is returned (e.g. `ENOENT` for an unknown program).
/// `path` and each element of `args` must be NUL-terminated C string bytes.
#[verifier::external_body]
pub(crate) fn sys_posix_spawnp(
    path: &Vec<u8>,
    args: &Vec<Vec<u8>>,
    actions: &nix::spawn::PosixSpawnFileActions,
    attr: &nix::spawn::PosixSpawnAttr,
) -> (r: Result<i32, i32>)
    requires
        is_c_string_bytes(path@),
        forall|i: int| 0 <= i < args@.len() ==> is_c_string_bytes(args@[i]@),
{
    let p = core::ffi::CStr::from_bytes_with_nul(path.as_slice()).unwrap();
    let a: Vec<&core::ffi::CStr> = args
        .iter()
        .map(|v| core::ffi::CStr::from_bytes_with_nul(v.as_slice()).unwrap())
        .collect();
    let env: [&core::ffi::CStr; 0] = [];
    match nix::spawn::posix_spawnp(p, actions, attr, &a, &env) {
        Ok(pid) => Ok(pid.as_raw()),
        Err(e) => Err(e as i32),
    }
}

/// Relies on `nix::sys::wait::waitpid`: blocks until the child with the
/// given process id has exited and its status has been collected, so that it
/// does not remain a zombie.  On failure the raw OS error code is returned.
#[verifier::external_body]
pub(crate) fn sys_waitpid(pid: i32) -> Result<(), i32> {
    match nix::sys::wait::waitpid(nix::unistd::Pid::from_raw(pid), None) {
        Ok(_) => Ok(()),
        Err(e) => Err(e as i32),
    }
}

/// Relies on `nix::unistd::chdir`: changes the process-wide current working
/// directory to `path`.  On failure (e.g. no such directory) the raw OS
/// error code is returned.
#[verifier::external_body]
pub(crate) fn sys_chdir(path: &str) -> Result<(), i32> {
    match nix::unistd::chdir(path) {
        Ok(()) => Ok(()),
        Err(e) => Err(e as i32),
    }
}

/// Relies on `nix::unistd::getcwd`: returns the process-wide current working
/// directory as a string (invalid UTF-8 replaced, as `to_string_lossy`
/// does).  On failure the raw OS error code is returned.
#[verifier::external_body]
pub(crate) fn sys_getcwd() -> Result<String, i32> {
    match nix::unistd::getcwd() {
        Ok(p) => Ok(p.to_string_lossy().into_owned()),
        Err(e) => Err(e as i32),
    }
}

/// Relies on `nix::unistd::write` on a blocking descriptor: on success at
/// least one byte from `buf[start..]` has been written to the stream, and no
/// more than the rest of the buffer.  On failure the raw OS error code is
/// returned.
#[verifier::external_body]
pub(crate) fn sys_write_writer(stream: &std::io::PipeWriter, buf: &Vec<u8>, start: usize) -> (r:
    Result<usize, i32>)
    requires
        start < buf@.len(),
    ensures
        r matches Ok(n) ==> 1 <= n <= buf@.len() - start,
{
    match nix::unistd::write(stream, &buf.as_slice()[start..]) {
        Ok(n) => Ok(n),
        Err(e) => Err(e as i32),
    }
}

/// Relies on `std::io::Stdout::write_all`: writes all of `buf` to the
/// shell's own standard output and flushes it.  On failure the raw OS error
/// code is returned.
#[verifier::external_body]
pub(crate) fn sys_write_stdout(buf: &Vec<u8>) -> Result<(), i32> {
    let mut out = std::io::stdout();
    match out.write_all(buf.as_slice()).and_then(|_| out.flush()) {
        Ok(()) => Ok(()),
        Err(e) => Err(e.raw_os_error().unwrap_or(0)),
    }
}

/// Relies on `std::io::Stderr::write_all`: writes all of `buf` to the
/// shell's own standard error.  A failure to report is ignored.
#[verifier::external_body]
pub(crate) fn sys_write_stderr(buf: &Vec<u8>) {
    let _ = std::io::stderr().write_all(buf.as_slice());
}

} // verus!
