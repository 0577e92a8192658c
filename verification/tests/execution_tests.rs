//! Tests of the execution engine: redirections create, truncate and append
//! to files; pipes connect children without deadlock; a separator runs its
//! right side whatever happened on the left; built-ins behave as specified.

use rust_shell::builtin::{change_directory, get_working_directory};
use rust_shell::command::{Command, RedirectionType};
use rust_shell::execution::{ExecutionError, IoContext};

fn temp_path(name: &str) -> String {
    let pid = nix::unistd::getpid().as_raw();
    format!("/tmp/rust_shell_{}_{}.txt", name, pid)
}

fn read_file(path: &str) -> String {
    let fd = nix::fcntl::open(
        path,
        nix::fcntl::OFlag::O_RDONLY,
        nix::sys::stat::Mode::empty(),
    )
    .expect("File wasn't created");
    let mut out: Vec<u8> = Vec::new();
    let mut buf = [0u8; 4096];
    loop {
        let n = nix::unistd::read(&fd, &mut buf).unwrap();
        if n == 0 {
            break;
        }
        out.extend_from_slice(&buf[..n]);
    }
    String::from_utf8(out).unwrap()
}

fn write_file(path: &str, content: &str) {
    let flags = nix::fcntl::OFlag::O_WRONLY
        | nix::fcntl::OFlag::O_CREAT
        | nix::fcntl::OFlag::O_TRUNC;
    let fd = nix::fcntl::open(path, flags, nix::sys::stat::Mode::from_bits_truncate(0o644))
        .unwrap();
    let mut written = 0;
    let bytes = content.as_bytes();
    while written < bytes.len() {
        written += nix::unistd::write(&fd, &bytes[written..]).unwrap();
    }
}

fn remove_file(path: &str) {
    let _ = nix::unistd::unlink(path);
}

fn simple(path: &str, args: &[&str]) -> Command {
    Command::Simple {
        cmd_path: path.to_string(),
        cmd_args: args.iter().map(|a| a.to_string()).collect(),
    }
}

/// Tests that "echo hello > file" creates the file with the echoed line.
#[test]
fn test_echo_redirection_on_file() {
    let file = temp_path("redirect");
    remove_file(&file);

    let cmd = Command::Redirection {
        kind: RedirectionType::Out,
        command: Box::new(simple("echo", &["hello"])),
        file: file.clone(),
    };
    cmd.execute(IoContext::default()).unwrap();

    let content = read_file(&file);
    assert_eq!(content, "hello\n");
    remove_file(&file);
}

/// Tests that the ">" redirection overrides the old content of the file.
#[test]
fn test_redirection_overwrite() {
    let file = temp_path("overwrite");
    write_file(&file, "old content");

    let cmd = Command::Redirection {
        kind: RedirectionType::Out,
        command: Box::new(simple("echo", &["new content"])),
        file: file.clone(),
    };
    cmd.execute(IoContext::default()).unwrap();

    assert_eq!(read_file(&file).trim(), "new content");
    remove_file(&file);
}

/// Tests that ">>" appends to the existing content instead of overriding it.
#[test]
fn test_redirection_append() {
    let file = temp_path("append");
    write_file(&file, "first line\n");

    let cmd = Command::Redirection {
        kind: RedirectionType::Append,
        command: Box::new(simple("echo", &["second line"])),
        file: file.clone(),
    };
    cmd.execute(IoContext::default()).unwrap();

    assert_eq!(read_file(&file), "first line\nsecond line\n"); // echo adds \n
    remove_file(&file);
}

/// Tests that "2>" binds the file to the child's standard error.
#[test]
fn test_err_redirection_captures_stderr() {
    let file = temp_path("stderr");
    remove_file(&file);

    // `cat` on a missing file complains on stderr and prints nothing on stdout
    let cmd = Command::Redirection {
        kind: RedirectionType::Stderr,
        command: Box::new(simple("cat", &["/nonexistent_rust_shell_input"])),
        file: file.clone(),
    };
    let _ = cmd.execute(IoContext::default());

    assert!(!read_file(&file).is_empty());
    remove_file(&file);
}

/// Tests that "< file" feeds the file to the child's standard input.
#[test]
fn test_in_redirection_reads_file() {
    let infile = temp_path("input");
    let outfile = temp_path("input_out");
    write_file(&infile, "line from file\n");

    // cat < infile, with the pipeline's output captured in outfile
    let cmd = Command::Pipe {
        left: Box::new(Command::Redirection {
            kind: RedirectionType::In,
            command: Box::new(simple("cat", &[])),
            file: infile.clone(),
        }),
        right: Box::new(Command::Redirection {
            kind: RedirectionType::Out,
            command: Box::new(simple("cat", &[])),
            file: outfile.clone(),
        }),
    };
    cmd.execute(IoContext::default()).unwrap();

    assert_eq!(read_file(&outfile), "line from file\n");
    remove_file(&infile);
    remove_file(&outfile);
}

/// Tests that a pipe hands the left side's output to the right side.
#[test]
fn test_pipe_output() {
    let file = temp_path("pipe");
    remove_file(&file);

    // echo hello | cat > file
    let cmd = Command::Pipe {
        left: Box::new(simple("echo", &["hello"])),
        right: Box::new(Command::Redirection {
            kind: RedirectionType::Out,
            command: Box::new(simple("cat", &[])),
            file: file.clone(),
        }),
    };
    cmd.execute(IoContext::default()).unwrap();

    assert_eq!(read_file(&file), "hello\n");
    remove_file(&file);
}

/// Tests that a pipe moving more data than the kernel pipe buffer holds
/// neither deadlocks nor loses data (both sides must run concurrently).
#[test]
fn test_pipe_large_output_no_deadlock() {
    let file = temp_path("pipe_large");
    remove_file(&file);

    // head -c 300000 /dev/zero | wc -c > file
    let cmd = Command::Pipe {
        left: Box::new(simple("head", &["-c", "300000", "/dev/zero"])),
        right: Box::new(Command::Redirection {
            kind: RedirectionType::Out,
            command: Box::new(simple("wc", &["-c"])),
            file: file.clone(),
        }),
    };
    cmd.execute(IoContext::default()).unwrap();

    assert_eq!(read_file(&file).trim(), "300000");
    remove_file(&file);
}

/// Tests that a failing left side of a separator never blocks the right
/// side: its output is still produced.
#[test]
fn test_separator_left_failure_still_runs_right() {
    let file = temp_path("separator");
    remove_file(&file);

    let cmd = Command::Separator {
        left: Box::new(simple("/nonexistent_rust_shell_command", &[])),
        right: Box::new(Command::Redirection {
            kind: RedirectionType::Out,
            command: Box::new(simple("echo", &["ok"])),
            file: file.clone(),
        }),
    };
    cmd.execute(IoContext::default()).unwrap();

    assert_eq!(read_file(&file), "ok\n");
    remove_file(&file);
}

/// Tests that spawning an unknown program surfaces the OS error.
#[test]
fn test_unknown_command_is_command_error() {
    let cmd = simple("/nonexistent_rust_shell_command", &[]);
    let result = cmd.execute(IoContext::default());
    assert!(matches!(result, Err(ExecutionError::CommandError(_))));
}

/// Tests that the exit built-in is surfaced as ExitRequested.
#[test]
fn test_exit_yields_exit_requested() {
    let cmd = simple("exit", &[]);
    let result = cmd.execute(IoContext::default());
    assert!(matches!(result, Err(ExecutionError::ExitRequested)));
}

/// Tests that exit on the left of a separator cuts the sequence short.
#[test]
fn test_exit_cuts_separator_short() {
    let file = temp_path("exit_separator");
    remove_file(&file);

    let cmd = Command::Separator {
        left: Box::new(simple("exit", &[])),
        right: Box::new(Command::Redirection {
            kind: RedirectionType::Out,
            command: Box::new(simple("echo", &["late"])),
            file: file.clone(),
        }),
    };
    let result = cmd.execute(IoContext::default());

    assert!(matches!(result, Err(ExecutionError::ExitRequested)));
    // the right side never ran
    let missing = nix::fcntl::open(
        file.as_str(),
        nix::fcntl::OFlag::O_RDONLY,
        nix::sys::stat::Mode::empty(),
    )
    .is_err();
    assert!(missing);
}

/// Tests that cd without an argument is a built-in argument error.
#[test]
fn test_cd_without_argument_is_builtin_error() {
    let cmd = simple("cd", &[]);
    let result = cmd.execute(IoContext::default());
    assert!(matches!(result, Err(ExecutionError::BuiltinExecError)));
}

/// Tests that a built-in on the left of a pipe produces no child process.
#[test]
fn test_builtin_in_pipe_is_missing_child() {
    let cmd = Command::Pipe {
        left: Box::new(simple("pwd", &[])),
        right: Box::new(simple("cat", &[])),
    };
    let result = cmd.execute(IoContext::default());
    assert!(matches!(result, Err(ExecutionError::MissingChildProcess)));
}

#[test]
fn cd_root_sets_working_directory_to_root() {
    change_directory("/").unwrap();
    let working_dir = get_working_directory().unwrap();
    assert_eq!("/", working_dir);
}

/// Tests that "pwd > file" writes the working directory to the file.
#[test]
fn test_pwd_redirection_writes_working_directory() {
    let file = temp_path("pwd");
    remove_file(&file);

    // pin the working directory, so a concurrent cd test cannot change it
    // between the execution and the check
    change_directory("/").unwrap();
    let cmd = Command::Redirection {
        kind: RedirectionType::Out,
        command: Box::new(simple("pwd", &[])),
        file: file.clone(),
    };
    cmd.execute(IoContext::default()).unwrap();

    assert_eq!(read_file(&file), "/\n");
    remove_file(&file);
}
