//! Tests of the tokenizer and the parser: a string input yields the
//! expected `Command` tree, or the expected `ParsingError`.

use rust_shell::command::{Command, RedirectionType};
use rust_shell::parsing::{convert_to_command, ParsingError};

#[test]
fn test_simple_command_with_args() {
    let input = "ls -lia /".to_string();
    let result = convert_to_command(&input).unwrap();

    let expected = Command::Simple {
        cmd_path: "ls".to_string(),
        cmd_args: vec!["-lia".to_string(), "/".to_string()],
    };

    assert_eq!(expected, result);
}

#[test]
fn test_simple_pipe_command() {
    let input = "echo hello | cat".to_string();
    let result = convert_to_command(&input).unwrap();

    let expected = Command::Pipe {
        left: Box::new(Command::Simple {
            cmd_path: "echo".to_string(),
            cmd_args: vec!["hello".to_string()],
        }),
        right: Box::new(Command::Simple { cmd_path: "cat".to_string(), cmd_args: vec![] }),
    };

    assert_eq!(expected, result);
}

#[test]
fn test_out_redirection_command() {
    let input = "echo hello > test.txt".to_string();
    let result = convert_to_command(&input).unwrap();

    let expected = Command::Redirection {
        kind: RedirectionType::Out,
        command: Box::new(Command::Simple {
            cmd_path: "echo".to_string(),
            cmd_args: vec!["hello".to_string()],
        }),
        file: "test.txt".to_string(),
    };

    assert_eq!(expected, result);
}

#[test]
fn test_in_redirection_command() {
    let input = "cat < input.txt".to_string();
    let result = convert_to_command(&input).unwrap();

    let expected = Command::Redirection {
        kind: RedirectionType::In,
        command: Box::new(Command::Simple { cmd_path: "cat".to_string(), cmd_args: vec![] }),
        file: "input.txt".to_string(),
    };

    assert_eq!(expected, result);
}

#[test]
fn test_append_redirection_command() {
    let input = "echo hello >> test.txt".to_string();
    let result = convert_to_command(&input).unwrap();

    let expected = Command::Redirection {
        kind: RedirectionType::Append,
        command: Box::new(Command::Simple {
            cmd_path: "echo".to_string(),
            cmd_args: vec!["hello".to_string()],
        }),
        file: "test.txt".to_string(),
    };

    assert_eq!(expected, result);
}

#[test]
fn test_err_redirection_command() {
    let input = "echo hello 2> test.txt".to_string();
    let result = convert_to_command(&input).unwrap();

    let expected = Command::Redirection {
        kind: RedirectionType::Stderr,
        command: Box::new(Command::Simple {
            cmd_path: "echo".to_string(),
            cmd_args: vec!["hello".to_string()],
        }),
        file: "test.txt".to_string(),
    };

    assert_eq!(expected, result);
}

#[test]
fn test_chained_pipes() {
    let input = "ls -l / | cat | head".to_string();
    let result = convert_to_command(&input).unwrap();

    let expected = Command::Pipe {
        left: Box::new(Command::Simple {
            cmd_path: "ls".to_string(),
            cmd_args: vec!["-l".to_string(), "/".to_string()],
        }),
        // in the current parsing system, the sub pipes are on the right
        right: Box::new(Command::Pipe {
            left: Box::new(Command::Simple { cmd_path: "cat".to_string(), cmd_args: vec![] }),
            right: Box::new(Command::Simple { cmd_path: "head".to_string(), cmd_args: vec![] }),
        }),
    };

    assert_eq!(expected, result);
}

#[test]
fn test_redirection_after_pipe() {
    let input = "ls -l / | cat >> test.txt".to_string();
    let result = convert_to_command(&input).unwrap();

    let expected = Command::Pipe {
        left: Box::new(Command::Simple {
            cmd_path: "ls".to_string(),
            cmd_args: vec!["-l".to_string(), "/".to_string()],
        }),
        right: Box::new(Command::Redirection {
            kind: RedirectionType::Append,
            command: Box::new(Command::Simple { cmd_path: "cat".to_string(), cmd_args: vec![] }),
            file: "test.txt".to_string(),
        }),
    };

    assert_eq!(expected, result);
}

#[test]
fn test_separator_command() {
    let input = "ls / | cat ; echo hello".to_string();
    let result = convert_to_command(&input).unwrap();

    let expected = Command::Pipe {
        left: Box::new(Command::Simple {
            cmd_path: "ls".to_string(),
            cmd_args: vec!["/".to_string()],
        }),
        right: Box::new(Command::Separator {
            left: Box::new(Command::Simple { cmd_path: "cat".to_string(), cmd_args: vec![] }),
            right: Box::new(Command::Simple {
                cmd_path: "echo".to_string(),
                cmd_args: vec!["hello".to_string()],
            }),
        }),
    };

    assert_eq!(expected, result);
}

#[test]
fn test_words_only_parses_to_simple() {
    // a line of words with no operator always yields a Simple command
    let result = convert_to_command("first second third fourth").unwrap();
    let expected = Command::Simple {
        cmd_path: "first".to_string(),
        cmd_args: vec!["second".to_string(), "third".to_string(), "fourth".to_string()],
    };
    assert_eq!(expected, result);
}

#[test]
fn test_extra_whitespace_is_ignored() {
    let result = convert_to_command("  echo \t hello\n").unwrap();
    let expected = Command::Simple {
        cmd_path: "echo".to_string(),
        cmd_args: vec!["hello".to_string()],
    };
    assert_eq!(expected, result);
}

#[test]
fn test_unicode_whitespace_splits_words() {
    // U+00A0 (no-break space) separates words just as an ASCII space does
    let result = convert_to_command("a\u{a0}b").unwrap();
    let expected = Command::Simple { cmd_path: "a".to_string(), cmd_args: vec!["b".to_string()] };
    assert_eq!(expected, result);
    assert_eq!(convert_to_command("a b").unwrap(), result);
}

#[test]
fn test_glued_operator_stays_in_word() {
    // an operator with no whitespace around it is part of the word
    let result = convert_to_command("echo hi>file").unwrap();
    let expected = Command::Simple {
        cmd_path: "echo".to_string(),
        cmd_args: vec!["hi>file".to_string()],
    };
    assert_eq!(expected, result);
}

#[test]
fn test_empty_input_is_missing_token() {
    let result = convert_to_command("");
    assert!(matches!(result, Err(ParsingError::MissingToken(_))));
}

#[test]
fn test_whitespace_only_input_is_missing_token() {
    let result = convert_to_command("   \t  ");
    assert!(matches!(result, Err(ParsingError::MissingToken(_))));
}

#[test]
fn test_pipe_without_left_side_is_missing_token() {
    let result = convert_to_command("| cat");
    assert!(matches!(result, Err(ParsingError::MissingToken(_))));
}

#[test]
fn test_redirection_without_file_is_missing_token() {
    let result = convert_to_command("echo hello >");
    assert!(matches!(result, Err(ParsingError::MissingToken(_))));
}

#[test]
fn test_redirection_to_operator_is_unexpected_token() {
    let result = convert_to_command("echo hello > >");
    assert!(matches!(result, Err(ParsingError::UnexpectedToken(_))));
}

#[test]
fn test_separator_binds_after_earlier_operator() {
    // the first operator of the scan wins: `;` first makes the separator the root
    let result = convert_to_command("echo a ; echo b | cat").unwrap();
    let expected = Command::Separator {
        left: Box::new(Command::Simple {
            cmd_path: "echo".to_string(),
            cmd_args: vec!["a".to_string()],
        }),
        right: Box::new(Command::Pipe {
            left: Box::new(Command::Simple {
                cmd_path: "echo".to_string(),
                cmd_args: vec!["b".to_string()],
            }),
            right: Box::new(Command::Simple { cmd_path: "cat".to_string(), cmd_args: vec![] }),
        }),
    };
    assert_eq!(expected, result);
}
