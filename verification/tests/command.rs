use shell_core::command::Command;
use shell_core::tokenizer::TokenizeError;

fn words(items: &[&str]) -> Vec<String> {
    items.iter().map(|s| s.to_string()).collect()
}

#[test]
fn test_echo_with_single_quotes_and_concatenation() {
    let input = "echo 'script     hello' 'example''world' test''shell";
    let command = Command::from_input(input);

    let expected_args = vec![
        "script     hello".to_string(),
        "exampleworld".to_string(),
        "testshell".to_string(),
    ];

    assert_eq!(
        command,
        Ok(Command::Echo {
            args: expected_args
        })
    );
}

#[test]
fn test_basic_echo() {
    let input = "echo hello world";
    let command = Command::from_input(input);

    let expected_args = vec!["hello".to_string(), "world".to_string()];

    assert_eq!(
        command,
        Ok(Command::Echo {
            args: expected_args
        })
    );
}

#[test]
fn test_echo_single_quotes_spaces() {
    let input = "echo 'hello   world' 'foo'";
    let command = Command::from_input(input);

    let expected_args = vec!["hello   world".to_string(), "foo".to_string()];

    assert_eq!(
        command,
        Ok(Command::Echo {
            args: expected_args
        })
    );
}

#[test]
fn test_parse_args_with_empty_quotes() {
    let input = "echo 'a''b'";
    let command = Command::from_input(input);

    let expected_args = vec!["ab".to_string()];

    assert_eq!(
        command,
        Ok(Command::Echo {
            args: expected_args
        })
    );
}

#[test]
fn test_echo_with_double_quotes() {
    let input = "echo \"quz  hello\" \"bar\"";
    let command = Command::from_input(input);

    let expected_args = vec!["quz  hello".to_string(), "bar".to_string()];

    assert_eq!(
        command,
        Ok(Command::Echo {
            args: expected_args
        })
    );
}

#[test]
fn test_echo_double_quotes_wrapping_single_quotes() {
    let input = "echo \"shell's test\"";
    let command = Command::from_input(input);

    let expected_args = vec!["shell's test".to_string()];

    assert_eq!(
        command,
        Ok(Command::Echo {
            args: expected_args
        })
    );
}

#[test]
fn test_parse_args_with_escaping() {
    let input = "echo world\\ \\ \\ \\ \\ \\ script";
    let command = Command::from_input(input);

    let expected_args = vec!["world      script".to_string()];

    assert_eq!(
        command,
        Ok(Command::Echo {
            args: expected_args
        }),
        "should keep whitespace"
    );
}

#[test]
fn test_parse_args_with_escaping_backslash() {
    let input = "echo hello\\\\world";
    let command = Command::from_input(input);

    let expected_args = vec!["hello\\world".to_string()];

    assert_eq!(
        command,
        Ok(Command::Echo {
            args: expected_args
        }),
        "should keep backslashes"
    );
}

#[test]
fn test_parse_args_with_backslash_n() {
    let input = "echo test\\nexample";
    let command = Command::from_input(input);

    let expected_args = vec!["testnexample".to_string()];

    assert_eq!(
        command,
        Ok(Command::Echo {
            args: expected_args
        }),
        "should remove backslashes"
    );
}

#[test]
fn test_parse_args_with_newline() {
    let input = "echo 'test\nexample'";
    let command = Command::from_input(input);

    let expected_args = vec!["test\nexample".to_string()];

    assert_eq!(
        command,
        Ok(Command::Echo {
            args: expected_args
        }),
        "should preserve newlines in single quotes"
    );
}

#[test]
fn classify_exit_and_pwd() {
    assert_eq!(Command::classify("exit"), Ok(Command::Exit));
    assert_eq!(Command::classify("pwd"), Ok(Command::Pwd));
}

#[test]
fn classify_echo_collapses_repeated_whitespace() {
    assert_eq!(
        Command::classify("echo  a   b"),
        Ok(Command::Echo { args: words(&["a", "b"]) })
    );
}

#[test]
fn classify_type_and_cd_take_the_words_after_the_keyword() {
    assert_eq!(
        Command::classify("type echo ls"),
        Ok(Command::Type { args: words(&["echo", "ls"]) })
    );
    assert_eq!(
        Command::classify("cd /tmp"),
        Ok(Command::Cd { args: words(&["/tmp"]) })
    );
    assert_eq!(
        Command::classify("cd 'my dir'"),
        Ok(Command::Cd { args: words(&["my dir"]) })
    );
}

#[test]
fn classify_keyword_needs_the_space() {
    assert_eq!(
        Command::classify("echo"),
        Ok(Command::ExecutableOrNotFound { bin: "echo".to_string(), args: vec![] })
    );
    assert_eq!(
        Command::classify("cd"),
        Ok(Command::ExecutableOrNotFound { bin: "cd".to_string(), args: vec![] })
    );
    assert_eq!(
        Command::classify("typeset x"),
        Ok(Command::ExecutableOrNotFound { bin: "typeset".to_string(), args: words(&["x"]) })
    );
    assert_eq!(
        Command::classify("echo\tx"),
        Ok(Command::ExecutableOrNotFound { bin: "echo".to_string(), args: words(&["x"]) })
    );
}

#[test]
fn classify_exit_with_more_text_is_a_program() {
    assert_eq!(
        Command::classify("exit 0"),
        Ok(Command::ExecutableOrNotFound { bin: "exit".to_string(), args: words(&["0"]) })
    );
    assert_eq!(
        Command::classify("pwdx"),
        Ok(Command::ExecutableOrNotFound { bin: "pwdx".to_string(), args: vec![] })
    );
}

#[test]
fn classify_keyword_cannot_be_quoted() {
    assert_eq!(
        Command::classify("'echo' a"),
        Ok(Command::ExecutableOrNotFound { bin: "'echo'".to_string(), args: words(&["a"]) })
    );
}

#[test]
fn classify_program_with_arguments() {
    assert_eq!(
        Command::classify("ls -l 'my file' b\\ c"),
        Ok(Command::ExecutableOrNotFound {
            bin: "ls".to_string(),
            args: words(&["-l", "my file", "b c"]),
        })
    );
}

#[test]
fn classify_program_name_ends_at_any_whitespace() {
    assert_eq!(
        Command::classify("ls\t-l"),
        Ok(Command::ExecutableOrNotFound { bin: "ls".to_string(), args: words(&["-l"]) })
    );
    assert_eq!(
        Command::classify("caf\u{e9}\u{3000}x"),
        Ok(Command::ExecutableOrNotFound { bin: "caf\u{e9}".to_string(), args: words(&["x"]) })
    );
}

#[test]
fn classify_empty_line_names_the_empty_program() {
    assert_eq!(
        Command::classify(""),
        Ok(Command::ExecutableOrNotFound { bin: String::new(), args: vec![] })
    );
    assert_eq!(
        Command::from_input("  \t \n"),
        Ok(Command::ExecutableOrNotFound { bin: String::new(), args: vec![] })
    );
}

#[test]
fn classify_empty_quotes_give_no_argument() {
    assert_eq!(Command::classify("type ''"), Ok(Command::Type { args: vec![] }));
    assert_eq!(Command::classify("echo \"\""), Ok(Command::Echo { args: vec![] }));
}

#[test]
fn classify_reports_an_open_quote() {
    assert_eq!(Command::classify("echo 'abc"), Err(TokenizeError::UnterminatedQuote));
    assert_eq!(Command::classify("type \"abc"), Err(TokenizeError::UnterminatedQuote));
    assert_eq!(Command::classify("cd 'abc"), Err(TokenizeError::UnterminatedQuote));
    assert_eq!(Command::classify("ls 'abc"), Err(TokenizeError::UnterminatedQuote));
    assert_eq!(Command::from_input("  echo 'abc  \n"), Err(TokenizeError::UnterminatedQuote));
}

#[test]
fn from_input_drops_surrounding_whitespace() {
    assert_eq!(Command::from_input("  exit \n"), Ok(Command::Exit));
    assert_eq!(Command::from_input("\tpwd\r\n"), Ok(Command::Pwd));
    assert_eq!(Command::from_input("pwd"), Ok(Command::Pwd));
    assert_eq!(
        Command::from_input("\u{3000}echo hi\u{a0}"),
        Ok(Command::Echo { args: words(&["hi"]) })
    );
}

#[test]
fn classify_does_not_trim() {
    assert_eq!(
        Command::classify(" exit"),
        Ok(Command::ExecutableOrNotFound { bin: String::new(), args: words(&["exit"]) })
    );
}

#[test]
fn parse_args_splits_words() {
    assert_eq!(Command::parse_args("a 'b c' d"), Ok(words(&["a", "b c", "d"])));
    assert_eq!(Command::parse_args("\"open"), Err(TokenizeError::UnterminatedQuote));
}
