//! Classifying a line as one command.

use crate::text::{same_text, split_word, strip_prefix, trim, trimmed, word_len};
use crate::tokenizer::{tokenize, tokenize_spec, tokens_view, TokenizeError};
use vstd::prelude::*;

verus! {

/// One command of the shell, as read from one line.
#[derive(Debug, PartialEq, Eq)]
pub enum Command {
    /// Leave the shell.
    Exit,
    /// Write the arguments.
    Echo { args: Vec<String> },
    /// Say what kind of command the first argument names.
    Type { args: Vec<String> },
    /// Write the working directory.
    Pwd,
    /// Change the working directory to the first argument.
    Cd { args: Vec<String> },
    /// Run the program `bin` with `args`; there may be no such program.
    ExecutableOrNotFound { bin: String, args: Vec<String> },
}

/// A command as the contracts speak of it: text as sequences of characters.
pub enum CommandView {
    Exit,
    Echo { args: Seq<Seq<char>> },
    Type { args: Seq<Seq<char>> },
    Pwd,
    Cd { args: Seq<Seq<char>> },
    ExecutableOrNotFound { bin: Seq<char>, args: Seq<Seq<char>> },
}

impl View for Command {
    type V = CommandView;

    open spec fn view(&self) -> CommandView {
        match self {
            Command::Exit => CommandView::Exit,
            Command::Echo { args } => CommandView::Echo { args: args.deep_view() },
            Command::Type { args } => CommandView::Type { args: args.deep_view() },
            Command::Pwd => CommandView::Pwd,
            Command::Cd { args } => CommandView::Cd { args: args.deep_view() },
            Command::ExecutableOrNotFound { bin, args } => CommandView::ExecutableOrNotFound {
                bin: bin@,
                args: args.deep_view(),
            },
        }
    }
}

/// What follows `keyword` in `line`.
pub open spec fn after(line: Seq<char>, keyword: Seq<char>) -> Seq<char> {
    line.skip(keyword.len() as int)
}

/// The command that a line without surrounding whitespace stands for.
///
/// `exit` and `pwd` are recognised only as the whole line. `echo`, `type` and
/// `cd` are recognised by the keyword and one space at the start of the line,
/// before any quoting is looked at, and take the words of what follows. Any
/// other line names a program by its first word and passes it the words of
/// the rest. A line whose argument text ends inside a quote is no command.
pub open spec fn classify_spec(line: Seq<char>) -> Result<CommandView, TokenizeError> {
    if line == "exit"@ {
        Ok(CommandView::Exit)
    } else if line == "pwd"@ {
        Ok(CommandView::Pwd)
    } else if "echo "@.is_prefix_of(line) {
        match tokenize_spec(after(line, "echo "@)) {
            Ok(args) => Ok(CommandView::Echo { args }),
            Err(e) => Err(e),
        }
    } else if "type "@.is_prefix_of(line) {
        match tokenize_spec(after(line, "type "@)) {
            Ok(args) => Ok(CommandView::Type { args }),
            Err(e) => Err(e),
        }
    } else if "cd "@.is_prefix_of(line) {
        match tokenize_spec(after(line, "cd "@)) {
            Ok(args) => Ok(CommandView::Cd { args }),
            Err(e) => Err(e),
        }
    } else {
        let n = word_len(line) as int;
        match tokenize_spec(line.skip(n)) {
            Ok(args) => Ok(CommandView::ExecutableOrNotFound { bin: line.take(n), args }),
            Err(e) => Err(e),
        }
    }
}

/// The result of a classification as the contracts speak of it.
pub open spec fn command_view(r: Result<Command, TokenizeError>) -> Result<
    CommandView,
    TokenizeError,
> {
    match r {
        Ok(command) => Ok(command@),
        Err(e) => Err(e),
    }
}

impl Command {
    /// Reads one raw line: whitespace around it is dropped, and what is left
    /// is classified.
    pub fn from_input(input: &str) -> (r: Result<Command, TokenizeError>)
        ensures
            command_view(r) == classify_spec(trimmed(input@)),
    {
        Self::classify(trim(input))
    }

    /// Classifies a line that has no whitespace around it.
    pub fn classify(line: &str) -> (r: Result<Command, TokenizeError>)
        ensures
            command_view(r) == classify_spec(line@),
    {
        if same_text(line, "exit") {
            return Ok(Command::Exit);
        }
        if same_text(line, "pwd") {
            return Ok(Command::Pwd);
        }
        if let Some(rest) = strip_prefix(line, "echo ") {
            return match Self::parse_args(rest) {
                Ok(args) => Ok(Command::Echo { args }),
                Err(e) => Err(e),
            };
        }
        if let Some(rest) = strip_prefix(line, "type ") {
            return match Self::parse_args(rest) {
                Ok(args) => Ok(Command::Type { args }),
                Err(e) => Err(e),
            };
        }
        if let Some(rest) = strip_prefix(line, "cd ") {
            return match Self::parse_args(rest) {
                Ok(args) => Ok(Command::Cd { args }),
                Err(e) => Err(e),
            };
        }
        let (word, rest) = split_word(line);
        match Self::parse_args(rest) {
            Ok(args) => Ok(Command::ExecutableOrNotFound { bin: String::from_str(word), args }),
            Err(e) => Err(e),
        }
    }

    /// The words of a command's argument text.
    pub fn parse_args(args_raw: &str) -> (r: Result<Vec<String>, TokenizeError>)
        ensures
            tokens_view(r) == tokenize_spec(args_raw@),
    {
        tokenize(args_raw)
    }
}

} // verus!
