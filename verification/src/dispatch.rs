//! What each command does: the text it writes, and what it asks of the
//! operating system.

use crate::command::{Command, CommandView};
use crate::resolver::{first_executable, resolve, Candidate, PathFacts};
use crate::text::same_text;
use vstd::prelude::*;

verus! {

/// The names that the shell handles itself.
pub open spec fn builtins() -> Set<Seq<char>> {
    set!["exit"@, "echo"@, "type"@, "pwd"@, "cd"@]
}

/// Whether the shell handles `name` itself.
pub fn is_builtin(name: &str) -> (b: bool)
    ensures
        b == builtins().contains(name@),
{
    same_text(name, "exit") || same_text(name, "echo") || same_text(name, "type")
        || same_text(name, "pwd") || same_text(name, "cd")
}

/// The words with one space between each two.
pub open spec fn join_spec(words: Seq<Seq<char>>) -> Seq<char>
    decreases words.len(),
{
    if words.len() == 0 {
        Seq::empty()
    } else if words.len() == 1 {
        words[0]
    } else {
        join_spec(words.drop_last()) + seq![' '] + words.last()
    }
}

/// The words with one space between each two.
pub fn join(words: &Vec<String>) -> (line: String)
    ensures
        line@ == join_spec(words.deep_view()),
{
    let mut line = String::new();
    let mut i: usize = 0;
    while i < words.len()
        invariant
            i <= words.len(),
            line@ == join_spec(words.deep_view().take(i as int)),
        decreases words.len() - i,
    {
        proof {
            reveal_strlit(" ");
            let next = words.deep_view().take(i + 1);
            assert(next.drop_last() == words.deep_view().take(i as int));
            assert(next.last() == words[i as int]@);
            assert(" "@ == seq![' ']);
        }
        if i > 0 {
            line.append(" ");
        }
        line.append(words[i].as_str());
        i = i + 1;
    }
    assert(words.deep_view().take(words.len() as int) == words.deep_view());
    line
}

/// Why a command did nothing but report.
#[derive(Debug, PartialEq, Eq)]
pub enum ShellError {
    /// `cd ~` was asked for, and `HOME` is unset or empty.
    HomeNotSet,
    /// The target of `cd` is not there, or is no directory.
    DirectoryNotFound { target: String },
    /// `type` was asked about a name that is no builtin and that no
    /// directory of the search path holds as an executable file.
    ExecutableNotFound { name: String },
    /// The program of the line could not be started, for whatever reason.
    SpawnFailure { line: String },
}

/// A `ShellError` as the contracts speak of it.
pub enum ShellErrorView {
    HomeNotSet,
    DirectoryNotFound { target: Seq<char> },
    ExecutableNotFound { name: Seq<char> },
    SpawnFailure { line: Seq<char> },
}

impl View for ShellError {
    type V = ShellErrorView;

    open spec fn view(&self) -> ShellErrorView {
        match self {
            ShellError::HomeNotSet => ShellErrorView::HomeNotSet,
            ShellError::DirectoryNotFound { target } => ShellErrorView::DirectoryNotFound {
                target: target@,
            },
            ShellError::ExecutableNotFound { name } => ShellErrorView::ExecutableNotFound {
                name: name@,
            },
            ShellError::SpawnFailure { line } => ShellErrorView::SpawnFailure { line: line@ },
        }
    }
}

/// The line that reports an error.
pub open spec fn message_spec(e: ShellErrorView) -> Seq<char> {
    match e {
        ShellErrorView::HomeNotSet => "cd: HOME not set"@,
        ShellErrorView::DirectoryNotFound { target } => target + ": No such file or directory"@,
        ShellErrorView::ExecutableNotFound { name } => name + ": not found"@,
        ShellErrorView::SpawnFailure { line } => line + ": command not found"@,
    }
}

impl ShellError {
    /// The line that reports this error.
    pub fn message(&self) -> (text: String)
        ensures
            text@ == message_spec(self@),
    {
        match self {
            ShellError::HomeNotSet => String::from_str("cd: HOME not set"),
            ShellError::DirectoryNotFound { target } => String::from_str(target.as_str()).concat(
                ": No such file or directory",
            ),
            ShellError::ExecutableNotFound { name } => String::from_str(name.as_str()).concat(
                ": not found",
            ),
            ShellError::SpawnFailure { line } => String::from_str(line.as_str()).concat(
                ": command not found",
            ),
        }
    }
}

/// What the caller is to do for a command.
#[derive(Debug, PartialEq, Eq)]
pub enum Action {
    /// Stop reading lines.
    Terminate,
    /// Write `text` and a newline.
    Print { text: String },
    /// Write the working directory and a newline.
    PrintWorkingDir,
    /// Probe the search path for `name` and write what `describe` makes of it.
    Locate { name: String },
    /// Read `HOME` and go where `home_dir` says.
    ChangeToHome,
    /// Probe `target`, taken relative to the working directory, and go where
    /// `checked_dir` says.
    ChangeDir { target: String },
    /// Start `bin` with `args`, wait for it, and report as `spawn_outcome` says.
    Spawn { bin: String, args: Vec<String> },
}

/// An `Action` as the contracts speak of it.
pub enum ActionView {
    Terminate,
    Print { text: Seq<char> },
    PrintWorkingDir,
    Locate { name: Seq<char> },
    ChangeToHome,
    ChangeDir { target: Seq<char> },
    Spawn { bin: Seq<char>, args: Seq<Seq<char>> },
}

impl View for Action {
    type V = ActionView;

    open spec fn view(&self) -> ActionView {
        match self {
            Action::Terminate => ActionView::Terminate,
            Action::Print { text } => ActionView::Print { text: text@ },
            Action::PrintWorkingDir => ActionView::PrintWorkingDir,
            Action::Locate { name } => ActionView::Locate { name: name@ },
            Action::ChangeToHome => ActionView::ChangeToHome,
            Action::ChangeDir { target } => ActionView::ChangeDir { target: target@ },
            Action::Spawn { bin, args } => ActionView::Spawn { bin: bin@, args: args.deep_view() },
        }
    }
}

/// The first argument, or the empty text where there is none.
pub open spec fn first_or_empty(args: Seq<Seq<char>>) -> Seq<char> {
    if args.len() > 0 {
        args[0]
    } else {
        Seq::empty()
    }
}

/// The line that says `name` is a builtin.
pub open spec fn builtin_line(name: Seq<char>) -> Seq<char> {
    name + " is a shell builtin"@
}

/// What a command asks for.
///
/// `echo` writes its arguments with one space between them. `type` on a
/// builtin's name is answered at once; any other name has to be looked for.
/// `cd ~` goes by `HOME`, any other `cd` by its first argument. `type` and
/// `cd` without an argument act on the empty name.
pub open spec fn dispatch_spec(command: CommandView) -> ActionView {
    match command {
        CommandView::Exit => ActionView::Terminate,
        CommandView::Echo { args } => ActionView::Print { text: join_spec(args) },
        CommandView::Type { args } => {
            let name = first_or_empty(args);
            if builtins().contains(name) {
                ActionView::Print { text: builtin_line(name) }
            } else {
                ActionView::Locate { name }
            }
        },
        CommandView::Pwd => ActionView::PrintWorkingDir,
        CommandView::Cd { args } => {
            let target = first_or_empty(args);
            if target == "~"@ {
                ActionView::ChangeToHome
            } else {
                ActionView::ChangeDir { target }
            }
        },
        CommandView::ExecutableOrNotFound { bin, args } => ActionView::Spawn { bin, args },
    }
}

/// The first argument, or the empty text where there is none.
fn first_arg(args: &Vec<String>) -> (first: String)
    ensures
        first@ == first_or_empty(args.deep_view()),
{
    if args.len() > 0 {
        args[0].clone()
    } else {
        String::new()
    }
}

/// Decides what is to be done for `command`.
pub fn dispatch(command: Command) -> (action: Action)
    ensures
        action@ == dispatch_spec(command@),
{
    match command {
        Command::Exit => Action::Terminate,
        Command::Echo { args } => Action::Print { text: join(&args) },
        Command::Type { args } => {
            let name = first_arg(&args);
            if is_builtin(name.as_str()) {
                Action::Print { text: name.concat(" is a shell builtin") }
            } else {
                Action::Locate { name }
            }
        },
        Command::Pwd => Action::PrintWorkingDir,
        Command::Cd { args } => {
            let target = first_arg(&args);
            if same_text(target.as_str(), "~") {
                Action::ChangeToHome
            } else {
                Action::ChangeDir { target }
            }
        },
        Command::ExecutableOrNotFound { bin, args } => Action::Spawn { bin, args },
    }
}

/// The result of a decision that may end in a report.
pub open spec fn outcome_view(r: Result<String, ShellError>) -> Result<Seq<char>, ShellErrorView> {
    match r {
        Ok(text) => Ok(text@),
        Err(e) => Err(e@),
    }
}

/// What `type` says of `name`, given what the search path holds for it.
pub open spec fn describe_spec(name: Seq<char>, candidates: Seq<Candidate>) -> Result<
    Seq<char>,
    ShellErrorView,
> {
    if builtins().contains(name) {
        Ok(builtin_line(name))
    } else {
        match first_executable(candidates) {
            Some(i) => Ok(name + " is "@ + candidates[i].path@),
            None => Err(ShellErrorView::ExecutableNotFound { name }),
        }
    }
}

/// What `type` says of `name`: a builtin is a builtin whatever the search
/// path holds; any other name is where the search path has it first, or is
/// not found.
pub fn describe(name: &str, candidates: &Vec<Candidate>) -> (r: Result<String, ShellError>)
    ensures
        outcome_view(r) == describe_spec(name@, candidates@),
{
    if is_builtin(name) {
        return Ok(String::from_str(name).concat(" is a shell builtin"));
    }
    match resolve(candidates) {
        Some(i) => Ok(
            String::from_str(name).concat(" is ").concat(candidates[i].path.as_str()),
        ),
        None => Err(ShellError::ExecutableNotFound { name: String::from_str(name) }),
    }
}

/// Where `cd ~` goes, given what `HOME` holds.
pub open spec fn home_dir_spec(home: Option<Seq<char>>) -> Result<Seq<char>, ShellErrorView> {
    match home {
        Some(dir) => if dir.len() > 0 {
            Ok(dir)
        } else {
            Err(ShellErrorView::HomeNotSet)
        },
        None => Err(ShellErrorView::HomeNotSet),
    }
}

/// What an environment variable holds, as the contracts speak of it.
pub open spec fn variable_view(value: Option<String>) -> Option<Seq<char>> {
    match value {
        Some(text) => Some(text@),
        None => None,
    }
}

/// Where `cd ~` goes: to what `HOME` holds, unless it is unset or empty.
pub fn home_dir(home: Option<String>) -> (r: Result<String, ShellError>)
    ensures
        outcome_view(r) == home_dir_spec(variable_view(home)),
{
    match home {
        Some(dir) => if dir.as_str().is_empty() {
            Err(ShellError::HomeNotSet)
        } else {
            Ok(dir)
        },
        None => Err(ShellError::HomeNotSet),
    }
}

/// Where `cd target` goes, given what was found at `target`.
pub open spec fn checked_dir_spec(target: Seq<char>, facts: PathFacts) -> Result<
    Seq<char>,
    ShellErrorView,
> {
    if facts.is_directory() {
        Ok(target)
    } else {
        Err(ShellErrorView::DirectoryNotFound { target })
    }
}

/// Where `cd target` goes: to `target` if a directory is there. Otherwise
/// nothing changes and the target is reported.
pub fn checked_dir(target: String, facts: PathFacts) -> (r: Result<String, ShellError>)
    ensures
        outcome_view(r) == checked_dir_spec(target@, facts),
{
    if facts.directory() {
        Ok(target)
    } else {
        Err(ShellError::DirectoryNotFound { target })
    }
}

/// What is reported once the program of `line` was to be started: nothing
/// if it started, and the line as an unknown command if it did not.
pub fn spawn_outcome(line: &str, started: bool) -> (r: Result<(), ShellError>)
    ensures
        r is Ok <==> started,
        r matches Err(e) ==> e@ == (ShellErrorView::SpawnFailure { line: line@ }),
{
    if started {
        Ok(())
    } else {
        Err(ShellError::SpawnFailure { line: String::from_str(line) })
    }
}

} // verus!
