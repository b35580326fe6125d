//! Word splitting with POSIX-style quoting and escaping.

use crate::text::white_space;
use vstd::prelude::*;

verus! {

/// Why a line could not be split into words.
#[derive(Clone, Copy, Debug, PartialEq, Eq, Structural)]
pub enum TokenizeError {
    /// A quote was opened and the line ended before it was closed.
    UnterminatedQuote,
}

impl TokenizeError {
    /// The line that reports this error.
    pub fn message(&self) -> (text: String)
        ensures
            text@ == "Invalid input"@,
    {
        String::from_str("Invalid input")
    }
}

/// Which quoting context the scanner is in.
#[derive(Clone, Copy, Debug, PartialEq, Eq, Structural)]
pub enum ParseMode {
    Unquoted,
    SingleQuoted,
    DoubleQuoted,
}

/// The scanner's state after some prefix of the line.
pub struct Scan {
    /// The quoting context.
    pub mode: ParseMode,
    /// Whether the previous character was a backslash that escapes the next one.
    pub escaping: bool,
    /// The characters of the word being built.
    pub current: Seq<char>,
    /// The words completed so far.
    pub tokens: Seq<Seq<char>>,
}

impl Scan {
    /// The state before any character was read.
    pub open spec fn start() -> Scan {
        Scan { mode: ParseMode::Unquoted, escaping: false, current: Seq::empty(), tokens: Seq::empty() }
    }

    /// `c` joins the current word; a pending escape is used up.
    pub open spec fn append(self, c: char) -> Scan {
        Scan { escaping: false, current: self.current.push(c), ..self }
    }

    /// The quoting context changes; the current word goes on.
    pub open spec fn enter(self, mode: ParseMode) -> Scan {
        Scan { mode, ..self }
    }

    /// The next character is taken literally.
    pub open spec fn escape(self) -> Scan {
        Scan { escaping: true, ..self }
    }

    /// The current word, unless it is empty, joins the completed words.
    pub open spec fn flush(self) -> Scan {
        if self.current.len() == 0 {
            self
        } else {
            Scan { current: Seq::empty(), tokens: self.tokens.push(self.current), ..self }
        }
    }

    /// The state after reading `c`.
    ///
    /// Between single quotes every character but the closing quote is literal.
    /// Between double quotes a backslash before `"` or `\` is dropped and
    /// makes that character literal; before any other character both are kept.
    /// Outside quotes a backslash is dropped and makes the next character
    /// literal, whatever it is, and unescaped whitespace ends the current word.
    pub open spec fn step(self, c: char) -> Scan {
        match self.mode {
            ParseMode::SingleQuoted => if c == '\'' {
                self.enter(ParseMode::Unquoted)
            } else {
                self.append(c)
            },
            ParseMode::DoubleQuoted => if self.escaping {
                if c == '"' || c == '\\' {
                    self.append(c)
                } else {
                    self.append('\\').append(c)
                }
            } else if c == '"' {
                self.enter(ParseMode::Unquoted)
            } else if c == '\\' {
                self.escape()
            } else {
                self.append(c)
            },
            ParseMode::Unquoted => if self.escaping {
                self.append(c)
            } else if c == '\'' {
                self.enter(ParseMode::SingleQuoted)
            } else if c == '"' {
                self.enter(ParseMode::DoubleQuoted)
            } else if c == '\\' {
                self.escape()
            } else if white_space(c) {
                self.flush()
            } else {
                self.append(c)
            },
        }
    }

    /// The state after reading all of `text`, one character after the other.
    pub open spec fn run(self, text: Seq<char>) -> Scan
        decreases text.len(),
    {
        if text.len() == 0 {
            self
        } else {
            self.run(text.drop_last()).step(text.last())
        }
    }
}

/// The words of `text`, or the reason why it has none.
///
/// The line is scanned once from the left. If it ends inside a quote
/// there is no result; otherwise the word in progress, if any, is the last.
pub open spec fn tokenize_spec(text: Seq<char>) -> Result<Seq<Seq<char>>, TokenizeError> {
    let end = Scan::start().run(text);
    if end.mode != ParseMode::Unquoted {
        Err(TokenizeError::UnterminatedQuote)
    } else {
        Ok(end.flush().tokens)
    }
}

/// The result of `tokenize` as the contracts speak of it.
pub open spec fn tokens_view(r: Result<Vec<String>, TokenizeError>) -> Result<
    Seq<Seq<char>>,
    TokenizeError,
> {
    match r {
        Ok(tokens) => Ok(tokens.deep_view()),
        Err(e) => Err(e),
    }
}

/// Splits `text` into words. It fails exactly when `text` ends inside a
/// quote.
pub fn tokenize(text: &str) -> (r: Result<Vec<String>, TokenizeError>)
    ensures
        tokens_view(r) == tokenize_spec(text@),
        r is Err <==> Scan::start().run(text@).mode != ParseMode::Unquoted,
{
    let mut tokens: Vec<String> = Vec::new();
    let mut current = String::new();
    let mut mode = ParseMode::Unquoted;
    let mut escaping = false;

    for c in it: text.chars()
        invariant
            it.seq() == text@,
            Scan::start().run(text@.take(it.index())).mode == mode,
            Scan::start().run(text@.take(it.index())).escaping == escaping,
            Scan::start().run(text@.take(it.index())).current == current@,
            Scan::start().run(text@.take(it.index())).tokens == tokens.deep_view(),
    {
        let ghost before = Scan::start().run(text@.take(it.index()));
        let ghost after = before.step(c);
        proof {
            let i = it.index();
            assert(text@.take(i + 1).drop_last() == text@.take(i));
            assert(text@.take(i + 1).last() == c);
            assert(Scan::start().run(text@.take(i + 1)) == after);
        }
        match mode {
            ParseMode::SingleQuoted => {
                if c == '\'' {
                    mode = ParseMode::Unquoted;
                } else {
                    current.push(c);
                }
            },
            ParseMode::DoubleQuoted => {
                if escaping {
                    if !(c == '"' || c == '\\') {
                        current.push('\\');
                    }
                    current.push(c);
                    escaping = false;
                } else if c == '"' {
                    mode = ParseMode::Unquoted;
                } else if c == '\\' {
                    escaping = true;
                } else {
                    current.push(c);
                }
            },
            ParseMode::Unquoted => {
                if escaping {
                    current.push(c);
                    escaping = false;
                } else if c == '\'' {
                    mode = ParseMode::SingleQuoted;
                } else if c == '"' {
                    mode = ParseMode::DoubleQuoted;
                } else if c == '\\' {
                    escaping = true;
                } else if c.is_whitespace() {
                    if !current.as_str().is_empty() {
                        let ghost done = tokens.deep_view();
                        tokens.push(current);
                        current = String::new();
                        assert(tokens.deep_view() == done.push(before.current));
                    }
                } else {
                    current.push(c);
                }
            },
        }
    }
    assert(text@.take(text@.len() as int) == text@);
    match mode {
        ParseMode::Unquoted => {
            if !current.as_str().is_empty() {
                let ghost done = tokens.deep_view();
                let ghost last = current@;
                tokens.push(current);
                assert(tokens.deep_view() == done.push(last));
            }
            Ok(tokens)
        },
        _ => Err(TokenizeError::UnterminatedQuote),
    }
}

} // verus!
