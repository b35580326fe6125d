//! What holds of every line that is split into words.

use crate::command::CommandView;
use crate::dispatch::{
    builtin_line, builtins, checked_dir_spec, describe_spec, dispatch_spec, message_spec,
    ActionView, ShellErrorView,
};
use crate::resolver::{Candidate, PathFacts};
use crate::text::white_space;
use crate::tokenizer::{tokenize_spec, ParseMode, Scan, TokenizeError};
use vstd::prelude::*;

verus! {

/// Reading `a` and then `b` is reading `a + b`.
pub proof fn lemma_run_concat(st: Scan, a: Seq<char>, b: Seq<char>)
    ensures
        st.run(a + b) == st.run(a).run(b),
    decreases b.len(),
{
    if b.len() == 0 {
        assert(a + b == a);
    } else {
        lemma_run_concat(st, a, b.drop_last());
        assert((a + b).drop_last() == a + b.drop_last());
    }
}

/// Reading a text of one character is one step.
pub proof fn lemma_run_one(st: Scan, c: char)
    ensures
        st.run(seq![c]) == st.step(c),
{
    assert(seq![c].drop_last() == Seq::<char>::empty());
    assert(st.run(Seq::<char>::empty()) == st);
}

/// Between single quotes, text without a single quote joins the current
/// word as it stands.
pub proof fn lemma_run_inside_single_quotes(st: Scan, a: Seq<char>)
    requires
        st.mode == ParseMode::SingleQuoted,
        !st.escaping,
        !a.contains('\''),
    ensures
        st.run(a) == (Scan { current: st.current + a, ..st }),
    decreases a.len(),
{
    if a.len() == 0 {
        assert(st.current + a == st.current);
    } else {
        let front = a.drop_last();
        assert forall|i: int| 0 <= i < front.len() implies front[i] != '\'' by {
            assert(a.contains(a[i]));
        }
        assert(a.contains(a.last()));
        lemma_run_inside_single_quotes(st, front);
        assert(st.current + a == (st.current + front).push(a.last()));
    }
}

/// `a` between single quotes.
pub open spec fn single_quoted(a: Seq<char>) -> Seq<char> {
    seq!['\''] + a + seq!['\'']
}

/// Two single-quoted fragments with nothing between them are one word, made
/// of both contents: for all `a` and `b` without a single quote, not both
/// empty, `'a''b'` has the one word `ab`.
pub proof fn lemma_adjacent_single_quotes_concatenate(a: Seq<char>, b: Seq<char>)
    requires
        !a.contains('\''),
        !b.contains('\''),
        a.len() + b.len() > 0,
    ensures
        tokenize_spec(single_quoted(a) + single_quoted(b)) == Ok::<Seq<Seq<char>>, TokenizeError>(
            seq![a + b],
        ),
{
    let q = seq!['\''];
    let s0 = Scan::start();
    let s1 = s0.run(q);
    let s2 = s1.run(a);
    let s3 = s2.run(q);
    let s4 = s3.run(q);
    let s5 = s4.run(b);
    let s6 = s5.run(q);
    lemma_run_one(s0, '\'');
    lemma_run_inside_single_quotes(s1, a);
    lemma_run_one(s2, '\'');
    lemma_run_one(s3, '\'');
    lemma_run_inside_single_quotes(s4, b);
    lemma_run_one(s5, '\'');
    lemma_run_concat(s0, q, a);
    lemma_run_concat(s0, q + a, q);
    lemma_run_concat(s0, q + a + q, q);
    lemma_run_concat(s0, q + a + q + q, b);
    lemma_run_concat(s0, q + a + q + q + b, q);
    assert(single_quoted(a) + single_quoted(b) == q + a + q + q + b + q);
    assert(s6.current == a + b);
    assert(s6.tokens == Seq::<Seq<char>>::empty());
    assert(s6.flush().tokens == seq![a + b]);
}

/// No word is empty.
pub open spec fn all_nonempty(words: Seq<Seq<char>>) -> bool {
    forall|i: int| 0 <= i < words.len() ==> (#[trigger] words[i]).len() > 0
}

/// Reading on never completes an empty word.
proof fn lemma_run_keeps_nonempty(st: Scan, text: Seq<char>)
    requires
        all_nonempty(st.tokens),
    ensures
        all_nonempty(st.run(text).tokens),
    decreases text.len(),
{
    if text.len() > 0 {
        lemma_run_keeps_nonempty(st, text.drop_last());
    }
}

/// A line never has an empty word: whitespace that follows whitespace, and
/// quotes with nothing between them, make no word of their own.
pub proof fn lemma_tokens_nonempty(text: Seq<char>)
    ensures
        tokenize_spec(text) matches Ok(words) ==> all_nonempty(words),
{
    lemma_run_keeps_nonempty(Scan::start(), text);
}

/// Outside quotes, text without a quote character leaves the scanner
/// outside quotes.
proof fn lemma_run_stays_unquoted(st: Scan, text: Seq<char>)
    requires
        st.mode == ParseMode::Unquoted,
        !text.contains('\''),
        !text.contains('"'),
    ensures
        st.run(text).mode == ParseMode::Unquoted,
    decreases text.len(),
{
    if text.len() > 0 {
        let front = text.drop_last();
        assert forall|i: int| 0 <= i < front.len() implies front[i] != '\'' && front[i] != '"' by {
            assert(text.contains(text[i]));
        }
        assert(text.contains(text.last()));
        lemma_run_stays_unquoted(st, front);
    }
}

/// A line without a quote character always has words: only a quote that is
/// left open makes a line fail.
pub proof fn lemma_without_quotes_succeeds(text: Seq<char>)
    requires
        !text.contains('\''),
        !text.contains('"'),
    ensures
        tokenize_spec(text) is Ok,
{
    lemma_run_stays_unquoted(Scan::start(), text);
}

/// Only whitespace outside quotes ends a word: any other character,
/// opening and closing quotes among them, leaves the completed words as
/// they are.
pub proof fn lemma_only_whitespace_ends_a_word(st: Scan, c: char)
    ensures
        st.step(c).tokens != st.tokens ==> {
            &&& st.mode == ParseMode::Unquoted
            &&& !st.escaping
            &&& white_space(c)
            &&& st.current.len() > 0
            &&& st.step(c).tokens == st.tokens.push(st.current)
        },
{
}

/// A whitespace character gets into a word only inside quotes or behind a
/// backslash. A quote character gets into a word only inside quotes of the
/// other kind or behind a backslash.
pub proof fn lemma_literal_only_when_quoted_or_escaped(st: Scan, c: char)
    ensures
        white_space(c) && st.step(c).current.len() > st.current.len() ==> st.mode
            != ParseMode::Unquoted || st.escaping,
        c == '\'' && st.step(c).current.len() > st.current.len() ==> st.mode
            == ParseMode::DoubleQuoted || st.escaping,
        c == '"' && st.step(c).current.len() > st.current.len() ==> st.mode
            == ParseMode::SingleQuoted || st.escaping,
{
}

/// Every character of `ws` is whitespace, and none is a quote or a
/// backslash.
pub open spec fn is_blank(ws: Seq<char>) -> bool {
    forall|i: int| 0 <= i < ws.len() ==> white_space(#[trigger] ws[i]) && !is_special(ws[i])
}

/// Outside quotes, a run of whitespace ends the current word and does
/// nothing more.
proof fn lemma_run_blank(st: Scan, ws: Seq<char>)
    requires
        st.mode == ParseMode::Unquoted,
        !st.escaping,
        is_blank(ws),
        ws.len() > 0,
    ensures
        st.run(ws) == st.flush(),
    decreases ws.len(),
{
    let front = ws.drop_last();
    assert(white_space(ws[ws.len() - 1]) && !is_special(ws[ws.len() - 1]));
    if front.len() > 0 {
        assert forall|i: int| 0 <= i < front.len() implies white_space(#[trigger] front[i])
            && !is_special(front[i]) by {
            assert(front[i] == ws[i]);
        }
        lemma_run_blank(st, front);
    } else {
        assert(st.run(front) == st);
    }
}

/// Between words any run of whitespace does what a single whitespace
/// character does: where `a` ends outside quotes and without a pending
/// escape, `a + ws + b` and `a + [c] + b` have the same words, for every
/// non-empty run `ws` of whitespace and every whitespace character `c`.
pub proof fn lemma_whitespace_runs_collapse(a: Seq<char>, ws: Seq<char>, c: char, b: Seq<char>)
    ensures
        ({
            &&& Scan::start().run(a).mode == ParseMode::Unquoted
            &&& !Scan::start().run(a).escaping
            &&& is_blank(ws)
            &&& ws.len() > 0
            &&& is_blank(seq![c])
        }) ==> tokenize_spec(a + ws + b) == tokenize_spec(a + seq![c] + b),
{
    let st = Scan::start().run(a);
    if st.mode == ParseMode::Unquoted && !st.escaping && is_blank(ws) && ws.len() > 0 && is_blank(
        seq![c],
    ) {
        lemma_run_blank(st, ws);
        lemma_run_blank(st, seq![c]);
        lemma_run_concat(Scan::start(), a, ws);
        lemma_run_concat(Scan::start(), a + ws, b);
        lemma_run_concat(Scan::start(), a, seq![c]);
        lemma_run_concat(Scan::start(), a + seq![c], b);
    }
}

/// Whitespace before the first word and after the last one only separates:
/// it adds no word and changes none. After the line it must stand outside
/// quotes and not behind a backslash.
pub proof fn lemma_surrounding_whitespace_is_dropped(ws: Seq<char>, text: Seq<char>)
    ensures
        is_blank(ws) ==> tokenize_spec(ws + text) == tokenize_spec(text),
        is_blank(ws) && tokenize_spec(text) is Ok && !Scan::start().run(text).escaping
            ==> tokenize_spec(text + ws) == tokenize_spec(text),
{
    if is_blank(ws) {
        if ws.len() > 0 {
            lemma_run_blank(Scan::start(), ws);
            lemma_run_concat(Scan::start(), ws, text);
            let end = Scan::start().run(text);
            if end.mode == ParseMode::Unquoted && !end.escaping {
                lemma_run_blank(end, ws);
                lemma_run_concat(Scan::start(), text, ws);
            }
        } else {
            assert(ws + text == text);
            assert(text + ws == text);
        }
    }
}

/// No character of any word, nor of the word in progress, meets `avoid`.
pub open spec fn scan_avoids(st: Scan, avoid: spec_fn(char) -> bool) -> bool {
    &&& forall|j: int| 0 <= j < st.current.len() ==> !avoid(#[trigger] st.current[j])
    &&& words_avoid(st.tokens, avoid)
}

/// No character of any word meets `avoid`.
pub open spec fn words_avoid(words: Seq<Seq<char>>, avoid: spec_fn(char) -> bool) -> bool {
    forall|i: int, j: int|
        0 <= i < words.len() && 0 <= j < words[i].len() ==> !avoid(#[trigger] words[i][j])
}

/// Whether `c` is a quote character or the backslash.
pub open spec fn is_special(c: char) -> bool {
    c == '\'' || c == '"' || c == '\\'
}

/// Text without quotes and backslashes keeps the scanner outside quotes
/// and lets no whitespace into a word.
proof fn lemma_run_plain(st: Scan, text: Seq<char>)
    requires
        st.mode == ParseMode::Unquoted,
        !st.escaping,
        scan_avoids(st, |c: char| white_space(c)),
        forall|i: int| 0 <= i < text.len() ==> !is_special(#[trigger] text[i]),
    ensures
        st.run(text).mode == ParseMode::Unquoted,
        !st.run(text).escaping,
        scan_avoids(st.run(text), |c: char| white_space(c)),
    decreases text.len(),
{
    if text.len() > 0 {
        let front = text.drop_last();
        assert forall|i: int| 0 <= i < front.len() implies !is_special(#[trigger] front[i]) by {
            assert(front[i] == text[i]);
        }
        lemma_run_plain(st, front);
        assert(!is_special(text[text.len() - 1]));
    }
}

/// In a line without quotes and backslashes no word holds whitespace.
pub proof fn lemma_plain_words_hold_no_whitespace(text: Seq<char>)
    requires
        forall|i: int| 0 <= i < text.len() ==> !is_special(#[trigger] text[i]),
    ensures
        tokenize_spec(text) matches Ok(words) && words_avoid(words, |c: char| white_space(c)),
{
    lemma_run_plain(Scan::start(), text);
}

/// Without backslashes and double quotes, a single quote only opens or
/// closes a quote and never gets into a word.
proof fn lemma_run_drops_single_quotes(st: Scan, text: Seq<char>)
    requires
        st.mode != ParseMode::DoubleQuoted,
        !st.escaping,
        scan_avoids(st, |c: char| c == '\''),
        !text.contains('\\'),
        !text.contains('"'),
    ensures
        st.run(text).mode != ParseMode::DoubleQuoted,
        !st.run(text).escaping,
        scan_avoids(st.run(text), |c: char| c == '\''),
    decreases text.len(),
{
    if text.len() > 0 {
        let front = text.drop_last();
        assert forall|i: int| 0 <= i < front.len() implies front[i] != '\\' && front[i] != '"' by {
            assert(text.contains(text[i]));
        }
        assert(text.contains(text.last()));
        lemma_run_drops_single_quotes(st, front);
    }
}

/// Without backslashes and single quotes, a double quote only opens or
/// closes a quote and never gets into a word.
proof fn lemma_run_drops_double_quotes(st: Scan, text: Seq<char>)
    requires
        st.mode != ParseMode::SingleQuoted,
        !st.escaping,
        scan_avoids(st, |c: char| c == '"'),
        !text.contains('\\'),
        !text.contains('\''),
    ensures
        st.run(text).mode != ParseMode::SingleQuoted,
        !st.run(text).escaping,
        scan_avoids(st.run(text), |c: char| c == '"'),
    decreases text.len(),
{
    if text.len() > 0 {
        let front = text.drop_last();
        assert forall|i: int| 0 <= i < front.len() implies front[i] != '\\' && front[i] != '\'' by {
            assert(text.contains(text[i]));
        }
        assert(text.contains(text.last()));
        lemma_run_drops_double_quotes(st, front);
    }
}

/// A quote character stands in a word only if it was escaped or stood
/// inside quotes of the other kind: a line without backslashes and double
/// quotes has no word with a single quote in it, and a line without
/// backslashes and single quotes has no word with a double quote in it.
pub proof fn lemma_quotes_are_not_literal(text: Seq<char>)
    requires
        !text.contains('\\'),
    ensures
        !text.contains('"') ==> (tokenize_spec(text) matches Ok(words) ==> words_avoid(
            words,
            |c: char| c == '\'',
        )),
        !text.contains('\'') ==> (tokenize_spec(text) matches Ok(words) ==> words_avoid(
            words,
            |c: char| c == '"',
        )),
{
    if !text.contains('"') {
        lemma_run_drops_single_quotes(Scan::start(), text);
    }
    if !text.contains('\'') {
        lemma_run_drops_double_quotes(Scan::start(), text);
    }
}

/// `type` says of a builtin's name that it is a builtin, whatever the search
/// path holds: the answer is given without a search, and a search that was
/// made all the same does not change it.
pub proof fn lemma_builtin_whatever_the_path(args: Seq<Seq<char>>, candidates: Seq<Candidate>)
    requires
        args.len() > 0,
        builtins().contains(args[0]),
    ensures
        dispatch_spec(CommandView::Type { args }) == (ActionView::Print {
            text: builtin_line(args[0]),
        }),
        describe_spec(args[0], candidates) == Ok::<Seq<char>, ShellErrorView>(
            builtin_line(args[0]),
        ),
{
}

/// `cd` to something that is there but is a regular file, not a directory,
/// enters nothing and reports that there is no such file or directory.
pub proof fn lemma_cd_to_file_is_refused(target: Seq<char>, facts: PathFacts)
    requires
        facts.exists,
        facts.is_file,
        !facts.is_dir,
    ensures
        checked_dir_spec(target, facts) == Err::<Seq<char>, ShellErrorView>(
            ShellErrorView::DirectoryNotFound { target },
        ),
        message_spec(ShellErrorView::DirectoryNotFound { target }) == target
            + ": No such file or directory"@,
{
}

} // verus!
