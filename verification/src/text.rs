//! Text as sequences of characters: what `std` decides about it beyond
//! what `vstd` already specifies, and cutting a line apart.

use vstd::prelude::*;
use vstd::std_specs::iter::IteratorSpec;

verus! {

/// Whether `c` carries the Unicode `White_Space` property.
pub uninterp spec fn white_space(c: char) -> bool;

/// `char::is_whitespace` decides the Unicode `White_Space` property. The
/// property's table is not restated here: the result is only given a name.
pub assume_specification[ char::is_whitespace ](c: char) -> (b: bool)
    ensures
        b == white_space(c),
;

/// `String::push` appends one character at the end of the string and leaves
/// the rest of it as it was.
pub assume_specification[ String::push ](s: &mut String, c: char)
    ensures
        final(s)@ == old(s)@.push(c),
;

/// Whether `s` begins with `prefix`.
pub fn starts_with(s: &str, prefix: &str) -> (b: bool)
    ensures
        b == prefix@.is_prefix_of(s@),
{
    let mut rest = s.chars();
    let mut want = prefix.chars();
    let ghost mut i: int = 0;
    loop
        invariant
            0 <= i <= s@.len(),
            i <= prefix@.len(),
            rest.remaining() == s@.skip(i),
            want.remaining() == prefix@.skip(i),
            s@.take(i) == prefix@.take(i),
        decreases prefix@.len() - i,
    {
        match want.next() {
            None => {
                assert(prefix@ == prefix@.take(i));
                assert(s@.subrange(0, i) == s@.take(i));
                return true;
            },
            Some(p) => {
                match rest.next() {
                    None => {
                        return false;
                    },
                    Some(c) => {
                        if c != p {
                            assert(!prefix@.is_prefix_of(s@)) by {
                                if prefix@.len() <= s@.len() {
                                    assert(s@.subrange(0, prefix@.len() as int)[i] == c);
                                    assert(prefix@[i] == p);
                                }
                            }
                            return false;
                        }
                        proof {
                            assert(s@.take(i + 1) == s@.take(i).push(c));
                            assert(prefix@.take(i + 1) == prefix@.take(i).push(p));
                            assert(s@.skip(i).drop_first() == s@.skip(i + 1));
                            assert(prefix@.skip(i).drop_first() == prefix@.skip(i + 1));
                            i = i + 1;
                        }
                    },
                }
            },
        }
    }
}

/// Whether `a` and `b` hold the same characters.
pub fn same_text(a: &str, b: &str) -> (eq: bool)
    ensures
        eq == (a@ == b@),
{
    let eq = starts_with(a, b) && a.unicode_len() == b.unicode_len();
    proof {
        if eq {
            assert(a@.subrange(0, b@.len() as int) == a@);
        }
    }
    eq
}

/// What is left of `s` once `prefix` is taken from its front, if it begins
/// with `prefix`.
pub fn strip_prefix<'a>(s: &'a str, prefix: &str) -> (rest: Option<&'a str>)
    ensures
        rest is Some <==> prefix@.is_prefix_of(s@),
        rest matches Some(r) ==> r@ == s@.skip(prefix@.len() as int),
{
    if starts_with(s, prefix) {
        Some(s.substring_char(prefix.unicode_len(), s.unicode_len()))
    } else {
        None
    }
}

/// `s` without its leading whitespace.
pub open spec fn trim_start(s: Seq<char>) -> Seq<char>
    decreases s.len(),
{
    if s.len() > 0 && white_space(s.first()) {
        trim_start(s.drop_first())
    } else {
        s
    }
}

/// `s` without its trailing whitespace.
pub open spec fn trim_end(s: Seq<char>) -> Seq<char>
    decreases s.len(),
{
    if s.len() > 0 && white_space(s.last()) {
        trim_end(s.drop_last())
    } else {
        s
    }
}

/// `s` without its leading and trailing whitespace.
pub open spec fn trimmed(s: Seq<char>) -> Seq<char> {
    trim_end(trim_start(s))
}

/// If the first `k` characters are whitespace and the one after them, if
/// any, is not, the leading whitespace is exactly those `k`.
proof fn lemma_trim_start(s: Seq<char>, k: int)
    requires
        0 <= k <= s.len(),
        forall|j: int| 0 <= j < k ==> white_space(#[trigger] s[j]),
        k == s.len() || !white_space(s[k]),
    ensures
        trim_start(s) == s.skip(k),
    decreases k,
{
    if k == 0 {
        assert(s.skip(0) == s);
    } else {
        let t = s.drop_first();
        assert forall|j: int| 0 <= j < k - 1 implies white_space(#[trigger] t[j]) by {
            assert(t[j] == s[j + 1]);
        }
        lemma_trim_start(t, k - 1);
        assert(t.skip(k - 1) == s.skip(k));
    }
}

/// If everything from index `e` on is whitespace and the character before
/// it, if any, is not, the trailing whitespace starts exactly at `e`.
proof fn lemma_trim_end(s: Seq<char>, e: int)
    requires
        0 <= e <= s.len(),
        forall|j: int| e <= j < s.len() ==> white_space(#[trigger] s[j]),
        e == 0 || !white_space(s[e - 1]),
    ensures
        trim_end(s) == s.take(e),
    decreases s.len() - e,
{
    if e == s.len() {
        assert(s.take(e) == s);
    } else {
        let t = s.drop_last();
        lemma_trim_end(t, e);
        assert(t.take(e) == s.take(e));
    }
}

/// `s` without its leading and trailing whitespace.
pub fn trim(s: &str) -> (r: &str)
    ensures
        r@ == trimmed(s@),
{
    let len = s.unicode_len();
    let mut start: usize = 0;
    let mut end: usize = 0;
    let mut i: usize = 0;
    for c in it: s.chars()
        invariant
            it.seq() == s@,
            len == s@.len(),
            i == it.index(),
            start <= i,
            end <= i,
            forall|j: int| 0 <= j < start ==> white_space(#[trigger] s@[j]),
            forall|j: int| end <= j < i ==> white_space(#[trigger] s@[j]),
            start < i ==> !white_space(s@[start as int]) && start < end,
            end > 0 ==> !white_space(s@[end - 1]),
            start == i ==> end == 0,
    {
        if c.is_whitespace() {
            if start == i {
                start = i + 1;
            }
        } else {
            end = i + 1;
        }
        i = i + 1;
    }
    proof {
        lemma_trim_start(s@, start as int);
        if start < len {
            let t = s@.skip(start as int);
            assert forall|j: int| end - start <= j < t.len() implies white_space(
                #[trigger] t[j],
            ) by {
                assert(t[j] == s@[j + start]);
            }
            lemma_trim_end(t, end - start);
            assert(t.take(end - start) == s@.subrange(start as int, end as int));
        } else {
            assert(s@.skip(start as int) == s@.subrange(len as int, len as int));
        }
    }
    if start < len {
        s.substring_char(start, end)
    } else {
        s.substring_char(len, len)
    }
}

/// How many characters stand before the first whitespace of `s`.
pub open spec fn word_len(s: Seq<char>) -> nat
    decreases s.len(),
{
    if s.len() == 0 || white_space(s.first()) {
        0
    } else {
        1 + word_len(s.drop_first())
    }
}

/// If the first `n` characters are no whitespace and the one after them, if
/// any, is, the first word has exactly those `n`.
proof fn lemma_word_len(s: Seq<char>, n: int)
    requires
        0 <= n <= s.len(),
        forall|j: int| 0 <= j < n ==> !white_space(#[trigger] s[j]),
        n == s.len() || white_space(s[n]),
    ensures
        word_len(s) == n,
    decreases n,
{
    if n > 0 {
        let t = s.drop_first();
        assert forall|j: int| 0 <= j < n - 1 implies !white_space(#[trigger] t[j]) by {
            assert(t[j] == s[j + 1]);
        }
        lemma_word_len(t, n - 1);
    }
}

/// Cuts `s` before its first whitespace: the first word, and all that
/// follows it.
pub fn split_word(s: &str) -> (r: (&str, &str))
    ensures
        r.0@ == s@.take(word_len(s@) as int),
        r.1@ == s@.skip(word_len(s@) as int),
{
    let len = s.unicode_len();
    let mut rest = s.chars();
    let mut n: usize = 0;
    loop
        invariant_except_break
            rest.remaining() == s@.skip(n as int),
            forall|j: int| 0 <= j < n ==> !white_space(#[trigger] s@[j]),
        invariant
            len == s@.len(),
            n <= len,
        ensures
            word_len(s@) == n,
        decreases len - n,
    {
        match rest.next() {
            None => {
                proof {
                    lemma_word_len(s@, n as int);
                }
                break ;
            },
            Some(c) => {
                if c.is_whitespace() {
                    proof {
                        lemma_word_len(s@, n as int);
                    }
                    break ;
                }
                proof {
                    assert(s@.skip(n as int).drop_first() == s@.skip(n + 1));
                }
                n = n + 1;
            },
        }
    }
    (s.substring_char(0, n), s.substring_char(n, len))
}

} // verus!
