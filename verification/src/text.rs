//! Words, lines and small text transformations over sequences of characters.

use vstd::prelude::*;

verus! {

/// Whether `c` is white space, that is, a character that separates words.
pub open spec fn is_space(c: char) -> bool {
    ||| ('\u{9}' <= c && c <= '\u{d}')
    ||| c == ' '
    ||| c == '\u{85}'
    ||| c == '\u{a0}'
    ||| c == '\u{1680}'
    ||| ('\u{2000}' <= c && c <= '\u{200a}')
    ||| c == '\u{2028}'
    ||| c == '\u{2029}'
    ||| c == '\u{202f}'
    ||| c == '\u{205f}'
    ||| c == '\u{3000}'
}

/// Tells white space from other characters.
pub fn is_whitespace(c: char) -> (r: bool)
    ensures
        r == is_space(c),
{
    ('\u{9}' <= c && c <= '\u{d}')
        || c == ' '
        || c == '\u{85}'
        || c == '\u{a0}'
        || c == '\u{1680}'
        || ('\u{2000}' <= c && c <= '\u{200a}')
        || c == '\u{2028}'
        || c == '\u{2029}'
        || c == '\u{202f}'
        || c == '\u{205f}'
        || c == '\u{3000}'
}

/// The number of characters at the front of `s` before its first white space.
pub open spec fn word_len(s: Seq<char>) -> nat
    decreases s.len(),
{
    if s.len() == 0 || is_space(s[0]) {
        0
    } else {
        1 + word_len(s.skip(1))
    }
}

/// The words of `s` in order: its maximal runs of characters that are not
/// white space.
pub open spec fn words(s: Seq<char>) -> Seq<Seq<char>>
    decreases s.len(),
    via words_terminates
{
    if s.len() == 0 {
        Seq::empty()
    } else if is_space(s[0]) {
        words(s.skip(1))
    } else {
        seq![s.take(word_len(s) as int)] + words(s.skip(word_len(s) as int))
    }
}

#[via_fn]
proof fn words_terminates(s: Seq<char>) {
    word_len_bounds(s);
}

/// Whether `w` could be a word: not empty, and free of white space.
pub open spec fn is_word(w: Seq<char>) -> bool {
    w.len() > 0 && forall|j: int| 0 <= j < w.len() ==> !is_space(#[trigger] w[j])
}

/// Whether `g` can stand between two words: it holds white space only.
pub open spec fn is_gap(g: Seq<char>) -> bool {
    forall|j: int| 0 <= j < g.len() ==> is_space(#[trigger] g[j])
}

/// The text that starts with the first of `gaps` and goes on with each of
/// `tokens` in turn, followed by the next of `gaps`.
pub open spec fn interleaved(tokens: Seq<Seq<char>>, gaps: Seq<Seq<char>>) -> Seq<char>
    recommends
        gaps.len() == tokens.len() + 1,
    decreases tokens.len(),
{
    if tokens.len() == 0 {
        gaps[0]
    } else {
        interleaved(tokens.drop_last(), gaps.drop_last()) + tokens.last() + gaps.last()
    }
}

/// A word is no longer than the text it starts, and is not empty where the
/// text starts with something other than white space.
pub proof fn word_len_bounds(s: Seq<char>)
    ensures
        word_len(s) <= s.len(),
        s.len() > 0 && !is_space(s[0]) ==> word_len(s) >= 1,
    decreases s.len(),
{
    if s.len() > 0 && !is_space(s[0]) {
        word_len_bounds(s.skip(1));
    }
}

/// The first word of `s` ends at white space or at the end of `s`, and holds
/// no white space itself.
pub proof fn word_len_stops(s: Seq<char>)
    ensures
        forall|j: int| 0 <= j < word_len(s) ==> !is_space(#[trigger] s[j]),
        word_len(s) < s.len() ==> is_space(s[word_len(s) as int]),
    decreases s.len(),
{
    if s.len() > 0 && !is_space(s[0]) {
        let rest = s.skip(1);
        word_len_stops(rest);
        word_len_bounds(rest);
        assert forall|j: int| 0 <= j < word_len(s) implies !is_space(#[trigger] s[j]) by {
            if j > 0 {
                assert(s[j] == rest[j - 1]);
            }
        }
    }
}

/// Where the first `k` characters of `s` are no white space and the next one
/// is, or the text ends there, the first word of `s` has `k` characters.
proof fn word_len_is(s: Seq<char>, k: int)
    requires
        0 <= k <= s.len(),
        forall|j: int| 0 <= j < k ==> !is_space(#[trigger] s[j]),
        k == s.len() || is_space(s[k]),
    ensures
        word_len(s) == k,
    decreases k,
{
    if k > 0 {
        let rest = s.skip(1);
        assert forall|j: int| 0 <= j < k - 1 implies !is_space(#[trigger] rest[j]) by {}
        word_len_is(rest, k - 1);
    }
}

/// Every word of a text is a word: none is empty, none holds white space.
pub proof fn words_are_words(s: Seq<char>)
    ensures
        forall|i: int| 0 <= i < words(s).len() ==> is_word(#[trigger] words(s)[i]),
    decreases s.len(),
{
    if s.len() == 0 {
    } else if is_space(s[0]) {
        words_are_words(s.skip(1));
        assert(words(s) == words(s.skip(1)));
    } else {
        let n = word_len(s) as int;
        word_len_bounds(s);
        word_len_stops(s);
        words_are_words(s.skip(n));
        assert forall|i: int| 0 <= i < words(s).len() implies is_word(#[trigger] words(s)[i]) by {
            if i > 0 {
                assert(words(s)[i] == words(s.skip(n))[i - 1]);
            }
        }
    }
}

/// A text that is one word has that word and no other.
pub proof fn words_of_word(w: Seq<char>)
    requires
        is_word(w),
    ensures
        words(w) == seq![w],
{
    word_len_is(w, w.len() as int);
    assert(w.take(w.len() as int) == w);
    assert(words(w.skip(w.len() as int)) == Seq::<Seq<char>>::empty());
}

/// A text of white space has no words.
pub proof fn words_of_gap(g: Seq<char>)
    requires
        is_gap(g),
    ensures
        words(g) == Seq::<Seq<char>>::empty(),
    decreases g.len(),
{
    if g.len() > 0 {
        let rest = g.skip(1);
        assert forall|j: int| 0 <= j < rest.len() implies is_space(#[trigger] rest[j]) by {}
        words_of_gap(rest);
    }
}

/// Two texts that meet at white space, or of which one is empty, keep their
/// words when they are put together.
pub proof fn words_concat(a: Seq<char>, b: Seq<char>)
    requires
        a.len() == 0 || b.len() == 0 || is_space(a.last()) || is_space(b[0]),
    ensures
        words(a + b) == words(a) + words(b),
    decreases a.len(),
{
    let ab = a + b;
    if a.len() == 0 || b.len() == 0 {
    } else if is_space(a[0]) {
        let rest = a.skip(1);
        assert(ab.skip(1) == rest + b);
        words_concat(rest, b);
    } else {
        let n = word_len(a) as int;
        word_len_bounds(a);
        word_len_stops(a);
        assert forall|j: int| 0 <= j < n implies !is_space(#[trigger] ab[j]) by {}
        word_len_is(ab, n);
        let rest = a.skip(n);
        assert(ab.take(n) == a.take(n));
        assert(ab.skip(n) == rest + b);
        words_concat(rest, b);
    }
}

proof fn interleaved_words(tokens: Seq<Seq<char>>, gaps: Seq<Seq<char>>)
    requires
        gaps.len() == tokens.len() + 1,
        forall|i: int| 0 <= i < tokens.len() ==> is_word(#[trigger] tokens[i]),
        forall|i: int| 0 <= i < gaps.len() ==> is_gap(#[trigger] gaps[i]),
        forall|i: int| 0 < i < tokens.len() ==> (#[trigger] gaps[i]).len() > 0,
    ensures
        words(interleaved(tokens, gaps)) == tokens,
        gaps.last().len() > 0 ==> is_space(interleaved(tokens, gaps).last()),
    decreases tokens.len(),
{
    if tokens.len() == 0 {
        words_of_gap(gaps[0]);
    } else {
        let front = tokens.drop_last();
        let front_gaps = gaps.drop_last();
        let last = tokens.last();
        let gap = gaps.last();
        assert forall|i: int| 0 <= i < front.len() implies is_word(#[trigger] front[i]) by {}
        assert forall|i: int| 0 <= i < front_gaps.len() implies is_gap(
            #[trigger] front_gaps[i],
        ) by {}
        assert forall|i: int| 0 < i < front.len() implies (#[trigger] front_gaps[i]).len() > 0 by {}
        interleaved_words(front, front_gaps);
        let before = interleaved(front, front_gaps);
        assert(before.len() == 0 || is_space(before.last()));
        words_concat(before, last);
        words_of_word(last);
        words_of_gap(gap);
        words_concat(before + last, gap);
    }
}

/// Words that are written with white space between them are found again,
/// each as it was written, whatever white space stands between them, before
/// the first and behind the last.
pub proof fn words_of_interleaved(tokens: Seq<Seq<char>>, gaps: Seq<Seq<char>>)
    requires
        gaps.len() == tokens.len() + 1,
        forall|i: int| 0 <= i < tokens.len() ==> is_word(#[trigger] tokens[i]),
        forall|i: int| 0 <= i < gaps.len() ==> is_gap(#[trigger] gaps[i]),
        forall|i: int| 0 < i < tokens.len() ==> (#[trigger] gaps[i]).len() > 0,
    ensures
        words(interleaved(tokens, gaps)) == tokens,
{
    interleaved_words(tokens, gaps);
}

/// The views of a vector of strings.
pub open spec fn texts(v: Seq<String>) -> Seq<Seq<char>> {
    Seq::new(v.len(), |i: int| v[i]@)
}

/// Splits `line` at white space and returns the words between, in order.
pub fn split_words(line: &str) -> (out: Vec<String>)
    ensures
        texts(out@) == words(line@),
{
    let n: usize = line.unicode_len();
    let mut out: Vec<String> = Vec::new();
    let mut i: usize = 0;
    proof {
        assert(line@.skip(0) == line@);
    }
    while i < n
        invariant
            i <= n,
            n == line@.len(),
            words(line@) == texts(out@) + words(line@.skip(i as int)),
        decreases n - i,
    {
        let ghost rest = line@.skip(i as int);
        if is_whitespace(line.get_char(i)) {
            assert(rest.skip(1) == line@.skip(i + 1));
            i = i + 1;
        } else {
            let start: usize = i;
            while i < n && !is_whitespace(line.get_char(i))
                invariant
                    start <= i <= n,
                    n == line@.len(),
                    forall|j: int| start <= j < i ==> !is_space(#[trigger] line@[j]),
                decreases n - i,
            {
                i = i + 1;
            }
            let word = line.substring_char(start, i).to_owned();
            proof {
                word_len_is(rest, i - start);
                assert(rest.take(i - start) == line@.subrange(start as int, i as int));
                assert(rest.skip(i - start) == line@.skip(i as int));
            }
            out.push(word);
        }
    }
    out
}

/// Whether `a` and `b` hold the same characters.
pub fn same_text(a: &str, b: &str) -> (r: bool)
    ensures
        r == (a@ == b@),
{
    let n: usize = a.unicode_len();
    if n != b.unicode_len() {
        return false;
    }
    let mut i: usize = 0;
    while i < n
        invariant
            i <= n,
            n == a@.len(),
            n == b@.len(),
            forall|j: int| 0 <= j < i ==> a@[j] == b@[j],
        decreases n - i,
    {
        if a.get_char(i) != b.get_char(i) {
            return false;
        }
        i = i + 1;
    }
    assert(a@ =~= b@);
    true
}

/// The parts of `parts` in order, with `sep` between each two.
pub open spec fn joined(parts: Seq<Seq<char>>, sep: Seq<char>) -> Seq<char>
    decreases parts.len(),
{
    if parts.len() == 0 {
        Seq::empty()
    } else if parts.len() == 1 {
        parts[0]
    } else {
        joined(parts.drop_last(), sep) + sep + parts.last()
    }
}

/// The number of characters at the front of `s` before its first line feed.
pub open spec fn line_len(s: Seq<char>) -> nat
    decreases s.len(),
{
    if s.len() == 0 || s[0] == '\n' {
        0
    } else {
        1 + line_len(s.skip(1))
    }
}

/// The lines of `s`: what stands before its first line feed, between each
/// two, and behind its last.
pub open spec fn lines_of(s: Seq<char>) -> Seq<Seq<char>>
    decreases s.len(),
{
    if line_len(s) >= s.len() {
        seq![s]
    } else {
        seq![s.take(line_len(s) as int)] + lines_of(s.skip(line_len(s) as int + 1))
    }
}

/// Whether `s` is free of line feeds.
pub open spec fn is_line(s: Seq<char>) -> bool {
    forall|j: int| 0 <= j < s.len() ==> #[trigger] s[j] != '\n'
}

/// The first line of `s` ends at the first line feed of `s`.
proof fn line_len_is(s: Seq<char>, k: int)
    requires
        0 <= k <= s.len(),
        forall|j: int| 0 <= j < k ==> #[trigger] s[j] != '\n',
        k == s.len() || s[k] == '\n',
    ensures
        line_len(s) == k,
    decreases k,
{
    if k > 0 {
        let rest = s.skip(1);
        assert forall|j: int| 0 <= j < k - 1 implies #[trigger] rest[j] != '\n' by {}
        line_len_is(rest, k - 1);
    }
}

/// The first line of `s` holds no line feed, and a line feed follows it
/// unless `s` ends there.
proof fn line_len_stops(s: Seq<char>)
    ensures
        line_len(s) <= s.len(),
        forall|j: int| 0 <= j < line_len(s) ==> #[trigger] s[j] != '\n',
        line_len(s) < s.len() ==> s[line_len(s) as int] == '\n',
    decreases s.len(),
{
    if s.len() > 0 && s[0] != '\n' {
        let rest = s.skip(1);
        line_len_stops(rest);
        assert forall|j: int| 0 <= j < line_len(s) implies #[trigger] s[j] != '\n' by {
            if j > 0 {
                assert(s[j] == rest[j - 1]);
            }
        }
    }
}

/// Two texts with a line feed between them have the lines of the first, then
/// the lines of the second.
pub proof fn lines_of_concat(a: Seq<char>, b: Seq<char>)
    ensures
        lines_of(a + seq!['\n'] + b) == lines_of(a) + lines_of(b),
    decreases a.len(),
{
    let whole = a + seq!['\n'] + b;
    let n = line_len(a) as int;
    line_len_stops(a);
    assert forall|j: int| 0 <= j < n implies #[trigger] whole[j] != '\n' by {}
    line_len_is(whole, n);
    assert(whole.take(n) == a.take(n));
    if n < a.len() {
        let rest = a.skip(n + 1);
        assert(whole.skip(n + 1) == rest + seq!['\n'] + b);
        lines_of_concat(rest, b);
    } else {
        assert(a.take(n) == a);
        assert(whole.skip(n + 1) == b);
    }
}

/// Lines that are joined with line feeds are found again, each as it was.
pub proof fn lines_of_joined(parts: Seq<Seq<char>>)
    requires
        parts.len() > 0,
        forall|i: int| 0 <= i < parts.len() ==> is_line(#[trigger] parts[i]),
    ensures
        lines_of(joined(parts, seq!['\n'])) == parts,
    decreases parts.len(),
{
    let last = parts.last();
    line_len_is(last, last.len() as int);
    if parts.len() > 1 {
        let front = parts.drop_last();
        assert forall|i: int| 0 <= i < front.len() implies is_line(#[trigger] front[i]) by {}
        lines_of_joined(front);
        lines_of_concat(joined(front, seq!['\n']), last);
    }
}

/// Writes the strings of `parts` one after the other, with `sep` between each
/// two.
pub fn join(parts: &Vec<String>, sep: &str) -> (out: String)
    ensures
        out@ == joined(texts(parts@), sep@),
{
    let mut out = String::new();
    let mut i: usize = 0;
    while i < parts.len()
        invariant
            i <= parts.len(),
            out@ == joined(texts(parts@).take(i as int), sep@),
        decreases parts.len() - i,
    {
        assert(texts(parts@).take(i + 1).drop_last() == texts(parts@).take(i as int));
        if i > 0 {
            out.append(sep);
        }
        out.append(parts[i].as_str());
        i = i + 1;
    }
    assert(texts(parts@).take(parts.len() as int) == texts(parts@));
    out
}

/// `s` with a line feed in place of each hyphen.
pub open spec fn hyphens_to_newlines(s: Seq<char>) -> Seq<char> {
    Seq::new(s.len(), |i: int| if s[i] == '-' { '\n' } else { s[i] })
}

/// Breaks `text` into lines at its hyphens: each hyphen becomes a line feed,
/// and nothing else changes.
pub fn break_at_hyphens(text: &str) -> (out: String)
    ensures
        out@ == hyphens_to_newlines(text@),
{
    let n: usize = text.unicode_len();
    let mut out = String::new();
    let mut start: usize = 0;
    let mut i: usize = 0;
    proof {
        reveal_strlit("\n");
    }
    while i < n
        invariant
            start <= i <= n,
            n == text@.len(),
            "\n"@ == seq!['\n'],
            out@ == hyphens_to_newlines(text@.take(start as int)),
            forall|j: int| start <= j < i ==> #[trigger] text@[j] != '-',
        decreases n - i,
    {
        if text.get_char(i) == '-' {
            out.append(text.substring_char(start, i));
            out.append("\n");
            i = i + 1;
            start = i;
        } else {
            i = i + 1;
        }
    }
    out.append(text.substring_char(start, n));
    out
}

} // verus!
