//! Text primitives: the handful of string operations the deployment logic
//! needs, on sequences of characters.

use vstd::prelude::*;

use crate::list;

verus! {

broadcast use crate::list::lemma_texts_push;

/// `String::push` appends the character to the end of the string.
pub assume_specification[ String::push ](s: &mut String, c: char)
    ensures
        final(s)@ == old(s)@.push(c),
;

/// Whether two strings hold the same text.
pub fn same_text(a: &str, b: &str) -> (r: bool)
    ensures
        r == (a@ == b@),
{
    a.to_owned() == b.to_owned()
}

/// Returns the characters of a string.
pub fn chars_of(s: &str) -> (r: Vec<char>)
    ensures
        r@ == s@,
{
    let mut out: Vec<char> = Vec::new();
    for c in it: s.chars()
        invariant
            out@ == it.seq().take(it.index() as int),
            it.seq() == s@,
    {
        out.push(c);
    }
    out
}

/// Returns the text between two positions of a list of characters.
pub fn text_between(chars: &Vec<char>, from: usize, to: usize) -> (r: String)
    requires
        from <= to <= chars@.len(),
    ensures
        r@ == chars@.subrange(from as int, to as int),
{
    let mut out: String = String::new();
    let mut i: usize = from;
    while i < to
        invariant
            from <= i <= to <= chars@.len(),
            out@ == chars@.subrange(from as int, i as int),
        decreases to - i,
    {
        out.push(chars[i]);
        i = i + 1;
        assert(chars@.subrange(from as int, i as int) =~= chars@.subrange(
            from as int,
            i - 1,
        ).push(chars@[i - 1]));
    }
    out
}

// Joining

/// The elements of `list` with `sep` between neighbours.
pub open spec fn joined(list: Seq<Seq<char>>, sep: Seq<char>) -> Seq<char>
    decreases list.len(),
{
    if list.len() == 0 {
        Seq::empty()
    } else if list.len() == 1 {
        list[0]
    } else {
        list[0] + sep + joined(list.drop_first(), sep)
    }
}

/// Returns the strings of `list` with `sep` between neighbours.
pub fn join(list: &Vec<String>, sep: &str) -> (r: String)
    ensures
        r@ == joined(list::texts(list@), sep@),
{
    let mut out: String = String::new();
    if list.len() == 0 {
        return out;
    }
    out.append(list[0].as_str());
    let ghost all = list::texts(list@);
    let mut i: usize = 1;
    assert(all.skip(0) =~= all);
    assert(all.skip(1) =~= all.drop_first());
    assert(joined(all, sep@) =~= out@ + if i == all.len() {
        Seq::empty()
    } else {
        sep@ + joined(all.skip(i as int), sep@)
    });
    while i < list.len()
        invariant
            1 <= i <= list.len(),
            all == list::texts(list@),
            joined(all, sep@) =~= out@ + if i == all.len() {
                Seq::empty()
            } else {
                sep@ + joined(all.skip(i as int), sep@)
            },
        decreases list.len() - i,
    {
        assert(all.skip(i as int).drop_first() =~= all.skip(i + 1));
        assert(all[i as int] == list@[i as int]@);
        out.append(sep);
        out.append(list[i].as_str());
        i = i + 1;
    }
    out
}

// Prefixes, trimming and replacement

/// Whether `s` begins with `prefix`.
pub open spec fn begins_with(s: Seq<char>, prefix: Seq<char>) -> bool {
    prefix.len() <= s.len() && s.take(prefix.len() as int) == prefix
}

/// Whether the characters of `pattern` stand in `chars` from position `at` on.
fn stands_at(chars: &Vec<char>, at: usize, pattern: &Vec<char>) -> (r: bool)
    requires
        at <= chars@.len(),
    ensures
        r == begins_with(chars@.skip(at as int), pattern@),
{
    if pattern.len() > chars.len() - at {
        return false;
    }
    let mut i: usize = 0;
    while i < pattern.len()
        invariant
            i <= pattern.len(),
            at + pattern.len() <= chars.len(),
            forall|j: int| 0 <= j < i ==> #[trigger] pattern@[j] == chars@[at + j],
        decreases pattern.len() - i,
    {
        if chars[at + i] != pattern[i] {
            assert(chars@.skip(at as int).take(pattern@.len() as int)[i as int] != pattern@[i as int]);
            return false;
        }
        i = i + 1;
    }
    assert(chars@.skip(at as int).take(pattern@.len() as int) =~= pattern@);
    true
}

/// Whether `s` begins with `prefix`.
pub fn starts_with(s: &str, prefix: &str) -> (r: bool)
    ensures
        r == begins_with(s@, prefix@),
{
    let chars: Vec<char> = chars_of(s);
    let pattern: Vec<char> = chars_of(prefix);
    assert(chars@.skip(0) =~= chars@);
    stands_at(&chars, 0, &pattern)
}

/// `s` with every occurrence of `pattern`, found from the left and without
/// overlap, replaced by `with`.
pub open spec fn replaced(s: Seq<char>, pattern: Seq<char>, with: Seq<char>) -> Seq<char>
    recommends
        pattern.len() > 0,
    decreases s.len(),
{
    if s.len() == 0 || pattern.len() == 0 {
        s
    } else if begins_with(s, pattern) {
        with + replaced(s.skip(pattern.len() as int), pattern, with)
    } else {
        seq![s[0]] + replaced(s.drop_first(), pattern, with)
    }
}

/// Returns `s` with every occurrence of `pattern` replaced by `with`.
pub fn replace(s: &str, pattern: &str, with: &str) -> (r: String)
    requires
        pattern@.len() > 0,
    ensures
        r@ == replaced(s@, pattern@, with@),
{
    let chars: Vec<char> = chars_of(s);
    let pat: Vec<char> = chars_of(pattern);
    let mut out: String = String::new();
    let mut i: usize = 0;
    assert(chars@.skip(0) =~= s@);
    while i < chars.len()
        invariant
            i <= chars.len(),
            chars@ == s@,
            pat@ == pattern@,
            pat@.len() > 0,
            replaced(s@, pattern@, with@) =~= out@ + replaced(
                s@.skip(i as int),
                pattern@,
                with@,
            ),
        decreases chars.len() - i,
    {
        if stands_at(&chars, i, &pat) {
            assert(s@.skip(i as int).skip(pattern@.len() as int) =~= s@.skip(i + pattern@.len()));
            out.append(with);
            i = i + pat.len();
        } else {
            assert(s@.skip(i as int).drop_first() =~= s@.skip(i + 1));
            out.push(chars[i]);
            i = i + 1;
        }
    }
    assert(s@.skip(i as int) =~= Seq::<char>::empty());
    out
}

/// How a replacement treats a first character at which the pattern cannot
/// stand.
pub proof fn lemma_replaced_skips(c: char, rest: Seq<char>, pattern: Seq<char>, with: Seq<char>)
    requires
        pattern.len() > 0,
        pattern[0] != c,
    ensures
        replaced(seq![c] + rest, pattern, with) == seq![c] + replaced(
            rest,
            pattern,
            with,
        ),
{
    let s = seq![c] + rest;
    if begins_with(s, pattern) {
        assert(s.take(pattern.len() as int)[0] == c);
    }
    assert(s.drop_first() =~= rest);
}

/// How a replacement treats a text that begins with the pattern.
pub proof fn lemma_replaced_takes(rest: Seq<char>, pattern: Seq<char>, with: Seq<char>)
    requires
        pattern.len() > 0,
    ensures
        replaced(pattern + rest, pattern, with) == with + replaced(
            rest,
            pattern,
            with,
        ),
{
    let s = pattern + rest;
    assert(s.take(pattern.len() as int) =~= pattern);
    assert(s.skip(pattern.len() as int) =~= rest);
}

/// `s` without the newlines at its end.
pub open spec fn without_final_newlines(s: Seq<char>) -> Seq<char>
    decreases s.len(),
{
    if s.len() > 0 && s.last() == '\n' {
        without_final_newlines(s.drop_last())
    } else {
        s
    }
}

/// Returns `s` without the newlines at its end.
pub fn trim_final_newlines(s: &str) -> (r: String)
    ensures
        r@ == without_final_newlines(s@),
{
    let chars: Vec<char> = chars_of(s);
    let mut end: usize = chars.len();
    assert(s@.take(end as int) =~= s@);
    while end > 0 && chars[end - 1] == '\n'
        invariant
            end <= chars.len(),
            chars@ == s@,
            without_final_newlines(s@) == without_final_newlines(s@.take(end as int)),
        decreases end,
    {
        assert(s@.take(end as int).drop_last() =~= s@.take(end - 1));
        end = end - 1;
    }
    assert(s@.take(end as int) =~= s@.subrange(0, end as int));
    text_between(&chars, 0, end)
}

// Splitting

/// How many characters of `s` stand before the first `sep`, or all of them.
pub open spec fn until(s: Seq<char>, sep: char) -> int
    decreases s.len(),
{
    if s.len() == 0 || s[0] == sep {
        0
    } else {
        1 + until(s.drop_first(), sep)
    }
}

pub proof fn lemma_until(s: Seq<char>, sep: char)
    ensures
        0 <= until(s, sep) <= s.len(),
        until(s, sep) < s.len() ==> s[until(s, sep)] == sep,
        forall|i: int| 0 <= i < until(s, sep) ==> s[i] != sep,
    decreases s.len(),
{
    if s.len() > 0 && s[0] != sep {
        let rest = s.drop_first();
        lemma_until(rest, sep);
        assert forall|i: int| 0 <= i < until(s, sep) implies s[i] != sep by {
            if i > 0 {
                assert(rest[i - 1] != sep);
            }
        }
    }
}

/// The position of the first `sep` is the only one with no `sep` before it.
pub proof fn lemma_until_is(s: Seq<char>, sep: char, n: int)
    requires
        0 <= n <= s.len(),
        n < s.len() ==> s[n] == sep,
        forall|i: int| 0 <= i < n ==> s[i] != sep,
    ensures
        until(s, sep) == n,
{
    lemma_until(s, sep);
    let m = until(s, sep);
    if m < n {
        assert(s[m] != sep);
    }
    if n < m {
        assert(s[n] != sep);
    }
}

/// Returns how many characters from `from` on stand before the first `sep`.
pub fn find(chars: &Vec<char>, from: usize, sep: char) -> (r: usize)
    requires
        from <= chars@.len(),
    ensures
        r == until(chars@.skip(from as int), sep),
        from + r <= chars@.len(),
{
    let mut n: usize = 0;
    let ghost rest = chars@.skip(from as int);
    while n < chars.len() - from && chars[from + n] != sep
        invariant
            from <= chars@.len(),
            n <= chars@.len() - from,
            rest == chars@.skip(from as int),
            forall|i: int| 0 <= i < n ==> rest[i] != sep,
        decreases chars.len() - from - n,
    {
        n = n + 1;
    }
    proof {
        lemma_until_is(rest, sep, n as int);
    }
    n
}

/// The text before and after the first `sep`.
pub open spec fn cut(s: Seq<char>, sep: char) -> Option<(Seq<char>, Seq<char>)> {
    let n = until(s, sep);
    if n < s.len() {
        Some((s.take(n), s.skip(n + 1)))
    } else {
        None
    }
}

/// The contents of a pair of strings.
pub open spec fn opt_pair(r: Option<(String, String)>) -> Option<(Seq<char>, Seq<char>)> {
    match r {
        Some((a, b)) => Some((a@, b@)),
        None => None,
    }
}

/// Returns the text before and after the first `sep`.
pub fn split_once(s: &str, sep: char) -> (r: Option<(String, String)>)
    ensures
        opt_pair(r) == cut(s@, sep),
{
    let chars: Vec<char> = chars_of(s);
    assert(chars@.skip(0) =~= s@);
    let n: usize = find(&chars, 0, sep);
    if n < chars.len() {
        let before: String = text_between(&chars, 0, n);
        let after: String = text_between(&chars, n + 1, chars.len());
        assert(before@ =~= s@.take(n as int));
        assert(after@ =~= s@.skip(n + 1));
        Some((before, after))
    } else {
        None
    }
}

/// A line without the carriage return of its `\r\n` ending.
pub open spec fn without_cr(line: Seq<char>) -> Seq<char> {
    if line.len() > 0 && line.last() == '\r' {
        line.drop_last()
    } else {
        line
    }
}

/// The lines of `s`. A line ends with `\n` or `\r\n`, which is not part of
/// it. The ending of the last line is optional.
pub open spec fn lines_of(s: Seq<char>) -> Seq<Seq<char>>
    decreases s.len(),
{
    if s.len() == 0 {
        Seq::empty()
    } else {
        let n = until(s, '\n');
        if 0 <= n < s.len() {
            seq![without_cr(s.take(n))] + lines_of(s.skip(n + 1))
        } else {
            seq![s]
        }
    }
}

/// Returns the lines of `s`.
pub fn lines(s: &str) -> (r: Vec<String>)
    ensures
        list::texts(r@) == lines_of(s@),
{
    let chars: Vec<char> = chars_of(s);
    let mut out: Vec<String> = Vec::new();
    let mut i: usize = 0;
    assert(s@.skip(0) =~= s@);
    assert(list::texts(out@) =~= Seq::<Seq<char>>::empty());
    while i < chars.len()
        invariant
            i <= chars.len(),
            chars@ == s@,
            lines_of(s@) =~= list::texts(out@) + lines_of(s@.skip(i as int)),
        decreases chars.len() - i,
    {
        let ghost rest = s@.skip(i as int);
        let n: usize = find(&chars, i, '\n');
        if n < chars.len() - i {
            let end: usize = i + n;
            assert(rest.take(n as int) =~= s@.subrange(i as int, end as int));
            let strip: bool = n > 0 && chars[end - 1] == '\r';
            let line: String = text_between(
                &chars,
                i,
                if strip {
                    end - 1
                } else {
                    end
                },
            );
            assert(line@ =~= without_cr(rest.take(n as int)));
            out.push(line);
            assert(rest.skip(n + 1) =~= s@.skip(end + 1));
            i = end + 1;
        } else {
            let line: String = text_between(&chars, i, chars.len());
            assert(line@ =~= rest);
            out.push(line);
            i = chars.len();
            assert(s@.skip(i as int) =~= Seq::<char>::empty());
        }
    }
    assert(s@.skip(i as int) =~= Seq::<char>::empty());
    out
}

/// Whether a character is white space: Unicode's White_Space property.
pub open spec fn is_space(c: char) -> bool {
    ||| '\u{9}' <= c <= '\u{d}'
    ||| c == ' '
    ||| c == '\u{85}'
    ||| c == '\u{a0}'
    ||| c == '\u{1680}'
    ||| '\u{2000}' <= c <= '\u{200a}'
    ||| c == '\u{2028}'
    ||| c == '\u{2029}'
    ||| c == '\u{202f}'
    ||| c == '\u{205f}'
    ||| c == '\u{3000}'
}

/// Whether a character is white space.
pub fn is_whitespace(c: char) -> (r: bool)
    ensures
        r == is_space(c),
{
    ('\u{9}' <= c && c <= '\u{d}') || c == ' ' || c == '\u{85}' || c == '\u{a0}' || c == '\u{1680}'
        || ('\u{2000}' <= c && c <= '\u{200a}') || c == '\u{2028}' || c == '\u{2029}' || c
        == '\u{202f}' || c == '\u{205f}' || c == '\u{3000}'
}

/// The length of the word `s` begins with.
pub open spec fn word_len(s: Seq<char>) -> int
    decreases s.len(),
{
    if s.len() == 0 || is_space(s[0]) {
        0
    } else {
        1 + word_len(s.drop_first())
    }
}

pub proof fn lemma_word_len(s: Seq<char>)
    ensures
        0 <= word_len(s) <= s.len(),
        word_len(s) < s.len() ==> is_space(s[word_len(s)]),
        forall|i: int| 0 <= i < word_len(s) ==> !is_space(s[i]),
    decreases s.len(),
{
    if s.len() > 0 && !is_space(s[0]) {
        let rest = s.drop_first();
        lemma_word_len(rest);
        assert forall|i: int| 0 <= i < word_len(s) implies !is_space(s[i]) by {
            if i > 0 {
                assert(!is_space(rest[i - 1]));
            }
        }
    }
}

/// The longest runs of characters other than white space.
pub open spec fn words_of(s: Seq<char>) -> Seq<Seq<char>>
    decreases s.len(),
{
    if s.len() == 0 {
        Seq::empty()
    } else if is_space(s[0]) {
        words_of(s.drop_first())
    } else {
        let n = word_len(s);
        if 0 < n <= s.len() {
            seq![s.take(n)] + words_of(s.skip(n))
        } else {
            Seq::empty()
        }
    }
}

/// Returns the words of `s`.
pub fn words(s: &str) -> (r: Vec<String>)
    ensures
        list::texts(r@) == words_of(s@),
{
    let chars: Vec<char> = chars_of(s);
    let mut out: Vec<String> = Vec::new();
    let mut i: usize = 0;
    assert(s@.skip(0) =~= s@);
    assert(list::texts(out@) =~= Seq::<Seq<char>>::empty());
    while i < chars.len()
        invariant
            i <= chars.len(),
            chars@ == s@,
            words_of(s@) =~= list::texts(out@) + words_of(s@.skip(i as int)),
        decreases chars.len() - i,
    {
        let ghost rest = s@.skip(i as int);
        if is_whitespace(chars[i]) {
            assert(rest.drop_first() =~= s@.skip(i + 1));
            i = i + 1;
        } else {
            let mut n: usize = 1;
            while n < chars.len() - i && !is_whitespace(chars[i + n])
                invariant
                    i < chars.len(),
                    chars@ == s@,
                    rest == s@.skip(i as int),
                    1 <= n <= chars.len() - i,
                    forall|j: int| 0 <= j < n ==> !is_space(rest[j]),
                decreases chars.len() - i - n,
            {
                n = n + 1;
            }
            proof {
                lemma_word_len(rest);
                if word_len(rest) < n {
                    assert(!is_space(rest[word_len(rest)]));
                }
                if n < word_len(rest) {
                    assert(!is_space(rest[n as int]));
                }
            }
            let word: String = text_between(&chars, i, i + n);
            assert(word@ =~= rest.take(n as int));
            out.push(word);
            assert(rest.skip(n as int) =~= s@.skip(i + n));
            i = i + n;
        }
    }
    assert(s@.skip(i as int) =~= Seq::<char>::empty());
    out
}

// How the operations on text relate

/// Joining two lists joins their texts, with the separator between them.
pub proof fn law_joined_lists_join(a: Seq<Seq<char>>, b: Seq<Seq<char>>, sep: Seq<char>)
    requires
        a.len() > 0,
        b.len() > 0,
    ensures
        joined(a + b, sep) == joined(a, sep) + sep + joined(b, sep),
    decreases a.len(),
{
    let all = a + b;
    assert(all[0] == a[0]);
    assert(all.drop_first() =~= a.drop_first() + b);
    if a.len() == 1 {
        assert(a.drop_first() + b =~= b);
    } else {
        law_joined_lists_join(a.drop_first(), b, sep);
        assert(joined(all, sep) =~= joined(a, sep) + sep + joined(b, sep));
    }
}

/// A list of one text joins to that text, and an empty one to nothing.
pub proof fn law_joined_single(s: Seq<char>, sep: Seq<char>)
    ensures
        joined(seq![s], sep) == s,
        joined(Seq::empty(), sep).len() == 0,
{
}

/// Trimming takes newlines off the end, all of them and nothing else.
pub proof fn law_trimming_takes_all_final_newlines(s: Seq<char>)
    ensures
        ({
            let r = without_final_newlines(s);
            &&& r.len() <= s.len()
            &&& r == s.take(r.len() as int)
            &&& forall|i: int| r.len() <= i < s.len() ==> s[i] == '\n'
            &&& r.len() > 0 ==> r.last() != '\n'
        }),
    decreases s.len(),
{
    if s.len() > 0 && s.last() == '\n' {
        let front = s.drop_last();
        law_trimming_takes_all_final_newlines(front);
        let r = without_final_newlines(front);
        assert(front.take(r.len() as int) =~= s.take(r.len() as int));
        assert forall|i: int| r.len() <= i < s.len() implies s[i] == '\n' by {
            if i < front.len() {
                assert(front[i] == s[i]);
            }
        }
    } else {
        assert(s.take(s.len() as int) =~= s);
    }
}

/// A text is cut at the first separator, and only if it has one.
pub proof fn law_cut_at_the_first_separator(a: Seq<char>, sep: char, b: Seq<char>)
    requires
        !a.contains(sep),
    ensures
        cut(a + seq![sep] + b, sep) == Some((a, b)),
        cut(a, sep) is None,
{
    assert forall|i: int| 0 <= i < a.len() implies a[i] != sep by {
        if a[i] == sep {
            assert(a.contains(sep));
        }
    }
    let all = a + seq![sep] + b;
    lemma_until_is(all, sep, a.len() as int);
    lemma_until_is(a, sep, a.len() as int);
    assert(all.take(a.len() as int) =~= a);
    assert(all.skip(a.len() as int + 1) =~= b);
}

/// Each newline ends a line, with the carriage return before it. What comes
/// after the last newline is a line as it stands, unless it is empty.
pub proof fn law_newlines_end_lines(line: Seq<char>, rest: Seq<char>)
    requires
        !line.contains('\n'),
    ensures
        lines_of(line + seq!['\n'] + rest) == seq![
            if line.len() > 0 && line.last() == '\r' {
                line.drop_last()
            } else {
                line
            },
        ] + lines_of(rest),
        lines_of(line) == if line.len() == 0 {
            Seq::empty()
        } else {
            seq![line]
        },
{
    law_cut_at_the_first_separator(line, '\n', rest);
    let all = line + seq!['\n'] + rest;
    lemma_until(line, '\n');
    lemma_until(all, '\n');
    assert forall|i: int| 0 <= i < line.len() implies line[i] != '\n' by {
        if line[i] == '\n' {
            assert(line.contains('\n'));
        }
    }
    lemma_until_is(all, '\n', line.len() as int);
    lemma_until_is(line, '\n', line.len() as int);
    assert(all.take(line.len() as int) =~= line);
    assert(all.skip(line.len() as int + 1) =~= rest);
}

/// White space separates words, and any amount of it does.
pub proof fn law_white_space_separates_words(word: Seq<char>, space: char, rest: Seq<char>)
    requires
        forall|i: int| 0 <= i < word.len() ==> !is_space(#[trigger] word[i]),
        is_space(space),
    ensures
        words_of(word + seq![space] + rest) == if word.len() == 0 {
            words_of(rest)
        } else {
            seq![word] + words_of(rest)
        },
        words_of(word) == if word.len() == 0 {
            Seq::empty()
        } else {
            seq![word]
        },
{
    let line = word + seq![space] + rest;
    let m = word.len() as int;
    lemma_word_len(line);
    lemma_word_len(word);
    let n = word_len(line);
    assert(line[m] == space);
    if n < m {
        assert(line[n] == word[n]);
    }
    if n > m {
        assert(!is_space(line[m]));
    }
    let tail = line.skip(m);
    assert(tail[0] == space);
    assert(tail.drop_first() =~= rest);
    assert(words_of(tail) == words_of(rest));
    if m == 0 {
        assert(tail =~= line);
    } else {
        assert(line[0] == word[0]);
        assert(line.take(m) =~= word);
        let k = word_len(word);
        if k < m {
            assert(!is_space(word[k]));
        }
        assert(word.take(m) =~= word);
        assert(word.skip(m) =~= Seq::<char>::empty());
        assert(words_of(word.skip(m)) =~= Seq::<Seq<char>>::empty());
        assert(words_of(word) =~= seq![word]);
    }
}

/// White space is what Unicode calls so.
pub proof fn law_white_space_is_unicodes(c: char)
    ensures
        is_space(c) <==> {
            let code = c as int;
            ||| 0x9 <= code <= 0xd
            ||| code == 0x20
            ||| code == 0x85
            ||| code == 0xa0
            ||| code == 0x1680
            ||| 0x2000 <= code <= 0x200a
            ||| code == 0x2028
            ||| code == 0x2029
            ||| code == 0x202f
            ||| code == 0x205f
            ||| code == 0x3000
        },
{
}

/// A replacement takes a pattern wherever one begins, goes on behind it, and
/// leaves every other character alone.
pub proof fn law_replacing_takes_each_pattern(
    s: Seq<char>,
    pattern: Seq<char>,
    with: Seq<char>,
    rest: Seq<char>,
)
    requires
        pattern.len() > 0,
    ensures
        replaced(pattern + rest, pattern, with) == with + replaced(rest, pattern, with),
        s.len() > 0 && (s.len() < pattern.len() || s.take(pattern.len() as int) != pattern)
            ==> replaced(s, pattern, with) == seq![s[0]] + replaced(s.skip(1), pattern, with),
        replaced(Seq::empty(), pattern, with).len() == 0,
{
    lemma_replaced_takes(rest, pattern, with);
    if s.len() > 0 {
        assert(s.skip(1) =~= s.drop_first());
    }
}

} // verus!
