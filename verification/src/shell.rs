//! Arguments that pass through a POSIX shell.
//!
//! ssh(1) concatenates the words of a command with spaces and lets the remote
//! shell split the line again. [`escape_all`] prepares the words for that.

use vstd::prelude::*;

use crate::list;
use crate::text;

verus! {

broadcast use list::lemma_texts_push;

/// Whether a shell gives a character no meaning of its own.
pub open spec fn is_plain(c: char) -> bool {
    ||| 'a' <= c <= 'z'
    ||| 'A' <= c <= 'Z'
    ||| '0' <= c <= '9'
    ||| c == '-'
    ||| c == '_'
    ||| c == '='
    ||| c == '/'
    ||| c == ','
    ||| c == '.'
    ||| c == '+'
}

/// Whether a shell takes a text as one word as it stands.
pub open spec fn is_plain_word(s: Seq<char>) -> bool {
    s.len() > 0 && forall|i: int| 0 <= i < s.len() ==> is_plain(#[trigger] s[i])
}

/// A character inside single quotes. A quote and an exclamation mark leave
/// the quotes and stand behind a backslash.
pub open spec fn quoted_char(c: char) -> Seq<char> {
    if c == '\'' || c == '!' {
        seq!['\'', '\\', c, '\'']
    } else {
        seq![c]
    }
}

/// Text inside single quotes.
pub open spec fn quoted_body(s: Seq<char>) -> Seq<char>
    decreases s.len(),
{
    if s.len() == 0 {
        Seq::empty()
    } else {
        quoted_char(s[0]) + quoted_body(s.drop_first())
    }
}

/// An argument as the shell must read it.
pub open spec fn escaped(s: Seq<char>) -> Seq<char> {
    if is_plain_word(s) {
        s
    } else {
        seq!['\''] + quoted_body(s) + seq!['\'']
    }
}

/// The arguments of `argv` as the shell must read them.
pub open spec fn escaped_all(argv: Seq<Seq<char>>) -> Seq<Seq<char>> {
    argv.map_values(|arg: Seq<char>| escaped(arg))
}

/// Escapes an argument with `shell_escape::unix::escape`.
///
/// It returns a non-empty argument of letters, digits and `-_=/,.+` as it is.
/// Any other argument comes back in single quotes, where each `'` and `!` is
/// written as a closing quote, a backslash, the character and an opening
/// quote.
#[verifier::external_body]
pub(crate) fn escape(s: &str) -> (r: String)
    ensures
        r@ == escaped(s@),
{
    shell_escape::unix::escape(s.into()).into_owned()
}

/// Returns the arguments of `argv`, each escaped for the shell.
pub fn escape_all(argv: &Vec<String>) -> (r: Vec<String>)
    ensures
        list::texts(r@) == escaped_all(list::texts(argv@)),
{
    let mut out: Vec<String> = Vec::new();
    let ghost all = escaped_all(list::texts(argv@));
    let mut i: usize = 0;
    assert(list::texts(out@) =~= all.take(0));
    while i < argv.len()
        invariant
            i <= argv.len(),
            all == escaped_all(list::texts(argv@)),
            list::texts(out@) == all.take(i as int),
        decreases argv.len() - i,
    {
        let word: String = escape(argv[i].as_str());
        out.push(word);
        i = i + 1;
        assert(all[i - 1] == escaped(argv@[i - 1]@));
        assert(all.take(i as int) =~= all.take(i - 1).push(all[i - 1]));
    }
    assert(all.take(i as int) =~= all);
    out
}

/// Where a shell stands in a line.
pub enum Place {
    /// Between two words.
    Blank,
    /// In a word.
    Word,
    /// In a word, inside single quotes.
    Quote,
}

/// The words of the rest of a line, where the shell stands at `place` and has
/// read `word` so far.
///
/// `None` for a line that ends inside quotes, and for one with a character
/// that a shell does more with than to split words.
pub open spec fn words_from(line: Seq<char>, place: Place, word: Seq<char>) -> Option<
    Seq<Seq<char>>,
>
    decreases line.len(),
{
    if line.len() == 0 {
        match place {
            Place::Blank => Some(Seq::empty()),
            Place::Word => Some(seq![word]),
            Place::Quote => None,
        }
    } else {
        let c = line[0];
        let rest = line.drop_first();
        if place is Quote {
            if c == '\'' {
                words_from(rest, Place::Word, word)
            } else {
                words_from(rest, Place::Quote, word.push(c))
            }
        } else if c == ' ' || c == '\t' {
            match words_from(rest, Place::Blank, Seq::empty()) {
                Some(more) => Some(
                    if place is Word {
                        seq![word] + more
                    } else {
                        more
                    },
                ),
                None => None,
            }
        } else if c == '\'' {
            words_from(rest, Place::Quote, word)
        } else if c == '\\' {
            if rest.len() > 0 && rest[0] != '\n' {
                words_from(rest.drop_first(), Place::Word, word.push(rest[0]))
            } else {
                None
            }
        } else if is_plain(c) {
            words_from(rest, Place::Word, word.push(c))
        } else {
            None
        }
    }
}

/// The words a POSIX shell splits a line into.
pub open spec fn shell_words(line: Seq<char>) -> Option<Seq<Seq<char>>> {
    words_from(line, Place::Blank, Seq::empty())
}

proof fn lemma_plain_word(s: Seq<char>, rest: Seq<char>, place: Place, word: Seq<char>)
    requires
        is_plain_word(s),
        !(place is Quote),
    ensures
        words_from(s + rest, place, word) == words_from(rest, Place::Word, word + s),
    decreases s.len(),
{
    let line = s + rest;
    assert(is_plain(s[0]));
    assert(line[0] == s[0]);
    let tail = s.drop_first();
    assert(line.drop_first() =~= tail + rest);
    if tail.len() == 0 {
        assert(tail + rest =~= rest);
        assert(word.push(s[0]) =~= word + s);
    } else {
        assert forall|i: int| 0 <= i < tail.len() implies is_plain(#[trigger] tail[i]) by {
            assert(is_plain(s[i + 1]));
        }
        lemma_plain_word(tail, rest, Place::Word, word.push(s[0]));
        assert(word.push(s[0]) + tail =~= word + s);
    }
}

proof fn lemma_quoted_body(s: Seq<char>, rest: Seq<char>, word: Seq<char>)
    ensures
        words_from(quoted_body(s) + seq!['\''] + rest, Place::Quote, word) == words_from(
            rest,
            Place::Word,
            word + s,
        ),
    decreases s.len(),
{
    let line = quoted_body(s) + seq!['\''] + rest;
    if s.len() == 0 {
        assert(line[0] == '\'');
        assert(line.drop_first() =~= rest);
        assert(word + s =~= word);
    } else {
        let c = s[0];
        let tail = s.drop_first();
        let after = quoted_body(tail) + seq!['\''] + rest;
        assert(line =~= quoted_char(c) + after);
        lemma_quoted_body(tail, rest, word.push(c));
        assert(word.push(c) + tail =~= word + s);
        if c == '\'' || c == '!' {
            let line1 = line.drop_first();
            let line2 = line1.drop_first();
            let line3 = line2.drop_first();
            assert(line[0] == '\'');
            assert(line1[0] == '\\');
            assert(line2[0] == c);
            assert(line3[0] == '\'');
            assert(line3.drop_first() =~= after);
            assert(words_from(line, Place::Quote, word) == words_from(line1, Place::Word, word));
            assert(words_from(line1, Place::Word, word) == words_from(
                line3,
                Place::Word,
                word.push(c),
            ));
            assert(words_from(line3, Place::Word, word.push(c)) == words_from(
                after,
                Place::Quote,
                word.push(c),
            ));
        } else {
            assert(line[0] == c);
            assert(line.drop_first() =~= after);
        }
    }
}

proof fn lemma_escaped(s: Seq<char>, rest: Seq<char>)
    ensures
        words_from(escaped(s) + rest, Place::Blank, Seq::empty()) == words_from(
            rest,
            Place::Word,
            s,
        ),
{
    let none = Seq::<char>::empty();
    assert(none + s =~= s);
    if is_plain_word(s) {
        lemma_plain_word(s, rest, Place::Blank, none);
    } else {
        let line = escaped(s) + rest;
        assert(line[0] == '\'');
        assert(line.drop_first() =~= quoted_body(s) + seq!['\''] + rest);
        lemma_quoted_body(s, rest, none);
    }
}

/// A shell splits a line of escaped arguments, separated by spaces, into
/// exactly those arguments.
pub proof fn law_escaped_arguments_split_back(argv: Seq<Seq<char>>)
    ensures
        shell_words(text::joined(escaped_all(argv), seq![' '])) == Some(argv),
    decreases argv.len(),
{
    let all = escaped_all(argv);
    let none = Seq::<char>::empty();
    let line = text::joined(all, seq![' ']);
    if argv.len() == 0 {
        assert(line =~= none);
        assert(argv =~= Seq::<Seq<char>>::empty());
    } else {
        let first = argv[0];
        let tail = argv.drop_first();
        assert(all[0] == escaped(first));
        assert(all.drop_first() =~= escaped_all(tail));
        law_escaped_arguments_split_back(tail);
        if argv.len() == 1 {
            assert(line =~= escaped(first) + none);
            lemma_escaped(first, none);
            assert(seq![first] =~= argv);
        } else {
            let rest_line = text::joined(escaped_all(tail), seq![' ']);
            let rest = seq![' '] + rest_line;
            assert(line =~= escaped(first) + rest);
            lemma_escaped(first, rest);
            assert(rest[0] == ' ');
            assert(rest.drop_first() =~= rest_line);
            assert(seq![first] + tail =~= argv);
        }
    }
}

proof fn lemma_words_before(a: Seq<char>, b: Seq<char>, place: Place, word: Seq<char>)
    requires
        words_from(a, place, word) is Some,
        shell_words(b) is Some,
    ensures
        words_from(a + seq![' '] + b, place, word) == Some(
            words_from(a, place, word)->0 + shell_words(b)->0,
        ),
    decreases a.len(),
{
    let line = a + seq![' '] + b;
    let more = shell_words(b)->0;
    if a.len() == 0 {
        assert(line[0] == ' ');
        assert(line.drop_first() =~= b);
        if place is Blank {
            assert(Seq::<Seq<char>>::empty() + more =~= more);
        }
    } else {
        let c = a[0];
        let rest = a.drop_first();
        assert(line[0] == c);
        assert(line.drop_first() =~= rest + seq![' '] + b);
        if place is Quote {
            if c == '\'' {
                lemma_words_before(rest, b, Place::Word, word);
            } else {
                lemma_words_before(rest, b, Place::Quote, word.push(c));
            }
        } else if c == ' ' || c == '\t' {
            lemma_words_before(rest, b, Place::Blank, Seq::empty());
            let between = words_from(rest, Place::Blank, Seq::empty())->0;
            assert(seq![word] + between + more =~= seq![word] + (between + more));
        } else if c == '\'' {
            lemma_words_before(rest, b, Place::Quote, word);
        } else if c == '\\' {
            let rest2 = rest.drop_first();
            assert(line.drop_first()[0] == rest[0]);
            assert(line.drop_first().drop_first() =~= rest2 + seq![' '] + b);
            lemma_words_before(rest2, b, Place::Word, word.push(rest[0]));
        } else {
            lemma_words_before(rest, b, Place::Word, word.push(c));
        }
    }
}

/// Words in front of escaped arguments do not change how those split: the
/// shell reads its words for the front, then exactly the arguments.
pub proof fn law_words_in_front_keep_arguments(front: Seq<Seq<char>>, argv: Seq<Seq<char>>)
    requires
        shell_words(text::joined(front, seq![' '])) is Some,
    ensures
        shell_words(text::joined(front + escaped_all(argv), seq![' '])) == Some(
            shell_words(text::joined(front, seq![' ']))->0 + argv,
        ),
{
    let sep = seq![' '];
    let words = shell_words(text::joined(front, sep))->0;
    law_escaped_arguments_split_back(argv);
    if front.len() == 0 {
        assert(front + escaped_all(argv) =~= escaped_all(argv));
        assert(text::joined(front, sep) =~= Seq::<char>::empty());
        assert(words + argv =~= argv);
    } else if argv.len() == 0 {
        assert(front + escaped_all(argv) =~= front);
        assert(words + argv =~= words);
    } else {
        text::law_joined_lists_join(front, escaped_all(argv), sep);
        lemma_words_before(
            text::joined(front, sep),
            text::joined(escaped_all(argv), sep),
            Place::Blank,
            Seq::empty(),
        );
    }
}

/// Whether a text holds a single quote or an exclamation mark.
pub open spec fn has_quote_or_bang(s: Seq<char>) -> bool {
    exists|i: int| 0 <= i < s.len() && (#[trigger] s[i] == '\'' || s[i] == '!')
}

/// An argument without quotes and exclamation marks needs no backslash: it
/// stays as it is or goes between single quotes.
pub proof fn law_escape_without_backslash(s: Seq<char>)
    requires
        !has_quote_or_bang(s),
    ensures
        escaped(s) == s || escaped(s) == seq!['\''] + s + seq!['\''],
{
    lemma_body_unchanged(s);
}

proof fn lemma_body_unchanged(s: Seq<char>)
    requires
        !has_quote_or_bang(s),
    ensures
        quoted_body(s) == s,
    decreases s.len(),
{
    if s.len() > 0 {
        let tail = s.drop_first();
        if has_quote_or_bang(tail) {
            let i = choose|i: int|
                0 <= i < tail.len() && (#[trigger] tail[i] == '\'' || tail[i] == '!');
            assert(s[i + 1] == tail[i]);
        }
        assert(s[0] != '\'' && s[0] != '!');
        lemma_body_unchanged(tail);
        assert(seq![s[0]] + tail =~= s);
    } else {
        assert(quoted_body(s) =~= s);
    }
}

} // verus!
