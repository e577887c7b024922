//! Nix expression serializer.

use vstd::prelude::*;

use crate::text;

verus! {

/// A Nix expression.
pub trait NixExpression: Send + Sync {
    /// The text of the expression.
    spec fn expression_text(&self) -> Seq<char>;

    /// When [`Self::installable`] returns `None`,
    /// returns the full Nix expression to be evaluated (`nix-eval-jobs --expr`),
    /// o.w. return function applied to flake eval root (`nix-eval-jobs --select`).
    fn expression(&self) -> (r: String)
        ensures
            r@ == self.expression_text(),
    ;

    /// Returns the full flake `colmenaHive` accessor or `None`.
    fn installable(&self) -> (r: Option<String>)
        default_ensures
            r is None,
    {
        None
    }

    /// Returns whether this expression requires the use of flakes.
    fn requires_flakes(&self) -> (r: bool)
        default_ensures
            !r,
    {
        false
    }
}

impl NixExpression for String {
    open spec fn expression_text(&self) -> Seq<char> {
        self@
    }

    fn expression(&self) -> (r: String) {
        self.clone()
    }
}

/// What stands for the characters of `s` between the quotes of a Nix string.
///
/// A backslash goes before each backslash and double quote, and before the
/// `${` that would start an interpolation.
pub open spec fn nix_escaped(s: Seq<char>) -> Seq<char>
    decreases s.len(),
{
    if s.len() == 0 {
        Seq::empty()
    } else if s[0] == '\\' || s[0] == '"' {
        seq!['\\', s[0]] + nix_escaped(s.drop_first())
    } else if s.len() >= 2 && s[0] == '$' && s[1] == '{' {
        seq!['\\', '$', '{'] + nix_escaped(s.skip(2))
    } else {
        seq![s[0]] + nix_escaped(s.drop_first())
    }
}

/// A Nix string literal for `s`.
pub open spec fn nix_quoted(s: Seq<char>) -> Seq<char> {
    seq!['"'] + nix_escaped(s) + seq!['"']
}

/// Turns a string into a quoted Nix string expression.
pub fn nix_quote(s: &str) -> (r: String)
    ensures
        r@ == nix_quoted(s@),
{
    proof {
        reveal_strlit("\\");
        reveal_strlit("\\\\");
        reveal_strlit("\"");
        reveal_strlit("\\\"");
        reveal_strlit("${");
        reveal_strlit("\\${");
        assert("\\"@ =~= seq!['\\']);
        assert("\\\\"@ =~= seq!['\\', '\\']);
        assert("\""@ =~= seq!['"']);
        assert("\\\""@ =~= seq!['\\', '"']);
        assert("${"@ =~= seq!['$', '{']);
        assert("\\${"@ =~= seq!['\\', '$', '{']);
        lemma_escape_char_by_char(s@);
        lemma_escape_interpolation(s@);
    }
    let backslashes: String = text::replace(s, "\\", "\\\\");
    let quotes: String = text::replace(backslashes.as_str(), "\"", "\\\"");
    let inner: String = text::replace(quotes.as_str(), "${", "\\${");
    "\"".to_string().concat(inner.as_str()).concat("\"")
}

/// `s` with a backslash before each backslash and double quote.
spec fn escaped_chars(s: Seq<char>) -> Seq<char>
    decreases s.len(),
{
    if s.len() == 0 {
        Seq::empty()
    } else if s[0] == '\\' || s[0] == '"' {
        seq!['\\', s[0]] + escaped_chars(s.drop_first())
    } else {
        seq![s[0]] + escaped_chars(s.drop_first())
    }
}

proof fn lemma_escape_char_by_char(s: Seq<char>)
    ensures
        text::replaced(
            text::replaced(s, seq!['\\'], seq!['\\', '\\']),
            seq!['"'],
            seq!['\\', '"'],
        ) == escaped_chars(s),
    decreases s.len(),
{
    let slash = seq!['\\'];
    let slashes = seq!['\\', '\\'];
    let quote = seq!['"'];
    let escape = seq!['\\', '"'];
    if s.len() > 0 {
        let tail = s.drop_first();
        let rest = text::replaced(tail, slash, slashes);
        lemma_escape_char_by_char(tail);
        assert(s =~= seq![s[0]] + tail);
        if s[0] == '\\' {
            assert(s =~= slash + tail);
            text::lemma_replaced_takes(tail, slash, slashes);
            assert(slashes + rest =~= seq!['\\'] + (seq!['\\'] + rest));
            text::lemma_replaced_skips('\\', seq!['\\'] + rest, quote, escape);
            text::lemma_replaced_skips('\\', rest, quote, escape);
            assert(escaped_chars(s) =~= seq!['\\'] + (seq!['\\'] + escaped_chars(tail)));
        } else {
            text::lemma_replaced_skips(s[0], tail, slash, slashes);
            if s[0] == '"' {
                assert(seq![s[0]] + rest =~= quote + rest);
                text::lemma_replaced_takes(rest, quote, escape);
            } else {
                text::lemma_replaced_skips(s[0], rest, quote, escape);
            }
        }
    }
}

proof fn lemma_escape_interpolation(s: Seq<char>)
    ensures
        text::replaced(escaped_chars(s), seq!['$', '{'], seq!['\\', '$', '{']) == nix_escaped(s),
    decreases s.len(),
{
    let open = seq!['$', '{'];
    let escape = seq!['\\', '$', '{'];
    if s.len() > 0 {
        let tail = s.drop_first();
        let rest = escaped_chars(tail);
        lemma_escape_interpolation(tail);
        if s[0] == '\\' || s[0] == '"' {
            assert(escaped_chars(s) =~= seq!['\\'] + (seq![s[0]] + rest));
            text::lemma_replaced_skips('\\', seq![s[0]] + rest, open, escape);
            text::lemma_replaced_skips(s[0], rest, open, escape);
            assert(nix_escaped(s) =~= seq!['\\'] + (seq![s[0]] + nix_escaped(tail)));
        } else if s.len() >= 2 && s[0] == '$' && s[1] == '{' {
            let after = s.skip(2);
            assert(tail[0] == '{');
            assert(tail.drop_first() =~= after);
            assert(escaped_chars(s) =~= open + escaped_chars(after));
            lemma_escape_interpolation(after);
            text::lemma_replaced_takes(escaped_chars(after), open, escape);
        } else if s[0] == '$' {
            let t = escaped_chars(s);
            if text::begins_with(t, open) {
                assert(t.take(2)[1] == '{');
                assert(t[1] == rest[0]);
                assert(tail.len() > 0);
                assert(rest[0] == '{' ==> tail[0] == '{');
            }
            assert(t.drop_first() =~= rest);
        } else {
            text::lemma_replaced_skips(s[0], rest, open, escape);
        }
    }
}

/// The text Nix reads from the rest of a string literal, after its opening
/// quote.
///
/// A backslash takes the next character as it is, except for the newline,
/// carriage return and tab of `\n`, `\r` and `\t`. A dollar sign and the
/// character after it stand for themselves, unless that character is a quote,
/// a backslash or the brace of an interpolation. A carriage return, with the
/// newline after it, reads as a newline.
///
/// `None` for a literal that does not end with its first bare quote, and for
/// one with an interpolation.
pub open spec fn nix_string_rest(s: Seq<char>) -> Option<Seq<char>>
    decreases s.len(),
{
    if s.len() == 0 {
        None
    } else if s[0] == '"' {
        if s.len() == 1 {
            Some(Seq::empty())
        } else {
            None
        }
    } else if s[0] == '\\' {
        if s.len() == 1 {
            None
        } else {
            let c = if s[1] == 'n' {
                '\n'
            } else if s[1] == 'r' {
                '\r'
            } else if s[1] == 't' {
                '\t'
            } else {
                s[1]
            };
            before(seq![c], nix_string_rest(s.skip(2)))
        }
    } else if s[0] == '$' && s.len() >= 2 && s[1] == '{' {
        None
    } else if s[0] == '$' && s.len() >= 2 && s[1] != '"' && s[1] != '\\' {
        before(seq![s[0], s[1]], nix_string_rest(s.skip(2)))
    } else if s[0] == '\r' {
        before(
            seq!['\n'],
            if s.len() >= 2 && s[1] == '\n' {
                nix_string_rest(s.skip(2))
            } else {
                nix_string_rest(s.skip(1))
            },
        )
    } else {
        before(seq![s[0]], nix_string_rest(s.skip(1)))
    }
}

/// Text before more text.
pub open spec fn before(first: Seq<char>, more: Option<Seq<char>>) -> Option<Seq<char>> {
    match more {
        Some(more) => Some(first + more),
        None => None,
    }
}

/// The text Nix reads from a string literal without interpolation.
pub open spec fn nix_string_value(literal: Seq<char>) -> Option<Seq<char>> {
    if literal.len() > 0 && literal[0] == '"' {
        nix_string_rest(literal.skip(1))
    } else {
        None
    }
}

proof fn lemma_nix_string_rest(s: Seq<char>)
    requires
        !s.contains('\r'),
    ensures
        nix_string_rest(nix_escaped(s) + seq!['"']) == Some(s),
    decreases s.len(),
{
    let end = seq!['"'];
    let t = nix_escaped(s) + end;
    if s.len() == 0 {
        assert(t =~= end);
        assert(s =~= Seq::<char>::empty());
    } else {
        let tail = s.drop_first();
        lemma_no_cr(s, 1);
        assert(s.skip(1) =~= tail);
        assert(s[0] != '\r');
        if s[0] == '\\' || s[0] == '"' {
            lemma_nix_string_rest(tail);
            assert(t.skip(2) =~= nix_escaped(tail) + end);
            assert(seq![s[0]] + tail =~= s);
        } else if s.len() >= 2 && s[0] == '$' && s[1] == '{' {
            let after = s.skip(2);
            lemma_no_cr(s, 2);
            lemma_nix_string_rest(after);
            assert(t.skip(2) =~= seq!['{'] + (nix_escaped(after) + end));
            assert(t.skip(2).skip(1) =~= nix_escaped(after) + end);
            assert(nix_string_rest(t.skip(2)) == Some(seq!['{'] + after));
            assert(t[0] == '\\' && t[1] == '$');
            assert(seq!['$'] + (seq!['{'] + after) =~= s);
        } else if s[0] == '$' && tail.len() > 0 && tail[0] != '"' && tail[0] != '\\' && !(tail.len()
            >= 2 && tail[0] == '$' && tail[1] == '{') {
            let after = s.skip(2);
            assert(tail.drop_first() =~= after);
            lemma_no_cr(s, 2);
            lemma_nix_string_rest(after);
            assert(t =~= seq!['$', tail[0]] + (nix_escaped(after) + end));
            assert(t.skip(2) =~= nix_escaped(after) + end);
            assert(seq![s[0], s[1]] + after =~= s);
        } else {
            lemma_nix_string_rest(tail);
            assert(t =~= seq![s[0]] + (nix_escaped(tail) + end));
            assert(t.skip(1) =~= nix_escaped(tail) + end);
            if s[0] == '$' {
                assert(t[1] == '"' || t[1] == '\\');
            }
            assert(seq![s[0]] + tail =~= s);
        }
    }
}

proof fn lemma_no_cr(s: Seq<char>, n: int)
    requires
        !s.contains('\r'),
        0 <= n <= s.len(),
    ensures
        !s.skip(n).contains('\r'),
        s.len() > 0 ==> s[0] != '\r',
{
    if s.skip(n).contains('\r') {
        let i = choose|i: int| 0 <= i < s.skip(n).len() && s.skip(n)[i] == '\r';
        assert(s[i + n] == '\r');
    }
}

/// Nix reads a quoted string as the string itself, with nothing interpolated.
///
/// Nix turns a carriage return inside a literal into a newline, so the string
/// must have none.
pub proof fn law_quoted_string_reads_back(s: Seq<char>)
    requires
        !s.contains('\r'),
    ensures
        nix_string_value(nix_quoted(s)) == Some(s),
{
    lemma_nix_string_rest(s);
    assert(nix_quoted(s).skip(1) =~= nix_escaped(s) + seq!['"']);
}

/// A JSON value.
#[verifier::external_type_specification]
#[verifier::external_body]
pub struct ExJsonValue(serde_json::Value);

/// The text of a JSON value: what `serde_json::to_string` returns for it.
pub uninterp spec fn json_text(value: serde_json::Value) -> Seq<char>;

/// Serializes a JSON value with `serde_json::to_string`.
///
/// The text depends on the value alone, and holds no carriage return: one
/// inside a string is written as `\\r`. Serializing a `serde_json::Value` does
/// not fail: it is written to memory, and its maps have string keys.
#[verifier::external_body]
fn to_json(value: &serde_json::Value) -> (r: String)
    ensures
        r@ == json_text(*value),
        !r@.contains('\r'),
{
    serde_json::to_string(value).expect("Could not serialize data")
}

/// A serialized Nix expression.
pub struct SerializedNixExpression(String);

impl SerializedNixExpression {
    /// The Nix string literal that holds the JSON text.
    pub closed spec fn literal(&self) -> Seq<char> {
        self.0@
    }

    /// Creates an expression for a JSON value.
    pub fn new(data: &serde_json::Value) -> (r: Self)
        ensures
            r.literal() == nix_quoted(json_text(*data)),
            nix_string_value(r.literal()) == Some(json_text(*data)),
    {
        let json: String = to_json(data);
        proof {
            law_quoted_string_reads_back(json@);
        }
        Self::from_json(json.as_str())
    }

    /// Creates an expression for a value given as JSON text.
    pub fn from_json(json: &str) -> (r: Self)
        ensures
            r.literal() == nix_quoted(json@),
    {
        Self(nix_quote(json))
    }
}

impl NixExpression for SerializedNixExpression {
    open spec fn expression_text(&self) -> Seq<char> {
        "(builtins.fromJSON "@ + self.literal() + ")"@
    }

    fn expression(&self) -> (r: String) {
        "(builtins.fromJSON ".to_string().concat(self.0.as_str()).concat(")")
    }
}

/// A string without backslashes, double quotes and dollar signs is quoted as
/// it stands.
pub proof fn law_plain_strings_are_only_quoted(s: Seq<char>)
    requires
        !s.contains('\\'),
        !s.contains('"'),
        !s.contains('$'),
    ensures
        nix_quoted(s) == seq!['"'] + s + seq!['"'],
{
    lemma_plain_escaped(s);
}

proof fn lemma_plain_escaped(s: Seq<char>)
    requires
        !s.contains('\\'),
        !s.contains('"'),
        !s.contains('$'),
    ensures
        nix_escaped(s) == s,
    decreases s.len(),
{
    if s.len() > 0 {
        let tail = s.drop_first();
        assert(s.contains(s[0]));
        assert forall|c: char| tail.contains(c) implies s.contains(c) by {
            let i = choose|i: int| 0 <= i < tail.len() && tail[i] == c;
            assert(s[i + 1] == c);
        }
        lemma_plain_escaped(tail);
        assert(seq![s[0]] + tail =~= s);
    } else {
        assert(nix_escaped(s) =~= s);
    }
}

/// Quoting changes the backslashes, the double quotes and the dollar signs
/// before a brace, and nothing else.
pub proof fn law_quoting_changes_special_characters_only(c: char, s: Seq<char>)
    ensures
        ({
            let rest = nix_escaped(s);
            let brace = s.len() > 0 && s[0] == '{';
            let all = nix_escaped(seq![c] + s);
            &&& c == '\\' || c == '"' ==> all == seq!['\\', c] + rest
            &&& c != '\\' && c != '"' && !(c == '$' && brace) ==> all == seq![c] + rest
            &&& c == '$' && brace ==> all == seq!['\\', '$', '{'] + nix_escaped(s.skip(1))
        }),
        nix_quoted(s) == seq!['"'] + nix_escaped(s) + seq!['"'],
        nix_escaped(Seq::empty()).len() == 0,
{
    let all = seq![c] + s;
    assert(all.drop_first() =~= s);
    if s.len() > 0 {
        assert(all.skip(2) =~= s.skip(1));
    }
}

/// A serialized value is an expression that reads its literal as JSON, and a
/// string is the expression it holds.
pub proof fn law_values_are_read_as_json(value: SerializedNixExpression, text: String)
    ensures
        value.expression_text() == "(builtins.fromJSON "@ + value.literal() + ")"@,
        text.expression_text() == text@,
{
}

} // verus!
