//! Unix paths in text.

use vstd::prelude::*;

use crate::list;
use crate::text;

verus! {

broadcast use list::lemma_texts_push;

/// The components of an absolute path: what stands between its slashes, but
/// for empty pieces and single dots.
pub open spec fn components(path: Seq<char>) -> Seq<Seq<char>>
    decreases path.len(),
{
    if path.len() == 0 {
        Seq::empty()
    } else {
        let n = text::until(path, '/');
        if 0 <= n < path.len() {
            component(path.take(n)) + components(path.skip(n + 1))
        } else {
            component(path)
        }
    }
}

/// The component a piece between two slashes stands for, if any.
pub open spec fn component(piece: Seq<char>) -> Seq<Seq<char>> {
    if piece.len() == 0 || piece == seq!['.'] {
        Seq::empty()
    } else {
        seq![piece]
    }
}

/// Returns the components of an absolute path.
pub fn split(path: &str) -> (r: Vec<String>)
    ensures
        list::texts(r@) == components(path@),
{
    let chars: Vec<char> = text::chars_of(path);
    let mut out: Vec<String> = Vec::new();
    let mut i: usize = 0;
    assert(path@.skip(0) =~= path@);
    assert(list::texts(out@) =~= Seq::<Seq<char>>::empty());
    while i < chars.len()
        invariant
            i <= chars.len(),
            chars@ == path@,
            components(path@) =~= list::texts(out@) + components(path@.skip(i as int)),
        decreases chars.len() - i,
    {
        let ghost rest = path@.skip(i as int);
        let n: usize = text::find(&chars, i, '/');
        let end: usize = i + n;
        let piece: String = text::text_between(&chars, i, end);
        assert(piece@ =~= rest.take(n as int));
        let ghost before = list::texts(out@);
        if n > 0 && !(n == 1 && chars[i] == '.') {
            assert(piece@ != seq!['.']) by {
                if piece@ == seq!['.'] {
                    assert(piece@[0] == '.');
                }
            }
            out.push(piece);
        } else if n == 1 {
            assert(piece@ =~= seq!['.']);
        }
        assert(list::texts(out@) =~= before + component(piece@));
        if end < chars.len() {
            assert(rest.skip(n + 1) =~= path@.skip(end + 1));
            i = end + 1;
        } else {
            assert(rest.take(n as int) =~= rest);
            i = end;
            assert(path@.skip(i as int) =~= Seq::<char>::empty());
        }
    }
    assert(path@.skip(i as int) =~= Seq::<char>::empty());
    out
}

/// Returns whether two absolute paths have the same components.
pub fn same(a: &str, b: &str) -> (r: bool)
    ensures
        r == (components(a@) == components(b@)),
{
    let x: Vec<String> = split(a);
    let y: Vec<String> = split(b);
    if x.len() != y.len() {
        assert(list::texts(x@).len() != list::texts(y@).len());
        return false;
    }
    let mut i: usize = 0;
    while i < x.len()
        invariant
            i <= x.len() == y.len(),
            list::texts(x@) == components(a@),
            list::texts(y@) == components(b@),
            forall|j: int| 0 <= j < i ==> list::texts(x@)[j] == list::texts(y@)[j],
        decreases x.len() - i,
    {
        if !text::same_text(x[i].as_str(), y[i].as_str()) {
            assert(list::texts(x@)[i as int] != list::texts(y@)[i as int]);
            return false;
        }
        i = i + 1;
    }
    assert(list::texts(x@) =~= list::texts(y@));
    true
}

/// Whether a text ends with another.
pub open spec fn ends_with(s: Seq<char>, suffix: Seq<char>) -> bool {
    suffix.len() <= s.len() && s.skip(s.len() - suffix.len()) == suffix
}

/// Whether the extension of an absolute path is `drv`: its last component
/// holds more than `.drv` and ends with it.
pub open spec fn is_drv(path: Seq<char>) -> bool {
    let parts = components(path);
    parts.len() > 0 && parts.last().len() > 4 && ends_with(parts.last(), ".drv"@)
}

/// Returns whether the extension of an absolute path is `drv`.
pub fn has_drv_extension(path: &str) -> (r: bool)
    ensures
        r == is_drv(path@),
{
    let parts: Vec<String> = split(path);
    if parts.len() == 0 {
        return false;
    }
    let name: Vec<char> = text::chars_of(parts[parts.len() - 1].as_str());
    let ghost last = components(path@).last();
    assert(name@ == last);
    proof {
        reveal_strlit(".drv");
    }
    if name.len() <= 4 {
        return false;
    }
    let tail: String = text::text_between(&name, name.len() - 4, name.len());
    assert(tail@ =~= last.skip(last.len() - 4));
    text::same_text(tail.as_str(), ".drv")
}

/// A path taken from a directory: below it, unless the path is absolute.
pub open spec fn below(dir: Seq<char>, name: Seq<char>) -> Seq<char> {
    if name.len() > 0 && name[0] == '/' {
        name
    } else if dir.len() == 0 || dir.last() == '/' {
        dir + name
    } else {
        dir + "/"@ + name
    }
}

/// Returns the path `name` taken from a directory.
pub fn join(dir: &str, name: &str) -> (r: String)
    ensures
        r@ == below(dir@, name@),
{
    let chars: Vec<char> = text::chars_of(dir);
    let path: Vec<char> = text::chars_of(name);
    if path.len() > 0 && path[0] == '/' {
        name.to_string()
    } else if chars.len() == 0 || chars[chars.len() - 1] == '/' {
        dir.to_string().concat(name)
    } else {
        dir.to_string().concat("/").concat(name)
    }
}

/// The components of two paths with a slash between them are those of the one
/// and then those of the other.
pub proof fn law_components_join_at_a_slash(a: Seq<char>, b: Seq<char>)
    ensures
        components(a + seq!['/'] + b) == components(a) + components(b),
    decreases a.len(),
{
    let all = a + seq!['/'] + b;
    text::lemma_until(a, '/');
    let n = text::until(a, '/');
    assert(all[a.len() as int] == '/');
    if n < a.len() {
        assert forall|i: int| 0 <= i < n implies all[i] != '/' by {
            assert(all[i] == a[i]);
        }
        assert(all[n] == a[n]);
        text::lemma_until_is(all, '/', n);
        let rest = a.skip(n + 1);
        law_components_join_at_a_slash(rest, b);
        assert(all.take(n) =~= a.take(n));
        assert(all.skip(n + 1) =~= rest + seq!['/'] + b);
        assert(components(all) =~= components(a) + components(b));
    } else {
        assert forall|i: int| 0 <= i < n implies all[i] != '/' by {
            assert(all[i] == a[i]);
        }
        text::lemma_until_is(all, '/', n);
        assert(all.take(n) =~= a);
        assert(all.skip(n + 1) =~= b);
        if a.len() == 0 {
            assert(components(all) =~= components(a) + components(b));
        }
    }
}

/// A name without slashes is one component, but for the empty one and a
/// single dot, which are none.
pub proof fn law_a_name_is_one_component(name: Seq<char>)
    requires
        !name.contains('/'),
    ensures
        name.len() > 0 && name != seq!['.'] ==> components(name) == seq![name],
        name.len() == 0 || name == seq!['.'] ==> components(name).len() == 0,
{
    assert forall|i: int| 0 <= i < name.len() implies name[i] != '/' by {
        if name[i] == '/' {
            assert(name.contains('/'));
        }
    }
    text::lemma_until_is(name, '/', name.len() as int);
}

/// A file is a derivation exactly if something comes before the `.drv` that
/// its name ends with, whatever directory it is in.
pub proof fn law_derivations_are_named_drv(dir: Seq<char>, name: Seq<char>)
    requires
        name.len() > 0,
        name != seq!['.'],
        !name.contains('/'),
    ensures
        is_drv(dir + seq!['/'] + name) <==> name.len() > 4 && name.skip(name.len() - 4) == seq![
            '.',
            'd',
            'r',
            'v',
        ],
{
    reveal_strlit(".drv");
    assert(".drv"@ =~= seq!['.', 'd', 'r', 'v']);
    law_components_join_at_a_slash(dir, name);
    law_a_name_is_one_component(name);
    assert((components(dir) + seq![name]).last() == name);
}

/// A relative path goes below a directory after exactly one slash, and an
/// absolute path stays as it is.
pub proof fn law_relative_paths_go_below(dir: Seq<char>, name: Seq<char>)
    requires
        name.len() > 0,
    ensures
        name[0] == '/' ==> below(dir, name) == name,
        name[0] != '/' && dir.len() > 0 && dir.last() != '/' ==> below(dir, name) == dir + seq!['/']
            + name,
        name[0] != '/' ==> below(dir.push('/'), name) == dir.push('/') + name,
        name[0] != '/' ==> below(Seq::empty(), name) == name,
{
    reveal_strlit("/");
    assert("/"@ =~= seq!['/']);
    assert(Seq::<char>::empty() + name =~= name);
}

} // verus!
