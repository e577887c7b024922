//! Lists of strings and their contents.

use vstd::prelude::*;

verus! {

/// The contents of a list of strings.
pub open spec fn texts(list: Seq<String>) -> Seq<Seq<char>> {
    list.map_values(|s: String| s@)
}

/// The contents of a list of string slices.
pub open spec fn strs(list: Seq<&str>) -> Seq<Seq<char>> {
    list.map_values(|s: &str| s@)
}

/// The contents of an optional string.
pub open spec fn opt_text(s: Option<String>) -> Option<Seq<char>> {
    match s {
        Some(s) => Some(s@),
        None => None,
    }
}

/// Appending a string appends its contents.
pub broadcast proof fn lemma_texts_push(list: Seq<String>, s: String)
    ensures
        #[trigger] texts(list.push(s)) == texts(list).push(s@),
{
    assert(texts(list.push(s)) =~= texts(list).push(s@));
}

/// Joining two lists joins their contents.
pub proof fn lemma_texts_add(a: Seq<String>, b: Seq<String>)
    ensures
        texts(a + b) == texts(a) + texts(b),
{
    assert(texts(a + b) =~= texts(a) + texts(b));
}

/// Returns owned copies of a list of string slices.
pub fn owned(list: &[&str]) -> (r: Vec<String>)
    ensures
        texts(r@) == strs(list@),
{
    broadcast use lemma_texts_push;

    let mut out: Vec<String> = Vec::new();
    let mut i: usize = 0;
    while i < list.len()
        invariant
            i <= list.len(),
            texts(out@) == strs(list@).take(i as int),
        decreases list.len() - i,
    {
        out.push(list[i].to_owned());
        i = i + 1;
        assert(strs(list@).take(i as int) =~= strs(list@).take(i - 1).push(list@[i - 1]@));
    }
    assert(strs(list@).take(i as int) =~= strs(list@));
    out
}

/// Returns a copy of a list of strings.
pub fn copied(list: &Vec<String>) -> (r: Vec<String>)
    ensures
        r@ == list@,
{
    let mut out: Vec<String> = Vec::new();
    let mut i: usize = 0;
    while i < list.len()
        invariant
            i <= list.len(),
            out@ == list@.take(i as int),
        decreases list.len() - i,
    {
        out.push(list[i].clone());
        i = i + 1;
        assert(list@.take(i as int) =~= list@.take(i - 1).push(list@[i - 1]));
    }
    assert(list@.take(i as int) =~= list@);
    out
}

/// Appends copies of the strings of `list` to `out`.
pub fn extend(out: &mut Vec<String>, list: &Vec<String>)
    ensures
        final(out)@ == old(out)@ + list@,
        texts(final(out)@) == texts(old(out)@) + texts(list@),
{
    let ghost before = out@;
    let mut more: Vec<String> = copied(list);
    out.append(&mut more);
    proof {
        lemma_texts_add(before, list@);
    }
}

} // verus!
