//! Text as the engine needs it: lowercase forms and the comparison of
//! names without regard to case, the words of a line, and lists written
//! out entry by entry.

use vstd::prelude::*;
use vstd::string::*;
use crate::search::{first_true, lemma_first_true_is};

verus! {

/// The lowercase form of a text, as the standard library computes it.
pub uninterp spec fn lowercase(s: Seq<char>) -> Seq<char>;

/// Two texts name the same thing when their lowercase forms are equal.
pub open spec fn same_name(a: Seq<char>, b: Seq<char>) -> bool {
    lowercase(a) == lowercase(b)
}

/// Calls `str::to_lowercase`. The result is the lowercase equivalent of the
/// argument; it depends on the characters of the argument alone, so the
/// contract gives it the name `lowercase`.
#[verifier::external_body]
pub(crate) fn to_lower(s: &str) -> (r: String)
    ensures
        r@ == lowercase(s@),
{
    s.to_lowercase()
}

/// A text without the whitespace at its two ends, as the standard library
/// computes it.
pub uninterp spec fn trimmed(s: Seq<char>) -> Seq<char>;

/// The words of a text: its parts between whitespace, in order, as the
/// standard library computes them.
pub uninterp spec fn words(s: Seq<char>) -> Seq<Seq<char>>;

/// Calls `str::trim`. The result is the argument without its leading and
/// trailing whitespace; it depends on the characters of the argument
/// alone, so the contract gives it the name `trimmed`.
#[verifier::external_body]
pub(crate) fn trim(s: &str) -> (r: &str)
    ensures
        r@ == trimmed(s@),
{
    s.trim()
}

/// Calls `str::split_whitespace` and collects what it yields. The result
/// holds the parts of the argument between whitespace, in order; it depends
/// on the characters of the argument alone, so the contract gives it the
/// name `words`.
#[verifier::external_body]
pub(crate) fn split_words(s: &str) -> (r: Vec<String>)
    ensures
        names(r@) == words(s@),
{
    s.split_whitespace().map(String::from).collect()
}

/// Compares two texts without regard to case.
pub fn eq_ignore_case(a: &str, b: &str) -> (r: bool)
    ensures
        r == same_name(a@, b@),
{
    let la = to_lower(a);
    let lb = to_lower(b);
    la == lb
}

/// Whether a text equals a given literal, character for character.
pub fn is_text(s: &String, literal: &str) -> (r: bool)
    ensures
        r == (s@ == literal@),
{
    let other = String::from_str(literal);
    *s == other
}

/// What a list of owned texts holds, text by text.
pub open spec fn names(v: Seq<String>) -> Seq<Seq<char>> {
    Seq::new(v.len(), |i: int| v[i]@)
}

/// For each entry of `items`, whether it names the same thing as `name`.
pub open spec fn name_hits(items: Seq<Seq<char>>, name: Seq<char>) -> Seq<bool> {
    Seq::new(items.len(), |i: int| same_name(items[i], name))
}

/// The index of the first entry of `items` that names the same thing as
/// `name`, or the length of `items` where there is none.
pub open spec fn first_match(items: Seq<Seq<char>>, name: Seq<char>) -> int {
    first_true(name_hits(items, name))
}

/// Whether some entry of `items` names the same thing as `name`.
pub open spec fn has_name(items: Seq<Seq<char>>, name: Seq<char>) -> bool {
    first_match(items, name) < items.len()
}

/// Finds the first entry of `items` that names the same thing as `name`.
pub fn find_name(items: &Vec<String>, name: &str) -> (r: usize)
    ensures
        r == first_match(names(items@), name@),
        r <= items.len(),
{
    let mut i: usize = 0;
    while i < items.len()
        invariant
            i <= items.len(),
            forall|j: int| 0 <= j < i ==> !#[trigger] name_hits(names(items@), name@)[j],
        decreases items.len() - i,
    {
        if eq_ignore_case(items[i].as_str(), name) {
            proof {
                lemma_first_true_is(name_hits(names(items@), name@), i as int);
            }
            return i;
        }
        i += 1;
    }
    proof {
        lemma_first_true_is(name_hits(names(items@), name@), i as int);
    }
    i
}

/// The entries of `items` written one after another, each between `before`
/// and `after`.
pub open spec fn listing(items: Seq<Seq<char>>, before: Seq<char>, after: Seq<char>) -> Seq<char>
    decreases items.len(),
{
    if items.len() == 0 {
        Seq::empty()
    } else {
        listing(items.drop_last(), before, after) + before + items.last() + after
    }
}

/// Writes each entry of `items` to the end of `out`, between `before` and
/// `after`.
pub fn append_each(out: &mut String, items: &Vec<String>, before: &str, after: &str)
    ensures
        final(out)@ == old(out)@ + listing(names(items@), before@, after@),
{
    let mut i: usize = 0;
    assert(names(items@).take(0) =~= Seq::empty());
    assert(out@ =~= old(out)@ + Seq::empty());
    while i < items.len()
        invariant
            i <= items.len(),
            out@ == old(out)@ + listing(names(items@).take(i as int), before@, after@),
        decreases items.len() - i,
    {
        proof {
            let next = names(items@).take(i + 1);
            assert(next.drop_last() =~= names(items@).take(i as int));
            assert(next.last() == items@[i as int]@);
        }
        out.append(before);
        out.append(items[i].as_str());
        out.append(after);
        assert(out@ =~= old(out)@ + listing(names(items@).take(i + 1), before@, after@));
        i += 1;
    }
    assert(names(items@).take(i as int) =~= names(items@));
}

/// The entries of `parts` written one after another, with `sep` between
/// each two.
pub open spec fn joined(parts: Seq<Seq<char>>, sep: Seq<char>) -> Seq<char>
    decreases parts.len(),
{
    if parts.len() == 0 {
        Seq::empty()
    } else if parts.len() == 1 {
        parts[0]
    } else {
        joined(parts.drop_last(), sep) + sep + parts.last()
    }
}

/// Joins the entries of `parts` from index `start` on, with `sep` between
/// each two.
pub fn join_from(parts: &Vec<String>, start: usize, sep: &str) -> (r: String)
    requires
        start <= parts.len(),
    ensures
        r@ == joined(names(parts@).skip(start as int), sep@),
{
    let mut out = String::new();
    let ghost rest = names(parts@).skip(start as int);
    let mut i: usize = start;
    assert(rest.take(0) =~= Seq::empty());
    while i < parts.len()
        invariant
            start <= i <= parts.len(),
            rest == names(parts@).skip(start as int),
            out@ == joined(rest.take(i - start), sep@),
        decreases parts.len() - i,
    {
        proof {
            let next = rest.take(i - start + 1);
            assert(next.drop_last() =~= rest.take(i - start));
            assert(next.last() == parts@[i as int]@);
        }
        if i > start {
            out.append(sep);
        }
        out.append(parts[i].as_str());
        assert(out@ =~= joined(rest.take(i - start + 1), sep@));
        i += 1;
    }
    assert(rest.take(i - start) =~= rest);
    out
}

/// Whether `part` stands somewhere in `text`, character for character.
pub open spec fn contains(text: Seq<char>, part: Seq<char>) -> bool {
    exists|i: int|
        0 <= i <= text.len() - part.len() && #[trigger] text.subrange(i, i + part.len()) == part
}

/// What stands between two texts stands in the whole.
pub proof fn lemma_contains_middle(before: Seq<char>, part: Seq<char>, after: Seq<char>)
    ensures
        contains(before + part + after, part),
{
    let text = before + part + after;
    let i = before.len() as int;
    assert(text.subrange(i, i + part.len()) =~= part);
}

/// What stands in a text stands in every text that goes on from it.
pub proof fn lemma_contains_longer(text: Seq<char>, part: Seq<char>, more: Seq<char>)
    requires
        contains(text, part),
    ensures
        contains(text + more, part),
{
    let i = choose|i: int|
        0 <= i <= text.len() - part.len() && #[trigger] text.subrange(i, i + part.len()) == part;
    assert((text + more).subrange(i, i + part.len()) =~= text.subrange(i, i + part.len()));
}

} // verus!
