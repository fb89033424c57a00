//! Small verified string helpers shared across the engine.

use vstd::prelude::*;

verus! {

/// Whether the text is blank: empty once leading and trailing whitespace is
/// removed.  A function of the text alone.
pub uninterp spec fn blank_of(s: Seq<char>) -> bool;

/// Relies on `str::trim` and `str::is_empty`: whether the text is empty or
/// all whitespace.  Empty text is blank.
#[verifier::external_body]
pub(crate) fn str_is_blank(s: &str) -> (r: bool)
    ensures
        r == blank_of(s@),
        s@.len() == 0 ==> r,
{
    s.trim().is_empty()
}

/// The Unicode uppercase mapping of a text, as `str::to_uppercase` defines
/// it.  Case folding is a function of the characters alone.
pub uninterp spec fn upper_of(s: Seq<char>) -> Seq<char>;

/// Relies on `str::to_uppercase`: the Unicode uppercase mapping of the
/// text.
#[verifier::external_body]
pub(crate) fn to_uppercase(s: &str) -> (r: String)
    ensures
        r@ == upper_of(s@),
{
    s.to_uppercase()
}

/// Character-wise string equality, so that comparisons of `&str` values can
/// be reasoned about through their views.
pub fn str_eq(a: &str, b: &str) -> (r: bool)
    ensures
        r == (a@ == b@),
{
    let la = a.unicode_len();
    let lb = b.unicode_len();
    if la != lb {
        proof {
            if a@ == b@ {
                assert(a@.len() == b@.len());
            }
        }
        return false;
    }
    let mut i: usize = 0;
    while i < la
        invariant
            la == a@.len(),
            la == b@.len(),
            i <= la,
            forall|k: int| 0 <= k < i ==> a@[k] == b@[k],
        decreases la - i,
    {
        if a.get_char(i) != b.get_char(i) {
            return false;
        }
        i = i + 1;
    }
    proof {
        assert(a@ =~= b@);
    }
    true
}

/// The concatenation of `items` with `sep` between consecutive elements.
pub open spec fn spec_join(items: Seq<Seq<char>>, sep: Seq<char>) -> Seq<char>
    decreases items.len(),
{
    if items.len() == 0 {
        Seq::empty()
    } else if items.len() == 1 {
        items[0]
    } else {
        spec_join(items.drop_last(), sep) + sep + items.last()
    }
}

/// Joins the items with the separator, as the catalog and error renderers
/// present lists of names.
pub fn join_with(items: &Vec<String>, sep: &str) -> (r: String)
    ensures
        r@ == spec_join(items@.map_values(|s: String| s@), sep@),
{
    let ghost model = items@.map_values(|s: String| s@);
    let mut r = String::new();
    let mut i: usize = 0;
    while i < items.len()
        invariant
            model == items@.map_values(|s: String| s@),
            i <= items@.len(),
            r@ == spec_join(model.subrange(0, i as int), sep@),
        decreases items@.len() - i,
    {
        if i > 0 {
            r.append(sep);
        }
        r.append(items[i].as_str());
        i = i + 1;
        proof {
            let prefix = model.subrange(0, i as int);
            assert(prefix.drop_last() =~= model.subrange(0, i - 1));
            assert(prefix.last() == model[i - 1]);
        }
    }
    proof {
        assert(model.subrange(0, items@.len() as int) =~= model);
    }
    r
}

} // verus!
