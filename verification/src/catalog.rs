//! The static category catalog: the category/subcategory hierarchy as
//! configured, and the lookup that associates posts with subcategories.
//! Association is equality on the optional subcategory id — `None` is the
//! distinguished "uncategorized" bucket, addressed from the outside by the
//! literal token `uncategorized`.
use vstd::prelude::*;

use crate::types::{Category, CategoryView, Subcategory, SubcategoryView};

verus! {

/// The sole post-to-category association rule: a post's category field must
/// equal the subcategory's id, `None` matching `None`.
pub open spec fn spec_subcategory_matches(id: Option<Seq<char>>, requested: Option<Seq<char>>) -> bool {
    id == requested
}

/// What a request-level identifier token denotes: the literal token
/// `uncategorized` addresses the `None` bucket, anything else names itself.
pub open spec fn spec_token_to_id(token: Seq<char>) -> Option<Seq<char>> {
    if token == "uncategorized"@ {
        None
    } else {
        Some(token)
    }
}

/// Turns a request-level identifier token into a subcategory id.
pub fn token_to_id(token: &str) -> (r: Option<String>)
    ensures
        r.deep_view() == spec_token_to_id(token@),
{
    let t = String::from_str(token);
    let uncategorized = String::from_str("uncategorized");
    if t == uncategorized {
        None
    } else {
        Some(t)
    }
}

pub(crate) fn opt_string_eq(a: &Option<String>, b: &Option<String>) -> (r: bool)
    ensures
        r == (a.deep_view() == b.deep_view()),
{
    match (a, b) {
        (None, None) => true,
        (Some(x), Some(y)) => *x == *y,
        _ => false,
    }
}

// ---------------------------------------------------------------------------
// Lookup
// ---------------------------------------------------------------------------

/// The subcategory of `subs` matching `id`, the last match winning.
pub open spec fn spec_lookup_sub(subs: Seq<SubcategoryView>, id: Option<Seq<char>>) -> Option<
    SubcategoryView,
>
    decreases subs.len(),
{
    if subs.len() == 0 {
        None
    } else if spec_subcategory_matches(subs.last().id, id) {
        Some(subs.last())
    } else {
        spec_lookup_sub(subs.drop_last(), id)
    }
}

/// The (category, subcategory) pair matching `id` across the whole catalog,
/// scanning every category and every subcategory, the last match winning.
pub open spec fn spec_lookup(cats: Seq<CategoryView>, id: Option<Seq<char>>) -> Option<
    (CategoryView, SubcategoryView),
>
    decreases cats.len(),
{
    if cats.len() == 0 {
        None
    } else {
        match spec_lookup_sub(cats.last().subcategories, id) {
            Some(sc) => Some((cats.last(), sc)),
            None => spec_lookup(cats.drop_last(), id),
        }
    }
}

fn lookup_sub(subs: &Vec<Subcategory>, id: &Option<String>) -> (r: Option<Subcategory>)
    ensures
        r.deep_view() == spec_lookup_sub(subs.deep_view(), id.deep_view()),
{
    let mut r: Option<Subcategory> = None;
    let mut i: usize = 0;
    while i < subs.len()
        invariant
            0 <= i <= subs@.len(),
            subs.deep_view().len() == subs@.len(),
            r.deep_view() == spec_lookup_sub(subs.deep_view().take(i as int), id.deep_view()),
        decreases subs@.len() - i,
    {
        proof {
            assert(subs.deep_view()[i as int] == subs@[i as int]@);
            assert(subs.deep_view().take(i + 1).drop_last() =~= subs.deep_view().take(i as int));
            assert(subs.deep_view().take(i + 1).last() == subs.deep_view()[i as int]);
        }
        if opt_string_eq(&subs[i].id, id) {
            r = Some(subs[i].cloned());
        }
        i += 1;
    }
    proof {
        assert(subs.deep_view().take(subs@.len() as int) =~= subs.deep_view());
    }
    r
}

/// Finds the category and subcategory a request addresses, by subcategory
/// id. `None` when no subcategory of any category carries the id.
pub fn lookup_subcategory(cats: &Vec<Category>, id: &Option<String>) -> (r: Option<
    (Category, Subcategory),
>)
    ensures
        r.deep_view() == spec_lookup(cats.deep_view(), id.deep_view()),
{
    let mut r: Option<(Category, Subcategory)> = None;
    let mut i: usize = 0;
    while i < cats.len()
        invariant
            0 <= i <= cats@.len(),
            cats.deep_view().len() == cats@.len(),
            r.deep_view() == spec_lookup(cats.deep_view().take(i as int), id.deep_view()),
        decreases cats@.len() - i,
    {
        proof {
            assert(cats.deep_view()[i as int] == cats@[i as int]@);
            assert(cats.deep_view().take(i + 1).drop_last() =~= cats.deep_view().take(i as int));
            assert(cats.deep_view().take(i + 1).last() == cats.deep_view()[i as int]);
        }
        if let Some(sc) = lookup_sub(&cats[i].subcategories, id) {
            r = Some((cats[i].cloned(), sc));
        }
        i += 1;
    }
    proof {
        assert(cats.deep_view().take(cats@.len() as int) =~= cats.deep_view());
    }
    r
}

// ---------------------------------------------------------------------------
// Laws
// ---------------------------------------------------------------------------

/// The `uncategorized` token matches exactly the subcategories whose id is
/// `None`, and no other.
pub proof fn lemma_uncategorized_matches_none_only(sc: SubcategoryView)
    ensures
        spec_subcategory_matches(sc.id, spec_token_to_id("uncategorized"@)) <==> sc.id is None,
{
}

/// A token other than `uncategorized` never addresses the `None` bucket: it
/// matches exactly the subcategories carrying that token as their id.
pub proof fn lemma_named_token_matches(sc: SubcategoryView, token: Seq<char>)
    requires
        token != "uncategorized"@,
    ensures
        spec_subcategory_matches(sc.id, spec_token_to_id(token)) <==> sc.id == Some(token),
{
}

/// What lookup yields always satisfies the association rule: a hit carries
/// the requested id, and there is a hit exactly when some subcategory
/// carries it.
pub proof fn lemma_lookup_sub_sound(subs: Seq<SubcategoryView>, id: Option<Seq<char>>)
    ensures
        spec_lookup_sub(subs, id) matches Some(sc) ==> sc.id == id && subs.contains(sc),
        spec_lookup_sub(subs, id) is Some <==> exists|i: int|
            0 <= i < subs.len() && #[trigger] subs[i].id == id,
    decreases subs.len(),
{
    if subs.len() > 0 {
        lemma_lookup_sub_sound(subs.drop_last(), id);
        if spec_subcategory_matches(subs.last().id, id) {
            assert(subs[subs.len() - 1].id == id);
        } else {
            if spec_lookup_sub(subs.drop_last(), id) is Some {
                let sc = spec_lookup_sub(subs.drop_last(), id)->0;
                assert(subs.drop_last().contains(sc));
                let j = choose|j: int|
                    0 <= j < subs.drop_last().len() && subs.drop_last()[j] == sc;
                assert(subs[j] == sc);
            }
            if exists|i: int| 0 <= i < subs.len() && #[trigger] subs[i].id == id {
                let i = choose|i: int| 0 <= i < subs.len() && #[trigger] subs[i].id == id;
                assert(i < subs.len() - 1);
                assert(subs.drop_last()[i].id == id);
            }
        }
    }
}

} // verus!
