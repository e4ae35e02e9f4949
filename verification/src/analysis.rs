//! Variant selection and generic-usage analysis.

use vstd::prelude::*;

use crate::model::{GenericParam, GenericParamView, TypeRef, TypeRefView, Variant, VariantView};

verus! {

/// Index of the first variant at or after `i` that carries the marker.
pub open spec fn first_marked_from(variants: Seq<VariantView>, i: int) -> Option<int>
    decreases variants.len() - i,
{
    if i < 0 || i >= variants.len() {
        None
    } else if variants[i].has_marker {
        Some(i)
    } else {
        first_marked_from(variants, i + 1)
    }
}

/// Which variant becomes the default: the first variant carrying the
/// marker, else the first variant declared; none if there are no variants.
pub open spec fn selected_index(variants: Seq<VariantView>) -> Option<int> {
    match first_marked_from(variants, 0) {
        Some(i) => Some(i),
        None => if variants.len() > 0 {
            Some(0)
        } else {
            None
        },
    }
}

/// The selected index is in range and, when it is not 0, it points at the
/// first marked variant, so nothing before it is marked.
pub proof fn lemma_first_marked_from_properties(variants: Seq<VariantView>, i: int)
    requires
        0 <= i <= variants.len(),
    ensures
        match first_marked_from(variants, i) {
            Some(k) => i <= k < variants.len() && variants[k].has_marker && forall|j: int|
                i <= j < k ==> !variants[j].has_marker,
            None => forall|j: int| i <= j < variants.len() ==> !variants[j].has_marker,
        },
    decreases variants.len() - i,
{
    if i < variants.len() && !variants[i].has_marker {
        lemma_first_marked_from_properties(variants, i + 1);
    }
}

/// Scans the variants in declaration order and returns the index of the
/// variant the default generator must use: the first marked variant, else
/// the first variant; `None` exactly when the declaration has no variants.
pub fn select_variant(variants: &Vec<Variant>) -> (r: Option<usize>)
    ensures
        match r {
            Some(i) => i < variants.len() && selected_index(variants.deep_view()) == Some(
                i as int,
            ),
            None => variants.len() == 0,
        },
        r is Some <==> variants.len() > 0,
{
    let ghost vs = variants.deep_view();
    let mut i: usize = 0;
    while i < variants.len()
        invariant
            0 <= i <= variants.len(),
            vs == variants.deep_view(),
            vs.len() == variants.len(),
            first_marked_from(vs, 0) == first_marked_from(vs, i as int),
        decreases variants.len() - i,
    {
        if variants[i].has_marker {
            assert(first_marked_from(vs, i as int) == Some(i as int));
            return Some(i);
        }
        assert(first_marked_from(vs, i as int) == first_marked_from(vs, i + 1));
        i = i + 1;
    }
    assert(first_marked_from(vs, vs.len() as int) is None);
    if variants.len() > 0 {
        Some(0)
    } else {
        None
    }
}

/// Whether this payload slot's type is exactly the named type.
pub open spec fn is_bare_named(t: TypeRefView, n: Seq<char>) -> bool {
    match t {
        TypeRefView::Bare(s) => s == n,
        TypeRefView::Other(_) => false,
    }
}

/// Whether some payload slot of the variant uses the named type bare,
/// i.e. as the slot's entire type. A compound type that merely embeds
/// the name does not count.
pub open spec fn uses_bare(v: VariantView, n: Seq<char>) -> bool {
    exists|j: int| 0 <= j < v.payload.len() && is_bare_named(#[trigger] v.payload[j], n)
}

fn slot_is_named(t: &TypeRef, n: &String) -> (r: bool)
    ensures
        r == is_bare_named(t.deep_view(), n@),
{
    match t {
        TypeRef::Bare(s) => *s == *n,
        TypeRef::Other(_) => false,
    }
}

/// Scans the variant's payload slots for a bare use of the named type.
pub fn variant_uses_param(v: &Variant, name: &String) -> (r: bool)
    ensures
        r == uses_bare(v.deep_view(), name@),
{
    let ghost pv = v.deep_view().payload;
    let mut j: usize = 0;
    while j < v.payload.len()
        invariant
            0 <= j <= v.payload.len(),
            pv == v.deep_view().payload,
            pv.len() == v.payload.len(),
            forall|k: int| 0 <= k < j ==> !is_bare_named(#[trigger] pv[k], name@),
        decreases v.payload.len() - j,
    {
        if slot_is_named(&v.payload[j], name) {
            assert(is_bare_named(pv[j as int], name@));
            return true;
        }
        j = j + 1;
    }
    false
}

/// The generic parameters the selected variant's payload uses bare, as an
/// ordered sequence of their identifiers: generic-parameter declaration
/// order, one entry per parameter however many slots use it.
pub open spec fn used_params(generics: Seq<GenericParamView>, v: VariantView) -> Seq<Seq<char>>
    decreases generics.len(),
{
    if generics.len() == 0 {
        Seq::empty()
    } else {
        let rest = used_params(generics.drop_last(), v);
        if uses_bare(v, generics.last().name) {
            rest.push(generics.last().name)
        } else {
            rest
        }
    }
}

/// A name is among the used parameters exactly when it names a declared
/// generic parameter and the variant uses it bare.
pub proof fn lemma_used_params_contains(
    generics: Seq<GenericParamView>,
    v: VariantView,
    n: Seq<char>,
)
    ensures
        used_params(generics, v).contains(n) <==> ((exists|k: int|
            0 <= k < generics.len() && #[trigger] generics[k].name == n) && uses_bare(v, n)),
    decreases generics.len(),
{
    if generics.len() > 0 {
        let rest = used_params(generics.drop_last(), v);
        lemma_used_params_contains(generics.drop_last(), v, n);
        if uses_bare(v, generics.last().name) {
            let whole = rest.push(generics.last().name);
            assert forall|x: Seq<char>| whole.contains(x) implies rest.contains(x) || x
                == generics.last().name by {
                let w = choose|w: int| 0 <= w < whole.len() && whole[w] == x;
                if w < rest.len() {
                    assert(rest[w] == x);
                }
            }
            assert(whole.contains(generics.last().name)) by {
                assert(whole[whole.len() - 1] == generics.last().name);
            }
            if rest.contains(n) {
                assert(whole.contains(n)) by {
                    let w = choose|w: int| 0 <= w < rest.len() && rest[w] == n;
                    assert(whole[w] == n);
                }
            }
        }
        if (exists|k: int| 0 <= k < generics.len() && #[trigger] generics[k].name == n)
            && uses_bare(v, n) {
            let k = choose|k: int| 0 <= k < generics.len() && #[trigger] generics[k].name == n;
            if k < generics.len() - 1 {
                assert(generics.drop_last()[k].name == n);
            }
        }
        assert forall|k: int|
            0 <= k < generics.drop_last().len() && #[trigger] generics.drop_last()[k].name
                == n implies generics[k].name == n by {}
    }
}

/// Pairwise-distinct names.
pub open spec fn distinct_names(names: Seq<Seq<char>>) -> bool {
    forall|i: int, j: int| 0 <= i < j < names.len() ==> names[i] != names[j]
}

/// Distinct generic parameters give a used-parameter list with no
/// duplicate: each used parameter appears exactly once.
pub proof fn lemma_used_params_distinct(generics: Seq<GenericParamView>, v: VariantView)
    requires
        crate::model::distinct_param_names(generics),
    ensures
        distinct_names(used_params(generics, v)),
    decreases generics.len(),
{
    if generics.len() > 0 {
        let prefix = generics.drop_last();
        assert(crate::model::distinct_param_names(prefix)) by {
            assert forall|i: int, j: int| 0 <= i < j < prefix.len() implies prefix[i].name
                != prefix[j].name by {
                assert(generics[i].name != generics[j].name);
            }
        }
        lemma_used_params_distinct(prefix, v);
        let rest = used_params(prefix, v);
        if uses_bare(v, generics.last().name) {
            lemma_used_params_contains(prefix, v, generics.last().name);
            assert(!rest.contains(generics.last().name)) by {
                if exists|k: int| 0 <= k < prefix.len() && #[trigger] prefix[k].name
                    == generics.last().name {
                    let k = choose|k: int|
                        0 <= k < prefix.len() && #[trigger] prefix[k].name
                            == generics.last().name;
                    assert(generics[k].name == generics.last().name);
                    assert(generics[k].name != generics[generics.len() - 1].name);
                }
            }
            let whole = rest.push(generics.last().name);
            assert forall|i: int, j: int| 0 <= i < j < whole.len() implies whole[i]
                != whole[j] by {
                if j < whole.len() - 1 {
                    assert(whole[i] == rest[i] && whole[j] == rest[j]);
                } else {
                    assert(whole[i] == rest[i]);
                    assert(rest.contains(rest[i]));
                }
            }
        }
    }
}

/// Computes the used generic parameters of the selected variant: those
/// whose identifier is the entire type of at least one payload slot, in
/// generic-parameter declaration order, each at most once.
pub fn analyze_generics(generics: &Vec<GenericParam>, v: &Variant) -> (r: Vec<String>)
    ensures
        r.deep_view() == used_params(generics.deep_view(), v.deep_view()),
{
    let ghost gv = generics.deep_view();
    let mut r: Vec<String> = Vec::new();
    let mut i: usize = 0;
    while i < generics.len()
        invariant
            0 <= i <= generics.len(),
            gv == generics.deep_view(),
            gv.len() == generics.len(),
            r.deep_view() == used_params(gv.take(i as int), v.deep_view()),
        decreases generics.len() - i,
    {
        let ghost prev = r.deep_view();
        if variant_uses_param(v, &generics[i].name) {
            r.push(generics[i].name.clone());
        }
        proof {
            let t = gv.take(i + 1);
            assert(t.drop_last() =~= gv.take(i as int));
            assert(t.last() == gv[i as int]);
            assert(gv[i as int].name == generics[i as int].deep_view().name);
            if uses_bare(v.deep_view(), gv[i as int].name) {
                assert(r.deep_view() =~= prev.push(gv[i as int].name));
            }
        }
        i = i + 1;
    }
    proof {
        assert(gv.take(gv.len() as int) =~= gv);
    }
    r
}

} // verus!
