//! Laws the two generators obey, stated and proved over the model.

use vstd::prelude::*;

use crate::analysis::{
    distinct_names, first_marked_from, lemma_first_marked_from_properties,
    lemma_used_params_contains, selected_index, used_params, uses_bare,
};
use crate::emit::{default_impl_spec, listing_spec};
use crate::model::{
    distinct_variant_names, ConstraintClauseView, DeclarationView, GenericParamView, TypeRefView,
    VariantView,
};
use crate::obligations::{default_capability, propagate_spec, subject_in};

verus! {

/// A declaration with at least one variant and no marker defaults to the
/// first declared variant, with every payload slot of that variant
/// defaulted.
pub proof fn lemma_no_marker_defaults_to_first(d: DeclarationView)
    requires
        d.variants.len() >= 1,
        forall|i: int| 0 <= i < d.variants.len() ==> !(#[trigger] d.variants[i]).has_marker,
    ensures
        default_impl_spec(d) matches Some(g) && g.variant_name == d.variants[0].name
            && g.defaulted_slots == d.variants[0].payload,
{
    lemma_first_marked_from_properties(d.variants, 0);
    assert(first_marked_from(d.variants, 0) is None);
    assert(selected_index(d.variants) == Some(0int));
}

/// A declaration whose only marked variant sits at position `k` defaults
/// to that variant, wherever it is declared, with every payload slot of
/// that variant defaulted.
pub proof fn lemma_marked_variant_is_default(d: DeclarationView, k: int)
    requires
        0 <= k < d.variants.len(),
        d.variants[k].has_marker,
        forall|j: int|
            0 <= j < d.variants.len() && j != k ==> !(#[trigger] d.variants[j]).has_marker,
    ensures
        default_impl_spec(d) matches Some(g) && g.variant_name == d.variants[k].name
            && g.defaulted_slots == d.variants[k].payload,
{
    lemma_first_marked_from_properties(d.variants, 0);
    assert(selected_index(d.variants) == Some(k));
}

/// A declaration with no variants gets no generated default-construction
/// impl at all.
pub proof fn lemma_empty_declaration_skipped(d: DeclarationView)
    requires
        d.variants.len() == 0,
    ensures
        default_impl_spec(d) is None,
{
}

/// Whether some clause of the list names the given subject bare.
pub open spec fn clause_for(clauses: Seq<ConstraintClauseView>, n: Seq<char>) -> bool {
    exists|i: int|
        0 <= i < clauses.len() && (#[trigger] clauses[i]).subject == TypeRefView::Bare(n)
}

/// Whether some clause of the list names the given subject bare and
/// requires default-construction of it.
pub open spec fn requires_default_of(clauses: Seq<ConstraintClauseView>, n: Seq<char>) -> bool {
    exists|i: int|
        0 <= i < clauses.len() && (#[trigger] clauses[i]).subject == TypeRefView::Bare(n)
            && clauses[i].capabilities.contains(default_capability())
}

/// When the selected variant's payload uses a generic parameter bare, the
/// generated impl's constraint list requires default-construction of that
/// parameter — provided the declaration either has no explicit constraint
/// list (one is synthesized) or already has a clause for that parameter
/// (it is augmented). An explicit list with no clause for the parameter
/// gains none: the propagator edits existing clauses only.
pub proof fn lemma_bare_use_requires_default(d: DeclarationView, k: int, sel: int)
    requires
        selected_index(d.variants) == Some(sel),
        0 <= k < d.generics.len(),
        uses_bare(d.variants[sel], d.generics[k].name),
        d.constraints.len() == 0 || clause_for(d.constraints, d.generics[k].name),
    ensures
        default_impl_spec(d) matches Some(g) && requires_default_of(
            g.constraints,
            d.generics[k].name,
        ),
{
    lemma_first_marked_from_properties(d.variants, 0);
    assert(0 <= sel < d.variants.len());
    let n = d.generics[k].name;
    let used = used_params(d.generics, d.variants[sel]);
    lemma_used_params_contains(d.generics, d.variants[sel], n);
    assert(used.contains(n));
    let out = propagate_spec(d.constraints, used);
    if d.constraints.len() == 0 {
        let w = choose|w: int| 0 <= w < used.len() && used[w] == n;
        assert(out[w].subject == TypeRefView::Bare(n));
        assert(out[w].capabilities[0] == default_capability());
        assert(out[w].capabilities.contains(default_capability()));
        assert(requires_default_of(out, n));
    } else {
        let i = choose|i: int|
            0 <= i < d.constraints.len() && (#[trigger] d.constraints[i]).subject
                == TypeRefView::Bare(n);
        assert(subject_in(d.constraints[i].subject, used));
        let caps = out[i].capabilities;
        assert(caps == d.constraints[i].capabilities.push(default_capability()));
        assert(caps[caps.len() - 1] == default_capability());
        assert(caps.contains(default_capability()));
        assert(requires_default_of(out, n));
    }
}

/// A generic parameter that the selected variant uses only inside a
/// compound payload type — never bare as a whole slot — picks up no
/// obligation from the analyzer.
pub proof fn lemma_compound_use_adds_no_obligation(
    generics: Seq<GenericParamView>,
    v: VariantView,
    n: Seq<char>,
)
    requires
        !uses_bare(v, n),
    ensures
        !used_params(generics, v).contains(n),
{
    lemma_used_params_contains(generics, v, n);
}

/// The variant listing of a declaration with `N` variants has length `N`
/// and carries every variant's name exactly once, in declaration order.
pub proof fn lemma_listing_complete(d: DeclarationView)
    requires
        distinct_variant_names(d.variants),
    ensures
        listing_spec(d).variant_names.len() == d.variants.len(),
        forall|i: int|
            0 <= i < d.variants.len() ==> listing_spec(d).variant_names[i] == (
            #[trigger] d.variants[i]).name,
        distinct_names(listing_spec(d).variant_names),
{
}

} // verus!
