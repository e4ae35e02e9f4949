//! Generated-impl assembly, and the two generator pipelines.

use vstd::prelude::*;
use vstd::string::StringExecFns;

use crate::analysis::{analyze_generics, select_variant, selected_index, used_params};
use crate::model::{
    ConstraintClause, ConstraintClauseView, Declaration, DeclarationView, GenericParam,
    GenericParamView, TypeRef, TypeRefView, Variant,
};
use crate::obligations::{propagate, propagate_spec};

verus! {

/// The generated default-construction impl, as a structural value: the
/// target type (name plus its own generic parameter list, restated), the
/// constraint list, and the construction expression — the chosen variant
/// applied to one default-construction call per payload slot, in payload
/// order (no slots for a fieldless variant).
#[derive(Debug, Clone, PartialEq, Eq)]
pub struct GeneratedImpl {
    pub target_name: String,
    pub generics: Vec<GenericParam>,
    pub constraints: Vec<ConstraintClause>,
    pub variant_name: String,
    pub defaulted_slots: Vec<TypeRef>,
}

/// Ghost view of a [`GeneratedImpl`].
pub struct GeneratedImplView {
    pub target_name: Seq<char>,
    pub generics: Seq<GenericParamView>,
    pub constraints: Seq<ConstraintClauseView>,
    pub variant_name: Seq<char>,
    pub defaulted_slots: Seq<TypeRefView>,
}

impl DeepView for GeneratedImpl {
    type V = GeneratedImplView;

    open spec fn deep_view(&self) -> GeneratedImplView {
        GeneratedImplView {
            target_name: self.target_name@,
            generics: self.generics.deep_view(),
            constraints: self.constraints.deep_view(),
            variant_name: self.variant_name@,
            defaulted_slots: self.defaulted_slots.deep_view(),
        }
    }
}

/// The generated variant-listing impl: the target type restated with its
/// generic parameters and its constraint clauses verbatim, and the
/// variant names, in declaration order.
#[derive(Debug, Clone, PartialEq, Eq)]
pub struct VariantListing {
    pub target_name: String,
    pub generics: Vec<GenericParam>,
    pub constraints: Vec<ConstraintClause>,
    pub variant_names: Vec<String>,
}

/// Ghost view of a [`VariantListing`].
pub struct VariantListingView {
    pub target_name: Seq<char>,
    pub generics: Seq<GenericParamView>,
    pub constraints: Seq<ConstraintClauseView>,
    pub variant_names: Seq<Seq<char>>,
}

impl DeepView for VariantListing {
    type V = VariantListingView;

    open spec fn deep_view(&self) -> VariantListingView {
        VariantListingView {
            target_name: self.target_name@,
            generics: self.generics.deep_view(),
            constraints: self.constraints.deep_view(),
            variant_names: self.variant_names.deep_view(),
        }
    }
}

/// The runtime side of the variant-listing generator: the impl rendered
/// from a [`VariantListing`] implements this trait for the declared type.
pub trait EnumVariantsVec {
    fn get_variants() -> Vec<String>;
}

/// The warning raised when a declaration has no variants: advisory only,
/// handed to the host toolchain's diagnostics channel by the caller while
/// the generator produces no output.
#[derive(Debug, Clone, PartialEq, Eq)]
pub struct Diagnostic {
    pub enum_name: String,
}

/// Ghost view of a [`Diagnostic`].
pub struct DiagnosticView {
    pub enum_name: Seq<char>,
}

impl DeepView for Diagnostic {
    type V = DiagnosticView;

    open spec fn deep_view(&self) -> DiagnosticView {
        DiagnosticView { enum_name: self.enum_name@ }
    }
}

/// The human-readable text of the warning.
pub open spec fn diagnostic_message(d: DiagnosticView) -> Seq<char> {
    "No variants available for enum "@ + d.enum_name
}

impl Diagnostic {
    /// Renders the warning for the host toolchain's diagnostics channel.
    pub fn message(&self) -> (r: String)
        ensures
            r@ == diagnostic_message(self.deep_view()),
    {
        String::from_str("No variants available for enum ").concat(self.enum_name.as_str())
    }
}

/// What the default-construction generator produces for a declaration:
/// nothing when there are no variants; otherwise the impl built from the
/// selected variant, the obligations propagated onto the constraint
/// list, and one defaulted slot per payload slot of that variant.
pub open spec fn default_impl_spec(d: DeclarationView) -> Option<GeneratedImplView> {
    match selected_index(d.variants) {
        Some(i) => Some(
            GeneratedImplView {
                target_name: d.name,
                generics: d.generics,
                constraints: propagate_spec(d.constraints, used_params(d.generics, d.variants[i])),
                variant_name: d.variants[i].name,
                defaulted_slots: d.variants[i].payload,
            },
        ),
        None => None,
    }
}

/// What the variant-listing generator produces: the declaration's own
/// generic parameters and constraint clauses verbatim, and every variant
/// name, in declaration order.
pub open spec fn listing_spec(d: DeclarationView) -> VariantListingView {
    VariantListingView {
        target_name: d.name,
        generics: d.generics,
        constraints: d.constraints,
        variant_names: Seq::new(d.variants.len(), |i: int| d.variants[i].name),
    }
}

/// Assembles the generated default-construction impl: the construction
/// expression is the variant applied to one default-construction call per
/// payload slot, in payload order, under the given constraint list.
pub fn emit_default_impl(
    name: String,
    generics: Vec<GenericParam>,
    variant: Variant,
    constraints: Vec<ConstraintClause>,
) -> (g: GeneratedImpl)
    ensures
        g.deep_view() == (GeneratedImplView {
            target_name: name@,
            generics: generics.deep_view(),
            constraints: constraints.deep_view(),
            variant_name: variant.deep_view().name,
            defaulted_slots: variant.deep_view().payload,
        }),
{
    let Variant { name: variant_name, has_marker: _, payload } = variant;
    GeneratedImpl {
        target_name: name,
        generics,
        constraints,
        variant_name,
        defaulted_slots: payload,
    }
}

/// The default-construction generator: selects the default variant
/// (first marked, else first declared), analyzes which generic parameters
/// its payload uses bare, propagates the default-construction obligation,
/// and assembles the generated impl. For a declaration with no variants
/// it produces no impl and hands back the warning instead.
pub fn derive_default(decl: Declaration) -> (r: Result<GeneratedImpl, Diagnostic>)
    ensures
        r is Ok <==> decl.deep_view().variants.len() > 0,
        r matches Ok(g) ==> Some(g.deep_view()) == default_impl_spec(decl.deep_view()),
        r matches Err(w) ==> w.deep_view().enum_name == decl.deep_view().name,
{
    let ghost dv = decl.deep_view();
    let Declaration { name, generics, constraints, variants } = decl;
    let mut variants = variants;
    match select_variant(&variants) {
        None => Err(Diagnostic { enum_name: name }),
        Some(i) => {
            let variant = variants.remove(i);
            proof {
                assert(variant.deep_view() == dv.variants[i as int]);
            }
            let used = analyze_generics(&generics, &variant);
            let constraints = propagate(constraints, &used);
            let g = emit_default_impl(name, generics, variant, constraints);
            proof {
                assert(Some(g.deep_view()) == default_impl_spec(dv));
            }
            Ok(g)
        },
    }
}

/// The variant-listing generator: lists the declaration's variant names,
/// in declaration order, restating its generic parameters and constraint
/// clauses verbatim.
pub fn derive_variants(decl: Declaration) -> (r: VariantListing)
    ensures
        r.deep_view() == listing_spec(decl.deep_view()),
{
    let ghost dv = decl.deep_view();
    let Declaration { name, generics, constraints, variants } = decl;
    let mut names: Vec<String> = Vec::new();
    let mut i: usize = 0;
    while i < variants.len()
        invariant
            0 <= i <= variants.len(),
            dv.variants == variants.deep_view(),
            dv.variants.len() == variants.len(),
            names.deep_view() =~= listing_spec(dv).variant_names.take(i as int),
        decreases variants.len() - i,
    {
        let ghost prev = names.deep_view();
        names.push(variants[i].name.clone());
        proof {
            assert(names.deep_view() =~= prev.push(dv.variants[i as int].name));
            assert(names.deep_view() =~= listing_spec(dv).variant_names.take(i + 1));
        }
        i = i + 1;
    }
    let listing = VariantListing {
        target_name: name,
        generics,
        constraints,
        variant_names: names,
    };
    proof {
        assert(listing.deep_view().variant_names =~= listing_spec(dv).variant_names);
        assert(listing.deep_view() == listing_spec(dv));
    }
    listing
}

} // verus!
