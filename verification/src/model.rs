//! The declaration model: a structural view of one tagged-union
//! declaration, plus the ghost views the contracts are stated over.

use vstd::prelude::*;

verus! {

/// One payload slot's type, as the analysis sees it.
///
/// The analysis only ever distinguishes a slot whose type is exactly one
/// named type (possibly one of the declaration's own generic parameters)
/// from any other, compound type. Either way the source text of the type
/// is carried along verbatim so a generated impl can default the slot.
#[derive(Debug, Clone, PartialEq, Eq)]
pub enum TypeRef {
    /// The slot's type is exactly the named type, e.g. `T` or `u64`.
    Bare(String),
    /// Any parameterized or otherwise compound type, e.g. `Vec<T>`,
    /// carried as its source text and opaque to the analysis.
    Other(String),
}

/// Ghost view of a [`TypeRef`]: the same shape over character sequences.
pub enum TypeRefView {
    Bare(Seq<char>),
    Other(Seq<char>),
}

impl DeepView for TypeRef {
    type V = TypeRefView;

    open spec fn deep_view(&self) -> TypeRefView {
        match self {
            TypeRef::Bare(s) => TypeRefView::Bare(s@),
            TypeRef::Other(s) => TypeRefView::Other(s@),
        }
    }
}

/// One generic type parameter of a declaration: its identifier and its
/// inline bounds (capability names), restated verbatim in generated impls.
#[derive(Debug, Clone, PartialEq, Eq)]
pub struct GenericParam {
    pub name: String,
    pub bounds: Vec<String>,
}

/// Ghost view of a [`GenericParam`].
pub struct GenericParamView {
    pub name: Seq<char>,
    pub bounds: Seq<Seq<char>>,
}

impl DeepView for GenericParam {
    type V = GenericParamView;

    open spec fn deep_view(&self) -> GenericParamView {
        GenericParamView { name: self.name@, bounds: self.bounds.deep_view() }
    }
}

/// One variant of a tagged union: its name, whether it carries the
/// default-marker attribute, and its ordered payload slots.
#[derive(Debug, Clone, PartialEq, Eq)]
pub struct Variant {
    pub name: String,
    pub has_marker: bool,
    pub payload: Vec<TypeRef>,
}

/// Ghost view of a [`Variant`].
pub struct VariantView {
    pub name: Seq<char>,
    pub has_marker: bool,
    pub payload: Seq<TypeRefView>,
}

impl DeepView for Variant {
    type V = VariantView;

    open spec fn deep_view(&self) -> VariantView {
        VariantView {
            name: self.name@,
            has_marker: self.has_marker,
            payload: self.payload.deep_view(),
        }
    }
}

/// One constraint clause (`subject: capability + capability + ...`) of a
/// declaration's explicit constraint list, or of a generated impl.
#[derive(Debug, Clone, PartialEq, Eq)]
pub struct ConstraintClause {
    pub subject: TypeRef,
    pub capabilities: Vec<String>,
}

/// Ghost view of a [`ConstraintClause`].
pub struct ConstraintClauseView {
    pub subject: TypeRefView,
    pub capabilities: Seq<Seq<char>>,
}

impl DeepView for ConstraintClause {
    type V = ConstraintClauseView;

    open spec fn deep_view(&self) -> ConstraintClauseView {
        ConstraintClauseView {
            subject: self.subject.deep_view(),
            capabilities: self.capabilities.deep_view(),
        }
    }
}

/// One tagged-union declaration: name, generic parameters, explicit
/// constraint clauses (possibly empty), and ordered variants.
#[derive(Debug, Clone, PartialEq, Eq)]
pub struct Declaration {
    pub name: String,
    pub generics: Vec<GenericParam>,
    pub constraints: Vec<ConstraintClause>,
    pub variants: Vec<Variant>,
}

/// Ghost view of a [`Declaration`].
pub struct DeclarationView {
    pub name: Seq<char>,
    pub generics: Seq<GenericParamView>,
    pub constraints: Seq<ConstraintClauseView>,
    pub variants: Seq<VariantView>,
}

impl DeepView for Declaration {
    type V = DeclarationView;

    open spec fn deep_view(&self) -> DeclarationView {
        DeclarationView {
            name: self.name@,
            generics: self.generics.deep_view(),
            constraints: self.constraints.deep_view(),
            variants: self.variants.deep_view(),
        }
    }
}

/// The host language guarantees that the generic parameters of one
/// declaration have pairwise distinct identifiers; the model assumes it
/// rather than re-checking it.
pub open spec fn distinct_param_names(generics: Seq<GenericParamView>) -> bool {
    forall|i: int, j: int|
        0 <= i < j < generics.len() ==> generics[i].name != generics[j].name
}

/// The host language likewise guarantees pairwise distinct variant names.
pub open spec fn distinct_variant_names(variants: Seq<VariantView>) -> bool {
    forall|i: int, j: int|
        0 <= i < j < variants.len() ==> variants[i].name != variants[j].name
}

} // verus!
