//! Generator behavior on the model itself: constraint lists, the
//! no-variants warning, compound payload types, and listing order.

use enumacro::emit::{derive_default, derive_variants};
use enumacro::model::{ConstraintClause, Declaration, GenericParam, TypeRef, Variant};

fn s(x: &str) -> String {
    x.to_string()
}

fn param(name: &str) -> GenericParam {
    GenericParam { name: s(name), bounds: Vec::new() }
}

fn variant(name: &str, has_marker: bool, payload: Vec<TypeRef>) -> Variant {
    Variant { name: s(name), has_marker, payload }
}

fn clause(subject: &str, capabilities: &[&str]) -> ConstraintClause {
    ConstraintClause {
        subject: TypeRef::Bare(s(subject)),
        capabilities: capabilities.iter().map(|c| s(c)).collect(),
    }
}

fn declaration(
    name: &str,
    generics: Vec<GenericParam>,
    constraints: Vec<ConstraintClause>,
    variants: Vec<Variant>,
) -> Declaration {
    Declaration { name: s(name), generics, constraints, variants }
}

#[test]
fn no_variants_yields_warning() {
    let decl = declaration("Empty", vec![], vec![], vec![]);
    let warning = derive_default(decl).unwrap_err();
    assert_eq!(warning.enum_name, "Empty");
    assert_eq!(warning.message(), "No variants available for enum Empty");
}

#[test]
fn bare_generic_payload_synthesizes_obligation() {
    // enum E<T, V> { One, #[edefault] Two(V) } with no explicit clauses:
    // exactly one clause is synthesized, for V alone.
    let decl = declaration(
        "E",
        vec![param("T"), param("V")],
        vec![],
        vec![
            variant("One", false, vec![]),
            variant("Two", true, vec![TypeRef::Bare(s("V"))]),
        ],
    );
    let g = derive_default(decl).unwrap();
    assert_eq!(g.variant_name, "Two");
    assert_eq!(g.defaulted_slots, vec![TypeRef::Bare(s("V"))]);
    assert_eq!(g.constraints, vec![clause("V", &["Default"])]);
}

#[test]
fn existing_clause_is_augmented() {
    // enum E<V> where V: Display { One, #[edefault] Two(V) }: the clause
    // for V gains the default-construction capability after Display.
    let decl = declaration(
        "E",
        vec![param("V")],
        vec![clause("V", &["Display"])],
        vec![
            variant("One", false, vec![]),
            variant("Two", true, vec![TypeRef::Bare(s("V"))]),
        ],
    );
    let g = derive_default(decl).unwrap();
    assert_eq!(g.variant_name, "Two");
    assert_eq!(g.constraints, vec![clause("V", &["Display", "Default"])]);
}

#[test]
fn augmentation_keeps_unrelated_clauses_and_tolerates_duplicates() {
    // enum E<T, V, Z> where Z: Clone, V: Clone, T: Default { One(T, Z), Two(V) }:
    // the clauses for the used parameters T and Z are augmented in place,
    // the clause for the unused V stays verbatim, and a capability already
    // present is appended again (the host language tolerates repeats).
    let decl = declaration(
        "E",
        vec![param("T"), param("V"), param("Z")],
        vec![
            clause("Z", &["Clone"]),
            clause("V", &["Clone"]),
            clause("T", &["Default"]),
        ],
        vec![
            variant("One", false, vec![TypeRef::Bare(s("T")), TypeRef::Bare(s("Z"))]),
            variant("Two", false, vec![TypeRef::Bare(s("V"))]),
        ],
    );
    let g = derive_default(decl).unwrap();
    assert_eq!(g.variant_name, "One");
    assert_eq!(
        g.constraints,
        vec![
            clause("Z", &["Clone", "Default"]),
            clause("V", &["Clone"]),
            clause("T", &["Default", "Default"]),
        ]
    );
}

#[test]
fn used_parameter_without_clause_gains_none() {
    // enum E<T, V> where V: Clone { One(T) }: the explicit constraint
    // list has no clause for T, and the propagator edits existing clauses
    // only, so T ends up with no default-construction obligation.
    let decl = declaration(
        "E",
        vec![param("T"), param("V")],
        vec![clause("V", &["Clone"])],
        vec![variant("One", false, vec![TypeRef::Bare(s("T"))])],
    );
    let g = derive_default(decl).unwrap();
    assert_eq!(g.variant_name, "One");
    assert_eq!(g.constraints, vec![clause("V", &["Clone"])]);
}

#[test]
fn compound_payload_adds_no_obligation() {
    // enum E<T> { One(Vec<T>) }: T occurs only inside a compound payload
    // type, never bare, so no obligation is synthesized for it — the
    // generated impl still defaults the slot by its own (compound) type.
    let decl = declaration(
        "E",
        vec![param("T")],
        vec![],
        vec![variant("One", false, vec![TypeRef::Other(s("Vec<T>"))])],
    );
    let g = derive_default(decl).unwrap();
    assert_eq!(g.variant_name, "One");
    assert_eq!(g.defaulted_slots, vec![TypeRef::Other(s("Vec<T>"))]);
    assert_eq!(g.constraints, vec![]);
}

#[test]
fn repeated_bare_use_counts_once() {
    // enum E<T> { #[edefault] Two(T, T) }: both slots are defaulted, but T
    // picks up a single obligation.
    let decl = declaration(
        "E",
        vec![param("T")],
        vec![],
        vec![variant("Two", true, vec![TypeRef::Bare(s("T")), TypeRef::Bare(s("T"))])],
    );
    let g = derive_default(decl).unwrap();
    assert_eq!(g.defaulted_slots.len(), 2);
    assert_eq!(g.constraints, vec![clause("T", &["Default"])]);
}

#[test]
fn marked_fieldless_variant_adds_no_obligation() {
    // enum E<T> { One(T), #[edefault] Two }: the marked variant has no
    // payload, so T picks up no obligation and no clause is synthesized.
    let decl = declaration(
        "E",
        vec![param("T")],
        vec![],
        vec![
            variant("One", false, vec![TypeRef::Bare(s("T"))]),
            variant("Two", true, vec![]),
        ],
    );
    let g = derive_default(decl).unwrap();
    assert_eq!(g.variant_name, "Two");
    assert!(g.defaulted_slots.is_empty());
    assert_eq!(g.constraints, vec![]);
}

#[test]
fn first_of_several_markers_wins() {
    let decl = declaration(
        "E",
        vec![],
        vec![],
        vec![
            variant("One", false, vec![]),
            variant("Two", true, vec![]),
            variant("Three", true, vec![]),
        ],
    );
    let g = derive_default(decl).unwrap();
    assert_eq!(g.variant_name, "Two");
}

#[test]
fn fieldless_selected_variant_has_no_slots() {
    let decl = declaration(
        "E",
        vec![],
        vec![],
        vec![variant("One", false, vec![]), variant("Two", false, vec![])],
    );
    let g = derive_default(decl).unwrap();
    assert_eq!(g.variant_name, "One");
    assert!(g.defaulted_slots.is_empty());
}

#[test]
fn listing_keeps_declaration_order_and_clauses() {
    let decl = declaration(
        "E",
        vec![param("T")],
        vec![clause("T", &["Clone"])],
        vec![
            variant("B", false, vec![TypeRef::Bare(s("T"))]),
            variant("A", true, vec![]),
            variant("C", false, vec![]),
        ],
    );
    let listing = derive_variants(decl);
    assert_eq!(listing.target_name, "E");
    assert_eq!(listing.variant_names, vec![s("B"), s("A"), s("C")]);
    assert_eq!(listing.constraints, vec![clause("T", &["Clone"])]);
}

#[test]
fn listing_of_empty_declaration_is_empty() {
    let decl = declaration("Empty", vec![], vec![], vec![]);
    let listing = derive_variants(decl);
    assert_eq!(listing.variant_names.len(), 0);
}
