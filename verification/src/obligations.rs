//! Obligation propagation: requiring default-construction of the generic
//! parameters that the selected variant's payload uses.

use vstd::prelude::*;
use vstd::string::StringExecFns;

use crate::model::{ConstraintClause, ConstraintClauseView, TypeRef, TypeRefView};

verus! {

/// The capability a defaulted type must support.
pub open spec fn default_capability() -> Seq<char> {
    "Default"@
}

/// Whether a clause's subject is one of the used generic parameters.
/// Only a bare subject can name a generic parameter; a compound subject
/// never matches.
pub open spec fn subject_in(subject: TypeRefView, used: Seq<Seq<char>>) -> bool {
    match subject {
        TypeRefView::Bare(s) => used.contains(s),
        TypeRefView::Other(_) => false,
    }
}

/// One clause of the generated impl's constraint list, produced from an
/// explicit clause of the declaration: the default-construction
/// capability is appended when the subject is a used generic parameter,
/// and the clause is kept verbatim otherwise.
pub open spec fn augment_clause(c: ConstraintClauseView, used: Seq<Seq<char>>) -> ConstraintClauseView {
    if subject_in(c.subject, used) {
        ConstraintClauseView {
            subject: c.subject,
            capabilities: c.capabilities.push(default_capability()),
        }
    } else {
        c
    }
}

/// The constraint list synthesized when the declaration has no explicit
/// constraint clauses: one clause per used generic parameter, requiring
/// exactly default-construction.
pub open spec fn synthesized_clauses(used: Seq<Seq<char>>) -> Seq<ConstraintClauseView> {
    Seq::new(
        used.len(),
        |i: int|
            ConstraintClauseView {
                subject: TypeRefView::Bare(used[i]),
                capabilities: seq![default_capability()],
            },
    )
}

/// An explicit constraint list, every clause augmented against the used
/// generic parameters.
pub open spec fn augmented_clauses(
    clauses: Seq<ConstraintClauseView>,
    used: Seq<Seq<char>>,
) -> Seq<ConstraintClauseView> {
    Seq::new(clauses.len(), |i: int| augment_clause(clauses[i], used))
}

/// The generated impl's constraint list. When the declaration carries an
/// explicit constraint list, every clause of it is kept, augmented where
/// its subject is a used parameter; a used parameter with no existing
/// clause gains none. When the declaration carries no constraint list at
/// all, one is synthesized from the used parameters alone.
pub open spec fn propagate_spec(
    clauses: Seq<ConstraintClauseView>,
    used: Seq<Seq<char>>,
) -> Seq<ConstraintClauseView> {
    if clauses.len() > 0 {
        augmented_clauses(clauses, used)
    } else {
        synthesized_clauses(used)
    }
}

fn names_contain(used: &Vec<String>, n: &String) -> (r: bool)
    ensures
        r == used.deep_view().contains(n@),
{
    let ghost uv = used.deep_view();
    let mut i: usize = 0;
    while i < used.len()
        invariant
            0 <= i <= used.len(),
            uv == used.deep_view(),
            uv.len() == used.len(),
            forall|k: int| 0 <= k < i ==> uv[k] != n@,
        decreases used.len() - i,
    {
        if used[i] == *n {
            assert(uv[i as int] == n@);
            return true;
        }
        i = i + 1;
    }
    false
}

fn subject_matches(subject: &TypeRef, used: &Vec<String>) -> (r: bool)
    ensures
        r == subject_in(subject.deep_view(), used.deep_view()),
{
    match subject {
        TypeRef::Bare(s) => names_contain(used, s),
        TypeRef::Other(_) => false,
    }
}

fn default_capability_name() -> (r: String)
    ensures
        r@ == default_capability(),
{
    String::from_str("Default")
}

/// Builds the generated impl's constraint list from the declaration's
/// explicit clauses (consumed) and the used generic parameters, as
/// [`propagate_spec`] states: augment every existing clause whose subject
/// is a used parameter, or synthesize a fresh list when none exists.
pub fn propagate(clauses: Vec<ConstraintClause>, used: &Vec<String>) -> (r: Vec<ConstraintClause>)
    ensures
        r.deep_view() == propagate_spec(clauses.deep_view(), used.deep_view()),
{
    let ghost cv = clauses.deep_view();
    let ghost uv = used.deep_view();
    if clauses.len() > 0 {
        let mut rest = clauses;
        let mut out: Vec<ConstraintClause> = Vec::new();
        while rest.len() > 0
            invariant
                out.len() + rest.len() == cv.len(),
                rest.deep_view() =~= cv.skip(out.len() as int),
                out.deep_view() =~= augmented_clauses(cv, uv).take(out.len() as int),
                uv == used.deep_view(),
            decreases rest.len(),
        {
            let ghost k = out.len() as int;
            let ghost old_rest = rest.deep_view();
            let c = rest.remove(0);
            proof {
                assert(rest.deep_view() =~= old_rest.skip(1));
                assert(rest.deep_view() =~= cv.skip(k + 1));
                assert(old_rest[0] == cv.skip(k)[0]);
                assert(c.deep_view() == cv[k]);
            }
            let subject = c.subject;
            let mut capabilities = c.capabilities;
            let ghost old_caps = capabilities.deep_view();
            if subject_matches(&subject, used) {
                capabilities.push(default_capability_name());
                proof {
                    assert(capabilities.deep_view() =~= old_caps.push(default_capability()));
                }
            }
            let clause = ConstraintClause { subject, capabilities };
            proof {
                assert(clause.deep_view().capabilities =~= augment_clause(cv[k], uv).capabilities);
                assert(clause.deep_view() == augment_clause(cv[k], uv));
            }
            let ghost prev_out = out.deep_view();
            out.push(clause);
            proof {
                assert(out.deep_view() =~= prev_out.push(clause.deep_view()));
                assert(out.deep_view() =~= augmented_clauses(cv, uv).take(k + 1));
            }
        }
        proof {
            assert(augmented_clauses(cv, uv).take(cv.len() as int) =~= augmented_clauses(cv, uv));
        }
        out
    } else {
        let mut out: Vec<ConstraintClause> = Vec::new();
        let mut i: usize = 0;
        while i < used.len()
            invariant
                0 <= i <= used.len(),
                uv == used.deep_view(),
                uv.len() == used.len(),
                out.deep_view() =~= synthesized_clauses(uv).take(i as int),
            decreases used.len() - i,
        {
            let capabilities = vec![default_capability_name()];
            let clause = ConstraintClause {
                subject: TypeRef::Bare(used[i].clone()),
                capabilities,
            };
            proof {
                assert(clause.deep_view().capabilities =~= seq![default_capability()]);
                assert(clause.deep_view() == synthesized_clauses(uv)[i as int]);
            }
            let ghost prev_out = out.deep_view();
            out.push(clause);
            proof {
                assert(out.deep_view() =~= prev_out.push(clause.deep_view()));
                assert(out.deep_view() =~= synthesized_clauses(uv).take(i + 1));
            }
            i = i + 1;
        }
        proof {
            assert(out.deep_view() =~= synthesized_clauses(uv));
        }
        out
    }
}

} // verus!
