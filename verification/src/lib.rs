//! Verified code generation core for tagged-union (`enum`) declarations.
//!
//! Two generators share one analysis pipeline:
//!
//! * a default-construction generator, which picks a default variant
//!   (the first variant carrying the `edefault` marker, else the first
//!   variant declared), collects the generic parameters that the chosen
//!   variant's payload uses as bare types, and propagates a
//!   default-construction obligation onto them;
//! * a variant-listing generator, which lists a declaration's variant
//!   names, in declaration order, as runtime string data.
//!
//! Both work on a [`model::Declaration`]: a plain structural view of one
//! `enum` declaration, decoupled from any concrete parser. Turning source
//! text into a `Declaration` and a generated impl back into source text is
//! the job of an unverified front end around this crate.

pub mod analysis;
pub mod emit;
pub mod laws;
pub mod model;
pub mod obligations;
