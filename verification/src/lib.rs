//! A declarative validation compiler.
//!
//! Given a static description of a record type — its fields, their symbolic
//! type descriptors, and the validation intents attached to them — the
//! compiler checks every intent against the field's type, resolves the
//! intent's arguments, and assembles an immutable validation plan.  Running
//! the plan against a concrete record value yields either success or a
//! collection of structured errors keyed by the field's external name.
//!
//! The pieces, leaves first: [`intent`] is the declarative input; [`lit`]
//! resolves raw literals; [`types`] holds the symbolic type descriptors and
//! the capability registry; [`extract`] turns intents into validators;
//! [`plan`] assembles the plan; [`value`], [`errors`], [`checks`] and
//! [`run`] are the execution side; [`laws`] states and proves the
//! guarantees that tie them together.

pub mod checks;
pub mod errors;
pub mod extract;
pub mod intent;
pub mod laws;
pub mod lit;
pub mod plan;
pub mod run;
pub mod text;
pub mod types;
pub mod validation;
pub mod value;
