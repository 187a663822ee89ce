//! A compile-time declaration transformer for domain modelling.
//!
//! Given a parsed type declaration (a struct or an enum, with named,
//! positional or no fields, and generics), the transformer emits the
//! declaration unchanged, followed by two capability-marker registrations
//! and, when the declaration has at least one field, a compile-time block
//! asserting that every field type satisfies the safety capability.
//! A raw union is the one rejected shape.

/// The declaration model: shapes, fields, variants, and field-type
/// extraction.
pub mod decl;
/// The emitter: the text of the markers and of the validation block, and
/// the transformation itself.
pub mod emit;
/// The transformer's laws: what the emitted code contains for each shape,
/// and that the transformation is a pure function of its input.
pub mod laws;
