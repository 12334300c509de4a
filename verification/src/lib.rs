//! Derivation of a companion builder for a record with named fields.
//!
//! The declaration arrives as plain data ([`syntax`]), is validated into a
//! record ([`ast`]) and turned into the description of the builder that is
//! to be emitted ([`expand`]). What the emitted builder does with values is
//! told in [`instance`].

pub mod syntax;
pub mod ast;
pub mod ident;
pub mod expand;
pub mod instance;
pub mod laws;
