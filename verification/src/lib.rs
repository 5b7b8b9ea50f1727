//! Code synthesis for two struct derives: a companion builder and a
//! struct-style `Debug` implementation.
//!
//! A declaration is held as plain data ([`model::Declaration`]), read off a
//! parsed item by [`syntax::lower`], off source text by
//! [`syntax::parse_declaration`], or written by hand. Each
//! generator, [`builder::derive`] and [`debug::derive`], maps it to a
//! [`diagnostic::GeneratedUnit`]: the generated source text, or a single
//! diagnostic in its place.
//!
//! - [`model`]: the declaration, its fields, their types and attributes.
//! - [`syntax`]: from a parsed item, or from source text, to a declaration.
//! - [`attribute`]: the two attribute forms, `builder(each = "..")` and
//!   `debug = ".."`.
//! - [`shape`]: the category of each field: plain, optional, repeated or
//!   phantom marker.
//! - [`builder`]: the builder generator.
//! - [`assembly`]: what the generated builder does when it runs, and the
//!   laws that hold of it.
//! - [`debug`]: the `Debug` generator.
//! - [`diagnostic`]: diagnostics, spans and the generated unit.
//! - [`text`]: text comparison, identifiers, string literals, and the test
//!   that keeps unknown literals from the parser.

pub mod assembly;
pub mod attribute;
pub mod builder;
pub mod debug;
pub mod diagnostic;
pub mod model;
pub mod shape;
pub mod syntax;
pub mod text;
