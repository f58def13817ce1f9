//! Code generation for structural-subset conversions.
//!
//! A target type declares, through annotations, which source type it narrows
//! and where each of its fields is read from. This crate parses those
//! annotations, resolves one chain of source fields per target field and
//! writes the text of the conversion routine together with the subset
//! marker. A pass either yields that text or the first diagnostic, never
//! both.

pub mod definition;
pub mod diagnostic;
pub mod directive;
pub mod driver;
pub mod emitter;
pub mod identifier;
pub mod laws;
pub mod parser;
pub mod path;
pub mod resolver;

pub use definition::{Annotation, FieldDefinition, Shape, Token, TypeDefinition};
pub use diagnostic::{Anchor, Derive, Diagnostic, ErrorKind};
pub use directive::{
    DirectiveKey, DirectiveModel, FieldDescriptor, MappingDirective, ResolvedMapping,
    SourceTypeReference,
};
pub use driver::{expand, impl_subset, impl_typelater, Driver};
