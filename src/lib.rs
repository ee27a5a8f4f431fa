//! Validation of ink! event definitions and extraction of their
//! intermediate representation.
//!
//! The input is a plain model of a parsed declaration (see [`ast`]): the
//! attributes that the validation reads are held as values, while field
//! types and identifiers are carried through as text.
pub mod ast;
pub mod attrs;
pub mod error;
pub mod event_def;

pub use ast::{
    Attribute, AttributeArgKind, AttributeFrag, Field, GenericParam, ItemEnum, ItemStruct, Span,
    Variant, Visibility,
};
pub use error::{Error, ErrorKind};
pub use event_def::{EventField, EventVariant, InkEventDefinition};
