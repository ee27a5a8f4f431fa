//! Diagnostics of the validation.
use vstd::prelude::*;

use crate::ast::Span;

verus! {

/// An error of the given kind at the given place, without further notes.
pub open spec fn new_error(kind: ErrorKind, span: Span) -> Error {
    Error { kind, span, first_seen: None, context: None }
}

/// What went wrong.
#[derive(Clone, Copy, Debug, PartialEq, Eq, Structural)]
pub enum ErrorKind {
    /// The same argument kind was given twice to one node.
    DuplicateAnnotation,
    /// An argument kind that this node does not allow.
    ConflictingAnnotationArgument,
    /// `#[ink(..)]` attributes were expected but gave no argument.
    EmptyExpandedAttributes,
    /// The first argument of the declaration is not `event`.
    UnexpectedFirstAttributeArgument,
    /// The declaration has generic parameters.
    GenericNotSupported,
    /// The declaration is not `pub`.
    NonPublicNotSupported,
    /// The first argument on a field is not `topic`.
    InvalidFirstFieldAttribute,
    /// A field carries an argument other than `topic`.
    ConflictingFieldAttribute,
}

pub open spec fn message_of(kind: ErrorKind) -> Seq<char> {
    match kind {
        ErrorKind::DuplicateAnnotation => "encountered duplicate ink! attribute"@,
        ErrorKind::ConflictingAnnotationArgument =>
            "encountered conflicting ink! attribute argument"@,
        ErrorKind::EmptyExpandedAttributes =>
            "encountered unexpected empty expanded ink! attribute arguments"@,
        ErrorKind::UnexpectedFirstAttributeArgument => "unexpected first ink! attribute argument"@,
        ErrorKind::GenericNotSupported => "generic ink! event structs are not supported"@,
        ErrorKind::NonPublicNotSupported => "non `pub` ink! event structs are not supported"@,
        ErrorKind::InvalidFirstFieldAttribute =>
            "first optional ink! attribute of an event field must be #[ink(topic)]"@,
        ErrorKind::ConflictingFieldAttribute =>
            "encountered conflicting ink! attribute for event field"@,
    }
}

impl ErrorKind {
    /// The text reported for this kind of error.
    pub fn message(self) -> (r: &'static str)
        ensures
            r@ == message_of(self),
    {
        match self {
            ErrorKind::DuplicateAnnotation => "encountered duplicate ink! attribute",
            ErrorKind::ConflictingAnnotationArgument =>
                "encountered conflicting ink! attribute argument",
            ErrorKind::EmptyExpandedAttributes =>
                "encountered unexpected empty expanded ink! attribute arguments",
            ErrorKind::UnexpectedFirstAttributeArgument =>
                "unexpected first ink! attribute argument",
            ErrorKind::GenericNotSupported => "generic ink! event structs are not supported",
            ErrorKind::NonPublicNotSupported => "non `pub` ink! event structs are not supported",
            ErrorKind::InvalidFirstFieldAttribute =>
                "first optional ink! attribute of an event field must be #[ink(topic)]",
            ErrorKind::ConflictingFieldAttribute =>
                "encountered conflicting ink! attribute for event field",
        }
    }
}

/// A diagnostic: its kind and the place of the offending token, with the
/// place of an earlier equal argument for a duplicate, and the place of the
/// enclosing node where the error was reported in its context.
#[derive(Clone, Copy, Debug, PartialEq, Eq)]
pub struct Error {
    pub kind: ErrorKind,
    pub span: Span,
    pub first_seen: Option<Span>,
    pub context: Option<Span>,
}

impl Error {
    /// An error of the given kind at the given place, without further notes.
    pub fn new(kind: ErrorKind, span: Span) -> (r: Error)
        ensures
            r == new_error(kind, span),
    {
        Error { kind, span, first_seen: None, context: None }
    }

    /// The same error, noted to have come up while checking the node at `at`.
    pub fn at_invocation(self, at: Span) -> (r: Error)
        ensures
            r == (Error { context: Some(at), ..self }),
    {
        Error { context: Some(at), ..self }
    }

    /// The text of the diagnostic.
    pub fn message(&self) -> (r: String)
        ensures
            r@ == message_of(self.kind),
    {
        String::from_str(self.kind.message())
    }
}

} // verus!
