//! A plain model of the syntax nodes that an event definition is built from.
use vstd::prelude::*;

verus! {

/// A region of source text, as byte offsets.
#[derive(Clone, Copy, Debug, PartialEq, Eq, Structural)]
pub struct Span {
    pub lo: u32,
    pub hi: u32,
}

impl Span {
    /// The span that stands for the macro invocation as a whole.
    pub fn call_site() -> (r: Span)
        ensures
            r == call_site_span(),
    {
        Span { lo: 0, hi: 0 }
    }
}

pub open spec fn call_site_span() -> Span {
    Span { lo: 0, hi: 0 }
}

/// The kind of one argument of an `#[ink(..)]` attribute.
#[derive(Clone, Copy, Debug, PartialEq, Eq, Structural)]
pub enum AttributeArgKind {
    Storage,
    Event,
    Anonymous,
    Topic,
    Message,
    Constructor,
    Payable,
    Default,
    Selector,
    Extension,
    Namespace,
    Implementation,
    HandleStatus,
}

/// The argument kind written as `name` inside `#[ink(..)]`.
pub open spec fn kind_named(name: Seq<char>) -> Option<AttributeArgKind> {
    if name == "storage"@ {
        Some(AttributeArgKind::Storage)
    } else if name == "event"@ {
        Some(AttributeArgKind::Event)
    } else if name == "anonymous"@ {
        Some(AttributeArgKind::Anonymous)
    } else if name == "topic"@ {
        Some(AttributeArgKind::Topic)
    } else if name == "message"@ {
        Some(AttributeArgKind::Message)
    } else if name == "constructor"@ {
        Some(AttributeArgKind::Constructor)
    } else if name == "payable"@ {
        Some(AttributeArgKind::Payable)
    } else if name == "default"@ {
        Some(AttributeArgKind::Default)
    } else if name == "selector"@ {
        Some(AttributeArgKind::Selector)
    } else if name == "extension"@ {
        Some(AttributeArgKind::Extension)
    } else if name == "namespace"@ {
        Some(AttributeArgKind::Namespace)
    } else if name == "impl"@ {
        Some(AttributeArgKind::Implementation)
    } else if name == "handle_status"@ {
        Some(AttributeArgKind::HandleStatus)
    } else {
        None
    }
}

impl AttributeArgKind {
    /// The argument kind written as `name`, or `None` for a name that ink!
    /// does not know.
    pub fn from_name(name: &String) -> (r: Option<AttributeArgKind>)
        ensures
            r == kind_named(name@),
    {
        if *name == String::from_str("storage") {
            return Some(AttributeArgKind::Storage);
        }
        if *name == String::from_str("event") {
            return Some(AttributeArgKind::Event);
        }
        if *name == String::from_str("anonymous") {
            return Some(AttributeArgKind::Anonymous);
        }
        if *name == String::from_str("topic") {
            return Some(AttributeArgKind::Topic);
        }
        if *name == String::from_str("message") {
            return Some(AttributeArgKind::Message);
        }
        if *name == String::from_str("constructor") {
            return Some(AttributeArgKind::Constructor);
        }
        if *name == String::from_str("payable") {
            return Some(AttributeArgKind::Payable);
        }
        if *name == String::from_str("default") {
            return Some(AttributeArgKind::Default);
        }
        if *name == String::from_str("selector") {
            return Some(AttributeArgKind::Selector);
        }
        if *name == String::from_str("extension") {
            return Some(AttributeArgKind::Extension);
        }
        if *name == String::from_str("namespace") {
            return Some(AttributeArgKind::Namespace);
        }
        if *name == String::from_str("impl") {
            return Some(AttributeArgKind::Implementation);
        }
        if *name == String::from_str("handle_status") {
            return Some(AttributeArgKind::HandleStatus);
        }
        None
    }
}

/// One argument of an `#[ink(..)]` attribute, with where it was written.
#[derive(Clone, Copy, Debug, PartialEq, Eq, Structural)]
pub struct AttributeFrag {
    pub kind: AttributeArgKind,
    pub span: Span,
}

/// An attribute attached to a declaration, a variant or a field.
#[derive(Clone, Debug, PartialEq, Eq)]
pub enum Attribute {
    /// `#[ink(a, b, ..)]`, holding its arguments in the order written.
    Ink { args: Vec<AttributeFrag>, span: Span },
    /// Any attribute of another namespace, kept as written.
    Other { path: String, tokens: String, span: Span },
}

/// The visibility written in front of a declaration or a field.
#[derive(Clone, Copy, Debug, PartialEq, Eq, Structural)]
pub enum Visibility {
    /// `pub`
    Public,
    /// `crate`, at the given place
    Crate(Span),
    /// `pub(..)`, at the given place
    Restricted(Span),
    /// nothing written
    Inherited,
}

/// A generic parameter of a declaration.
#[derive(Clone, Debug, PartialEq, Eq)]
pub struct GenericParam {
    pub name: String,
    pub span: Span,
}

/// A field of a variant or of a struct; `ty` is the type as written.
#[derive(Clone, Debug, PartialEq, Eq)]
pub struct Field {
    pub attrs: Vec<Attribute>,
    pub vis: Visibility,
    pub ident: Option<String>,
    pub ty: String,
    pub span: Span,
}

/// A variant of an enum declaration.
#[derive(Clone, Debug, PartialEq, Eq)]
pub struct Variant {
    pub attrs: Vec<Attribute>,
    pub ident: String,
    pub fields: Vec<Field>,
    pub span: Span,
}

/// An enum declaration: the canonical shape of an event definition.
#[derive(Clone, Debug, PartialEq, Eq)]
pub struct ItemEnum {
    pub attrs: Vec<Attribute>,
    pub vis: Visibility,
    pub ident: String,
    pub generics: Vec<GenericParam>,
    pub variants: Vec<Variant>,
    pub span: Span,
}

/// A struct declaration: the older shape of an event definition, with one
/// implicit variant.
#[derive(Clone, Debug, PartialEq, Eq)]
pub struct ItemStruct {
    pub attrs: Vec<Attribute>,
    pub vis: Visibility,
    pub ident: String,
    pub generics: Vec<GenericParam>,
    pub fields: Vec<Field>,
    pub span: Span,
}

} // verus!
