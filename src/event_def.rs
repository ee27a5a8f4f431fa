//! The checked event definition and its views.
use vstd::prelude::*;

use crate::ast::{
    Attribute, AttributeArgKind, AttributeFrag, Field, GenericParam, ItemEnum, ItemStruct, Span,
    Variant, Visibility,
};
use crate::attrs::{
    allowed_in, collect_ink_args, distinct_kinds, expand_spec, first_not_allowed, has_ink_attribute,
    has_kind, ink_args, ink_attrs, lemma_first_duplicate_found, lemma_first_duplicate_none,
    lemma_first_not_allowed_found, lemma_first_not_allowed_none, lemma_ink_args_of_ink_attrs,
    lemma_ink_attrs_nonempty, other_attrs, partition_attributes, required_first, ArgContext,
    InkAttribute, contains_kind,
};
use crate::error::{new_error, Error, ErrorKind};

verus! {

/// The outcome of normalising the ink! arguments of `attrs` in the context
/// `ctx`, for a node at `parent`: the arguments, or the first error.
pub open spec fn sanitize_spec(ctx: ArgContext, parent: Span, attrs: Seq<Attribute>) -> Result<
    Seq<AttributeFrag>,
    Error,
> {
    match expand_spec(ink_args(attrs)) {
        Err(e) => Err(Error { context: Some(parent), ..e }),
        Ok(args) => if args[0].kind != required_first(ctx) {
            Err(
                Error {
                    kind: ErrorKind::UnexpectedFirstAttributeArgument,
                    span: args[0].span,
                    first_seen: None,
                    context: Some(parent),
                },
            )
        } else {
            match first_not_allowed(ctx, args, args.len()) {
                Some(j) => Err(new_error(ErrorKind::ConflictingAnnotationArgument, args[j].span)),
                None => Ok(args),
            }
        },
    }
}

/// The error that the checks of a field give, if any.
pub open spec fn field_error(f: Field) -> Option<Error> {
    if ink_attrs(f.attrs@).len() == 0 {
        None
    } else {
        match expand_spec(ink_args(f.attrs@)) {
            Err(e) => Some(Error { context: Some(f.span), ..e }),
            Ok(args) => if args[0].kind != AttributeArgKind::Topic {
                Some(new_error(ErrorKind::InvalidFirstFieldAttribute, f.span))
            } else {
                match first_not_allowed(ArgContext::EventField, args, args.len()) {
                    Some(j) => Some(new_error(ErrorKind::ConflictingFieldAttribute, args[j].span)),
                    None => None,
                }
            },
        }
    }
}

/// The first error among the fields `fs[0..n]`.
pub open spec fn fields_error(fs: Seq<Field>, n: nat) -> Option<Error>
    decreases n,
{
    if n == 0 {
        None
    } else {
        match fields_error(fs, (n - 1) as nat) {
            Some(e) => Some(e),
            None => field_error(fs[n - 1]),
        }
    }
}

/// The first error among the fields of the variants `vs[0..n]`, in order.
pub open spec fn variants_error(vs: Seq<Variant>, n: nat) -> Option<Error>
    decreases n,
{
    if n == 0 {
        None
    } else {
        match variants_error(vs, (n - 1) as nat) {
            Some(e) => Some(e),
            None => fields_error(vs[n - 1].fields@, vs[n - 1].fields@.len()),
        }
    }
}

/// The error for a declaration that is not `pub`, placed at its visibility
/// or, where none is written, at the declaration.
pub open spec fn visibility_error(vis: Visibility, parent: Span) -> Option<Error> {
    match vis {
        Visibility::Public => None,
        Visibility::Crate(s) => Some(new_error(ErrorKind::NonPublicNotSupported, s)),
        Visibility::Restricted(s) => Some(new_error(ErrorKind::NonPublicNotSupported, s)),
        Visibility::Inherited => Some(new_error(ErrorKind::NonPublicNotSupported, parent)),
    }
}

/// The first error of a declaration's shape: generic parameters, then a
/// visibility other than `pub`, then `body`, the first error among its
/// fields.
pub open spec fn shape_error(
    span: Span,
    generics: Seq<GenericParam>,
    vis: Visibility,
    body: Option<Error>,
) -> Option<Error> {
    if generics.len() > 0 {
        Some(new_error(ErrorKind::GenericNotSupported, generics[0].span))
    } else {
        match visibility_error(vis, span) {
            Some(e) => Some(e),
            None => body,
        }
    }
}

/// The first error of the shape of an enum declaration.
pub open spec fn item_shape_error(item: ItemEnum) -> Option<Error> {
    shape_error(
        item.span,
        item.generics@,
        item.vis,
        variants_error(item.variants@, item.variants@.len()),
    )
}

/// The outcome of checking a declaration whose parts are given, where
/// `body` is the first error among its fields: whether it is anonymous, or
/// the first error.
pub open spec fn declaration_result(
    span: Span,
    attrs: Seq<Attribute>,
    generics: Seq<GenericParam>,
    vis: Visibility,
    body: Option<Error>,
) -> Result<bool, Error> {
    match sanitize_spec(ArgContext::EventDecl, span, attrs) {
        Err(e) => Err(e),
        Ok(args) => match shape_error(span, generics, vis, body) {
            Some(e) => Err(e),
            None => Ok(has_kind(args, AttributeArgKind::Anonymous)),
        },
    }
}

/// The outcome of checking an enum declaration.
pub open spec fn construct_spec(item: ItemEnum) -> Result<bool, Error> {
    declaration_result(
        item.span,
        item.attrs@,
        item.generics@,
        item.vis,
        variants_error(item.variants@, item.variants@.len()),
    )
}

/// The outcome of checking a struct declaration.
pub open spec fn construct_struct_spec(item: ItemStruct) -> Result<bool, Error> {
    declaration_result(
        item.span,
        item.attrs@,
        item.generics@,
        item.vis,
        fields_error(item.fields@, item.fields@.len()),
    )
}

/// Whether a field with these attributes is a topic: `topic` is among its
/// ink! arguments.
pub open spec fn is_topic_spec(attrs: Seq<Attribute>) -> bool {
    has_kind(ink_args(attrs), AttributeArgKind::Topic)
}

/// The number of topic fields among `fs[0..n]`.
pub open spec fn topic_count(fs: Seq<Field>, n: nat) -> nat
    decreases n,
{
    if n == 0 {
        0
    } else {
        topic_count(fs, (n - 1) as nat) + if is_topic_spec(fs[n - 1].attrs@) {
            1nat
        } else {
            0nat
        }
    }
}

/// The number of topic fields of a variant.
pub open spec fn variant_topics(v: Variant) -> nat {
    topic_count(v.fields@, v.fields@.len())
}

/// Checks the ink! attributes of `attrs` in the context `ctx`, for a node
/// at `parent`, and hands back the normalised ink! arguments and the other
/// attributes.
pub fn sanitize_attributes(ctx: ArgContext, parent: Span, attrs: Vec<Attribute>) -> (r: Result<
    (InkAttribute, Vec<Attribute>),
    Error,
>)
    ensures
        match r {
            Ok((a, others)) => sanitize_spec(ctx, parent, attrs@) == Ok::<_, Error>(a@) && a.wf()
                && others@ == other_attrs(attrs@),
            Err(e) => sanitize_spec(ctx, parent, attrs@) == Err::<Seq<AttributeFrag>, _>(e),
        },
{
    let ghost orig = attrs@;
    let (ink, others) = partition_attributes(attrs);
    let args = collect_ink_args(&ink);
    proof {
        lemma_ink_args_of_ink_attrs(orig);
    }
    let normalized = match InkAttribute::from_expanded(args) {
        Ok(a) => a,
        Err(e) => {
            return Err(e.at_invocation(parent));
        },
    };
    let first = normalized.first();
    if first.kind != ctx.required_first() {
        return Err(
            Error::new(ErrorKind::UnexpectedFirstAttributeArgument, first.span).at_invocation(
                parent,
            ),
        );
    }
    match normalized.first_conflict(ctx) {
        Some(j) => Err(Error::new(ErrorKind::ConflictingAnnotationArgument, normalized.args()[j].span)),
        None => Ok((normalized, others)),
    }
}

/// Checks the ink! attributes of one field of an event.
pub fn check_field(field: &Field) -> (r: Result<(), Error>)
    ensures
        match r {
            Ok(_) => field_error(*field) is None,
            Err(e) => field_error(*field) == Some(e),
        },
{
    if !has_ink_attribute(&field.attrs) {
        return Ok(());
    }
    let args = collect_ink_args(&field.attrs);
    let normalized = match InkAttribute::from_expanded(args) {
        Ok(a) => a,
        Err(e) => {
            return Err(e.at_invocation(field.span));
        },
    };
    if normalized.first().kind != AttributeArgKind::Topic {
        return Err(Error::new(ErrorKind::InvalidFirstFieldAttribute, field.span));
    }
    match normalized.first_conflict(ArgContext::EventField) {
        Some(j) => Err(Error::new(ErrorKind::ConflictingFieldAttribute, normalized.args()[j].span)),
        None => Ok(()),
    }
}

/// Checks every field of `fields`, in order, stopping at the first error.
pub fn check_fields(fields: &Vec<Field>) -> (r: Result<(), Error>)
    ensures
        match r {
            Ok(_) => fields_error(fields@, fields@.len()) is None,
            Err(e) => fields_error(fields@, fields@.len()) == Some(e),
        },
{
    let mut k: usize = 0;
    while k < fields.len()
        invariant
            k <= fields@.len(),
            fields_error(fields@, k as nat) is None,
        decreases fields.len() - k,
    {
        match check_field(&fields[k]) {
            Ok(_) => {},
            Err(e) => {
                proof {
                    lemma_fields_error_stable(fields@, (k + 1) as nat, fields@.len());
                }
                return Err(e);
            },
        }
        k = k + 1;
    }
    Ok(())
}

proof fn lemma_fields_error_stable(fs: Seq<Field>, n: nat, m: nat)
    requires
        n <= m,
        fields_error(fs, n) is Some,
    ensures
        fields_error(fs, m) == fields_error(fs, n),
    decreases m,
{
    if n < m {
        lemma_fields_error_stable(fs, n, (m - 1) as nat);
    }
}

proof fn lemma_variants_error_stable(vs: Seq<Variant>, n: nat, m: nat)
    requires
        n <= m,
        variants_error(vs, n) is Some,
    ensures
        variants_error(vs, m) == variants_error(vs, n),
    decreases m,
{
    if n < m {
        lemma_variants_error_stable(vs, n, (m - 1) as nat);
    }
}

/// Checks that a declaration is `pub`.
pub fn ensure_pub_visibility(vis: Visibility, parent: Span) -> (r: Result<(), Error>)
    ensures
        match r {
            Ok(_) => visibility_error(vis, parent) is None,
            Err(e) => visibility_error(vis, parent) == Some(e),
        },
{
    match vis {
        Visibility::Public => Ok(()),
        Visibility::Crate(s) => Err(Error::new(ErrorKind::NonPublicNotSupported, s)),
        Visibility::Restricted(s) => Err(Error::new(ErrorKind::NonPublicNotSupported, s)),
        Visibility::Inherited => Err(Error::new(ErrorKind::NonPublicNotSupported, parent)),
    }
}

/// Whether `topic` is among the ink! arguments of `attrs`.
pub fn carries_topic(attrs: &Vec<Attribute>) -> (r: bool)
    ensures
        r == is_topic_spec(attrs@),
{
    let args = collect_ink_args(attrs);
    contains_kind(&args, AttributeArgKind::Topic)
}

/// What checking `item` as an event definition gives: on success the
/// declaration with only its other attributes and the anonymous flag, on
/// failure the first error.
pub open spec fn try_from_post(item: ItemEnum, r: Result<InkEventDefinition, Error>) -> bool {
    match r {
        Ok(d) => {
            &&& construct_spec(item) == Ok::<bool, Error>(d.anonymous)
            &&& d.item.attrs@ == other_attrs(item.attrs@)
            &&& d.item.ident == item.ident
            &&& d.item.vis == item.vis
            &&& d.item.generics == item.generics
            &&& d.item.variants == item.variants
            &&& d.item.span == item.span
        },
        Err(e) => construct_spec(item) == Err::<bool, Error>(e),
    }
}

/// A checked ink! event definition.
#[derive(Debug, PartialEq, Eq)]
pub struct InkEventDefinition {
    pub item: ItemEnum,
    pub anonymous: bool,
}

impl InkEventDefinition {
    /// Checks the shape of `item`, whose ink! attributes have already been
    /// taken out: no generic parameters, `pub`, and well-formed ink!
    /// attributes on every field of every variant, in that order. When all
    /// hold it wraps `item` with the given flag.
    pub fn new(item: ItemEnum, anonymous: bool) -> (r: Result<InkEventDefinition, Error>)
        ensures
            match r {
                Ok(d) => {
                    &&& item_shape_error(item) is None
                    &&& item.generics@.len() == 0
                    &&& item.vis == Visibility::Public
                    &&& d.item == item
                    &&& d.anonymous == anonymous
                },
                Err(e) => item_shape_error(item) == Some(e),
            },
    {
        if item.generics.len() > 0 {
            return Err(Error::new(ErrorKind::GenericNotSupported, item.generics[0].span));
        }
        match ensure_pub_visibility(item.vis, item.span) {
            Ok(_) => {},
            Err(e) => {
                return Err(e);
            },
        }
        let mut v: usize = 0;
        while v < item.variants.len()
            invariant
                v <= item.variants@.len(),
                item.generics@.len() == 0,
                visibility_error(item.vis, item.span) is None,
                variants_error(item.variants@, v as nat) is None,
            decreases item.variants.len() - v,
        {
            match check_fields(&item.variants[v].fields) {
                Ok(_) => {},
                Err(e) => {
                    proof {
                        lemma_variants_error_stable(
                            item.variants@,
                            (v + 1) as nat,
                            item.variants@.len(),
                        );
                    }
                    return Err(e);
                },
            }
            v = v + 1;
        }
        Ok(InkEventDefinition { item, anonymous })
    }

    /// Checks an enum declaration with its ink! attributes: `event` first,
    /// then at most `anonymous`; no generic parameters; `pub`; and the
    /// attributes of every field. On success the declaration keeps only its
    /// other attributes.
    pub fn try_from(item_enum: ItemEnum) -> (r: Result<InkEventDefinition, Error>)
        ensures
            try_from_post(item_enum, r),
    {
        let ItemEnum { attrs, vis, ident, generics, variants, span } = item_enum;
        let (ink, others) = match sanitize_attributes(ArgContext::EventDecl, span, attrs) {
            Ok(p) => p,
            Err(e) => {
                return Err(e);
            },
        };
        let item = ItemEnum { attrs: others, vis, ident, generics, variants, span };
        Self::new(item, ink.is_anonymous())
    }

    /// Checks a struct declaration as the enum with one variant that has
    /// the struct's name and fields (see [`InkEventDefinition::try_from`]).
    pub fn try_from_struct(item_struct: ItemStruct) -> (r: Result<InkEventDefinition, Error>)
        ensures
            match r {
                Ok(d) => {
                    &&& construct_struct_spec(item_struct) == Ok::<bool, Error>(d.anonymous)
                    &&& d.item.attrs@ == other_attrs(item_struct.attrs@)
                    &&& d.item.ident == item_struct.ident
                    &&& d.item.vis == item_struct.vis
                    &&& d.item.generics == item_struct.generics
                    &&& d.item.span == item_struct.span
                    &&& d.item.variants@.len() == 1
                    &&& d.item.variants@[0].attrs@.len() == 0
                    &&& d.item.variants@[0].ident == item_struct.ident
                    &&& d.item.variants@[0].fields == item_struct.fields
                    &&& d.item.variants@[0].span == item_struct.span
                },
                Err(e) => construct_struct_spec(item_struct) == Err::<bool, Error>(e),
            },
    {
        let ItemStruct { attrs, vis, ident, generics, fields, span } = item_struct;
        let variant = Variant { attrs: Vec::new(), ident: ident.clone(), fields, span };
        let mut variants: Vec<Variant> = Vec::new();
        variants.push(variant);
        proof {
            assert(variants@[0] == variant);
            assert(variants_error(variants@, 0) is None);
            assert(variants_error(variants@, 1) == fields_error(
                variant.fields@,
                variant.fields@.len(),
            ));
        }
        Self::try_from(ItemEnum { attrs, vis, ident, generics, variants, span })
    }

    /// The name of the event.
    pub fn ident(&self) -> (r: &String)
        ensures
            *r == self.item.ident,
    {
        &self.item.ident
    }

    /// The attributes of the declaration other than ink! ones.
    pub fn attrs(&self) -> (r: &Vec<Attribute>)
        ensures
            r@ == self.item.attrs@,
    {
        &self.item.attrs
    }

    /// Views of all variants, in declaration order.
    pub fn variants(&self) -> (r: Vec<EventVariant<'_>>)
        ensures
            r@.len() == self.item.variants@.len(),
            forall|i: int|
                0 <= i < r@.len() ==> r@[i].index_spec() == i && r@[i].variant()
                    == self.item.variants@[i],
    {
        let mut out: Vec<EventVariant<'_>> = Vec::new();
        let mut i: usize = 0;
        while i < self.item.variants.len()
            invariant
                i <= self.item.variants@.len(),
                out@.len() == i,
                forall|k: int|
                    #![trigger out@[k]]
                    0 <= k < i ==> out@[k].index_spec() == k && out@[k].variant()
                        == self.item.variants@[k],
            decreases self.item.variants.len() - i,
        {
            let v = EventVariant { index: i, item: &self.item.variants[i] };
            assert(v.index_spec() == i);
            assert(v.variant() == self.item.variants@[i as int]);
            out.push(v);
            i = i + 1;
        }
        out
    }

    /// The largest number of topic fields of any variant; 0 where there is
    /// no variant.
    pub fn max_len_topics(&self) -> (r: usize)
        ensures
            forall|i: int|
                0 <= i < self.item.variants@.len() ==> variant_topics(self.item.variants@[i])
                    <= r,
            self.item.variants@.len() == 0 ==> r == 0,
            self.item.variants@.len() > 0 ==> exists|i: int|
                0 <= i < self.item.variants@.len() && variant_topics(self.item.variants@[i])
                    == r,
    {
        let vs = self.variants();
        let mut best: usize = 0;
        let mut i: usize = 0;
        while i < vs.len()
            invariant
                i <= vs@.len(),
                vs@.len() == self.item.variants@.len(),
                forall|k: int|
                    0 <= k < vs@.len() ==> vs@[k].variant() == self.item.variants@[k],
                forall|k: int| 0 <= k < i ==> variant_topics(self.item.variants@[k]) <= best,
                i == 0 ==> best == 0,
                i > 0 ==> exists|k: int|
                    0 <= k < i && variant_topics(self.item.variants@[k]) == best,
            decreases vs.len() - i,
        {
            let c = vs[i].topic_count();
            assert(variant_topics(self.item.variants@[i as int]) == c);
            if c > best {
                best = c;
            }
            assert(variant_topics(self.item.variants@[i as int]) <= best);
            i = i + 1;
        }
        best
    }
}

/// A variant of an event, with its place in the declaration.
pub struct EventVariant<'a> {
    index: usize,
    item: &'a Variant,
}

impl<'a> EventVariant<'a> {
    pub closed spec fn index_spec(&self) -> nat {
        self.index as nat
    }

    pub closed spec fn variant(&self) -> Variant {
        *self.item
    }

    /// The name of the variant.
    pub fn ident(&self) -> (r: &String)
        ensures
            *r == self.variant().ident,
    {
        &self.item.ident
    }

    /// The position of the variant in the declaration, from 0.
    pub fn index(&self) -> (r: usize)
        ensures
            r == self.index_spec(),
    {
        self.index
    }

    /// Views of the fields of the variant, in order, each marked with
    /// whether it is a topic.
    pub fn fields(&self) -> (r: Vec<EventField<'a>>)
        ensures
            r@.len() == self.variant().fields@.len(),
            forall|k: int|
                0 <= k < r@.len() ==> r@[k].field_spec() == self.variant().fields@[k]
                    && r@[k].topic_spec() == is_topic_spec(self.variant().fields@[k].attrs@),
    {
        let fields: &'a Vec<Field> = &self.item.fields;
        let mut out: Vec<EventField<'a>> = Vec::new();
        let mut k: usize = 0;
        while k < fields.len()
            invariant
                k <= fields@.len(),
                fields@ == self.variant().fields@,
                out@.len() == k,
                forall|j: int|
                    0 <= j < k ==> out@[j].field_spec() == fields@[j] && out@[j].topic_spec()
                        == is_topic_spec(fields@[j].attrs@),
            decreases fields.len() - k,
        {
            let field: &'a Field = &fields[k];
            let is_topic = carries_topic(&field.attrs);
            out.push(EventField { is_topic, field });
            k = k + 1;
        }
        out
    }

    /// The number of topic fields of the variant.
    pub fn topic_count(&self) -> (r: usize)
        ensures
            r == variant_topics(self.variant()),
    {
        let fields = self.fields();
        let mut c: usize = 0;
        let mut k: usize = 0;
        while k < fields.len()
            invariant
                k <= fields@.len(),
                fields@.len() == self.variant().fields@.len(),
                forall|j: int|
                    0 <= j < fields@.len() ==> fields@[j].topic_spec() == is_topic_spec(
                        self.variant().fields@[j].attrs@,
                    ),
                c == topic_count(self.variant().fields@, k as nat),
                c <= k,
            decreases fields.len() - k,
        {
            if fields[k].is_topic {
                c = c + 1;
            }
            k = k + 1;
        }
        c
    }
}

/// A field of an event variant, marked with whether it is a topic.
#[derive(Debug, Copy, Clone, PartialEq, Eq)]
pub struct EventField<'a> {
    /// Whether the field is an event topic.
    pub is_topic: bool,
    field: &'a Field,
}

impl<'a> EventField<'a> {
    pub closed spec fn field_spec(&self) -> Field {
        *self.field
    }

    pub closed spec fn topic_spec(&self) -> bool {
        self.is_topic
    }

    /// Whether the field is an event topic.
    pub fn is_topic(self) -> (r: bool)
        ensures
            r == self.topic_spec(),
    {
        self.is_topic
    }

    /// Where the field stands.
    pub fn span(self) -> (r: Span)
        ensures
            r == self.field_spec().span,
    {
        self.field.span
    }

    /// The attributes of the field other than ink! ones.
    pub fn attrs(self) -> (r: Vec<&'a Attribute>)
        ensures
            r@.len() == other_attrs(self.field_spec().attrs@).len(),
            forall|i: int| 0 <= i < r@.len() ==> *r@[i] == other_attrs(self.field_spec().attrs@)[i],
    {
        let attrs: &'a Vec<Attribute> = &self.field.attrs;
        let mut out: Vec<&'a Attribute> = Vec::new();
        let mut i: usize = 0;
        while i < attrs.len()
            invariant
                i <= attrs@.len(),
                attrs@ == self.field_spec().attrs@,
                out@.len() == other_attrs(attrs@.take(i as int)).len(),
                forall|j: int|
                    0 <= j < out@.len() ==> *out@[j] == other_attrs(attrs@.take(i as int))[j],
            decreases attrs.len() - i,
        {
            assert(attrs@.take(i + 1).drop_last() =~= attrs@.take(i as int));
            let a: &'a Attribute = &attrs[i];
            if let Attribute::Other { .. } = a {
                out.push(a);
            }
            i = i + 1;
        }
        assert(attrs@.take(i as int) =~= attrs@);
        out
    }

    /// The visibility of the field.
    pub fn vis(self) -> (r: Visibility)
        ensures
            r == self.field_spec().vis,
    {
        self.field.vis
    }

    /// The name of the field, if it has one.
    pub fn ident(self) -> (r: Option<&'a String>)
        ensures
            r is Some == self.field_spec().ident is Some,
            r is Some ==> *r->0 == self.field_spec().ident->0,
    {
        match &self.field.ident {
            Some(s) => Some(s),
            None => None,
        }
    }

    /// The type of the field, as written.
    pub fn ty(self) -> (r: &'a String)
        ensures
            *r == self.field_spec().ty,
    {
        &self.field.ty
    }
}


/// A declaration whose ink! arguments are `event` first and then at most
/// `anonymous`, none repeated, that is `pub`, has no generic parameter and
/// whose fields are well-formed is accepted; it is anonymous exactly when
/// `anonymous` is among its arguments.
pub proof fn lemma_valid_declaration_accepted(item: ItemEnum)
    requires
        ink_args(item.attrs@).len() > 0,
        ink_args(item.attrs@)[0].kind == AttributeArgKind::Event,
        distinct_kinds(ink_args(item.attrs@)),
        forall|i: int|
            0 <= i < ink_args(item.attrs@).len() ==> allowed_in(
                ArgContext::EventDecl,
                #[trigger] ink_args(item.attrs@)[i].kind,
            ),
        item.generics@.len() == 0,
        item.vis == Visibility::Public,
        variants_error(item.variants@, item.variants@.len()) is None,
    ensures
        construct_spec(item) == Ok::<bool, Error>(
            has_kind(ink_args(item.attrs@), AttributeArgKind::Anonymous),
        ),
{
    let args = ink_args(item.attrs@);
    lemma_first_duplicate_none(args, args.len());
    lemma_first_not_allowed_none(ArgContext::EventDecl, args, args.len());
}

/// Only the ink! arguments in order count, not how they are spread over
/// attributes: `#[ink(event, anonymous)]` is checked as
/// `#[ink(event)] #[ink(anonymous)]`.
pub proof fn lemma_same_arguments_same_outcome(a: ItemEnum, b: ItemEnum)
    requires
        ink_args(a.attrs@) == ink_args(b.attrs@),
        a.span == b.span,
        a.generics@ == b.generics@,
        a.vis == b.vis,
        a.variants@ == b.variants@,
    ensures
        construct_spec(a) == construct_spec(b),
{
}

/// A declaration whose first ink! argument is not `event`, with no kind
/// repeated, is refused for its first argument.
pub proof fn lemma_wrong_first_argument(item: ItemEnum)
    requires
        ink_args(item.attrs@).len() > 0,
        ink_args(item.attrs@)[0].kind != AttributeArgKind::Event,
        distinct_kinds(ink_args(item.attrs@)),
    ensures
        construct_spec(item) matches Err(e) && e.kind == ErrorKind::UnexpectedFirstAttributeArgument,
{
    let args = ink_args(item.attrs@);
    lemma_first_duplicate_none(args, args.len());
}

/// A declaration that gives one ink! argument kind twice is refused as a
/// duplicate.
pub proof fn lemma_repeated_argument(item: ItemEnum, i: int, j: int)
    requires
        0 <= i < j < ink_args(item.attrs@).len(),
        ink_args(item.attrs@)[i].kind == ink_args(item.attrs@)[j].kind,
    ensures
        construct_spec(item) matches Err(e) && e.kind == ErrorKind::DuplicateAnnotation,
{
    let args = ink_args(item.attrs@);
    lemma_first_duplicate_found(args, i, j, args.len());
}

/// A declaration with generic parameters whose ink! attributes pass is
/// refused for its generics.
pub proof fn lemma_generic_refused(item: ItemEnum)
    requires
        sanitize_spec(ArgContext::EventDecl, item.span, item.attrs@) is Ok,
        item.generics@.len() > 0,
    ensures
        construct_spec(item) matches Err(e) && e.kind == ErrorKind::GenericNotSupported,
{
}

/// A field whose first ink! argument is not `topic`, with no kind repeated,
/// is refused for its first argument.
pub proof fn lemma_field_wrong_first(f: Field)
    requires
        ink_args(f.attrs@).len() > 0,
        ink_args(f.attrs@)[0].kind != AttributeArgKind::Topic,
        distinct_kinds(ink_args(f.attrs@)),
    ensures
        field_error(f) matches Some(e) && e.kind == ErrorKind::InvalidFirstFieldAttribute,
{
    let args = ink_args(f.attrs@);
    lemma_ink_attrs_nonempty(f.attrs@);
    lemma_first_duplicate_none(args, args.len());
}

/// A field that gives `topic` more than once, and nothing else, is refused
/// as a duplicate.
pub proof fn lemma_field_repeated_topic(f: Field)
    requires
        ink_args(f.attrs@).len() >= 2,
        forall|i: int|
            0 <= i < ink_args(f.attrs@).len() ==> #[trigger] ink_args(f.attrs@)[i].kind
                == AttributeArgKind::Topic,
    ensures
        field_error(f) matches Some(e) && e.kind == ErrorKind::DuplicateAnnotation,
{
    let args = ink_args(f.attrs@);
    lemma_ink_attrs_nonempty(f.attrs@);
    assert(args[0].kind == args[1].kind);
    lemma_first_duplicate_found(args, 0, 1, args.len());
}

/// A field that gives `topic` first and then another kind, with no kind
/// repeated, is refused for the conflicting argument.
pub proof fn lemma_field_conflicting(f: Field, j: int)
    requires
        0 < j < ink_args(f.attrs@).len(),
        ink_args(f.attrs@)[0].kind == AttributeArgKind::Topic,
        ink_args(f.attrs@)[j].kind != AttributeArgKind::Topic,
        distinct_kinds(ink_args(f.attrs@)),
    ensures
        field_error(f) matches Some(e) && e.kind == ErrorKind::ConflictingFieldAttribute,
{
    let args = ink_args(f.attrs@);
    lemma_ink_attrs_nonempty(f.attrs@);
    lemma_first_duplicate_none(args, args.len());
    lemma_first_not_allowed_found(ArgContext::EventField, args, j, args.len());
}

proof fn lemma_fields_error_none(fs: Seq<Field>, n: nat)
    requires
        n <= fs.len(),
        forall|k: int| 0 <= k < n ==> (#[trigger] field_error(fs[k])) is None,
    ensures
        fields_error(fs, n) is None,
    decreases n,
{
    if n > 0 {
        lemma_fields_error_none(fs, (n - 1) as nat);
    }
}

proof fn lemma_variants_error_none(vs: Seq<Variant>, n: nat)
    requires
        n <= vs.len(),
        forall|k: int|
            0 <= k < n ==> (#[trigger] fields_error(vs[k].fields@, vs[k].fields@.len())) is None,
    ensures
        variants_error(vs, n) is None,
    decreases n,
{
    if n > 0 {
        lemma_variants_error_none(vs, (n - 1) as nat);
    }
}

/// In a declaration that passes its own checks, the first field that fails,
/// scanning variants and then fields in order, decides the error.
pub proof fn lemma_field_error_reported(item: ItemEnum, v: int, k: int)
    requires
        sanitize_spec(ArgContext::EventDecl, item.span, item.attrs@) is Ok,
        item.generics@.len() == 0,
        item.vis == Visibility::Public,
        0 <= v < item.variants@.len(),
        0 <= k < item.variants@[v].fields@.len(),
        forall|u: int|
            0 <= u < v ==> (#[trigger] fields_error(
                item.variants@[u].fields@,
                item.variants@[u].fields@.len(),
            )) is None,
        forall|l: int|
            0 <= l < k ==> (#[trigger] field_error(item.variants@[v].fields@[l])) is None,
        field_error(item.variants@[v].fields@[k]) is Some,
    ensures
        construct_spec(item) == Err::<bool, Error>(
            field_error(item.variants@[v].fields@[k])->0,
        ),
        item_shape_error(item) == field_error(item.variants@[v].fields@[k]),
{
    let vs = item.variants@;
    let fs = vs[v].fields@;
    lemma_fields_error_none(fs, k as nat);
    lemma_fields_error_stable(fs, (k + 1) as nat, fs.len());
    lemma_variants_error_none(vs, v as nat);
    lemma_variants_error_stable(vs, (v + 1) as nat, vs.len());
}

/// A struct declaration is checked exactly as the enum with one variant
/// that holds its fields.
pub proof fn lemma_struct_checked_as_enum(s: ItemStruct, e: ItemEnum)
    requires
        e.attrs@ == s.attrs@,
        e.span == s.span,
        e.generics@ == s.generics@,
        e.vis == s.vis,
        e.variants@.len() == 1,
        e.variants@[0].fields@ == s.fields@,
    ensures
        construct_struct_spec(s) == construct_spec(e),
{
    assert(variants_error(e.variants@, 0) is None);
}

/// The number of topic fields over all of `vs[0..n]`.
pub open spec fn total_topics(vs: Seq<Variant>, n: nat) -> nat
    decreases n,
{
    if n == 0 {
        0
    } else {
        total_topics(vs, (n - 1) as nat) + variant_topics(vs[n - 1])
    }
}

proof fn lemma_variant_topics_within_total(vs: Seq<Variant>, i: int, n: nat)
    requires
        0 <= i < n <= vs.len(),
    ensures
        variant_topics(vs[i]) <= total_topics(vs, n),
    decreases n,
{
    if i < n - 1 {
        lemma_variant_topics_within_total(vs, i, (n - 1) as nat);
    }
}

/// The largest topic count of a variant is at most the number of topic
/// fields over all variants: no variant holds more topics than the whole.
pub proof fn lemma_max_topics_within_total(def: InkEventDefinition, r: usize)
    requires
        forall|i: int|
            0 <= i < def.item.variants@.len() ==> variant_topics(def.item.variants@[i]) <= r,
        def.item.variants@.len() == 0 ==> r == 0,
        def.item.variants@.len() > 0 ==> exists|i: int|
            0 <= i < def.item.variants@.len() && variant_topics(def.item.variants@[i]) == r,
    ensures
        r <= total_topics(def.item.variants@, def.item.variants@.len()),
{
    let vs = def.item.variants@;
    if vs.len() > 0 {
        let i = choose|i: int| 0 <= i < vs.len() && variant_topics(vs[i]) == r;
        lemma_variant_topics_within_total(vs, i, vs.len());
    }
}

/// Checking one declaration twice gives the same outcome: the same flag and
/// declaration, or the same error.
pub proof fn lemma_construct_deterministic(
    item: ItemEnum,
    r1: Result<InkEventDefinition, Error>,
    r2: Result<InkEventDefinition, Error>,
)
    requires
        try_from_post(item, r1),
        try_from_post(item, r2),
    ensures
        r1 is Ok <==> r2 is Ok,
        r1 matches Err(e1) ==> r2 matches Err(e2) && e1 == e2,
        r1 matches Ok(d1) ==> r2 matches Ok(d2) && d1.anonymous == d2.anonymous
            && d1.item.attrs@ == d2.item.attrs@ && d1.item.ident == d2.item.ident
            && d1.item.vis == d2.item.vis && d1.item.generics == d2.item.generics
            && d1.item.variants == d2.item.variants && d1.item.span == d2.item.span,
{
}

} // verus!
