//! Splitting attributes into ink! and other ones, and normalising the
//! ink! arguments of one node.
use vstd::prelude::*;

use crate::ast::{call_site_span, Attribute, AttributeArgKind, AttributeFrag, Span};
use crate::error::{Error, ErrorKind};

verus! {

/// The arguments that one attribute contributes.
pub open spec fn frags_of(a: Attribute) -> Seq<AttributeFrag> {
    match a {
        Attribute::Ink { args, .. } => args@,
        Attribute::Other { .. } => seq![],
    }
}

/// All ink! arguments of `s`, in the order written.
pub open spec fn ink_args(s: Seq<Attribute>) -> Seq<AttributeFrag>
    decreases s.len(),
{
    if s.len() == 0 {
        seq![]
    } else {
        ink_args(s.drop_last()) + frags_of(s.last())
    }
}

/// The ink! attributes of `s`, in order.
pub open spec fn ink_attrs(s: Seq<Attribute>) -> Seq<Attribute>
    decreases s.len(),
{
    if s.len() == 0 {
        seq![]
    } else if s.last() is Ink {
        ink_attrs(s.drop_last()).push(s.last())
    } else {
        ink_attrs(s.drop_last())
    }
}

/// The attributes of `s` of other namespaces, in order.
pub open spec fn other_attrs(s: Seq<Attribute>) -> Seq<Attribute>
    decreases s.len(),
{
    if s.len() == 0 {
        seq![]
    } else if s.last() is Other {
        other_attrs(s.drop_last()).push(s.last())
    } else {
        other_attrs(s.drop_last())
    }
}

/// The index of the first of `args[0..n]` whose kind equals that of `args[j]`.
pub open spec fn earlier_same_kind(args: Seq<AttributeFrag>, j: int, n: nat) -> Option<int>
    decreases n,
{
    if n == 0 {
        None
    } else {
        match earlier_same_kind(args, j, (n - 1) as nat) {
            Some(i) => Some(i),
            None => if args[n - 1].kind == args[j].kind {
                Some(n - 1)
            } else {
                None
            },
        }
    }
}

/// The first repeated kind among `args[0..n]`: the index of its first
/// occurrence and the index of its earliest repetition.
pub open spec fn first_duplicate(args: Seq<AttributeFrag>, n: nat) -> Option<(int, int)>
    decreases n,
{
    if n == 0 {
        None
    } else {
        match first_duplicate(args, (n - 1) as nat) {
            Some(p) => Some(p),
            None => match earlier_same_kind(args, n - 1, (n - 1) as nat) {
                Some(i) => Some((i, n - 1)),
                None => None,
            },
        }
    }
}

/// Whether no two of the arguments share a kind.
pub open spec fn distinct_kinds(args: Seq<AttributeFrag>) -> bool {
    forall|i: int, j: int| 0 <= i < j < args.len() ==> args[i].kind != args[j].kind
}

/// The normalised arguments of one node: all of them in order, or the
/// error when there are none or one kind is repeated.
pub open spec fn expand_spec(args: Seq<AttributeFrag>) -> Result<Seq<AttributeFrag>, Error> {
    if args.len() == 0 {
        Err(
            Error {
                kind: ErrorKind::EmptyExpandedAttributes,
                span: call_site_span(),
                first_seen: None,
                context: None,
            },
        )
    } else {
        match first_duplicate(args, args.len()) {
            Some((i, j)) => Err(
                Error {
                    kind: ErrorKind::DuplicateAnnotation,
                    span: args[j].span,
                    first_seen: Some(args[i].span),
                    context: None,
                },
            ),
            None => Ok(args),
        }
    }
}

pub proof fn lemma_earlier_same_kind_found(args: Seq<AttributeFrag>, i: int, j: int, n: nat)
    requires
        0 <= i < n <= args.len(),
        0 <= j < args.len(),
        args[i].kind == args[j].kind,
    ensures
        earlier_same_kind(args, j, n) is Some,
    decreases n,
{
    if i < n - 1 {
        lemma_earlier_same_kind_found(args, i, j, (n - 1) as nat);
    }
}

pub proof fn lemma_first_duplicate_stable(args: Seq<AttributeFrag>, n: nat, m: nat)
    requires
        n <= m,
        first_duplicate(args, n) is Some,
    ensures
        first_duplicate(args, m) == first_duplicate(args, n),
    decreases m,
{
    if n < m {
        lemma_first_duplicate_stable(args, n, (m - 1) as nat);
    }
}

/// A repeated kind among the first `n` arguments is always found.
pub proof fn lemma_first_duplicate_found(args: Seq<AttributeFrag>, i: int, j: int, n: nat)
    requires
        0 <= i < j < n <= args.len(),
        args[i].kind == args[j].kind,
    ensures
        first_duplicate(args, n) is Some,
    decreases n,
{
    if j < n - 1 {
        lemma_first_duplicate_found(args, i, j, (n - 1) as nat);
    } else {
        lemma_earlier_same_kind_found(args, i, j, j as nat);
    }
}

/// Without a repeated kind no duplicate is reported.
pub proof fn lemma_first_duplicate_none(args: Seq<AttributeFrag>, n: nat)
    requires
        n <= args.len(),
        distinct_kinds(args),
    ensures
        first_duplicate(args, n) is None,
    decreases n,
{
    if n > 0 {
        lemma_first_duplicate_none(args, (n - 1) as nat);
        lemma_earlier_same_kind_none(args, n - 1, (n - 1) as nat);
    }
}

pub proof fn lemma_earlier_same_kind_none(args: Seq<AttributeFrag>, j: int, n: nat)
    requires
        0 <= j < args.len(),
        n <= j,
        distinct_kinds(args),
    ensures
        earlier_same_kind(args, j, n) is None,
    decreases n,
{
    if n > 0 {
        lemma_earlier_same_kind_none(args, j, (n - 1) as nat);
    }
}

pub proof fn lemma_ink_args_of_ink_attrs(s: Seq<Attribute>)
    ensures
        ink_args(ink_attrs(s)) == ink_args(s),
    decreases s.len(),
{
    if s.len() > 0 {
        lemma_ink_args_of_ink_attrs(s.drop_last());
        if s.last() is Ink {
            let t = ink_attrs(s.drop_last()).push(s.last());
            assert(t.drop_last() =~= ink_attrs(s.drop_last()));
        }
    }
}

/// Splits `attrs` into its ink! attributes and the others, each in the
/// order written.
pub fn partition_attributes(attrs: Vec<Attribute>) -> (r: (Vec<Attribute>, Vec<Attribute>))
    ensures
        r.0@ == ink_attrs(attrs@),
        r.1@ == other_attrs(attrs@),
{
    let ghost orig = attrs@;
    let mut rest = attrs;
    assert(orig.len() <= usize::MAX) by {
        assert(rest@.len() == rest.len());
    }
    let mut ink: Vec<Attribute> = Vec::new();
    let mut other: Vec<Attribute> = Vec::new();
    let mut k: usize = 0;
    while rest.len() > 0
        invariant
            k <= orig.len() <= usize::MAX,
            rest@ == orig.skip(k as int),
            ink@ == ink_attrs(orig.take(k as int)),
            other@ == other_attrs(orig.take(k as int)),
        decreases rest.len(),
    {
        let a = rest.remove(0);
        assert(orig.take(k + 1).drop_last() =~= orig.take(k as int));
        assert(a == orig[k as int]);
        match a {
            Attribute::Ink { .. } => ink.push(a),
            Attribute::Other { .. } => other.push(a),
        }
        k = k + 1;
        assert(rest@ =~= orig.skip(k as int));
    }
    assert(orig.take(k as int) =~= orig);
    (ink, other)
}

/// Whether any of `attrs` is an ink! attribute.
pub fn has_ink_attribute(attrs: &Vec<Attribute>) -> (r: bool)
    ensures
        r == (ink_attrs(attrs@).len() > 0),
{
    let mut i: usize = 0;
    while i < attrs.len()
        invariant
            i <= attrs@.len(),
            ink_attrs(attrs@.take(i as int)).len() == 0,
        decreases attrs.len() - i,
    {
        assert(attrs@.take(i + 1).drop_last() =~= attrs@.take(i as int));
        if let Attribute::Ink { .. } = &attrs[i] {
            proof {
                lemma_ink_attrs_grows(attrs@, (i + 1) as nat);
            }
            return true;
        }
        i = i + 1;
    }
    assert(attrs@.take(i as int) =~= attrs@);
    false
}

proof fn lemma_ink_attrs_grows(s: Seq<Attribute>, n: nat)
    requires
        n <= s.len(),
        ink_attrs(s.take(n as int)).len() > 0,
    ensures
        ink_attrs(s).len() > 0,
    decreases s.len() - n,
{
    if n < s.len() {
        assert(s.take(n + 1 as int).drop_last() =~= s.take(n as int));
        lemma_ink_attrs_grows(s, n + 1);
    } else {
        assert(s.take(n as int) =~= s);
    }
}

/// All ink! arguments of `attrs`, in the order written.
pub fn collect_ink_args(attrs: &Vec<Attribute>) -> (r: Vec<AttributeFrag>)
    ensures
        r@ == ink_args(attrs@),
{
    let mut out: Vec<AttributeFrag> = Vec::new();
    let mut i: usize = 0;
    while i < attrs.len()
        invariant
            i <= attrs@.len(),
            out@ == ink_args(attrs@.take(i as int)),
        decreases attrs.len() - i,
    {
        assert(attrs@.take(i + 1).drop_last() =~= attrs@.take(i as int));
        if let Attribute::Ink { args, .. } = &attrs[i] {
            let ghost before = out@;
            let mut k: usize = 0;
            while k < args.len()
                invariant
                    k <= args@.len(),
                    out@ == before + args@.take(k as int),
                decreases args.len() - k,
            {
                out.push(args[k]);
                k = k + 1;
                assert(out@ =~= before + args@.take(k as int));
            }
            assert(args@.take(k as int) =~= args@);
        } else {
            assert(out@ =~= out@ + seq![]);
        }
        i = i + 1;
    }
    assert(attrs@.take(i as int) =~= attrs@);
    out
}

/// The normalised ink! arguments of one node: not empty, and no kind
/// given twice.
#[derive(Debug, PartialEq, Eq)]
pub struct InkAttribute {
    args: Vec<AttributeFrag>,
}

impl InkAttribute {
    pub closed spec fn view(&self) -> Seq<AttributeFrag> {
        self.args@
    }

    pub open spec fn wf(&self) -> bool {
        &&& self@.len() > 0
        &&& distinct_kinds(self@)
    }

    /// Gathers the arguments of a node's ink! attributes, failing when
    /// there is none or a kind is given twice.
    pub fn from_expanded(args: Vec<AttributeFrag>) -> (r: Result<InkAttribute, Error>)
        ensures
            match r {
                Ok(a) => expand_spec(args@) == Ok::<_, Error>(a@) && a.wf(),
                Err(e) => expand_spec(args@) == Err::<Seq<AttributeFrag>, _>(e),
            },
    {
        if args.len() == 0 {
            return Err(Error::new(ErrorKind::EmptyExpandedAttributes, Span::call_site()));
        }
        let mut j: usize = 0;
        while j < args.len()
            invariant
                j <= args@.len(),
                first_duplicate(args@, j as nat) is None,
            decreases args.len() - j,
        {
            let mut i: usize = 0;
            while i < j
                invariant
                    i <= j < args@.len(),
                    first_duplicate(args@, j as nat) is None,
                    earlier_same_kind(args@, j as int, i as nat) is None,
                decreases j - i,
            {
                if args[i].kind == args[j].kind {
                    proof {
                        assert(earlier_same_kind(args@, j as int, (i + 1) as nat) == Some(i as int));
                        lemma_earlier_same_stable(args@, j as int, (i + 1) as nat, j as nat);
                        assert(first_duplicate(args@, (j + 1) as nat) == Some((i as int, j as int)));
                        lemma_first_duplicate_stable(args@, (j + 1) as nat, args@.len());
                    }
                    return Err(
                        Error {
                            kind: ErrorKind::DuplicateAnnotation,
                            span: args[j].span,
                            first_seen: Some(args[i].span),
                            context: None,
                        },
                    );
                }
                i = i + 1;
            }
            j = j + 1;
        }
        proof {
            lemma_no_duplicate_distinct(args@);
        }
        Ok(InkAttribute { args })
    }

    /// The first argument.
    pub fn first(&self) -> (r: AttributeFrag)
        requires
            self.wf(),
        ensures
            r == self@[0],
    {
        self.args[0]
    }

    /// All arguments, the first included.
    pub fn args(&self) -> (r: &Vec<AttributeFrag>)
        ensures
            r@ == self@,
    {
        &self.args
    }

    /// Whether `anonymous` is among the arguments.
    pub fn is_anonymous(&self) -> (r: bool)
        ensures
            r == has_kind(self@, AttributeArgKind::Anonymous),
    {
        contains_kind(&self.args, AttributeArgKind::Anonymous)
    }
}

/// Whether an argument of kind `k` is among `args`.
pub fn contains_kind(args: &Vec<AttributeFrag>, k: AttributeArgKind) -> (r: bool)
    ensures
        r == has_kind(args@, k),
{
    let mut i: usize = 0;
    while i < args.len()
        invariant
            i <= args@.len(),
            forall|j: int| 0 <= j < i ==> args@[j].kind != k,
        decreases args.len() - i,
    {
        if args[i].kind == k {
            return true;
        }
        i = i + 1;
    }
    false
}

/// The node an ink! argument stands on; it decides which kinds may appear.
#[derive(Clone, Copy, Debug, PartialEq, Eq, Structural)]
pub enum ArgContext {
    /// An event declaration: `event`, then at most `anonymous`.
    EventDecl,
    /// A field of an event: `topic` alone.
    EventField,
}

/// The kind that must come first in the context.
pub open spec fn required_first(ctx: ArgContext) -> AttributeArgKind {
    match ctx {
        ArgContext::EventDecl => AttributeArgKind::Event,
        ArgContext::EventField => AttributeArgKind::Topic,
    }
}

/// Whether kind `k` may appear at all in the context.
pub open spec fn allowed_in(ctx: ArgContext, k: AttributeArgKind) -> bool {
    match ctx {
        ArgContext::EventDecl => k == AttributeArgKind::Event || k == AttributeArgKind::Anonymous,
        ArgContext::EventField => k == AttributeArgKind::Topic,
    }
}

/// The index of the first of `args[0..n]` that the context does not allow.
pub open spec fn first_not_allowed(ctx: ArgContext, args: Seq<AttributeFrag>, n: nat) -> Option<int>
    decreases n,
{
    if n == 0 {
        None
    } else {
        match first_not_allowed(ctx, args, (n - 1) as nat) {
            Some(i) => Some(i),
            None => if allowed_in(ctx, args[n - 1].kind) {
                None
            } else {
                Some(n - 1)
            },
        }
    }
}

impl ArgContext {
    /// The kind that must come first here.
    pub fn required_first(self) -> (r: AttributeArgKind)
        ensures
            r == required_first(self),
    {
        match self {
            ArgContext::EventDecl => AttributeArgKind::Event,
            ArgContext::EventField => AttributeArgKind::Topic,
        }
    }

    /// Whether kind `k` may appear here.
    pub fn allows(self, k: AttributeArgKind) -> (r: bool)
        ensures
            r == allowed_in(self, k),
    {
        match self {
            ArgContext::EventDecl => k == AttributeArgKind::Event || k
                == AttributeArgKind::Anonymous,
            ArgContext::EventField => k == AttributeArgKind::Topic,
        }
    }
}

impl InkAttribute {
    /// The index of the first argument that `ctx` does not allow, if any.
    pub fn first_conflict(&self, ctx: ArgContext) -> (r: Option<usize>)
        ensures
            match r {
                Some(i) => i < self@.len() && first_not_allowed(ctx, self@, self@.len()) == Some(
                    i as int,
                ),
                None => first_not_allowed(ctx, self@, self@.len()) is None,
            },
    {
        let mut i: usize = 0;
        while i < self.args.len()
            invariant
                i <= self@.len(),
                first_not_allowed(ctx, self@, i as nat) is None,
            decreases self.args.len() - i,
        {
            if !ctx.allows(self.args[i].kind) {
                proof {
                    lemma_first_not_allowed_stable(ctx, self@, (i + 1) as nat, self@.len());
                }
                return Some(i);
            }
            i = i + 1;
        }
        None
    }
}

proof fn lemma_first_not_allowed_stable(ctx: ArgContext, args: Seq<AttributeFrag>, n: nat, m: nat)
    requires
        n <= m,
        first_not_allowed(ctx, args, n) is Some,
    ensures
        first_not_allowed(ctx, args, m) == first_not_allowed(ctx, args, n),
    decreases m,
{
    if n < m {
        lemma_first_not_allowed_stable(ctx, args, n, (m - 1) as nat);
    }
}

/// Where every argument is allowed, none is reported.
pub proof fn lemma_first_not_allowed_none(ctx: ArgContext, args: Seq<AttributeFrag>, n: nat)
    requires
        n <= args.len(),
        forall|i: int| 0 <= i < n ==> allowed_in(ctx, #[trigger] args[i].kind),
    ensures
        first_not_allowed(ctx, args, n) is None,
    decreases n,
{
    if n > 0 {
        lemma_first_not_allowed_none(ctx, args, (n - 1) as nat);
    }
}

/// An argument that is not allowed is always found.
pub proof fn lemma_first_not_allowed_found(ctx: ArgContext, args: Seq<AttributeFrag>, j: int, n: nat)
    requires
        0 <= j < n <= args.len(),
        !allowed_in(ctx, args[j].kind),
    ensures
        first_not_allowed(ctx, args, n) is Some,
    decreases n,
{
    if j < n - 1 {
        lemma_first_not_allowed_found(ctx, args, j, (n - 1) as nat);
        lemma_first_not_allowed_stable(ctx, args, (n - 1) as nat, n);
    }
}

/// Attributes that give an ink! argument hold an ink! attribute.
pub proof fn lemma_ink_attrs_nonempty(s: Seq<Attribute>)
    requires
        ink_args(s).len() > 0,
    ensures
        ink_attrs(s).len() > 0,
    decreases s.len(),
{
    if s.len() > 0 && !(s.last() is Ink) {
        assert(ink_args(s) == ink_args(s.drop_last()) + seq![]);
        assert(ink_args(s) =~= ink_args(s.drop_last()));
        lemma_ink_attrs_nonempty(s.drop_last());
    }
}

/// Whether an argument of kind `k` is among `args`.
pub open spec fn has_kind(args: Seq<AttributeFrag>, k: AttributeArgKind) -> bool {
    exists|i: int| 0 <= i < args.len() && args[i].kind == k
}

proof fn lemma_earlier_same_stable(args: Seq<AttributeFrag>, j: int, n: nat, m: nat)
    requires
        n <= m,
        earlier_same_kind(args, j, n) is Some,
    ensures
        earlier_same_kind(args, j, m) == earlier_same_kind(args, j, n),
    decreases m,
{
    if n < m {
        lemma_earlier_same_stable(args, j, n, (m - 1) as nat);
    }
}

proof fn lemma_no_duplicate_distinct(args: Seq<AttributeFrag>)
    requires
        first_duplicate(args, args.len()) is None,
    ensures
        distinct_kinds(args),
{
    assert forall|i: int, j: int| 0 <= i < j < args.len() implies args[i].kind
        != args[j].kind by {
        if args[i].kind == args[j].kind {
            lemma_first_duplicate_found(args, i, j, args.len());
        }
    }
}

} // verus!
