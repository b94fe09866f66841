//! The phase-polymorphic expression tree, the literal model it embeds,
//! and jump-target bookkeeping for control-flow reconstruction.

use crate::ident::Ident;
use crate::ops::BinOp;
use crate::ops::UnOp;
use crate::span::Pos;
use crate::span::Span;
use crate::types::TypeName;
use std::rc::Rc;
use vstd::prelude::*;

verus! {

/// How a string literal is to be interpreted by later phases; the four
/// subkinds share textual storage.
#[derive(Debug, Clone, Copy, PartialEq, Eq, Structural)]
pub enum Literal {
    String,
    Name,
    Resource,
    TweakDbId,
}

/// A typed literal value. The float variants carry the raw IEEE-754 bit
/// pattern; this core never interprets it, and no implicit numeric
/// coercion is implied.
#[derive(Debug, Clone)]
pub enum Constant {
    String(Literal, Rc<String>),
    F32(u32),
    F64(u64),
    I32(i32),
    I64(i64),
    U32(u32),
    U64(u64),
    Bool(bool),
}

/// A jump target: a bytecode position, and whether a structuring pass
/// has already absorbed the jump into a structured construct. The flag
/// moves from unresolved to resolved once and never back; a `Goto` to a
/// resolved target is inert but stays in the tree.
#[derive(Debug, Clone, PartialEq, Eq, Structural)]
pub struct Target {
    pub position: u16,
    pub resolved: bool,
}

impl Target {
    /// A fresh, still unresolved target.
    pub fn new(position: u16) -> (t: Target)
        ensures
            t == (Target { position, resolved: false }),
    {
        Target { position, resolved: false }
    }
}

/// What the six name-shaped payload slots of the tree look like in one
/// compiler phase. Each phase binds the whole bundle at once, so every
/// `Expr` variant is reused unchanged across phases.
pub trait NameKind {
    type Reference;

    type Callable;

    type Local;

    type Function;

    type Member;

    type Type;
}

/// The parse phase: every name is a plain identifier and every type
/// annotation a plain type name.
#[derive(Debug)]
pub struct SourceAst;

impl NameKind for SourceAst {
    type Reference = Ident;

    type Callable = Ident;

    type Local = Ident;

    type Function = Ident;

    type Member = Ident;

    type Type = TypeName;
}

/// An ordered sequence of expressions, used as a statement block.
pub struct ExprSeq<N: NameKind> {
    pub exprs: Vec<Expr<N>>,
}

impl<N: NameKind> ExprSeq<N> {
    pub fn new(exprs: Vec<Expr<N>>) -> (s: ExprSeq<N>)
        ensures
            s == (ExprSeq { exprs }),
    {
        ExprSeq { exprs }
    }
}

/// One arm of a `Switch`: a matcher expression and the body it guards.
pub struct SwitchCase<N: NameKind> {
    pub matcher: Expr<N>,
    pub body: ExprSeq<N>,
}

/// The tree of program constructs, one shape for every compiler phase.
/// Each variant carries the span of its syntactic extent.
pub enum Expr<N: NameKind> {
    Ident(N::Reference, Span),
    Constant(Constant, Span),
    ArrayLit(Vec<Expr<N>>, Option<N::Type>, Span),
    InterpolatedString(Rc<String>, Vec<(Expr<N>, Rc<String>)>, Span),
    Declare(N::Local, Option<N::Type>, Option<Box<Expr<N>>>, Span),
    Cast(N::Type, Box<Expr<N>>, Span),
    Assign(Box<Expr<N>>, Box<Expr<N>>, Span),
    Call(N::Callable, Vec<N::Type>, Vec<Expr<N>>, Span),
    MethodCall(Box<Expr<N>>, N::Function, Vec<Expr<N>>, Span),
    Member(Box<Expr<N>>, N::Member, Span),
    ArrayElem(Box<Expr<N>>, Box<Expr<N>>, Span),
    New(N::Type, Vec<Expr<N>>, Span),
    Return(Option<Box<Expr<N>>>, Span),
    Block(ExprSeq<N>),
    Switch(Box<Expr<N>>, Vec<SwitchCase<N>>, Option<ExprSeq<N>>, Span),
    Goto(Target, Span),
    If(Box<Expr<N>>, ExprSeq<N>, Option<ExprSeq<N>>, Span),
    Conditional(Box<Expr<N>>, Box<Expr<N>>, Box<Expr<N>>, Span),
    While(Box<Expr<N>>, ExprSeq<N>, Span),
    ForIn(N::Local, Box<Expr<N>>, ExprSeq<N>, Span),
    BinOp(Box<Expr<N>>, Box<Expr<N>>, BinOp, Span),
    UnOp(Box<Expr<N>>, UnOp, Span),
    This(Span),
    Super(Span),
    Break(Span),
    Null(Span),
}

impl<N: NameKind> Expr<N> {
    /// Structurally a no-op: a sequence whose elements are all
    /// recursively no-ops, or a jump whose target was already resolved.
    /// Every other variant counts, markers included.
    pub open spec fn spec_is_empty(self) -> bool
        decreases self,
    {
        match self {
            Expr::Block(seq) => forall|i: int|
                0 <= i < seq.exprs@.len() ==> (#[trigger] seq.exprs@[i]).spec_is_empty(),
            Expr::Goto(target, _) => target.resolved,
            _ => false,
        }
    }

    /// The node's span; a sequence spans from its first element to its
    /// last, and an empty sequence spans `[0, 0)`.
    pub open spec fn spec_span(self) -> Span
        decreases self,
    {
        match self {
            Expr::Ident(_, span) => span,
            Expr::Constant(_, span) => span,
            Expr::ArrayLit(_, _, span) => span,
            Expr::InterpolatedString(_, _, span) => span,
            Expr::Declare(_, _, _, span) => span,
            Expr::Cast(_, _, span) => span,
            Expr::Assign(_, _, span) => span,
            Expr::Call(_, _, _, span) => span,
            Expr::MethodCall(_, _, _, span) => span,
            Expr::Member(_, _, span) => span,
            Expr::ArrayElem(_, _, span) => span,
            Expr::New(_, _, span) => span,
            Expr::Return(_, span) => span,
            Expr::Block(seq) => if seq.exprs@.len() == 0 {
                Span { low: Pos(0), high: Pos(0) }
            } else {
                seq.exprs@[0].spec_span().spec_merge(
                    seq.exprs@[seq.exprs@.len() - 1].spec_span(),
                )
            },
            Expr::Switch(_, _, _, span) => span,
            Expr::Goto(_, span) => span,
            Expr::If(_, _, _, span) => span,
            Expr::Conditional(_, _, _, span) => span,
            Expr::While(_, _, span) => span,
            Expr::ForIn(_, _, _, span) => span,
            Expr::BinOp(_, _, _, span) => span,
            Expr::UnOp(_, _, span) => span,
            Expr::This(span) => span,
            Expr::Super(span) => span,
            Expr::Break(span) => span,
            Expr::Null(span) => span,
        }
    }

    /// The canonical empty sequence: a no-op block spanning `[0, 0)`.
    pub fn empty() -> (e: Expr<N>)
        ensures
            e matches Expr::Block(s) && s.exprs@.len() == 0,
            e.spec_is_empty(),
    {
        Expr::Block(ExprSeq { exprs: Vec::new() })
    }

    /// Decides whether the expression is structurally a no-op.
    #[verifier::loop_isolation(false)]
    pub fn is_empty(&self) -> (r: bool)
        ensures
            r == self.spec_is_empty(),
        decreases self,
    {
        match self {
            Expr::Block(seq) => {
                let n = seq.exprs.len();
                let mut i: usize = 0;
                while i < n
                    invariant
                        i <= n,
                        n == seq.exprs@.len(),
                        forall|j: int| 0 <= j < i ==> (#[trigger] seq.exprs@[j]).spec_is_empty(),
                    decreases n - i,
                {
                    if !seq.exprs[i].is_empty() {
                        return false;
                    }
                    i += 1;
                }
                true
            },
            Expr::Goto(target, _) => target.resolved,
            _ => false,
        }
    }

    /// The span of the node's syntactic extent.
    pub fn span(&self) -> (s: Span)
        ensures
            s == self.spec_span(),
        decreases self,
    {
        match self {
            Expr::Ident(_, span) => *span,
            Expr::Constant(_, span) => *span,
            Expr::ArrayLit(_, _, span) => *span,
            Expr::InterpolatedString(_, _, span) => *span,
            Expr::Declare(_, _, _, span) => *span,
            Expr::Cast(_, _, span) => *span,
            Expr::Assign(_, _, span) => *span,
            Expr::Call(_, _, _, span) => *span,
            Expr::MethodCall(_, _, _, span) => *span,
            Expr::Member(_, _, span) => *span,
            Expr::ArrayElem(_, _, span) => *span,
            Expr::New(_, _, span) => *span,
            Expr::Return(_, span) => *span,
            Expr::Block(seq) => {
                let n = seq.exprs.len();
                if n == 0 {
                    Span::zero()
                } else {
                    let first = seq.exprs[0].span();
                    let last = seq.exprs[n - 1].span();
                    first.merge(last)
                }
            },
            Expr::Switch(_, _, _, span) => *span,
            Expr::Goto(_, span) => *span,
            Expr::If(_, _, _, span) => *span,
            Expr::Conditional(_, _, _, span) => *span,
            Expr::While(_, _, span) => *span,
            Expr::ForIn(_, _, _, span) => *span,
            Expr::BinOp(_, _, _, span) => *span,
            Expr::UnOp(_, _, span) => *span,
            Expr::This(span) => *span,
            Expr::Super(span) => *span,
            Expr::Break(span) => *span,
            Expr::Null(span) => *span,
        }
    }
}

/// A sequence node's span is determined by its ends alone: an empty
/// sequence spans `[0, 0)`, and any other sequence spans the merge of
/// its first and last elements' spans.
pub proof fn lemma_seq_span<N: NameKind>(s: ExprSeq<N>)
    ensures
        s.exprs@.len() == 0 ==> Expr::Block(s).spec_span() == (Span { low: Pos(0), high: Pos(0) }),
        s.exprs@.len() >= 1 ==> Expr::Block(s).spec_span() == s.exprs@[0].spec_span().spec_merge(
            s.exprs@[s.exprs@.len() - 1].spec_span(),
        ),
{
}

} // verus!
