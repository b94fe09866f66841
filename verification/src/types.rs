//! The recursive generic type-name model: classification against the
//! reserved wrapper names, and three serializations of one recursive
//! structure — a mangled overload-resolution key, a pretty diagnostic
//! form, and a `:`-delimited constant-pool encoding with its
//! reconstruction parser.

use crate::ident::str_eq;
use crate::ident::Ident;
use std::rc::Rc;
use vstd::prelude::*;
use vstd::string::StrSliceExecFns;
use vstd::string::StringExecFns;

verus! {

/// Classification of a type name by its base identifier.
#[derive(Debug, Clone, Copy, PartialEq, Eq, Structural)]
pub enum Kind {
    Prim,
    Ref,
    WRef,
    ScriptRef,
    Array,
}

/// The mathematical shape of a type name: the base name's text and the
/// ordered type arguments, free of any representation detail.
#[verifier::ext_equal]
pub ghost struct TypeTree {
    pub name: Seq<char>,
    pub args: Seq<TypeTree>,
}

impl TypeTree {
    /// A type with no arguments.
    pub open spec fn leaf(name: Seq<char>) -> TypeTree {
        TypeTree { name, args: Seq::empty() }
    }

    /// Classification by the base name alone.
    pub open spec fn spec_kind(self) -> Kind {
        if self.name == "ref"@ {
            Kind::Ref
        } else if self.name == "wref"@ {
            Kind::WRef
        } else if self.name == "script_ref"@ {
            Kind::ScriptRef
        } else if self.name == "array"@ {
            Kind::Array
        } else {
            Kind::Prim
        }
    }

    /// Whether this node is a transparent reference wrapper.
    pub open spec fn is_wrapper(self) -> bool {
        self.spec_kind() == Kind::Ref || self.spec_kind() == Kind::WRef
    }

    /// Well-formed for unwrapping: every `ref`/`wref` layer carries its
    /// wrapped argument.
    pub open spec fn wf(self) -> bool
        decreases self,
    {
        (self.is_wrapper() ==> self.args.len() > 0) && (forall|i: int|
            0 <= i < self.args.len() ==> (#[trigger] self.args[i]).wf())
    }

    /// The first non-wrapper type under any `ref`/`wref` layers; a
    /// non-wrapper type is its own unwrapping.
    pub open spec fn spec_unwrapped(self) -> TypeTree
        decreases self,
    {
        if self.is_wrapper() && self.args.len() > 0 {
            self.args[0].spec_unwrapped()
        } else {
            self
        }
    }

    /// The canonical overload-resolution key: `ref`/`wref` layers are
    /// erased, an argument-free type is its bare name, and otherwise the
    /// mangled arguments follow in angle brackets, comma-separated with
    /// no spaces.
    pub open spec fn spec_mangled(self) -> Seq<char>
        decreases self,
    {
        if self.is_wrapper() && self.args.len() > 0 {
            self.args[0].spec_mangled()
        } else if self.args.len() == 0 {
            self.name
        } else {
            self.name + "<"@ + Self::spec_mangled_args(self.args) + ">"@
        }
    }

    /// The mangled arguments, joined by `,`.
    pub open spec fn spec_mangled_args(args: Seq<TypeTree>) -> Seq<char>
        decreases args,
    {
        if args.len() == 0 {
            Seq::empty()
        } else if args.len() == 1 {
            args[0].spec_mangled()
        } else {
            args[0].spec_mangled() + ","@ + Self::spec_mangled_args(args.drop_first())
        }
    }

    /// The human-readable form: no unwrapping, arguments separated by
    /// `", "`.
    pub open spec fn spec_pretty(self) -> Seq<char>
        decreases self,
    {
        if self.args.len() == 0 {
            self.name
        } else {
            self.name + "<"@ + Self::spec_pretty_args(self.args) + ">"@
        }
    }

    /// The pretty arguments, joined by `", "`.
    pub open spec fn spec_pretty_args(args: Seq<TypeTree>) -> Seq<char>
        decreases args,
    {
        if args.len() == 0 {
            Seq::empty()
        } else if args.len() == 1 {
            args[0].spec_pretty()
        } else {
            args[0].spec_pretty() + ", "@ + Self::spec_pretty_args(args.drop_first())
        }
    }

    /// The constant-pool encoding: an argument-free type is its bare
    /// name; otherwise the name and every argument's own encoding, all
    /// joined with `:`.
    pub open spec fn spec_repr(self) -> Seq<char>
        decreases self,
    {
        if self.args.len() == 0 {
            self.name
        } else {
            self.name + ":"@ + Self::spec_repr_args(self.args)
        }
    }

    /// The encoded arguments, joined by `:`.
    pub open spec fn spec_repr_args(args: Seq<TypeTree>) -> Seq<char>
        decreases args,
    {
        if args.len() == 0 {
            Seq::empty()
        } else if args.len() == 1 {
            args[0].spec_repr()
        } else {
            args[0].spec_repr() + ":"@ + Self::spec_repr_args(args.drop_first())
        }
    }
}

proof fn lemma_mangled_args_push(ts: Seq<TypeTree>, x: TypeTree)
    requires
        ts.len() >= 1,
    ensures
        TypeTree::spec_mangled_args(ts.push(x)) == TypeTree::spec_mangled_args(ts) + ","@
            + x.spec_mangled(),
    decreases ts.len(),
{
    if ts.len() == 1 {
        assert(ts.push(x).drop_first() =~= seq![x]);
        assert(TypeTree::spec_mangled_args(seq![x]) == x.spec_mangled());
        assert(TypeTree::spec_mangled_args(ts.push(x)) == ts[0].spec_mangled() + ","@
            + x.spec_mangled());
    } else {
        lemma_mangled_args_push(ts.drop_first(), x);
        assert(ts.push(x).drop_first() =~= ts.drop_first().push(x));
        assert(TypeTree::spec_mangled_args(ts.push(x)) == ts[0].spec_mangled() + ","@
            + TypeTree::spec_mangled_args(ts.drop_first().push(x)));
        assert(TypeTree::spec_mangled_args(ts.push(x)) =~= TypeTree::spec_mangled_args(ts) + ","@
            + x.spec_mangled());
    }
}

proof fn lemma_pretty_args_push(ts: Seq<TypeTree>, x: TypeTree)
    requires
        ts.len() >= 1,
    ensures
        TypeTree::spec_pretty_args(ts.push(x)) == TypeTree::spec_pretty_args(ts) + ", "@
            + x.spec_pretty(),
    decreases ts.len(),
{
    if ts.len() == 1 {
        assert(ts.push(x).drop_first() =~= seq![x]);
        assert(TypeTree::spec_pretty_args(seq![x]) == x.spec_pretty());
        assert(TypeTree::spec_pretty_args(ts.push(x)) == ts[0].spec_pretty() + ", "@
            + x.spec_pretty());
    } else {
        lemma_pretty_args_push(ts.drop_first(), x);
        assert(ts.push(x).drop_first() =~= ts.drop_first().push(x));
        assert(TypeTree::spec_pretty_args(ts.push(x)) == ts[0].spec_pretty() + ", "@
            + TypeTree::spec_pretty_args(ts.drop_first().push(x)));
        assert(TypeTree::spec_pretty_args(ts.push(x)) =~= TypeTree::spec_pretty_args(ts) + ", "@
            + x.spec_pretty());
    }
}

proof fn lemma_repr_args_push(ts: Seq<TypeTree>, x: TypeTree)
    requires
        ts.len() >= 1,
    ensures
        TypeTree::spec_repr_args(ts.push(x)) == TypeTree::spec_repr_args(ts) + ":"@
            + x.spec_repr(),
    decreases ts.len(),
{
    if ts.len() == 1 {
        assert(ts.push(x).drop_first() =~= seq![x]);
        assert(TypeTree::spec_repr_args(seq![x]) == x.spec_repr());
        assert(TypeTree::spec_repr_args(ts.push(x)) == ts[0].spec_repr() + ":"@ + x.spec_repr());
    } else {
        lemma_repr_args_push(ts.drop_first(), x);
        assert(ts.push(x).drop_first() =~= ts.drop_first().push(x));
        assert(TypeTree::spec_repr_args(ts.push(x)) == ts[0].spec_repr() + ":"@
            + TypeTree::spec_repr_args(ts.drop_first().push(x)));
        assert(TypeTree::spec_repr_args(ts.push(x)) =~= TypeTree::spec_repr_args(ts) + ":"@
            + x.spec_repr());
    }
}

/// Mangling erases a reference wrapper: a `ref` or `wref` layer mangles
/// to exactly what its wrapped argument mangles to.
pub proof fn lemma_mangled_erases_wrapper(w: TypeTree)
    requires
        w.is_wrapper(),
        w.args.len() > 0,
    ensures
        w.spec_mangled() == w.args[0].spec_mangled(),
{
}

/// The text split at every occurrence of `sep`: one piece per
/// `sep`-free run, with an empty piece between adjacent separators and
/// at each separated end. Never empty; splitting empty text yields one
/// empty piece.
pub open spec fn split_on(s: Seq<char>, sep: char) -> Seq<Seq<char>>
    decreases s.len(),
{
    if s.len() == 0 {
        seq![Seq::<char>::empty()]
    } else if s[0] == sep {
        seq![Seq::<char>::empty()] + split_on(s.drop_first(), sep)
    } else {
        let rest = split_on(s.drop_first(), sep);
        seq![seq![s[0]] + rest[0]] + rest.drop_first()
    }
}

/// The right-nested chain over the given names: each later piece is the
/// sole type argument of the one before it; no pieces give a nameless
/// leaf.
pub open spec fn chain_of(parts: Seq<Seq<char>>) -> TypeTree
    decreases parts.len(),
{
    if parts.len() <= 1 {
        TypeTree {
            name: if parts.len() == 1 {
                parts[0]
            } else {
                Seq::empty()
            },
            args: Seq::empty(),
        }
    } else {
        TypeTree { name: parts[0], args: seq![chain_of(parts.drop_first())] }
    }
}

/// The first piece extended on its left by `p`.
spec fn prepend_first(p: Seq<char>, ss: Seq<Seq<char>>) -> Seq<Seq<char>> {
    seq![p + ss[0]] + ss.drop_first()
}

proof fn lemma_split_on_nonempty(s: Seq<char>, sep: char)
    ensures
        split_on(s, sep).len() >= 1,
    decreases s.len(),
{
    if s.len() > 0 {
        lemma_split_on_nonempty(s.drop_first(), sep);
    }
}

proof fn lemma_split_no_sep(s: Seq<char>, sep: char)
    requires
        !s.contains(sep),
    ensures
        split_on(s, sep) == seq![s],
    decreases s.len(),
{
    if s.len() == 0 {
        assert(s =~= Seq::<char>::empty());
        assert(split_on(s, sep) =~= seq![s]);
    } else {
        assert(s[0] != sep);
        assert(!s.drop_first().contains(sep)) by {
            if s.drop_first().contains(sep) {
                let j = choose|j: int|
                    0 <= j < s.drop_first().len() && s.drop_first()[j] == sep;
                assert(s[j + 1] == sep);
            }
        }
        lemma_split_no_sep(s.drop_first(), sep);
        assert(seq![s[0]] + s.drop_first() =~= s);
        assert(split_on(s, sep) =~= seq![s]);
    }
}

proof fn lemma_split_prefix(a: Seq<char>, b: Seq<char>, sep: char)
    requires
        !a.contains(sep),
    ensures
        split_on(a + seq![sep] + b, sep) == seq![a] + split_on(b, sep),
    decreases a.len(),
{
    let s = a + seq![sep] + b;
    if a.len() == 0 {
        assert(s[0] == sep);
        assert(s.drop_first() =~= b);
        assert(a =~= Seq::<char>::empty());
        assert(split_on(s, sep) =~= seq![a] + split_on(b, sep));
    } else {
        assert(s[0] == a[0]);
        assert(s[0] != sep);
        assert(!a.drop_first().contains(sep)) by {
            if a.drop_first().contains(sep) {
                let j = choose|j: int|
                    0 <= j < a.drop_first().len() && a.drop_first()[j] == sep;
                assert(a[j + 1] == sep);
            }
        }
        assert(s.drop_first() =~= a.drop_first() + seq![sep] + b);
        lemma_split_prefix(a.drop_first(), b, sep);
        let rest = split_on(s.drop_first(), sep);
        assert(rest == seq![a.drop_first()] + split_on(b, sep));
        assert(rest[0] == a.drop_first());
        assert(seq![s[0]] + rest[0] =~= a);
        assert(rest.drop_first() =~= split_on(b, sep));
        assert(split_on(s, sep) =~= seq![a] + split_on(b, sep));
    }
}

impl TypeTree {
    /// A single-argument nesting chain the `:`-encoding can carry
    /// faithfully: at most one argument at every level, and no `:`
    /// inside any name.
    pub open spec fn chain_shaped(self) -> bool
        decreases self,
    {
        &&& self.args.len() <= 1
        &&& !self.name.contains(':')
        &&& (self.args.len() == 1 ==> self.args[0].chain_shaped())
    }
}

/// Decoding inverts the constant-pool encoding on every single-argument
/// nesting chain whose names are free of the `:` delimiter. Genuinely
/// multi-argument types fall outside this shape: their arguments are
/// flattened into one `:`-run and decode as a single-argument chain.
pub proof fn lemma_repr_round_trip(t: TypeTree)
    requires
        t.chain_shaped(),
    ensures
        chain_of(split_on(t.spec_repr(), ':')) == t,
    decreases t,
{
    if t.args.len() == 0 {
        lemma_split_no_sep(t.name, ':');
        assert(chain_of(seq![t.name]).args =~= t.args);
        assert(chain_of(seq![t.name]) =~~= t);
    } else {
        lemma_repr_round_trip(t.args[0]);
        assert(t.spec_repr() == t.name + ":"@ + t.args[0].spec_repr());
        assert(":"@ =~= seq![':']) by {
            reveal_strlit(":");
        }
        lemma_split_prefix(t.name, t.args[0].spec_repr(), ':');
        assert(t.name + ":"@ + t.args[0].spec_repr() =~= t.name + seq![':']
            + t.args[0].spec_repr());
        let parts = split_on(t.spec_repr(), ':');
        assert(parts == seq![t.name] + split_on(t.args[0].spec_repr(), ':'));
        lemma_split_on_nonempty(t.args[0].spec_repr(), ':');
        assert(parts.len() >= 2);
        assert(parts[0] == t.name);
        assert(parts.drop_first() =~= split_on(t.args[0].spec_repr(), ':'));
        assert(chain_of(parts).args =~= seq![chain_of(parts.drop_first())]);
        assert(seq![chain_of(parts.drop_first())] =~= t.args);
        assert(chain_of(parts) =~~= t);
    }
}

/// The malformed-encoding failure of [`TypeName::from_repr`].
#[derive(Debug, Clone, Copy, PartialEq, Eq, Structural)]
pub enum ReprError {
    /// The encoded text was empty, so it holds no `:`-delimited segment.
    Empty,
}

/// Relies on `String::push`: appends exactly one character.
#[verifier::external_body]
fn push_char(s: &mut String, c: char)
    ensures
        final(s)@ == old(s)@.push(c),
{
    s.push(c);
}

/// A recursively nested, generically parameterized type descriptor: a
/// base identifier plus an ordered list of type arguments. The argument
/// list's arity is not enforced here; producers owe each `ref`/`wref`
/// its single wrapped argument (see [`TypeTree::wf`]).
#[derive(Debug)]
pub struct TypeName {
    name: Ident,
    arguments: Vec<TypeName>,
}

impl TypeName {
    /// The content of the descriptor, representation set aside.
    pub closed spec fn tree(self) -> TypeTree
        decreases self,
    {
        TypeTree {
            name: self.name@,
            args: Seq::new(
                self.arguments@.len(),
                |i: int|
                    if 0 <= i < self.arguments@.len() {
                        self.arguments@[i].tree()
                    } else {
                        TypeTree::leaf(Seq::empty())
                    },
            ),
        }
    }
}

impl View for TypeName {
    type V = TypeTree;

    open spec fn view(&self) -> TypeTree {
        self.tree()
    }
}

impl TypeName {
    pub fn new(name: Ident, arguments: Vec<TypeName>) -> (t: TypeName)
        ensures
            t@.name == name@,
            t@.args.len() == arguments@.len(),
            forall|i: int| 0 <= i < arguments@.len() ==> t@.args[i] == arguments@[i]@,
    {
        TypeName { name, arguments }
    }

    /// A type with no arguments over static text.
    pub fn basic(name: &'static str) -> (t: TypeName)
        ensures
            t@ == TypeTree::leaf(name@),
    {
        let t = TypeName { name: Ident::Static(name), arguments: Vec::new() };
        proof {
            assert(t@.args =~= Seq::<TypeTree>::empty());
            assert(t@ =~~= TypeTree::leaf(name@));
        }
        t
    }

    /// A type with no arguments over shared owned text.
    pub fn basic_owned(name: Rc<String>) -> (t: TypeName)
        ensures
            t@ == TypeTree::leaf(name@),
    {
        let t = TypeName { name: Ident::Owned(name), arguments: Vec::new() };
        proof {
            assert(t@.args =~= Seq::<TypeTree>::empty());
            assert(t@ =~~= TypeTree::leaf(t@.name));
        }
        t
    }

    /// The base identifier.
    pub fn name(&self) -> (r: Ident)
        ensures
            r@ == self@.name,
    {
        self.name.duplicate()
    }

    /// The ordered type arguments.
    pub fn arguments(&self) -> (r: &[TypeName])
        ensures
            r@.len() == self@.args.len(),
            forall|i: int| 0 <= i < r@.len() ==> (#[trigger] r@[i])@ == self@.args[i],
    {
        self.arguments.as_slice()
    }

    /// Classifies the type against the reserved wrapper names.
    pub fn kind(&self) -> (k: Kind)
        ensures
            k == self@.spec_kind(),
    {
        let name = self.name.as_str();
        if str_eq(name, "ref") {
            Kind::Ref
        } else if str_eq(name, "wref") {
            Kind::WRef
        } else if str_eq(name, "script_ref") {
            Kind::ScriptRef
        } else if str_eq(name, "array") {
            Kind::Array
        } else {
            Kind::Prim
        }
    }

    /// Strips `ref`/`wref` layers to expose the underlying nominal type.
    pub fn unwrapped(&self) -> (r: &TypeName)
        requires
            self@.wf(),
        ensures
            r@ == self@.spec_unwrapped(),
            r@.wf(),
        decreases self,
    {
        match self.kind() {
            Kind::Ref | Kind::WRef => {
                proof {
                    assert((self@.args[0]).wf());
                }
                self.arguments[0].unwrapped()
            },
            _ => self,
        }
    }

    /// The canonical key identifying the type in function signatures:
    /// reference wrapping is erased, so `ref`/`wref` variants of one
    /// type mangle identically by design.
    pub fn mangled(&self) -> (r: Ident)
        requires
            self@.wf(),
        ensures
            r@ == self@.spec_mangled(),
        decreases self,
    {
        match self.kind() {
            Kind::Ref | Kind::WRef => {
                proof {
                    assert((self@.args[0]).wf());
                }
                self.arguments[0].mangled()
            },
            _ => {
                if self.arguments.len() == 0 {
                    self.name.duplicate()
                } else {
                    let mut s = String::new();
                    s.append(self.name.as_str());
                    s.append("<");
                    let n = self.arguments.len();
                    let mut i: usize = 0;
                    while i < n
                        invariant
                            self@.wf(),
                            n == self.arguments@.len(),
                            n == self@.args.len(),
                            i <= n,
                            s@ == self@.name + "<"@ + TypeTree::spec_mangled_args(
                                self@.args.subrange(0, i as int),
                            ),
                        decreases n - i,
                    {
                        if i > 0 {
                            s.append(",");
                        }
                        proof {
                            assert((self@.args[i as int]).wf());
                        }
                        let m = self.arguments[i].mangled();
                        s.append(m.as_str());
                        proof {
                            let pre = self@.args.subrange(0, i as int);
                            assert(self@.args.subrange(0, i + 1 as int) =~= pre.push(
                                self@.args[i as int],
                            ));
                            if i > 0 {
                                lemma_mangled_args_push(pre, self@.args[i as int]);
                            } else {
                                assert(pre.push(self@.args[i as int]) =~= seq![
                                    self@.args[i as int],
                                ]);
                            }
                        }
                        i += 1;
                    }
                    s.append(">");
                    proof {
                        assert(self@.args.subrange(0, self@.args.len() as int) =~= self@.args);
                    }
                    Ident::new(s)
                }
            },
        }
    }

    /// The human-readable form for diagnostics; reference wrapping is
    /// kept visible.
    pub fn pretty(&self) -> (r: Ident)
        ensures
            r@ == self@.spec_pretty(),
        decreases self,
    {
        if self.arguments.len() == 0 {
            self.name.duplicate()
        } else {
            let mut s = String::new();
            s.append(self.name.as_str());
            s.append("<");
            let n = self.arguments.len();
            let mut i: usize = 0;
            while i < n
                invariant
                    n == self.arguments@.len(),
                    n == self@.args.len(),
                    i <= n,
                    s@ == self@.name + "<"@ + TypeTree::spec_pretty_args(
                        self@.args.subrange(0, i as int),
                    ),
                decreases n - i,
            {
                if i > 0 {
                    s.append(", ");
                }
                let m = self.arguments[i].pretty();
                s.append(m.as_str());
                proof {
                    let pre = self@.args.subrange(0, i as int);
                    assert(self@.args.subrange(0, i + 1 as int) =~= pre.push(
                        self@.args[i as int],
                    ));
                    if i > 0 {
                        lemma_pretty_args_push(pre, self@.args[i as int]);
                    } else {
                        assert(pre.push(self@.args[i as int]) =~= seq![self@.args[i as int]]);
                    }
                }
                i += 1;
            }
            s.append(">");
            proof {
                assert(self@.args.subrange(0, self@.args.len() as int) =~= self@.args);
            }
            Ident::new(s)
        }
    }

    /// The constant-pool encoding of the type.
    pub fn repr(&self) -> (r: Ident)
        ensures
            r@ == self@.spec_repr(),
        decreases self,
    {
        if self.arguments.len() == 0 {
            self.name.duplicate()
        } else {
            let mut s = String::new();
            s.append(self.name.as_str());
            let n = self.arguments.len();
            let mut i: usize = 0;
            while i < n
                invariant
                    n == self.arguments@.len(),
                    n == self@.args.len(),
                    i <= n,
                    i == 0 ==> s@ == self@.name,
                    i > 0 ==> s@ == self@.name + ":"@ + TypeTree::spec_repr_args(
                        self@.args.subrange(0, i as int),
                    ),
                decreases n - i,
            {
                s.append(":");
                let m = self.arguments[i].repr();
                s.append(m.as_str());
                proof {
                    let pre = self@.args.subrange(0, i as int);
                    assert(self@.args.subrange(0, i + 1 as int) =~= pre.push(
                        self@.args[i as int],
                    ));
                    if i > 0 {
                        lemma_repr_args_push(pre, self@.args[i as int]);
                    } else {
                        assert(pre.push(self@.args[i as int]) =~= seq![self@.args[i as int]]);
                    }
                }
                i += 1;
            }
            proof {
                assert(self@.args.subrange(0, self@.args.len() as int) =~= self@.args);
            }
            Ident::new(s)
        }
    }

    /// Decodes a constant-pool encoding: the text is split on `:` and
    /// rebuilt as a right-nested chain, each segment the sole type
    /// argument of the one before it. Empty text is the one malformed
    /// encoding. This inverts [`TypeName::repr`] only for
    /// single-argument nesting chains; a multi-argument type's encoding
    /// decodes as a chain instead.
    pub fn from_repr(s: &str) -> (r: Result<TypeName, ReprError>)
        ensures
            match r {
                Ok(t) => s@.len() > 0 && t@ == chain_of(split_on(s@, ':')),
                Err(e) => s@.len() == 0 && e == ReprError::Empty,
            },
    {
        let n = s.unicode_len();
        if n == 0 {
            return Err(ReprError::Empty);
        }
        let mut parts: Vec<String> = Vec::new();
        let ghost mut gparts: Seq<Seq<char>> = Seq::empty();
        let mut cur = String::new();
        let mut i: usize = 0;
        proof {
            lemma_split_on_nonempty(s@, ':');
            assert(s@.subrange(0, n as int) =~= s@);
            assert(gparts + prepend_first(cur@, split_on(s@, ':')) =~~= split_on(s@, ':'));
        }
        while i < n
            invariant
                i <= n,
                n == s@.len(),
                gparts.len() == parts@.len(),
                forall|j: int| 0 <= j < gparts.len() ==> gparts[j] == parts@[j]@,
                split_on(s@.subrange(i as int, n as int), ':').len() >= 1,
                gparts + prepend_first(cur@, split_on(s@.subrange(i as int, n as int), ':'))
                    == split_on(s@, ':'),
            decreases n - i,
        {
            let c = s.get_char(i);
            proof {
                lemma_split_on_nonempty(s@.subrange(i + 1, n as int), ':');
                assert(s@.subrange(i as int, n as int) =~= seq![s@[i as int]] + s@.subrange(
                    i + 1,
                    n as int,
                ));
                assert(s@.subrange(i as int, n as int).drop_first() =~= s@.subrange(
                    i + 1,
                    n as int,
                ));
            }
            let ghost rem_split = split_on(s@.subrange(i + 1, n as int), ':');
            if c == ':' {
                let ghost curv = cur@;
                parts.push(cur);
                cur = String::new();
                proof {
                    gparts = gparts.push(curv);
                    assert(split_on(s@.subrange(i as int, n as int), ':') =~~= seq![
                        Seq::<char>::empty(),
                    ] + rem_split);
                    assert(prepend_first(curv, seq![Seq::<char>::empty()] + rem_split) =~~= seq![
                        curv,
                    ] + rem_split);
                    assert(prepend_first(Seq::empty(), rem_split) =~~= rem_split);
                    assert(gparts + prepend_first(cur@, rem_split) =~~= split_on(s@, ':'));
                }
            } else {
                let ghost prev = cur@;
                push_char(&mut cur, c);
                proof {
                    assert(split_on(s@.subrange(i as int, n as int), ':') =~~= prepend_first(
                        seq![s@[i as int]],
                        rem_split,
                    ));
                    assert(prev + (seq![s@[i as int]] + rem_split[0]) =~= cur@ + rem_split[0]);
                    assert(prepend_first(prev, prepend_first(seq![s@[i as int]], rem_split))
                        =~~= prepend_first(cur@, rem_split));
                }
            }
            i += 1;
        }
        let ghost curv = cur@;
        parts.push(cur);
        proof {
            gparts = gparts.push(curv);
            assert(s@.subrange(n as int, n as int) =~= Seq::<char>::empty());
            assert(prepend_first(curv, split_on(Seq::empty(), ':')) =~~= seq![curv]);
            assert(gparts =~~= split_on(s@, ':'));
        }
        let k = parts.len();
        let mut acc = TypeName::basic_owned(Rc::new(parts[k - 1].clone()));
        proof {
            assert(gparts.subrange(k - 1, k as int) =~= seq![gparts[k - 1]]);
            assert(acc@ =~~= chain_of(gparts.subrange(k - 1, k as int)));
        }
        let mut j = k - 1;
        while j > 0
            invariant
                0 <= j < k,
                k == parts@.len(),
                k == gparts.len(),
                forall|m: int| 0 <= m < gparts.len() ==> gparts[m] == parts@[m]@,
                acc@ == chain_of(gparts.subrange(j as int, k as int)),
            decreases j,
        {
            let name = Ident::new(parts[j - 1].clone());
            let mut args: Vec<TypeName> = Vec::new();
            args.push(acc);
            acc = TypeName::new(name, args);
            proof {
                assert(gparts.subrange(j - 1, k as int).drop_first() =~= gparts.subrange(
                    j as int,
                    k as int,
                ));
                assert(acc@.args =~= seq![chain_of(gparts.subrange(j as int, k as int))]);
                assert(acc@ =~~= chain_of(gparts.subrange(j - 1, k as int)));
            }
            j -= 1;
        }
        proof {
            assert(gparts.subrange(0, k as int) =~= gparts);
        }
        Ok(acc)
    }
}

impl TypeName {
    /// The built-in boolean type.
    pub fn bool_type() -> (t: TypeName)
        ensures
            t@ == TypeTree::leaf("Bool"@),
    {
        TypeName::basic("Bool")
    }

    /// The built-in signed 8-bit integer type.
    pub fn int8() -> (t: TypeName)
        ensures
            t@ == TypeTree::leaf("Int8"@),
    {
        TypeName::basic("Int8")
    }

    /// The built-in signed 16-bit integer type.
    pub fn int16() -> (t: TypeName)
        ensures
            t@ == TypeTree::leaf("Int16"@),
    {
        TypeName::basic("Int16")
    }

    /// The built-in signed 32-bit integer type.
    pub fn int32() -> (t: TypeName)
        ensures
            t@ == TypeTree::leaf("Int32"@),
    {
        TypeName::basic("Int32")
    }

    /// The built-in signed 64-bit integer type.
    pub fn int64() -> (t: TypeName)
        ensures
            t@ == TypeTree::leaf("Int64"@),
    {
        TypeName::basic("Int64")
    }

    /// The built-in unsigned 8-bit integer type.
    pub fn uint8() -> (t: TypeName)
        ensures
            t@ == TypeTree::leaf("Uint8"@),
    {
        TypeName::basic("Uint8")
    }

    /// The built-in unsigned 16-bit integer type.
    pub fn uint16() -> (t: TypeName)
        ensures
            t@ == TypeTree::leaf("Uint16"@),
    {
        TypeName::basic("Uint16")
    }

    /// The built-in unsigned 32-bit integer type.
    pub fn uint32() -> (t: TypeName)
        ensures
            t@ == TypeTree::leaf("Uint32"@),
    {
        TypeName::basic("Uint32")
    }

    /// The built-in unsigned 64-bit integer type.
    pub fn uint64() -> (t: TypeName)
        ensures
            t@ == TypeTree::leaf("Uint64"@),
    {
        TypeName::basic("Uint64")
    }

    /// The built-in single-precision float type.
    pub fn float() -> (t: TypeName)
        ensures
            t@ == TypeTree::leaf("Float"@),
    {
        TypeName::basic("Float")
    }

    /// The built-in double-precision float type.
    pub fn double() -> (t: TypeName)
        ensures
            t@ == TypeTree::leaf("Double"@),
    {
        TypeName::basic("Double")
    }

    /// The built-in string type.
    pub fn string_type() -> (t: TypeName)
        ensures
            t@ == TypeTree::leaf("String"@),
    {
        TypeName::basic("String")
    }

    /// The built-in dynamic/variant type.
    pub fn variant() -> (t: TypeName)
        ensures
            t@ == TypeTree::leaf("Variant"@),
    {
        TypeName::basic("Variant")
    }

    /// The built-in interned-name type.
    pub fn cname() -> (t: TypeName)
        ensures
            t@ == TypeTree::leaf("CName"@),
    {
        TypeName::basic("CName")
    }

    /// The built-in resource-reference type.
    pub fn resource() -> (t: TypeName)
        ensures
            t@ == TypeTree::leaf("ResRef"@),
    {
        TypeName::basic("ResRef")
    }

    /// The built-in database-id type.
    pub fn tweakdb_id() -> (t: TypeName)
        ensures
            t@ == TypeTree::leaf("TweakDBID"@),
    {
        TypeName::basic("TweakDBID")
    }

    /// The built-in void type.
    pub fn void() -> (t: TypeName)
        ensures
            t@ == TypeTree::leaf("Void"@),
    {
        TypeName::basic("Void")
    }
}

/// Structure-and-content equality of two descriptors, blind to how each
/// name's text is stored.
fn type_name_eq(a: &TypeName, b: &TypeName) -> (r: bool)
    ensures
        r == (a@ == b@),
    decreases a,
{
    if !str_eq(a.name.as_str(), b.name.as_str()) {
        proof {
            assert(a@.name == a.name@);
            assert(b@.name == b.name@);
        }
        return false;
    }
    if a.arguments.len() != b.arguments.len() {
        proof {
            assert(a@.args.len() == a.arguments@.len());
            assert(b@.args.len() == b.arguments@.len());
        }
        return false;
    }
    let n = a.arguments.len();
    let mut i: usize = 0;
    while i < n
        invariant
            n == a.arguments@.len(),
            n == b.arguments@.len(),
            n == a@.args.len(),
            n == b@.args.len(),
            i <= n,
            a@.name == b@.name,
            forall|j: int| 0 <= j < i ==> a@.args[j] == b@.args[j],
        decreases n - i,
    {
        if !type_name_eq(&a.arguments[i], &b.arguments[i]) {
            proof {
                assert(a@.args[i as int] != b@.args[i as int]);
            }
            return false;
        }
        i += 1;
    }
    proof {
        assert(a@.args =~= b@.args);
        assert(a@ =~~= b@);
    }
    true
}

impl PartialEq for TypeName {
    /// Content equality of the whole descriptor.
    fn eq(&self, other: &Self) -> (r: bool) {
        type_name_eq(self, other)
    }
}

impl vstd::std_specs::cmp::PartialEqSpecImpl for TypeName {
    open spec fn obeys_eq_spec() -> bool {
        true
    }

    open spec fn eq_spec(&self, other: &TypeName) -> bool {
        self@ == other@
    }
}

impl Eq for TypeName {

}

} // verus!
