use script_ast::expr::Constant;
use script_ast::expr::Expr;
use script_ast::expr::ExprSeq;
use script_ast::expr::Literal;
use script_ast::expr::SourceAst;
use script_ast::expr::Target;
use script_ast::ident::Ident;
use script_ast::ops::BinOp;
use script_ast::ops::UnOp;
use script_ast::span::Pos;
use script_ast::span::Span;
use script_ast::types::Kind;
use script_ast::types::ReprError;
use script_ast::types::TypeName;

fn sp(low: u32, high: u32) -> Span {
    Span::new(Pos(low), Pos(high))
}

#[test]
fn ident_static_and_owned_compare_equal() {
    let a = Ident::Static("Int32");
    let b = Ident::new(String::from("Int32"));
    assert_eq!(a, b);
    assert_eq!(b, a);
    assert_eq!(a.as_str(), "Int32");
    assert_eq!(b.as_str(), "Int32");
    assert_eq!(*a.to_owned(), *b.to_owned());
}

#[test]
fn ident_different_text_compares_unequal() {
    let a = Ident::Static("foo");
    let b = Ident::new(String::from("bar"));
    assert_ne!(a, b);
}

#[test]
fn span_merge_commutative_associative_idempotent() {
    let a = sp(3, 7);
    let b = sp(1, 4);
    let c = sp(6, 9);
    assert_eq!(a.merge(b), b.merge(a));
    assert_eq!(a.merge(b).merge(c), a.merge(b.merge(c)));
    assert_eq!(a.merge(a), a);
    assert_eq!(a.merge(b), sp(1, 7));
}

#[test]
fn span_contains_is_half_open() {
    let s = sp(2, 5);
    assert!(!s.contains(Pos(1)));
    assert!(s.contains(Pos(2)));
    assert!(s.contains(Pos(4)));
    assert!(!s.contains(Pos(5)));
    let degenerate = sp(5, 2);
    assert!(!degenerate.contains(Pos(3)));
    assert!(!degenerate.contains(Pos(5)));
}

#[test]
fn pos_arithmetic() {
    let p = Pos::new(10);
    assert_eq!(p.plus(5), Pos(15));
    assert_eq!(p.minus(10), Pos(0));
    assert_eq!(p.to_usize(), 10);
    assert_eq!(Pos::zero(), Pos(0));
    assert_eq!(Pos::default(), Pos(0));
    assert_eq!(Span::default(), sp(0, 0));
    // A position keeps the low 32 bits of an oversized offset.
    assert_eq!(Pos::new(u32::MAX as usize), Pos(u32::MAX));
}

#[test]
fn ident_from_shared_string() {
    let shared = std::rc::Rc::new(String::from("player"));
    let id = Ident::from(shared);
    assert_eq!(id, Ident::Static("player"));
}

#[test]
fn binop_precedence_table() {
    assert_eq!(BinOp::Multiply.precedence(), 1);
    assert_eq!(BinOp::Divide.precedence(), 1);
    assert_eq!(BinOp::Modulo.precedence(), 1);
    assert_eq!(BinOp::Add.precedence(), 2);
    assert_eq!(BinOp::Subtract.precedence(), 2);
    assert_eq!(BinOp::Less.precedence(), 3);
    assert_eq!(BinOp::Equal.precedence(), 4);
    assert_eq!(BinOp::And.precedence(), 5);
    assert_eq!(BinOp::Xor.precedence(), 6);
    assert_eq!(BinOp::Or.precedence(), 7);
    assert_eq!(BinOp::LogicAnd.precedence(), 8);
    assert_eq!(BinOp::LogicOr.precedence(), 9);
    assert_eq!(BinOp::AssignAdd.precedence(), 10);
    assert_eq!(BinOp::AssignAnd.precedence(), 10);
}

#[test]
fn binop_associativity_table() {
    assert!(BinOp::LogicOr.associative());
    assert!(BinOp::LogicAnd.associative());
    assert!(BinOp::Or.associative());
    assert!(BinOp::Xor.associative());
    assert!(BinOp::And.associative());
    assert!(BinOp::Add.associative());
    assert!(BinOp::Multiply.associative());
    assert!(!BinOp::Subtract.associative());
    assert!(!BinOp::Divide.associative());
    assert!(!BinOp::Modulo.associative());
    assert!(!BinOp::Equal.associative());
    assert!(!BinOp::Less.associative());
    assert!(!BinOp::AssignAdd.associative());
}

#[test]
fn does_associate_follows_the_precedence_table() {
    // A tighter child under a looser parent needs no parentheses.
    assert!(BinOp::Multiply.does_associate(BinOp::Add));
    // A looser child under a tighter parent keeps its parentheses.
    assert!(!BinOp::Add.does_associate(BinOp::Multiply));
    // Equal precedence: decided by the parent's associativity.
    assert!(BinOp::LogicAnd.does_associate(BinOp::LogicAnd));
    // Subtraction chains keep their parentheses: a - (b - c).
    assert!(!BinOp::Subtract.does_associate(BinOp::Subtract));
    // A multiplication chain may be regrouped, even around a division.
    assert!(BinOp::Divide.does_associate(BinOp::Multiply));
    assert!(!BinOp::Multiply.does_associate(BinOp::Divide));
    assert!(!BinOp::Equal.does_associate(BinOp::NotEqual));
}

#[test]
fn operator_names_round_trip() {
    assert_eq!(BinOp::Add.name(), "OperatorAdd");
    assert_eq!(BinOp::AssignSubtract.name(), "OperatorAssignSubtract");
    assert_eq!(UnOp::Neg.name(), "OperatorNeg");
    assert_eq!(BinOp::from_name("OperatorXor"), Some(BinOp::Xor));
    assert_eq!(BinOp::from_name("OperatorGreaterEqual"), Some(BinOp::GreaterEqual));
    assert_eq!(BinOp::from_name("OperatorNope"), None);
    assert_eq!(UnOp::from_name("OperatorBitNot"), Some(UnOp::BitNot));
    assert_eq!(UnOp::from_name(""), None);
}

#[test]
fn type_kind_classification() {
    assert_eq!(TypeName::basic("Int32").kind(), Kind::Prim);
    assert_eq!(TypeName::basic("MyClass").kind(), Kind::Prim);
    let int32 = TypeName::int32();
    assert_eq!(TypeName::new(Ident::Static("ref"), vec![int32]).kind(), Kind::Ref);
    let int32 = TypeName::int32();
    assert_eq!(TypeName::new(Ident::Static("wref"), vec![int32]).kind(), Kind::WRef);
    let int32 = TypeName::int32();
    assert_eq!(TypeName::new(Ident::Static("script_ref"), vec![int32]).kind(), Kind::ScriptRef);
    let int32 = TypeName::int32();
    assert_eq!(TypeName::new(Ident::Static("array"), vec![int32]).kind(), Kind::Array);
}

#[test]
fn unwrapped_strips_reference_layers() {
    let inner = TypeName::new(Ident::Static("wref"), vec![TypeName::int32()]);
    let outer = TypeName::new(Ident::Static("ref"), vec![inner]);
    assert_eq!(outer.unwrapped(), &TypeName::int32());
    // `script_ref` and `array` are not transparent.
    let arr = TypeName::new(Ident::Static("array"), vec![TypeName::int32()]);
    assert_eq!(arr.unwrapped(), &arr);
}

#[test]
fn mangled_erases_reference_wrapping() {
    let wrapped = TypeName::new(Ident::Static("ref"), vec![TypeName::int32()]);
    assert_eq!(wrapped.mangled().as_str(), "Int32");
    assert_eq!(wrapped.mangled(), TypeName::int32().mangled());
}

#[test]
fn mangled_joins_arguments_without_spaces() {
    let map = TypeName::new(
        Ident::Static("Map"),
        vec![TypeName::int32(), TypeName::string_type()],
    );
    assert_eq!(map.mangled().as_str(), "Map<Int32,String>");
    // A wrapped argument is unwrapped by its own mangling.
    let arg = TypeName::new(Ident::Static("ref"), vec![TypeName::string_type()]);
    let arr = TypeName::new(Ident::Static("array"), vec![arg]);
    assert_eq!(arr.mangled().as_str(), "array<String>");
}

#[test]
fn pretty_keeps_wrapping_and_spaces_arguments() {
    let map = TypeName::new(
        Ident::Static("Map"),
        vec![TypeName::int32(), TypeName::string_type()],
    );
    assert_eq!(map.pretty().as_str(), "Map<Int32, String>");
    let arr = TypeName::new(Ident::Static("array"), vec![TypeName::int32()]);
    let wrapped = TypeName::new(Ident::Static("ref"), vec![arr]);
    assert_eq!(wrapped.pretty().as_str(), "ref<array<Int32>>");
}

#[test]
fn repr_joins_every_level_with_colons() {
    assert_eq!(TypeName::int32().repr().as_str(), "Int32");
    let arr = TypeName::new(Ident::Static("array"), vec![TypeName::int32()]);
    let wrapped = TypeName::new(Ident::Static("ref"), vec![arr]);
    assert_eq!(wrapped.repr().as_str(), "ref:array:Int32");
}

#[test]
fn from_repr_inverts_repr_on_single_argument_chains() {
    let arr = TypeName::new(Ident::Static("array"), vec![TypeName::int32()]);
    let wrapped = TypeName::new(Ident::Static("ref"), vec![arr]);
    let encoded = wrapped.repr();
    let decoded = TypeName::from_repr(encoded.as_str()).unwrap();
    assert_eq!(decoded, wrapped);
    let leaf = TypeName::basic("Int64");
    assert_eq!(TypeName::from_repr("Int64").unwrap(), leaf);
}

#[test]
fn from_repr_flattens_multi_argument_types() {
    let map = TypeName::new(
        Ident::Static("Map"),
        vec![TypeName::int32(), TypeName::string_type()],
    );
    assert_eq!(map.repr().as_str(), "Map:Int32:String");
    // Decoding rebuilds a single-argument chain, not the two-argument
    // type: Map<Int32<String>>.
    let nested = TypeName::new(
        Ident::Static("Map"),
        vec![TypeName::new(
            Ident::Static("Int32"),
            vec![TypeName::string_type()],
        )],
    );
    let decoded = TypeName::from_repr("Map:Int32:String").unwrap();
    assert_eq!(decoded, nested);
    assert_ne!(decoded, map);
}

#[test]
fn from_repr_rejects_empty_text() {
    assert_eq!(TypeName::from_repr(""), Err(ReprError::Empty));
}

#[test]
fn from_repr_keeps_empty_segments() {
    let decoded = TypeName::from_repr("a::b").unwrap();
    let expected = TypeName::new(
        Ident::Static("a"),
        vec![TypeName::new(
            Ident::Static(""),
            vec![TypeName::basic("b")],
        )],
    );
    assert_eq!(decoded, expected);
}

#[test]
fn type_name_accessors() {
    let arr = TypeName::new(Ident::Static("array"), vec![TypeName::int32()]);
    assert_eq!(arr.name(), Ident::Static("array"));
    assert_eq!(arr.arguments().len(), 1);
    assert_eq!(&arr.arguments()[0], &TypeName::int32());
    assert_eq!(TypeName::tweakdb_id().name().as_str(), "TweakDBID");
    assert_eq!(TypeName::void().name().as_str(), "Void");
}

#[test]
fn target_starts_unresolved() {
    let t = Target::new(42);
    assert_eq!(t.position, 42);
    assert!(!t.resolved);
}

#[test]
fn empty_block_is_empty() {
    let e: Expr<SourceAst> = Expr::empty();
    assert!(e.is_empty());
}

#[test]
fn goto_is_empty_exactly_when_resolved() {
    let unresolved: Expr<SourceAst> = Expr::Goto(Target::new(7), sp(0, 2));
    assert!(!unresolved.is_empty());
    let mut target = Target::new(7);
    target.resolved = true;
    let resolved: Expr<SourceAst> = Expr::Goto(target, sp(0, 2));
    assert!(resolved.is_empty());
    let block: Expr<SourceAst> = Expr::Block(ExprSeq::new(vec![resolved]));
    assert!(block.is_empty());
}

#[test]
fn block_of_markers_is_not_empty() {
    let block: Expr<SourceAst> = Expr::Block(ExprSeq::new(vec![Expr::Break(sp(0, 5))]));
    assert!(!block.is_empty());
    let null_block: Expr<SourceAst> = Expr::Block(ExprSeq::new(vec![Expr::Null(sp(0, 4))]));
    assert!(!null_block.is_empty());
}

#[test]
fn nested_empty_blocks_are_empty() {
    let inner: Expr<SourceAst> = Expr::empty();
    let outer: Expr<SourceAst> = Expr::Block(ExprSeq::new(vec![inner, Expr::empty()]));
    assert!(outer.is_empty());
}

#[test]
fn empty_block_spans_zero() {
    let e: Expr<SourceAst> = Expr::Block(ExprSeq::new(vec![]));
    assert_eq!(e.span(), sp(0, 0));
}

#[test]
fn block_spans_merge_of_first_and_last() {
    let e1: Expr<SourceAst> = Expr::Ident(Ident::Static("a"), sp(2, 3));
    let e2: Expr<SourceAst> = Expr::Ident(Ident::Static("b"), sp(5, 9));
    let s1 = e1.span();
    let s2 = e2.span();
    let block: Expr<SourceAst> = Expr::Block(ExprSeq::new(vec![e1, e2]));
    assert_eq!(block.span(), s1.merge(s2));
    assert_eq!(block.span(), sp(2, 9));
    let single: Expr<SourceAst> = Expr::Ident(Ident::Static("c"), sp(4, 6));
    let one = Expr::<SourceAst>::Block(ExprSeq::new(vec![single]));
    assert_eq!(one.span(), sp(4, 6));
}

#[test]
fn node_spans_are_carried() {
    let lit: Expr<SourceAst> = Expr::Constant(
        Constant::String(Literal::Name, std::rc::Rc::new(String::from("hero"))),
        sp(1, 7),
    );
    assert_eq!(lit.span(), sp(1, 7));
    let cond: Expr<SourceAst> = Expr::While(
        Box::new(Expr::Constant(Constant::Bool(true), sp(10, 14))),
        ExprSeq::new(vec![Expr::Break(sp(16, 21))]),
        sp(4, 22),
    );
    assert_eq!(cond.span(), sp(4, 22));
    let neg: Expr<SourceAst> = Expr::UnOp(
        Box::new(Expr::Constant(Constant::I32(3), sp(1, 2))),
        UnOp::Neg,
        sp(0, 2),
    );
    assert_eq!(neg.span(), sp(0, 2));
}

#[test]
fn source_ast_tree_builds_and_reports_spans() {
    // let x: Int32 = 1 + 2;
    let init: Expr<SourceAst> = Expr::BinOp(
        Box::new(Expr::Constant(Constant::I32(1), sp(15, 16))),
        Box::new(Expr::Constant(Constant::I32(2), sp(19, 20))),
        BinOp::Add,
        sp(15, 20),
    );
    let decl: Expr<SourceAst> = Expr::Declare(
        Ident::Static("x"),
        Some(TypeName::int32()),
        Some(Box::new(init)),
        sp(0, 21),
    );
    assert_eq!(decl.span(), sp(0, 21));
    assert!(!decl.is_empty());
}
