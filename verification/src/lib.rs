//! Abstract-syntax core for a scripting-language compiler and decompiler:
//! source positions and spans, interned identifiers, operator tables,
//! a recursive generic type-name model with three serializations, and a
//! phase-polymorphic expression tree with jump-target bookkeeping.

pub mod expr;
pub mod ident;
pub mod ops;
pub mod span;
pub mod types;

pub use expr::Constant;
pub use expr::Expr;
pub use expr::ExprSeq;
pub use expr::Literal;
pub use expr::NameKind;
pub use expr::SourceAst;
pub use expr::SwitchCase;
pub use expr::Target;
pub use ident::Ident;
pub use types::Kind;
pub use types::TypeName;
pub use types::TypeTree;
pub use ops::BinOp;
pub use ops::UnOp;
pub use span::Pos;
pub use span::Span;
