//! Binary and unary operator tables: precedence, associativity and the
//! fixed textual form of each operator used for serialization and lookup.

use crate::ident::str_eq;
use vstd::prelude::*;

verus! {

/// The closed set of binary operators.
#[derive(Debug, Clone, Copy, PartialEq, Eq, Structural)]
pub enum BinOp {
    AssignAdd,
    AssignSubtract,
    AssignMultiply,
    AssignDivide,
    AssignOr,
    AssignAnd,
    LogicOr,
    LogicAnd,
    Or,
    Xor,
    And,
    Equal,
    NotEqual,
    Less,
    LessEqual,
    Greater,
    GreaterEqual,
    Add,
    Subtract,
    Multiply,
    Divide,
    Modulo,
}

impl BinOp {
    /// Binding strength; lower values bind tighter.
    pub open spec fn spec_precedence(self) -> int {
        match self {
            BinOp::AssignAdd => 10,
            BinOp::AssignSubtract => 10,
            BinOp::AssignMultiply => 10,
            BinOp::AssignDivide => 10,
            BinOp::AssignOr => 10,
            BinOp::AssignAnd => 10,
            BinOp::LogicOr => 9,
            BinOp::LogicAnd => 8,
            BinOp::Or => 7,
            BinOp::Xor => 6,
            BinOp::And => 5,
            BinOp::Equal => 4,
            BinOp::NotEqual => 4,
            BinOp::Less => 3,
            BinOp::LessEqual => 3,
            BinOp::Greater => 3,
            BinOp::GreaterEqual => 3,
            BinOp::Add => 2,
            BinOp::Subtract => 2,
            BinOp::Multiply => 1,
            BinOp::Divide => 1,
            BinOp::Modulo => 1,
        }
    }

    /// Whether regrouping a chain of this operator keeps the printed
    /// form parenthesis-free. Subtraction is not associative —
    /// `a - (b - c)` needs its parentheses — while a multiplication
    /// chain may be regrouped freely.
    pub open spec fn spec_associative(self) -> bool {
        match self {
            BinOp::LogicOr => true,
            BinOp::LogicAnd => true,
            BinOp::Or => true,
            BinOp::Xor => true,
            BinOp::And => true,
            BinOp::Add => true,
            BinOp::Multiply => true,
            _ => false,
        }
    }

    /// Parentheses may be omitted around a child using `self` under a
    /// parent using `parent` exactly when the parent binds looser, or
    /// the two share precedence and the parent is associative.
    pub open spec fn spec_does_associate(self, parent: BinOp) -> bool {
        parent.spec_precedence() > self.spec_precedence() || (parent.spec_precedence()
            == self.spec_precedence() && parent.spec_associative())
    }

    /// The fixed textual form of the operator.
    pub open spec fn spec_name(self) -> Seq<char> {
        match self {
            BinOp::AssignAdd => "OperatorAssignAdd"@,
            BinOp::AssignSubtract => "OperatorAssignSubtract"@,
            BinOp::AssignMultiply => "OperatorAssignMultiply"@,
            BinOp::AssignDivide => "OperatorAssignDivide"@,
            BinOp::AssignOr => "OperatorAssignOr"@,
            BinOp::AssignAnd => "OperatorAssignAnd"@,
            BinOp::LogicOr => "OperatorLogicOr"@,
            BinOp::LogicAnd => "OperatorLogicAnd"@,
            BinOp::Or => "OperatorOr"@,
            BinOp::Xor => "OperatorXor"@,
            BinOp::And => "OperatorAnd"@,
            BinOp::Equal => "OperatorEqual"@,
            BinOp::NotEqual => "OperatorNotEqual"@,
            BinOp::Less => "OperatorLess"@,
            BinOp::LessEqual => "OperatorLessEqual"@,
            BinOp::Greater => "OperatorGreater"@,
            BinOp::GreaterEqual => "OperatorGreaterEqual"@,
            BinOp::Add => "OperatorAdd"@,
            BinOp::Subtract => "OperatorSubtract"@,
            BinOp::Multiply => "OperatorMultiply"@,
            BinOp::Divide => "OperatorDivide"@,
            BinOp::Modulo => "OperatorModulo"@,
        }
    }

    pub fn precedence(self) -> (p: usize)
        ensures
            p == self.spec_precedence(),
    {
        match self {
            BinOp::AssignAdd => 10,
            BinOp::AssignSubtract => 10,
            BinOp::AssignMultiply => 10,
            BinOp::AssignDivide => 10,
            BinOp::AssignOr => 10,
            BinOp::AssignAnd => 10,
            BinOp::LogicOr => 9,
            BinOp::LogicAnd => 8,
            BinOp::Or => 7,
            BinOp::Xor => 6,
            BinOp::And => 5,
            BinOp::Equal => 4,
            BinOp::NotEqual => 4,
            BinOp::Less => 3,
            BinOp::LessEqual => 3,
            BinOp::Greater => 3,
            BinOp::GreaterEqual => 3,
            BinOp::Add => 2,
            BinOp::Subtract => 2,
            BinOp::Multiply => 1,
            BinOp::Divide => 1,
            BinOp::Modulo => 1,
        }
    }

    pub fn associative(self) -> (r: bool)
        ensures
            r == self.spec_associative(),
    {
        match self {
            BinOp::LogicOr => true,
            BinOp::LogicAnd => true,
            BinOp::Or => true,
            BinOp::Xor => true,
            BinOp::And => true,
            BinOp::Add => true,
            BinOp::Multiply => true,
            _ => false,
        }
    }

    /// Decides, for a child expression using `self` nested under a
    /// parent using `parent`, whether the child may be printed without
    /// parentheses. A pure function of the two operators, consistent
    /// with the precedence table at every pair.
    pub fn does_associate(self, parent: BinOp) -> (r: bool)
        ensures
            r == self.spec_does_associate(parent),
    {
        parent.precedence() > self.precedence() || (parent.precedence() == self.precedence()
            && parent.associative())
    }

    /// The fixed textual form used when the operator is serialized.
    pub fn name(self) -> (s: &'static str)
        ensures
            s@ == self.spec_name(),
    {
        match self {
            BinOp::AssignAdd => "OperatorAssignAdd",
            BinOp::AssignSubtract => "OperatorAssignSubtract",
            BinOp::AssignMultiply => "OperatorAssignMultiply",
            BinOp::AssignDivide => "OperatorAssignDivide",
            BinOp::AssignOr => "OperatorAssignOr",
            BinOp::AssignAnd => "OperatorAssignAnd",
            BinOp::LogicOr => "OperatorLogicOr",
            BinOp::LogicAnd => "OperatorLogicAnd",
            BinOp::Or => "OperatorOr",
            BinOp::Xor => "OperatorXor",
            BinOp::And => "OperatorAnd",
            BinOp::Equal => "OperatorEqual",
            BinOp::NotEqual => "OperatorNotEqual",
            BinOp::Less => "OperatorLess",
            BinOp::LessEqual => "OperatorLessEqual",
            BinOp::Greater => "OperatorGreater",
            BinOp::GreaterEqual => "OperatorGreaterEqual",
            BinOp::Add => "OperatorAdd",
            BinOp::Subtract => "OperatorSubtract",
            BinOp::Multiply => "OperatorMultiply",
            BinOp::Divide => "OperatorDivide",
            BinOp::Modulo => "OperatorModulo",
        }
    }

    /// Looks an operator up by its textual form.
    pub fn from_name(s: &str) -> (r: Option<BinOp>)
        ensures
            match r {
                Some(op) => op.spec_name() == s@,
                None => forall|op: BinOp| op.spec_name() != s@,
            },
    {
        if str_eq(s, "OperatorAssignAdd") {
            Some(BinOp::AssignAdd)
        } else if str_eq(s, "OperatorAssignSubtract") {
            Some(BinOp::AssignSubtract)
        } else if str_eq(s, "OperatorAssignMultiply") {
            Some(BinOp::AssignMultiply)
        } else if str_eq(s, "OperatorAssignDivide") {
            Some(BinOp::AssignDivide)
        } else if str_eq(s, "OperatorAssignOr") {
            Some(BinOp::AssignOr)
        } else if str_eq(s, "OperatorAssignAnd") {
            Some(BinOp::AssignAnd)
        } else if str_eq(s, "OperatorLogicOr") {
            Some(BinOp::LogicOr)
        } else if str_eq(s, "OperatorLogicAnd") {
            Some(BinOp::LogicAnd)
        } else if str_eq(s, "OperatorOr") {
            Some(BinOp::Or)
        } else if str_eq(s, "OperatorXor") {
            Some(BinOp::Xor)
        } else if str_eq(s, "OperatorAnd") {
            Some(BinOp::And)
        } else if str_eq(s, "OperatorEqual") {
            Some(BinOp::Equal)
        } else if str_eq(s, "OperatorNotEqual") {
            Some(BinOp::NotEqual)
        } else if str_eq(s, "OperatorLess") {
            Some(BinOp::Less)
        } else if str_eq(s, "OperatorLessEqual") {
            Some(BinOp::LessEqual)
        } else if str_eq(s, "OperatorGreater") {
            Some(BinOp::Greater)
        } else if str_eq(s, "OperatorGreaterEqual") {
            Some(BinOp::GreaterEqual)
        } else if str_eq(s, "OperatorAdd") {
            Some(BinOp::Add)
        } else if str_eq(s, "OperatorSubtract") {
            Some(BinOp::Subtract)
        } else if str_eq(s, "OperatorMultiply") {
            Some(BinOp::Multiply)
        } else if str_eq(s, "OperatorDivide") {
            Some(BinOp::Divide)
        } else if str_eq(s, "OperatorModulo") {
            Some(BinOp::Modulo)
        } else {
            None
        }
    }
}

/// The closed set of unary operators.
#[derive(Debug, Clone, Copy, PartialEq, Eq, Structural)]
pub enum UnOp {
    BitNot,
    LogicNot,
    Neg,
}

impl UnOp {
    /// The fixed textual form of the operator.
    pub open spec fn spec_name(self) -> Seq<char> {
        match self {
            UnOp::BitNot => "OperatorBitNot"@,
            UnOp::LogicNot => "OperatorLogicNot"@,
            UnOp::Neg => "OperatorNeg"@,
        }
    }

    /// The fixed textual form used when the operator is serialized.
    pub fn name(self) -> (s: &'static str)
        ensures
            s@ == self.spec_name(),
    {
        match self {
            UnOp::BitNot => "OperatorBitNot",
            UnOp::LogicNot => "OperatorLogicNot",
            UnOp::Neg => "OperatorNeg",
        }
    }

    /// Looks an operator up by its textual form.
    pub fn from_name(s: &str) -> (r: Option<UnOp>)
        ensures
            match r {
                Some(op) => op.spec_name() == s@,
                None => forall|op: UnOp| op.spec_name() != s@,
            },
    {
        if str_eq(s, "OperatorBitNot") {
            Some(UnOp::BitNot)
        } else if str_eq(s, "OperatorLogicNot") {
            Some(UnOp::LogicNot)
        } else if str_eq(s, "OperatorNeg") {
            Some(UnOp::Neg)
        } else {
            None
        }
    }
}

} // verus!
