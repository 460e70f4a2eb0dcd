//! Operators of Lucy expressions.
use vstd::prelude::*;

verus! {

/// A binary or unary operator.
#[derive(Debug, Clone, Copy, PartialEq, Eq, Hash, Structural)]
pub enum Operator {
    Add,
    Sub,
    Mul,
    Div,
    Pow,
    Mod,
    LOr,
    LAnd,
    BOr,
    BAnd,
    BLShift,
    BRShift,
    Eq,
    NEq,
    Le,
    Lt,
    Ge,
    Gt,
    Neg,
    LNot,
    BNot,
}


/// The name of an operator, as `{:?}` writes it.
pub open spec fn op_name(op: Operator) -> Seq<char> {
    match op {
        Operator::Add => "Add"@,
        Operator::Sub => "Sub"@,
        Operator::Mul => "Mul"@,
        Operator::Div => "Div"@,
        Operator::Pow => "Pow"@,
        Operator::Mod => "Mod"@,
        Operator::LOr => "LOr"@,
        Operator::LAnd => "LAnd"@,
        Operator::BOr => "BOr"@,
        Operator::BAnd => "BAnd"@,
        Operator::BLShift => "BLShift"@,
        Operator::BRShift => "BRShift"@,
        Operator::Eq => "Eq"@,
        Operator::NEq => "NEq"@,
        Operator::Le => "Le"@,
        Operator::Lt => "Lt"@,
        Operator::Ge => "Ge"@,
        Operator::Gt => "Gt"@,
        Operator::Neg => "Neg"@,
        Operator::LNot => "LNot"@,
        Operator::BNot => "BNot"@,
    }
}

/// The name of an operator, as `{:?}` writes it.
pub fn op_debug_name(op: &Operator) -> (r: &'static str)
    ensures
        r@ == op_name(*op),
{
    match op {
        Operator::Add => "Add",
        Operator::Sub => "Sub",
        Operator::Mul => "Mul",
        Operator::Div => "Div",
        Operator::Pow => "Pow",
        Operator::Mod => "Mod",
        Operator::LOr => "LOr",
        Operator::LAnd => "LAnd",
        Operator::BOr => "BOr",
        Operator::BAnd => "BAnd",
        Operator::BLShift => "BLShift",
        Operator::BRShift => "BRShift",
        Operator::Eq => "Eq",
        Operator::NEq => "NEq",
        Operator::Le => "Le",
        Operator::Lt => "Lt",
        Operator::Ge => "Ge",
        Operator::Gt => "Gt",
        Operator::Neg => "Neg",
        Operator::LNot => "LNot",
        Operator::BNot => "BNot",
    }
}


/// How a binary operator is written in source text.
pub open spec fn op_spelling(op: Operator) -> Seq<char> {
    match op {
        Operator::Add => "+"@,
        Operator::Sub => "-"@,
        Operator::Mul => "*"@,
        Operator::Div => "/"@,
        Operator::Pow => "^"@,
        Operator::Mod => "%"@,
        Operator::LOr => "||"@,
        Operator::LAnd => "&&"@,
        Operator::BOr => "|"@,
        Operator::BAnd => "&"@,
        Operator::BLShift => "<<"@,
        Operator::BRShift => ">>"@,
        Operator::Eq => "=="@,
        Operator::NEq => "!="@,
        Operator::Le => "<="@,
        Operator::Lt => "<"@,
        Operator::Ge => ">="@,
        Operator::Gt => ">"@,
        Operator::Neg => "-"@,
        Operator::LNot => "!"@,
        Operator::BNot => "~"@,
    }
}

/// The binary operators, as opposed to the prefix ones.
pub open spec fn is_binary(op: Operator) -> bool {
    !(op is Neg || op is LNot || op is BNot)
}

} // verus!
