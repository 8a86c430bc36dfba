//! Binary and unary operator tags.

use vstd::prelude::*;

verus! {

/// A binary operator.
#[derive(Debug, Clone, Copy, PartialEq, Eq, Structural)]
pub enum ErlBinaryOp {
    /// `+`
    Add,
    /// `-`
    Sub,
    /// `*`
    Mul,
    /// `/`, always a float division
    Div,
    /// `div`, integer division
    IntegerDiv,
    /// `rem`, integer remainder
    Modulo,
    /// `<`
    Less,
    /// `>`
    Greater,
    /// `=<`
    LessEq,
    /// `>=`
    GreaterEq,
    /// `==`
    Eq,
    /// `/=`
    NotEq,
    /// `=:=`
    HardEq,
    /// `=/=`
    HardNotEq,
    /// `++`, list append
    ListAppend,
    /// `--`, list subtraction
    ListSubtract,
    /// `and`
    And,
    /// `andalso`
    AndAlso,
    /// `or`
    Or,
    /// `orelse`
    OrElse,
    /// `xor`
    Xor,
    /// `band`
    BinaryAnd,
    /// `bor`
    BinaryOr,
    /// `bxor`
    BinaryXor,
    /// `bsl`
    BinaryShiftLeft,
    /// `bsr`
    BinaryShiftRight,
    /// `=`, match
    Match,
    /// `!`, send
    Bang,
    /// `,`, sequence
    Comma,
    /// `;`, alternative
    Semicolon,
}

/// A unary operator.
#[derive(Debug, Clone, Copy, PartialEq, Eq, Structural)]
pub enum ErlUnaryOp {
    /// `not`
    Not,
    /// `bnot`
    BinaryNot,
    /// unary `-`
    Negative,
    /// unary `+`
    Positive,
    /// `catch`
    Catch,
}

} // verus!
