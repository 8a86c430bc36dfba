//! Constant boolean evaluation for `-if(EXPR)` conditions.
//!
//! Exact coverage: the literals `true` and `false`; `not`; `and`,
//! `andalso`, `or`, `orelse` and `xor` over evaluable operands; and the
//! comparison operators over two integer literals. Anything else is not
//! a literal boolean, which the preprocessor reports as a distinct
//! diagnostic rather than guessing.

use vstd::prelude::*;

use crate::erl_ast::AstModel;
use crate::erl_ast::ErlAst;
use crate::erl_op::ErlBinaryOp;
use crate::erl_op::ErlUnaryOp;
use crate::erl_type_new::false_name;
use crate::erl_type_new::true_name;
use crate::literal::LitModel;
use crate::literal::Literal;

verus! {

/// The outcome of walking a literal boolean expression.
#[derive(Debug, Clone, Copy, PartialEq, Eq, Structural)]
pub enum LiteralBool {
    /// Evaluates to `true`.
    True,
    /// Evaluates to `false`.
    False,
    /// Not a boolean known at this stage.
    NotABoolean,
}

/// Constant boolean evaluation per the documented coverage; nothing
/// when the expression is outside it.
pub open spec fn bool_eval(a: AstModel) -> Option<bool>
    decreases a,
{
    match a {
        AstModel::Lit(l) => match l {
            LitModel::Bool(b) => Option::Some(b),
            LitModel::Atom(s) => if s == true_name() {
                Option::Some(true)
            } else if s == false_name() {
                Option::Some(false)
            } else {
                Option::None
            },
            _ => Option::None,
        },
        AstModel::UnaryOp { expr, operator } => if operator == ErlUnaryOp::Not {
            match bool_eval(*expr) {
                Option::Some(b) => Option::Some(!b),
                Option::None => Option::None,
            }
        } else {
            Option::None
        },
        AstModel::BinaryOp { left, right, operator, .. } => match operator {
            ErlBinaryOp::And | ErlBinaryOp::AndAlso => bool_binop(
                bool_eval(*left),
                bool_eval(*right),
                BoolConn::Conj,
            ),
            ErlBinaryOp::Or | ErlBinaryOp::OrElse => bool_binop(
                bool_eval(*left),
                bool_eval(*right),
                BoolConn::Disj,
            ),
            ErlBinaryOp::Xor => bool_binop(bool_eval(*left), bool_eval(*right), BoolConn::Excl),
            ErlBinaryOp::Less | ErlBinaryOp::Greater | ErlBinaryOp::LessEq
                | ErlBinaryOp::GreaterEq | ErlBinaryOp::Eq | ErlBinaryOp::NotEq
                | ErlBinaryOp::HardEq | ErlBinaryOp::HardNotEq => match (*left, *right) {
                (AstModel::Lit(LitModel::Integer(x)), AstModel::Lit(LitModel::Integer(y))) => {
                    Option::Some(int_compare(operator, x, y))
                },
                _ => Option::None,
            },
            _ => Option::None,
        },
        _ => Option::None,
    }
}

/// Which boolean connective joins two evaluated operands.
#[derive(Debug, Clone, Copy, PartialEq, Eq, Structural)]
pub enum BoolConn {
    /// Conjunction.
    Conj,
    /// Disjunction.
    Disj,
    /// Exclusive disjunction.
    Excl,
}

/// Join two evaluated operands; nothing when either is unknown.
pub open spec fn bool_binop(l: Option<bool>, r: Option<bool>, conn: BoolConn) -> Option<bool> {
    match (l, r) {
        (Option::Some(a), Option::Some(b)) => Option::Some(
            match conn {
                BoolConn::Conj => a && b,
                BoolConn::Disj => a || b,
                BoolConn::Excl => a != b,
            },
        ),
        _ => Option::None,
    }
}

/// The comparison operator's truth on two integers.
pub open spec fn int_compare(op: ErlBinaryOp, x: int, y: int) -> bool {
    match op {
        ErlBinaryOp::Less => x < y,
        ErlBinaryOp::Greater => x > y,
        ErlBinaryOp::LessEq => x <= y,
        ErlBinaryOp::GreaterEq => x >= y,
        ErlBinaryOp::Eq | ErlBinaryOp::HardEq => x == y,
        ErlBinaryOp::NotEq | ErlBinaryOp::HardNotEq => x != y,
        _ => false,
    }
}

impl ErlAst {
    /// Walk a literal boolean expression, per [`bool_eval`].
    pub fn walk_boolean_litexpr(&self) -> (r: LiteralBool)
        ensures
            match r {
                LiteralBool::True => bool_eval(self@) == Option::Some(true),
                LiteralBool::False => bool_eval(self@) == Option::Some(false),
                LiteralBool::NotABoolean => bool_eval(self@) is None,
            },
        decreases *self,
    {
        match self {
            ErlAst::Lit { value } => match value {
                Literal::Bool(b) => if *b {
                    LiteralBool::True
                } else {
                    LiteralBool::False
                },
                Literal::Atom(s) => {
                    proof {
                        crate::erl_type_new::lemma_boolean_names();
                    }
                    if crate::erl_type_new::str_eq(s.as_str(), "true") {
                        LiteralBool::True
                    } else if crate::erl_type_new::str_eq(s.as_str(), "false") {
                        LiteralBool::False
                    } else {
                        LiteralBool::NotABoolean
                    }
                },
                _ => LiteralBool::NotABoolean,
            },
            ErlAst::UnaryOp { expr } => {
                if matches!(expr.operator, ErlUnaryOp::Not) {
                    match expr.expr.walk_boolean_litexpr() {
                        LiteralBool::True => LiteralBool::False,
                        LiteralBool::False => LiteralBool::True,
                        LiteralBool::NotABoolean => LiteralBool::NotABoolean,
                    }
                } else {
                    LiteralBool::NotABoolean
                }
            },
            ErlAst::BinaryOp { expr } => {
                match expr.operator {
                    ErlBinaryOp::And | ErlBinaryOp::AndAlso => {
                        let l = expr.left.walk_boolean_litexpr();
                        let r = expr.right.walk_boolean_litexpr();
                        combine(l, r, BoolConn::Conj)
                    },
                    ErlBinaryOp::Or | ErlBinaryOp::OrElse => {
                        let l = expr.left.walk_boolean_litexpr();
                        let r = expr.right.walk_boolean_litexpr();
                        combine(l, r, BoolConn::Disj)
                    },
                    ErlBinaryOp::Xor => {
                        let l = expr.left.walk_boolean_litexpr();
                        let r = expr.right.walk_boolean_litexpr();
                        combine(l, r, BoolConn::Excl)
                    },
                    ErlBinaryOp::Less | ErlBinaryOp::Greater | ErlBinaryOp::LessEq
                        | ErlBinaryOp::GreaterEq | ErlBinaryOp::Eq | ErlBinaryOp::NotEq
                        | ErlBinaryOp::HardEq | ErlBinaryOp::HardNotEq => {
                        match (&*expr.left, &*expr.right) {
                            (
                                ErlAst::Lit { value: Literal::Integer(x) },
                                ErlAst::Lit { value: Literal::Integer(y) },
                            ) => {
                                let truth = match expr.operator {
                                    ErlBinaryOp::Less => *x < *y,
                                    ErlBinaryOp::Greater => *x > *y,
                                    ErlBinaryOp::LessEq => *x <= *y,
                                    ErlBinaryOp::GreaterEq => *x >= *y,
                                    ErlBinaryOp::Eq | ErlBinaryOp::HardEq => *x == *y,
                                    _ => *x != *y,
                                };
                                if truth {
                                    LiteralBool::True
                                } else {
                                    LiteralBool::False
                                }
                            },
                            _ => LiteralBool::NotABoolean,
                        }
                    },
                    _ => LiteralBool::NotABoolean,
                }
            },
            _ => LiteralBool::NotABoolean,
        }
    }
}

/// Combine two walked operands under a connective.
fn combine(l: LiteralBool, r: LiteralBool, conn: BoolConn) -> (out: LiteralBool)
    ensures
        match (l, r) {
            (LiteralBool::NotABoolean, _) => out == LiteralBool::NotABoolean,
            (_, LiteralBool::NotABoolean) => out == LiteralBool::NotABoolean,
            _ => {
                let a = l == LiteralBool::True;
                let b = r == LiteralBool::True;
                let t = match conn {
                    BoolConn::Conj => a && b,
                    BoolConn::Disj => a || b,
                    BoolConn::Excl => a != b,
                };
                out == (if t {
                    LiteralBool::True
                } else {
                    LiteralBool::False
                })
            },
        },
{
    match (l, r) {
        (LiteralBool::NotABoolean, _) => LiteralBool::NotABoolean,
        (_, LiteralBool::NotABoolean) => LiteralBool::NotABoolean,
        _ => {
            let a = matches!(l, LiteralBool::True);
            let b = matches!(r, LiteralBool::True);
            let t = match conn {
                BoolConn::Conj => a && b,
                BoolConn::Disj => a || b,
                BoolConn::Excl => a != b,
            };
            if t {
                LiteralBool::True
            } else {
                LiteralBool::False
            }
        },
    }
}

} // verus!
