//! Quick type answers read off the tree: each node's type slot, and the
//! fixed result/operand type policies of the operators.
//!
//! These are the shallow answers used while wiring type equations; fresh
//! bottom-up synthesis lives in the `synthesize` module.

use vstd::prelude::*;

use crate::erl_ast::AstModel;
use crate::erl_ast::BinaryOperatorExpr;
use crate::erl_ast::ErlAst;
use crate::erl_ast::UnaryOperatorExpr;
use crate::erl_op::ErlBinaryOp;
use crate::erl_op::ErlUnaryOp;
use crate::erl_type::ErlType;
use crate::erl_type::TypeModel;
use crate::erl_type::tys_view;
use crate::erl_type_new::union_model;
use crate::literal::lit_type_model;

verus! {

/// The union of the integer and float types: what arithmetic may return.
pub open spec fn number_union_model() -> TypeModel {
    TypeModel::Union(seq![TypeModel::Integer(Option::None), TypeModel::Float])
}

/// The fixed result type of a binary operator, given its operand types.
/// Arithmetic widens to the integer/float union; comparisons and logic
/// return booleans; list append unions the element types of list
/// operands and is bottom on non-lists; list subtraction keeps the left
/// operand's type; match, send and sequencing take the right operand's
/// type.
pub open spec fn binop_result_model(op: ErlBinaryOp, lt: TypeModel, rt: TypeModel) -> TypeModel {
    match op {
        ErlBinaryOp::Add | ErlBinaryOp::Sub | ErlBinaryOp::Mul => number_union_model(),
        ErlBinaryOp::Div => TypeModel::Float,
        ErlBinaryOp::IntegerDiv | ErlBinaryOp::Modulo => TypeModel::Integer(Option::None),
        ErlBinaryOp::Less | ErlBinaryOp::Greater | ErlBinaryOp::LessEq | ErlBinaryOp::GreaterEq
            | ErlBinaryOp::Eq | ErlBinaryOp::NotEq | ErlBinaryOp::HardEq
            | ErlBinaryOp::HardNotEq => TypeModel::Boolean(Option::None),
        ErlBinaryOp::And | ErlBinaryOp::AndAlso | ErlBinaryOp::Or | ErlBinaryOp::OrElse
            | ErlBinaryOp::Xor => TypeModel::Boolean(Option::None),
        ErlBinaryOp::BinaryAnd | ErlBinaryOp::BinaryOr | ErlBinaryOp::BinaryXor
            | ErlBinaryOp::BinaryShiftLeft | ErlBinaryOp::BinaryShiftRight => TypeModel::Integer(
            Option::None,
        ),
        ErlBinaryOp::ListAppend => match (lt, rt) {
            (TypeModel::List(a), TypeModel::List(b)) => TypeModel::List(
                Box::new(union_model(seq![*a, *b])),
            ),
            _ => TypeModel::NoneType,
        },
        ErlBinaryOp::ListSubtract => lt,
        ErlBinaryOp::Match | ErlBinaryOp::Bang | ErlBinaryOp::Comma => rt,
        ErlBinaryOp::Semicolon => rt,
    }
}

/// The type both operands of a binary operator must have, if the operator
/// constrains them: numbers for arithmetic, integers for integer
/// division and bit operations, booleans for logic, lists for the list
/// operators; comparisons, match, send and sequencing constrain nothing.
pub open spec fn binop_arg_model(op: ErlBinaryOp) -> Option<TypeModel> {
    match op {
        ErlBinaryOp::Add | ErlBinaryOp::Sub | ErlBinaryOp::Mul | ErlBinaryOp::Div => Option::Some(
            number_union_model(),
        ),
        ErlBinaryOp::IntegerDiv | ErlBinaryOp::Modulo | ErlBinaryOp::BinaryAnd
            | ErlBinaryOp::BinaryOr | ErlBinaryOp::BinaryXor | ErlBinaryOp::BinaryShiftLeft
            | ErlBinaryOp::BinaryShiftRight => Option::Some(TypeModel::Integer(Option::None)),
        ErlBinaryOp::And | ErlBinaryOp::AndAlso | ErlBinaryOp::Or | ErlBinaryOp::OrElse
            | ErlBinaryOp::Xor => Option::Some(TypeModel::Boolean(Option::None)),
        ErlBinaryOp::ListAppend | ErlBinaryOp::ListSubtract => Option::Some(TypeModel::AnyList),
        _ => Option::None,
    }
}

/// The result type of a unary operator: negation keeps numbers, logical
/// negation keeps booleans, `catch` may return anything.
pub open spec fn unop_type_model(op: ErlUnaryOp) -> TypeModel {
    match op {
        ErlUnaryOp::Not => TypeModel::Boolean(Option::None),
        ErlUnaryOp::BinaryNot => TypeModel::Integer(Option::None),
        ErlUnaryOp::Negative | ErlUnaryOp::Positive => number_union_model(),
        ErlUnaryOp::Catch => TypeModel::Any,
    }
}

/// The type slot read off one node: attributes and the module root are
/// unconstrained, nodes with slots answer their slot, clause-bearing
/// nodes answer through their bodies, and operators answer their policy.
pub open spec fn ast_type_model(a: AstModel) -> TypeModel
    decreases a,
{
    match a {
        AstModel::Lit(l) => lit_type_model(l),
        AstModel::Var { ty, .. } => ty,
        AstModel::Apply { ret_ty, .. } => ret_ty,
        AstModel::Let { in_expr, .. } => ast_type_model(*in_expr),
        AstModel::Case { ret, .. } => ret,
        AstModel::CClause { body, .. } => ast_type_model(*body),
        AstModel::BinaryOp { left, right, operator, .. } => binop_result_model(
            operator,
            ast_type_model(*left),
            ast_type_model(*right),
        ),
        AstModel::UnaryOp { expr, .. } => ast_type_model(*expr),
        AstModel::FnDef { ret, .. } => ret,
        AstModel::FClause { body, .. } => ast_type_model(*body),
        AstModel::ListExpr { .. } => TypeModel::AnyList,
        AstModel::BinaryExpr { .. } => TypeModel::Binary,
        _ => TypeModel::Any,
    }
}

/// Build the integer/float union as an executable type.
pub fn number_union() -> (r: ErlType)
    ensures
        r@ == number_union_model(),
{
    let mut members: Vec<ErlType> = Vec::new();
    members.push(ErlType::integer());
    members.push(ErlType::float());
    proof {
        crate::erl_type::lemma_tys_view(members@);
        assert(tys_view(members@) =~= seq![
            TypeModel::Integer(Option::<int>::None),
            TypeModel::Float,
        ]);
        crate::erl_type_new::lemma_union_model_pair(
            TypeModel::Integer(Option::None),
            TypeModel::Float,
        );
    }
    ErlType::union_of(members)
}

/// The executable operator result policy, mirroring
/// [`binop_result_model`] on the operand types handed in.
pub fn binop_result_type(op: ErlBinaryOp, lt: ErlType, rt: ErlType) -> (r: ErlType)
    ensures
        r@ == binop_result_model(op, lt@, rt@),
{
    match op {
        ErlBinaryOp::Add | ErlBinaryOp::Sub | ErlBinaryOp::Mul => number_union(),
        ErlBinaryOp::Div => ErlType::float(),
        ErlBinaryOp::IntegerDiv | ErlBinaryOp::Modulo => ErlType::integer(),
        ErlBinaryOp::Less | ErlBinaryOp::Greater | ErlBinaryOp::LessEq | ErlBinaryOp::GreaterEq
            | ErlBinaryOp::Eq | ErlBinaryOp::NotEq | ErlBinaryOp::HardEq
            | ErlBinaryOp::HardNotEq => ErlType::boolean(),
        ErlBinaryOp::And | ErlBinaryOp::AndAlso | ErlBinaryOp::Or | ErlBinaryOp::OrElse
            | ErlBinaryOp::Xor => ErlType::boolean(),
        ErlBinaryOp::BinaryAnd | ErlBinaryOp::BinaryOr | ErlBinaryOp::BinaryXor
            | ErlBinaryOp::BinaryShiftLeft | ErlBinaryOp::BinaryShiftRight => ErlType::integer(),
        ErlBinaryOp::ListAppend => match (lt, rt) {
            (ErlType::List(a), ErlType::List(b)) => {
                let ghost am = (*a)@;
                let ghost bm = (*b)@;
                let mut members: Vec<ErlType> = Vec::new();
                members.push(*a);
                members.push(*b);
                proof {
                    crate::erl_type::lemma_tys_view(members@);
                    assert(tys_view(members@) =~= seq![am, bm]);
                }
                let u = ErlType::union_of(members);
                ErlType::List(Box::new(u))
            },
            _ => ErlType::NoneType,
        },
        ErlBinaryOp::ListSubtract => lt,
        ErlBinaryOp::Match | ErlBinaryOp::Bang | ErlBinaryOp::Comma => rt,
        ErlBinaryOp::Semicolon => rt,
    }
}

impl BinaryOperatorExpr {
    /// The result type of this operator application, per
    /// [`binop_result_model`] on the operands' slot types.
    pub fn get_result_type(&self) -> (r: ErlType)
        ensures
            r@ == binop_result_model(
                self.operator,
                ast_type_model((*self.left)@),
                ast_type_model((*self.right)@),
            ),
    {
        let lt = self.left.get_type();
        let rt = self.right.get_type();
        binop_result_type(self.operator, lt, rt)
    }

    /// The type this operator requires of both operands, if any, per
    /// [`binop_arg_model`].
    pub fn get_arg_type(&self) -> (r: Option<ErlType>)
        ensures
            match r {
                Option::Some(t) => binop_arg_model(self.operator) == Option::Some(t@),
                Option::None => binop_arg_model(self.operator) is None,
            },
    {
        match self.operator {
            ErlBinaryOp::Add | ErlBinaryOp::Sub | ErlBinaryOp::Mul | ErlBinaryOp::Div => {
                Option::Some(number_union())
            },
            ErlBinaryOp::IntegerDiv | ErlBinaryOp::Modulo | ErlBinaryOp::BinaryAnd
                | ErlBinaryOp::BinaryOr | ErlBinaryOp::BinaryXor | ErlBinaryOp::BinaryShiftLeft
                | ErlBinaryOp::BinaryShiftRight => Option::Some(ErlType::integer()),
            ErlBinaryOp::And | ErlBinaryOp::AndAlso | ErlBinaryOp::Or | ErlBinaryOp::OrElse
                | ErlBinaryOp::Xor => Option::Some(ErlType::boolean()),
            ErlBinaryOp::ListAppend | ErlBinaryOp::ListSubtract => Option::Some(
                ErlType::any_list(),
            ),
            _ => Option::None,
        }
    }
}

impl UnaryOperatorExpr {
    /// The result type of this unary operator, per [`unop_type_model`].
    pub fn get_type(&self) -> (r: ErlType)
        ensures
            r@ == unop_type_model(self.operator),
    {
        match self.operator {
            ErlUnaryOp::Not => ErlType::boolean(),
            ErlUnaryOp::BinaryNot => ErlType::integer(),
            ErlUnaryOp::Negative | ErlUnaryOp::Positive => number_union(),
            ErlUnaryOp::Catch => ErlType::any(),
        }
    }
}

impl ErlAst {
    /// The type slot read off this node, per [`ast_type_model`].
    pub fn get_type(&self) -> (r: ErlType)
        ensures
            r@ == ast_type_model(self@),
        decreases *self,
    {
        match self {
            ErlAst::Lit { value } => value.get_type(),
            ErlAst::Var(v) => v.ty.clone(),
            ErlAst::Apply(call) => call.ret_ty.clone(),
            ErlAst::Let(le) => le.in_expr.get_type(),
            ErlAst::Case(c) => c.ret.clone(),
            ErlAst::CClause { body, .. } => body.get_type(),
            ErlAst::BinaryOp { expr } => {
                let lt = expr.left.get_type();
                let rt = expr.right.get_type();
                binop_result_type(expr.operator, lt, rt)
            },
            ErlAst::UnaryOp { expr } => expr.expr.get_type(),
            ErlAst::FnDef { ret, .. } => ret.clone(),
            ErlAst::FClause { body, .. } => body.get_type(),
            ErlAst::ListExpr { .. } => ErlType::any_list(),
            ErlAst::BinaryExpr { .. } => ErlType::Binary,
            _ => ErlType::any(),
        }
    }
}

} // verus!
