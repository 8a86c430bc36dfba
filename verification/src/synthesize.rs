//! Bottom-up type synthesis: compute a type for a node afresh, with no
//! memoization, under a typing scope.
//!
//! Literal lists synthesize to a strongly-typed list whose element types
//! follow the elements positionally; tuples synthesize element-wise;
//! arithmetic over two integer-typed operands stays integer and widens
//! to the integer/float union otherwise; an application whose target
//! does not synthesize to a function type (or to `Any`) is an internal
//! error, reported as such and never a panic.

use vstd::prelude::*;

use crate::erl_ast::AstModel;
use crate::erl_ast::ErlAst;
use crate::erl_ast::lemma_asts_view;
use crate::erl_ast::asts_view;
use crate::erl_op::ErlBinaryOp;
use crate::erl_op::ErlUnaryOp;
use crate::erl_type::ErlType;
use crate::erl_type::TypeModel;
use crate::erl_type::lemma_tys_view;
use crate::erl_type::tys_view;
use crate::erl_type_new::union_model;
use crate::error::ErlError;
use crate::expression::binop_result_model;
use crate::expression::number_union;
use crate::expression::number_union_model;
use crate::literal::lit_type_model;
use crate::scope::Scope;
use crate::scope::ScopeVarModel;
use crate::scope::lookup_var_model;
use crate::subtyping::subtype_model;

verus! {

/// The synthesized type of an arithmetic or other binary application,
/// given the operands' synthesized types: addition, subtraction and
/// multiplication of two integer-typed operands stay integer and widen
/// to the integer/float union otherwise; every other operator follows
/// the fixed policy.
pub open spec fn synth_binop_model(op: ErlBinaryOp, lt: TypeModel, rt: TypeModel) -> TypeModel {
    match op {
        ErlBinaryOp::Add | ErlBinaryOp::Sub | ErlBinaryOp::Mul => {
            if subtype_model(lt, TypeModel::Integer(Option::None)) && subtype_model(
                rt,
                TypeModel::Integer(Option::None),
            ) {
                TypeModel::Integer(Option::None)
            } else {
                number_union_model()
            }
        },
        _ => binop_result_model(op, lt, rt),
    }
}

/// The synthesized type of a unary application, given the operand's
/// synthesized type.
pub open spec fn synth_unop_model(op: ErlUnaryOp, t: TypeModel) -> TypeModel {
    match op {
        ErlUnaryOp::Not => TypeModel::Boolean(Option::None),
        ErlUnaryOp::BinaryNot => TypeModel::Integer(Option::None),
        ErlUnaryOp::Negative | ErlUnaryOp::Positive => {
            if subtype_model(t, TypeModel::Integer(Option::None)) {
                TypeModel::Integer(Option::None)
            } else {
                number_union_model()
            }
        },
        ErlUnaryOp::Catch => TypeModel::Any,
    }
}

/// Fresh bottom-up synthesis of a node's type under the given bindings;
/// nothing when synthesis fails on an internal invariant.
pub open spec fn synth_model(vars: Seq<ScopeVarModel>, a: AstModel) -> Option<TypeModel>
    decreases a,
{
    match a {
        AstModel::Lit(l) => Option::Some(lit_type_model(l)),
        AstModel::Var { name, .. } => Option::Some(
            match lookup_var_model(vars, name) {
                Option::Some(t) => t,
                Option::None => TypeModel::Any,
            },
        ),
        AstModel::ListExpr { elements, tail } => match synths_model(vars, elements) {
            Option::Some(ts) => match tail {
                Option::None => Option::Some(
                    TypeModel::StronglyTypedList { elements: ts, tail: Option::None },
                ),
                Option::Some(t) => match synth_model(vars, *t) {
                    Option::Some(tt) => Option::Some(
                        TypeModel::StronglyTypedList {
                            elements: ts,
                            tail: Option::Some(Box::new(tt)),
                        },
                    ),
                    Option::None => Option::None,
                },
            },
            Option::None => Option::None,
        },
        AstModel::TupleExpr { elements } => match synths_model(vars, elements) {
            Option::Some(ts) => Option::Some(TypeModel::Tuple { elements: ts }),
            Option::None => Option::None,
        },
        AstModel::BinaryOp { left, right, operator, .. } => match (
            synth_model(vars, *left),
            synth_model(vars, *right),
        ) {
            (Option::Some(lt), Option::Some(rt)) => Option::Some(
                synth_binop_model(operator, lt, rt),
            ),
            _ => Option::None,
        },
        AstModel::UnaryOp { expr, operator } => match synth_model(vars, *expr) {
            Option::Some(t) => Option::Some(synth_unop_model(operator, t)),
            Option::None => Option::None,
        },
        AstModel::Apply { target, .. } => match synth_model(vars, *target) {
            Option::Some(TypeModel::Fn { ret, .. }) => Option::Some(*ret),
            Option::Some(TypeModel::Any) => Option::Some(TypeModel::Any),
            _ => Option::None,
        },
        AstModel::Case { clauses, .. } => match synths_model(vars, clauses) {
            Option::Some(ts) => Option::Some(union_model(ts)),
            Option::None => Option::None,
        },
        AstModel::CClause { body, .. } => synth_model(vars, *body),
        AstModel::Let { var, value, in_expr, .. } => match synth_model(vars, *value) {
            Option::Some(vt) => synth_model(
                vars.push(ScopeVarModel { name: var, ty: vt }),
                *in_expr,
            ),
            Option::None => Option::None,
        },
        AstModel::FnDef { clauses, .. } => {
            if clauses.len() == 0 {
                Option::None
            } else {
                match (clauses[0], synths_model(vars, clauses)) {
                    (AstModel::FClause { args, .. }, Option::Some(ts)) => match synths_model(
                        vars,
                        args,
                    ) {
                        Option::Some(arg_ts) => Option::Some(
                            TypeModel::Fn {
                                args: Option::Some(arg_ts),
                                ret: Box::new(union_model(clause_rets(ts))),
                            },
                        ),
                        Option::None => Option::None,
                    },
                    _ => Option::None,
                }
            }
        },
        AstModel::FClause { args, body, .. } => match (synths_model(vars, args), synth_model(
            vars,
            *body,
        )) {
            (Option::Some(arg_ts), Option::Some(bt)) => Option::Some(
                TypeModel::Fn { args: Option::Some(arg_ts), ret: Box::new(bt) },
            ),
            _ => Option::None,
        },
        AstModel::BinaryExpr { .. } => Option::Some(TypeModel::Binary),
        _ => Option::Some(TypeModel::Any),
    }
}

/// Synthesis of a node sequence, element-wise; nothing when any element
/// fails.
pub open spec fn synths_model(vars: Seq<ScopeVarModel>, asts: Seq<AstModel>) -> Option<
    Seq<TypeModel>,
>
    decreases asts,
{
    if asts.len() == 0 {
        Option::Some(Seq::empty())
    } else {
        match (synth_model(vars, asts[0]), synths_model(vars, asts.drop_first())) {
            (Option::Some(t), Option::Some(ts)) => Option::Some(seq![t] + ts),
            _ => Option::None,
        }
    }
}

/// The return types of synthesized clause types: a clause synthesizes a
/// function type and contributes its return type; any other synthesized
/// type contributes itself.
pub open spec fn clause_rets(ts: Seq<TypeModel>) -> Seq<TypeModel>
    decreases ts,
{
    if ts.len() == 0 {
        Seq::empty()
    } else {
        let head = match ts[0] {
            TypeModel::Fn { ret, .. } => *ret,
            t => t,
        };
        seq![head] + clause_rets(ts.drop_first())
    }
}

/// `synths_model` succeeds exactly when every element succeeds, and is
/// then the element-wise synthesis.
pub proof fn lemma_synths_model(vars: Seq<ScopeVarModel>, asts: Seq<AstModel>)
    ensures
        (synths_model(vars, asts) is Some) <==> (forall|i: int|
            0 <= i < asts.len() ==> synth_model(vars, #[trigger] asts[i]) is Some),
        synths_model(vars, asts) matches Option::Some(ts) ==> ts.len() == asts.len() && forall|
            i: int,
        |
            0 <= i < asts.len() ==> Option::Some(ts[i]) == synth_model(vars, #[trigger] asts[i]),
    decreases asts.len(),
{
    if asts.len() > 0 {
        lemma_synths_model(vars, asts.drop_first());
        assert(forall|i: int| 1 <= i < asts.len() ==> asts.drop_first()[i - 1] == asts[i]);
    }
}

/// `clause_rets` maps the sequence pointwise.
pub proof fn lemma_clause_rets(ts: Seq<TypeModel>)
    ensures
        clause_rets(ts).len() == ts.len(),
        forall|i: int|
            0 <= i < ts.len() ==> clause_rets(ts)[i] == (match ts[i] {
                TypeModel::Fn { ret, .. } => *ret,
                t => t,
            }),
    decreases ts.len(),
{
    if ts.len() > 0 {
        lemma_clause_rets(ts.drop_first());
        assert(forall|i: int| 1 <= i < ts.len() ==> ts.drop_first()[i - 1] == ts[i]);
    }
}

impl ErlAst {
    /// Synthesize this node's type afresh under `scope`, per
    /// [`synth_model`]; a failed internal invariant (an application
    /// target that is not callable) is an internal error.
    pub fn synthesize(&self, scope: &Scope) -> (r: Result<ErlType, ErlError>)
        ensures
            match r {
                Result::Ok(t) => synth_model(scope@.variables, self@) == Option::Some(t@),
                Result::Err(e) => synth_model(scope@.variables, self@) is None && e@ is Internal,
            },
        decreases *self,
    {
        match self {
            ErlAst::Lit { value } => Result::Ok(value.get_type()),
            ErlAst::Var(v) => match scope.lookup_var(v.name.as_str()) {
                Option::Some(t) => Result::Ok(t),
                Option::None => Result::Ok(ErlType::any()),
            },
            ErlAst::ListExpr { elements, tail } => {
                let ts = match synths_exec(scope, elements) {
                    Result::Ok(ts) => ts,
                    Result::Err(e) => {
                        return Result::Err(e);
                    },
                };
                match tail {
                    Option::None => Result::Ok(
                        ErlType::StronglyTypedList { elements: ts, tail: Option::None },
                    ),
                    Option::Some(t) => match t.synthesize(scope) {
                        Result::Ok(tt) => Result::Ok(
                            ErlType::StronglyTypedList {
                                elements: ts,
                                tail: Option::Some(Box::new(tt)),
                            },
                        ),
                        Result::Err(e) => Result::Err(e),
                    },
                }
            },
            ErlAst::TupleExpr { elements } => match synths_exec(scope, elements) {
                Result::Ok(ts) => Result::Ok(ErlType::Tuple { elements: ts }),
                Result::Err(e) => Result::Err(e),
            },
            ErlAst::BinaryOp { expr } => {
                let lt = match expr.left.synthesize(scope) {
                    Result::Ok(t) => t,
                    Result::Err(e) => {
                        return Result::Err(e);
                    },
                };
                let rt = match expr.right.synthesize(scope) {
                    Result::Ok(t) => t,
                    Result::Err(e) => {
                        return Result::Err(e);
                    },
                };
                Result::Ok(synth_binop_exec(expr.operator, lt, rt))
            },
            ErlAst::UnaryOp { expr } => match expr.expr.synthesize(scope) {
                Result::Ok(t) => Result::Ok(synth_unop_exec(expr.operator, t)),
                Result::Err(e) => Result::Err(e),
            },
            ErlAst::Apply(call) => match call.target.synthesize(scope) {
                Result::Ok(t) => match t {
                    ErlType::Fn { ret, .. } => Result::Ok(*ret),
                    ErlType::Any => Result::Ok(ErlType::any()),
                    _ => Result::Err(
                        ErlError::internal(String::from_str(
                            "application target is not a function type",
                        )),
                    ),
                },
                Result::Err(e) => Result::Err(e),
            },
            ErlAst::Case(c) => match synths_exec(scope, &c.clauses) {
                Result::Ok(ts) => Result::Ok(ErlType::union_of(ts)),
                Result::Err(e) => Result::Err(e),
            },
            ErlAst::CClause { body, .. } => body.synthesize(scope),
            ErlAst::Let(le) => {
                let vt = match le.value.synthesize(scope) {
                    Result::Ok(t) => t,
                    Result::Err(e) => {
                        return Result::Err(e);
                    },
                };
                let cloned = clone_scope_vars(&scope.variables);
                let mut inner = Scope { name: scope.name.clone(), variables: cloned };
                inner.add_var(le.var.clone(), vt);
                le.in_expr.synthesize(&inner)
            },
            ErlAst::FnDef { clauses, .. } => {
                proof {
                    lemma_asts_view(clauses@);
                }
                if clauses.len() == 0 {
                    return Result::Err(
                        ErlError::internal(String::from_str(
                            "function definition without clauses",
                        )),
                    );
                }
                let ts = match synths_exec(scope, clauses) {
                    Result::Ok(ts) => ts,
                    Result::Err(e) => {
                        return Result::Err(e);
                    },
                };
                proof {
                    lemma_asts_view(clauses@);
                }
                match &clauses[0] {
                    ErlAst::FClause { args, .. } => match synths_exec(scope, args) {
                        Result::Ok(arg_ts) => {
                            let rets = clause_rets_exec(ts);
                            let ret = ErlType::union_of(rets);
                            Result::Ok(
                                ErlType::Fn { args: Option::Some(arg_ts), ret: Box::new(ret) },
                            )
                        },
                        Result::Err(e) => Result::Err(e),
                    },
                    _ => Result::Err(
                        ErlError::internal(String::from_str(
                            "function clause node of the wrong kind",
                        )),
                    ),
                }
            },
            ErlAst::FClause { args, body, .. } => {
                let arg_ts = match synths_exec(scope, args) {
                    Result::Ok(ts) => ts,
                    Result::Err(e) => {
                        return Result::Err(e);
                    },
                };
                match body.synthesize(scope) {
                    Result::Ok(bt) => Result::Ok(
                        ErlType::Fn { args: Option::Some(arg_ts), ret: Box::new(bt) },
                    ),
                    Result::Err(e) => Result::Err(e),
                }
            },
            ErlAst::BinaryExpr { .. } => Result::Ok(ErlType::Binary),
            _ => Result::Ok(ErlType::any()),
        }
    }
}

/// Executable mirror of [`synth_binop_model`].
fn synth_binop_exec(op: ErlBinaryOp, lt: ErlType, rt: ErlType) -> (r: ErlType)
    ensures
        r@ == synth_binop_model(op, lt@, rt@),
{
    match op {
        ErlBinaryOp::Add | ErlBinaryOp::Sub | ErlBinaryOp::Mul => {
            let int_ty = ErlType::integer();
            if lt.is_subtype_of(&int_ty) && rt.is_subtype_of(&int_ty) {
                ErlType::integer()
            } else {
                number_union()
            }
        },
        _ => crate::expression::binop_result_type(op, lt, rt),
    }
}

/// Executable mirror of [`synth_unop_model`].
fn synth_unop_exec(op: ErlUnaryOp, t: ErlType) -> (r: ErlType)
    ensures
        r@ == synth_unop_model(op, t@),
{
    match op {
        ErlUnaryOp::Not => ErlType::boolean(),
        ErlUnaryOp::BinaryNot => ErlType::integer(),
        ErlUnaryOp::Negative | ErlUnaryOp::Positive => {
            let int_ty = ErlType::integer();
            if t.is_subtype_of(&int_ty) {
                ErlType::integer()
            } else {
                number_union()
            }
        },
        ErlUnaryOp::Catch => ErlType::any(),
    }
}

/// Synthesize every node of a vector, per [`synths_model`].
fn synths_exec(scope: &Scope, asts: &Vec<ErlAst>) -> (r: Result<Vec<ErlType>, ErlError>)
    ensures
        match r {
            Result::Ok(ts) => synths_model(scope@.variables, asts_view(asts@)) == Option::Some(
                tys_view(ts@),
            ),
            Result::Err(e) => synths_model(scope@.variables, asts_view(asts@)) is None
                && e@ is Internal,
        },
    decreases asts@,
{
    proof {
        lemma_asts_view(asts@);
        lemma_synths_model(scope@.variables, asts_view(asts@));
    }
    let n = asts.len();
    let mut r: Vec<ErlType> = Vec::new();
    let mut i: usize = 0;
    while i < n
        invariant
            n == asts.len(),
            0 <= i <= n,
            r@.len() == i,
            forall|j: int|
                0 <= j < i ==> Option::Some(r@[j]@) == synth_model(
                    scope@.variables,
                    asts_view(asts@)[j],
                ),
            asts_view(asts@).len() == asts@.len(),
            forall|j: int| 0 <= j < asts@.len() ==> asts_view(asts@)[j] == asts@[j]@,
        decreases n - i,
    {
        match asts[i].synthesize(scope) {
            Result::Ok(t) => {
                r.push(t);
            },
            Result::Err(e) => {
                proof {
                    assert(asts_view(asts@)[i as int] == asts@[i as int]@);
                    assert(synth_model(scope@.variables, asts_view(asts@)[i as int]) is None);
                    lemma_synths_model(scope@.variables, asts_view(asts@));
                }
                return Result::Err(e);
            },
        }
        i = i + 1;
    }
    proof {
        lemma_tys_view(r@);
        lemma_synths_model(scope@.variables, asts_view(asts@));
        assert forall|j: int|
            0 <= j < asts@.len() implies synth_model(
                scope@.variables,
                #[trigger] asts_view(asts@)[j],
            ) is Some by {
            assert(Option::Some(r@[j]@) == synth_model(scope@.variables, asts_view(asts@)[j]));
        }
        assert(synths_model(scope@.variables, asts_view(asts@)) is Some);
        let ts = synths_model(scope@.variables, asts_view(asts@)).unwrap();
        assert forall|j: int| 0 <= j < r@.len() implies tys_view(r@)[j] == ts[j] by {
            assert(Option::Some(r@[j]@) == synth_model(scope@.variables, asts_view(asts@)[j]));
            assert(Option::Some(ts[j]) == synth_model(scope@.variables, asts_view(asts@)[j]));
        }
        assert(tys_view(r@) =~= ts);
    }
    Result::Ok(r)
}

/// The return types of a vector of synthesized clause types, per
/// [`clause_rets`].
fn clause_rets_exec(ts: Vec<ErlType>) -> (r: Vec<ErlType>)
    ensures
        tys_view(r@) == clause_rets(tys_view(ts@)),
{
    proof {
        lemma_tys_view(ts@);
        lemma_clause_rets(tys_view(ts@));
    }
    let n = ts.len();
    let mut r: Vec<ErlType> = Vec::new();
    let mut i: usize = 0;
    while i < n
        invariant
            n == ts.len(),
            0 <= i <= n,
            r@.len() == i,
            forall|j: int|
                0 <= j < i ==> r@[j]@ == clause_rets(tys_view(ts@))[j],
            tys_view(ts@).len() == ts@.len(),
            forall|j: int| 0 <= j < ts@.len() ==> tys_view(ts@)[j] == ts@[j]@,
            clause_rets(tys_view(ts@)).len() == ts@.len(),
            forall|j: int|
                0 <= j < ts@.len() ==> clause_rets(tys_view(ts@))[j] == (match tys_view(ts@)[j] {
                    TypeModel::Fn { ret, .. } => *ret,
                    t => t,
                }),
        decreases n - i,
    {
        match &ts[i] {
            ErlType::Fn { ret, .. } => {
                let inner = (**ret).clone();
                r.push(inner);
            },
            _ => {
                let whole = ts[i].clone();
                r.push(whole);
            },
        }
        i = i + 1;
    }
    proof {
        lemma_tys_view(r@);
        assert(tys_view(r@) =~= clause_rets(tys_view(ts@)));
    }
    r
}

/// Deep copy of scope bindings.
fn clone_scope_vars(vs: &Vec<crate::scope::ScopeVar>) -> (r: Vec<crate::scope::ScopeVar>)
    ensures
        crate::scope::scope_vars_view(r@) == crate::scope::scope_vars_view(vs@),
{
    proof {
        crate::scope::lemma_scope_vars_view(vs@);
    }
    let n = vs.len();
    let mut r: Vec<crate::scope::ScopeVar> = Vec::new();
    let mut i: usize = 0;
    while i < n
        invariant
            n == vs.len(),
            0 <= i <= n,
            r@.len() == i,
            forall|j: int| 0 <= j < i ==> r@[j]@ == vs@[j]@,
        decreases n - i,
    {
        let v = crate::scope::ScopeVar { name: vs[i].name.clone(), ty: vs[i].ty.clone() };
        r.push(v);
        i = i + 1;
    }
    proof {
        crate::scope::lemma_scope_vars_view(r@);
        assert(crate::scope::scope_vars_view(r@) =~= crate::scope::scope_vars_view(vs@));
    }
    r
}

} // verus!
