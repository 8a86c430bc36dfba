//! The type-equation generator: walk the tree children first and emit,
//! for each node, the constraints its type slot must satisfy; collect
//! every equation of the whole tree into one ordered list.
//!
//! Nodes are numbered post-order as they are visited; an equation names
//! its originating node by that stable index. A malformed application
//! target is reported to the error collector and does not stop the walk.

use vstd::prelude::*;

use crate::erl_ast::AstModel;
use crate::erl_ast::ErlAst;
use crate::erl_ast::asts_view;
use crate::erl_ast::lemma_asts_view;
use crate::erl_type::ErlType;
use crate::erl_type::TypeModel;
use crate::erl_type::lemma_tys_view;
use crate::erl_type::tys_view;
use crate::erl_type_new::union_model;
use crate::error::ErlError;
use crate::expression::ast_type_model;
use crate::expression::binop_arg_model;
use crate::expression::binop_result_model;
use crate::expression::unop_type_model;

verus! {

/// One type equation: the originating node's post-order index, the
/// deduced type, the expected type, and a free-form annotation for
/// diagnostics.
#[derive(Debug)]
pub struct TypeEquation {
    /// Post-order index of the originating node.
    pub node: usize,
    /// The type the tree gives the node.
    pub deduced: ErlType,
    /// The type the rules require there.
    pub expected: ErlType,
    /// A human-readable note; not part of the equation's meaning.
    pub annotation: String,
}

/// Ghost model of one equation: the annotation carries no meaning and
/// is left out.
#[verifier::ext_equal]
pub struct EqModel {
    /// Post-order index of the originating node.
    pub node: int,
    /// The deduced type.
    pub deduced: TypeModel,
    /// The expected type.
    pub expected: TypeModel,
}

impl View for TypeEquation {
    type V = EqModel;

    open spec fn view(&self) -> EqModel {
        EqModel { node: self.node as int, deduced: self.deduced@, expected: self.expected@ }
    }
}

/// Models of an equation vector, in order.
pub open spec fn eqs_view(es: Seq<TypeEquation>) -> Seq<EqModel>
    decreases es,
{
    if es.len() == 0 {
        Seq::empty()
    } else {
        seq![es[0]@] + eqs_view(es.drop_first())
    }
}

/// `eqs_view` maps the sequence pointwise.
pub proof fn lemma_eqs_view(es: Seq<TypeEquation>)
    ensures
        eqs_view(es).len() == es.len(),
        forall|i: int| 0 <= i < es.len() ==> eqs_view(es)[i] == es[i]@,
    decreases es.len(),
{
    if es.len() > 0 {
        lemma_eqs_view(es.drop_first());
        assert forall|i: int| 0 <= i < es.len() implies eqs_view(es)[i] == es[i]@ by {
            if i > 0 {
                assert(eqs_view(es)[i] == eqs_view(es.drop_first())[i - 1]);
                assert(es.drop_first()[i - 1] == es[i]);
            }
        }
    }
}

/// The slot types of a node sequence, in order.
pub open spec fn types_of(asts: Seq<AstModel>) -> Seq<TypeModel>
    decreases asts,
{
    if asts.len() == 0 {
        Seq::empty()
    } else {
        seq![ast_type_model(asts[0])] + types_of(asts.drop_first())
    }
}

/// `types_of` maps the sequence pointwise.
pub proof fn lemma_types_of(asts: Seq<AstModel>)
    ensures
        types_of(asts).len() == asts.len(),
        forall|i: int| 0 <= i < asts.len() ==> types_of(asts)[i] == ast_type_model(asts[i]),
    decreases asts.len(),
{
    if asts.len() > 0 {
        lemma_types_of(asts.drop_first());
        assert forall|i: int|
            0 <= i < asts.len() implies types_of(asts)[i] == ast_type_model(asts[i]) by {
            if i > 0 {
                assert(types_of(asts)[i] == types_of(asts.drop_first())[i - 1]);
                assert(asts.drop_first()[i - 1] == asts[i]);
            }
        }
    }
}

/// The next node index: counting saturates rather than wraps.
pub open spec fn bump(idx: int) -> int {
    if idx < usize::MAX as int {
        idx + 1
    } else {
        idx
    }
}

/// The equations a node itself contributes, given its post-order index.
/// Literals, variables, constructions and attributes contribute none; a
/// scoping node ties its slot to its body; operators tie slots to the
/// operator policies; a clause requires a boolean guard; `case` and
/// function definitions tie their slot to the union of their clauses'
/// body types; an application requires its target to have the matching
/// function shape, and, when the target's type is a function type, ties
/// its own slot to that type's return type.
pub open spec fn own_eqs(a: AstModel, idx: int) -> Seq<EqModel> {
    match a {
        AstModel::Let { in_expr, ret_ty, .. } => seq![
            EqModel { node: idx, deduced: ret_ty, expected: ast_type_model(*in_expr) },
        ],
        AstModel::CClause { guard, .. } => seq![
            EqModel {
                node: idx,
                deduced: ast_type_model(*guard),
                expected: TypeModel::Boolean(Option::None),
            },
        ],
        AstModel::Case { ret, clauses, .. } => seq![
            EqModel { node: idx, deduced: ret, expected: union_model(types_of(clauses)) },
        ],
        AstModel::FnDef { ret, clauses, .. } => seq![
            EqModel { node: idx, deduced: ret, expected: union_model(types_of(clauses)) },
        ],
        AstModel::BinaryOp { left, right, operator, ty } => {
            let result_eq = EqModel {
                node: idx,
                deduced: ty,
                expected: binop_result_model(
                    operator,
                    ast_type_model(*left),
                    ast_type_model(*right),
                ),
            };
            match binop_arg_model(operator) {
                Option::Some(need) => seq![
                    result_eq,
                    EqModel { node: idx, deduced: ast_type_model(*left), expected: need },
                    EqModel { node: idx, deduced: ast_type_model(*right), expected: need },
                ],
                Option::None => seq![result_eq],
            }
        },
        AstModel::UnaryOp { expr, operator } => seq![
            EqModel {
                node: idx,
                deduced: ast_type_model(*expr),
                expected: unop_type_model(operator),
            },
        ],
        AstModel::Apply { target, args, ret_ty } => {
            let shape = TypeModel::Fn {
                args: Option::Some(types_of(args)),
                ret: Box::new(ret_ty),
            };
            let target_eq = EqModel {
                node: idx,
                deduced: ast_type_model(*target),
                expected: shape,
            };
            match ast_type_model(*target) {
                TypeModel::Fn { ret, .. } => seq![
                    target_eq,
                    EqModel { node: idx, deduced: ret_ty, expected: *ret },
                ],
                _ => seq![target_eq],
            }
        },
        _ => Seq::empty(),
    }
}

/// The equations of a whole subtree, children first, and the node index
/// after it. Every visited node takes one index, leaves included;
/// binary literals, record attributes and other leaf-like forms are not
/// descended into.
pub open spec fn gen_eqs(a: AstModel, idx: int) -> (Seq<EqModel>, int)
    decreases a,
{
    let kids: (Seq<EqModel>, int) = match a {
        AstModel::Forms(forms) => gen_eqs_seq(forms, idx),
        AstModel::Apply { target, args, .. } => {
            let h = gen_eqs(*target, idx);
            let t = gen_eqs_seq(args, h.1);
            (h.0 + t.0, t.1)
        },
        AstModel::Let { value, in_expr, .. } => {
            let h = gen_eqs(*value, idx);
            let t = gen_eqs(*in_expr, h.1);
            (h.0 + t.0, t.1)
        },
        AstModel::Case { arg, clauses, .. } => {
            let h = gen_eqs(*arg, idx);
            let t = gen_eqs_seq(clauses, h.1);
            (h.0 + t.0, t.1)
        },
        AstModel::CClause { cond, guard, body } => {
            let h = gen_eqs(*cond, idx);
            let g = gen_eqs(*guard, h.1);
            let b = gen_eqs(*body, g.1);
            (h.0 + g.0 + b.0, b.1)
        },
        AstModel::BinaryOp { left, right, .. } => {
            let h = gen_eqs(*left, idx);
            let t = gen_eqs(*right, h.1);
            (h.0 + t.0, t.1)
        },
        AstModel::UnaryOp { expr, .. } => gen_eqs(*expr, idx),
        AstModel::FnDef { clauses, .. } => gen_eqs_seq(clauses, idx),
        AstModel::FClause { args, guard, body } => {
            let h = gen_eqs_seq(args, idx);
            let g = gen_eqs(*guard, h.1);
            let b = gen_eqs(*body, g.1);
            (h.0 + g.0 + b.0, b.1)
        },
        AstModel::ListExpr { elements, tail } => {
            let h = gen_eqs_seq(elements, idx);
            match tail {
                Option::Some(t) => {
                    let tt = gen_eqs(*t, h.1);
                    (h.0 + tt.0, tt.1)
                },
                Option::None => h,
            }
        },
        AstModel::TupleExpr { elements } => gen_eqs_seq(elements, idx),
        _ => (Seq::empty(), idx),
    };
    (kids.0 + own_eqs(a, kids.1), bump(kids.1))
}

/// The equations of a node sequence, left to right.
pub open spec fn gen_eqs_seq(asts: Seq<AstModel>, idx: int) -> (Seq<EqModel>, int)
    decreases asts,
{
    if asts.len() == 0 {
        (Seq::empty(), idx)
    } else {
        let head = gen_eqs(asts[0], idx);
        let rest = gen_eqs_seq(asts.drop_first(), head.1);
        (head.0 + rest.0, rest.1)
    }
}

/// The equation generator.
#[derive(Debug)]
pub struct Unifier {}

impl Unifier {
    /// Append one equation with an empty annotation.
    pub fn equation(eq: &mut Vec<TypeEquation>, node: usize, deduced: ErlType, expected: ErlType)
        ensures
            eqs_view(final(eq)@) == eqs_view(old(eq)@).push(
                EqModel { node: node as int, deduced: deduced@, expected: expected@ },
            ),
    {
        Self::equation_anno(eq, node, deduced, expected, String::new());
    }

    /// Append one equation with an annotation.
    pub fn equation_anno(
        eq: &mut Vec<TypeEquation>,
        node: usize,
        deduced: ErlType,
        expected: ErlType,
        annotation: String,
    )
        ensures
            eqs_view(final(eq)@) == eqs_view(old(eq)@).push(
                EqModel { node: node as int, deduced: deduced@, expected: expected@ },
            ),
    {
        let ghost oldv = eq@;
        let ghost target = EqModel { node: node as int, deduced: deduced@, expected: expected@ };
        eq.push(TypeEquation { node, deduced, expected, annotation });
        proof {
            lemma_eqs_view(oldv);
            lemma_eqs_view(eq@);
            assert(eq@ == oldv.push(eq@[eq@.len() - 1]));
            assert forall|k: int| 0 <= k < eq@.len() implies eqs_view(eq@)[k] == eqs_view(
                oldv,
            ).push(target)[k] by {
                if k < oldv.len() {
                    assert(eq@[k] == oldv[k]);
                    assert(eqs_view(oldv)[k] == oldv[k]@);
                }
            }
            assert(eqs_view(eq@) =~= eqs_view(oldv).push(target));
        }
    }

    /// Generate the equations of a whole tree into `eq`, children first,
    /// numbering nodes post-order from `*idx` on; a malformed
    /// application target is reported to `errors` and the walk goes on.
    pub fn generate_equations(
        ast: &ErlAst,
        eq: &mut Vec<TypeEquation>,
        errors: &mut Vec<ErlError>,
        idx: &mut usize,
    )
        ensures
            eqs_view(final(eq)@) == eqs_view(old(eq)@) + gen_eqs(ast@, *old(idx) as int).0,
            *final(idx) as int == gen_eqs(ast@, *old(idx) as int).1,
            final(errors)@.len() >= old(errors)@.len(),
            forall|j: int| 0 <= j < old(errors)@.len() ==> final(errors)@[j] == old(errors)@[j],
            forall|j: int|
                old(errors)@.len() <= j < final(errors)@.len()
                    ==> (#[trigger] final(errors)@[j])@ is Internal,
        decreases *ast,
    {
        let ghost eq0 = eqs_view(eq@);
        let ghost idx0 = *idx as int;
        match ast {
            ErlAst::Forms(forms) => {
                Self::generate_for_vec(forms, eq, errors, idx);
            },
            ErlAst::Apply(call) => {
                Self::generate_equations(&call.target, eq, errors, idx);
                Self::generate_for_vec(&call.args, eq, errors, idx);
            },
            ErlAst::Let(le) => {
                Self::generate_equations(&le.value, eq, errors, idx);
                Self::generate_equations(&le.in_expr, eq, errors, idx);
            },
            ErlAst::Case(c) => {
                Self::generate_equations(&c.arg, eq, errors, idx);
                Self::generate_for_vec(&c.clauses, eq, errors, idx);
            },
            ErlAst::CClause { cond, guard, body } => {
                Self::generate_equations(cond, eq, errors, idx);
                Self::generate_equations(guard, eq, errors, idx);
                Self::generate_equations(body, eq, errors, idx);
            },
            ErlAst::BinaryOp { expr } => {
                Self::generate_equations(&expr.left, eq, errors, idx);
                Self::generate_equations(&expr.right, eq, errors, idx);
            },
            ErlAst::UnaryOp { expr } => {
                Self::generate_equations(&expr.expr, eq, errors, idx);
            },
            ErlAst::FnDef { clauses, .. } => {
                Self::generate_for_vec(clauses, eq, errors, idx);
            },
            ErlAst::FClause { args, guard, body } => {
                Self::generate_for_vec(args, eq, errors, idx);
                Self::generate_equations(guard, eq, errors, idx);
                Self::generate_equations(body, eq, errors, idx);
            },
            ErlAst::ListExpr { elements, tail } => {
                Self::generate_for_vec(elements, eq, errors, idx);
                match tail {
                    Option::Some(t) => {
                        Self::generate_equations(t, eq, errors, idx);
                    },
                    Option::None => {},
                }
            },
            ErlAst::TupleExpr { elements } => {
                Self::generate_for_vec(elements, eq, errors, idx);
            },
            _ => {},
        }
        Self::emit_own(ast, eq, errors, idx);
        proof {
            assert(eqs_view(eq@) =~= eq0 + gen_eqs(ast@, idx0).0);
        }
    }

    /// Generate equations for each node in a vector, left to right.
    fn generate_for_vec(
        asts: &Vec<ErlAst>,
        eq: &mut Vec<TypeEquation>,
        errors: &mut Vec<ErlError>,
        idx: &mut usize,
    )
        ensures
            eqs_view(final(eq)@) == eqs_view(old(eq)@) + gen_eqs_seq(
                asts_view(asts@),
                *old(idx) as int,
            ).0,
            *final(idx) as int == gen_eqs_seq(asts_view(asts@), *old(idx) as int).1,
            final(errors)@.len() >= old(errors)@.len(),
            forall|j: int| 0 <= j < old(errors)@.len() ==> final(errors)@[j] == old(errors)@[j],
            forall|j: int|
                old(errors)@.len() <= j < final(errors)@.len()
                    ==> (#[trigger] final(errors)@[j])@ is Internal,
        decreases asts@,
    {
        let ghost av = asts_view(asts@);
        let ghost eq0 = eqs_view(eq@);
        let ghost idx0 = *idx as int;
        proof {
            lemma_asts_view(asts@);
            assert(av.skip(0) =~= av);
        }
        let n = asts.len();
        let mut i: usize = 0;
        while i < n
            invariant
                n == asts.len(),
                0 <= i <= n,
                av == asts_view(asts@),
                av.len() == asts@.len(),
                forall|j: int| 0 <= j < asts@.len() ==> av[j] == asts@[j]@,
                eq0 == eqs_view(old(eq)@),
                idx0 == *old(idx) as int,
                eqs_view(eq@) + gen_eqs_seq(av.skip(i as int), *idx as int).0 == eq0 + gen_eqs_seq(
                    av,
                    idx0,
                ).0,
                gen_eqs_seq(av.skip(i as int), *idx as int).1 == gen_eqs_seq(av, idx0).1,
                errors@.len() >= old(errors)@.len(),
                forall|j: int| 0 <= j < old(errors)@.len() ==> errors@[j] == old(errors)@[j],
                forall|j: int|
                    old(errors)@.len() <= j < errors@.len() ==> (#[trigger] errors@[j])@
                        is Internal,
            decreases n - i,
        {
            let ghost rest = av.skip(i as int);
            proof {
                assert(rest.len() > 0);
                assert(rest[0] == av[i as int]);
                assert(rest.drop_first() =~= av.skip(i as int + 1));
            }
            Self::generate_equations(&asts[i], eq, errors, idx);
            proof {
                assert(eqs_view(eq@) + gen_eqs_seq(av.skip(i as int + 1), *idx as int).0
                    =~= eq0 + gen_eqs_seq(av, idx0).0);
            }
            i = i + 1;
        }
        proof {
            assert(av.skip(n as int) =~= Seq::<AstModel>::empty());
            assert(gen_eqs_seq(av.skip(n as int), *idx as int).0 =~= Seq::<EqModel>::empty());
            assert(eqs_view(eq@) + Seq::<EqModel>::empty() =~= eqs_view(eq@));
        }
    }

    /// Emit the node's own equations per [`own_eqs`] and bump the index.
    fn emit_own(ast: &ErlAst, eq: &mut Vec<TypeEquation>, errors: &mut Vec<ErlError>, idx: &mut
        usize)
        ensures
            eqs_view(final(eq)@) == eqs_view(old(eq)@) + own_eqs(ast@, *old(idx) as int),
            *final(idx) as int == bump(*old(idx) as int),
            final(errors)@.len() >= old(errors)@.len(),
            forall|j: int| 0 <= j < old(errors)@.len() ==> final(errors)@[j] == old(errors)@[j],
            forall|j: int|
                old(errors)@.len() <= j < final(errors)@.len()
                    ==> (#[trigger] final(errors)@[j])@ is Internal,
    {
        let node = *idx;
        let ghost eq0 = eqs_view(eq@);
        match ast {
            ErlAst::Let(le) => {
                let body_ty = le.in_expr.get_type();
                Self::equation(eq, node, le.ret_ty.clone(), body_ty);
                proof {
                    assert(eqs_view(eq@) =~= eq0 + own_eqs(ast@, node as int));
                }
            },
            ErlAst::CClause { guard, .. } => {
                let guard_ty = guard.get_type();
                Self::equation(eq, node, guard_ty, ErlType::boolean());
                proof {
                    assert(eqs_view(eq@) =~= eq0 + own_eqs(ast@, node as int));
                }
            },
            ErlAst::Case(c) => {
                let clause_tys = types_of_exec(&c.clauses);
                let expected = ErlType::union_of(clause_tys);
                Self::equation(eq, node, c.ret.clone(), expected);
                proof {
                    assert(eqs_view(eq@) =~= eq0 + own_eqs(ast@, node as int));
                }
            },
            ErlAst::FnDef { ret, clauses, .. } => {
                let clause_tys = types_of_exec(clauses);
                let expected = ErlType::union_of(clause_tys);
                Self::equation(eq, node, ret.clone(), expected);
                proof {
                    assert(eqs_view(eq@) =~= eq0 + own_eqs(ast@, node as int));
                }
            },
            ErlAst::BinaryOp { expr } => {
                let result_expected = expr.get_result_type();
                Self::equation(eq, node, expr.ty.clone(), result_expected);
                match expr.get_arg_type() {
                    Option::Some(need) => {
                        let lt = expr.left.get_type();
                        let rt = expr.right.get_type();
                        Self::equation(eq, node, lt, need.clone());
                        Self::equation(eq, node, rt, need);
                        proof {
                            assert(eqs_view(eq@) =~= eq0 + own_eqs(ast@, node as int));
                        }
                    },
                    Option::None => {
                        proof {
                            assert(eqs_view(eq@) =~= eq0 + own_eqs(ast@, node as int));
                        }
                    },
                }
            },
            ErlAst::UnaryOp { expr } => {
                let operand_ty = expr.expr.get_type();
                let need = expr.get_type();
                Self::equation(eq, node, operand_ty, need);
                proof {
                    assert(eqs_view(eq@) =~= eq0 + own_eqs(ast@, node as int));
                }
            },
            ErlAst::Apply(call) => {
                let target_ty = call.target.get_type();
                let arg_tys = types_of_exec(&call.args);
                let shape = ErlType::Fn {
                    args: Option::Some(arg_tys),
                    ret: Box::new(call.ret_ty.clone()),
                };
                match target_ty {
                    ErlType::Fn { args: shape_args, ret } => {
                        let kept = ErlType::Fn { args: shape_args, ret: Box::new((*ret).clone()) };
                        Self::equation(eq, node, kept, shape);
                        Self::equation(eq, node, call.ret_ty.clone(), *ret);
                        proof {
                            assert(eqs_view(eq@) =~= eq0 + own_eqs(ast@, node as int));
                        }
                    },
                    other => {
                        Self::equation(eq, node, other, shape);
                        errors.push(
                            ErlError::internal(
                                String::from_str("application target is not a function type"),
                            ),
                        );
                        proof {
                            assert(eqs_view(eq@) =~= eq0 + own_eqs(ast@, node as int));
                        }
                    },
                }
            },
            _ => {
                proof {
                    assert(own_eqs(ast@, node as int) =~= Seq::<EqModel>::empty());
                    assert(eqs_view(eq@) =~= eq0 + own_eqs(ast@, node as int));
                }
            },
        }
        *idx = if node < usize::MAX {
            node + 1
        } else {
            node
        };
    }
}

/// The slot types of each node in a vector, in order.
fn types_of_exec(asts: &Vec<ErlAst>) -> (r: Vec<ErlType>)
    ensures
        tys_view(r@) == types_of(asts_view(asts@)),
{
    proof {
        lemma_asts_view(asts@);
        lemma_types_of(asts_view(asts@));
    }
    let n = asts.len();
    let mut r: Vec<ErlType> = Vec::new();
    let mut i: usize = 0;
    while i < n
        invariant
            n == asts.len(),
            0 <= i <= n,
            r@.len() == i,
            forall|j: int| 0 <= j < i ==> r@[j]@ == types_of(asts_view(asts@))[j],
            asts_view(asts@).len() == asts@.len(),
            forall|j: int| 0 <= j < asts@.len() ==> asts_view(asts@)[j] == asts@[j]@,
            types_of(asts_view(asts@)).len() == asts@.len(),
            forall|j: int|
                0 <= j < asts@.len() ==> types_of(asts_view(asts@))[j] == ast_type_model(
                    asts_view(asts@)[j],
                ),
        decreases n - i,
    {
        let t = asts[i].get_type();
        r.push(t);
        i = i + 1;
    }
    proof {
        lemma_tys_view(r@);
        assert(tys_view(r@) =~= types_of(asts_view(asts@)));
    }
    r
}

} // verus!
