//! The postprocessing pass: rewrite application nodes so that a bare
//! atom call target becomes a concrete local or imported function
//! reference, using the module's root scope. Runs once, after parsing,
//! before type inference; everything else is rebuilt unchanged.

use vstd::prelude::*;

use crate::erl_ast::AstModel;
use crate::erl_ast::Call;
use crate::erl_ast::CaseExprNode;
use crate::erl_ast::BinaryOperatorExpr;
use crate::erl_ast::ErlAst;
use crate::erl_ast::LetExpr;
use crate::erl_ast::UnaryOperatorExpr;
use crate::erl_ast::asts_view;
use crate::erl_ast::lemma_asts_view;
use crate::funarity::FunArity;
use crate::funarity::FunArityModel;
use crate::literal::LitModel;
use crate::literal::Literal;
use crate::module::ErlModuleImpl;
use crate::root_scope::FnEntryModel;
use crate::root_scope::ImportEntryModel;
use crate::root_scope::RootScopeImpl;
use crate::root_scope::find_fn_model;
use crate::root_scope::find_import_model;
use crate::root_scope::fn_entries_view;
use crate::root_scope::imports_view;

verus! {

/// The resolved form of one node: applications of a bare atom to `k`
/// arguments point at the local function of that name and arity when
/// the scope has one, else at the imported one, else stay as they are;
/// every other node is rebuilt with its children resolved. Binary
/// literal elements and record defaults are not descended into.
pub open spec fn resolve_model(
    a: AstModel,
    defs: Seq<FnEntryModel>,
    imps: Seq<ImportEntryModel>,
) -> AstModel
    decreases a,
{
    match a {
        AstModel::Forms(forms) => AstModel::Forms(resolve_seq(forms, defs, imps)),
        AstModel::Apply { target, args, ret_ty } => {
            let resolved_args = resolve_seq(args, defs, imps);
            let new_target: AstModel = match *target {
                AstModel::Lit(LitModel::Atom(name)) => {
                    let fa = FunArityModel { name, arity: args.len() as nat };
                    if find_fn_model(defs, fa) is Some {
                        AstModel::MFA { module: Option::None, funarity: fa }
                    } else {
                        match find_import_model(imps, fa) {
                            Option::Some(e) => AstModel::MFA {
                                module: Option::Some(e.module),
                                funarity: fa,
                            },
                            Option::None => *target,
                        }
                    }
                },
                t => resolve_model(t, defs, imps),
            };
            AstModel::Apply {
                target: Box::new(new_target),
                args: resolved_args,
                ret_ty,
            }
        },
        AstModel::Let { var, value, in_expr, ret_ty } => AstModel::Let {
            var,
            value: Box::new(resolve_model(*value, defs, imps)),
            in_expr: Box::new(resolve_model(*in_expr, defs, imps)),
            ret_ty,
        },
        AstModel::Case { ret, arg, clauses } => AstModel::Case {
            ret,
            arg: Box::new(resolve_model(*arg, defs, imps)),
            clauses: resolve_seq(clauses, defs, imps),
        },
        AstModel::CClause { cond, guard, body } => AstModel::CClause {
            cond: Box::new(resolve_model(*cond, defs, imps)),
            guard: Box::new(resolve_model(*guard, defs, imps)),
            body: Box::new(resolve_model(*body, defs, imps)),
        },
        AstModel::BinaryOp { left, right, operator, ty } => AstModel::BinaryOp {
            left: Box::new(resolve_model(*left, defs, imps)),
            right: Box::new(resolve_model(*right, defs, imps)),
            operator,
            ty,
        },
        AstModel::UnaryOp { expr, operator } => AstModel::UnaryOp {
            expr: Box::new(resolve_model(*expr, defs, imps)),
            operator,
        },
        AstModel::FnDef { funarity, ret, clauses } => AstModel::FnDef {
            funarity,
            ret,
            clauses: resolve_seq(clauses, defs, imps),
        },
        AstModel::FClause { args, guard, body } => AstModel::FClause {
            args: resolve_seq(args, defs, imps),
            guard: Box::new(resolve_model(*guard, defs, imps)),
            body: Box::new(resolve_model(*body, defs, imps)),
        },
        AstModel::ListExpr { elements, tail } => AstModel::ListExpr {
            elements: resolve_seq(elements, defs, imps),
            tail: match tail {
                Option::Some(t) => Option::Some(Box::new(resolve_model(*t, defs, imps))),
                Option::None => Option::None,
            },
        },
        AstModel::TupleExpr { elements } => AstModel::TupleExpr {
            elements: resolve_seq(elements, defs, imps),
        },
        other => other,
    }
}

/// Resolution of a node sequence, in order.
pub open spec fn resolve_seq(
    asts: Seq<AstModel>,
    defs: Seq<FnEntryModel>,
    imps: Seq<ImportEntryModel>,
) -> Seq<AstModel>
    decreases asts,
{
    if asts.len() == 0 {
        Seq::empty()
    } else {
        seq![resolve_model(asts[0], defs, imps)] + resolve_seq(asts.drop_first(), defs, imps)
    }
}

/// Resolve one node per [`resolve_model`].
fn resolve_node(ast: ErlAst, scope: &RootScopeImpl) -> (r: ErlAst)
    ensures
        r@ == resolve_model(
            ast@,
            fn_entries_view(scope.function_defs@),
            imports_view(scope.imports@),
        ),
    decreases ast,
{
    let ghost defs = fn_entries_view(scope.function_defs@);
    let ghost imps = imports_view(scope.imports@);
    let ghost a0 = ast@;
    match ast {
        ErlAst::Forms(forms) => ErlAst::Forms(resolve_vec(forms, scope)),
        ErlAst::Apply(call) => {
            proof {
                lemma_asts_view(call.args@);
            }
            let arity = call.args.len();
            let resolved_args = resolve_vec(call.args, scope);
            let target = *call.target;
            let ghost t0 = target@;
            let new_target: ErlAst = match target {
                ErlAst::Lit { value: Literal::Atom(name) } => {
                    proof {
                        assert(t0 == AstModel::Lit(LitModel::Atom(name@)));
                    }
                    let fa = FunArity::new(name.clone(), arity);
                    proof {
                        assert(fa@ == (FunArityModel { name: name@, arity: arity as nat }));
                    }
                    match scope.find_fn_ast(&fa) {
                        Option::Some(_) => ErlAst::MFA { module: Option::None, funarity: fa },
                        Option::None => match scope.find_import(&fa) {
                            Option::Some(module) => ErlAst::MFA {
                                module: Option::Some(module),
                                funarity: fa,
                            },
                            Option::None => ErlAst::Lit { value: Literal::Atom(name) },
                        },
                    }
                },
                t => resolve_node(t, scope),
            };
            let ghost tmodel = a0->Apply_target;
            let ghost amodel = a0->Apply_args;
            proof {
                assert(a0 matches AstModel::Apply { .. });
                assert(*tmodel == t0);
                assert(arity as int == amodel.len());
                if *tmodel is Lit && (*tmodel)->Lit_0 is Atom {
                    let nm = (*tmodel)->Lit_0->Atom_0;
                    let fa_model = FunArityModel { name: nm, arity: amodel.len() as nat };
                    if find_fn_model(defs, fa_model) is Some {
                        assert(new_target@ == (AstModel::MFA {
                            module: Option::None,
                            funarity: fa_model,
                        }));
                    } else {
                        match find_import_model(imps, fa_model) {
                            Option::Some(e) => {
                                assert(new_target@ == (AstModel::MFA {
                                    module: Option::Some(e.module),
                                    funarity: fa_model,
                                }));
                            },
                            Option::None => {
                                assert(new_target@ == *tmodel);
                            },
                        }
                    }
                } else {
                    assert(new_target@ == resolve_model(*tmodel, defs, imps));
                }
            }
            ErlAst::Apply(
                Call {
                    target: Box::new(new_target),
                    args: resolved_args,
                    ret_ty: call.ret_ty,
                },
            )
        },
        ErlAst::Let(le) => ErlAst::Let(
            LetExpr {
                var: le.var,
                value: Box::new(resolve_node(*le.value, scope)),
                in_expr: Box::new(resolve_node(*le.in_expr, scope)),
                ret_ty: le.ret_ty,
            },
        ),
        ErlAst::Case(c) => ErlAst::Case(
            CaseExprNode {
                ret: c.ret,
                arg: Box::new(resolve_node(*c.arg, scope)),
                clauses: resolve_vec(c.clauses, scope),
            },
        ),
        ErlAst::CClause { cond, guard, body } => ErlAst::CClause {
            cond: Box::new(resolve_node(*cond, scope)),
            guard: Box::new(resolve_node(*guard, scope)),
            body: Box::new(resolve_node(*body, scope)),
        },
        ErlAst::BinaryOp { expr } => ErlAst::BinaryOp {
            expr: BinaryOperatorExpr {
                left: Box::new(resolve_node(*expr.left, scope)),
                right: Box::new(resolve_node(*expr.right, scope)),
                operator: expr.operator,
                ty: expr.ty,
            },
        },
        ErlAst::UnaryOp { expr } => ErlAst::UnaryOp {
            expr: UnaryOperatorExpr {
                expr: Box::new(resolve_node(*expr.expr, scope)),
                operator: expr.operator,
            },
        },
        ErlAst::FnDef { funarity, ret, clauses } => ErlAst::FnDef {
            funarity,
            ret,
            clauses: resolve_vec(clauses, scope),
        },
        ErlAst::FClause { args, guard, body } => ErlAst::FClause {
            args: resolve_vec(args, scope),
            guard: Box::new(resolve_node(*guard, scope)),
            body: Box::new(resolve_node(*body, scope)),
        },
        ErlAst::ListExpr { elements, tail } => ErlAst::ListExpr {
            elements: resolve_vec(elements, scope),
            tail: match tail {
                Option::Some(t) => Option::Some(Box::new(resolve_node(*t, scope))),
                Option::None => Option::None,
            },
        },
        ErlAst::TupleExpr { elements } => ErlAst::TupleExpr {
            elements: resolve_vec(elements, scope),
        },
        other => other,
    }
}

/// Resolve each node of a vector, in order.
fn resolve_vec(asts: Vec<ErlAst>, scope: &RootScopeImpl) -> (r: Vec<ErlAst>)
    ensures
        asts_view(r@) == resolve_seq(
            asts_view(asts@),
            fn_entries_view(scope.function_defs@),
            imports_view(scope.imports@),
        ),
    decreases asts@,
{
    let ghost defs = fn_entries_view(scope.function_defs@);
    let ghost imps = imports_view(scope.imports@);
    let ghost orig = asts_view(asts@);
    let ghost orig_exec = asts@;
    proof {
        lemma_asts_view(asts@);
        assert(orig.skip(0) =~= orig);
    }
    let mut input = asts;
    proof {
        assert(input@ =~= orig_exec.skip(0));
    }
    let mut out: Vec<ErlAst> = Vec::new();
    let ghost mut k: int = 0;
    proof {
        lemma_asts_view(out@);
        assert(asts_view(out@) =~= Seq::<AstModel>::empty());
        assert(asts_view(input@) =~= orig.skip(0));
    }
    while input.len() > 0
        invariant
            0 <= k <= orig.len(),
            asts_view(input@) == orig.skip(k),
            input@ == orig_exec.skip(k),
            orig_exec == asts@,
            orig == asts_view(orig_exec),
            orig.len() == orig_exec.len(),
            input@.len() == orig.len() - k,
            asts_view(out@) + resolve_seq(orig.skip(k), defs, imps) == resolve_seq(
                orig,
                defs,
                imps,
            ),
            asts_view(out@).len() == out@.len(),
            defs == fn_entries_view(scope.function_defs@),
            imps == imports_view(scope.imports@),
        decreases input@.len(),
    {
        let ghost rest = orig.skip(k);
        let ghost in0 = input@;
        let x = input.remove(0);
        proof {
            assert(in0 == orig_exec.skip(k));
            assert(x == orig_exec[k]);
            assert(input@ =~= orig_exec.skip(k + 1));
            lemma_asts_view(in0);
            lemma_asts_view(input@);
            assert(input@ =~= in0.drop_first());
            assert(x == in0[0]);
            assert(x@ == asts_view(in0)[0]);
            assert(asts_view(in0)[0] == rest[0]);
            assert(rest[0] == orig[k]);
            assert forall|j: int| 0 <= j < input@.len() implies asts_view(input@)[j] == rest.drop_first()[j] by {
                assert(asts_view(input@)[j] == input@[j]@);
                assert(input@[j] == in0[j + 1]);
                assert(asts_view(in0)[j + 1] == in0[j + 1]@);
                assert(rest.drop_first()[j] == rest[j + 1]);
                assert(rest[j + 1] == asts_view(in0)[j + 1]);
            }
            assert(asts_view(input@) =~= rest.drop_first());
            assert(rest.drop_first() =~= orig.skip(k + 1));
        }
        let ghost x_model = x@;
        let resolved = resolve_node(x, scope);
        let ghost out0 = out@;
        out.push(resolved);
        proof {
            lemma_asts_view(out0);
            lemma_asts_view(out@);
            assert(out@ == out0.push(out@[out@.len() - 1]));
            assert forall|j: int|
                0 <= j < out@.len() implies asts_view(out@)[j] == asts_view(out0).push(
                resolve_model(x_model, defs, imps),
            )[j] by {
                if j < out0.len() {
                    assert(out@[j] == out0[j]);
                    assert(asts_view(out0)[j] == out0[j]@);
                }
            }
            assert(asts_view(out@) =~= asts_view(out0).push(resolve_model(x_model, defs, imps)));
            assert(asts_view(out0).push(resolve_model(x_model, defs, imps)) + resolve_seq(
                orig.skip(k + 1),
                defs,
                imps,
            ) =~= asts_view(out0) + (seq![resolve_model(rest[0], defs, imps)] + resolve_seq(
                rest.drop_first(),
                defs,
                imps,
            )));
            k = k + 1;
        }
    }
    proof {
        assert(orig.skip(k) =~= Seq::<AstModel>::empty());
        assert(resolve_seq(orig.skip(k), defs, imps) =~= Seq::<AstModel>::empty());
        assert(asts_view(out@) + Seq::<AstModel>::empty() =~= asts_view(out@));
    }
    out
}

impl ErlModuleImpl {
    /// Run the post-parse pass: gather the root scope from the form
    /// list, then rewrite every application of a bare atom into a
    /// concrete function reference, per [`resolve_model`]. The module
    /// comes back with the rewritten tree and the gathered scope, whose
    /// entries are exactly the form list's function definitions, specs,
    /// imports and generic attribute tags, in order.
    pub fn postprocess_ast(self) -> (r: (ErlModuleImpl, RootScopeImpl))
        ensures
            r.0.ast@ == resolve_model(
                self.ast@,
                fn_entries_view(r.1.function_defs@),
                imports_view(r.1.imports@),
            ),
            r.0.source_name@ == self.source_name@,
            self.ast@ matches AstModel::Forms(forms) ==> {
                &&& fn_entries_view(r.1.function_defs@) == crate::root_scope::gather_fns(
                    forms,
                    forms.len() as int,
                )
                &&& crate::root_scope::spec_entries_view(r.1.function_specs@)
                    == crate::root_scope::gather_specs(forms, forms.len() as int)
                &&& imports_view(r.1.imports@) == crate::root_scope::gather_imports(
                    forms,
                    forms.len() as int,
                )
                &&& crate::erl_ast::strings_view(r.1.attribute_tags@)
                    == crate::root_scope::gather_tags(forms, forms.len() as int)
            },
            !(self.ast@ is Forms) ==> (r.1.function_defs@.len() == 0 && r.1.function_specs@.len()
                == 0 && r.1.imports@.len() == 0 && r.1.attribute_tags@.len() == 0),
    {
        let mut scope = RootScopeImpl::new_empty();
        proof {
            crate::root_scope::lemma_fn_entries_view(scope.function_defs@);
            crate::root_scope::lemma_spec_entries_view(scope.function_specs@);
            crate::root_scope::lemma_imports_view(scope.imports@);
            crate::erl_ast::lemma_strings_view(scope.attribute_tags@);
            if self.ast@ is Forms {
                let forms = self.ast@->Forms_0;
                assert(fn_entries_view(scope.function_defs@)
                    =~= Seq::<FnEntryModel>::empty());
                assert(crate::root_scope::spec_entries_view(scope.function_specs@)
                    =~= Seq::<crate::root_scope::SpecEntryModel>::empty());
                assert(imports_view(scope.imports@) =~= Seq::<ImportEntryModel>::empty());
                assert(crate::erl_ast::strings_view(scope.attribute_tags@)
                    =~= Seq::<Seq<char>>::empty());
                assert(Seq::<FnEntryModel>::empty() + crate::root_scope::gather_fns(
                    forms,
                    forms.len() as int,
                ) =~= crate::root_scope::gather_fns(forms, forms.len() as int));
                assert(Seq::<crate::root_scope::SpecEntryModel>::empty()
                    + crate::root_scope::gather_specs(forms, forms.len() as int)
                    =~= crate::root_scope::gather_specs(forms, forms.len() as int));
                assert(Seq::<ImportEntryModel>::empty() + crate::root_scope::gather_imports(
                    forms,
                    forms.len() as int,
                ) =~= crate::root_scope::gather_imports(forms, forms.len() as int));
                assert(Seq::<Seq<char>>::empty() + crate::root_scope::gather_tags(
                    forms,
                    forms.len() as int,
                ) =~= crate::root_scope::gather_tags(forms, forms.len() as int));
            }
        }
        scope.update_from_ast(&self.ast);
        let resolved = resolve_node(self.ast, &scope);
        (
            ErlModuleImpl {
                source_name: self.source_name,
                ast: resolved,
                tvar_count: self.tvar_count,
            },
            scope,
        )
    }
}

} // verus!
