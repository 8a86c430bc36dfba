//! Convenience constructors for syntax tree nodes.

use vstd::prelude::*;

use crate::erl_ast::AstModel;
use crate::erl_ast::ErlAst;
use crate::erl_ast::Var;
use crate::erl_ast::asts_view;
use crate::erl_type::ErlType;
use crate::erl_type::TypeModel;
use crate::funarity::FunArity;
use crate::funarity::FunArityModel;
use crate::literal::LitModel;
use crate::literal::Literal;

verus! {

impl Var {
    /// A variable node payload with an explicit type slot; fresh slots
    /// are numbered by the parser.
    pub fn new(name: &str, ty: ErlType) -> (r: Var)
        ensures
            r.name@ == name@,
            r.ty@ == ty@,
    {
        Var { name: name.to_owned(), ty }
    }
}

impl ErlAst {
    /// A function clause with the given argument patterns and body; the
    /// guard is the literal `true`.
    pub fn new_fclause(args: Vec<ErlAst>, body: ErlAst) -> (r: ErlAst)
        ensures
            r@ == (AstModel::FClause {
                args: asts_view(args@),
                guard: Box::new(AstModel::Lit(LitModel::Bool(true))),
                body: Box::new(body@),
            }),
    {
        let guard = ErlAst::Lit { value: Literal::Bool(true) };
        proof {
            assert(guard@ == AstModel::Lit(LitModel::Bool(true)));
        }
        let r = ErlAst::FClause { args, guard: Box::new(guard), body: Box::new(body) };
        proof {
            assert(r@ =~= (AstModel::FClause {
                args: asts_view(args@),
                guard: Box::new(AstModel::Lit(LitModel::Bool(true))),
                body: Box::new(body@),
            }));
        }
        r
    }

    /// A function definition node from its name and clauses; the arity
    /// is the given one and the return slot starts unconstrained.
    pub fn new_fun(name: &str, arity: usize, clauses: Vec<ErlAst>) -> (r: ErlAst)
        ensures
            r@ == (AstModel::FnDef {
                funarity: FunArityModel { name: name@, arity: arity as nat },
                ret: TypeModel::Any,
                clauses: asts_view(clauses@),
            }),
    {
        ErlAst::FnDef {
            funarity: FunArity::new(name.to_owned(), arity),
            ret: ErlType::Any,
            clauses,
        }
    }

    /// A variable node with an unconstrained type slot.
    pub fn new_var(name: &str) -> (r: ErlAst)
        ensures
            r@ == (AstModel::Var { name: name@, ty: TypeModel::Any }),
    {
        ErlAst::Var(Var { name: name.to_owned(), ty: ErlType::Any })
    }
}

} // verus!
