//! Child traversal over the syntax tree.

use vstd::prelude::*;

use crate::erl_ast::AstModel;
use crate::erl_ast::BinElemModel;
use crate::erl_ast::BinaryElement;
use crate::erl_ast::ErlAst;
use crate::erl_ast::lemma_asts_view;
use crate::erl_ast::asts_view;
use crate::erl_ast::bin_elems_view;

verus! {

/// The direct children of one node, in traversal order, or nothing for
/// leaves and attributes.
pub open spec fn children_model(a: AstModel) -> Option<Seq<AstModel>> {
    match a {
        AstModel::Forms(forms) => Option::Some(forms),
        AstModel::FnDef { clauses, .. } => Option::Some(clauses),
        AstModel::FClause { args, guard, body } => Option::Some(args + seq![*guard, *body]),
        AstModel::Apply { target, args, .. } => Option::Some(seq![*target] + args),
        AstModel::Let { value, in_expr, .. } => Option::Some(seq![*value, *in_expr]),
        AstModel::Case { arg, clauses, .. } => Option::Some(seq![*arg] + clauses),
        AstModel::CClause { cond, guard, body } => Option::Some(seq![*cond, *guard, *body]),
        AstModel::BinaryOp { left, right, .. } => Option::Some(seq![*left, *right]),
        AstModel::UnaryOp { expr, .. } => Option::Some(seq![*expr]),
        AstModel::ListExpr { elements, tail } => Option::Some(
            elements + (match tail {
                Option::Some(t) => seq![*t],
                Option::None => Seq::empty(),
            }),
        ),
        AstModel::TupleExpr { elements } => Option::Some(elements),
        AstModel::BinaryExpr { elements } => Option::Some(bin_elem_values(elements)),
        _ => Option::None,
    }
}

/// The value expressions of binary elements, in order.
pub open spec fn bin_elem_values(es: Seq<BinElemModel>) -> Seq<AstModel>
    decreases es,
{
    if es.len() == 0 {
        Seq::empty()
    } else {
        seq![*es[0].value] + bin_elem_values(es.drop_first())
    }
}

/// `bin_elem_values` maps the sequence pointwise.
pub proof fn lemma_bin_elem_values(es: Seq<BinElemModel>)
    ensures
        bin_elem_values(es).len() == es.len(),
        forall|i: int| 0 <= i < es.len() ==> bin_elem_values(es)[i] == *es[i].value,
    decreases es.len(),
{
    if es.len() > 0 {
        lemma_bin_elem_values(es.drop_first());
        assert forall|i: int|
            0 <= i < es.len() implies bin_elem_values(es)[i] == *es[i].value by {
            if i > 0 {
                assert(bin_elem_values(es)[i] == bin_elem_values(es.drop_first())[i - 1]);
                assert(es.drop_first()[i - 1] == es[i]);
            }
        }
    }
}

/// Append references to every element of `xs` to `out`.
fn push_refs<'a>(out: &mut Vec<&'a ErlAst>, xs: &'a Vec<ErlAst>)
    ensures
        final(out)@.len() == old(out)@.len() + xs@.len(),
        asts_view(xs@).len() == xs@.len(),
        forall|j: int| 0 <= j < old(out)@.len() ==> final(out)@[j] == old(out)@[j],
        forall|j: int|
            0 <= j < xs@.len() ==> (*final(out)@[old(out)@.len() + j])@ == asts_view(xs@)[j],
{
    proof {
        lemma_asts_view(xs@);
    }
    let n = xs.len();
    let mut i: usize = 0;
    while i < n
        invariant
            n == xs.len(),
            0 <= i <= n,
            out@.len() == old(out)@.len() + i,
            forall|j: int| 0 <= j < old(out)@.len() ==> out@[j] == old(out)@[j],
            forall|j: int|
                0 <= j < i ==> (*out@[old(out)@.len() + j])@ == asts_view(xs@)[j],
            asts_view(xs@).len() == xs@.len(),
            forall|j: int| 0 <= j < xs@.len() ==> asts_view(xs@)[j] == xs@[j]@,
        decreases n - i,
    {
        out.push(&xs[i]);
        i = i + 1;
    }
}

impl ErlAst {
    /// References to this node's direct children, per [`children_model`].
    pub fn children(&self) -> (r: Option<Vec<&ErlAst>>)
        ensures
            match r {
                Option::Some(v) => {
                    &&& children_model(self@) matches Option::Some(cs)
                    &&& v@.len() == cs.len()
                    &&& forall|j: int| 0 <= j < cs.len() ==> (*v@[j])@ == cs[j]
                },
                Option::None => children_model(self@) is None,
            },
    {
        match self {
            ErlAst::Forms(forms) => {
                let mut v: Vec<&ErlAst> = Vec::new();
                push_refs(&mut v, forms);
                Option::Some(v)
            },
            ErlAst::FnDef { clauses, .. } => {
                let mut v: Vec<&ErlAst> = Vec::new();
                push_refs(&mut v, clauses);
                Option::Some(v)
            },
            ErlAst::FClause { args, guard, body } => {
                let mut v: Vec<&ErlAst> = Vec::new();
                push_refs(&mut v, args);
                v.push(guard);
                v.push(body);
                Option::Some(v)
            },
            ErlAst::Apply(call) => {
                let mut v: Vec<&ErlAst> = Vec::new();
                v.push(&call.target);
                push_refs(&mut v, &call.args);
                Option::Some(v)
            },
            ErlAst::Let(le) => {
                let mut v: Vec<&ErlAst> = Vec::new();
                v.push(&le.value);
                v.push(&le.in_expr);
                Option::Some(v)
            },
            ErlAst::Case(c) => {
                let mut v: Vec<&ErlAst> = Vec::new();
                v.push(&c.arg);
                push_refs(&mut v, &c.clauses);
                Option::Some(v)
            },
            ErlAst::CClause { cond, guard, body } => {
                let mut v: Vec<&ErlAst> = Vec::new();
                v.push(cond);
                v.push(guard);
                v.push(body);
                Option::Some(v)
            },
            ErlAst::BinaryOp { expr } => {
                let mut v: Vec<&ErlAst> = Vec::new();
                v.push(&expr.left);
                v.push(&expr.right);
                Option::Some(v)
            },
            ErlAst::UnaryOp { expr } => {
                let mut v: Vec<&ErlAst> = Vec::new();
                v.push(&expr.expr);
                Option::Some(v)
            },
            ErlAst::ListExpr { elements, tail } => {
                let mut v: Vec<&ErlAst> = Vec::new();
                push_refs(&mut v, elements);
                match tail {
                    Option::Some(t) => {
                        v.push(t);
                    },
                    Option::None => {},
                }
                Option::Some(v)
            },
            ErlAst::TupleExpr { elements } => {
                let mut v: Vec<&ErlAst> = Vec::new();
                push_refs(&mut v, elements);
                Option::Some(v)
            },
            ErlAst::BinaryExpr { elements } => Option::Some(bin_elem_value_refs(elements)),
            _ => Option::None,
        }
    }

    /// Same as [`ErlAst::children`]; both spellings are part of the
    /// crate's surface.
    pub fn get_children(&self) -> (r: Option<Vec<&ErlAst>>)
        ensures
            match r {
                Option::Some(v) => {
                    &&& children_model(self@) matches Option::Some(cs)
                    &&& v@.len() == cs.len()
                    &&& forall|j: int| 0 <= j < cs.len() ==> (*v@[j])@ == cs[j]
                },
                Option::None => children_model(self@) is None,
            },
    {
        self.children()
    }
}

/// References to the value expression of each binary element, in order.
fn bin_elem_value_refs(es: &Vec<BinaryElement>) -> (r: Vec<&ErlAst>)
    ensures
        r@.len() == es@.len(),
        bin_elem_values(bin_elems_view(es@)).len() == es@.len(),
        forall|j: int| 0 <= j < es@.len() ==> (*r@[j])@ == bin_elem_values(bin_elems_view(es@))[j],
{
    proof {
        crate::erl_ast::lemma_bin_elems_view(es@);
        lemma_bin_elem_values(bin_elems_view(es@));
    }
    let n = es.len();
    let mut r: Vec<&ErlAst> = Vec::new();
    let mut i: usize = 0;
    while i < n
        invariant
            n == es.len(),
            0 <= i <= n,
            r@.len() == i,
            forall|j: int| 0 <= j < i ==> (*r@[j])@ == *bin_elems_view(es@)[j].value,
            bin_elems_view(es@).len() == es@.len(),
            forall|j: int| 0 <= j < es@.len() ==> bin_elems_view(es@)[j] == crate::erl_ast::bin_elem_view(es@[j]),
            bin_elem_values(bin_elems_view(es@)).len() == es@.len(),
            forall|j: int|
                0 <= j < es@.len() ==> bin_elem_values(bin_elems_view(es@))[j] == *bin_elems_view(
                    es@,
                )[j].value,
        decreases n - i,
    {
        r.push(&es[i].value);
        i = i + 1;
    }
    r
}

} // verus!
