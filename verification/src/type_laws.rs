//! Laws of the subtyping relation that the lattice promises its users.

use vstd::prelude::*;

use crate::erl_ast::AstModel;
use crate::erl_type::TypeModel;
use crate::erl_type_new::atom_model;
use crate::erl_type_new::true_name;
use crate::literal::LitModel;
use crate::literal::lit_type_model;
use crate::literal::lit_types_model;
use crate::scope::ScopeVarModel;
use crate::subtyping::subtype_model;
use crate::synthesize::synth_model;
use crate::synthesize::synths_model;

verus! {

/// The syntax tree nodes of a sequence of literals, in order.
pub open spec fn lit_nodes(ls: Seq<LitModel>) -> Seq<AstModel>
    decreases ls,
{
    if ls.len() == 0 {
        Seq::empty()
    } else {
        seq![AstModel::Lit(ls[0])] + lit_nodes(ls.drop_first())
    }
}

/// Synthesizing a sequence of literal nodes always succeeds and yields
/// each literal's own type, in order.
pub proof fn lemma_synth_lit_nodes(vars: Seq<ScopeVarModel>, ls: Seq<LitModel>)
    ensures
        synths_model(vars, lit_nodes(ls)) == Option::Some(lit_types_model(ls)),
    decreases ls.len(),
{
    if ls.len() == 0 {
        assert(lit_nodes(ls) =~= Seq::<AstModel>::empty());
        assert(lit_types_model(ls) =~= Seq::<TypeModel>::empty());
    } else {
        lemma_synth_lit_nodes(vars, ls.drop_first());
        assert(lit_nodes(ls)[0] == AstModel::Lit(ls[0]));
        assert(lit_nodes(ls).drop_first() =~= lit_nodes(ls.drop_first()));
        assert(synth_model(vars, AstModel::Lit(ls[0])) == Option::Some(lit_type_model(ls[0])));
        assert(seq![lit_type_model(ls[0])] + lit_types_model(ls.drop_first()) =~= lit_types_model(
            ls,
        ));
    }
}

/// Synthesizing a literal list yields a strongly-typed list whose element
/// types match each literal's own kind positionally, and whose tail is
/// nil.
pub proof fn lemma_literal_list_synthesis(vars: Seq<ScopeVarModel>, ls: Seq<LitModel>)
    ensures
        synth_model(
            vars,
            AstModel::ListExpr { elements: lit_nodes(ls), tail: Option::None },
        ) == Option::Some(
            TypeModel::StronglyTypedList { elements: lit_types_model(ls), tail: Option::None },
        ),
{
    lemma_synth_lit_nodes(vars, ls);
}

/// Synthesizing a literal tuple yields a tuple type whose element types
/// match each literal's own kind positionally, atom tags kept literally.
pub proof fn lemma_literal_tuple_synthesis(vars: Seq<ScopeVarModel>, ls: Seq<LitModel>)
    ensures
        synth_model(vars, AstModel::TupleExpr { elements: lit_nodes(ls) }) == Option::Some(
            TypeModel::Tuple { elements: lit_types_model(ls) },
        ),
{
    lemma_synth_lit_nodes(vars, ls);
}

/// `boolean` is a subtype of `atom`, `atom` is not a subtype of
/// `boolean`, and the literal atom `true` is a subtype of both.
pub proof fn lemma_boolean_is_atom()
    ensures
        subtype_model(TypeModel::Boolean(Option::None), TypeModel::Atom(Option::None)),
        !subtype_model(TypeModel::Atom(Option::None), TypeModel::Boolean(Option::None)),
        subtype_model(atom_model(true_name()), TypeModel::Atom(Option::None)),
        subtype_model(atom_model(true_name()), TypeModel::Boolean(Option::None)),
{
}

/// `integer` and `float` are each subtypes of `number`; `number` is a
/// subtype of neither.
pub proof fn lemma_numbers()
    ensures
        subtype_model(TypeModel::Integer(Option::None), TypeModel::Number),
        subtype_model(TypeModel::Float, TypeModel::Number),
        !subtype_model(TypeModel::Number, TypeModel::Integer(Option::None)),
        !subtype_model(TypeModel::Number, TypeModel::Float),
{
}

/// `list(A)` is a subtype of `list(B)` exactly when `A` is a subtype of
/// `B`; every specific list type is a subtype of the unqualified list
/// type, and the unqualified list type is a subtype of no specific one.
pub proof fn lemma_list_subtyping(a: TypeModel, b: TypeModel)
    ensures
        subtype_model(TypeModel::List(Box::new(a)), TypeModel::List(Box::new(b)))
            == subtype_model(a, b),
        subtype_model(TypeModel::List(Box::new(a)), TypeModel::AnyList),
        !subtype_model(TypeModel::AnyList, TypeModel::List(Box::new(a))),
{
}

} // verus!
