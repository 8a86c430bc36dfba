//! Literals: values fully known at compile time, and their types.
//!
//! A float literal is kept in decimal form (`mantissa / 10^scale`), so the
//! crate never computes with machine floating point; comparisons on such
//! values are exact decimal comparisons.

use vstd::prelude::*;

use crate::erl_type::ErlType;
use crate::erl_type::TypeModel;
use crate::erl_type::lemma_tys_view;
use crate::erl_type::tys_view;
use crate::erl_type_new::atom_model;
use crate::erl_type_new::union_model;

verus! {

/// A float literal in decimal form: `mantissa / 10^scale`.
#[derive(Debug, Clone, Copy, PartialEq, Eq, Structural)]
pub struct FloatLit {
    /// Signed decimal digits.
    pub mantissa: i64,
    /// How many of the mantissa's digits lie after the decimal point.
    pub scale: u32,
}

/// A literal value.
#[derive(Debug)]
pub enum Literal {
    /// An integer literal.
    Integer(i64),
    /// A float literal, in decimal form.
    Float(FloatLit),
    /// An atom literal; the names `true` and `false` are written with the
    /// `Bool` variant only by convention of the parser, both occur.
    Atom(String),
    /// A boolean literal.
    Bool(bool),
    /// A list literal with an optional improper tail.
    List { elements: Vec<Literal>, tail: Option<Box<Literal>> },
    /// The empty list.
    Nil,
    /// A string literal.
    Str(String),
    /// A tuple literal.
    Tuple(Vec<Literal>),
}

/// Ghost model of [`Literal`].
#[verifier::ext_equal]
pub enum LitModel {
    /// An integer.
    Integer(int),
    /// A float in decimal form.
    Float { mantissa: int, scale: nat },
    /// An atom.
    Atom(Seq<char>),
    /// A boolean.
    Bool(bool),
    /// A list with an optional improper tail.
    List { elements: Seq<LitModel>, tail: Option<Box<LitModel>> },
    /// The empty list.
    Nil,
    /// A string.
    Str(Seq<char>),
    /// A tuple.
    Tuple(Seq<LitModel>),
}

/// Model of one literal.
pub open spec fn lit_view(l: Literal) -> LitModel
    decreases l,
{
    match l {
        Literal::Integer(i) => LitModel::Integer(i as int),
        Literal::Float(f) => LitModel::Float { mantissa: f.mantissa as int, scale: f.scale as nat },
        Literal::Atom(s) => LitModel::Atom(s@),
        Literal::Bool(b) => LitModel::Bool(b),
        Literal::List { elements, tail } => LitModel::List {
            elements: lits_view(elements@),
            tail: match tail {
                Option::Some(b) => Option::Some(Box::new(lit_view(*b))),
                Option::None => Option::None,
            },
        },
        Literal::Nil => LitModel::Nil,
        Literal::Str(s) => LitModel::Str(s@),
        Literal::Tuple(elements) => LitModel::Tuple(lits_view(elements@)),
    }
}

/// Models of a sequence of literals, in order.
pub open spec fn lits_view(ls: Seq<Literal>) -> Seq<LitModel>
    decreases ls,
{
    if ls.len() == 0 {
        Seq::empty()
    } else {
        seq![lit_view(ls[0])] + lits_view(ls.drop_first())
    }
}

impl View for Literal {
    type V = LitModel;

    open spec fn view(&self) -> LitModel {
        lit_view(*self)
    }
}

/// `lits_view` maps the sequence pointwise.
pub proof fn lemma_lits_view(ls: Seq<Literal>)
    ensures
        lits_view(ls).len() == ls.len(),
        forall|i: int| 0 <= i < ls.len() ==> lits_view(ls)[i] == lit_view(ls[i]),
    decreases ls.len(),
{
    if ls.len() > 0 {
        lemma_lits_view(ls.drop_first());
        assert forall|i: int| 0 <= i < ls.len() implies lits_view(ls)[i] == lit_view(ls[i]) by {
            if i > 0 {
                assert(lits_view(ls)[i] == lits_view(ls.drop_first())[i - 1]);
                assert(ls.drop_first()[i - 1] == ls[i]);
            }
        }
    }
}

/// The type of a literal: integers and atoms keep their exact value in
/// their type, a list's element type is the union of its elements' types.
pub open spec fn lit_type_model(l: LitModel) -> TypeModel
    decreases l,
{
    match l {
        LitModel::Integer(i) => TypeModel::Integer(Option::Some(i)),
        LitModel::Float { .. } => TypeModel::Float,
        LitModel::Atom(s) => atom_model(s),
        LitModel::Bool(_) => TypeModel::Boolean(Option::None),
        LitModel::List { elements, .. } => TypeModel::List(
            Box::new(union_model(lit_types_model(elements))),
        ),
        LitModel::Nil => TypeModel::AnyList,
        LitModel::Str(_) => TypeModel::StringType,
        LitModel::Tuple(elements) => TypeModel::Tuple { elements: lit_types_model(elements) },
    }
}

/// The types of a sequence of literals, in order.
pub open spec fn lit_types_model(ls: Seq<LitModel>) -> Seq<TypeModel>
    decreases ls,
{
    if ls.len() == 0 {
        Seq::empty()
    } else {
        seq![lit_type_model(ls[0])] + lit_types_model(ls.drop_first())
    }
}

/// `lit_types_model` maps the sequence pointwise.
pub proof fn lemma_lit_types_model(ls: Seq<LitModel>)
    ensures
        lit_types_model(ls).len() == ls.len(),
        forall|i: int| 0 <= i < ls.len() ==> lit_types_model(ls)[i] == lit_type_model(ls[i]),
    decreases ls.len(),
{
    if ls.len() > 0 {
        lemma_lit_types_model(ls.drop_first());
        assert forall|i: int|
            0 <= i < ls.len() implies lit_types_model(ls)[i] == lit_type_model(ls[i]) by {
            if i > 0 {
                assert(lit_types_model(ls)[i] == lit_types_model(ls.drop_first())[i - 1]);
                assert(ls.drop_first()[i - 1] == ls[i]);
            }
        }
    }
}

impl Literal {
    /// The type of this literal, per [`lit_type_model`].
    pub fn get_type(&self) -> (r: ErlType)
        ensures
            r@ == lit_type_model(self@),
        decreases *self,
    {
        match self {
            Literal::Integer(i) => ErlType::Integer(Option::Some(*i)),
            Literal::Float(_) => ErlType::Float,
            Literal::Atom(s) => ErlType::new_atom(s.as_str()),
            Literal::Bool(_) => ErlType::Boolean(Option::None),
            Literal::List { elements, .. } => {
                let element_types = lit_types_exec(elements);
                ErlType::List(Box::new(ErlType::union_of(element_types)))
            },
            Literal::Nil => ErlType::AnyList,
            Literal::Str(_) => ErlType::StringType,
            Literal::Tuple(elements) => ErlType::Tuple { elements: lit_types_exec(elements) },
        }
    }
}

/// The types of each literal in a vector, in order.
fn lit_types_exec(ls: &Vec<Literal>) -> (r: Vec<ErlType>)
    ensures
        tys_view(r@) == lit_types_model(lits_view(ls@)),
    decreases ls@,
{
    proof {
        lemma_lits_view(ls@);
        lemma_lit_types_model(lits_view(ls@));
    }
    let n = ls.len();
    let mut r: Vec<ErlType> = Vec::new();
    let mut i: usize = 0;
    while i < n
        invariant
            n == ls.len(),
            0 <= i <= n,
            r@.len() == i,
            forall|j: int| 0 <= j < i ==> r@[j]@ == lit_type_model(lits_view(ls@)[j]),
            lits_view(ls@).len() == ls@.len(),
            forall|j: int| 0 <= j < ls@.len() ==> lits_view(ls@)[j] == ls@[j]@,
            lit_types_model(lits_view(ls@)).len() == ls@.len(),
            forall|j: int|
                0 <= j < ls@.len() ==> lit_types_model(lits_view(ls@))[j] == lit_type_model(
                    lits_view(ls@)[j],
                ),
        decreases n - i,
    {
        let t = ls[i].get_type();
        r.push(t);
        i = i + 1;
    }
    proof {
        lemma_tys_view(r@);
        assert(tys_view(r@) =~= lit_types_model(lits_view(ls@)));
    }
    r
}

} // verus!
