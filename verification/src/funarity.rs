//! Function and macro identity: a name together with an argument count.

use vstd::prelude::*;

verus! {

/// A name/arity pair; the identity of a function, type or macro.
#[derive(Debug, Clone)]
pub struct FunArity {
    /// Name, as the source spells it.
    pub name: String,
    /// Number of arguments.
    pub arity: usize,
}

/// Ghost model of [`FunArity`].
#[verifier::ext_equal]
pub struct FunArityModel {
    /// Name characters.
    pub name: Seq<char>,
    /// Number of arguments.
    pub arity: nat,
}

impl View for FunArity {
    type V = FunArityModel;

    open spec fn view(&self) -> FunArityModel {
        FunArityModel { name: self.name@, arity: self.arity as nat }
    }
}

impl FunArity {
    /// Pair a name with an arity.
    pub fn new(name: String, arity: usize) -> (r: FunArity)
        ensures
            r@ == (FunArityModel { name: name@, arity: arity as nat }),
    {
        FunArity { name, arity }
    }

    /// Decide equality of the two pairs' models.
    pub fn fa_eq(&self, other: &FunArity) -> (r: bool)
        ensures
            r == (self@ == other@),
    {
        let names_eq = self.name == other.name;
        names_eq && self.arity == other.arity
    }
}

} // verus!
