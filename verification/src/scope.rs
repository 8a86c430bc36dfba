//! The typing scope: variables visible at one point, innermost last.

use vstd::prelude::*;

use crate::erl_type::ErlType;
use crate::erl_type::TypeModel;

verus! {

/// One variable binding.
#[derive(Debug)]
pub struct ScopeVar {
    /// Variable name.
    pub name: String,
    /// The variable's type.
    pub ty: ErlType,
}

/// A typing scope: a label for diagnostics and the visible bindings,
/// later bindings shadowing earlier ones.
#[derive(Debug)]
pub struct Scope {
    /// Label for diagnostics.
    pub name: String,
    /// Visible bindings, in binding order.
    pub variables: Vec<ScopeVar>,
}

/// Ghost model of one binding.
#[verifier::ext_equal]
pub struct ScopeVarModel {
    /// Variable name.
    pub name: Seq<char>,
    /// The variable's type.
    pub ty: TypeModel,
}

impl View for ScopeVar {
    type V = ScopeVarModel;

    open spec fn view(&self) -> ScopeVarModel {
        ScopeVarModel { name: self.name@, ty: self.ty@ }
    }
}

/// Ghost model of a scope.
#[verifier::ext_equal]
pub struct ScopeModel {
    /// Label for diagnostics.
    pub name: Seq<char>,
    /// Visible bindings, in binding order.
    pub variables: Seq<ScopeVarModel>,
}

/// Models of the bindings, in order.
pub open spec fn scope_vars_view(vs: Seq<ScopeVar>) -> Seq<ScopeVarModel>
    decreases vs,
{
    if vs.len() == 0 {
        Seq::empty()
    } else {
        seq![vs[0]@] + scope_vars_view(vs.drop_first())
    }
}

/// `scope_vars_view` maps the sequence pointwise.
pub proof fn lemma_scope_vars_view(vs: Seq<ScopeVar>)
    ensures
        scope_vars_view(vs).len() == vs.len(),
        forall|i: int| 0 <= i < vs.len() ==> scope_vars_view(vs)[i] == vs[i]@,
    decreases vs.len(),
{
    if vs.len() > 0 {
        lemma_scope_vars_view(vs.drop_first());
        assert forall|i: int| 0 <= i < vs.len() implies scope_vars_view(vs)[i] == vs[i]@ by {
            if i > 0 {
                assert(scope_vars_view(vs)[i] == scope_vars_view(vs.drop_first())[i - 1]);
                assert(vs.drop_first()[i - 1] == vs[i]);
            }
        }
    }
}

impl View for Scope {
    type V = ScopeModel;

    open spec fn view(&self) -> ScopeModel {
        ScopeModel { name: self.name@, variables: scope_vars_view(self.variables@) }
    }
}

/// The type bound to a name, taking the latest binding; nothing when the
/// name is unbound.
pub open spec fn lookup_var_model(vars: Seq<ScopeVarModel>, name: Seq<char>) -> Option<TypeModel>
    decreases vars,
{
    if vars.len() == 0 {
        Option::None
    } else if vars.last().name == name {
        Option::Some(vars.last().ty)
    } else {
        lookup_var_model(vars.drop_last(), name)
    }
}

impl Scope {
    /// A fresh scope with no bindings.
    pub fn new_root_scope(name: String) -> (r: Scope)
        ensures
            r@ == (ScopeModel { name: name@, variables: Seq::empty() }),
    {
        Scope { name, variables: Vec::new() }
    }

    /// Bind a name to a type, shadowing earlier bindings of the name.
    pub fn add_var(&mut self, name: String, ty: ErlType)
        ensures
            final(self)@.name == old(self)@.name,
            final(self)@.variables == old(self)@.variables.push(
                ScopeVarModel { name: name@, ty: ty@ },
            ),
    {
        proof {
            lemma_scope_vars_view(self.variables@);
        }
        let ghost target = self@.variables.push(ScopeVarModel { name: name@, ty: ty@ });
        self.variables.push(ScopeVar { name, ty });
        proof {
            lemma_scope_vars_view(self.variables@);
            assert(scope_vars_view(self.variables@) =~= target);
        }
    }

    /// The type bound to `name`, per [`lookup_var_model`].
    pub fn lookup_var(&self, name: &str) -> (r: Option<ErlType>)
        ensures
            match r {
                Option::Some(t) => lookup_var_model(self@.variables, name@) == Option::Some(t@),
                Option::None => lookup_var_model(self@.variables, name@) is None,
            },
    {
        proof {
            lemma_scope_vars_view(self.variables@);
        }
        let n = self.variables.len();
        proof {
            assert(self@.variables.take(n as int) =~= self@.variables);
        }
        let mut i: usize = n;
        while i > 0
            invariant
                0 <= i <= n,
                n == self.variables.len(),
                scope_vars_view(self.variables@).len() == self.variables@.len(),
                forall|j: int|
                    0 <= j < self.variables@.len() ==> scope_vars_view(self.variables@)[j]
                        == self.variables@[j]@,
                lookup_var_model(self@.variables, name@) == lookup_var_model(
                    self@.variables.take(i as int),
                    name@,
                ),
            decreases i,
        {
            let candidate = self.variables[i - 1].name.as_str();
            let matches_name = crate::erl_type_new::str_eq(candidate, name);
            proof {
                assert(self@.variables.take(i as int).last() == self.variables@[i - 1]@);
                assert(self@.variables.take(i as int).drop_last() =~= self@.variables.take(
                    i as int - 1,
                ));
            }
            if matches_name {
                let t = self.variables[i - 1].ty.clone();
                return Option::Some(t);
            }
            i = i - 1;
        }
        proof {
            assert(self@.variables.take(0) =~= Seq::<ScopeVarModel>::empty());
        }
        Option::None
    }
}

} // verus!
