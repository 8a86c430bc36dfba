//! The preprocessor's macro scope: definitions keyed by name and arity,
//! evolving left to right as directives are interpreted.

use vstd::prelude::*;

use crate::erl_ast::lemma_strings_view;
use crate::erl_ast::strings_view;

verus! {

/// One macro definition: `-define(NAME(ARGS...), TEXT)`, or from the
/// configuration or command line.
#[derive(Debug)]
pub struct PreprocessorDefineImpl {
    /// The macro's name.
    pub name: String,
    /// Parameter names; empty for a plain definition.
    pub args: Vec<String>,
    /// The substitution text; empty when the symbol merely exists.
    pub text: String,
}

/// Ghost model of one macro definition.
#[verifier::ext_equal]
pub struct DefModel {
    /// The macro's name.
    pub name: Seq<char>,
    /// Parameter names.
    pub args: Seq<Seq<char>>,
    /// The substitution text.
    pub text: Seq<char>,
}

impl View for PreprocessorDefineImpl {
    type V = DefModel;

    open spec fn view(&self) -> DefModel {
        DefModel { name: self.name@, args: strings_view(self.args@), text: self.text@ }
    }
}

impl PreprocessorDefineImpl {
    /// A macro definition from its parts.
    pub fn new(name: String, args: Vec<String>, text: String) -> (r: PreprocessorDefineImpl)
        ensures
            r@ == (DefModel { name: name@, args: strings_view(args@), text: text@ }),
    {
        PreprocessorDefineImpl { name, args, text }
    }

    /// The macro's arity: its parameter count.
    pub fn get_arity(&self) -> (r: usize)
        ensures
            r == self.args@.len(),
    {
        self.args.len()
    }

    /// A deep copy with the same model.
    pub fn clone_def(&self) -> (r: PreprocessorDefineImpl)
        ensures
            r@ == self@,
    {
        let args = clone_strings(&self.args);
        let r = PreprocessorDefineImpl {
            name: self.name.clone(),
            args,
            text: self.text.clone(),
        };
        proof {
            assert(r@ =~= self@);
        }
        r
    }
}

/// Deep copy of a string vector, preserving the viewed sequence.
pub fn clone_strings(xs: &Vec<String>) -> (r: Vec<String>)
    ensures
        strings_view(r@) == strings_view(xs@),
        r@.len() == xs@.len(),
{
    proof {
        lemma_strings_view(xs@);
    }
    let n = xs.len();
    let mut r: Vec<String> = Vec::new();
    let mut i: usize = 0;
    while i < n
        invariant
            n == xs.len(),
            0 <= i <= n,
            r@.len() == i,
            forall|j: int| 0 <= j < i ==> r@[j]@ == xs@[j]@,
        decreases n - i,
    {
        r.push(xs[i].clone());
        i = i + 1;
    }
    proof {
        lemma_strings_view(r@);
        assert(strings_view(r@) =~= strings_view(xs@));
    }
    r
}

/// The macro scope for one file's preprocessing pass.
#[derive(Debug)]
pub struct ParserScopeImpl {
    /// The definitions, in order; later entries shadow earlier ones
    /// with the same name and arity.
    pub defines: Vec<PreprocessorDefineImpl>,
}

/// Models of a definition vector, in order.
pub open spec fn defs_view(ds: Seq<PreprocessorDefineImpl>) -> Seq<DefModel>
    decreases ds,
{
    if ds.len() == 0 {
        Seq::empty()
    } else {
        seq![ds[0]@] + defs_view(ds.drop_first())
    }
}

/// `defs_view` maps the sequence pointwise.
pub proof fn lemma_defs_view(ds: Seq<PreprocessorDefineImpl>)
    ensures
        defs_view(ds).len() == ds.len(),
        forall|i: int| 0 <= i < ds.len() ==> defs_view(ds)[i] == ds[i]@,
    decreases ds.len(),
{
    if ds.len() > 0 {
        lemma_defs_view(ds.drop_first());
        assert forall|i: int| 0 <= i < ds.len() implies defs_view(ds)[i] == ds[i]@ by {
            if i > 0 {
                assert(defs_view(ds)[i] == defs_view(ds.drop_first())[i - 1]);
                assert(ds.drop_first()[i - 1] == ds[i]);
            }
        }
    }
}

impl View for ParserScopeImpl {
    type V = Seq<DefModel>;

    open spec fn view(&self) -> Seq<DefModel> {
        defs_view(self.defines@)
    }
}

/// The latest definition with the given name and arity, if any.
pub open spec fn defs_lookup(defs: Seq<DefModel>, name: Seq<char>, arity: nat) -> Option<DefModel>
    decreases defs,
{
    if defs.len() == 0 {
        Option::None
    } else if defs.last().name == name && defs.last().args.len() == arity {
        Option::Some(defs.last())
    } else {
        defs_lookup(defs.drop_last(), name, arity)
    }
}

/// Whether any definition of the name exists, at any arity.
pub open spec fn defs_has_name(defs: Seq<DefModel>, name: Seq<char>) -> bool {
    exists|i: int| 0 <= i < defs.len() && #[trigger] defs[i].name == name
}

/// The definitions left after removing every arity of a name; order is
/// kept.
pub open spec fn defs_remove_prefix(defs: Seq<DefModel>, name: Seq<char>, k: int) -> Seq<DefModel>
    decreases k,
{
    if k <= 0 {
        Seq::empty()
    } else {
        defs_remove_prefix(defs, name, k - 1) + (if defs[k - 1].name == name {
            Seq::empty()
        } else {
            seq![defs[k - 1]]
        })
    }
}

impl ParserScopeImpl {
    /// An empty scope.
    pub fn new_empty() -> (r: ParserScopeImpl)
        ensures
            r@ == Seq::<DefModel>::empty(),
    {
        ParserScopeImpl { defines: Vec::new() }
    }

    /// A scope with one symbol per configuration line; each line is a
    /// macro name defined with no parameters and empty text.
    pub fn new_from_config_lines(inputs: &Vec<String>) -> (r: ParserScopeImpl)
        ensures
            r@.len() == inputs@.len(),
            forall|i: int|
                0 <= i < inputs@.len() ==> r@[i] == (DefModel {
                    name: inputs@[i]@,
                    args: Seq::empty(),
                    text: Seq::empty(),
                }),
    {
        let n = inputs.len();
        let mut defines: Vec<PreprocessorDefineImpl> = Vec::new();
        let mut i: usize = 0;
        while i < n
            invariant
                n == inputs.len(),
                0 <= i <= n,
                defines@.len() == i,
                forall|j: int|
                    0 <= j < i ==> defines@[j]@ == (DefModel {
                        name: inputs@[j]@,
                        args: Seq::empty(),
                        text: Seq::empty(),
                    }),
            decreases n - i,
        {
            let d = PreprocessorDefineImpl {
                name: inputs[i].clone(),
                args: Vec::new(),
                text: String::new(),
            };
            proof {
                assert(strings_view(Seq::<String>::empty()) =~= Seq::<Seq<char>>::empty());
            }
            defines.push(d);
            i = i + 1;
        }
        let r = ParserScopeImpl { defines };
        proof {
            lemma_defs_view(r.defines@);
        }
        r
    }

    /// A scope from configured inputs where given, else a copy of the
    /// defaults.
    pub fn new_from_config(maybe_inputs: Option<Vec<String>>, defaults: &ParserScopeImpl) -> (r:
        ParserScopeImpl)
        ensures
            maybe_inputs is None ==> r@ == defaults@,
    {
        match maybe_inputs {
            Option::Some(inputs) => Self::new_from_config_lines(&inputs),
            Option::None => defaults.clone_scope(),
        }
    }

    /// A deep copy with the same model.
    pub fn clone_scope(&self) -> (r: ParserScopeImpl)
        ensures
            r@ == self@,
    {
        proof {
            lemma_defs_view(self.defines@);
        }
        let n = self.defines.len();
        let mut defines: Vec<PreprocessorDefineImpl> = Vec::new();
        let mut i: usize = 0;
        while i < n
            invariant
                n == self.defines.len(),
                0 <= i <= n,
                defines@.len() == i,
                forall|j: int| 0 <= j < i ==> defines@[j]@ == self.defines@[j]@,
            decreases n - i,
        {
            let d = self.defines[i].clone_def();
            defines.push(d);
            i = i + 1;
        }
        let r = ParserScopeImpl { defines };
        proof {
            lemma_defs_view(r.defines@);
            assert(defs_view(r.defines@) =~= defs_view(self.defines@));
        }
        r
    }

    /// Merge two scopes: the second's definitions shadow the first's.
    pub fn overlay(one: &ParserScopeImpl, another: &ParserScopeImpl) -> (r: ParserScopeImpl)
        ensures
            r@ == one@ + another@,
    {
        proof {
            lemma_defs_view(one.defines@);
            lemma_defs_view(another.defines@);
        }
        let merged = one.clone_scope();
        let extra = another.clone_scope();
        let n = extra.defines.len();
        let mut i: usize = 0;
        let mut defines = merged.defines;
        proof {
            lemma_defs_view(extra.defines@);
            lemma_defs_view(defines@);
            assert(defs_view(extra.defines@).take(0) =~= Seq::<DefModel>::empty());
            assert(defs_view(defines@) =~= one@ + defs_view(extra.defines@).take(0));
        }
        while i < n
            invariant
                n == extra.defines.len(),
                0 <= i <= n,
                defines@.len() == one@.len() + i,
                defs_view(defines@) =~= one@ + defs_view(extra.defines@).take(i as int),
                defs_view(extra.defines@).len() == extra.defines@.len(),
                forall|j: int|
                    0 <= j < extra.defines@.len() ==> defs_view(extra.defines@)[j]
                        == extra.defines@[j]@,
                extra@ == defs_view(extra.defines@),
            decreases n - i,
        {
            let d = extra.defines[i].clone_def();
            let ghost oldv = defines@;
            let ghost before = defs_view(defines@);
            defines.push(d);
            proof {
                lemma_defs_view(oldv);
                lemma_defs_view(defines@);
                assert(defines@ == oldv.push(d));
                assert forall|j: int|
                    0 <= j < defines@.len() implies defs_view(defines@)[j] == before.push(
                    extra.defines@[i as int]@,
                )[j] by {
                    if j < oldv.len() {
                        assert(defines@[j] == oldv[j]);
                        assert(defs_view(oldv)[j] == oldv[j]@);
                    }
                }
                assert(defs_view(defines@) =~= before.push(extra.defines@[i as int]@));
                assert(defs_view(defines@) =~= one@ + defs_view(extra.defines@).take(
                    i as int + 1,
                ));
            }
            i = i + 1;
        }
        proof {
            assert(defs_view(extra.defines@).take(n as int) =~= extra@);
        }
        let r = ParserScopeImpl { defines };
        proof {
            assert(r@ =~= one@ + another@);
        }
        r
    }

    /// Add (or shadow) a definition.
    pub fn define(&mut self, name: &str, args: Vec<String>, text: &str)
        ensures
            final(self)@ == old(self)@.push(
                DefModel { name: name@, args: strings_view(args@), text: text@ },
            ),
    {
        proof {
            lemma_defs_view(self.defines@);
            lemma_strings_view(args@);
        }
        let ghost before = self@;
        let d = PreprocessorDefineImpl { name: name.to_owned(), args, text: text.to_owned() };
        self.defines.push(d);
        proof {
            lemma_defs_view(self.defines@);
            assert(defs_view(self.defines@) =~= before.push(
                DefModel { name: name@, args: strings_view(args@), text: text@ },
            ));
        }
    }

    /// Remove every arity of a name; other definitions keep their order.
    pub fn undef(&mut self, name: &str)
        ensures
            final(self)@ == defs_remove_prefix(old(self)@, name@, old(self)@.len() as int),
    {
        proof {
            lemma_defs_view(self.defines@);
        }
        let ghost before = self@;
        let n = self.defines.len();
        let mut kept: Vec<PreprocessorDefineImpl> = Vec::new();
        let mut i: usize = 0;
        while i < n
            invariant
                n == self.defines.len(),
                0 <= i <= n,
                before == defs_view(self.defines@),
                defs_view(self.defines@).len() == self.defines@.len(),
                forall|j: int|
                    0 <= j < self.defines@.len() ==> defs_view(self.defines@)[j]
                        == self.defines@[j]@,
                defs_view(kept@) =~= defs_remove_prefix(before, name@, i as int),
            decreases n - i,
        {
            let keep = !crate::erl_type_new::str_eq(self.defines[i].name.as_str(), name);
            let ghost before_kept = defs_view(kept@);
            let ghost old_kept = kept@;
            if keep {
                let d = self.defines[i].clone_def();
                kept.push(d);
                proof {
                    lemma_defs_view(old_kept);
                    lemma_defs_view(kept@);
                    assert(kept@ == old_kept.push(d));
                    assert forall|j: int|
                        0 <= j < kept@.len() implies defs_view(kept@)[j] == before_kept.push(
                        self.defines@[i as int]@,
                    )[j] by {
                        if j < old_kept.len() {
                            assert(kept@[j] == old_kept[j]);
                            assert(defs_view(old_kept)[j] == old_kept[j]@);
                        }
                    }
                    assert(defs_view(kept@) =~= before_kept.push(self.defines@[i as int]@));
                }
            }
            proof {
                lemma_defs_view(kept@);
                assert(defs_view(kept@) =~= defs_remove_prefix(before, name@, i as int + 1));
            }
            i = i + 1;
        }
        self.defines = kept;
    }

    /// Whether the name is defined at any arity.
    pub fn is_defined(&self, name: &str) -> (r: bool)
        ensures
            r == defs_has_name(self@, name@),
    {
        proof {
            lemma_defs_view(self.defines@);
        }
        let n = self.defines.len();
        let mut i: usize = 0;
        while i < n
            invariant
                n == self.defines.len(),
                0 <= i <= n,
                defs_view(self.defines@).len() == self.defines@.len(),
                forall|j: int|
                    0 <= j < self.defines@.len() ==> defs_view(self.defines@)[j]
                        == self.defines@[j]@,
                forall|j: int| 0 <= j < i ==> #[trigger] self@[j].name != name@,
            decreases n - i,
        {
            if crate::erl_type_new::str_eq(self.defines[i].name.as_str(), name) {
                proof {
                    assert(self@[i as int].name == name@);
                }
                return true;
            }
            i = i + 1;
        }
        false
    }

    /// Whether the name is defined at exactly the given arity.
    pub fn is_defined_with_arity(&self, name: &str, arity: usize) -> (r: bool)
        ensures
            r == (defs_lookup(self@, name@, arity as nat) is Some),
    {
        match self.get_value(name, arity) {
            Option::Some(_) => true,
            Option::None => false,
        }
    }

    /// The latest definition under the name and arity, if any.
    pub fn get_value(&self, name: &str, arity: usize) -> (r: Option<PreprocessorDefineImpl>)
        ensures
            match r {
                Option::Some(d) => defs_lookup(self@, name@, arity as nat) == Option::Some(d@),
                Option::None => defs_lookup(self@, name@, arity as nat) is None,
            },
    {
        proof {
            lemma_defs_view(self.defines@);
            assert(self@.take(self.defines@.len() as int) =~= self@);
        }
        let n = self.defines.len();
        let mut i: usize = n;
        while i > 0
            invariant
                0 <= i <= n,
                n == self.defines.len(),
                defs_view(self.defines@).len() == self.defines@.len(),
                forall|j: int|
                    0 <= j < self.defines@.len() ==> defs_view(self.defines@)[j]
                        == self.defines@[j]@,
                defs_lookup(self@, name@, arity as nat) == defs_lookup(
                    self@.take(i as int),
                    name@,
                    arity as nat,
                ),
            decreases i,
        {
            let cand = &self.defines[i - 1];
            let name_hit = crate::erl_type_new::str_eq(cand.name.as_str(), name);
            let hit = name_hit && cand.args.len() == arity;
            proof {
                assert(self@.take(i as int).last() == self.defines@[i - 1]@);
                assert(self@.take(i as int).drop_last() =~= self@.take(i as int - 1));
                crate::erl_ast::lemma_strings_view(self.defines@[i - 1].args@);
            }
            if hit {
                let d = self.defines[i - 1].clone_def();
                return Option::Some(d);
            }
            i = i - 1;
        }
        proof {
            assert(self@.take(0) =~= Seq::<DefModel>::empty());
        }
        Option::None
    }
}

} // verus!
