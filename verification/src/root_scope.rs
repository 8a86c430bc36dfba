//! The module root scope: functions, specs, types, imports and
//! attributes gathered from a parsed module's top-level forms.
//!
//! Function definitions are addressed by their index in the form list,
//! so later passes can reach a definition without sharing nodes.

use vstd::prelude::*;

use crate::erl_ast::AstModel;
use crate::erl_ast::ErlAst;
use crate::erl_ast::asts_view;
use crate::erl_ast::funarities_view;
use crate::erl_ast::lemma_asts_view;
use crate::erl_ast::lemma_funarities_view;
use crate::erl_ast::lemma_strings_view;
use crate::erl_ast::strings_view;
use crate::erl_type::ErlType;
use crate::funarity::FunArity;
use crate::funarity::FunArityModel;

verus! {

/// One function definition: its identity and the index of its form.
#[derive(Debug)]
pub struct FnEntry {
    /// The function's name and arity.
    pub funarity: FunArity,
    /// Index of the definition in the module's form list.
    pub form_index: usize,
}

/// One `-spec` entry.
#[derive(Debug)]
pub struct SpecEntry {
    /// The specified function's name and arity.
    pub funarity: FunArity,
    /// The declared type.
    pub ty: ErlType,
}

/// Ghost model of one spec entry.
#[verifier::ext_equal]
pub struct SpecEntryModel {
    /// The specified function's identity.
    pub funarity: FunArityModel,
    /// The declared type's model.
    pub ty: crate::erl_type::TypeModel,
}

impl View for SpecEntry {
    type V = SpecEntryModel;

    open spec fn view(&self) -> SpecEntryModel {
        SpecEntryModel { funarity: self.funarity@, ty: self.ty@ }
    }
}

/// Models of the spec entries, in order.
pub open spec fn spec_entries_view(es: Seq<SpecEntry>) -> Seq<SpecEntryModel>
    decreases es,
{
    if es.len() == 0 {
        Seq::empty()
    } else {
        seq![es[0]@] + spec_entries_view(es.drop_first())
    }
}

/// `spec_entries_view` maps the sequence pointwise.
pub proof fn lemma_spec_entries_view(es: Seq<SpecEntry>)
    ensures
        spec_entries_view(es).len() == es.len(),
        forall|i: int| 0 <= i < es.len() ==> spec_entries_view(es)[i] == es[i]@,
    decreases es.len(),
{
    if es.len() > 0 {
        lemma_spec_entries_view(es.drop_first());
        assert forall|i: int| 0 <= i < es.len() implies spec_entries_view(es)[i] == es[i]@ by {
            if i > 0 {
                assert(spec_entries_view(es)[i] == spec_entries_view(es.drop_first())[i - 1]);
                assert(es.drop_first()[i - 1] == es[i]);
            }
        }
    }
}

/// The latest declared spec under an identity, if any.
pub open spec fn find_spec_model(es: Seq<SpecEntryModel>, fa: FunArityModel) -> Option<
    SpecEntryModel,
>
    decreases es,
{
    if es.len() == 0 {
        Option::None
    } else if es.last().funarity == fa {
        Option::Some(es.last())
    } else {
        find_spec_model(es.drop_last(), fa)
    }
}

/// One import: a function made callable from another module.
#[derive(Debug)]
pub struct ImportEntry {
    /// The imported function's name and arity.
    pub funarity: FunArity,
    /// The module it comes from.
    pub module: String,
}

/// Ghost model of one function entry.
#[verifier::ext_equal]
pub struct FnEntryModel {
    /// The function's identity.
    pub funarity: FunArityModel,
    /// Index of its form.
    pub form_index: int,
}

/// Ghost model of one import entry.
#[verifier::ext_equal]
pub struct ImportEntryModel {
    /// The imported function's identity.
    pub funarity: FunArityModel,
    /// Its module's name.
    pub module: Seq<char>,
}

impl View for FnEntry {
    type V = FnEntryModel;

    open spec fn view(&self) -> FnEntryModel {
        FnEntryModel { funarity: self.funarity@, form_index: self.form_index as int }
    }
}

impl View for ImportEntry {
    type V = ImportEntryModel;

    open spec fn view(&self) -> ImportEntryModel {
        ImportEntryModel { funarity: self.funarity@, module: self.module@ }
    }
}

/// The root scope of one module.
#[derive(Debug)]
pub struct RootScopeImpl {
    /// Local function definitions, in the order found.
    pub function_defs: Vec<FnEntry>,
    /// Declared specs, in the order found.
    pub function_specs: Vec<SpecEntry>,
    /// Imported functions, in the order found.
    pub imports: Vec<ImportEntry>,
    /// Tags of the generic attributes found, in order.
    pub attribute_tags: Vec<String>,
}

/// Models of the function entries, in order.
pub open spec fn fn_entries_view(es: Seq<FnEntry>) -> Seq<FnEntryModel>
    decreases es,
{
    if es.len() == 0 {
        Seq::empty()
    } else {
        seq![es[0]@] + fn_entries_view(es.drop_first())
    }
}

/// `fn_entries_view` maps the sequence pointwise.
pub proof fn lemma_fn_entries_view(es: Seq<FnEntry>)
    ensures
        fn_entries_view(es).len() == es.len(),
        forall|i: int| 0 <= i < es.len() ==> fn_entries_view(es)[i] == es[i]@,
    decreases es.len(),
{
    if es.len() > 0 {
        lemma_fn_entries_view(es.drop_first());
        assert forall|i: int| 0 <= i < es.len() implies fn_entries_view(es)[i] == es[i]@ by {
            if i > 0 {
                assert(fn_entries_view(es)[i] == fn_entries_view(es.drop_first())[i - 1]);
                assert(es.drop_first()[i - 1] == es[i]);
            }
        }
    }
}

/// Models of the import entries, in order.
pub open spec fn imports_view(es: Seq<ImportEntry>) -> Seq<ImportEntryModel>
    decreases es,
{
    if es.len() == 0 {
        Seq::empty()
    } else {
        seq![es[0]@] + imports_view(es.drop_first())
    }
}

/// `imports_view` maps the sequence pointwise.
pub proof fn lemma_imports_view(es: Seq<ImportEntry>)
    ensures
        imports_view(es).len() == es.len(),
        forall|i: int| 0 <= i < es.len() ==> imports_view(es)[i] == es[i]@,
    decreases es.len(),
{
    if es.len() > 0 {
        lemma_imports_view(es.drop_first());
        assert forall|i: int| 0 <= i < es.len() implies imports_view(es)[i] == es[i]@ by {
            if i > 0 {
                assert(imports_view(es)[i] == imports_view(es.drop_first())[i - 1]);
                assert(es.drop_first()[i - 1] == es[i]);
            }
        }
    }
}

/// The latest function entry under an identity, if any.
pub open spec fn find_fn_model(es: Seq<FnEntryModel>, fa: FunArityModel) -> Option<FnEntryModel>
    decreases es,
{
    if es.len() == 0 {
        Option::None
    } else if es.last().funarity == fa {
        Option::Some(es.last())
    } else {
        find_fn_model(es.drop_last(), fa)
    }
}

/// The latest import under an identity, if any.
pub open spec fn find_import_model(es: Seq<ImportEntryModel>, fa: FunArityModel) -> Option<
    ImportEntryModel,
>
    decreases es,
{
    if es.len() == 0 {
        Option::None
    } else if es.last().funarity == fa {
        Option::Some(es.last())
    } else {
        find_import_model(es.drop_last(), fa)
    }
}

/// The function entries of the first `k` forms: one per function
/// definition, carrying its identity and form index.
pub open spec fn gather_fns(forms: Seq<AstModel>, k: int) -> Seq<FnEntryModel>
    decreases k,
{
    if k <= 0 {
        Seq::empty()
    } else {
        gather_fns(forms, k - 1) + (match forms[k - 1] {
            AstModel::FnDef { funarity, .. } => seq![
                FnEntryModel { funarity, form_index: k - 1 },
            ],
            _ => Seq::empty(),
        })
    }
}

/// The spec entries of the first `k` forms.
pub open spec fn gather_specs(forms: Seq<AstModel>, k: int) -> Seq<SpecEntryModel>
    decreases k,
{
    if k <= 0 {
        Seq::empty()
    } else {
        gather_specs(forms, k - 1) + (match forms[k - 1] {
            AstModel::FnSpec { funarity, spec_ty } => seq![SpecEntryModel { funarity, ty: spec_ty }],
            _ => Seq::empty(),
        })
    }
}

/// The import entries of the first `k` forms: one per imported
/// name/arity, carrying its module.
pub open spec fn gather_imports(forms: Seq<AstModel>, k: int) -> Seq<ImportEntryModel>
    decreases k,
{
    if k <= 0 {
        Seq::empty()
    } else {
        gather_imports(forms, k - 1) + (match forms[k - 1] {
            AstModel::ImportAttr { module, funarities } => import_entries(
                module,
                funarities,
                funarities.len() as int,
            ),
            _ => Seq::empty(),
        })
    }
}

/// The entries of one import attribute: its first `j` name/arity pairs.
pub open spec fn import_entries(module: Seq<char>, fas: Seq<FunArityModel>, j: int) -> Seq<
    ImportEntryModel,
>
    decreases j,
{
    if j <= 0 {
        Seq::empty()
    } else {
        import_entries(module, fas, j - 1) + seq![
            ImportEntryModel { funarity: fas[j - 1], module },
        ]
    }
}

/// The generic attribute tags of the first `k` forms.
pub open spec fn gather_tags(forms: Seq<AstModel>, k: int) -> Seq<Seq<char>>
    decreases k,
{
    if k <= 0 {
        Seq::empty()
    } else {
        gather_tags(forms, k - 1) + (match forms[k - 1] {
            AstModel::ModuleAttr { name, .. } => seq![name],
            _ => Seq::empty(),
        })
    }
}

/// How many of the first `k` recorded tags equal `tag`.
pub open spec fn count_tags(tags: Seq<String>, tag: Seq<char>, k: int) -> int
    decreases k,
{
    if k <= 0 {
        0
    } else {
        count_tags(tags, tag, k - 1) + (if tags[k - 1]@ == tag {
            1int
        } else {
            0int
        })
    }
}

impl RootScopeImpl {
    /// An empty root scope.
    pub fn new_empty() -> (r: RootScopeImpl)
        ensures
            r.function_defs@.len() == 0,
            r.function_specs@.len() == 0,
            r.imports@.len() == 0,
            r.attribute_tags@.len() == 0,
    {
        RootScopeImpl {
            function_defs: Vec::new(),
            function_specs: Vec::new(),
            imports: Vec::new(),
            attribute_tags: Vec::new(),
        }
    }

    /// Record a function definition at a form index.
    pub fn add_fn(&mut self, funarity: FunArity, form_index: usize)
        ensures
            fn_entries_view(final(self).function_defs@) == fn_entries_view(
                old(self).function_defs@,
            ).push(FnEntryModel { funarity: funarity@, form_index: form_index as int }),
            final(self).imports@ == old(self).imports@,
            final(self).function_specs@ == old(self).function_specs@,
            final(self).attribute_tags@ == old(self).attribute_tags@,
    {
        let ghost oldv = self.function_defs@;
        let ghost target = FnEntryModel { funarity: funarity@, form_index: form_index as int };
        self.function_defs.push(FnEntry { funarity, form_index });
        proof {
            lemma_fn_entries_view(oldv);
            lemma_fn_entries_view(self.function_defs@);
            assert forall|k: int|
                0 <= k < self.function_defs@.len() implies fn_entries_view(
                self.function_defs@,
            )[k] == fn_entries_view(oldv).push(target)[k] by {
                if k < oldv.len() {
                    assert(self.function_defs@[k] == oldv[k]);
                    assert(fn_entries_view(oldv)[k] == oldv[k]@);
                }
            }
            assert(fn_entries_view(self.function_defs@) =~= fn_entries_view(oldv).push(target));
        }
    }

    /// The latest function entry with this identity, per
    /// [`find_fn_model`].
    pub fn find_fn_ast(&self, funarity: &FunArity) -> (r: Option<usize>)
        ensures
            match r {
                Option::Some(ix) => find_fn_model(fn_entries_view(self.function_defs@), funarity@)
                    matches Option::Some(e) && e.form_index == ix as int,
                Option::None => find_fn_model(
                    fn_entries_view(self.function_defs@),
                    funarity@,
                ) is None,
            },
    {
        proof {
            lemma_fn_entries_view(self.function_defs@);
            assert(fn_entries_view(self.function_defs@).take(
                self.function_defs@.len() as int,
            ) =~= fn_entries_view(self.function_defs@));
        }
        let ghost whole = fn_entries_view(self.function_defs@);
        let n = self.function_defs.len();
        let mut i: usize = n;
        while i > 0
            invariant
                0 <= i <= n,
                n == self.function_defs.len(),
                whole == fn_entries_view(self.function_defs@),
                whole.len() == self.function_defs@.len(),
                forall|j: int|
                    0 <= j < self.function_defs@.len() ==> whole[j] == self.function_defs@[j]@,
                find_fn_model(whole, funarity@) == find_fn_model(
                    whole.take(i as int),
                    funarity@,
                ),
            decreases i,
        {
            let hit = self.function_defs[i - 1].funarity.fa_eq(funarity);
            proof {
                assert(whole.take(i as int).last() == self.function_defs@[i - 1]@);
                assert(whole.take(i as int).drop_last() =~= whole.take(i as int - 1));
            }
            if hit {
                return Option::Some(self.function_defs[i - 1].form_index);
            }
            i = i - 1;
        }
        proof {
            assert(whole.take(0) =~= Seq::<FnEntryModel>::empty());
        }
        Option::None
    }

    /// The latest import with this identity, per [`find_import_model`].
    pub fn find_import(&self, funarity: &FunArity) -> (r: Option<String>)
        ensures
            match r {
                Option::Some(m) => find_import_model(imports_view(self.imports@), funarity@)
                    matches Option::Some(e) && e.module == m@,
                Option::None => find_import_model(imports_view(self.imports@), funarity@) is None,
            },
    {
        proof {
            lemma_imports_view(self.imports@);
            assert(imports_view(self.imports@).take(self.imports@.len() as int) =~= imports_view(
                self.imports@,
            ));
        }
        let ghost whole = imports_view(self.imports@);
        let n = self.imports.len();
        let mut i: usize = n;
        while i > 0
            invariant
                0 <= i <= n,
                n == self.imports.len(),
                whole == imports_view(self.imports@),
                whole.len() == self.imports@.len(),
                forall|j: int| 0 <= j < self.imports@.len() ==> whole[j] == self.imports@[j]@,
                find_import_model(whole, funarity@) == find_import_model(
                    whole.take(i as int),
                    funarity@,
                ),
            decreases i,
        {
            let hit = self.imports[i - 1].funarity.fa_eq(funarity);
            proof {
                assert(whole.take(i as int).last() == self.imports@[i - 1]@);
                assert(whole.take(i as int).drop_last() =~= whole.take(i as int - 1));
            }
            if hit {
                return Option::Some(self.imports[i - 1].module.clone());
            }
            i = i - 1;
        }
        proof {
            assert(whole.take(0) =~= Seq::<ImportEntryModel>::empty());
        }
        Option::None
    }

    /// The latest declared spec type for this identity, per
    /// [`find_spec_model`].
    pub fn get_spec(&self, funarity: &FunArity) -> (r: Option<ErlType>)
        ensures
            match r {
                Option::Some(t) => find_spec_model(
                    spec_entries_view(self.function_specs@),
                    funarity@,
                ) matches Option::Some(e) && e.ty == t@,
                Option::None => find_spec_model(
                    spec_entries_view(self.function_specs@),
                    funarity@,
                ) is None,
            },
    {
        proof {
            lemma_spec_entries_view(self.function_specs@);
            assert(spec_entries_view(self.function_specs@).take(
                self.function_specs@.len() as int,
            ) =~= spec_entries_view(self.function_specs@));
        }
        let ghost whole = spec_entries_view(self.function_specs@);
        let n = self.function_specs.len();
        let mut i: usize = n;
        while i > 0
            invariant
                0 <= i <= n,
                n == self.function_specs.len(),
                whole == spec_entries_view(self.function_specs@),
                whole.len() == self.function_specs@.len(),
                forall|j: int|
                    0 <= j < self.function_specs@.len() ==> whole[j] == self.function_specs@[j]@,
                find_spec_model(whole, funarity@) == find_spec_model(
                    whole.take(i as int),
                    funarity@,
                ),
            decreases i,
        {
            let hit = self.function_specs[i - 1].funarity.fa_eq(funarity);
            proof {
                assert(whole.take(i as int).last() == self.function_specs@[i - 1]@);
                assert(whole.take(i as int).drop_last() =~= whole.take(i as int - 1));
            }
            if hit {
                return Option::Some(self.function_specs[i - 1].ty.clone());
            }
            i = i - 1;
        }
        proof {
            assert(whole.take(0) =~= Seq::<SpecEntryModel>::empty());
        }
        Option::None
    }

    /// How many generic attributes carry this tag.
    pub fn get_attr(&self, tag: &str) -> (r: usize)
        ensures
            r as int == count_tags(self.attribute_tags@, tag@, self.attribute_tags@.len() as int),
    {
        let n = self.attribute_tags.len();
        let mut count: usize = 0;
        let mut i: usize = 0;
        while i < n
            invariant
                0 <= i <= n,
                n == self.attribute_tags.len(),
                count <= i,
                count as int == count_tags(self.attribute_tags@, tag@, i as int),
            decreases n - i,
        {
            if crate::erl_type_new::str_eq(self.attribute_tags[i].as_str(), tag) {
                count = count + 1;
            }
            i = i + 1;
        }
        count
    }

    /// Walk a module's form list and record every function definition,
    /// spec, import and generic attribute found, in form order: exactly
    /// the gathered entries of the list. A root of any other kind
    /// records nothing.
    pub fn update_from_ast(&mut self, ast: &ErlAst)
        ensures
            ast@ matches AstModel::Forms(forms) ==> {
                &&& fn_entries_view(final(self).function_defs@) == fn_entries_view(
                    old(self).function_defs@,
                ) + gather_fns(forms, forms.len() as int)
                &&& spec_entries_view(final(self).function_specs@) == spec_entries_view(
                    old(self).function_specs@,
                ) + gather_specs(forms, forms.len() as int)
                &&& imports_view(final(self).imports@) == imports_view(old(self).imports@)
                    + gather_imports(forms, forms.len() as int)
                &&& strings_view(final(self).attribute_tags@) == strings_view(
                    old(self).attribute_tags@,
                ) + gather_tags(forms, forms.len() as int)
            },
            !(ast@ is Forms) ==> (final(self).function_defs@ == old(self).function_defs@
                && final(self).function_specs@ == old(self).function_specs@ && final(self).imports@
                == old(self).imports@ && final(self).attribute_tags@ == old(
                self,
            ).attribute_tags@),
    {
        let forms: &Vec<ErlAst> = match ast {
            ErlAst::Forms(forms) => forms,
            _ => {
                return ;
            },
        };
        let ghost fv = asts_view(forms@);
        let ghost fns0 = fn_entries_view(self.function_defs@);
        let ghost specs0 = spec_entries_view(self.function_specs@);
        let ghost imps0 = imports_view(self.imports@);
        let ghost tags0 = strings_view(self.attribute_tags@);
        proof {
            lemma_asts_view(forms@);
            assert(fn_entries_view(self.function_defs@) =~= fns0 + gather_fns(fv, 0));
            assert(spec_entries_view(self.function_specs@) =~= specs0 + gather_specs(fv, 0));
            assert(imports_view(self.imports@) =~= imps0 + gather_imports(fv, 0));
            assert(strings_view(self.attribute_tags@) =~= tags0 + gather_tags(fv, 0));
        }
        let n = forms.len();
        let mut i: usize = 0;
        while i < n
            invariant
                0 <= i <= n,
                n == forms@.len(),
                fv == asts_view(forms@),
                fv.len() == forms@.len(),
                forall|k: int| 0 <= k < forms@.len() ==> fv[k] == forms@[k]@,
                fn_entries_view(self.function_defs@) == fns0 + gather_fns(fv, i as int),
                spec_entries_view(self.function_specs@) == specs0 + gather_specs(fv, i as int),
                imports_view(self.imports@) == imps0 + gather_imports(fv, i as int),
                strings_view(self.attribute_tags@) == tags0 + gather_tags(fv, i as int),
            decreases n - i,
        {
            match &forms[i] {
                ErlAst::FnDef { funarity, .. } => {
                    let fa = FunArity::new(funarity.name.clone(), funarity.arity);
                    self.add_fn(fa, i);
                    proof {
                        assert(fn_entries_view(self.function_defs@) =~= fns0 + gather_fns(
                            fv,
                            i as int + 1,
                        ));
                        assert(spec_entries_view(self.function_specs@) =~= specs0 + gather_specs(
                            fv,
                            i as int + 1,
                        ));
                        assert(imports_view(self.imports@) =~= imps0 + gather_imports(
                            fv,
                            i as int + 1,
                        ));
                        assert(strings_view(self.attribute_tags@) =~= tags0 + gather_tags(
                            fv,
                            i as int + 1,
                        ));
                    }
                },
                ErlAst::FnSpec { funarity, spec_ty } => {
                    let fa = FunArity::new(funarity.name.clone(), funarity.arity);
                    let ghost target = SpecEntryModel { funarity: fa@, ty: spec_ty@ };
                    let ghost oldv = self.function_specs@;
                    self.function_specs.push(SpecEntry { funarity: fa, ty: spec_ty.clone() });
                    proof {
                        lemma_spec_entries_view(oldv);
                        lemma_spec_entries_view(self.function_specs@);
                        assert(self.function_specs@ == oldv.push(
                            self.function_specs@[self.function_specs@.len() - 1],
                        ));
                        assert forall|k: int|
                            0 <= k < self.function_specs@.len() implies spec_entries_view(
                            self.function_specs@,
                        )[k] == spec_entries_view(oldv).push(target)[k] by {
                            if k < oldv.len() {
                                assert(self.function_specs@[k] == oldv[k]);
                                assert(spec_entries_view(oldv)[k] == oldv[k]@);
                            }
                        }
                        assert(spec_entries_view(self.function_specs@) =~= spec_entries_view(
                            oldv,
                        ).push(target));
                        assert(spec_entries_view(self.function_specs@) =~= specs0 + gather_specs(
                            fv,
                            i as int + 1,
                        ));
                        assert(fn_entries_view(self.function_defs@) =~= fns0 + gather_fns(
                            fv,
                            i as int + 1,
                        ));
                        assert(imports_view(self.imports@) =~= imps0 + gather_imports(
                            fv,
                            i as int + 1,
                        ));
                        assert(strings_view(self.attribute_tags@) =~= tags0 + gather_tags(
                            fv,
                            i as int + 1,
                        ));
                    }
                },
                ErlAst::ImportAttr { module, funarities } => {
                    proof {
                        lemma_funarities_view(funarities@);
                    }
                    let ghost fas = funarities_view(funarities@);
                    let ghost before = imports_view(self.imports@);
                    let m = funarities.len();
                    let mut j: usize = 0;
                    proof {
                        assert(imports_view(self.imports@) =~= before + import_entries(
                            module@,
                            fas,
                            0,
                        ));
                    }
                    while j < m
                        invariant
                            0 <= j <= m,
                            m == funarities@.len(),
                            fas == funarities_view(funarities@),
                            fas.len() == funarities@.len(),
                            forall|k: int| 0 <= k < funarities@.len() ==> fas[k] == funarities@[k]@,
                            imports_view(self.imports@) == before + import_entries(
                                module@,
                                fas,
                                j as int,
                            ),
                            0 <= i < forms@.len(),
                            fv == asts_view(forms@),
                            fv.len() == forms@.len(),
                            forall|k: int| 0 <= k < forms@.len() ==> fv[k] == forms@[k]@,
                            fv[i as int] == (AstModel::ImportAttr { module: module@, funarities: fas }),
                            before == imps0 + gather_imports(fv, i as int),
                            fn_entries_view(self.function_defs@) == fns0 + gather_fns(fv, i as int),
                            spec_entries_view(self.function_specs@) == specs0 + gather_specs(
                                fv,
                                i as int,
                            ),
                            strings_view(self.attribute_tags@) == tags0 + gather_tags(fv, i as int),
                        decreases m - j,
                    {
                        let fa = FunArity::new(
                            funarities[j].name.clone(),
                            funarities[j].arity,
                        );
                        let ghost target = ImportEntryModel { funarity: fa@, module: module@ };
                        let ghost oldv = self.imports@;
                        self.imports.push(ImportEntry { funarity: fa, module: module.clone() });
                        proof {
                            lemma_imports_view(oldv);
                            lemma_imports_view(self.imports@);
                            assert(self.imports@ == oldv.push(
                                self.imports@[self.imports@.len() - 1],
                            ));
                            assert forall|k: int|
                                0 <= k < self.imports@.len() implies imports_view(
                                self.imports@,
                            )[k] == imports_view(oldv).push(target)[k] by {
                                if k < oldv.len() {
                                    assert(self.imports@[k] == oldv[k]);
                                    assert(imports_view(oldv)[k] == oldv[k]@);
                                }
                            }
                            assert(imports_view(self.imports@) =~= imports_view(oldv).push(
                                target,
                            ));
                            assert(imports_view(self.imports@) =~= before + import_entries(
                                module@,
                                fas,
                                j as int + 1,
                            ));
                        }
                        j = j + 1;
                    }
                    proof {
                        assert(fv[i as int] == forms@[i as int]@);
                        assert(imports_view(self.imports@) =~= imps0 + gather_imports(
                            fv,
                            i as int + 1,
                        ));
                        assert(fn_entries_view(self.function_defs@) =~= fns0 + gather_fns(
                            fv,
                            i as int + 1,
                        ));
                        assert(spec_entries_view(self.function_specs@) =~= specs0 + gather_specs(
                            fv,
                            i as int + 1,
                        ));
                        assert(strings_view(self.attribute_tags@) =~= tags0 + gather_tags(
                            fv,
                            i as int + 1,
                        ));
                    }
                },
                ErlAst::ModuleAttr { name, .. } => {
                    let ghost oldv = self.attribute_tags@;
                    self.attribute_tags.push(name.clone());
                    proof {
                        lemma_strings_view(oldv);
                        lemma_strings_view(self.attribute_tags@);
                        assert(self.attribute_tags@ == oldv.push(
                            self.attribute_tags@[self.attribute_tags@.len() - 1],
                        ));
                        assert forall|k: int|
                            0 <= k < self.attribute_tags@.len() implies strings_view(
                            self.attribute_tags@,
                        )[k] == strings_view(oldv).push(name@)[k] by {
                            if k < oldv.len() {
                                assert(self.attribute_tags@[k] == oldv[k]);
                                assert(strings_view(oldv)[k] == oldv[k]@);
                            }
                        }
                        assert(strings_view(self.attribute_tags@) =~= strings_view(oldv).push(
                            name@,
                        ));
                        assert(strings_view(self.attribute_tags@) =~= tags0 + gather_tags(
                            fv,
                            i as int + 1,
                        ));
                        assert(fn_entries_view(self.function_defs@) =~= fns0 + gather_fns(
                            fv,
                            i as int + 1,
                        ));
                        assert(spec_entries_view(self.function_specs@) =~= specs0 + gather_specs(
                            fv,
                            i as int + 1,
                        ));
                        assert(imports_view(self.imports@) =~= imps0 + gather_imports(
                            fv,
                            i as int + 1,
                        ));
                    }
                },
                _ => {
                    proof {
                        assert(fn_entries_view(self.function_defs@) =~= fns0 + gather_fns(
                            fv,
                            i as int + 1,
                        ));
                        assert(spec_entries_view(self.function_specs@) =~= specs0 + gather_specs(
                            fv,
                            i as int + 1,
                        ));
                        assert(imports_view(self.imports@) =~= imps0 + gather_imports(
                            fv,
                            i as int + 1,
                        ));
                        assert(strings_view(self.attribute_tags@) =~= tags0 + gather_tags(
                            fv,
                            i as int + 1,
                        ));
                    }
                },
            }
            i = i + 1;
        }
    }
}

} // verus!
