//! The preprocessor interpreter: walk parsed fragments top to bottom,
//! keep the macro scope up to date, resolve conditional blocks by the
//! scope as of that point, substitute macro uses in text, inline
//! included files through the file cache, and collect `-error(...)`
//! directives for one aggregate report.
//!
//! The output is resolved: only text and included-file nodes survive
//! (`output_clean`); a discarded branch's definitions never enter the
//! scope, so a macro defined only inside it stays invisible.

use vstd::prelude::*;

use crate::error::ErlError;
use crate::error::ErrModel;
use crate::error::errs_view;
use crate::error::lemma_errs_view;
use crate::file_cache::CachedFile;
use crate::file_cache::FileCacheImpl;
use crate::literal_bool::LiteralBool;
use crate::macro_string::lemma_subst_no_marks;
use crate::macro_string::subst_model;
use crate::macro_string::substitute_macros;
use crate::module::ErlModuleImpl;
use crate::module::ParseEntry;
use crate::pp_ast::PpAst;
use crate::pp_ast::PpModel;
use crate::pp_ast::lemma_pps_view;
use crate::pp_ast::output_clean;
use crate::pp_ast::pps_view;
use crate::pp_ast::render_fragments;
use crate::pp_ast::render_output;
use crate::pp_parser::PpParser;
use crate::pp_parser::plain_from;
use crate::pp_parser::texts_only_plain;
use crate::pp_scope::DefModel;
use crate::pp_scope::ParserScopeImpl;
use crate::pp_scope::defs_has_name;
use crate::pp_scope::defs_remove_prefix;
use crate::source_loc::SourceLoc;

verus! {

/// How many nested includes the interpreter follows before giving up.
pub const INCLUDE_DEPTH: u32 = 32;

/// A steady fragment: one whose interpretation needs neither the file
/// cache nor expression parsing. Text, comments, scope edits, error and
/// warning directives are steady, and so is a conditional on a macro
/// name whose branches are steady in turn; includes and `-if` blocks
/// are not.
pub open spec fn simple_node(m: PpModel) -> bool
    decreases m, 0int,
{
    match m {
        PpModel::Text(_) => true,
        PpModel::Comment(_) => true,
        PpModel::Define(_, _) => true,
        PpModel::DefineFun { .. } => true,
        PpModel::Undef(_) => true,
        PpModel::Error(_) => true,
        PpModel::Warning(_) => true,
        PpModel::IfdefBlock { cond_true, cond_false, .. } => simple_nodes(cond_true)
            && simple_nodes(cond_false),
        PpModel::IfndefBlock { cond_true, cond_false, .. } => simple_nodes(cond_true)
            && simple_nodes(cond_false),
        _ => false,
    }
}

/// Steady fragments: every node, branches included.
pub open spec fn simple_nodes(nodes: Seq<PpModel>) -> bool
    decreases nodes, 1int,
{
    if nodes.len() == 0 {
        true
    } else {
        simple_node(nodes[0]) && simple_nodes(nodes.drop_first())
    }
}

/// `simple_nodes` is the pointwise statement.
pub proof fn lemma_simple_nodes(nodes: Seq<PpModel>)
    ensures
        simple_nodes(nodes) <==> (forall|i: int|
            0 <= i < nodes.len() ==> simple_node(#[trigger] nodes[i])),
    decreases nodes.len(),
{
    if nodes.len() > 0 {
        lemma_simple_nodes(nodes.drop_first());
        assert(forall|i: int| 1 <= i < nodes.len() ==> nodes.drop_first()[i - 1] == nodes[i]);
    }
}

/// The branch a conditional on a macro name selects under a scope.
pub open spec fn chosen_branch(m: PpModel, defs: Seq<DefModel>) -> Seq<PpModel> {
    match m {
        PpModel::IfdefBlock { macro_name, cond_true, cond_false } => if defs_has_name(
            defs,
            macro_name,
        ) {
            cond_true
        } else {
            cond_false
        },
        PpModel::IfndefBlock { macro_name, cond_true, cond_false } => if defs_has_name(
            defs,
            macro_name,
        ) {
            cond_false
        } else {
            cond_true
        },
        _ => Seq::empty(),
    }
}

/// What one steady node emits, under the scope at its position: text
/// with its macros substituted, or the chosen branch's whole output; a
/// discarded branch emits nothing.
pub open spec fn simple_step_out(node: PpModel, defs: Seq<DefModel>) -> Seq<PpModel>
    decreases node, 0int,
{
    match node {
        PpModel::Text(t) => seq![PpModel::Text(subst_model(t, defs))],
        PpModel::IfdefBlock { .. } => simple_out(chosen_branch(node, defs), defs),
        PpModel::IfndefBlock { .. } => simple_out(chosen_branch(node, defs), defs),
        _ => Seq::empty(),
    }
}

/// What one steady node adds to the scope: a definition, a removal, or
/// the chosen branch's scope edits; a discarded branch adds nothing.
pub open spec fn simple_step_defs(node: PpModel, defs: Seq<DefModel>) -> Seq<DefModel>
    decreases node, 0int,
{
    match node {
        PpModel::Define(n, b) => defs.push(DefModel { name: n, args: Seq::empty(), text: b }),
        PpModel::DefineFun { name, args, body } => defs.push(
            DefModel { name, args, text: body },
        ),
        PpModel::Undef(n) => defs_remove_prefix(defs, n, defs.len() as int),
        PpModel::IfdefBlock { .. } => simple_defs(chosen_branch(node, defs), defs),
        PpModel::IfndefBlock { .. } => simple_defs(chosen_branch(node, defs), defs),
        _ => defs,
    }
}

/// What one steady node reports: an error directive's message, or the
/// chosen branch's reports.
pub open spec fn simple_step_errs(node: PpModel, defs: Seq<DefModel>) -> Seq<Seq<char>>
    decreases node, 0int,
{
    match node {
        PpModel::Error(msg) => seq![msg],
        PpModel::IfdefBlock { .. } => simple_errs(chosen_branch(node, defs), defs),
        PpModel::IfndefBlock { .. } => simple_errs(chosen_branch(node, defs), defs),
        _ => Seq::empty(),
    }
}

/// The output of interpreting steady fragments under an evolving scope,
/// in strict input order with conditionals resolved in place.
pub open spec fn simple_out(nodes: Seq<PpModel>, defs: Seq<DefModel>) -> Seq<PpModel>
    decreases nodes, 1int,
{
    if nodes.len() == 0 {
        Seq::empty()
    } else {
        simple_step_out(nodes[0], defs) + simple_out(
            nodes.drop_first(),
            simple_step_defs(nodes[0], defs),
        )
    }
}

/// The scope left by interpreting steady fragments.
pub open spec fn simple_defs(nodes: Seq<PpModel>, defs: Seq<DefModel>) -> Seq<DefModel>
    decreases nodes, 1int,
{
    if nodes.len() == 0 {
        defs
    } else {
        simple_defs(nodes.drop_first(), simple_step_defs(nodes[0], defs))
    }
}

/// The error messages collected while interpreting steady fragments, in
/// input order.
pub open spec fn simple_errs(nodes: Seq<PpModel>, defs: Seq<DefModel>) -> Seq<Seq<char>>
    decreases nodes, 1int,
{
    if nodes.len() == 0 {
        Seq::empty()
    } else {
        simple_step_errs(nodes[0], defs) + simple_errs(
            nodes.drop_first(),
            simple_step_defs(nodes[0], defs),
        )
    }
}

/// The collected messages as preprocessor error models, in order.
pub open spec fn preprocessor_errs(msgs: Seq<Seq<char>>) -> Seq<ErrModel>
    decreases msgs,
{
    if msgs.len() == 0 {
        Seq::empty()
    } else {
        seq![
            ErrModel::Preprocessor { loc: SourceLoc::Unknown, message: msgs[0] },
        ] + preprocessor_errs(msgs.drop_first())
    }
}

/// A macro defined only inside a discarded conditional branch stays
/// invisible: with neither `gate` nor `name` defined, a conditional on
/// `gate` discards a branch defining `name`, and a following
/// conditional on `name` then takes its false branch; the scope and the
/// collected errors are exactly those of that false branch.
pub proof fn lemma_branch_isolation(
    gate: Seq<char>,
    name: Seq<char>,
    body: Seq<char>,
    hidden: Seq<PpModel>,
    t2: Seq<PpModel>,
    f2: Seq<PpModel>,
    defs: Seq<DefModel>,
)
    requires
        !defs_has_name(defs, gate),
        !defs_has_name(defs, name),
        hidden == seq![PpModel::Define(name, body)],
    ensures
        simple_out(
            seq![
                PpModel::IfdefBlock {
                    macro_name: gate,
                    cond_true: hidden,
                    cond_false: Seq::empty(),
                },
                PpModel::IfdefBlock { macro_name: name, cond_true: t2, cond_false: f2 },
            ],
            defs,
        ) == simple_out(f2, defs),
        simple_defs(
            seq![
                PpModel::IfdefBlock {
                    macro_name: gate,
                    cond_true: hidden,
                    cond_false: Seq::empty(),
                },
                PpModel::IfdefBlock { macro_name: name, cond_true: t2, cond_false: f2 },
            ],
            defs,
        ) == simple_defs(f2, defs),
{
    let first = PpModel::IfdefBlock {
        macro_name: gate,
        cond_true: hidden,
        cond_false: Seq::empty(),
    };
    let second = PpModel::IfdefBlock { macro_name: name, cond_true: t2, cond_false: f2 };
    let nodes = seq![first, second];
    assert(chosen_branch(first, defs) =~= Seq::<PpModel>::empty());
    assert(simple_step_out(first, defs) =~= Seq::<PpModel>::empty());
    assert(simple_step_defs(first, defs) == defs);
    assert(simple_step_errs(first, defs) =~= Seq::<Seq<char>>::empty());
    assert(nodes.drop_first() =~= seq![second]);
    assert(nodes.drop_first().drop_first() =~= Seq::<PpModel>::empty());
    assert(chosen_branch(second, defs) == f2);
    assert(simple_step_out(second, defs) == simple_out(f2, defs));
    assert(simple_step_defs(second, defs) == simple_defs(f2, defs));
    assert(seq![second].drop_first() =~= Seq::<PpModel>::empty());
    assert(simple_out(Seq::<PpModel>::empty(), simple_step_defs(second, defs))
        =~= Seq::<PpModel>::empty());
    assert(simple_out(seq![second], defs) =~= simple_out(f2, defs) + Seq::<PpModel>::empty());
    assert(simple_out(f2, defs) + Seq::<PpModel>::empty() =~= simple_out(f2, defs));
    assert(simple_out(nodes, defs) =~= Seq::<PpModel>::empty() + simple_out(seq![second], defs));
    assert(Seq::<PpModel>::empty() + simple_out(seq![second], defs) =~= simple_out(
        seq![second],
        defs,
    ));
    assert(simple_defs(nodes, defs) == simple_defs(seq![second], defs));
    assert(simple_defs(seq![second], defs) == simple_defs(
        Seq::<PpModel>::empty(),
        simple_defs(f2, defs),
    ));
}

/// Round trip of a definition and a use: interpreting a `-define` of a
/// plain macro followed by text yields exactly that text with the
/// macro's body substituted at each use site.
pub proof fn lemma_define_then_substitute(name: Seq<char>, body: Seq<char>, t: Seq<char>)
    ensures
        simple_out(seq![PpModel::Define(name, body), PpModel::Text(t)], Seq::empty())
            == seq![
            PpModel::Text(
                subst_model(t, seq![DefModel { name, args: Seq::empty(), text: body }]),
            ),
        ],
{
    let nodes = seq![PpModel::Define(name, body), PpModel::Text(t)];
    let defs1 = Seq::<DefModel>::empty().push(
        DefModel { name, args: Seq::empty(), text: body },
    );
    let rest = nodes.drop_first();
    assert(rest =~= seq![PpModel::Text(t)]);
    assert(rest.drop_first() =~= Seq::<PpModel>::empty());
    assert(defs1 =~= seq![DefModel { name, args: Seq::empty(), text: body }]);
    assert(nodes[0] == PpModel::Define(name, body));
    assert(simple_step_out(nodes[0], Seq::empty()) =~= Seq::<PpModel>::empty());
    assert(simple_step_defs(nodes[0], Seq::empty()) == defs1);
    assert(rest[0] == PpModel::Text(t));
    assert(simple_step_out(rest[0], defs1) =~= seq![PpModel::Text(subst_model(t, defs1))]);
    assert(simple_step_defs(rest[0], defs1) == defs1);
    assert(simple_out(rest.drop_first(), defs1) =~= Seq::<PpModel>::empty());
    assert(simple_out(rest, defs1) =~= seq![PpModel::Text(subst_model(t, defs1))]);
    assert(simple_out(nodes, Seq::empty()) =~= seq![PpModel::Text(subst_model(t, defs1))]);
}

/// Interpreting plain text fragments returns them unchanged, whatever
/// the scope holds, touching neither the scope nor the error report.
pub proof fn lemma_simple_out_plain(nodes: Seq<PpModel>, defs: Seq<DefModel>)
    requires
        texts_only_plain(nodes),
    ensures
        simple_out(nodes, defs) == nodes,
        simple_defs(nodes, defs) == defs,
        simple_errs(nodes, defs) == Seq::<Seq<char>>::empty(),
    decreases nodes,
{
    if nodes.len() > 0 {
        assert(nodes[0] matches PpModel::Text(t) && (forall|j: int|
            0 <= j < t.len() ==> t[j] != '?'));
        let t = nodes[0]->Text_0;
        lemma_subst_no_marks(t, defs, 0);
        assert(t.skip(0) =~= t);
        assert(simple_step_out(nodes[0], defs) =~= seq![PpModel::Text(t)]);
        assert(simple_step_defs(nodes[0], defs) == defs);
        assert(simple_step_errs(nodes[0], defs) =~= Seq::<Seq<char>>::empty());
        assert(forall|i: int|
            0 <= i < nodes.drop_first().len() ==> nodes.drop_first()[i] == nodes[i + 1]);
        lemma_simple_out_plain(nodes.drop_first(), defs);
        assert(simple_out(nodes, defs) =~= seq![PpModel::Text(t)] + nodes.drop_first());
        assert(seq![PpModel::Text(t)] + nodes.drop_first() =~= nodes);
        assert(simple_errs(nodes, defs) =~= Seq::<Seq<char>>::empty());
    } else {
        assert(simple_out(nodes, defs) =~= nodes);
        assert(simple_errs(nodes, defs) =~= Seq::<Seq<char>>::empty());
    }
}

/// Plain text fragments are steady.
pub proof fn lemma_plain_is_simple(nodes: Seq<PpModel>)
    requires
        texts_only_plain(nodes),
    ensures
        simple_nodes(nodes),
    decreases nodes.len(),
{
    if nodes.len() > 0 {
        assert(nodes[0] matches PpModel::Text(t) && (forall|j: int|
            0 <= j < t.len() ==> t[j] != '?'));
        assert(simple_node(nodes[0]));
        assert(forall|i: int|
            0 <= i < nodes.drop_first().len() ==> nodes.drop_first()[i] == nodes[i + 1]);
        lemma_plain_is_simple(nodes.drop_first());
    }
}

/// Plain text renders as itself after simple interpretation.
pub proof fn lemma_render_plain(nodes: Seq<PpModel>, defs: Seq<DefModel>)
    requires
        texts_only_plain(nodes),
    ensures
        render_output(simple_out(nodes, defs)) == render_output(nodes),
{
    lemma_simple_out_plain(nodes, defs);
}

/// The preprocessing stage for one file: the file cache it reads and
/// updates, and the macro scope it evolves.
#[derive(Debug)]
pub struct ErlPreprocessStage {
    /// Loaded file contents, also receiving preprocessed output.
    pub file_cache: FileCacheImpl,
    /// The macro scope, seeded from configuration, evolving through the
    /// file.
    pub scope: ParserScopeImpl,
}

impl ErlPreprocessStage {
    /// A stage over the given cache with the given starting scope.
    pub fn new(file_cache: FileCacheImpl, scope: ParserScopeImpl) -> (r: ErlPreprocessStage)
        ensures
            r.file_cache@ == file_cache@,
            r.scope@ == scope@,
    {
        ErlPreprocessStage { file_cache, scope }
    }

    /// Parse source text into a preprocessor file node. Directive-free
    /// text parses to text fragments that render back to the input.
    pub fn from_source(input: &str) -> (r: Result<PpAst, ErlError>)
        ensures
            plain_from(input@, 0) ==> (r matches Result::Ok(f) && (f@ matches PpModel::File(nodes)
                && render_output(nodes) == input@ && texts_only_plain(nodes))),
    {
        match PpParser::parse_module(input) {
            Result::Ok(frags) => Result::Ok(PpAst::new_file(frags)),
            Result::Err(e) => Result::Err(e),
        }
    }

    /// Parse a cached file's text into a preprocessor file node.
    pub fn from_source_file(file: &CachedFile) -> (r: Result<PpAst, ErlError>)
        ensures
            plain_from(file.text@, 0) ==> (r matches Result::Ok(f) && (f@
                matches PpModel::File(nodes) && render_output(nodes) == file.text@
                && texts_only_plain(nodes))),
    {
        Self::from_source(file.text.as_str())
    }

    /// Interpret a parsed file node: resolve conditionals against the
    /// evolving scope, substitute macros in text, inline includes, and
    /// report collected `-error(...)` directives together. The resolved
    /// fragments are clean: only text and included files survive; and
    /// fragments free of conditionals and includes interpret by plain
    /// left-to-right folding of the scope.
    pub fn interpret_pp_ast(&mut self, ast: &PpAst, including: &str) -> (r: Result<
        Vec<PpAst>,
        ErlError,
    >)
        ensures
            r matches Result::Ok(out) ==> output_clean(pps_view(out@)),
            final(self).file_cache@ == old(self).file_cache@,
            ast@ matches PpModel::File(nodes) ==> (simple_nodes(nodes) ==> ({
                let msgs = simple_errs(nodes, old(self).scope@);
                &&& final(self).scope@ == simple_defs(nodes, old(self).scope@)
                &&& (msgs.len() == 0 ==> (r matches Result::Ok(out) && pps_view(out@)
                    == simple_out(nodes, old(self).scope@)))
                &&& (msgs.len() != 0 ==> (r matches Result::Err(e) && e@ == ErrModel::Multiple(
                    preprocessor_errs(msgs),
                )))
            })),
    {
        let nodes: &Vec<PpAst> = match ast {
            PpAst::File(nodes) => nodes,
            _ => {
                return Result::Err(
                    ErlError::internal(String::from_str("interpretation expects a file node")),
                );
            },
        };
        let mut out: Vec<PpAst> = Vec::new();
        let mut errors: Vec<ErlError> = Vec::new();
        let ghost defs0 = self.scope@;
        proof {
            lemma_pps_view(nodes@);
            lemma_errs_view(errors@);
            assert(errs_view(errors@) =~= Seq::<ErrModel>::empty());
        }
        match interpret_fragments(&self.file_cache, &mut self.scope, nodes, including,
            INCLUDE_DEPTH, &mut out, &mut errors) {
            Result::Ok(()) => {},
            Result::Err(e) => {
                proof {
                    if ast@ is File && simple_nodes(ast@->File_0) {
                        assert(false);
                    }
                }
                return Result::Err(e);
            },
        }
        proof {
            assert(pps_view(out@).skip(0) =~= pps_view(out@));
            lemma_errs_view(errors@);
            if ast@ is File && simple_nodes(ast@->File_0) {
                let ns = ast@->File_0;
                let msgs = simple_errs(ns, defs0);
                lemma_preprocessor_errs_len(msgs);
                assert(Seq::<ErrModel>::empty() + preprocessor_errs(msgs) =~= preprocessor_errs(
                    msgs,
                ));
                assert(errs_view(errors@) == preprocessor_errs(msgs));
                assert(errors@.len() == msgs.len());
            }
        }
        if errors.len() > 0 {
            return Result::Err(ErlError::multiple(errors));
        }
        Result::Ok(out)
    }

    /// Preprocess source text under the stage's scope: parse, interpret
    /// and render. Re-running the stage on already-preprocessed,
    /// directive-free text yields that text unchanged, whatever the
    /// scope holds.
    pub fn preprocess_source(&mut self, input: &str) -> (r: Result<String, ErlError>)
        ensures
            plain_from(input@, 0) ==> (r matches Result::Ok(out) && out@ == input@),
            final(self).file_cache@ == old(self).file_cache@,
    {
        self.preprocess_source_of(input, "")
    }

    /// Preprocess source text that came from the named file: relative
    /// include paths resolve against that file's directory.
    pub fn preprocess_source_of(&mut self, input: &str, including: &str) -> (r: Result<
        String,
        ErlError,
    >)
        ensures
            plain_from(input@, 0) ==> (r matches Result::Ok(out) && out@ == input@),
            final(self).file_cache@ == old(self).file_cache@,
    {
        let ast = match Self::from_source(input) {
            Result::Ok(a) => a,
            Result::Err(e) => {
                return Result::Err(e);
            },
        };
        let ghost scope0 = self.scope@;
        proof {
            if plain_from(input@, 0) {
                let nodes = ast@->File_0;
                lemma_plain_is_simple(nodes);
                lemma_simple_out_plain(nodes, scope0);
            }
        }
        let resolved = match self.interpret_pp_ast(&ast, including) {
            Result::Ok(out) => out,
            Result::Err(e) => {
                return Result::Err(e);
            },
        };
        proof {
            if plain_from(input@, 0) {
                let nodes = ast@->File_0;
                lemma_render_plain(nodes, scope0);
            }
        }
        let rendered = render_fragments(&resolved);
        Result::Ok(rendered)
    }

    /// Preprocess one cached file: load its text, run the stage, store
    /// the output back into the cache, and return the output, which a
    /// later lookup of the same path also sees. A cached directive-free
    /// text comes back unchanged; an error leaves the cache as it was.
    pub fn preprocess_file(&mut self, file_name: &str) -> (r: Result<String, ErlError>)
        ensures
            r matches Result::Ok(out) ==> crate::file_cache::cache_lookup(
                final(self).file_cache@,
                file_name@,
            ) == Option::Some(out@),
            r is Err ==> final(self).file_cache@ == old(self).file_cache@,
            crate::file_cache::cache_lookup(old(self).file_cache@, file_name@)
                matches Option::Some(t) ==> (plain_from(t, 0) ==> (r matches Result::Ok(out)
                && out@ == t)),
    {
        let text = match self.file_cache.get_or_load(file_name) {
            Result::Ok(t) => t,
            Result::Err(e) => {
                return Result::Err(e);
            },
        };
        let output = match self.preprocess_source_of(text.as_str(), file_name) {
            Result::Ok(o) => o,
            Result::Err(e) => {
                return Result::Err(e);
            },
        };
        self.file_cache.update_source_text(file_name, output.clone());
        Result::Ok(output)
    }

    /// Preprocess every cached file whose name carries the source or
    /// header suffix, in the order given; the first fatal error stops
    /// the run. Returns how many files were preprocessed, at most all of
    /// them.
    pub fn run(&mut self, files: &Vec<String>) -> (r: Result<usize, ErlError>)
        ensures
            r matches Result::Ok(count) ==> count <= files@.len(),
    {
        let n = files.len();
        let mut count: usize = 0;
        let mut i: usize = 0;
        while i < n
            invariant
                n == files.len(),
                0 <= i <= n,
                count <= i,
            decreases n - i,
        {
            if crate::stage::has_source_suffix(files[i].as_str()) {
                match self.preprocess_file(files[i].as_str()) {
                    Result::Ok(_) => {},
                    Result::Err(e) => {
                        return Result::Err(e);
                    },
                }
                count = count + 1;
            }
            i = i + 1;
        }
        Result::Ok(count)
    }
}

/// The directory prefix of a path: everything up to and including its
/// last slash, empty when it has none.
pub open spec fn dir_of(path: Seq<char>) -> Seq<char>
    decreases path,
{
    if path.len() == 0 {
        Seq::empty()
    } else if path.last() == '/' {
        path
    } else {
        dir_of(path.drop_last())
    }
}

/// Where an include path points: an absolute path as it stands, a
/// relative one against the including file's directory.
pub open spec fn resolved_include(path: Seq<char>, including: Seq<char>) -> Seq<char> {
    if path.len() > 0 && path[0] == '/' {
        path
    } else {
        dir_of(including) + path
    }
}

/// Resolve an include path against the including file's path, per
/// [`resolved_include`].
fn resolve_include_path(path: &str, including: &str) -> (r: String)
    ensures
        r@ == resolved_include(path@, including@),
{
    let n = path.unicode_len();
    if n > 0 && path.get_char(0) == '/' {
        return path.to_owned();
    }
    let m = including.unicode_len();
    proof {
        assert(including@.take(m as int) =~= including@);
        assert(dir_of(including@) == dir_of(including@.take(m as int)));
    }
    let mut cut: usize = m;
    while cut > 0 && including.get_char(cut - 1) != '/'
        invariant
            0 <= cut <= m,
            m == including@.len(),
            dir_of(including@) == dir_of(including@.take(cut as int)),
        decreases cut,
    {
        proof {
            assert(including@.take(cut as int).last() == including@[cut - 1]);
            assert(including@.take(cut as int).drop_last() =~= including@.take(cut as int - 1));
        }
        cut = cut - 1;
    }
    proof {
        if cut > 0 {
            assert(including@.take(cut as int).last() == including@[cut - 1]);
            assert(dir_of(including@.take(cut as int)) == including@.take(cut as int));
        } else {
            assert(including@.take(0) =~= Seq::<char>::empty());
        }
    }
    let mut out = crate::token_stream::substring_of(including, 0, cut);
    out.append(path);
    out
}

/// `preprocessor_errs` distributes over concatenation.
proof fn lemma_preprocessor_errs_concat(a: Seq<Seq<char>>, b: Seq<Seq<char>>)
    ensures
        preprocessor_errs(a + b) == preprocessor_errs(a) + preprocessor_errs(b),
    decreases a.len(),
{
    if a.len() == 0 {
        assert(a + b =~= b);
        assert(preprocessor_errs(a) =~= Seq::<ErrModel>::empty());
        assert(preprocessor_errs(a) + preprocessor_errs(b) =~= preprocessor_errs(b));
    } else {
        assert((a + b)[0] == a[0]);
        assert((a + b).drop_first() =~= a.drop_first() + b);
        lemma_preprocessor_errs_concat(a.drop_first(), b);
        assert(preprocessor_errs(a + b) =~= seq![
            ErrModel::Preprocessor { loc: SourceLoc::Unknown, message: a[0] },
        ] + (preprocessor_errs(a.drop_first()) + preprocessor_errs(b)));
        assert(preprocessor_errs(a) + preprocessor_errs(b) =~= seq![
            ErrModel::Preprocessor { loc: SourceLoc::Unknown, message: a[0] },
        ] + (preprocessor_errs(a.drop_first()) + preprocessor_errs(b)));
    }
}

/// `preprocessor_errs` keeps the message count.
proof fn lemma_preprocessor_errs_len(msgs: Seq<Seq<char>>)
    ensures
        preprocessor_errs(msgs).len() == msgs.len(),
    decreases msgs.len(),
{
    if msgs.len() > 0 {
        lemma_preprocessor_errs_len(msgs.drop_first());
    }
}

/// Interpret fragments into `out`, collecting reportable errors; the
/// positions already in `out` stay, everything appended is resolved
/// output, and steady fragments — text, comments, scope edits, error
/// and warning directives, and conditionals on macro names — fold the
/// scope left to right with exactly one branch of each conditional
/// spliced in place, per [`simple_out`], [`simple_defs`] and
/// [`simple_errs`].
#[verifier::rlimit(60)]
fn interpret_fragments(
    cache: &FileCacheImpl,
    scope: &mut ParserScopeImpl,
    nodes: &Vec<PpAst>,
    including: &str,
    fuel: u32,
    out: &mut Vec<PpAst>,
    errors: &mut Vec<ErlError>,
) -> (r: Result<(), ErlError>)
    ensures
        final(out)@.len() >= old(out)@.len(),
        forall|j: int| 0 <= j < old(out)@.len() ==> final(out)@[j] == old(out)@[j],
        r matches Result::Ok(_) ==> output_clean(
            pps_view(final(out)@).skip(old(out)@.len() as int),
        ),
        simple_nodes(pps_view(nodes@)) ==> (r matches Result::Ok(_) && pps_view(final(out)@)
            == pps_view(old(out)@) + simple_out(pps_view(nodes@), old(scope)@) && final(scope)@
            == simple_defs(pps_view(nodes@), old(scope)@) && errs_view(final(errors)@)
            == errs_view(old(errors)@) + preprocessor_errs(
            simple_errs(pps_view(nodes@), old(scope)@),
        )),
    decreases fuel, nodes@,
{
    let n = nodes.len();
    let ghost nv = pps_view(nodes@);
    let ghost simp = simple_nodes(nv);
    let ghost base = old(out)@.len() as int;
    let ghost out0 = pps_view(old(out)@);
    let ghost defs0 = old(scope)@;
    let ghost errs0 = errs_view(old(errors)@);
    proof {
        lemma_pps_view(nodes@);
        lemma_pps_view(out@);
        assert(out0.len() == old(out)@.len());
        assert(pps_view(out@).skip(base) =~= Seq::<PpModel>::empty());
        if simp {
            assert(nv.skip(0) =~= nv);
        }
    }
    let mut i: usize = 0;
    while i < n
        invariant
            n == nodes.len(),
            0 <= i <= n,
            nv == pps_view(nodes@),
            simp == simple_nodes(nv),
            nv.len() == nodes@.len(),
            forall|k: int| 0 <= k < nodes@.len() ==> nv[k] == nodes@[k]@,
            out@.len() >= old(out)@.len(),
            forall|j: int| 0 <= j < old(out)@.len() ==> out@[j] == old(out)@[j],
            base == old(out)@.len() as int,
            out0 == pps_view(old(out)@),
            defs0 == old(scope)@,
            errs0 == errs_view(old(errors)@),
            pps_view(out@).len() == out@.len(),
            forall|k: int| 0 <= k < out@.len() ==> pps_view(out@)[k] == out@[k]@,
            output_clean(pps_view(out@).skip(base)),
            simp ==> (pps_view(out@).skip(base) + simple_out(nv.skip(i as int), scope@)
                == simple_out(nv, defs0) && simple_defs(nv.skip(i as int), scope@) == simple_defs(
                nv,
                defs0,
            ) && errs_view(errors@) + preprocessor_errs(simple_errs(nv.skip(i as int), scope@))
                == errs0 + preprocessor_errs(simple_errs(nv, defs0))),
        decreases n - i,
    {
        let ghost rest = nv.skip(i as int);
        let ghost added0 = pps_view(out@).skip(base);
        let ghost defs_a = scope@;
        proof {
            assert(rest.len() > 0);
            assert(nv[i as int] == nodes@[i as int]@);
            assert(rest[0] == nv[i as int]);
            assert(rest.drop_first() =~= nv.skip(i as int + 1));
            if simp {
                lemma_simple_nodes(nv);
                assert(simple_node(nv[i as int]));
            }
        }
        match &nodes[i] {
            PpAst::Text(t) => {
                let substituted = substitute_macros(t.as_str(), scope);
                let node = PpAst::Text(substituted);
                proof {
                    assert(node@ == PpModel::Text(subst_model(t@, defs_a)));
                }
                push_clean_text(out, node, Ghost(base));
                proof {
                    if simp {
                        assert(pps_view(out@).skip(base) =~= added0.push(
                            PpModel::Text(subst_model(t@, defs_a)),
                        ));
                        assert(simple_step_out(rest[0], defs_a) =~= seq![
                            PpModel::Text(subst_model(t@, defs_a)),
                        ]);
                        assert(simple_step_defs(rest[0], defs_a) == defs_a);
                        assert(simple_step_errs(rest[0], defs_a) =~= Seq::<Seq<char>>::empty());
                        assert(added0.push(PpModel::Text(subst_model(t@, defs_a)))
                            + simple_out(nv.skip(i as int + 1), defs_a) =~= added0 + (seq![
                            PpModel::Text(subst_model(t@, defs_a)),
                        ] + simple_out(nv.skip(i as int + 1), defs_a)));
                        assert(simple_errs(rest, defs_a) =~= simple_errs(
                            nv.skip(i as int + 1),
                            defs_a,
                        ));
                    }
                }
            },
            PpAst::Comment(_) => {
                proof {
                    if simp {
                        assert(simple_step_out(rest[0], defs_a) =~= Seq::<PpModel>::empty());
                        assert(simple_step_defs(rest[0], defs_a) == defs_a);
                        assert(simple_step_errs(rest[0], defs_a) =~= Seq::<Seq<char>>::empty());
                        assert(added0 + (Seq::<PpModel>::empty() + simple_out(
                            nv.skip(i as int + 1),
                            defs_a,
                        )) =~= added0 + simple_out(nv.skip(i as int + 1), defs_a));
                        assert(simple_errs(rest, defs_a) =~= simple_errs(
                            nv.skip(i as int + 1),
                            defs_a,
                        ));
                    }
                }
            },
            PpAst::Define(name, body) => {
                let args: Vec<String> = Vec::new();
                proof {
                    crate::erl_ast::lemma_strings_view(args@);
                    assert(crate::erl_ast::strings_view(args@) =~= Seq::<Seq<char>>::empty());
                }
                scope.define(name.as_str(), args, body.as_str());
                proof {
                    if simp {
                        assert(scope@ == simple_step_defs(rest[0], defs_a));
                        assert(simple_step_out(rest[0], defs_a) =~= Seq::<PpModel>::empty());
                        assert(simple_step_errs(rest[0], defs_a) =~= Seq::<Seq<char>>::empty());
                        assert(Seq::<PpModel>::empty() + simple_out(nv.skip(i as int + 1), scope@)
                            =~= simple_out(nv.skip(i as int + 1), scope@));
                        assert(simple_errs(rest, defs_a) =~= simple_errs(
                            nv.skip(i as int + 1),
                            scope@,
                        ));
                    }
                }
            },
            PpAst::DefineFun { name, args, body } => {
                let cloned = crate::pp_scope::clone_strings(args);
                scope.define(name.as_str(), cloned, body.as_str());
                proof {
                    if simp {
                        assert(scope@ == simple_step_defs(rest[0], defs_a));
                        assert(simple_step_out(rest[0], defs_a) =~= Seq::<PpModel>::empty());
                        assert(simple_step_errs(rest[0], defs_a) =~= Seq::<Seq<char>>::empty());
                        assert(Seq::<PpModel>::empty() + simple_out(nv.skip(i as int + 1), scope@)
                            =~= simple_out(nv.skip(i as int + 1), scope@));
                        assert(simple_errs(rest, defs_a) =~= simple_errs(
                            nv.skip(i as int + 1),
                            scope@,
                        ));
                    }
                }
            },
            PpAst::Undef(name) => {
                scope.undef(name.as_str());
                proof {
                    if simp {
                        assert(scope@ == simple_step_defs(rest[0], defs_a));
                        assert(simple_step_out(rest[0], defs_a) =~= Seq::<PpModel>::empty());
                        assert(simple_step_errs(rest[0], defs_a) =~= Seq::<Seq<char>>::empty());
                        assert(Seq::<PpModel>::empty() + simple_out(nv.skip(i as int + 1), scope@)
                            =~= simple_out(nv.skip(i as int + 1), scope@));
                        assert(simple_errs(rest, defs_a) =~= simple_errs(
                            nv.skip(i as int + 1),
                            scope@,
                        ));
                    }
                }
            },
            PpAst::Error(msg) => {
                let e = ErlError::preprocessor(SourceLoc::Unknown, msg.clone());
                let ghost old_errs = errors@;
                errors.push(e);
                proof {
                    if simp {
                        lemma_errs_view(old_errs);
                        lemma_errs_view(errors@);
                        assert(errors@ == old_errs.push(errors@[errors@.len() - 1]));
                        let target = ErrModel::Preprocessor {
                            loc: SourceLoc::Unknown,
                            message: msg@,
                        };
                        assert forall|k: int|
                            0 <= k < errors@.len() implies errs_view(errors@)[k] == errs_view(
                            old_errs,
                        ).push(target)[k] by {
                            if k < old_errs.len() {
                                assert(errors@[k] == old_errs[k]);
                                assert(errs_view(old_errs)[k] == old_errs[k]@);
                            }
                        }
                        assert(errs_view(errors@) =~= errs_view(old_errs).push(target));
                        assert(simple_step_errs(rest[0], defs_a) =~= seq![msg@]);
                        assert(seq![msg@].drop_first() =~= Seq::<Seq<char>>::empty());
                        assert(preprocessor_errs(Seq::<Seq<char>>::empty())
                            =~= Seq::<ErrModel>::empty());
                        assert(preprocessor_errs(seq![msg@]) =~= seq![target]
                            + Seq::<ErrModel>::empty());
                        assert(seq![target] + Seq::<ErrModel>::empty() =~= seq![target]);
                        lemma_preprocessor_errs_concat(
                            seq![msg@],
                            simple_errs(nv.skip(i as int + 1), defs_a),
                        );
                        assert(seq![msg@] + simple_errs(nv.skip(i as int + 1), defs_a)
                            =~= simple_errs(rest, defs_a));
                        assert(errs_view(old_errs).push(target) + preprocessor_errs(
                            simple_errs(nv.skip(i as int + 1), defs_a),
                        ) =~= errs_view(old_errs) + (seq![target] + preprocessor_errs(
                            simple_errs(nv.skip(i as int + 1), defs_a),
                        )));
                        assert(simple_step_out(rest[0], defs_a) =~= Seq::<PpModel>::empty());
                        assert(simple_step_defs(rest[0], defs_a) == defs_a);
                        assert(added0 + (Seq::<PpModel>::empty() + simple_out(
                            nv.skip(i as int + 1),
                            defs_a,
                        )) =~= added0 + simple_out(nv.skip(i as int + 1), defs_a));
                    }
                }
            },
            PpAst::Warning(_) => {
                proof {
                    if simp {
                        assert(simple_step_out(rest[0], defs_a) =~= Seq::<PpModel>::empty());
                        assert(simple_step_defs(rest[0], defs_a) == defs_a);
                        assert(simple_step_errs(rest[0], defs_a) =~= Seq::<Seq<char>>::empty());
                        assert(added0 + (Seq::<PpModel>::empty() + simple_out(
                            nv.skip(i as int + 1),
                            defs_a,
                        )) =~= added0 + simple_out(nv.skip(i as int + 1), defs_a));
                        assert(simple_errs(rest, defs_a) =~= simple_errs(
                            nv.skip(i as int + 1),
                            defs_a,
                        ));
                    }
                }
            },
            PpAst::IfdefBlock { macro_name, cond_true, cond_false } => {
                let taken = scope.is_defined(macro_name.as_str());
                let branch: &Vec<PpAst> = if taken {
                    cond_true
                } else {
                    cond_false
                };
                let ghost branchv = pps_view(branch@);
                proof {
                    if simp {
                        assert(nv[i as int] == (PpModel::IfdefBlock {
                            macro_name: macro_name@,
                            cond_true: pps_view(cond_true@),
                            cond_false: pps_view(cond_false@),
                        }));
                        assert(branchv == chosen_branch(nv[i as int], defs_a));
                        assert(simple_nodes(branchv));
                    }
                }
                let ghost mark = out@.len() as int;
                let ghost prev_out = out@;
                let ghost errs_before = errs_view(errors@);
                match interpret_fragments(cache, scope, branch, including, fuel, out, errors) {
                    Result::Ok(()) => {},
                    Result::Err(e) => {
                        return Result::Err(e);
                    },
                }
                proof {
                    extend_clean_after_branch(prev_out, out@, base, mark);
                    if simp {
                        assert(pps_view(out@).skip(base) =~= added0 + simple_out(
                            branchv,
                            defs_a,
                        ));
                        assert(simple_step_out(rest[0], defs_a) == simple_out(branchv, defs_a));
                        assert(scope@ == simple_step_defs(rest[0], defs_a));
                        assert((added0 + simple_out(branchv, defs_a)) + simple_out(
                            nv.skip(i as int + 1),
                            scope@,
                        ) =~= added0 + (simple_out(branchv, defs_a) + simple_out(
                            nv.skip(i as int + 1),
                            scope@,
                        )));
                        assert(simple_step_errs(rest[0], defs_a) == simple_errs(branchv, defs_a));
                        lemma_preprocessor_errs_concat(
                            simple_errs(branchv, defs_a),
                            simple_errs(nv.skip(i as int + 1), scope@),
                        );
                        assert(simple_errs(branchv, defs_a) + simple_errs(
                            nv.skip(i as int + 1),
                            scope@,
                        ) =~= simple_errs(rest, defs_a));
                        assert((errs_before + preprocessor_errs(simple_errs(branchv, defs_a)))
                            + preprocessor_errs(simple_errs(nv.skip(i as int + 1), scope@))
                            =~= errs_before + (preprocessor_errs(simple_errs(branchv, defs_a))
                            + preprocessor_errs(simple_errs(nv.skip(i as int + 1), scope@))));
                    }
                }
            },
            PpAst::IfndefBlock { macro_name, cond_true, cond_false } => {
                let taken = !scope.is_defined(macro_name.as_str());
                let branch: &Vec<PpAst> = if taken {
                    cond_true
                } else {
                    cond_false
                };
                let ghost branchv = pps_view(branch@);
                proof {
                    if simp {
                        assert(nv[i as int] == (PpModel::IfndefBlock {
                            macro_name: macro_name@,
                            cond_true: pps_view(cond_true@),
                            cond_false: pps_view(cond_false@),
                        }));
                        assert(branchv == chosen_branch(nv[i as int], defs_a));
                        assert(simple_nodes(branchv));
                    }
                }
                let ghost mark = out@.len() as int;
                let ghost prev_out = out@;
                let ghost errs_before = errs_view(errors@);
                match interpret_fragments(cache, scope, branch, including, fuel, out, errors) {
                    Result::Ok(()) => {},
                    Result::Err(e) => {
                        return Result::Err(e);
                    },
                }
                proof {
                    extend_clean_after_branch(prev_out, out@, base, mark);
                    if simp {
                        assert(pps_view(out@).skip(base) =~= added0 + simple_out(
                            branchv,
                            defs_a,
                        ));
                        assert(simple_step_out(rest[0], defs_a) == simple_out(branchv, defs_a));
                        assert(scope@ == simple_step_defs(rest[0], defs_a));
                        assert((added0 + simple_out(branchv, defs_a)) + simple_out(
                            nv.skip(i as int + 1),
                            scope@,
                        ) =~= added0 + (simple_out(branchv, defs_a) + simple_out(
                            nv.skip(i as int + 1),
                            scope@,
                        )));
                        assert(simple_step_errs(rest[0], defs_a) == simple_errs(branchv, defs_a));
                        lemma_preprocessor_errs_concat(
                            simple_errs(branchv, defs_a),
                            simple_errs(nv.skip(i as int + 1), scope@),
                        );
                        assert(simple_errs(branchv, defs_a) + simple_errs(
                            nv.skip(i as int + 1),
                            scope@,
                        ) =~= simple_errs(rest, defs_a));
                        assert((errs_before + preprocessor_errs(simple_errs(branchv, defs_a)))
                            + preprocessor_errs(simple_errs(nv.skip(i as int + 1), scope@))
                            =~= errs_before + (preprocessor_errs(simple_errs(branchv, defs_a))
                            + preprocessor_errs(simple_errs(nv.skip(i as int + 1), scope@))));
                    }
                }
            },
            PpAst::IfBlock { cond, cond_true, cond_false } => {
                proof {
                    if simp {
                        assert(!simple_node(nv[i as int]));
                        assert(false);
                    }
                }
                let parsed = ErlModuleImpl::parse_helper(
                    String::from_str("preprocessor condition"),
                    cond.as_str(),
                    ParseEntry::ExprSource,
                );
                let module = match parsed {
                    Result::Ok(m) => m,
                    Result::Err(_) => {
                        return Result::Err(
                            ErlError::preprocessor(
                                SourceLoc::Unknown,
                                String::from_str("condition does not parse"),
                            ),
                        );
                    },
                };
                let truth = match module.ast.walk_boolean_litexpr() {
                    LiteralBool::True => true,
                    LiteralBool::False => false,
                    LiteralBool::NotABoolean => {
                        return Result::Err(
                            ErlError::preprocessor(
                                SourceLoc::Unknown,
                                String::from_str("condition is not a literal boolean"),
                            ),
                        );
                    },
                };
                let branch: &Vec<PpAst> = if truth {
                    cond_true
                } else {
                    cond_false
                };
                let ghost mark = out@.len() as int;
                let ghost prev_out = out@;
                match interpret_fragments(cache, scope, branch, including, fuel, out, errors) {
                    Result::Ok(()) => {},
                    Result::Err(e) => {
                        return Result::Err(e);
                    },
                }
                proof {
                    extend_clean_after_branch(prev_out, out@, base, mark);
                }
            },
            PpAst::Include(path) | PpAst::IncludeLib(path) => {
                proof {
                    if simp {
                        assert(!simple_node(nv[i as int]));
                        assert(false);
                    }
                }
                if fuel == 0 {
                    return Result::Err(
                        ErlError::preprocessor(
                            SourceLoc::Unknown,
                            String::from_str("includes nest too deeply"),
                        ),
                    );
                }
                let resolved = resolve_include_path(path.as_str(), including);
                match cache.get_or_load(resolved.as_str()) {
                    Result::Err(e) => {
                        errors.push(e);
                    },
                    Result::Ok(text) => {
                        match PpParser::parse_module(text.as_str()) {
                            Result::Err(e) => {
                                errors.push(e);
                            },
                            Result::Ok(frags) => {
                                let mut nested: Vec<PpAst> = Vec::new();
                                proof {
                                    lemma_pps_view(nested@);
                                    assert(pps_view(nested@).skip(0)
                                        =~= Seq::<PpModel>::empty());
                                }
                                match interpret_fragments(cache, scope, &frags,
                                    resolved.as_str(), fuel - 1, &mut nested, errors) {
                                    Result::Ok(()) => {},
                                    Result::Err(e) => {
                                        return Result::Err(e);
                                    },
                                }
                                proof {
                                    assert(pps_view(nested@).skip(0) =~= pps_view(nested@));
                                }
                                let node = PpAst::IncludedFile {
                                    filename: resolved.clone(),
                                    nested,
                                };
                                let ghost oldv = out@;
                                out.push(node);
                                proof {
                                    lemma_pps_view(oldv);
                                    lemma_pps_view(out@);
                                    assert(out@ == oldv.push(out@[out@.len() - 1]));
                                    lemma_clean_push_views(oldv, out@, base);
                                }
                            },
                        }
                    },
                }
            },
            _ => {
                proof {
                    if simp {
                        assert(!simple_node(nv[i as int]));
                        assert(false);
                    }
                }
                return Result::Err(
                    ErlError::internal(
                        String::from_str("a transient marker reached interpretation"),
                    ),
                );
            },
        }
        i = i + 1;
    }
    proof {
        if simp {
            assert(nv.skip(n as int) =~= Seq::<PpModel>::empty());
            assert(simple_out(nv.skip(n as int), scope@) =~= Seq::<PpModel>::empty());
            assert(pps_view(out@).skip(base) + Seq::<PpModel>::empty() =~= pps_view(
                out@,
            ).skip(base));
            assert(simple_defs(nv.skip(n as int), scope@) == scope@);
            assert(simple_errs(nv.skip(n as int), scope@) =~= Seq::<Seq<char>>::empty());
            assert(preprocessor_errs(Seq::<Seq<char>>::empty()) =~= Seq::<ErrModel>::empty());
            assert(errs_view(errors@) + Seq::<ErrModel>::empty() =~= errs_view(errors@));
            assert(pps_view(out@) =~= out0 + pps_view(out@).skip(base));
        }
    }
    Result::Ok(())
}

/// After a branch appended a clean run, the whole appended suffix is
/// clean and untouched positions kept their nodes.
proof fn extend_clean_after_branch(prev: Seq<PpAst>, cur: Seq<PpAst>, base: int, mark: int)
    requires
        0 <= base <= mark <= prev.len() <= cur.len(),
        mark == prev.len(),
        forall|j: int| 0 <= j < prev.len() ==> cur[j] == prev[j],
        output_clean(pps_view(prev).skip(base)),
        output_clean(pps_view(cur).skip(mark)),
    ensures
        output_clean(pps_view(cur).skip(base)),
        pps_view(cur).len() == cur.len(),
        forall|k: int| 0 <= k < cur.len() ==> pps_view(cur)[k] == cur[k]@,
        pps_view(cur).skip(base) == pps_view(prev).skip(base) + pps_view(cur).skip(mark),
{
    lemma_pps_view(prev);
    lemma_pps_view(cur);
    assert(pps_view(cur).skip(base).take(mark - base) =~= pps_view(prev).skip(base));
    lemma_clean_concat(pps_view(cur).skip(base).take(mark - base), pps_view(cur).skip(mark));
    assert(pps_view(cur).skip(base) =~= pps_view(cur).skip(base).take(mark - base) + pps_view(
        cur,
    ).skip(mark));
}

/// Push a text node, keeping the appended suffix clean and its views in
/// step.
fn push_clean_text(out: &mut Vec<PpAst>, node: PpAst, Ghost(base): Ghost<int>)
    requires
        0 <= base <= old(out)@.len(),
        output_clean(pps_view(old(out)@).skip(base)),
        node@ is Text,
    ensures
        final(out)@ == old(out)@.push(node),
        output_clean(pps_view(final(out)@).skip(base)),
        pps_view(final(out)@) == pps_view(old(out)@).push(node@),
{
    let ghost oldv = out@;
    out.push(node);
    proof {
        lemma_pps_view(oldv);
        lemma_pps_view(out@);
        assert forall|k: int| 0 <= k < out@.len() implies pps_view(out@)[k] == pps_view(
            oldv,
        ).push(out@[out@.len() - 1]@)[k] by {
            if k < oldv.len() {
                assert(out@[k] == oldv[k]);
            }
        }
        assert(pps_view(out@) =~= pps_view(oldv).push(out@[out@.len() - 1]@));
        assert(pps_view(out@).skip(base) =~= pps_view(oldv).skip(base).push(
            out@[out@.len() - 1]@,
        ));
        lemma_clean_push(pps_view(oldv).skip(base), out@[out@.len() - 1]@);
    }
}

/// A clean suffix stays clean when a clean node is appended.
proof fn lemma_clean_push(nodes: Seq<PpModel>, m: PpModel)
    requires
        output_clean(nodes),
        match m {
            PpModel::Text(_) => true,
            PpModel::IncludedFile { nested, .. } => output_clean(nested),
            _ => false,
        },
    ensures
        output_clean(nodes.push(m)),
    decreases nodes.len(),
{
    let pushed = nodes.push(m);
    if nodes.len() == 0 {
        assert(pushed[0] == m);
        assert(pushed.drop_first() =~= Seq::<PpModel>::empty());
        assert(output_clean(pushed.drop_first()));
        assert(output_clean(pushed));
    } else {
        assert(pushed[0] == nodes[0]);
        assert(pushed.drop_first() =~= nodes.drop_first().push(m));
        lemma_clean_push(nodes.drop_first(), m);
        assert(output_clean(pushed.drop_first()));
        assert(output_clean(pushed));
    }
}

/// Bridge from a vector push to the cleanliness of the viewed suffix.
proof fn lemma_clean_push_views(oldv: Seq<PpAst>, newv: Seq<PpAst>, base: int)
    requires
        newv == oldv.push(newv[newv.len() - 1]),
        newv.len() == oldv.len() + 1,
        0 <= base <= oldv.len(),
        output_clean(pps_view(oldv).skip(base)),
        match newv[newv.len() - 1]@ {
            PpModel::Text(_) => true,
            PpModel::IncludedFile { nested, .. } => output_clean(nested),
            _ => false,
        },
    ensures
        output_clean(pps_view(newv).skip(base)),
{
    lemma_pps_view(oldv);
    lemma_pps_view(newv);
    assert forall|k: int| 0 <= k < newv.len() implies pps_view(newv)[k] == pps_view(oldv).push(
        newv[newv.len() - 1]@,
    )[k] by {
        if k < oldv.len() {
            assert(newv[k] == oldv[k]);
        }
    }
    assert(pps_view(newv) =~= pps_view(oldv).push(newv[newv.len() - 1]@));
    assert(pps_view(newv).skip(base) =~= pps_view(oldv).skip(base).push(
        newv[newv.len() - 1]@,
    ));
    lemma_clean_push(pps_view(oldv).skip(base), newv[newv.len() - 1]@);
}

/// Concatenation preserves cleanliness.
proof fn lemma_clean_concat(a: Seq<PpModel>, b: Seq<PpModel>)
    requires
        output_clean(a),
        output_clean(b),
    ensures
        output_clean(a + b),
    decreases a.len(),
{
    if a.len() == 0 {
        assert(a + b =~= b);
    } else {
        assert((a + b)[0] == a[0]);
        assert((a + b).drop_first() =~= a.drop_first() + b);
        lemma_clean_concat(a.drop_first(), b);
    }
}

} // verus!
