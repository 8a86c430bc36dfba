//! The preprocessor syntax tree: text fragments and directives.
//!
//! The `If`/`Elif`/`Ifdef`/`Ifndef`/`Else`/`Endif` variants are
//! transient: the fragment parser pairs them into the structured
//! `IfBlock`/`IfdefBlock`/`IfndefBlock` forms, and interpretation
//! removes those too, so neither kind ever survives into resolved
//! output ([`output_clean`]).

use vstd::prelude::*;

use crate::erl_ast::strings_view;

verus! {

/// A preprocessor syntax tree node.
#[derive(Debug)]
pub enum PpAst {
    /// Root of a preprocessed file: fragments in order.
    File(Vec<PpAst>),
    /// Plain text passed through.
    Text(String),
    /// A `%` line comment, stripped from output.
    Comment(String),
    /// `-include("path").`
    Include(String),
    /// `-include_lib("path").`
    IncludeLib(String),
    /// `-define(NAME, BODY).` or `-define(NAME).`
    Define(String, String),
    /// `-define(NAME(ARGS...), BODY).`
    DefineFun { name: String, args: Vec<String>, body: String },
    /// `-undef(NAME).`
    Undef(String),
    /// Transient `-ifdef(NAME).` marker.
    Ifdef(String),
    /// Transient `-ifndef(NAME).` marker.
    Ifndef(String),
    /// Transient `-if(EXPR).` marker with the raw condition text.
    If(String),
    /// Transient `-elif(EXPR).` marker.
    Elif(String),
    /// Transient `-else.` marker.
    Else,
    /// Transient `-endif.` marker.
    Endif,
    /// A structured conditional on a macro being defined.
    IfdefBlock { macro_name: String, cond_true: Vec<PpAst>, cond_false: Vec<PpAst> },
    /// A structured conditional on a macro being undefined.
    IfndefBlock { macro_name: String, cond_true: Vec<PpAst>, cond_false: Vec<PpAst> },
    /// A structured conditional on a constant expression.
    IfBlock { cond: String, cond_true: Vec<PpAst>, cond_false: Vec<PpAst> },
    /// `-error(TEXT).`
    Error(String),
    /// `-warning(TEXT).`
    Warning(String),
    /// An included file's fully resolved fragments.
    IncludedFile { filename: String, nested: Vec<PpAst> },
}

/// Ghost model of [`PpAst`].
#[verifier::ext_equal]
pub enum PpModel {
    /// Root of a preprocessed file.
    File(Seq<PpModel>),
    /// Plain text.
    Text(Seq<char>),
    /// A line comment.
    Comment(Seq<char>),
    /// An include directive.
    Include(Seq<char>),
    /// An include-lib directive.
    IncludeLib(Seq<char>),
    /// A plain macro definition.
    Define(Seq<char>, Seq<char>),
    /// A parameterized macro definition.
    DefineFun { name: Seq<char>, args: Seq<Seq<char>>, body: Seq<char> },
    /// A macro removal.
    Undef(Seq<char>),
    /// Transient marker.
    Ifdef(Seq<char>),
    /// Transient marker.
    Ifndef(Seq<char>),
    /// Transient marker.
    If(Seq<char>),
    /// Transient marker.
    Elif(Seq<char>),
    /// Transient marker.
    Else,
    /// Transient marker.
    Endif,
    /// A structured conditional on a macro being defined.
    IfdefBlock { macro_name: Seq<char>, cond_true: Seq<PpModel>, cond_false: Seq<PpModel> },
    /// A structured conditional on a macro being undefined.
    IfndefBlock { macro_name: Seq<char>, cond_true: Seq<PpModel>, cond_false: Seq<PpModel> },
    /// A structured conditional on a constant expression.
    IfBlock { cond: Seq<char>, cond_true: Seq<PpModel>, cond_false: Seq<PpModel> },
    /// An error directive.
    Error(Seq<char>),
    /// A warning directive.
    Warning(Seq<char>),
    /// An included file's resolved fragments.
    IncludedFile { filename: Seq<char>, nested: Seq<PpModel> },
}

/// Model of one node.
pub open spec fn pp_view(a: PpAst) -> PpModel
    decreases a,
{
    match a {
        PpAst::File(nodes) => PpModel::File(pps_view(nodes@)),
        PpAst::Text(s) => PpModel::Text(s@),
        PpAst::Comment(s) => PpModel::Comment(s@),
        PpAst::Include(s) => PpModel::Include(s@),
        PpAst::IncludeLib(s) => PpModel::IncludeLib(s@),
        PpAst::Define(n, b) => PpModel::Define(n@, b@),
        PpAst::DefineFun { name, args, body } => PpModel::DefineFun {
            name: name@,
            args: strings_view(args@),
            body: body@,
        },
        PpAst::Undef(s) => PpModel::Undef(s@),
        PpAst::Ifdef(s) => PpModel::Ifdef(s@),
        PpAst::Ifndef(s) => PpModel::Ifndef(s@),
        PpAst::If(s) => PpModel::If(s@),
        PpAst::Elif(s) => PpModel::Elif(s@),
        PpAst::Else => PpModel::Else,
        PpAst::Endif => PpModel::Endif,
        PpAst::IfdefBlock { macro_name, cond_true, cond_false } => PpModel::IfdefBlock {
            macro_name: macro_name@,
            cond_true: pps_view(cond_true@),
            cond_false: pps_view(cond_false@),
        },
        PpAst::IfndefBlock { macro_name, cond_true, cond_false } => PpModel::IfndefBlock {
            macro_name: macro_name@,
            cond_true: pps_view(cond_true@),
            cond_false: pps_view(cond_false@),
        },
        PpAst::IfBlock { cond, cond_true, cond_false } => PpModel::IfBlock {
            cond: cond@,
            cond_true: pps_view(cond_true@),
            cond_false: pps_view(cond_false@),
        },
        PpAst::Error(s) => PpModel::Error(s@),
        PpAst::Warning(s) => PpModel::Warning(s@),
        PpAst::IncludedFile { filename, nested } => PpModel::IncludedFile {
            filename: filename@,
            nested: pps_view(nested@),
        },
    }
}

/// Models of a sequence of nodes, in order.
pub open spec fn pps_view(nodes: Seq<PpAst>) -> Seq<PpModel>
    decreases nodes,
{
    if nodes.len() == 0 {
        Seq::empty()
    } else {
        seq![pp_view(nodes[0])] + pps_view(nodes.drop_first())
    }
}

impl View for PpAst {
    type V = PpModel;

    open spec fn view(&self) -> PpModel {
        pp_view(*self)
    }
}

/// `pps_view` maps the sequence pointwise.
pub proof fn lemma_pps_view(nodes: Seq<PpAst>)
    ensures
        pps_view(nodes).len() == nodes.len(),
        forall|i: int| 0 <= i < nodes.len() ==> pps_view(nodes)[i] == pp_view(nodes[i]),
    decreases nodes.len(),
{
    if nodes.len() > 0 {
        lemma_pps_view(nodes.drop_first());
        assert forall|i: int|
            0 <= i < nodes.len() implies pps_view(nodes)[i] == pp_view(nodes[i]) by {
            if i > 0 {
                assert(pps_view(nodes)[i] == pps_view(nodes.drop_first())[i - 1]);
                assert(nodes.drop_first()[i - 1] == nodes[i]);
            }
        }
    }
}

/// Resolved output holds only text and included files, whose fragments
/// are resolved in turn: no directive and no transient marker survives.
pub open spec fn output_clean(nodes: Seq<PpModel>) -> bool
    decreases nodes,
{
    if nodes.len() == 0 {
        true
    } else {
        (match nodes[0] {
            PpModel::Text(_) => true,
            PpModel::IncludedFile { nested, .. } => output_clean(nested),
            _ => false,
        }) && output_clean(nodes.drop_first())
    }
}

/// The rendered text of resolved output: text fragments and included
/// files' renderings concatenated in order.
pub open spec fn render_output(nodes: Seq<PpModel>) -> Seq<char>
    decreases nodes,
{
    if nodes.len() == 0 {
        Seq::empty()
    } else {
        (match nodes[0] {
            PpModel::Text(s) => s,
            PpModel::IncludedFile { nested, .. } => render_output(nested),
            _ => Seq::empty(),
        }) + render_output(nodes.drop_first())
    }
}

/// Whether a character is trimmed from a debug text's edges.
pub open spec fn is_trim_ws(c: char) -> bool {
    c == ' ' || c == '\t' || c == '\r' || c == '\n'
}

/// The count of trimmable characters from position `i` on.
pub open spec fn lead_ws_len(s: Seq<char>, i: int) -> int
    decreases s.len() - i,
{
    if i < 0 || i >= s.len() || !is_trim_ws(s[i]) {
        0
    } else {
        1 + lead_ws_len(s, i + 1)
    }
}

/// The count of trimmable characters backward from position `i`.
pub open spec fn trail_ws_len(s: Seq<char>, i: int) -> int
    decreases i,
{
    if i <= 0 || i > s.len() || !is_trim_ws(s[i - 1]) {
        0
    } else {
        1 + trail_ws_len(s, i - 1)
    }
}

/// The trimmed-and-clamped text: surrounding whitespace dropped, and a
/// long remainder cut to its first thirty-nine characters.
pub open spec fn trim_model(s: Seq<char>) -> Seq<char> {
    let lo = lead_ws_len(s, 0);
    let hi = s.len() - trail_ws_len(s, s.len() as int);
    if lo >= hi {
        Seq::empty()
    } else if hi - lo <= 40 {
        s.subrange(lo, hi)
    } else {
        s.subrange(lo, lo + 39)
    }
}

/// A cache of parsed preprocessor trees, keyed by file name.
pub type PpAstCache = crate::ast_cache::AstCache<PpAst>;

impl PpAstCache {
    /// An empty preprocessor tree cache.
    pub fn new() -> (r: PpAstCache)
        ensures
            r.items@.len() == 0,
    {
        crate::ast_cache::AstCache::new_empty()
    }
}

/// Executable test for [`is_trim_ws`].
fn trim_ws(c: char) -> (r: bool)
    ensures
        r == is_trim_ws(c),
{
    c == ' ' || c == '\t' || c == '\r' || c == '\n'
}

impl PpAst {
    /// Root node from fragments.
    pub fn new_file(fragments: Vec<PpAst>) -> (r: PpAst)
        ensures
            r@ == PpModel::File(pps_view(fragments@)),
    {
        PpAst::File(fragments)
    }

    /// An included-file node wrapping resolved fragments.
    pub fn new_included_file(filename: String, nested: Vec<PpAst>) -> (r: PpAst)
        ensures
            r@ == (PpModel::IncludedFile { filename: filename@, nested: pps_view(nested@) }),
    {
        PpAst::IncludedFile { filename, nested }
    }

    /// The text with surrounding whitespace trimmed, clamped for narrow
    /// debug printing, per [`trim_model`].
    pub fn trim(s: &str) -> (r: String)
        ensures
            r@ == trim_model(s@),
            r@.len() <= 40,
    {
        let n = s.unicode_len();
        let mut lo: usize = 0;
        while lo < n && trim_ws(s.get_char(lo))
            invariant
                0 <= lo <= n,
                n == s@.len(),
                lead_ws_len(s@, 0) == lo + lead_ws_len(s@, lo as int),
            decreases n - lo,
        {
            lo = lo + 1;
        }
        proof {
            assert(lead_ws_len(s@, lo as int) == 0);
        }
        let mut hi: usize = n;
        while hi > 0 && trim_ws(s.get_char(hi - 1))
            invariant
                0 <= hi <= n,
                n == s@.len(),
                trail_ws_len(s@, n as int) == (n - hi) + trail_ws_len(s@, hi as int),
            decreases hi,
        {
            hi = hi - 1;
        }
        proof {
            assert(trail_ws_len(s@, hi as int) == 0);
        }
        if lo >= hi {
            return String::new();
        }
        let upto = if hi - lo <= 40 {
            hi
        } else {
            lo + 39
        };
        crate::token_stream::substring_of(s, lo, upto)
    }

    /// Render resolved output fragments back to text, per
    /// [`render_output`]: text fragments and included files in order;
    /// anything else renders as nothing.
    pub fn to_string(&self) -> (r: String)
        ensures
            self@ matches PpModel::File(nodes) ==> r@ == render_output(nodes),
            self@ matches PpModel::Text(s) ==> r@ == s,
    {
        match self {
            PpAst::File(nodes) => render_fragments(nodes),
            PpAst::Text(s) => s.clone(),
            PpAst::IncludedFile { nested, .. } => render_fragments(nested),
            _ => String::new(),
        }
    }

    /// A short tag naming this node's kind, for debug printing.
    pub fn to_dbg_str(&self) -> (r: String) {
        match self {
            PpAst::File(_) => String::from_str("File"),
            PpAst::Text(s) => {
                let mut out = String::from_str("T(");
                out.append(PpAst::trim(s.as_str()).as_str());
                out.append(")");
                out
            },
            PpAst::Comment(s) => {
                let mut out = String::from_str("Comment(");
                out.append(PpAst::trim(s.as_str()).as_str());
                out.append(")");
                out
            },
            PpAst::Include(p) => {
                let mut out = String::from_str("Include(");
                out.append(p.as_str());
                out.append(")");
                out
            },
            PpAst::IncludeLib(p) => {
                let mut out = String::from_str("IncludeLib(");
                out.append(p.as_str());
                out.append(")");
                out
            },
            PpAst::Define(n, b) => {
                let mut out = String::from_str("Define(");
                out.append(n.as_str());
                out.append(", ");
                out.append(PpAst::trim(b.as_str()).as_str());
                out.append(")");
                out
            },
            PpAst::DefineFun { name, .. } => {
                let mut out = String::from_str("DefineFun(");
                out.append(name.as_str());
                out.append(")");
                out
            },
            PpAst::Undef(n) => {
                let mut out = String::from_str("Undef(");
                out.append(n.as_str());
                out.append(")");
                out
            },
            PpAst::Ifdef(n) => {
                let mut out = String::from_str("Ifdef(");
                out.append(n.as_str());
                out.append(")");
                out
            },
            PpAst::Ifndef(n) => {
                let mut out = String::from_str("Ifndef(");
                out.append(n.as_str());
                out.append(")");
                out
            },
            PpAst::If(c) => {
                let mut out = String::from_str("If(");
                out.append(c.as_str());
                out.append(")");
                out
            },
            PpAst::Elif(c) => {
                let mut out = String::from_str("Elif(");
                out.append(c.as_str());
                out.append(")");
                out
            },
            PpAst::Else => String::from_str("Else"),
            PpAst::Endif => String::from_str("Endif"),
            PpAst::IfdefBlock { macro_name, .. } => {
                let mut out = String::from_str("IfdefBlock(");
                out.append(macro_name.as_str());
                out.append(")");
                out
            },
            PpAst::IfndefBlock { macro_name, .. } => {
                let mut out = String::from_str("IfndefBlock(");
                out.append(macro_name.as_str());
                out.append(")");
                out
            },
            PpAst::IfBlock { cond, .. } => {
                let mut out = String::from_str("IfBlock(");
                out.append(cond.as_str());
                out.append(")");
                out
            },
            PpAst::Error(t) => {
                let mut out = String::from_str("Error(");
                out.append(PpAst::trim(t.as_str()).as_str());
                out.append(")");
                out
            },
            PpAst::Warning(t) => {
                let mut out = String::from_str("Warning(");
                out.append(PpAst::trim(t.as_str()).as_str());
                out.append(")");
                out
            },
            PpAst::IncludedFile { filename, .. } => {
                let mut out = String::from_str("include<");
                out.append(filename.as_str());
                out.append(">");
                out
            },
        }
    }
}

/// Render a fragment vector per [`render_output`].
pub fn render_fragments(nodes: &Vec<PpAst>) -> (r: String)
    ensures
        r@ == render_output(pps_view(nodes@)),
    decreases nodes@,
{
    proof {
        lemma_pps_view(nodes@);
    }
    let n = nodes.len();
    let mut out = String::new();
    proof {
        assert(pps_view(nodes@).skip(0) =~= pps_view(nodes@));
        assert(out@ + render_output(pps_view(nodes@)) =~= render_output(pps_view(nodes@)));
    }
    let mut i: usize = 0;
    while i < n
        invariant
            n == nodes.len(),
            0 <= i <= n,
            pps_view(nodes@).len() == nodes@.len(),
            forall|j: int| 0 <= j < nodes@.len() ==> pps_view(nodes@)[j] == nodes@[j]@,
            out@ + render_output(pps_view(nodes@).skip(i as int)) == render_output(
                pps_view(nodes@),
            ),
        decreases n - i,
    {
        let ghost rest = pps_view(nodes@).skip(i as int);
        proof {
            assert(rest.len() > 0);
            assert(rest[0] == pps_view(nodes@)[i as int]);
            assert(rest.drop_first() =~= pps_view(nodes@).skip(i as int + 1));
        }
        match &nodes[i] {
            PpAst::Text(s) => {
                out.append(s.as_str());
            },
            PpAst::IncludedFile { nested, .. } => {
                let piece = render_fragments(nested);
                out.append(piece.as_str());
            },
            _ => {},
        }
        i = i + 1;
        proof {
            assert(out@ + render_output(pps_view(nodes@).skip(i as int)) == render_output(
                pps_view(nodes@),
            ));
        }
    }
    proof {
        assert(pps_view(nodes@).skip(n as int) =~= Seq::<PpModel>::empty());
    }
    out
}

} // verus!
