//! The preprocessor's textual grammar: a file is a sequence of text
//! lines, `%` comment lines and `-` directives; conditional directives
//! open blocks that close at a matching `-else.`/`-endif.`.
//!
//! A `-` line whose word is not a preprocessor keyword (a module
//! attribute, say) passes through as text.

use vstd::prelude::*;

use crate::erl_type_new::str_eq;
use crate::error::ErlError;
use crate::pp_ast::PpAst;
use crate::pp_ast::PpModel;
use crate::source_loc::SourceLoc;
use crate::token_stream::name_char;
use crate::token_stream::name_start;
use crate::token_stream::substring_of;

verus! {

/// A single parsed directive or transient marker: never a file root, a
/// text fragment, a comment, a resolved include, or a structured block.
pub open spec fn is_directive_node(m: PpModel) -> bool {
    match m {
        PpModel::File(_) => false,
        PpModel::Text(_) => false,
        PpModel::Comment(_) => false,
        PpModel::IncludedFile { .. } => false,
        PpModel::IfdefBlock { .. } => false,
        PpModel::IfndefBlock { .. } => false,
        PpModel::IfBlock { .. } => false,
        _ => true,
    }
}

/// Why a fragment run stopped.
#[derive(Debug)]
pub enum PpStop {
    /// End of input.
    End,
    /// An `-else.` directive, inside a conditional block.
    ElseMark,
    /// An `-endif.` directive, inside a conditional block.
    EndifMark,
    /// An `-elif(COND).` directive with its raw condition text.
    ElifMark(String),
}

/// A preprocessor parse failure.
fn pperr(message: &str) -> (r: ErlError) {
    ErlError::preprocessor(SourceLoc::Unknown, message.to_owned())
}

/// Whether a character is inline whitespace: space, tab or carriage
/// return.
pub open spec fn is_inline_ws(c: char) -> bool {
    c == ' ' || c == '\t' || c == '\r'
}

/// Skip spaces, tabs and carriage returns from `i`.
fn skip_inline_ws(s: &str, i: usize, n: usize) -> (r: usize)
    requires
        n == s@.len(),
        i <= n,
    ensures
        i <= r <= n,
        forall|j: int| i <= j < r ==> is_inline_ws(#[trigger] s@[j]),
        r < n ==> !is_inline_ws(s@[r as int]),
{
    let mut j = i;
    while j < n
        invariant
            n == s@.len(),
            i <= j <= n,
            forall|k: int| i <= k < j ==> is_inline_ws(#[trigger] s@[k]),
        decreases n - j,
    {
        let c = s.get_char(j);
        if c == ' ' || c == '\t' || c == '\r' {
            j = j + 1;
        } else {
            return j;
        }
    }
    j
}

/// Skip all whitespace, newlines included, from `i`.
fn skip_all_ws(s: &str, i: usize, n: usize) -> (r: usize)
    requires
        n == s@.len(),
        i <= n,
    ensures
        i <= r <= n,
{
    let mut j = i;
    while j < n
        invariant
            n == s@.len(),
            i <= j <= n,
        decreases n - j,
    {
        let c = s.get_char(j);
        if c == ' ' || c == '\t' || c == '\r' || c == '\n' {
            j = j + 1;
        } else {
            return j;
        }
    }
    j
}

/// The length of the line starting at `i`: up to and including its
/// newline, or to the end of input.
pub open spec fn line_len_from(s: Seq<char>, i: int) -> int
    decreases s.len() - i,
{
    if i < 0 || i >= s.len() {
        0
    } else if s[i] == '\n' {
        1
    } else {
        1 + line_len_from(s, i + 1)
    }
}

/// `line_len_from` is positive inside the text and keeps the line in
/// bounds.
pub proof fn lemma_line_len_from(s: Seq<char>, i: int)
    requires
        0 <= i <= s.len(),
    ensures
        i < s.len() ==> 1 <= line_len_from(s, i),
        i + line_len_from(s, i) <= s.len(),
    decreases s.len() - i,
{
    if i < s.len() && s[i] != '\n' {
        lemma_line_len_from(s, i + 1);
    }
}

/// The position just past the current line: after its newline, or the
/// end of input.
fn line_end(s: &str, i: usize, n: usize) -> (r: usize)
    requires
        n == s@.len(),
        i <= n,
    ensures
        i <= r <= n,
        i < n ==> i < r,
        r == i + line_len_from(s@, i as int),
{
    proof {
        lemma_line_len_from(s@, i as int);
    }
    let mut j = i;
    while j < n
        invariant
            n == s@.len(),
            i <= j <= n,
            line_len_from(s@, i as int) == (j - i) + line_len_from(s@, j as int),
            forall|k: int| i <= k < j ==> s@[k] != '\n',
        decreases n - j,
    {
        if s.get_char(j) == '\n' {
            proof {
                assert(line_len_from(s@, j as int) == 1);
            }
            return j + 1;
        }
        j = j + 1;
    }
    proof {
        assert(line_len_from(s@, j as int) == 0);
    }
    j
}

/// Scan a name starting at `i`; empty when no name starts there.
fn scan_ident(s: &str, i: usize, n: usize) -> (r: (String, usize))
    requires
        n == s@.len(),
        i <= n,
    ensures
        i <= r.1 <= n,
{
    if i >= n || !name_start(s.get_char(i)) {
        return (String::new(), i);
    }
    let mut j = i + 1;
    while j < n && name_char(s.get_char(j))
        invariant
            n == s@.len(),
            i < j <= n,
        decreases n - j,
    {
        j = j + 1;
    }
    (substring_of(s, i, j), j)
}

/// The index of the parenthesis matching the one at `open_i`, skipping
/// double-quoted strings.
fn find_matching_paren(s: &str, open_i: usize, n: usize) -> (r: Result<usize, ErlError>)
    requires
        n == s@.len(),
        open_i < n,
    ensures
        r matches Result::Ok(m) ==> open_i < m < n,
{
    let mut depth: usize = 0;
    let mut j = open_i;
    while j < n
        invariant
            n == s@.len(),
            open_i <= j <= n,
        decreases n - j,
    {
        let c = s.get_char(j);
        if c == '"' {
            // Skip the quoted string.
            let mut k = j + 1;
            while k < n && s.get_char(k) != '"'
                invariant
                    n == s@.len(),
                    j < k <= n,
                decreases n - k,
            {
                k = k + 1;
            }
            if k >= n {
                return Result::Err(pperr("unterminated string in a directive"));
            }
            j = k + 1;
            continue ;
        }
        if c == '(' {
            depth = if depth < usize::MAX {
                depth + 1
            } else {
                depth
            };
        } else if c == ')' {
            if depth <= 1 {
                if j > open_i {
                    return Result::Ok(j);
                }
                return Result::Err(pperr("unbalanced parentheses in a directive"));
            }
            depth = depth - 1;
        }
        j = j + 1;
    }
    Result::Err(pperr("unterminated directive"))
}

/// Trim spaces, tabs, carriage returns and newlines from both ends of
/// the range, returning the trimmed bounds.
fn trim_range(s: &str, a: usize, b: usize, n: usize) -> (r: (usize, usize))
    requires
        n == s@.len(),
        a <= b <= n,
    ensures
        a <= r.0 <= r.1 <= b,
{
    let mut lo = a;
    while lo < b
        invariant
            a <= lo <= b,
            b <= n,
            n == s@.len(),
        decreases b - lo,
    {
        let c = s.get_char(lo);
        if c == ' ' || c == '\t' || c == '\r' || c == '\n' {
            lo = lo + 1;
        } else {
            break ;
        }
    }
    let mut hi = b;
    while hi > lo
        invariant
            lo <= hi <= b,
            b <= n,
            n == s@.len(),
        decreases hi,
    {
        let c = s.get_char(hi - 1);
        if c == ' ' || c == '\t' || c == '\r' || c == '\n' {
            hi = hi - 1;
        } else {
            break ;
        }
    }
    (lo, hi)
}

/// A line is plain when it holds no comment mark, no macro-use mark and
/// does not lead with a dash after whitespace.
pub open spec fn plain_line(l: Seq<char>) -> bool {
    (forall|j: int| 0 <= j < l.len() ==> l[j] != '%' && l[j] != '?') && !dash_leads(l)
}

/// Whether the first character after inline whitespace is a dash.
pub open spec fn dash_leads(l: Seq<char>) -> bool
    decreases l.len(),
{
    if l.len() == 0 {
        false
    } else if is_inline_ws(l[0]) {
        dash_leads(l.drop_first())
    } else {
        l[0] == '-'
    }
}

/// Directive-free text from `i` on: every line is plain.
pub open spec fn plain_from(s: Seq<char>, i: int) -> bool
    decreases s.len() - i,
{
    if i < 0 || i >= s.len() {
        true
    } else {
        let l = line_len_from(s, i);
        if l < 1 || i + l > s.len() {
            false
        } else {
            plain_line(s.subrange(i, i + l)) && plain_from(s, i + l)
        }
    }
}

/// Fragments that are all plain text: text nodes without macro-use
/// marks.
pub open spec fn texts_only_plain(nodes: Seq<PpModel>) -> bool {
    forall|i: int|
        0 <= i < nodes.len() ==> (#[trigger] nodes[i] matches PpModel::Text(t) && (forall|j: int|
            0 <= j < t.len() ==> t[j] != '?'))
}

/// When inline whitespace runs from `p` to `w` and `w` is the first
/// non-whitespace position, a dash leads the line `p..e` exactly when
/// `w` holds a dash inside it.
pub proof fn lemma_dash_leads_skip(s: Seq<char>, p: int, e: int, w: int)
    requires
        0 <= p <= w <= e <= s.len(),
        forall|k: int| p <= k < w ==> is_inline_ws(#[trigger] s[k]),
        w < e ==> !is_inline_ws(s[w]),
    ensures
        dash_leads(s.subrange(p, e)) == (w < e && s[w] == '-'),
    decreases w - p,
{
    let l = s.subrange(p, e);
    if p == e {
        assert(l.len() == 0);
    } else if p < w {
        assert(l[0] == s[p]);
        assert(is_inline_ws(l[0]));
        assert(l.drop_first() =~= s.subrange(p + 1, e));
        lemma_dash_leads_skip(s, p + 1, e, w);
    } else {
        assert(l[0] == s[w]);
        assert(!is_inline_ws(l[0]));
    }
}

/// The preprocessor's textual parser.
#[derive(Debug)]
pub struct PpParser {}

/// One parsed directive, or a signal that the dash line is no
/// preprocessor directive and passes through as text.
enum DirectiveOut {
    /// A parsed directive node and the position after its line.
    Node((PpAst, usize)),
    /// Not a preprocessor directive.
    NotDirective,
}

impl PpParser {
    /// Parse one directive whose dash sits at `dash` (whitespace already
    /// skipped). Unknown attribute words are not preprocessor
    /// directives.
    fn parse_directive(s: &str, dash: usize, n: usize) -> (r: Result<DirectiveOut, ErlError>)
        requires
            n == s@.len(),
            dash < n,
        ensures
            r matches Result::Ok(DirectiveOut::Node(p)) ==> dash < p.1 <= n,
            r matches Result::Ok(DirectiveOut::Node(p)) ==> is_directive_node(p.0@),
    {
        let after_dash = skip_inline_ws(s, dash + 1, n);
        let (kw, after_kw) = scan_ident(s, after_dash, n);
        let k = kw.as_str();
        let is_define = str_eq(k, "define");
        let is_undef = str_eq(k, "undef");
        let is_ifdef = str_eq(k, "ifdef");
        let is_ifndef = str_eq(k, "ifndef");
        let is_if = str_eq(k, "if");
        let is_elif = str_eq(k, "elif");
        let is_else = str_eq(k, "else");
        let is_endif = str_eq(k, "endif");
        let is_include_lib = str_eq(k, "include_lib");
        let is_include = str_eq(k, "include");
        let is_error = str_eq(k, "error");
        let is_warning = str_eq(k, "warning");
        if is_else || is_endif {
            // Optional empty parentheses, then the closing period.
            let mut q = skip_inline_ws(s, after_kw, n);
            if q < n && s.get_char(q) == '(' {
                let q2 = skip_inline_ws(s, q + 1, n);
                if q2 < n && s.get_char(q2) == ')' {
                    q = skip_inline_ws(s, q2 + 1, n);
                } else {
                    return Result::Err(pperr("malformed else or endif directive"));
                }
            }
            if q < n && s.get_char(q) == '.' {
                let e = line_end(s, q, n);
                let node = if is_else {
                    PpAst::Else
                } else {
                    PpAst::Endif
                };
                return Result::Ok(DirectiveOut::Node((node, e)));
            }
            return Result::Err(pperr("expected a period after else or endif"));
        }
        if !(is_define || is_undef || is_ifdef || is_ifndef || is_if || is_elif || is_include
            || is_include_lib || is_error || is_warning) {
            return Result::Ok(DirectiveOut::NotDirective);
        }
        let open_i = skip_all_ws(s, after_kw, n);
        if !(open_i < n && s.get_char(open_i) == '(') {
            return Result::Err(pperr("expected a parenthesized directive argument"));
        }
        let close_i = match find_matching_paren(s, open_i, n) {
            Result::Ok(m) => m,
            Result::Err(e) => {
                return Result::Err(e);
            },
        };
        let after_close = skip_inline_ws(s, close_i + 1, n);
        if !(after_close < n && s.get_char(after_close) == '.') {
            return Result::Err(pperr("expected a period after the directive"));
        }
        let e = line_end(s, after_close, n);
        let (a, b) = trim_range(s, open_i + 1, close_i, n);
        let node: PpAst = if is_define {
            match Self::parse_define_args(s, a, b, n) {
                Result::Ok(node) => node,
                Result::Err(err) => {
                    return Result::Err(err);
                },
            }
        } else if is_undef || is_ifdef || is_ifndef {
            let (name, after_name) = scan_ident(s, a, n);
            if name.unicode_len() == 0 {
                return Result::Err(pperr("expected a macro name"));
            }
            let rest = skip_inline_ws(s, after_name, n);
            if rest < b {
                return Result::Err(pperr("unexpected text after the macro name"));
            }
            if is_undef {
                PpAst::Undef(name)
            } else if is_ifdef {
                PpAst::Ifdef(name)
            } else {
                PpAst::Ifndef(name)
            }
        } else if is_if {
            PpAst::If(substring_of(s, a, b))
        } else if is_elif {
            PpAst::Elif(substring_of(s, a, b))
        } else if is_include || is_include_lib {
            // A double-quoted path.
            if b - a >= 2 && s.get_char(a) == '"' && s.get_char(b - 1) == '"' {
                let path = substring_of(s, a + 1, b - 1);
                if is_include {
                    PpAst::Include(path)
                } else {
                    PpAst::IncludeLib(path)
                }
            } else {
                return Result::Err(pperr("expected a quoted include path"));
            }
        } else if is_error {
            PpAst::Error(substring_of(s, a, b))
        } else {
            PpAst::Warning(substring_of(s, a, b))
        };
        Result::Ok(DirectiveOut::Node((node, e)))
    }

    /// Parse the argument text of a define: a macro name, optional
    /// parameter names in parentheses, and an optional body after the
    /// first top-level comma.
    fn parse_define_args(s: &str, a: usize, b: usize, n: usize) -> (r: Result<PpAst, ErlError>)
        requires
            n == s@.len(),
            a <= b <= n,
        ensures
            r matches Result::Ok(d) ==> (d@ is Define || d@ is DefineFun),
    {
        let (name, after_name) = scan_ident(s, a, n);
        if name.unicode_len() == 0 {
            return Result::Err(pperr("expected a macro name in the define"));
        }
        let mut params: Vec<String> = Vec::new();
        let mut has_params = false;
        let mut q = if after_name < b {
            skip_inline_ws(s, after_name, n)
        } else {
            after_name
        };
        if q < b && s.get_char(q) == '(' {
            has_params = true;
            let mut p = skip_all_ws(s, q + 1, n);
            while p < b
                invariant
                    a <= p,
                    p <= n,
                    b <= n,
                    n == s@.len(),
                decreases n - p,
            {
                if s.get_char(p) == ')' {
                    q = p + 1;
                    break ;
                }
                let (pn, after_p) = scan_ident(s, p, n);
                if pn.unicode_len() == 0 {
                    return Result::Err(pperr("expected a parameter name"));
                }
                params.push(pn);
                let r2 = skip_all_ws(s, after_p, n);
                if r2 < b && s.get_char(r2) == ',' {
                    let r3 = skip_all_ws(s, r2 + 1, n);
                    if r3 <= p {
                        return Result::Err(pperr("malformed parameter list"));
                    }
                    p = r3;
                } else if r2 < b && s.get_char(r2) == ')' {
                    q = r2 + 1;
                    break ;
                } else {
                    return Result::Err(pperr("malformed parameter list"));
                }
            }
            if q <= a {
                return Result::Err(pperr("malformed parameter list"));
            }
        }
        let rest = if q <= b {
            skip_inline_ws(s, q, n)
        } else {
            q
        };
        if rest >= b {
            // Name only.
            if has_params {
                let body = String::new();
                return Result::Ok(PpAst::DefineFun { name, args: params, body });
            }
            return Result::Ok(PpAst::Define(name, String::new()));
        }
        if s.get_char(rest) != ',' {
            return Result::Err(pperr("expected a comma before the macro body"));
        }
        let (ba, bb) = trim_range(s, rest + 1, b, n);
        let body = substring_of(s, ba, bb);
        if has_params {
            Result::Ok(PpAst::DefineFun { name, args: params, body })
        } else {
            Result::Ok(PpAst::Define(name, body))
        }
    }

    /// Parse one directive from a whole input: leading whitespace, the
    /// directive, trailing whitespace; the result is always a single
    /// directive or transient marker node.
    pub fn parse_one_directive(input: &str) -> (r: Result<PpAst, ErlError>)
        ensures
            r matches Result::Ok(d) ==> is_directive_node(d@),
    {
        let n = input.unicode_len();
        let i = skip_all_ws(input, 0, n);
        if !(i < n && input.get_char(i) == '-') {
            return Result::Err(pperr("expected a dash directive"));
        }
        match Self::parse_directive(input, i, n) {
            Result::Ok(DirectiveOut::Node((node, e))) => {
                let rest = skip_all_ws(input, e, n);
                if rest < n {
                    return Result::Err(pperr("unexpected text after the directive"));
                }
                Result::Ok(node)
            },
            Result::Ok(DirectiveOut::NotDirective) => Result::Err(
                pperr("not a preprocessor directive"),
            ),
            Result::Err(e) => Result::Err(e),
        }
    }

    /// Parse a single `-define` directive.
    pub fn parse_define(input: &str) -> (r: Result<PpAst, ErlError>)
        ensures
            r matches Result::Ok(d) ==> is_directive_node(d@),
    {
        Self::parse_one_directive(input)
    }

    /// Parse a single `-include` or `-include_lib` directive.
    pub fn parse_include(input: &str) -> (r: Result<PpAst, ErlError>)
        ensures
            r matches Result::Ok(d) ==> is_directive_node(d@),
    {
        Self::parse_one_directive(input)
    }

    /// Parse a single `-if` directive into its transient marker.
    pub fn parse_if_directive(input: &str) -> (r: Result<PpAst, ErlError>)
        ensures
            r matches Result::Ok(d) ==> is_directive_node(d@),
    {
        Self::parse_one_directive(input)
    }

    /// Parse a whole source into fragments: text lines, comments,
    /// directives, and structured conditional blocks; an unmatched
    /// `-else.`, `-elif(..)` or `-endif.` is an error.
    pub fn parse_module(input: &str) -> (r: Result<Vec<PpAst>, ErlError>)
        ensures
            plain_from(input@, 0) ==> (r matches Result::Ok(frags)
                && texts_only_plain(crate::pp_ast::pps_view(frags@)) && crate::pp_ast::render_output(
                crate::pp_ast::pps_view(frags@),
            ) == input@),
    {
        let n = input.unicode_len();
        proof {
            if plain_from(input@, 0) {
                assert(input@.subrange(0, n as int) =~= input@);
            }
        }
        match Self::parse_fragments(input, 0, n) {
            Result::Ok((frags, PpStop::End, _)) => Result::Ok(frags),
            Result::Ok((_, PpStop::ElseMark, _)) => Result::Err(pperr("unmatched else directive")),
            Result::Ok((_, PpStop::ElifMark(_), _)) => Result::Err(
                pperr("unmatched elif directive"),
            ),
            Result::Ok((_, PpStop::EndifMark, _)) => Result::Err(
                pperr("unmatched endif directive"),
            ),
            Result::Err(e) => Result::Err(e),
        }
    }

    /// Parse fragments from `i` until the end of input or an `-else.`,
    /// `-elif(..)` or `-endif.` directive, structuring conditional
    /// blocks on the way.
    fn parse_fragments(s: &str, i: usize, n: usize) -> (r: Result<
        (Vec<PpAst>, PpStop, usize),
        ErlError,
    >)
        requires
            n == s@.len(),
            i <= n,
        ensures
            r matches Result::Ok(p) ==> i <= p.2 <= n,
            r matches Result::Ok(p) ==> (p.1 matches PpStop::End || i < p.2),
            plain_from(s@, i as int) ==> (r matches Result::Ok(p) && p.1 matches PpStop::End
                && texts_only_plain(crate::pp_ast::pps_view(p.0@)) && crate::pp_ast::render_output(
                crate::pp_ast::pps_view(p.0@),
            ) == s@.subrange(i as int, p.2 as int) && p.2 == n),
        decreases n - i, 1int,
    {
        let ghost plain0 = plain_from(s@, i as int);
        let mut frags: Vec<PpAst> = Vec::new();
        proof {
            crate::pp_ast::lemma_pps_view(frags@);
            if plain0 {
                assert(crate::pp_ast::pps_view(frags@) =~= Seq::<PpModel>::empty());
                assert(crate::pp_ast::render_output(crate::pp_ast::pps_view(frags@))
                    =~= Seq::<char>::empty());
                assert(s@.subrange(i as int, i as int) =~= Seq::<char>::empty());
            }
        }
        let mut p = i;
        while p < n
            invariant
                i <= p <= n,
                n == s@.len(),
                plain0 == plain_from(s@, i as int),
                plain0 ==> plain_from(s@, p as int),
                plain0 ==> texts_only_plain(crate::pp_ast::pps_view(frags@)),
                plain0 ==> crate::pp_ast::render_output(crate::pp_ast::pps_view(frags@))
                    == s@.subrange(i as int, p as int),
            decreases n - p,
        {
            proof {
                if plain0 {
                    lemma_line_len_from(s@, p as int);
                }
            }
            let ws_end = skip_inline_ws(s, p, n);
            proof {
                if plain0 && ws_end < n {
                    let l = line_len_from(s@, p as int);
                    if ws_end < p + l {
                        lemma_dash_leads_skip(s@, p as int, p + l, ws_end as int);
                        assert(s@.subrange(p as int, p + l)[ws_end - p] == s@[ws_end as int]);
                        assert(s@[ws_end as int] != '%');
                        assert(s@[ws_end as int] != '-');
                    } else {
                        assert(ws_end == p + l || ws_end >= p + l);
                        if ws_end == p + l && l >= 1 {
                            assert(s@.subrange(p as int, p + l)[l - 1] == s@[p + l - 1]);
                        }
                    }
                }
            }
            if ws_end < n && s.get_char(ws_end) == '%' {
                proof {
                    if plain0 {
                        lemma_plain_no_special(s@, p as int, ws_end as int);
                        assert(false);
                    }
                }
                let e = line_end(s, ws_end, n);
                frags.push(PpAst::Comment(substring_of(s, p, e)));
                p = e;
                continue ;
            }
            if ws_end < n && s.get_char(ws_end) == '-' {
                proof {
                    if plain0 {
                        lemma_plain_no_special(s@, p as int, ws_end as int);
                        assert(false);
                    }
                }
                match Self::parse_directive(s, ws_end, n) {
                    Result::Ok(DirectiveOut::Node((node, e))) => {
                        match node {
                            PpAst::Else => {
                                return Result::Ok((frags, PpStop::ElseMark, e));
                            },
                            PpAst::Endif => {
                                return Result::Ok((frags, PpStop::EndifMark, e));
                            },
                            PpAst::Elif(c) => {
                                return Result::Ok((frags, PpStop::ElifMark(c), e));
                            },
                            PpAst::Ifdef(name) => {
                                let (block, e2) = match Self::parse_cond_block(
                                    s,
                                    e,
                                    n,
                                    CondKind::OnDefined(name),
                                ) {
                                    Result::Ok(x) => x,
                                    Result::Err(err) => {
                                        return Result::Err(err);
                                    },
                                };
                                frags.push(block);
                                p = e2;
                            },
                            PpAst::Ifndef(name) => {
                                let (block, e2) = match Self::parse_cond_block(
                                    s,
                                    e,
                                    n,
                                    CondKind::OnUndefined(name),
                                ) {
                                    Result::Ok(x) => x,
                                    Result::Err(err) => {
                                        return Result::Err(err);
                                    },
                                };
                                frags.push(block);
                                p = e2;
                            },
                            PpAst::If(cond) => {
                                let (block, e2) = match Self::parse_cond_block(
                                    s,
                                    e,
                                    n,
                                    CondKind::OnCondition(cond),
                                ) {
                                    Result::Ok(x) => x,
                                    Result::Err(err) => {
                                        return Result::Err(err);
                                    },
                                };
                                frags.push(block);
                                p = e2;
                            },
                            other => {
                                frags.push(other);
                                p = e;
                            },
                        }
                    },
                    Result::Ok(DirectiveOut::NotDirective) => {
                        let e = line_end(s, ws_end, n);
                        frags.push(PpAst::Text(substring_of(s, p, e)));
                        p = e;
                    },
                    Result::Err(err) => {
                        return Result::Err(err);
                    },
                }
                continue ;
            }
            let e = line_end(s, p, n);
            let piece = substring_of(s, p, e);
            let ghost oldv = frags@;
            frags.push(PpAst::Text(piece));
            proof {
                if plain0 {
                    let l = line_len_from(s@, p as int);
                    assert(e == p + l);
                    assert(plain_line(s@.subrange(p as int, p + l)));
                    crate::pp_ast::lemma_pps_view(oldv);
                    crate::pp_ast::lemma_pps_view(frags@);
                    assert(frags@ == oldv.push(PpAst::Text(piece)));
                    let newv = crate::pp_ast::pps_view(frags@);
                    let oldm = crate::pp_ast::pps_view(oldv);
                    assert forall|k: int| 0 <= k < newv.len() implies newv[k] == oldm.push(
                        PpModel::Text(s@.subrange(p as int, e as int)),
                    )[k] by {
                        if k < oldv.len() {
                            assert(frags@[k] == oldv[k]);
                            assert(oldm[k] == oldv[k]@);
                        } else {
                            assert(frags@[k] == PpAst::Text(piece));
                        }
                    }
                    assert(newv =~= oldm.push(PpModel::Text(s@.subrange(p as int, e as int))));
                    lemma_render_push_text(oldm, s@.subrange(p as int, e as int));
                    assert(s@.subrange(i as int, p as int) + s@.subrange(p as int, e as int)
                        =~= s@.subrange(i as int, e as int));
                }
            }
            p = e;
        }
        proof {
            if plain0 {
                assert(p == n);
            }
        }
        Result::Ok((frags, PpStop::End, p))
    }

    /// Parse the branches of a conditional block whose opening directive
    /// ended at `i`, through the matching `-endif.`.
    fn parse_cond_block(s: &str, i: usize, n: usize, kind: CondKind) -> (r: Result<
        (PpAst, usize),
        ErlError,
    >)
        requires
            n == s@.len(),
            i <= n,
        ensures
            r matches Result::Ok(p) ==> i <= p.1 <= n,
        decreases n - i, 2int,
    {
        let (cond_true, stop, p1) = match Self::parse_fragments(s, i, n) {
            Result::Ok(x) => x,
            Result::Err(e) => {
                return Result::Err(e);
            },
        };
        match stop {
            PpStop::EndifMark => {
                let cond_false: Vec<PpAst> = Vec::new();
                Result::Ok((make_cond_block(kind, cond_true, cond_false), p1))
            },
            PpStop::ElseMark => {
                let (cond_false, stop2, p2) = match Self::parse_fragments(s, p1, n) {
                    Result::Ok(x) => x,
                    Result::Err(e) => {
                        return Result::Err(e);
                    },
                };
                match stop2 {
                    PpStop::EndifMark => Result::Ok(
                        (make_cond_block(kind, cond_true, cond_false), p2),
                    ),
                    _ => Result::Err(pperr("a conditional block must end with endif")),
                }
            },
            PpStop::ElifMark(c2) => {
                if p1 >= n {
                    return Result::Err(pperr("a conditional block must end with endif"));
                }
                let (nested, p2) = match Self::parse_cond_block(
                    s,
                    p1,
                    n,
                    CondKind::OnCondition(c2),
                ) {
                    Result::Ok(x) => x,
                    Result::Err(e) => {
                        return Result::Err(e);
                    },
                };
                let mut cond_false: Vec<PpAst> = Vec::new();
                cond_false.push(nested);
                Result::Ok((make_cond_block(kind, cond_true, cond_false), p2))
            },
            PpStop::End => Result::Err(pperr("unterminated conditional block")),
        }
    }
}


/// Under plain text, the first non-whitespace character of a line is
/// neither a comment mark nor a dash.
pub proof fn lemma_plain_no_special(s: Seq<char>, p: int, w: int)
    requires
        0 <= p <= w <= s.len(),
        w < s.len(),
        plain_from(s, p),
        forall|k: int| p <= k < w ==> is_inline_ws(#[trigger] s[k]),
        !is_inline_ws(s[w]),
    ensures
        s[w] != '%',
        s[w] != '-',
{
    let l = line_len_from(s, p);
    lemma_line_len_from(s, p);
    lemma_ws_within_line(s, p, w);
    assert(w < p + l);
    assert(s.subrange(p, p + l)[w - p] == s[w]);
    assert(s[w] != '%');
    lemma_dash_leads_skip(s, p, p + l, w);
    assert(s[w] != '-');
}

/// Inline whitespace cannot run past the end of the current line.
pub proof fn lemma_ws_within_line(s: Seq<char>, p: int, w: int)
    requires
        0 <= p <= w <= s.len(),
        w < s.len(),
        forall|k: int| p <= k < w ==> is_inline_ws(#[trigger] s[k]),
        !is_inline_ws(s[w]),
    ensures
        w < p + line_len_from(s, p),
    decreases w - p,
{
    if p < w {
        assert(s[p] != '\n');
        lemma_ws_within_line(s, p + 1, w);
    } else {
        lemma_line_len_from(s, p);
    }
}

/// Pushing a text fragment extends the rendering by that text, and
/// keeps plain-text-only fragment lists plain when the text is plain.
pub proof fn lemma_render_push_text(nodes: Seq<PpModel>, t: Seq<char>)
    ensures
        crate::pp_ast::render_output(nodes.push(PpModel::Text(t)))
            == crate::pp_ast::render_output(nodes) + t,
        (texts_only_plain(nodes) && (forall|j: int| 0 <= j < t.len() ==> t[j] != '?'))
            ==> texts_only_plain(nodes.push(PpModel::Text(t))),
    decreases nodes.len(),
{
    let pushed = nodes.push(PpModel::Text(t));
    if nodes.len() == 0 {
        assert(pushed[0] == PpModel::Text(t));
        assert(pushed.drop_first() =~= Seq::<PpModel>::empty());
        assert(crate::pp_ast::render_output(pushed.drop_first()) =~= Seq::<char>::empty());
        assert(crate::pp_ast::render_output(pushed) =~= t + crate::pp_ast::render_output(
            pushed.drop_first(),
        ));
        assert(crate::pp_ast::render_output(pushed) =~= t);
        assert(crate::pp_ast::render_output(nodes) =~= Seq::<char>::empty());
        assert(crate::pp_ast::render_output(nodes) + t =~= t);
    } else {
        assert(pushed[0] == nodes[0]);
        assert(pushed.drop_first() =~= nodes.drop_first().push(PpModel::Text(t)));
        lemma_render_push_text(nodes.drop_first(), t);
        assert(crate::pp_ast::render_output(pushed) =~= crate::pp_ast::render_output(nodes) + t);
    }
    if texts_only_plain(nodes) && (forall|j: int| 0 <= j < t.len() ==> t[j] != '?') {
        assert forall|k: int| 0 <= k < pushed.len() implies (#[trigger] pushed[k] matches
            PpModel::Text(tt) && (forall|j: int| 0 <= j < tt.len() ==> tt[j] != '?')) by {
            if k < nodes.len() {
                assert(pushed[k] == nodes[k]);
            }
        }
    }
}

/// Which condition opens a block.
enum CondKind {
    /// `-ifdef(NAME).`
    OnDefined(String),
    /// `-ifndef(NAME).`
    OnUndefined(String),
    /// `-if(COND).`
    OnCondition(String),
}

/// Assemble a structured conditional block.
fn make_cond_block(kind: CondKind, cond_true: Vec<PpAst>, cond_false: Vec<PpAst>) -> (r: PpAst) {
    match kind {
        CondKind::OnDefined(macro_name) => PpAst::IfdefBlock { macro_name, cond_true, cond_false },
        CondKind::OnUndefined(macro_name) => PpAst::IfndefBlock {
            macro_name,
            cond_true,
            cond_false,
        },
        CondKind::OnCondition(cond) => PpAst::IfBlock { cond, cond_true, cond_false },
    }
}

} // verus!
