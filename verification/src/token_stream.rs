//! The token stream builder: raw source text to position-aware lexical
//! tokens, comments stripped, identifiers classified.

use vstd::prelude::*;

use crate::error::ErlError;
use crate::literal::FloatLit;
use crate::source_loc::SourceLoc;

verus! {

/// One lexical token kind, with its payload where it has one.
#[derive(Debug)]
pub enum TokenKind {
    /// A lowercase identifier or quoted atom that is not a keyword.
    Atom(String),
    /// A capitalized or underscore identifier.
    Var(String),
    /// An integer literal.
    Int(i64),
    /// A float literal, in decimal form.
    Flt(FloatLit),
    /// A double-quoted string literal, unescaped.
    Str(String),
    /// `case`
    KwCase,
    /// `of`
    KwOf,
    /// `end`
    KwEnd,
    /// `when`
    KwWhen,
    /// `if`
    KwIf,
    /// `div`
    KwDiv,
    /// `rem`
    KwRem,
    /// `and`
    KwAnd,
    /// `or`
    KwOr,
    /// `not`
    KwNot,
    /// `xor`
    KwXor,
    /// `andalso`
    KwAndAlso,
    /// `orelse`
    KwOrElse,
    /// `band`
    KwBand,
    /// `bor`
    KwBor,
    /// `bxor`
    KwBxor,
    /// `bsl`
    KwBsl,
    /// `bsr`
    KwBsr,
    /// `bnot`
    KwBnot,
    /// `catch`
    KwCatch,
    /// `(`
    ParOpen,
    /// `)`
    ParClose,
    /// `[`
    SquareOpen,
    /// `]`
    SquareClose,
    /// `{`
    CurlyOpen,
    /// `}`
    CurlyClose,
    /// `,`
    Comma,
    /// `.`
    Period,
    /// `;`
    Semicolon,
    /// `:`
    Colon,
    /// `::`
    DoubleColon,
    /// `->`
    Arrow,
    /// `=>`
    DoubleArrow,
    /// `#`
    Hash,
    /// `|`
    Pipe,
    /// `||`
    DoublePipe,
    /// `<<`
    LtLt,
    /// `>>`
    GtGt,
    /// `+`
    Plus,
    /// `-`
    Minus,
    /// `*`
    Star,
    /// `/`
    Slash,
    /// `++`
    PlusPlus,
    /// `--`
    MinusMinus,
    /// `==`
    EqEq,
    /// `/=`
    SlashEq,
    /// `=:=`
    EqColonEq,
    /// `=/=`
    EqSlashEq,
    /// `<`
    Lt,
    /// `>`
    Gt,
    /// `=<`
    LtEq,
    /// `>=`
    GtEq,
    /// `=`
    Equal,
    /// `!`
    Bang,
    /// `?`
    Question,
}

/// One token with its location.
#[derive(Debug)]
pub struct Token {
    /// Where the token starts.
    pub loc: SourceLoc,
    /// Its kind and payload.
    pub kind: TokenKind,
}

/// Whether a character may start an identifier or atom name.
pub open spec fn is_name_start(c: char) -> bool {
    ('a' <= c && c <= 'z') || ('A' <= c && c <= 'Z') || c == '_'
}

/// Whether a character may continue an identifier or atom name.
pub open spec fn is_name_char(c: char) -> bool {
    is_name_start(c) || ('0' <= c && c <= '9') || c == '@'
}

/// Whether a character is a decimal digit.
pub open spec fn is_digit(c: char) -> bool {
    '0' <= c && c <= '9'
}

/// Executable test for [`is_name_start`].
pub fn name_start(c: char) -> (r: bool)
    ensures
        r == is_name_start(c),
{
    ('a' <= c && c <= 'z') || ('A' <= c && c <= 'Z') || c == '_'
}

/// Executable test for [`is_name_char`].
pub fn name_char(c: char) -> (r: bool)
    ensures
        r == is_name_char(c),
{
    name_start(c) || ('0' <= c && c <= '9') || c == '@'
}

/// Executable test for [`is_digit`].
pub fn digit(c: char) -> (r: bool)
    ensures
        r == is_digit(c),
{
    '0' <= c && c <= '9'
}

/// Read the characters of `s` from `from` (exclusive of `to`) into an
/// owned string.
pub fn substring_of(s: &str, from: usize, to: usize) -> (r: String)
    requires
        from <= to <= s@.len(),
    ensures
        r@ == s@.subrange(from as int, to as int),
{
    let piece = s.substring_char(from, to);
    piece.to_owned()
}

/// Whether an optional character is exactly `c`.
fn opt_is(o: &Option<char>, c: char) -> (r: bool)
    ensures
        r == (o == Option::Some(c)),
{
    match o {
        Option::Some(x) => *x == c,
        Option::None => false,
    }
}

/// Classify a scanned name: a keyword token, or an atom.
fn classify_name(name: String) -> (r: TokenKind) {
    if crate::erl_type_new::str_eq(name.as_str(), "case") {
        TokenKind::KwCase
    } else if crate::erl_type_new::str_eq(name.as_str(), "of") {
        TokenKind::KwOf
    } else if crate::erl_type_new::str_eq(name.as_str(), "end") {
        TokenKind::KwEnd
    } else if crate::erl_type_new::str_eq(name.as_str(), "when") {
        TokenKind::KwWhen
    } else if crate::erl_type_new::str_eq(name.as_str(), "if") {
        TokenKind::KwIf
    } else if crate::erl_type_new::str_eq(name.as_str(), "div") {
        TokenKind::KwDiv
    } else if crate::erl_type_new::str_eq(name.as_str(), "rem") {
        TokenKind::KwRem
    } else if crate::erl_type_new::str_eq(name.as_str(), "andalso") {
        TokenKind::KwAndAlso
    } else if crate::erl_type_new::str_eq(name.as_str(), "orelse") {
        TokenKind::KwOrElse
    } else if crate::erl_type_new::str_eq(name.as_str(), "and") {
        TokenKind::KwAnd
    } else if crate::erl_type_new::str_eq(name.as_str(), "or") {
        TokenKind::KwOr
    } else if crate::erl_type_new::str_eq(name.as_str(), "not") {
        TokenKind::KwNot
    } else if crate::erl_type_new::str_eq(name.as_str(), "xor") {
        TokenKind::KwXor
    } else if crate::erl_type_new::str_eq(name.as_str(), "band") {
        TokenKind::KwBand
    } else if crate::erl_type_new::str_eq(name.as_str(), "bor") {
        TokenKind::KwBor
    } else if crate::erl_type_new::str_eq(name.as_str(), "bxor") {
        TokenKind::KwBxor
    } else if crate::erl_type_new::str_eq(name.as_str(), "bsl") {
        TokenKind::KwBsl
    } else if crate::erl_type_new::str_eq(name.as_str(), "bsr") {
        TokenKind::KwBsr
    } else if crate::erl_type_new::str_eq(name.as_str(), "bnot") {
        TokenKind::KwBnot
    } else if crate::erl_type_new::str_eq(name.as_str(), "catch") {
        TokenKind::KwCatch
    } else {
        TokenKind::Atom(name)
    }
}

/// Advance a column count by the width just consumed, saturating.
fn bump_col(col: usize, width: usize) -> (r: usize) {
    if col <= usize::MAX - width {
        col + width
    } else {
        col
    }
}

/// A whole input that is one capitalized name: it must tokenize to
/// exactly one variable token carrying all of its characters.
pub open spec fn single_var_input(s: Seq<char>) -> bool {
    s.len() > 0 && 'A' <= s[0] && s[0] <= 'Z' && (forall|i: int|
        0 <= i < s.len() ==> is_name_char(#[trigger] s[i]))
}

/// Tokenize source text: skip whitespace and `%` line comments, scan
/// names, numbers, quoted atoms, strings and operators, and classify
/// keywords. Fails on an unexpected character or an unterminated quoted
/// literal, or a numeric literal too large for the token's range. Empty
/// input tokenizes to an empty stream; an input that is one capitalized
/// name tokenizes to exactly that variable token.
pub fn tokenize_source(input: &str) -> (r: Result<Vec<Token>, ErlError>)
    ensures
        input@.len() == 0 ==> (r matches Result::Ok(ts) && ts@.len() == 0),
        single_var_input(input@) ==> (r matches Result::Ok(ts) && ts@.len() == 1
            && (ts@[0].kind matches TokenKind::Var(name) && name@ == input@)),
{
    let n = input.unicode_len();
    let mut tokens: Vec<Token> = Vec::new();
    let mut i: usize = 0;
    let mut line: usize = 1;
    let mut col: usize = 1;
    while i < n
        invariant
            n == input@.len(),
            0 <= i <= n,
            n == 0 ==> tokens@.len() == 0,
            single_var_input(input@) ==> (i == 0 && tokens@.len() == 0) || (i == n
                && tokens@.len() == 1 && (tokens@[0].kind matches TokenKind::Var(name) && name@
                == input@)),
        decreases n - i,
    {
        let c = input.get_char(i);
        // Whitespace
        if c == ' ' || c == '\t' || c == '\r' {
            i = i + 1;
            col = if col < usize::MAX { col + 1 } else { col };
            continue ;
        }
        if c == '\n' {
            i = i + 1;
            line = if line < usize::MAX { line + 1 } else { line };
            col = 1;
            continue ;
        }
        // Line comment
        if c == '%' {
            let start = i;
            i = i + 1;
            while i < n && input.get_char(i) != '\n'
                invariant
                    n == input@.len(),
                    start < i <= n,
                decreases n - i,
            {
                i = i + 1;
            }
            continue ;
        }
        let loc = SourceLoc::at(line, col);
        // Names and keywords
        if name_start(c) {
            let start = i;
            i = i + 1;
            while i < n && name_char(input.get_char(i))
                invariant
                    n == input@.len(),
                    start < i <= n,
                decreases n - i,
            {
                i = i + 1;
            }
            proof {
                if single_var_input(input@) {
                    assert(start == 0);
                    assert(i == n || !is_name_char(input@[i as int]));
                    assert(i == n);
                }
            }
            let text = substring_of(input, start, i);
            let first = input.get_char(start);
            let kind = if ('A' <= first && first <= 'Z') || first == '_' {
                TokenKind::Var(text)
            } else {
                classify_name(text)
            };
            tokens.push(Token { loc, kind });
            proof {
                if single_var_input(input@) {
                    assert(input@.subrange(0, n as int) =~= input@);
                }
            }
            col = bump_col(col, i - start);
            continue ;
        }
        // Numbers
        if digit(c) {
            let start = i;
            let mut value: i64 = ((c as u32) - ('0' as u32)) as i64;
            i = i + 1;
            let mut overflow = false;
            while i < n && digit(input.get_char(i))
                invariant
                    n == input@.len(),
                    start < i <= n,
                    0 <= value,
                decreases n - i,
            {
                let d = (input.get_char(i) as u32) - ('0' as u32);
                if value > (i64::MAX - (d as i64)) / 10 {
                    overflow = true;
                } else {
                    value = value * 10 + (d as i64);
                }
                i = i + 1;
            }
            if overflow {
                return Result::Err(
                    ErlError::parse(
                        loc,
                        Vec::new(),
                        String::from_str("integer literal too large"),
                    ),
                );
            }
            // Fraction part makes a float literal.
            if i < n && i + 1 < n && input.get_char(i) == '.' && digit(input.get_char(i + 1)) {
                i = i + 1;
                let mut mantissa: i64 = value;
                let mut scale: u32 = 0;
                let mut truncated = false;
                while i < n && digit(input.get_char(i))
                    invariant
                        n == input@.len(),
                        start < i <= n,
                        0 <= mantissa,
                        scale <= 18,
                    decreases n - i,
                {
                    let d = (input.get_char(i) as u32) - ('0' as u32);
                    if mantissa > (i64::MAX - (d as i64)) / 10 || scale >= 18 {
                        truncated = true;
                    } else {
                        mantissa = mantissa * 10 + (d as i64);
                        scale = scale + 1;
                    }
                    i = i + 1;
                }
                if truncated {
                    return Result::Err(
                        ErlError::parse(
                            loc,
                            Vec::new(),
                            String::from_str("float literal too precise"),
                        ),
                    );
                }
                tokens.push(Token { loc, kind: TokenKind::Flt(FloatLit { mantissa, scale }) });
            } else {
                tokens.push(Token { loc, kind: TokenKind::Int(value) });
            }
            col = bump_col(col, i - start);
            continue ;
        }
        // Quoted atom
        if c == '\'' {
            let start = i + 1;
            let mut j = start;
            while j < n && input.get_char(j) != '\''
                invariant
                    n == input@.len(),
                    start <= j <= n,
                decreases n - j,
            {
                j = j + 1;
            }
            if j >= n {
                return Result::Err(
                    ErlError::parse(loc, Vec::new(), String::from_str("unterminated quoted atom")),
                );
            }
            let text = substring_of(input, start, j);
            tokens.push(Token { loc, kind: TokenKind::Atom(text) });
            col = bump_col(col, j + 1 - i);
            i = j + 1;
            continue ;
        }
        // String literal
        if c == '"' {
            let start = i + 1;
            let mut j = start;
            while j < n && input.get_char(j) != '"'
                invariant
                    n == input@.len(),
                    start <= j <= n,
                decreases n - j,
            {
                j = j + 1;
            }
            if j >= n {
                return Result::Err(
                    ErlError::parse(loc, Vec::new(), String::from_str("unterminated string")),
                );
            }
            let text = substring_of(input, start, j);
            tokens.push(Token { loc, kind: TokenKind::Str(text) });
            col = bump_col(col, j + 1 - i);
            i = j + 1;
            continue ;
        }
        // Operators and punctuation, longest match first.
        let c2 = if i + 1 < n {
            Option::Some(input.get_char(i + 1))
        } else {
            Option::None
        };
        let c3 = if i + 1 < n && i + 2 < n {
            Option::Some(input.get_char(i + 2))
        } else {
            Option::None
        };
        let (kind, width): (TokenKind, usize) = if c == '=' && opt_is(&c2, ':') && c3
            == Option::Some('=') {
            (TokenKind::EqColonEq, 3)
        } else if c == '=' && opt_is(&c2, '/') && opt_is(&c3, '=') {
            (TokenKind::EqSlashEq, 3)
        } else if c == '=' && opt_is(&c2, '=') {
            (TokenKind::EqEq, 2)
        } else if c == '=' && opt_is(&c2, '<') {
            (TokenKind::LtEq, 2)
        } else if c == '=' && opt_is(&c2, '>') {
            (TokenKind::DoubleArrow, 2)
        } else if c == '=' {
            (TokenKind::Equal, 1)
        } else if c == '/' && opt_is(&c2, '=') {
            (TokenKind::SlashEq, 2)
        } else if c == '/' {
            (TokenKind::Slash, 1)
        } else if c == '>' && opt_is(&c2, '=') {
            (TokenKind::GtEq, 2)
        } else if c == '>' && opt_is(&c2, '>') {
            (TokenKind::GtGt, 2)
        } else if c == '>' {
            (TokenKind::Gt, 1)
        } else if c == '<' && opt_is(&c2, '<') {
            (TokenKind::LtLt, 2)
        } else if c == '<' {
            (TokenKind::Lt, 1)
        } else if c == '+' && opt_is(&c2, '+') {
            (TokenKind::PlusPlus, 2)
        } else if c == '+' {
            (TokenKind::Plus, 1)
        } else if c == '-' && opt_is(&c2, '-') {
            (TokenKind::MinusMinus, 2)
        } else if c == '-' && opt_is(&c2, '>') {
            (TokenKind::Arrow, 2)
        } else if c == '-' {
            (TokenKind::Minus, 1)
        } else if c == '*' {
            (TokenKind::Star, 1)
        } else if c == '(' {
            (TokenKind::ParOpen, 1)
        } else if c == ')' {
            (TokenKind::ParClose, 1)
        } else if c == '[' {
            (TokenKind::SquareOpen, 1)
        } else if c == ']' {
            (TokenKind::SquareClose, 1)
        } else if c == '{' {
            (TokenKind::CurlyOpen, 1)
        } else if c == '}' {
            (TokenKind::CurlyClose, 1)
        } else if c == ',' {
            (TokenKind::Comma, 1)
        } else if c == '.' {
            (TokenKind::Period, 1)
        } else if c == ';' {
            (TokenKind::Semicolon, 1)
        } else if c == ':' && opt_is(&c2, ':') {
            (TokenKind::DoubleColon, 2)
        } else if c == ':' {
            (TokenKind::Colon, 1)
        } else if c == '#' {
            (TokenKind::Hash, 1)
        } else if c == '|' && opt_is(&c2, '|') {
            (TokenKind::DoublePipe, 2)
        } else if c == '|' {
            (TokenKind::Pipe, 1)
        } else if c == '!' {
            (TokenKind::Bang, 1)
        } else if c == '?' {
            (TokenKind::Question, 1)
        } else {
            return Result::Err(
                ErlError::parse(loc, Vec::new(), String::from_str("unexpected character")),
            );
        };
        tokens.push(Token { loc, kind });
        i = i + width;
        col = bump_col(col, width);
    }
    Result::Ok(tokens)
}

} // verus!
