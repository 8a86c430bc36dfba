//! The unit of compilation: parse entry points that run tokenizer and
//! parser over one source text and insist that all input is consumed.

use vstd::prelude::*;

use crate::erl_ast::ErlAst;
use crate::erl_parser::ErlParser;
use crate::error::ErlError;
use crate::source_loc::SourceLoc;
use crate::token_stream::Token;
use crate::token_stream::tokenize_source;

verus! {

/// A parsed translation unit.
#[derive(Debug)]
pub struct ErlModuleImpl {
    /// The source's name, for diagnostics.
    pub source_name: String,
    /// The parsed syntax tree root.
    pub ast: ErlAst,
    /// How many fresh type variables the parser handed out.
    pub tvar_count: u64,
}

/// Which grammar entry point a parse starts from.
#[derive(Debug, Clone, Copy, PartialEq, Eq, Structural)]
pub enum ParseEntry {
    /// A whole module: attributes and function definitions.
    ModuleSource,
    /// A single expression.
    ExprSource,
    /// A single function definition.
    FunSource,
    /// A single type expression.
    TypeSource,
}

impl ErlModuleImpl {
    /// Tokenize and parse one source text from the given entry point.
    /// Any unconsumed input after a successful parse is a fatal error,
    /// never a silent partial tree. On success the root's shape follows
    /// the entry point: a form list for a module, a function definition
    /// for a function, a type attribute for a type. An expression that
    /// is one capitalized name parses to exactly that variable.
    pub fn parse_helper(source_name: String, input: &str, entry: ParseEntry) -> (r: Result<
        ErlModuleImpl,
        ErlError,
    >)
        ensures
            r matches Result::Ok(m) ==> match entry {
                ParseEntry::ModuleSource => m.ast@ is Forms,
                ParseEntry::FunSource => m.ast@ is FnDef,
                ParseEntry::TypeSource => m.ast@ is TypeAttr,
                ParseEntry::ExprSource => true,
            },
            (entry == ParseEntry::ExprSource && crate::token_stream::single_var_input(input@))
                ==> (r matches Result::Ok(m) && m.ast@ == (crate::erl_ast::AstModel::Var {
                name: input@,
                ty: crate::erl_type::TypeModel::TVar(0),
            })),
    {
        let toks: Vec<Token> = match tokenize_source(input) {
            Result::Ok(ts) => ts,
            Result::Err(e) => {
                return Result::Err(e);
            },
        };
        let mut parser = ErlParser::new();
        let (ast, consumed): (ErlAst, usize) = match entry {
            ParseEntry::ModuleSource => {
                match parser.parse_module(&toks, 0) {
                    Result::Ok(x) => x,
                    Result::Err(e) => {
                        return Result::Err(e);
                    },
                }
            },
            ParseEntry::ExprSource => {
                match parser.parse_expr(&toks, 0, 0) {
                    Result::Ok(x) => x,
                    Result::Err(e) => {
                        return Result::Err(e);
                    },
                }
            },
            ParseEntry::FunSource => {
                match parser.parse_fndef(&toks, 0) {
                    Result::Ok(x) => x,
                    Result::Err(e) => {
                        return Result::Err(e);
                    },
                }
            },
            ParseEntry::TypeSource => {
                let (ty, p) = match parser.parse_type(&toks, 0) {
                    Result::Ok(x) => x,
                    Result::Err(e) => {
                        return Result::Err(e);
                    },
                };
                let vars: Vec<String> = Vec::new();
                (ErlAst::TypeAttr { name: String::new(), vars, ty }, p)
            },
        };
        if consumed != toks.len() {
            return Result::Err(
                ErlError::parse(
                    SourceLoc::Unknown,
                    Vec::new(),
                    String::from_str("did not consume all input"),
                ),
            );
        }
        Result::Ok(ErlModuleImpl { source_name, ast, tvar_count: parser.next_tvar })
    }

    /// Parse a whole module source.
    pub fn from_module_source(source_name: String, input: &str) -> (r: Result<
        ErlModuleImpl,
        ErlError,
    >)
        ensures
            r matches Result::Ok(m) ==> m.ast@ is Forms,
    {
        Self::parse_helper(source_name, input, ParseEntry::ModuleSource)
    }

    /// Parse a bare expression source. An expression that is one
    /// capitalized name parses to exactly that variable.
    pub fn from_expr_source(source_name: String, input: &str) -> (r: Result<
        ErlModuleImpl,
        ErlError,
    >)
        ensures
            crate::token_stream::single_var_input(input@) ==> (r matches Result::Ok(m) && m.ast@
                == (crate::erl_ast::AstModel::Var {
                name: input@,
                ty: crate::erl_type::TypeModel::TVar(0),
            })),
    {
        Self::parse_helper(source_name, input, ParseEntry::ExprSource)
    }

    /// Parse a bare function definition source.
    pub fn from_fun_source(source_name: String, input: &str) -> (r: Result<
        ErlModuleImpl,
        ErlError,
    >)
        ensures
            r matches Result::Ok(m) ==> m.ast@ is FnDef,
    {
        Self::parse_helper(source_name, input, ParseEntry::FunSource)
    }

    /// Parse a bare type expression source.
    pub fn from_type_source(source_name: String, input: &str) -> (r: Result<
        ErlModuleImpl,
        ErlError,
    >)
        ensures
            r matches Result::Ok(m) ==> m.ast@ is TypeAttr,
    {
        Self::parse_helper(source_name, input, ParseEntry::TypeSource)
    }
}

} // verus!
