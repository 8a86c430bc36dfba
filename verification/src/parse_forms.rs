//! Parsing of top-level forms: function definitions with clauses,
//! module attributes, `-spec`/`-type` type grammar and record
//! definitions.

use vstd::prelude::*;

use crate::erl_ast::ErlAst;
use crate::erl_ast::RecordDefinition;
use crate::erl_ast::RecordField;
use crate::erl_parser::ErlParser;
use crate::erl_type::ErlType;
use crate::erl_type_new::str_eq;
use crate::error::ErlError;
use crate::funarity::FunArity;
use crate::source_loc::SourceLoc;
use crate::token_stream::Token;
use crate::token_stream::TokenKind;

verus! {

/// A parse failure at a token position.
fn ferr(toks: &Vec<Token>, pos: usize, message: &str) -> (r: ErlError) {
    let loc = if pos < toks.len() {
        toks[pos].loc
    } else {
        SourceLoc::Unknown
    };
    ErlError::parse(loc, Vec::new(), message.to_owned())
}

impl ErlParser {
    /// Parse one function definition: clauses separated by `;`, closed
    /// by `.`; all clauses must agree on name and arity.
    pub fn parse_fndef(&mut self, toks: &Vec<Token>, pos: usize) -> (r: Result<
        (ErlAst, usize),
        ErlError,
    >)
        requires
            pos <= toks@.len(),
        ensures
            r matches Result::Ok(p) ==> pos < p.1 <= toks@.len(),
            r matches Result::Ok(p) ==> p.0@ is FnDef,
    {
        let n = toks.len();
        let mut clauses: Vec<ErlAst> = Vec::new();
        let mut fname: Option<String> = Option::None;
        let mut farity: usize = 0;
        let mut p = pos;
        loop
            invariant
                pos <= p <= toks@.len(),
                n == toks@.len(),
            decreases toks@.len() - p,
        {
            let (name, args, guard, body, p2) = match self.parse_fnclause(toks, p) {
                Result::Ok(x) => x,
                Result::Err(e) => {
                    return Result::Err(e);
                },
            };
            let arity = args.len();
            match &fname {
                Option::Some(existing) => {
                    let same = str_eq(existing.as_str(), name.as_str());
                    if !same || arity != farity {
                        return Result::Err(
                            ferr(toks, p, "function clauses disagree on name or arity"),
                        );
                    }
                },
                Option::None => {
                    fname = Option::Some(name);
                    farity = arity;
                },
            }
            clauses.push(
                ErlAst::FClause { args, guard: Box::new(guard), body: Box::new(body) },
            );
            if p2 < n && matches!(toks[p2].kind, TokenKind::Semicolon) {
                if n - p2 <= 1 {
                    return Result::Err(ferr(toks, p2, "expected another function clause"));
                }
                p = p2 + 1;
            } else if p2 < n && matches!(toks[p2].kind, TokenKind::Period) {
                let final_name = match fname {
                    Option::Some(s) => s,
                    Option::None => {
                        return Result::Err(ferr(toks, p2, "function definition without clauses"));
                    },
                };
                let funarity = FunArity::new(final_name, farity);
                let ret = self.parse_fresh_slot();
                return Result::Ok(
                    (ErlAst::FnDef { funarity, ret, clauses }, p2 + 1),
                );
            } else {
                return Result::Err(ferr(toks, p2, "expected a semicolon or period"));
            }
        }
    }

    /// A fresh type slot, visible to the form parsers.
    fn parse_fresh_slot(&mut self) -> (r: ErlType) {
        let id = self.next_tvar;
        self.next_tvar = if id < u64::MAX {
            id + 1
        } else {
            id
        };
        ErlType::TVar(id)
    }

    /// Parse one function clause `name(Patterns) [when Guard] -> Body`.
    fn parse_fnclause(&mut self, toks: &Vec<Token>, pos: usize) -> (r: Result<
        (String, Vec<ErlAst>, ErlAst, ErlAst, usize),
        ErlError,
    >)
        ensures
            r matches Result::Ok(p) ==> pos < p.4 <= toks@.len(),
    {
        let n = toks.len();
        if pos >= n {
            return Result::Err(ferr(toks, pos, "expected a function clause"));
        }
        let name: String = match &toks[pos].kind {
            TokenKind::Atom(a) => a.clone(),
            _ => {
                return Result::Err(ferr(toks, pos, "expected a function name atom"));
            },
        };
        if !(n - pos > 1 && matches!(toks[pos + 1].kind, TokenKind::ParOpen)) {
            return Result::Err(ferr(toks, pos, "expected an argument list"));
        }
        let mut args: Vec<ErlAst> = Vec::new();
        let mut p = pos + 2;
        if p < n && matches!(toks[p].kind, TokenKind::ParClose) {
            p = p + 1;
        } else {
            loop
                invariant
                    pos < p <= toks@.len(),
                    n == toks@.len(),
                decreases toks@.len() - p,
            {
                if p >= n {
                    return Result::Err(ferr(toks, p, "expected an argument pattern"));
                }
                let (arg, p2) = match self.parse_expr(toks, p, 25) {
                    Result::Ok(x) => x,
                    Result::Err(e) => {
                        return Result::Err(e);
                    },
                };
                args.push(arg);
                p = p2;
                if p < n && matches!(toks[p].kind, TokenKind::Comma) {
                    p = p + 1;
                } else if p < n && matches!(toks[p].kind, TokenKind::ParClose) {
                    p = p + 1;
                    break ;
                } else {
                    return Result::Err(ferr(toks, p, "expected a comma or closing parenthesis"));
                }
            }
        }
        let (guard, p3) = if p < n && matches!(toks[p].kind, TokenKind::KwWhen) {
            if n - p <= 1 {
                return Result::Err(ferr(toks, p, "expected a guard expression"));
            }
            match self.parse_expr(toks, p + 1, 25) {
                Result::Ok(x) => x,
                Result::Err(e) => {
                    return Result::Err(e);
                },
            }
        } else {
            (ErlAst::Lit { value: crate::literal::Literal::Bool(true) }, p)
        };
        if !(p3 < n && matches!(toks[p3].kind, TokenKind::Arrow)) {
            return Result::Err(ferr(toks, p3, "expected an arrow in a function clause"));
        }
        if n - p3 <= 1 {
            return Result::Err(ferr(toks, p3, "expected a clause body"));
        }
        let (body, p4) = match self.parse_body(toks, p3 + 1) {
            Result::Ok(x) => x,
            Result::Err(e) => {
                return Result::Err(e);
            },
        };
        Result::Ok((name, args, guard, body, p4))
    }

    /// Parse a whole translation unit: attributes and function
    /// definitions, in order, into the module root form list.
    pub fn parse_module(&mut self, toks: &Vec<Token>, pos: usize) -> (r: Result<
        (ErlAst, usize),
        ErlError,
    >)
        requires
            pos <= toks@.len(),
        ensures
            r matches Result::Ok(p) ==> pos <= p.1 <= toks@.len(),
            r matches Result::Ok(p) ==> p.0@ is Forms,
    {
        let n = toks.len();
        let mut forms: Vec<ErlAst> = Vec::new();
        let mut p = pos;
        while p < n
            invariant
                pos <= p <= toks@.len(),
                n == toks@.len(),
            decreases toks@.len() - p,
        {
            match &toks[p].kind {
                TokenKind::Minus => {
                    let (form, p2) = match self.parse_attr(toks, p) {
                        Result::Ok(x) => x,
                        Result::Err(e) => {
                            return Result::Err(e);
                        },
                    };
                    forms.push(form);
                    p = p2;
                },
                TokenKind::Atom(_) => {
                    let (form, p2) = match self.parse_fndef(toks, p) {
                        Result::Ok(x) => x,
                        Result::Err(e) => {
                            return Result::Err(e);
                        },
                    };
                    forms.push(form);
                    p = p2;
                },
                _ => {
                    return Result::Err(ferr(toks, p, "expected an attribute or function"));
                },
            }
        }
        Result::Ok((ErlAst::Forms(forms), p))
    }

    /// Parse one `-name(...)` attribute, starting at the dash.
    fn parse_attr(&mut self, toks: &Vec<Token>, pos: usize) -> (r: Result<
        (ErlAst, usize),
        ErlError,
    >)
        requires
            pos < toks@.len(),
        ensures
            r matches Result::Ok(p) ==> pos < p.1 <= toks@.len(),
    {
        let n = toks.len();
        if n - pos <= 1 {
            return Result::Err(ferr(toks, pos, "expected an attribute name"));
        }
        let name: String = match &toks[pos + 1].kind {
            TokenKind::Atom(a) => a.clone(),
            TokenKind::KwIf => String::from_str("if"),
            _ => {
                return Result::Err(ferr(toks, pos, "expected an attribute name"));
            },
        };
        let s = name.as_str();
        if str_eq(s, "module") {
            if n - pos >= 5 && matches!(toks[pos + 2].kind, TokenKind::ParOpen) && matches!(
                toks[pos + 4].kind,
                TokenKind::ParClose,
            ) {
                match &toks[pos + 3].kind {
                    TokenKind::Atom(m) => {
                        if n - pos > 5 && matches!(toks[pos + 5].kind, TokenKind::Period) {
                            let mut args: Vec<String> = Vec::new();
                            args.push(m.clone());
                            return Result::Ok(
                                (ErlAst::ModuleAttr { name, args }, pos + 6),
                            );
                        }
                        return Result::Err(ferr(toks, pos, "expected a period"));
                    },
                    _ => {
                        return Result::Err(ferr(toks, pos, "expected a module name atom"));
                    },
                }
            }
            return Result::Err(ferr(toks, pos, "malformed module attribute"));
        } else if str_eq(s, "export") {
            return self.parse_export_attr(toks, pos);
        } else if str_eq(s, "import") {
            return self.parse_import_attr(toks, pos);
        } else if str_eq(s, "spec") {
            return self.parse_fn_spec(toks, pos);
        } else if str_eq(s, "type") {
            return self.parse_new_type_attr(toks, pos);
        } else if str_eq(s, "record") {
            return self.parse_record_def(toks, pos);
        } else {
            // Generic attribute: skip a balanced argument list to the
            // closing period.
            let mut p = pos + 2;
            let mut depth: usize = 0;
            while p < n
                invariant
                    pos < p <= toks@.len(),
                    n == toks@.len(),
                decreases toks@.len() - p,
            {
                match &toks[p].kind {
                    TokenKind::ParOpen | TokenKind::SquareOpen | TokenKind::CurlyOpen => {
                        depth = if depth < usize::MAX {
                            depth + 1
                        } else {
                            depth
                        };
                    },
                    TokenKind::ParClose | TokenKind::SquareClose | TokenKind::CurlyClose => {
                        depth = if depth > 0 {
                            depth - 1
                        } else {
                            0
                        };
                    },
                    TokenKind::Period => {
                        if depth == 0 {
                            let args: Vec<String> = Vec::new();
                            return Result::Ok((ErlAst::ModuleAttr { name, args }, p + 1));
                        }
                    },
                    _ => {},
                }
                p = p + 1;
            }
            return Result::Err(ferr(toks, p, "unterminated attribute"));
        }
    }

    /// Parse `fun/arity` pairs in `[...]`, starting at the bracket.
    fn parse_funarity_list(&mut self, toks: &Vec<Token>, pos: usize) -> (r: Result<
        (Vec<FunArity>, usize),
        ErlError,
    >)
        requires
            pos < toks@.len(),
        ensures
            r matches Result::Ok(p) ==> pos < p.1 <= toks@.len(),
    {
        let n = toks.len();
        if !matches!(toks[pos].kind, TokenKind::SquareOpen) {
            return Result::Err(ferr(toks, pos, "expected an opening bracket"));
        }
        let mut out: Vec<FunArity> = Vec::new();
        let mut p = pos + 1;
        loop
            invariant
                pos < p <= toks@.len(),
                n == toks@.len(),
            decreases toks@.len() - p,
        {
            if !(n - p > 2) {
                return Result::Err(ferr(toks, p, "expected a name/arity pair"));
            }
            let fa: FunArity = match (&toks[p].kind, &toks[p + 1].kind, &toks[p + 2].kind) {
                (TokenKind::Atom(a), TokenKind::Slash, TokenKind::Int(k)) => {
                    let arity: usize = if *k >= 0 && *k <= 65535 {
                        *k as usize
                    } else {
                        return Result::Err(ferr(toks, p, "arity out of range"));
                    };
                    FunArity::new(a.clone(), arity)
                },
                _ => {
                    return Result::Err(ferr(toks, p, "expected a name/arity pair"));
                },
            };
            out.push(fa);
            p = p + 3;
            if p < n && matches!(toks[p].kind, TokenKind::Comma) {
                p = p + 1;
            } else if p < n && matches!(toks[p].kind, TokenKind::SquareClose) {
                return Result::Ok((out, p + 1));
            } else {
                return Result::Err(ferr(toks, p, "expected a comma or closing bracket"));
            }
        }
    }

    /// Parse `-export([f/1, ...]).`, starting at the dash.
    fn parse_export_attr(&mut self, toks: &Vec<Token>, pos: usize) -> (r: Result<
        (ErlAst, usize),
        ErlError,
    >)
        requires
            pos < toks@.len(),
        ensures
            r matches Result::Ok(p) ==> pos < p.1 <= toks@.len(),
    {
        let n = toks.len();
        if !(n - pos > 2 && matches!(toks[pos + 2].kind, TokenKind::ParOpen)) {
            return Result::Err(ferr(toks, pos, "expected a parenthesized export list"));
        }
        if n - pos <= 3 {
            return Result::Err(ferr(toks, pos, "expected an export list"));
        }
        let (funarities, p1) = match self.parse_funarity_list(toks, pos + 3) {
            Result::Ok(x) => x,
            Result::Err(e) => {
                return Result::Err(e);
            },
        };
        if n - p1 > 1 && matches!(toks[p1].kind, TokenKind::ParClose) && matches!(
            toks[p1 + 1].kind,
            TokenKind::Period,
        ) {
            Result::Ok((ErlAst::ExportAttr { funarities }, p1 + 2))
        } else {
            Result::Err(ferr(toks, p1, "expected a closing parenthesis and period"))
        }
    }

    /// Parse `-import(mod, [f/1, ...]).`, starting at the dash.
    fn parse_import_attr(&mut self, toks: &Vec<Token>, pos: usize) -> (r: Result<
        (ErlAst, usize),
        ErlError,
    >)
        requires
            pos < toks@.len(),
        ensures
            r matches Result::Ok(p) ==> pos < p.1 <= toks@.len(),
    {
        let n = toks.len();
        if !(n - pos > 4 && matches!(toks[pos + 2].kind, TokenKind::ParOpen) && matches!(
            toks[pos + 4].kind,
            TokenKind::Comma,
        )) {
            return Result::Err(ferr(toks, pos, "malformed import attribute"));
        }
        let module: String = match &toks[pos + 3].kind {
            TokenKind::Atom(m) => m.clone(),
            _ => {
                return Result::Err(ferr(toks, pos, "expected a module name atom"));
            },
        };
        if n - pos <= 5 {
            return Result::Err(ferr(toks, pos, "expected an import list"));
        }
        let (funarities, p1) = match self.parse_funarity_list(toks, pos + 5) {
            Result::Ok(x) => x,
            Result::Err(e) => {
                return Result::Err(e);
            },
        };
        if n - p1 > 1 && matches!(toks[p1].kind, TokenKind::ParClose) && matches!(
            toks[p1 + 1].kind,
            TokenKind::Period,
        ) {
            Result::Ok((ErlAst::ImportAttr { module, funarities }, p1 + 2))
        } else {
            Result::Err(ferr(toks, p1, "expected a closing parenthesis and period"))
        }
    }

    /// Parse `-spec name(Types) -> Type [when ...] ; ... .`, starting at
    /// the dash; all clauses must agree on arity, and the attribute's
    /// type is the union of the clause function types.
    pub fn parse_fn_spec(&mut self, toks: &Vec<Token>, pos: usize) -> (r: Result<
        (ErlAst, usize),
        ErlError,
    >)
        requires
            pos < toks@.len(),
        ensures
            r matches Result::Ok(p) ==> pos < p.1 <= toks@.len(),
    {
        let n = toks.len();
        if n - pos <= 2 {
            return Result::Err(ferr(toks, pos, "expected a function name in the spec"));
        }
        let fname: String = match &toks[pos + 2].kind {
            TokenKind::Atom(a) => a.clone(),
            _ => {
                return Result::Err(ferr(toks, pos, "expected a function name in the spec"));
            },
        };
        let mut clause_types: Vec<ErlType> = Vec::new();
        let mut arity: usize = 0;
        let mut first = true;
        let mut p = pos + 3;
        loop
            invariant
                pos < p <= toks@.len(),
                n == toks@.len(),
            decreases toks@.len() - p,
        {
            if p >= n {
                return Result::Err(ferr(toks, p, "expected an argument type list"));
            }
            let (args, p1) = match self.parse_spec_arg_list(toks, p) {
                Result::Ok(x) => x,
                Result::Err(e) => {
                    return Result::Err(e);
                },
            };
            if first {
                arity = args.len();
                first = false;
            } else if args.len() != arity {
                return Result::Err(
                    ferr(toks, p, "specification clauses disagree on arity"),
                );
            }
            if !(p1 < n && matches!(toks[p1].kind, TokenKind::Arrow)) {
                return Result::Err(ferr(toks, p1, "expected an arrow in the spec"));
            }
            if n - p1 <= 1 {
                return Result::Err(ferr(toks, p1, "expected a return type"));
            }
            let (ret, p2) = match self.parse_type(toks, p1 + 1) {
                Result::Ok(x) => x,
                Result::Err(e) => {
                    return Result::Err(e);
                },
            };
            let mut q = p2;
            if q < n && matches!(toks[q].kind, TokenKind::KwWhen) {
                let q2 = match self.parse_when_constraints(toks, q) {
                    Result::Ok(x) => x,
                    Result::Err(e) => {
                        return Result::Err(e);
                    },
                };
                q = q2;
            }
            clause_types.push(ErlType::new_fn_type(args, ret));
            if q < n && matches!(toks[q].kind, TokenKind::Semicolon) {
                if n - q <= 1 {
                    return Result::Err(ferr(toks, q, "expected another spec clause"));
                }
                p = q + 1;
            } else if q < n && matches!(toks[q].kind, TokenKind::Period) {
                let funarity = FunArity::new(fname, arity);
                let spec_ty = if clause_types.len() == 1 {
                    let mut cs = clause_types;
                    cs.pop().unwrap()
                } else {
                    ErlType::union_of(clause_types)
                };
                return Result::Ok((ErlAst::FnSpec { funarity, spec_ty }, q + 1));
            } else {
                return Result::Err(ferr(toks, q, "expected a semicolon or period"));
            }
        }
    }

    /// Parse a parenthesized comma-separated argument type list.
    fn parse_spec_arg_list(&mut self, toks: &Vec<Token>, pos: usize) -> (r: Result<
        (Vec<ErlType>, usize),
        ErlError,
    >)
        requires
            pos < toks@.len(),
        ensures
            r matches Result::Ok(p) ==> pos < p.1 <= toks@.len(),
    {
        let n = toks.len();
        if !matches!(toks[pos].kind, TokenKind::ParOpen) {
            return Result::Err(ferr(toks, pos, "expected an argument type list"));
        }
        let mut out: Vec<ErlType> = Vec::new();
        let mut p = pos + 1;
        if p < n && matches!(toks[p].kind, TokenKind::ParClose) {
            return Result::Ok((out, p + 1));
        }
        loop
            invariant
                pos < p <= toks@.len(),
                n == toks@.len(),
            decreases toks@.len() - p,
        {
            if p >= n {
                return Result::Err(ferr(toks, p, "expected an argument type"));
            }
            let (t, p2) = match self.parse_type_with_var_prefix(toks, p) {
                Result::Ok(x) => x,
                Result::Err(e) => {
                    return Result::Err(e);
                },
            };
            out.push(t);
            p = p2;
            if p < n && matches!(toks[p].kind, TokenKind::Comma) {
                p = p + 1;
            } else if p < n && matches!(toks[p].kind, TokenKind::ParClose) {
                return Result::Ok((out, p + 1));
            } else {
                return Result::Err(ferr(toks, p, "expected a comma or closing parenthesis"));
            }
        }
    }

    /// Parse `Var :: Type`, a bare `Var`, or a plain type.
    fn parse_type_with_var_prefix(&mut self, toks: &Vec<Token>, pos: usize) -> (r: Result<
        (ErlType, usize),
        ErlError,
    >)
        requires
            pos < toks@.len(),
        ensures
            r matches Result::Ok(p) ==> pos < p.1 <= toks@.len(),
    {
        let n = toks.len();
        if matches!(toks[pos].kind, TokenKind::Var(_)) && n - pos > 1 && matches!(
            toks[pos + 1].kind,
            TokenKind::DoubleColon,
        ) {
            if n - pos <= 2 {
                return Result::Err(ferr(toks, pos, "expected a type after the ascription"));
            }
            let (t, p2) = match self.parse_type(toks, pos + 2) {
                Result::Ok(x) => x,
                Result::Err(e) => {
                    return Result::Err(e);
                },
            };
            return Result::Ok((t, p2));
        }
        self.parse_type(toks, pos)
    }

    /// Parse and check a `when Var :: Type, ...` constraint list,
    /// returning the position after it.
    fn parse_when_constraints(&mut self, toks: &Vec<Token>, pos: usize) -> (r: Result<
        usize,
        ErlError,
    >)
        requires
            pos < toks@.len(),
        ensures
            r matches Result::Ok(p) ==> pos < p <= toks@.len(),
    {
        let n = toks.len();
        let mut p = pos + 1;
        loop
            invariant
                pos < p <= toks@.len(),
                n == toks@.len(),
            decreases toks@.len() - p,
        {
            if !(n - p > 1 && matches!(toks[p].kind, TokenKind::Var(_)) && matches!(
                toks[p + 1].kind,
                TokenKind::DoubleColon,
            )) {
                return Result::Err(ferr(toks, p, "expected a constrained type variable"));
            }
            if n - p <= 2 {
                return Result::Err(ferr(toks, p, "expected a type in the constraint"));
            }
            let (_t, p2) = match self.parse_type(toks, p + 2) {
                Result::Ok(x) => x,
                Result::Err(e) => {
                    return Result::Err(e);
                },
            };
            if p2 < n && matches!(toks[p2].kind, TokenKind::Comma) {
                if n - p2 <= 1 {
                    return Result::Err(ferr(toks, p2, "expected another constraint"));
                }
                p = p2 + 1;
            } else {
                return Result::Ok(p2);
            }
        }
    }

    /// Parse `-type name(Vars) :: Type.`, starting at the dash.
    fn parse_new_type_attr(&mut self, toks: &Vec<Token>, pos: usize) -> (r: Result<
        (ErlAst, usize),
        ErlError,
    >)
        requires
            pos < toks@.len(),
        ensures
            r matches Result::Ok(p) ==> pos < p.1 <= toks@.len(),
    {
        let n = toks.len();
        if n - pos <= 2 {
            return Result::Err(ferr(toks, pos, "expected a type name"));
        }
        let tname: String = match &toks[pos + 2].kind {
            TokenKind::Atom(a) => a.clone(),
            _ => {
                return Result::Err(ferr(toks, pos, "expected a type name"));
            },
        };
        let mut vars: Vec<String> = Vec::new();
        let mut p = pos + 3;
        if p < n && matches!(toks[p].kind, TokenKind::ParOpen) {
            p = p + 1;
            if p < n && matches!(toks[p].kind, TokenKind::ParClose) {
                p = p + 1;
            } else {
                loop
                    invariant
                        pos < p <= toks@.len(),
                        n == toks@.len(),
                    decreases toks@.len() - p,
                {
                    if p >= n {
                        return Result::Err(ferr(toks, p, "expected a type variable"));
                    }
                    match &toks[p].kind {
                        TokenKind::Var(v) => {
                            vars.push(v.clone());
                        },
                        _ => {
                            return Result::Err(ferr(toks, p, "expected a type variable"));
                        },
                    }
                    p = p + 1;
                    if p < n && matches!(toks[p].kind, TokenKind::Comma) {
                        p = p + 1;
                    } else if p < n && matches!(toks[p].kind, TokenKind::ParClose) {
                        p = p + 1;
                        break ;
                    } else {
                        return Result::Err(
                            ferr(toks, p, "expected a comma or closing parenthesis"),
                        );
                    }
                }
            }
        }
        if !(p < n && matches!(toks[p].kind, TokenKind::DoubleColon)) {
            return Result::Err(ferr(toks, p, "expected a double colon"));
        }
        if n - p <= 1 {
            return Result::Err(ferr(toks, p, "expected a type definition"));
        }
        let (ty, p2) = match self.parse_type(toks, p + 1) {
            Result::Ok(x) => x,
            Result::Err(e) => {
                return Result::Err(e);
            },
        };
        if p2 < n && matches!(toks[p2].kind, TokenKind::Period) {
            Result::Ok((ErlAst::TypeAttr { name: tname, vars, ty }, p2 + 1))
        } else {
            Result::Err(ferr(toks, p2, "expected a period"))
        }
    }

    /// Parse `-record(tag, {field [= Default] [:: Type], ...}).`,
    /// starting at the dash.
    fn parse_record_def(&mut self, toks: &Vec<Token>, pos: usize) -> (r: Result<
        (ErlAst, usize),
        ErlError,
    >)
        requires
            pos < toks@.len(),
        ensures
            r matches Result::Ok(p) ==> pos < p.1 <= toks@.len(),
    {
        let n = toks.len();
        if !(n - pos > 4 && matches!(toks[pos + 2].kind, TokenKind::ParOpen) && matches!(
            toks[pos + 4].kind,
            TokenKind::Comma,
        )) {
            return Result::Err(ferr(toks, pos, "malformed record definition"));
        }
        let tag: String = match &toks[pos + 3].kind {
            TokenKind::Atom(a) => a.clone(),
            _ => {
                return Result::Err(ferr(toks, pos, "expected a record tag atom"));
            },
        };
        if !(n - pos > 5 && matches!(toks[pos + 5].kind, TokenKind::CurlyOpen)) {
            return Result::Err(ferr(toks, pos, "expected a record field list"));
        }
        let mut fields: Vec<RecordField> = Vec::new();
        let mut p = pos + 6;
        if p < n && matches!(toks[p].kind, TokenKind::CurlyClose) {
            p = p + 1;
        } else {
            loop
                invariant
                    pos < p <= toks@.len(),
                    n == toks@.len(),
                decreases toks@.len() - p,
            {
                if p >= n {
                    return Result::Err(ferr(toks, p, "expected a record field"));
                }
                let field_tag: String = match &toks[p].kind {
                    TokenKind::Atom(a) => a.clone(),
                    _ => {
                        return Result::Err(ferr(toks, p, "expected a record field atom"));
                    },
                };
                let mut q = p + 1;
                let initializer: Option<Box<ErlAst>> = if q < n && matches!(
                    toks[q].kind,
                    TokenKind::Equal,
                ) {
                    if n - q <= 1 {
                        return Result::Err(ferr(toks, q, "expected a field default"));
                    }
                    let (e, q2) = match self.parse_expr(toks, q + 1, 25) {
                        Result::Ok(x) => x,
                        Result::Err(e) => {
                            return Result::Err(e);
                        },
                    };
                    q = q2;
                    Option::Some(Box::new(e))
                } else {
                    Option::None
                };
                let type_ascription: Option<ErlType> = if q < n && matches!(
                    toks[q].kind,
                    TokenKind::DoubleColon,
                ) {
                    if n - q <= 1 {
                        return Result::Err(ferr(toks, q, "expected a field type"));
                    }
                    let (t, q2) = match self.parse_type(toks, q + 1) {
                        Result::Ok(x) => x,
                        Result::Err(e) => {
                            return Result::Err(e);
                        },
                    };
                    q = q2;
                    Option::Some(t)
                } else {
                    Option::None
                };
                fields.push(RecordField { field_tag, initializer, type_ascription });
                if q < n && matches!(toks[q].kind, TokenKind::Comma) {
                    if n - q <= 1 {
                        return Result::Err(ferr(toks, q, "expected another record field"));
                    }
                    p = q + 1;
                } else if q < n && matches!(toks[q].kind, TokenKind::CurlyClose) {
                    p = q + 1;
                    break ;
                } else {
                    return Result::Err(ferr(toks, q, "expected a comma or closing brace"));
                }
            }
        }
        if n - p > 1 && matches!(toks[p].kind, TokenKind::ParClose) && matches!(
            toks[p + 1].kind,
            TokenKind::Period,
        ) {
            Result::Ok((ErlAst::RecordAttr(RecordDefinition { tag, fields }), p + 2))
        } else {
            Result::Err(ferr(toks, p, "expected a closing parenthesis and period"))
        }
    }

    /// Parse a type expression: non-union alternatives joined by `|`.
    pub fn parse_type(&mut self, toks: &Vec<Token>, pos: usize) -> (r: Result<
        (ErlType, usize),
        ErlError,
    >)
        ensures
            r matches Result::Ok(p) ==> pos < p.1 <= toks@.len(),
        decreases toks@.len() - pos, 2int,
    {
        let n = toks.len();
        let (first, p1) = match self.parse_nonunion_type(toks, pos) {
            Result::Ok(x) => x,
            Result::Err(e) => {
                return Result::Err(e);
            },
        };
        let mut members: Vec<ErlType> = Vec::new();
        members.push(first);
        let mut p = p1;
        while p < n && matches!(toks[p].kind, TokenKind::Pipe)
            invariant
                pos < p <= toks@.len(),
                n == toks@.len(),
                members@.len() >= 1,
            decreases toks@.len() - p,
        {
            if n - p <= 1 {
                return Result::Err(ferr(toks, p, "expected a union alternative"));
            }
            let (next, p2) = match self.parse_nonunion_type(toks, p + 1) {
                Result::Ok(x) => x,
                Result::Err(e) => {
                    return Result::Err(e);
                },
            };
            members.push(next);
            p = p2;
        }
        if members.len() == 1 {
            let single = members.pop().unwrap();
            Result::Ok((single, p))
        } else {
            Result::Ok((ErlType::union_of(members), p))
        }
    }

    /// Parse a type without a top-level union: a named type with optional
    /// arguments, a type variable, an integer literal type, a list type
    /// or a tuple type. Unknown named types and type variables read as
    /// the top type.
    pub fn parse_nonunion_type(&mut self, toks: &Vec<Token>, pos: usize) -> (r: Result<
        (ErlType, usize),
        ErlError,
    >)
        ensures
            r matches Result::Ok(p) ==> pos < p.1 <= toks@.len(),
        decreases toks@.len() - pos, 1int,
    {
        let n = toks.len();
        if pos >= n {
            return Result::Err(ferr(toks, pos, "expected a type"));
        }
        match &toks[pos].kind {
            TokenKind::Int(v) => Result::Ok((ErlType::integer_literal(*v), pos + 1)),
            TokenKind::Var(_) => Result::Ok((ErlType::any(), pos + 1)),
            TokenKind::SquareOpen => {
                if n - pos > 1 && matches!(toks[pos + 1].kind, TokenKind::SquareClose) {
                    return Result::Ok((ErlType::any_list(), pos + 2));
                }
                let (inner, p2) = match self.parse_type(toks, pos + 1) {
                    Result::Ok(x) => x,
                    Result::Err(e) => {
                        return Result::Err(e);
                    },
                };
                if p2 < n && matches!(toks[p2].kind, TokenKind::SquareClose) {
                    Result::Ok((ErlType::list_of(inner), p2 + 1))
                } else {
                    Result::Err(ferr(toks, p2, "expected a closing bracket in a list type"))
                }
            },
            TokenKind::CurlyOpen => {
                let mut elements: Vec<ErlType> = Vec::new();
                let mut p = pos + 1;
                if p < n && matches!(toks[p].kind, TokenKind::CurlyClose) {
                    return Result::Ok((ErlType::new_tuple(elements), p + 1));
                }
                loop
                    invariant
                        pos < p <= toks@.len(),
                        n == toks@.len(),
                    decreases toks@.len() - p,
                {
                    if p >= n {
                        return Result::Err(ferr(toks, p, "expected a tuple element type"));
                    }
                    let (t, p2) = match self.parse_type(toks, p) {
                        Result::Ok(x) => x,
                        Result::Err(e) => {
                            return Result::Err(e);
                        },
                    };
                    elements.push(t);
                    p = p2;
                    if p < n && matches!(toks[p].kind, TokenKind::Comma) {
                        p = p + 1;
                    } else if p < n && matches!(toks[p].kind, TokenKind::CurlyClose) {
                        return Result::Ok((ErlType::new_tuple(elements), p + 1));
                    } else {
                        return Result::Err(ferr(toks, p, "expected a comma or closing brace"));
                    }
                }
            },
            TokenKind::Atom(name) => {
                let mut p = pos + 1;
                let mut args: Vec<ErlType> = Vec::new();
                if p < n && matches!(toks[p].kind, TokenKind::ParOpen) {
                    p = p + 1;
                    if p < n && matches!(toks[p].kind, TokenKind::ParClose) {
                        p = p + 1;
                    } else {
                        loop
                            invariant
                                pos < p <= toks@.len(),
                                n == toks@.len(),
                            decreases toks@.len() - p,
                        {
                            if p >= n {
                                return Result::Err(ferr(toks, p, "expected a type argument"));
                            }
                            let (t, p2) = match self.parse_type(toks, p) {
                                Result::Ok(x) => x,
                                Result::Err(e) => {
                                    return Result::Err(e);
                                },
                            };
                            args.push(t);
                            p = p2;
                            if p < n && matches!(toks[p].kind, TokenKind::Comma) {
                                p = p + 1;
                            } else if p < n && matches!(toks[p].kind, TokenKind::ParClose) {
                                p = p + 1;
                                break ;
                            } else {
                                return Result::Err(
                                    ferr(toks, p, "expected a comma or closing parenthesis"),
                                );
                            }
                        }
                    }
                }
                let s = name.as_str();
                let ty = if str_eq(s, "integer") || str_eq(s, "pos_integer") || str_eq(
                    s,
                    "non_neg_integer",
                ) {
                    ErlType::integer()
                } else if str_eq(s, "float") {
                    ErlType::float()
                } else if str_eq(s, "number") {
                    ErlType::number()
                } else if str_eq(s, "atom") {
                    ErlType::atom()
                } else if str_eq(s, "boolean") || str_eq(s, "bool") {
                    ErlType::boolean()
                } else if str_eq(s, "any") || str_eq(s, "term") {
                    ErlType::any()
                } else if str_eq(s, "none") {
                    ErlType::none_type()
                } else if str_eq(s, "nil") {
                    ErlType::nil()
                } else if str_eq(s, "string") {
                    ErlType::string_type()
                } else if str_eq(s, "pid") {
                    ErlType::Pid
                } else if str_eq(s, "reference") {
                    ErlType::Reference
                } else if str_eq(s, "binary") || str_eq(s, "bitstring") {
                    ErlType::Binary
                } else if str_eq(s, "list") {
                    if args.len() == 1 {
                        let mut args = args;
                        let inner = args.pop().unwrap();
                        ErlType::list_of(inner)
                    } else {
                        ErlType::any_list()
                    }
                } else {
                    ErlType::any()
                };
                Result::Ok((ty, p))
            },
            _ => Result::Err(ferr(toks, pos, "expected a type")),
        }
    }
}

} // verus!
