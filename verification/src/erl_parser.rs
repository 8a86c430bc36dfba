//! Recursive-descent parser over the token stream: expressions with
//! precedence climbing, `case` clauses, binary literals, function
//! definitions, module attributes and the type grammar.
//!
//! Every parsing function either fails or makes progress: on success the
//! new position lies strictly beyond the old one and within the stream.
//! A top-level entry point that leaves input unconsumed is a fatal
//! error, raised by the `module` entry points, never a silent partial
//! tree.

use vstd::prelude::*;

use crate::erl_ast::BinaryElement;
use crate::erl_ast::BinaryOperatorExpr;
use crate::erl_ast::Call;
use crate::erl_ast::CaseExprNode;
use crate::erl_ast::ErlAst;
use crate::erl_ast::TypeSpecifier;
use crate::erl_ast::UnaryOperatorExpr;
use crate::erl_ast::ValueEndianness;
use crate::erl_ast::ValueSignedness;
use crate::erl_ast::ValueType;
use crate::erl_ast::ValueWidth;
use crate::erl_ast::Var;
use crate::erl_op::ErlBinaryOp;
use crate::erl_op::ErlUnaryOp;
use crate::erl_type::ErlType;
use crate::erl_type_new::str_eq;
use crate::error::ErlError;
use crate::literal::Literal;
use crate::source_loc::SourceLoc;
use crate::token_stream::Token;
use crate::token_stream::TokenKind;

verus! {

/// The parser's mutable state: fresh type-variable numbering for the
/// slots the inference engine will constrain.
#[derive(Debug)]
pub struct ErlParser {
    /// The next unused type-variable identifier.
    pub next_tvar: u64,
}

/// A parse failure at a token position.
fn perr(toks: &Vec<Token>, pos: usize, message: &str) -> (r: ErlError) {
    let loc = if pos < toks.len() {
        toks[pos].loc
    } else {
        SourceLoc::Unknown
    };
    ErlError::parse(loc, Vec::new(), message.to_owned())
}

impl ErlParser {
    /// A parser with fresh numbering.
    pub fn new() -> (r: ErlParser)
        ensures
            r.next_tvar == 0,
    {
        ErlParser { next_tvar: 0 }
    }

    /// The next fresh type variable slot.
    fn fresh(&mut self) -> (r: ErlType)
        ensures
            r@ == crate::erl_type::TypeModel::TVar(old(self).next_tvar as int),
    {
        let id = self.next_tvar;
        self.next_tvar = if id < u64::MAX {
            id + 1
        } else {
            id
        };
        ErlType::TVar(id)
    }

    /// The literal `true`, used as the guard of guardless clauses.
    fn true_guard(&mut self) -> (r: ErlAst) {
        ErlAst::Lit { value: Literal::Bool(true) }
    }

    /// Parse a primary expression: a literal, variable, application,
    /// parenthesized expression, list, tuple, `case` or binary literal.
    pub fn parse_primary(&mut self, toks: &Vec<Token>, pos: usize) -> (r: Result<
        (ErlAst, usize),
        ErlError,
    >)
        ensures
            r matches Result::Ok(p) ==> pos < p.1 <= toks@.len(),
            (pos == 0 && toks@.len() == 1 && (toks@[0].kind matches TokenKind::Var(nm))) ==> (r
                matches Result::Ok(p) && p.1 == 1 && p.0@ == (crate::erl_ast::AstModel::Var {
                name: toks@[0].kind->Var_0@,
                ty: crate::erl_type::TypeModel::TVar(old(self).next_tvar as int),
            })),
        decreases toks@.len() - pos, 1int,
    {
        if pos >= toks.len() {
            return Result::Err(perr(toks, pos, "expected an expression"));
        }
        match &toks[pos].kind {
            TokenKind::Int(v) => Result::Ok((ErlAst::Lit { value: Literal::Integer(*v) }, pos + 1)),
            TokenKind::Flt(f) => Result::Ok((ErlAst::Lit { value: Literal::Float(*f) }, pos + 1)),
            TokenKind::Str(s) => Result::Ok(
                (ErlAst::Lit { value: Literal::Str(s.clone()) }, pos + 1),
            ),
            TokenKind::Atom(name) => {
                if pos + 1 < toks.len() && matches!(toks[pos + 1].kind, TokenKind::ParOpen) {
                    let (args, p2) = match self.parse_call_args(toks, pos + 1) {
                        Result::Ok(x) => x,
                        Result::Err(e) => {
                            return Result::Err(e);
                        },
                    };
                    let target = Box::new(ErlAst::Lit { value: Literal::Atom(name.clone()) });
                    let ret_ty = self.fresh();
                    Result::Ok((ErlAst::Apply(Call { target, args, ret_ty }), p2))
                } else {
                    Result::Ok((ErlAst::Lit { value: Literal::Atom(name.clone()) }, pos + 1))
                }
            },
            TokenKind::Var(name) => {
                if pos + 1 < toks.len() && matches!(toks[pos + 1].kind, TokenKind::ParOpen) {
                    let (args, p2) = match self.parse_call_args(toks, pos + 1) {
                        Result::Ok(x) => x,
                        Result::Err(e) => {
                            return Result::Err(e);
                        },
                    };
                    let ty = self.fresh();
                    let target = Box::new(ErlAst::Var(Var { name: name.clone(), ty }));
                    let ret_ty = self.fresh();
                    Result::Ok((ErlAst::Apply(Call { target, args, ret_ty }), p2))
                } else {
                    let ty = self.fresh();
                    Result::Ok((ErlAst::Var(Var { name: name.clone(), ty }), pos + 1))
                }
            },
            TokenKind::ParOpen => {
                let (inner, p2) = match self.parse_expr(toks, pos + 1, 0) {
                    Result::Ok(x) => x,
                    Result::Err(e) => {
                        return Result::Err(e);
                    },
                };
                if p2 < toks.len() && matches!(toks[p2].kind, TokenKind::ParClose) {
                    Result::Ok((inner, p2 + 1))
                } else {
                    Result::Err(perr(toks, p2, "expected a closing parenthesis"))
                }
            },
            TokenKind::SquareOpen => self.parse_list(toks, pos),
            TokenKind::CurlyOpen => self.parse_tuple(toks, pos),
            TokenKind::KwCase => self.parse_case(toks, pos),
            TokenKind::LtLt => self.parse_binary_lit(toks, pos),
            _ => Result::Err(perr(toks, pos, "unexpected token in expression")),
        }
    }

    /// Parse the `(args...)` of an application, starting at the opening
    /// parenthesis.
    fn parse_call_args(&mut self, toks: &Vec<Token>, pos: usize) -> (r: Result<
        (Vec<ErlAst>, usize),
        ErlError,
    >)
        requires
            pos < toks@.len(),
        ensures
            r matches Result::Ok(p) ==> pos < p.1 <= toks@.len(),
        decreases toks@.len() - pos, 0int,
    {
        let n = toks.len();
        let mut args: Vec<ErlAst> = Vec::new();
        let mut p = pos + 1;
        if p < toks.len() && matches!(toks[p].kind, TokenKind::ParClose) {
            return Result::Ok((args, p + 1));
        }
        loop
            invariant
                pos < p <= toks@.len(),
            decreases toks@.len() - p,
        {
            let (arg, p2) = match self.parse_expr(toks, p, 0) {
                Result::Ok(x) => x,
                Result::Err(e) => {
                    return Result::Err(e);
                },
            };
            args.push(arg);
            p = p2;
            if p < toks.len() && matches!(toks[p].kind, TokenKind::Comma) {
                p = p + 1;
                if p >= toks.len() {
                    return Result::Err(perr(toks, p, "expected an argument"));
                }
            } else if p < toks.len() && matches!(toks[p].kind, TokenKind::ParClose) {
                return Result::Ok((args, p + 1));
            } else {
                return Result::Err(perr(toks, p, "expected a comma or closing parenthesis"));
            }
        }
    }

    /// Parse a list `[...]` with an optional `| Tail`.
    fn parse_list(&mut self, toks: &Vec<Token>, pos: usize) -> (r: Result<
        (ErlAst, usize),
        ErlError,
    >)
        requires
            pos < toks@.len(),
        ensures
            r matches Result::Ok(p) ==> pos < p.1 <= toks@.len(),
        decreases toks@.len() - pos, 0int,
    {
        let n = toks.len();
        let mut p = pos + 1;
        if p < toks.len() && matches!(toks[p].kind, TokenKind::SquareClose) {
            return Result::Ok((ErlAst::Lit { value: Literal::Nil }, p + 1));
        }
        let mut elements: Vec<ErlAst> = Vec::new();
        loop
            invariant
                pos < p <= toks@.len(),
            decreases toks@.len() - p,
        {
            let (e, p2) = match self.parse_expr(toks, p, 0) {
                Result::Ok(x) => x,
                Result::Err(e) => {
                    return Result::Err(e);
                },
            };
            elements.push(e);
            p = p2;
            if p < toks.len() && matches!(toks[p].kind, TokenKind::Comma) {
                p = p + 1;
                if p >= toks.len() {
                    return Result::Err(perr(toks, p, "expected a list element"));
                }
            } else if p < toks.len() && matches!(toks[p].kind, TokenKind::Pipe) {
                let (t, p3) = match self.parse_expr(toks, p + 1, 0) {
                    Result::Ok(x) => x,
                    Result::Err(e) => {
                        return Result::Err(e);
                    },
                };
                if p3 < toks.len() && matches!(toks[p3].kind, TokenKind::SquareClose) {
                    return Result::Ok(
                        (
                            ErlAst::ListExpr { elements, tail: Option::Some(Box::new(t)) },
                            p3 + 1,
                        ),
                    );
                }
                return Result::Err(perr(toks, p3, "expected a closing bracket"));
            } else if p < toks.len() && matches!(toks[p].kind, TokenKind::SquareClose) {
                return Result::Ok((ErlAst::ListExpr { elements, tail: Option::None }, p + 1));
            } else {
                return Result::Err(perr(toks, p, "expected a comma, pipe or closing bracket"));
            }
        }
    }

    /// Parse a tuple `{...}`.
    fn parse_tuple(&mut self, toks: &Vec<Token>, pos: usize) -> (r: Result<
        (ErlAst, usize),
        ErlError,
    >)
        requires
            pos < toks@.len(),
        ensures
            r matches Result::Ok(p) ==> pos < p.1 <= toks@.len(),
        decreases toks@.len() - pos, 0int,
    {
        let n = toks.len();
        let mut p = pos + 1;
        if p < toks.len() && matches!(toks[p].kind, TokenKind::CurlyClose) {
            let elements: Vec<ErlAst> = Vec::new();
            return Result::Ok((ErlAst::TupleExpr { elements }, p + 1));
        }
        let mut elements: Vec<ErlAst> = Vec::new();
        loop
            invariant
                pos < p <= toks@.len(),
            decreases toks@.len() - p,
        {
            let (e, p2) = match self.parse_expr(toks, p, 0) {
                Result::Ok(x) => x,
                Result::Err(e) => {
                    return Result::Err(e);
                },
            };
            elements.push(e);
            p = p2;
            if p < toks.len() && matches!(toks[p].kind, TokenKind::Comma) {
                p = p + 1;
                if p >= toks.len() {
                    return Result::Err(perr(toks, p, "expected a tuple element"));
                }
            } else if p < toks.len() && matches!(toks[p].kind, TokenKind::CurlyClose) {
                return Result::Ok((ErlAst::TupleExpr { elements }, p + 1));
            } else {
                return Result::Err(perr(toks, p, "expected a comma or closing brace"));
            }
        }
    }

    /// Parse `case Expr of Clause; ... end`.
    fn parse_case(&mut self, toks: &Vec<Token>, pos: usize) -> (r: Result<
        (ErlAst, usize),
        ErlError,
    >)
        requires
            pos < toks@.len(),
        ensures
            r matches Result::Ok(p) ==> pos < p.1 <= toks@.len(),
        decreases toks@.len() - pos, 0int,
    {
        let n = toks.len();
        let (arg, p1) = match self.parse_expr(toks, pos + 1, 0) {
            Result::Ok(x) => x,
            Result::Err(e) => {
                return Result::Err(e);
            },
        };
        if !(p1 < toks.len() && matches!(toks[p1].kind, TokenKind::KwOf)) {
            return Result::Err(perr(toks, p1, "expected the keyword of in a case block"));
        }
        let mut clauses: Vec<ErlAst> = Vec::new();
        let mut p = p1 + 1;
        loop
            invariant
                pos < p <= toks@.len(),
            decreases toks@.len() - p,
        {
            let (cond, p2) = match self.parse_expr(toks, p, 25) {
                Result::Ok(x) => x,
                Result::Err(e) => {
                    return Result::Err(e);
                },
            };
            let (guard, p3) = if p2 < toks.len() && matches!(toks[p2].kind, TokenKind::KwWhen) {
                match self.parse_expr(toks, p2 + 1, 25) {
                    Result::Ok(x) => x,
                    Result::Err(e) => {
                        return Result::Err(e);
                    },
                }
            } else {
                (self.true_guard(), p2)
            };
            if !(p3 < toks.len() && matches!(toks[p3].kind, TokenKind::Arrow)) {
                return Result::Err(perr(toks, p3, "expected an arrow in a case clause"));
            }
            let (body, p4) = match self.parse_body(toks, p3 + 1) {
                Result::Ok(x) => x,
                Result::Err(e) => {
                    return Result::Err(e);
                },
            };
            clauses.push(
                ErlAst::CClause {
                    cond: Box::new(cond),
                    guard: Box::new(guard),
                    body: Box::new(body),
                },
            );
            if p4 < toks.len() && matches!(toks[p4].kind, TokenKind::Semicolon) {
                p = p4 + 1;
                if p >= toks.len() {
                    return Result::Err(perr(toks, p, "expected a case clause"));
                }
            } else if p4 < toks.len() && matches!(toks[p4].kind, TokenKind::KwEnd) {
                let ret = self.fresh();
                return Result::Ok(
                    (ErlAst::Case(CaseExprNode { ret, arg: Box::new(arg), clauses }), p4 + 1),
                );
            } else {
                return Result::Err(perr(toks, p4, "expected a semicolon or end after a clause"));
            }
        }
    }

    /// Parse a clause body: one or more comma-separated expressions,
    /// folded left into a sequence whose type is its last expression's.
    pub fn parse_body(&mut self, toks: &Vec<Token>, pos: usize) -> (r: Result<
        (ErlAst, usize),
        ErlError,
    >)
        ensures
            r matches Result::Ok(p) ==> pos < p.1 <= toks@.len(),
        decreases toks@.len() - pos, 4int,
    {
        let (first, p1) = match self.parse_expr(toks, pos, 25) {
            Result::Ok(x) => x,
            Result::Err(e) => {
                return Result::Err(e);
            },
        };
        let mut acc = first;
        let mut p = p1;
        while p < toks.len() && matches!(toks[p].kind, TokenKind::Comma)
            invariant
                pos < p <= toks@.len(),
            decreases toks@.len() - p,
        {
            let (next, p2) = match self.parse_expr(toks, p + 1, 25) {
                Result::Ok(x) => x,
                Result::Err(e) => {
                    return Result::Err(e);
                },
            };
            let ty = self.fresh();
            acc = ErlAst::BinaryOp {
                expr: BinaryOperatorExpr {
                    left: Box::new(acc),
                    right: Box::new(next),
                    operator: ErlBinaryOp::Comma,
                    ty,
                },
            };
            p = p2;
        }
        Result::Ok((acc, p))
    }

    /// Parse a unary-operator expression or a primary one.
    fn parse_unary(&mut self, toks: &Vec<Token>, pos: usize) -> (r: Result<
        (ErlAst, usize),
        ErlError,
    >)
        ensures
            r matches Result::Ok(p) ==> pos < p.1 <= toks@.len(),
            (pos == 0 && toks@.len() == 1 && (toks@[0].kind matches TokenKind::Var(nm))) ==> (r
                matches Result::Ok(p) && p.1 == 1 && p.0@ == (crate::erl_ast::AstModel::Var {
                name: toks@[0].kind->Var_0@,
                ty: crate::erl_type::TypeModel::TVar(old(self).next_tvar as int),
            })),
        decreases toks@.len() - pos, 2int,
    {
        if pos >= toks.len() {
            return Result::Err(perr(toks, pos, "expected an expression"));
        }
        let unop: Option<ErlUnaryOp> = match &toks[pos].kind {
            TokenKind::Minus => Option::Some(ErlUnaryOp::Negative),
            TokenKind::Plus => Option::Some(ErlUnaryOp::Positive),
            TokenKind::KwNot => Option::Some(ErlUnaryOp::Not),
            TokenKind::KwBnot => Option::Some(ErlUnaryOp::BinaryNot),
            TokenKind::KwCatch => Option::Some(ErlUnaryOp::Catch),
            _ => Option::None,
        };
        match unop {
            Option::Some(op) => {
                let (operand, p2) = match self.parse_unary(toks, pos + 1) {
                    Result::Ok(x) => x,
                    Result::Err(e) => {
                        return Result::Err(e);
                    },
                };
                Result::Ok(
                    (
                        ErlAst::UnaryOp {
                            expr: UnaryOperatorExpr { expr: Box::new(operand), operator: op },
                        },
                        p2,
                    ),
                )
            },
            Option::None => self.parse_primary(toks, pos),
        }
    }

    /// Parse an expression by precedence climbing: operators bind per
    /// conventional tiers, multiplicative over additive over comparison
    /// over `andalso` over `orelse` over match and send.
    pub fn parse_expr(&mut self, toks: &Vec<Token>, pos: usize, min_prec: u32) -> (r: Result<
        (ErlAst, usize),
        ErlError,
    >)
        ensures
            r matches Result::Ok(p) ==> pos < p.1 <= toks@.len(),
            (pos == 0 && toks@.len() == 1 && (toks@[0].kind matches TokenKind::Var(nm))) ==> (r
                matches Result::Ok(p) && p.1 == 1 && p.0@ == (crate::erl_ast::AstModel::Var {
                name: toks@[0].kind->Var_0@,
                ty: crate::erl_type::TypeModel::TVar(old(self).next_tvar as int),
            })),
        decreases toks@.len() - pos, 3int,
    {
        let (first, p1) = match self.parse_unary(toks, pos) {
            Result::Ok(x) => x,
            Result::Err(e) => {
                return Result::Err(e);
            },
        };
        let mut acc = first;
        let mut p = p1;
        loop
            invariant
                pos < p <= toks@.len(),
                (pos == 0 && toks@.len() == 1 && (toks@[0].kind matches TokenKind::Var(nm))) ==> (
                p == 1 && acc@ == (crate::erl_ast::AstModel::Var {
                    name: toks@[0].kind->Var_0@,
                    ty: crate::erl_type::TypeModel::TVar(old(self).next_tvar as int),
                })),
            decreases toks@.len() - p,
        {
            if p >= toks.len() {
                return Result::Ok((acc, p));
            }
            let found: Option<(ErlBinaryOp, u32, bool)> = binop_of(&toks[p].kind);
            match found {
                Option::Some((op, prec, right_assoc)) => {
                    if prec < min_prec {
                        return Result::Ok((acc, p));
                    }
                    let next_min = if right_assoc {
                        prec
                    } else {
                        prec + 1
                    };
                    let (rhs, p2) = match self.parse_expr(toks, p + 1, next_min) {
                        Result::Ok(x) => x,
                        Result::Err(e) => {
                            return Result::Err(e);
                        },
                    };
                    let ty = self.fresh();
                    acc = ErlAst::BinaryOp {
                        expr: BinaryOperatorExpr {
                            left: Box::new(acc),
                            right: Box::new(rhs),
                            operator: op,
                            ty,
                        },
                    };
                    p = p2;
                },
                Option::None => {
                    return Result::Ok((acc, p));
                },
            }
        }
    }

    /// Parse a binary literal `<< ... >>` with widths and specifiers.
    fn parse_binary_lit(&mut self, toks: &Vec<Token>, pos: usize) -> (r: Result<
        (ErlAst, usize),
        ErlError,
    >)
        requires
            pos < toks@.len(),
        ensures
            r matches Result::Ok(p) ==> pos < p.1 <= toks@.len(),
        decreases toks@.len() - pos, 0int,
    {
        let n = toks.len();
        let mut p = pos + 1;
        if p < toks.len() && matches!(toks[p].kind, TokenKind::GtGt) {
            let elements: Vec<BinaryElement> = Vec::new();
            return Result::Ok((ErlAst::BinaryExpr { elements }, p + 1));
        }
        let mut elements: Vec<BinaryElement> = Vec::new();
        loop
            invariant
                pos < p <= toks@.len(),
            decreases toks@.len() - p,
        {
            let (value, p2) = match self.parse_primary(toks, p) {
                Result::Ok(x) => x,
                Result::Err(e) => {
                    return Result::Err(e);
                },
            };
            let mut q = p2;
            let width: ValueWidth = if q < toks.len() && matches!(toks[q].kind, TokenKind::Colon) {
                if q + 1 < toks.len() {
                    match &toks[q + 1].kind {
                        TokenKind::Int(w) => {
                            let wv: usize = if *w >= 0 && *w <= 65535 {
                                *w as usize
                            } else {
                                0
                            };
                            q = q + 2;
                            ValueWidth::Literal(wv)
                        },
                        _ => {
                            let (we, q2) = match self.parse_primary(toks, q + 1) {
                                Result::Ok(x) => x,
                                Result::Err(e) => {
                                    return Result::Err(e);
                                },
                            };
                            q = q2;
                            ValueWidth::Expr(Box::new(we))
                        },
                    }
                } else {
                    return Result::Err(perr(toks, q, "expected a width after the colon"));
                }
            } else {
                ValueWidth::DefaultWidth
            };
            let mut type_specs: Vec<TypeSpecifier> = Vec::new();
            if q < toks.len() && matches!(toks[q].kind, TokenKind::Slash) {
                let (specs, q2) = match self.parse_bin_specs(toks, q + 1) {
                    Result::Ok(x) => x,
                    Result::Err(e) => {
                        return Result::Err(e);
                    },
                };
                type_specs = specs;
                q = q2;
            }
            elements.push(BinaryElement { value: Box::new(value), width, type_specs });
            if q < toks.len() && matches!(toks[q].kind, TokenKind::Comma) {
                if q + 1 >= toks.len() {
                    return Result::Err(perr(toks, q, "expected a binary element"));
                }
                p = q + 1;
            } else if q < toks.len() && matches!(toks[q].kind, TokenKind::GtGt) {
                return Result::Ok((ErlAst::BinaryExpr { elements }, q + 1));
            } else {
                return Result::Err(perr(toks, q, "expected a comma or closing of the binary"));
            }
        }
    }

    /// Parse `-`-separated binary element specifiers after `/`.
    fn parse_bin_specs(&mut self, toks: &Vec<Token>, pos: usize) -> (r: Result<
        (Vec<TypeSpecifier>, usize),
        ErlError,
    >)
        requires
            pos <= toks@.len(),
        ensures
            r matches Result::Ok(p) ==> pos < p.1 <= toks@.len(),
    {
        let mut specs: Vec<TypeSpecifier> = Vec::new();
        let mut p = pos;
        loop
            invariant
                pos <= p <= toks@.len(),
            decreases toks@.len() - p,
        {
            if p >= toks.len() {
                return Result::Err(perr(toks, p, "expected a binary element specifier"));
            }
            let spec: TypeSpecifier = match &toks[p].kind {
                TokenKind::Atom(name) => {
                    let n = name.as_str();
                    if str_eq(n, "integer") {
                        TypeSpecifier::Type(ValueType::Integer)
                    } else if str_eq(n, "float") {
                        TypeSpecifier::Type(ValueType::Float)
                    } else if str_eq(n, "bytes") || str_eq(n, "binary") {
                        TypeSpecifier::Type(ValueType::Bytes)
                    } else if str_eq(n, "bitstring") || str_eq(n, "bits") {
                        TypeSpecifier::Type(ValueType::Bitstring)
                    } else if str_eq(n, "utf8") {
                        TypeSpecifier::Type(ValueType::Utf8)
                    } else if str_eq(n, "utf16") {
                        TypeSpecifier::Type(ValueType::Utf16)
                    } else if str_eq(n, "utf32") {
                        TypeSpecifier::Type(ValueType::Utf32)
                    } else if str_eq(n, "signed") {
                        TypeSpecifier::Signedness(ValueSignedness::Signed)
                    } else if str_eq(n, "unsigned") {
                        TypeSpecifier::Signedness(ValueSignedness::Unsigned)
                    } else if str_eq(n, "big") {
                        TypeSpecifier::Endianness(ValueEndianness::Big)
                    } else if str_eq(n, "little") {
                        TypeSpecifier::Endianness(ValueEndianness::Little)
                    } else if str_eq(n, "native") {
                        TypeSpecifier::Endianness(ValueEndianness::Native)
                    } else if str_eq(n, "unit") {
                        if p + 1 < toks.len() && p + 2 < toks.len() && matches!(toks[p + 1].kind, TokenKind::Colon) {
                            match &toks[p + 2].kind {
                                TokenKind::Int(u) => {
                                    let uv: usize = if *u >= 0 && *u <= 65535 {
                                        *u as usize
                                    } else {
                                        0
                                    };
                                    specs.push(TypeSpecifier::Unit(uv));
                                    p = p + 3;
                                    if p < toks.len() && matches!(
                                        toks[p].kind,
                                        TokenKind::Minus,
                                    ) {
                                        if p + 1 >= toks.len() {
                                            return Result::Err(
                                                perr(toks, p, "expected another specifier"),
                                            );
                                        }
                                        p = p + 1;
                                        continue ;
                                    }
                                    return Result::Ok((specs, p));
                                },
                                _ => {
                                    return Result::Err(
                                        perr(toks, p, "expected an integer unit"),
                                    );
                                },
                            }
                        } else {
                            return Result::Err(perr(toks, p, "expected a colon after unit"));
                        }
                    } else {
                        return Result::Err(perr(toks, p, "unknown binary element specifier"));
                    }
                },
                _ => {
                    return Result::Err(perr(toks, p, "expected a binary element specifier"));
                },
            };
            specs.push(spec);
            p = p + 1;
            if p < toks.len() && matches!(toks[p].kind, TokenKind::Minus) {
                if p + 1 >= toks.len() {
                    return Result::Err(perr(toks, p, "expected another specifier"));
                }
                p = p + 1;
            } else {
                return Result::Ok((specs, p));
            }
        }
    }
}

/// The binary operator denoted by a token, with its precedence tier and
/// associativity; nothing for tokens that are not infix operators.
fn binop_of(kind: &TokenKind) -> (r: Option<(ErlBinaryOp, u32, bool)>)
    ensures
        r matches Option::Some(t) ==> t.1 <= 100,
{
    match kind {
        TokenKind::Star => Option::Some((ErlBinaryOp::Mul, 70, false)),
        TokenKind::Slash => Option::Some((ErlBinaryOp::Div, 70, false)),
        TokenKind::KwDiv => Option::Some((ErlBinaryOp::IntegerDiv, 70, false)),
        TokenKind::KwRem => Option::Some((ErlBinaryOp::Modulo, 70, false)),
        TokenKind::KwBand => Option::Some((ErlBinaryOp::BinaryAnd, 70, false)),
        TokenKind::KwAnd => Option::Some((ErlBinaryOp::And, 70, false)),
        TokenKind::Plus => Option::Some((ErlBinaryOp::Add, 60, false)),
        TokenKind::Minus => Option::Some((ErlBinaryOp::Sub, 60, false)),
        TokenKind::KwBor => Option::Some((ErlBinaryOp::BinaryOr, 60, false)),
        TokenKind::KwBxor => Option::Some((ErlBinaryOp::BinaryXor, 60, false)),
        TokenKind::KwBsl => Option::Some((ErlBinaryOp::BinaryShiftLeft, 60, false)),
        TokenKind::KwBsr => Option::Some((ErlBinaryOp::BinaryShiftRight, 60, false)),
        TokenKind::KwOr => Option::Some((ErlBinaryOp::Or, 60, false)),
        TokenKind::KwXor => Option::Some((ErlBinaryOp::Xor, 60, false)),
        TokenKind::PlusPlus => Option::Some((ErlBinaryOp::ListAppend, 60, true)),
        TokenKind::MinusMinus => Option::Some((ErlBinaryOp::ListSubtract, 60, true)),
        TokenKind::EqEq => Option::Some((ErlBinaryOp::Eq, 50, false)),
        TokenKind::SlashEq => Option::Some((ErlBinaryOp::NotEq, 50, false)),
        TokenKind::EqColonEq => Option::Some((ErlBinaryOp::HardEq, 50, false)),
        TokenKind::EqSlashEq => Option::Some((ErlBinaryOp::HardNotEq, 50, false)),
        TokenKind::LtEq => Option::Some((ErlBinaryOp::LessEq, 50, false)),
        TokenKind::GtEq => Option::Some((ErlBinaryOp::GreaterEq, 50, false)),
        TokenKind::Lt => Option::Some((ErlBinaryOp::Less, 50, false)),
        TokenKind::Gt => Option::Some((ErlBinaryOp::Greater, 50, false)),
        TokenKind::KwAndAlso => Option::Some((ErlBinaryOp::AndAlso, 40, false)),
        TokenKind::KwOrElse => Option::Some((ErlBinaryOp::OrElse, 30, false)),
        TokenKind::Equal => Option::Some((ErlBinaryOp::Match, 20, true)),
        TokenKind::Bang => Option::Some((ErlBinaryOp::Bang, 20, true)),
        _ => Option::None,
    }
}

} // verus!
