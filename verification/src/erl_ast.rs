//! The abstract syntax tree shared by the parser, the postprocessor and
//! the type engine, with its ghost model.
//!
//! Guards are canonicalized at construction: a clause without a written
//! guard carries the literal `true` as its guard.

use vstd::prelude::*;

use crate::erl_op::ErlBinaryOp;
use crate::erl_op::ErlUnaryOp;
use crate::erl_type::ErlType;
use crate::erl_type::TypeModel;
use crate::erl_type::ty_view;
use crate::funarity::FunArity;
use crate::funarity::FunArityModel;
use crate::literal::LitModel;
use crate::literal::Literal;
use crate::literal::lit_view;

verus! {

/// A binary operator application `left operator right`, with the result
/// type slot assigned during inference.
#[derive(Debug)]
pub struct BinaryOperatorExpr {
    /// Left operand.
    pub left: Box<ErlAst>,
    /// Right operand.
    pub right: Box<ErlAst>,
    /// The operator.
    pub operator: ErlBinaryOp,
    /// The result type slot.
    pub ty: ErlType,
}

/// A unary operator application `operator expr`.
#[derive(Debug)]
pub struct UnaryOperatorExpr {
    /// The operand.
    pub expr: Box<ErlAst>,
    /// The operator.
    pub operator: ErlUnaryOp,
}

/// A `case Arg of Clause; ... end` expression.
#[derive(Debug)]
pub struct CaseExprNode {
    /// The result type slot: a union of all clause types.
    pub ret: ErlType,
    /// The scrutinee.
    pub arg: Box<ErlAst>,
    /// The clauses, in order; each is a `CClause` node.
    pub clauses: Vec<ErlAst>,
}

/// A scoping node `let var = value in in_expr`.
#[derive(Debug)]
pub struct LetExpr {
    /// The bound variable's name.
    pub var: String,
    /// The bound value.
    pub value: Box<ErlAst>,
    /// The body the binding scopes over.
    pub in_expr: Box<ErlAst>,
    /// The node's result type slot.
    pub ret_ty: ErlType,
}

/// A function application `target(args...)`.
#[derive(Debug)]
pub struct Call {
    /// The called expression.
    pub target: Box<ErlAst>,
    /// The arguments, in order.
    pub args: Vec<ErlAst>,
    /// The return type slot.
    pub ret_ty: ErlType,
}

/// A named variable with its type slot.
#[derive(Debug)]
pub struct Var {
    /// Variable name.
    pub name: String,
    /// The variable's type slot.
    pub ty: ErlType,
}

/// Bit width of one binary element.
#[derive(Debug)]
pub enum ValueWidth {
    /// Width known at parse time.
    Literal(usize),
    /// Width given by an expression.
    Expr(Box<ErlAst>),
    /// Width chosen from the value type.
    DefaultWidth,
}

/// Value kind of one binary element.
#[derive(Debug, Clone, Copy, PartialEq, Eq, Structural)]
pub enum ValueType {
    /// `integer`
    Integer,
    /// `float`
    Float,
    /// `bytes` or `binary`
    Bytes,
    /// `bitstring` or `bits`
    Bitstring,
    /// `utf8`
    Utf8,
    /// `utf16`
    Utf16,
    /// `utf32`
    Utf32,
}

/// Signedness of one binary element.
#[derive(Debug, Clone, Copy, PartialEq, Eq, Structural)]
pub enum ValueSignedness {
    /// `signed`
    Signed,
    /// `unsigned`
    Unsigned,
}

/// Byte order of one binary element.
#[derive(Debug, Clone, Copy, PartialEq, Eq, Structural)]
pub enum ValueEndianness {
    /// `big`
    Big,
    /// `little`
    Little,
    /// `native`
    Native,
}

/// One `/`-separated specifier of a binary element, as in
/// `X:4/little-signed-integer-unit:8`.
#[derive(Debug, Clone, Copy, PartialEq, Eq, Structural)]
pub enum TypeSpecifier {
    /// A value kind.
    Type(ValueType),
    /// A signedness.
    Signedness(ValueSignedness),
    /// A byte order.
    Endianness(ValueEndianness),
    /// A unit multiplier.
    Unit(usize),
}

/// One element of a binary literal `<<...>>`.
#[derive(Debug)]
pub struct BinaryElement {
    /// The value expression.
    pub value: Box<ErlAst>,
    /// The optional bit width after `:`.
    pub width: ValueWidth,
    /// The specifiers after `/`, in order.
    pub type_specs: Vec<TypeSpecifier>,
}

/// One field of a record definition.
#[derive(Debug)]
pub struct RecordField {
    /// Field name.
    pub field_tag: String,
    /// Optional default value.
    pub initializer: Option<Box<ErlAst>>,
    /// Optional type ascription.
    pub type_ascription: Option<ErlType>,
}

/// A record definition from a `-record(tag, {...}).` attribute.
#[derive(Debug)]
pub struct RecordDefinition {
    /// The record tag.
    pub tag: String,
    /// The fields, in order.
    pub fields: Vec<RecordField>,
}

/// A syntax tree node.
#[derive(Debug)]
pub enum ErlAst {
    /// Module root: the list of top-level forms, in order.
    Forms(Vec<ErlAst>),
    /// A generic module attribute `-name(args...).`.
    ModuleAttr { name: String, args: Vec<String> },
    /// A literal.
    Lit { value: Literal },
    /// A variable.
    Var(Var),
    /// A function application.
    Apply(Call),
    /// A scoping node.
    Let(LetExpr),
    /// A `case` expression.
    Case(CaseExprNode),
    /// One clause of a `case`: pattern, guard and body. A clause without
    /// a written guard carries the literal `true` here.
    CClause { cond: Box<ErlAst>, guard: Box<ErlAst>, body: Box<ErlAst> },
    /// A binary operator application.
    BinaryOp { expr: BinaryOperatorExpr },
    /// A unary operator application.
    UnaryOp { expr: UnaryOperatorExpr },
    /// A function definition with its clauses, each an `FClause`.
    FnDef { funarity: FunArity, ret: ErlType, clauses: Vec<ErlAst> },
    /// One clause of a function definition: argument patterns, guard and
    /// body. A clause without a written guard carries the literal `true`.
    FClause { args: Vec<ErlAst>, guard: Box<ErlAst>, body: Box<ErlAst> },
    /// A `-spec` attribute.
    FnSpec { funarity: FunArity, spec_ty: ErlType },
    /// An `-export([f/1, ...]).` attribute.
    ExportAttr { funarities: Vec<FunArity> },
    /// An `-import(mod, [f/1, ...]).` attribute.
    ImportAttr { module: String, funarities: Vec<FunArity> },
    /// A `-type name(Vars) :: ty.` attribute.
    TypeAttr { name: String, vars: Vec<String>, ty: ErlType },
    /// A `-record(tag, {...}).` attribute.
    RecordAttr(RecordDefinition),
    /// A list construction with an optional improper tail.
    ListExpr { elements: Vec<ErlAst>, tail: Option<Box<ErlAst>> },
    /// A tuple construction.
    TupleExpr { elements: Vec<ErlAst> },
    /// A binary literal `<<...>>`.
    BinaryExpr { elements: Vec<BinaryElement> },
    /// A resolved function reference, local when `module` is absent.
    MFA { module: Option<String>, funarity: FunArity },
}

/// Ghost model of [`ValueWidth`].
#[verifier::ext_equal]
pub enum WidthModel {
    /// Width known at parse time.
    Literal(nat),
    /// Width given by an expression.
    Expr(Box<AstModel>),
    /// Width chosen from the value type.
    DefaultWidth,
}

/// Ghost model of [`BinaryElement`].
#[verifier::ext_equal]
pub struct BinElemModel {
    /// The value expression.
    pub value: Box<AstModel>,
    /// The optional bit width.
    pub width: WidthModel,
    /// The specifiers, in order.
    pub type_specs: Seq<TypeSpecifier>,
}

/// Ghost model of [`RecordField`].
#[verifier::ext_equal]
pub struct RecordDefFieldModel {
    /// Field name.
    pub field_tag: Seq<char>,
    /// Optional default value.
    pub initializer: Option<Box<AstModel>>,
    /// Optional type ascription.
    pub type_ascription: Option<TypeModel>,
}

/// Ghost model of [`ErlAst`].
#[verifier::ext_equal]
pub enum AstModel {
    /// Module root.
    Forms(Seq<AstModel>),
    /// A generic module attribute.
    ModuleAttr { name: Seq<char>, args: Seq<Seq<char>> },
    /// A literal.
    Lit(LitModel),
    /// A variable.
    Var { name: Seq<char>, ty: TypeModel },
    /// A function application.
    Apply { target: Box<AstModel>, args: Seq<AstModel>, ret_ty: TypeModel },
    /// A scoping node.
    Let { var: Seq<char>, value: Box<AstModel>, in_expr: Box<AstModel>, ret_ty: TypeModel },
    /// A `case` expression.
    Case { ret: TypeModel, arg: Box<AstModel>, clauses: Seq<AstModel> },
    /// One clause of a `case`.
    CClause { cond: Box<AstModel>, guard: Box<AstModel>, body: Box<AstModel> },
    /// A binary operator application.
    BinaryOp { left: Box<AstModel>, right: Box<AstModel>, operator: ErlBinaryOp, ty: TypeModel },
    /// A unary operator application.
    UnaryOp { expr: Box<AstModel>, operator: ErlUnaryOp },
    /// A function definition.
    FnDef { funarity: FunArityModel, ret: TypeModel, clauses: Seq<AstModel> },
    /// One clause of a function definition.
    FClause { args: Seq<AstModel>, guard: Box<AstModel>, body: Box<AstModel> },
    /// A `-spec` attribute.
    FnSpec { funarity: FunArityModel, spec_ty: TypeModel },
    /// An `-export` attribute.
    ExportAttr { funarities: Seq<FunArityModel> },
    /// An `-import` attribute.
    ImportAttr { module: Seq<char>, funarities: Seq<FunArityModel> },
    /// A `-type` attribute.
    TypeAttr { name: Seq<char>, vars: Seq<Seq<char>>, ty: TypeModel },
    /// A `-record` attribute.
    RecordAttr { tag: Seq<char>, fields: Seq<RecordDefFieldModel> },
    /// A list construction.
    ListExpr { elements: Seq<AstModel>, tail: Option<Box<AstModel>> },
    /// A tuple construction.
    TupleExpr { elements: Seq<AstModel> },
    /// A binary literal.
    BinaryExpr { elements: Seq<BinElemModel> },
    /// A resolved function reference.
    MFA { module: Option<Seq<char>>, funarity: FunArityModel },
}

/// Models of a vector of name/arity pairs.
pub open spec fn funarities_view(fs: Seq<FunArity>) -> Seq<FunArityModel>
    decreases fs,
{
    if fs.len() == 0 {
        Seq::empty()
    } else {
        seq![fs[0]@] + funarities_view(fs.drop_first())
    }
}

/// `funarities_view` maps the sequence pointwise.
pub proof fn lemma_funarities_view(fs: Seq<FunArity>)
    ensures
        funarities_view(fs).len() == fs.len(),
        forall|i: int| 0 <= i < fs.len() ==> funarities_view(fs)[i] == fs[i]@,
    decreases fs.len(),
{
    if fs.len() > 0 {
        lemma_funarities_view(fs.drop_first());
        assert forall|i: int| 0 <= i < fs.len() implies funarities_view(fs)[i] == fs[i]@ by {
            if i > 0 {
                assert(funarities_view(fs)[i] == funarities_view(fs.drop_first())[i - 1]);
                assert(fs.drop_first()[i - 1] == fs[i]);
            }
        }
    }
}

/// Models of a vector of plain strings.
pub open spec fn strings_view(ss: Seq<String>) -> Seq<Seq<char>>
    decreases ss,
{
    if ss.len() == 0 {
        Seq::empty()
    } else {
        seq![ss[0]@] + strings_view(ss.drop_first())
    }
}

/// `strings_view` maps the sequence pointwise.
pub proof fn lemma_strings_view(ss: Seq<String>)
    ensures
        strings_view(ss).len() == ss.len(),
        forall|i: int| 0 <= i < ss.len() ==> strings_view(ss)[i] == ss[i]@,
    decreases ss.len(),
{
    if ss.len() > 0 {
        lemma_strings_view(ss.drop_first());
        assert forall|i: int| 0 <= i < ss.len() implies strings_view(ss)[i] == ss[i]@ by {
            if i > 0 {
                assert(strings_view(ss)[i] == strings_view(ss.drop_first())[i - 1]);
                assert(ss.drop_first()[i - 1] == ss[i]);
            }
        }
    }
}

/// Model of one syntax tree node.
pub open spec fn ast_view(a: ErlAst) -> AstModel
    decreases a,
{
    match a {
        ErlAst::Forms(forms) => AstModel::Forms(asts_view(forms@)),
        ErlAst::ModuleAttr { name, args } => AstModel::ModuleAttr {
            name: name@,
            args: strings_view(args@),
        },
        ErlAst::Lit { value } => AstModel::Lit(lit_view(value)),
        ErlAst::Var(v) => AstModel::Var { name: v.name@, ty: ty_view(v.ty) },
        ErlAst::Apply(call) => AstModel::Apply {
            target: Box::new(ast_view(*call.target)),
            args: asts_view(call.args@),
            ret_ty: ty_view(call.ret_ty),
        },
        ErlAst::Let(le) => AstModel::Let {
            var: le.var@,
            value: Box::new(ast_view(*le.value)),
            in_expr: Box::new(ast_view(*le.in_expr)),
            ret_ty: ty_view(le.ret_ty),
        },
        ErlAst::Case(c) => AstModel::Case {
            ret: ty_view(c.ret),
            arg: Box::new(ast_view(*c.arg)),
            clauses: asts_view(c.clauses@),
        },
        ErlAst::CClause { cond, guard, body } => AstModel::CClause {
            cond: Box::new(ast_view(*cond)),
            guard: Box::new(ast_view(*guard)),
            body: Box::new(ast_view(*body)),
        },
        ErlAst::BinaryOp { expr } => AstModel::BinaryOp {
            left: Box::new(ast_view(*expr.left)),
            right: Box::new(ast_view(*expr.right)),
            operator: expr.operator,
            ty: ty_view(expr.ty),
        },
        ErlAst::UnaryOp { expr } => AstModel::UnaryOp {
            expr: Box::new(ast_view(*expr.expr)),
            operator: expr.operator,
        },
        ErlAst::FnDef { funarity, ret, clauses } => AstModel::FnDef {
            funarity: funarity@,
            ret: ty_view(ret),
            clauses: asts_view(clauses@),
        },
        ErlAst::FClause { args, guard, body } => AstModel::FClause {
            args: asts_view(args@),
            guard: Box::new(ast_view(*guard)),
            body: Box::new(ast_view(*body)),
        },
        ErlAst::FnSpec { funarity, spec_ty } => AstModel::FnSpec {
            funarity: funarity@,
            spec_ty: ty_view(spec_ty),
        },
        ErlAst::ExportAttr { funarities } => AstModel::ExportAttr {
            funarities: funarities_view(funarities@),
        },
        ErlAst::ImportAttr { module, funarities } => AstModel::ImportAttr {
            module: module@,
            funarities: funarities_view(funarities@),
        },
        ErlAst::TypeAttr { name, vars, ty } => AstModel::TypeAttr {
            name: name@,
            vars: strings_view(vars@),
            ty: ty_view(ty),
        },
        ErlAst::RecordAttr(def) => AstModel::RecordAttr {
            tag: def.tag@,
            fields: record_def_fields_view(def.fields@),
        },
        ErlAst::ListExpr { elements, tail } => AstModel::ListExpr {
            elements: asts_view(elements@),
            tail: match tail {
                Option::Some(b) => Option::Some(Box::new(ast_view(*b))),
                Option::None => Option::None,
            },
        },
        ErlAst::TupleExpr { elements } => AstModel::TupleExpr { elements: asts_view(elements@) },
        ErlAst::BinaryExpr { elements } => AstModel::BinaryExpr {
            elements: bin_elems_view(elements@),
        },
        ErlAst::MFA { module, funarity } => AstModel::MFA {
            module: match module {
                Option::Some(m) => Option::Some(m@),
                Option::None => Option::None,
            },
            funarity: funarity@,
        },
    }
}

/// Models of a sequence of nodes, in order.
pub open spec fn asts_view(asts: Seq<ErlAst>) -> Seq<AstModel>
    decreases asts,
{
    if asts.len() == 0 {
        Seq::empty()
    } else {
        seq![ast_view(asts[0])] + asts_view(asts.drop_first())
    }
}

/// Models of a sequence of binary elements, in order.
pub open spec fn bin_elems_view(es: Seq<BinaryElement>) -> Seq<BinElemModel>
    decreases es,
{
    if es.len() == 0 {
        Seq::empty()
    } else {
        seq![bin_elem_view(es[0])] + bin_elems_view(es.drop_first())
    }
}

/// Model of one binary element.
pub open spec fn bin_elem_view(e: BinaryElement) -> BinElemModel
    decreases e,
{
    BinElemModel {
        value: Box::new(ast_view(*e.value)),
        width: match e.width {
            ValueWidth::Literal(w) => WidthModel::Literal(w as nat),
            ValueWidth::Expr(x) => WidthModel::Expr(Box::new(ast_view(*x))),
            ValueWidth::DefaultWidth => WidthModel::DefaultWidth,
        },
        type_specs: e.type_specs@,
    }
}

/// Models of a sequence of record definition fields, in order.
pub open spec fn record_def_fields_view(fs: Seq<RecordField>) -> Seq<RecordDefFieldModel>
    decreases fs,
{
    if fs.len() == 0 {
        Seq::empty()
    } else {
        seq![record_def_field_view(fs[0])] + record_def_fields_view(fs.drop_first())
    }
}

/// Model of one record definition field.
pub open spec fn record_def_field_view(f: RecordField) -> RecordDefFieldModel
    decreases f,
{
    RecordDefFieldModel {
        field_tag: f.field_tag@,
        initializer: match f.initializer {
            Option::Some(b) => Option::Some(Box::new(ast_view(*b))),
            Option::None => Option::None,
        },
        type_ascription: match f.type_ascription {
            Option::Some(t) => Option::Some(ty_view(t)),
            Option::None => Option::None,
        },
    }
}

impl View for ErlAst {
    type V = AstModel;

    open spec fn view(&self) -> AstModel {
        ast_view(*self)
    }
}

/// `asts_view` maps the sequence pointwise.
pub proof fn lemma_asts_view(asts: Seq<ErlAst>)
    ensures
        asts_view(asts).len() == asts.len(),
        forall|i: int| 0 <= i < asts.len() ==> asts_view(asts)[i] == ast_view(asts[i]),
    decreases asts.len(),
{
    if asts.len() > 0 {
        lemma_asts_view(asts.drop_first());
        assert forall|i: int|
            0 <= i < asts.len() implies asts_view(asts)[i] == ast_view(asts[i]) by {
            if i > 0 {
                assert(asts_view(asts)[i] == asts_view(asts.drop_first())[i - 1]);
                assert(asts.drop_first()[i - 1] == asts[i]);
            }
        }
    }
}

/// `bin_elems_view` maps the sequence pointwise.
pub proof fn lemma_bin_elems_view(es: Seq<BinaryElement>)
    ensures
        bin_elems_view(es).len() == es.len(),
        forall|i: int| 0 <= i < es.len() ==> bin_elems_view(es)[i] == bin_elem_view(es[i]),
    decreases es.len(),
{
    if es.len() > 0 {
        lemma_bin_elems_view(es.drop_first());
        assert forall|i: int|
            0 <= i < es.len() implies bin_elems_view(es)[i] == bin_elem_view(es[i]) by {
            if i > 0 {
                assert(bin_elems_view(es)[i] == bin_elems_view(es.drop_first())[i - 1]);
                assert(es.drop_first()[i - 1] == es[i]);
            }
        }
    }
}

impl ErlAst {
    /// Whether this node is a function definition.
    pub fn is_fn_def(&self) -> (r: bool)
        ensures
            r == (self@ is FnDef),
    {
        matches!(self, ErlAst::FnDef { .. })
    }

    /// Whether this node is a `-spec` attribute.
    pub fn is_fn_spec(&self) -> (r: bool)
        ensures
            r == (self@ is FnSpec),
    {
        matches!(self, ErlAst::FnSpec { .. })
    }

    /// Whether this node is a `-type` attribute.
    pub fn is_type(&self) -> (r: bool)
        ensures
            r == (self@ is TypeAttr),
    {
        matches!(self, ErlAst::TypeAttr { .. })
    }

    /// Whether this node is an atom literal.
    pub fn is_atom(&self) -> (r: bool)
        ensures
            r == (self@ matches AstModel::Lit(l) && (l is Atom || l is Bool)),
    {
        matches!(self, ErlAst::Lit { value: Literal::Atom(_) | Literal::Bool(_) })
    }

    /// Whether this node applies the given binary operator.
    pub fn is_binop(&self, op: ErlBinaryOp) -> (r: bool)
        ensures
            r == (self@ matches AstModel::BinaryOp { operator, .. } && operator == op),
    {
        match self {
            ErlAst::BinaryOp { expr } => expr.operator == op,
            _ => false,
        }
    }

    /// Whether this node is a binary literal.
    pub fn is_binary(&self) -> (r: bool)
        ensures
            r == (self@ is BinaryExpr),
    {
        matches!(self, ErlAst::BinaryExpr { .. })
    }

    /// Whether this node is a function application.
    pub fn is_application(&self) -> (r: bool)
        ensures
            r == (self@ is Apply),
    {
        matches!(self, ErlAst::Apply(_))
    }
}

} // verus!
