//! Parsing of expressions, binaries, case blocks, modules and specs.

use ironclad::erl_ast::ErlAst;
use ironclad::erl_op::ErlBinaryOp;
use ironclad::module::ErlModuleImpl;

fn parse_expr(name: &str, input: &str) -> ErlAst {
    ErlModuleImpl::from_expr_source(String::from(name), input)
        .unwrap()
        .ast
}

#[test]
fn parse_bin1() {
    {
        let ast1 = parse_expr("parse_bin1", "<<1, 2, 3>>");
        assert!(ast1.is_binary());
    }
    {
        let ast2 = parse_expr("parse_bin1", "<<X, B:3, (atom):V>>");
        assert!(ast2.is_binary());
    }
    {
        let ast3 = parse_expr("parse_bin1", "<<X/binary-big-unit:33>>");
        assert!(ast3.is_binary());
    }
}

#[test]
fn parse_case_block() {
    let ast = parse_expr("parse_case_block", "case X of 1 -> a; _Other when true -> b end");
    match &ast {
        ErlAst::Case(c) => {
            assert_eq!(c.clauses.len(), 2);
        }
        other => panic!("expected a case node, got {:?}", other),
    }
}

#[test]
fn parse_operator_precedence() {
    let ast = parse_expr("parse_operator_precedence", "1 + 2 * 3");
    match &ast {
        ErlAst::BinaryOp { expr } => {
            assert_eq!(expr.operator, ErlBinaryOp::Add);
            assert!(expr.right.is_binop(ErlBinaryOp::Mul));
        }
        other => panic!("expected an addition at the top, got {:?}", other),
    }
}

#[test]
fn parse_whole_module() {
    let src = "-module(sample).\n-export([f/1]).\nf(X) -> X + 1.\n";
    let m = ErlModuleImpl::from_module_source(String::from("parse_whole_module"), src).unwrap();
    match &m.ast {
        ErlAst::Forms(forms) => {
            assert_eq!(forms.len(), 3);
            assert!(forms[2].is_fn_def());
        }
        other => panic!("expected a form list, got {:?}", other),
    }
}

#[test]
fn parse_spec_and_type_attributes() {
    let src = "-spec f(integer()) -> boolean().\n-type pair() :: {integer(), float()}.\nf(X) -> true.\n";
    let m =
        ErlModuleImpl::from_module_source(String::from("parse_spec_and_type"), src).unwrap();
    match &m.ast {
        ErlAst::Forms(forms) => {
            assert!(forms[0].is_fn_spec());
            assert!(forms[1].is_type());
            assert!(forms[2].is_fn_def());
        }
        other => panic!("expected a form list, got {:?}", other),
    }
}

#[test]
fn parse_record_definition() {
    let src = "-record(point, {x = 0 :: integer(), y :: float(), tag}).\n";
    let m = ErlModuleImpl::from_module_source(String::from("parse_record"), src).unwrap();
    match &m.ast {
        ErlAst::Forms(forms) => match &forms[0] {
            ErlAst::RecordAttr(def) => {
                assert_eq!(def.tag, "point");
                assert_eq!(def.fields.len(), 3);
                assert_eq!(def.fields[0].field_tag, "x");
                assert!(def.fields[0].initializer.is_some());
                assert!(def.fields[1].type_ascription.is_some());
            }
            other => panic!("expected a record definition, got {:?}", other),
        },
        other => panic!("expected a form list, got {:?}", other),
    }
}

#[test]
fn leftover_input_is_fatal() {
    let r = ErlModuleImpl::from_expr_source(String::from("leftover"), "1 + 2 )");
    assert!(r.is_err());
}

#[test]
fn oversized_literals_are_rejected() {
    let r = ErlModuleImpl::from_expr_source(
        String::from("oversized"),
        "99999999999999999999999999999",
    );
    assert!(r.is_err());

    let r2 = ErlModuleImpl::from_expr_source(
        String::from("oversized"),
        "0.11111111111111111111111111",
    );
    assert!(r2.is_err());
}

#[test]
fn quoted_atoms_and_strings_tokenize() {
    let ast = parse_expr("quoted", "{'Quoted Atom', \"a string\"}");
    match &ast {
        ErlAst::TupleExpr { elements } => {
            assert_eq!(elements.len(), 2);
            assert!(elements[0].is_atom());
        }
        other => panic!("expected a tuple, got {:?}", other),
    }
}

#[test]
fn multi_clause_functions_must_agree_on_arity() {
    let bad = ErlModuleImpl::from_fun_source(
        String::from("arity"),
        "f(X) -> 1;\nf(X, Y) -> 2.",
    );
    assert!(bad.is_err());

    let good = ErlModuleImpl::from_fun_source(
        String::from("arity"),
        "f(0) -> zero;\nf(X) -> other.",
    )
    .unwrap();
    match &good.ast {
        ErlAst::FnDef { funarity, clauses, .. } => {
            assert_eq!(funarity.name, "f");
            assert_eq!(funarity.arity, 1);
            assert_eq!(clauses.len(), 2);
        }
        other => panic!("expected a function definition, got {:?}", other),
    }
}
