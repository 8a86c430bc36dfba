//! Parsing of single preprocessor directives.

use ironclad::pp_ast::PpAst;
use ironclad::pp_parser::PpParser;

#[test]
fn parse_define0_test() {
    let define0 = PpParser::parse_define("-define(AAA, true).\n").unwrap();
    if let PpAst::Define(_name, _value) = define0 {
    } else {
        panic!("expected a define node, received {:?}", define0);
    }
}

#[test]
fn parse_include_test() {
    let inc1 = PpParser::parse_include("-include (\"test\").\n").unwrap();
    if let PpAst::Include(t) = inc1 {
        assert_eq!(t, "test");
    } else {
        panic!("expected an include node, received {:?}", inc1);
    }

    let inc2 = PpParser::parse_include("- include(\"test\"\n).\n").unwrap();
    if let PpAst::Include(t) = inc2 {
        assert_eq!(t, "test");
    } else {
        panic!("expected an include node, received {:?}", inc2);
    }

    let inc3 = PpParser::parse_include("-include\n(\"test\"\n).\n").unwrap();
    if let PpAst::Include(t) = inc3 {
        assert_eq!(t, "test");
    } else {
        panic!("expected an include node, received {:?}", inc3);
    }
}

#[test]
fn parse_define_test() {
    let d0 = PpParser::parse_define("- define(AAA, \"aaa\").").unwrap();
    if let PpAst::Define(name, val) = d0 {
        assert_eq!(name, "AAA");
        assert_eq!(val, "\"aaa\"");
    } else {
        panic!("parsing a define with a string body failed, received {:?}", d0);
    }

    let d1 = PpParser::parse_define("-define(BBB, 666).").unwrap();
    if let PpAst::Define(name, val) = d1 {
        assert_eq!(name, "BBB");
        assert_eq!(val, "666");
    } else {
        panic!("parsing a define with a number body failed, received {:?}", d1);
    }
}

#[test]
fn parse_define_fun_test() {
    let d0 = PpParser::parse_define("-define(AAA(X,Y), \"aaa\").\n").unwrap();
    if let PpAst::DefineFun { name, args, body } = d0 {
        assert_eq!(name, "AAA");
        assert_eq!(args, vec![String::from("X"), String::from("Y")]);
        assert_eq!(body, "\"aaa\"");
    } else {
        panic!("a define with arguments must give a parameterized node, received {:?}", d0);
    }
}

#[test]
fn parse_if_test() {
    let if0 = PpParser::parse_if_directive("-if(10>20).").unwrap();
    if let PpAst::If(s) = if0 {
        assert_eq!(s, "10>20");
    } else {
        panic!("parsing the conditional directive failed, received {:?}", if0);
    }
}

#[test]
fn parse_undef_and_name_only_define() {
    let u = PpParser::parse_one_directive("-undef(AAA).\n").unwrap();
    if let PpAst::Undef(name) = u {
        assert_eq!(name, "AAA");
    } else {
        panic!("expected an undef node, received {:?}", u);
    }

    let d = PpParser::parse_define("-define(FLAG).\n").unwrap();
    if let PpAst::Define(name, body) = d {
        assert_eq!(name, "FLAG");
        assert_eq!(body, "");
    } else {
        panic!("expected a name-only define, received {:?}", d);
    }
}

#[test]
fn parse_module_attribute_is_text() {
    let frags = PpParser::parse_module("-module(m).\nx() -> 1.\n").unwrap();
    assert_eq!(frags.len(), 2);
    if let PpAst::Text(t) = &frags[0] {
        assert_eq!(t, "-module(m).\n");
    } else {
        panic!("a module attribute must pass through as text, received {:?}", frags[0]);
    }
}

#[test]
fn parse_unmatched_endif_is_an_error() {
    assert!(PpParser::parse_module("-endif.\n").is_err());
    assert!(PpParser::parse_module("-ifdef(A).\nx\n").is_err());
}
