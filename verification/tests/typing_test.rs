//! Type synthesis, checking and subtyping over parsed sources.

use std::cmp::Ordering;

use ironclad::check::TypeCheck;
use ironclad::erl_type::ErlType;
use ironclad::literal::FloatLit;
use ironclad::literal::Literal;
use ironclad::module::ErlModuleImpl;
use ironclad::scope::Scope;

#[test]
fn typing_test_typing_synth() {
    {
        let scope1 = Scope::new_root_scope(String::from("typing_synth"));
        let parsed1 = ErlModuleImpl::from_expr_source(
            String::from("typing_synth"),
            "[3.14159265358979 , 2,atom]",
        )
        .unwrap();
        let synth_t1 = parsed1.ast.synthesize(&scope1).unwrap();

        match synth_t1 {
            ErlType::StronglyTypedList { elements, tail } => {
                assert!(elements[0].is_float());
                assert!(elements[1].is_integer());
                assert!(elements[2].is_atom());

                let tail2 = match tail {
                    Some(t) => *t,
                    None => ErlType::nil(),
                };
                assert!(tail2.is_nil());
                assert!(tail2.is_list());
            }
            other => panic!("expected a strongly typed list, got {:?}", other),
        }
    }

    {
        let scope2 = Scope::new_root_scope(String::from("typing_synth"));
        let parsed2 = ErlModuleImpl::from_expr_source(
            String::from("typing_synth"),
            "{tuple_tag, 1.2, 3, \"hello\"}",
        )
        .unwrap();
        let synth_t2 = parsed2.ast.synthesize(&scope2).unwrap();

        match synth_t2 {
            ErlType::Tuple { elements } => {
                assert!(
                    elements[0].is_lit_atom("tuple_tag"),
                    "element 0 must be the literal atom tuple_tag, got {:?}",
                    elements[0]
                );
                assert!(elements[1].is_float(), "element 1 must be a float, got {:?}", elements[1]);
                assert!(
                    elements[2].is_integer(),
                    "element 2 must be an integer, got {:?}",
                    elements[2]
                );
                assert!(elements[3].is_list(), "element 3 must be a string, got {:?}", elements[3]);
            }
            other => panic!("expected a tuple type, got {:?}", other),
        }
    }
}

#[test]
fn typing_test_typing_expr_check_1() {
    let scope = Scope::new_root_scope(String::from("typing_expr_check_1"));
    let parsed =
        ErlModuleImpl::from_expr_source(String::from("typing_expr_check_1"), "hello").unwrap();
    assert!(
        TypeCheck::check(&scope, &parsed.ast, &ErlType::atom()).unwrap(),
        "the parsed atom hello must be a subtype of the atom type"
    );
}

#[test]
fn typing_test_typing_expr_check_noarg() {
    let scope = Scope::new_root_scope(String::from("typing_expr_check_noarg"));
    let parsed = ErlModuleImpl::from_fun_source(
        String::from("typing_expr_check_noarg"),
        "my_int_fun1() -> 10 + 20.",
    )
    .unwrap();

    assert!(parsed.ast.is_fn_def(), "expected a function definition, got {:?}", parsed.ast);

    let match_ty = ErlType::new_fn_type_of_any_args(0, ErlType::integer());
    assert!(
        TypeCheck::check(&scope, &parsed.ast, &match_ty).unwrap(),
        "the return type of my_int_fun1 must be compatible with the integer type"
    );
}

#[test]
fn typing_test_typing_check_int_arg_fn() {
    let scope = Scope::new_root_scope(String::from("typing_check_int_arg_fn"));
    let parsed = ErlModuleImpl::from_fun_source(
        String::from("typing_check_int_arg_fn"),
        "my_int_fun2(A) -> 10.0 + A.",
    )
    .unwrap();

    assert!(parsed.ast.is_fn_def(), "expected a function definition, got {:?}", parsed.ast);

    let match_ty = ErlType::new_fn_type_of_any_args(1, ErlType::integer());
    assert!(
        TypeCheck::check(&scope, &parsed.ast, &match_ty).unwrap(),
        "the result type of my_int_fun2 must be compatible with the integer type"
    );
}

#[test]
fn typing_test_typing_expr_check_tuple1() {
    let scope = Scope::new_root_scope(String::from("typing_expr_check_tuple1"));
    let parsed = ErlModuleImpl::from_fun_source(
        String::from("typing_expr_check_tuple1"),
        "mytuple_fun(A) -> {A, 123}.",
    )
    .unwrap();

    assert!(parsed.ast.is_fn_def(), "expected a function definition, got {:?}", parsed.ast);

    let expected_type = ErlType::new_tuple(vec![ErlType::any(), ErlType::integer()]);
    let match_ty = ErlType::new_fn_type_of_any_args(0, expected_type);
    assert!(
        TypeCheck::check(&scope, &parsed.ast, &match_ty).unwrap(),
        "the result type of mytuple_fun must match a tuple of any and integer"
    );
}

#[test]
fn typing_test_typing_subtyping_bool() {
    let test1_bool = ErlType::boolean();
    let test1_atom = ErlType::atom();
    let test1_true = ErlType::new_atom("true");

    assert!(test1_bool.is_subtype_of(&test1_atom));
    assert!(!test1_atom.is_subtype_of(&test1_bool));

    assert!(test1_true.is_subtype_of(&test1_atom));
    assert!(test1_true.is_subtype_of(&test1_bool));
}

#[test]
fn typing_test_typing_subtyping_number() {
    let test2_int = ErlType::integer();
    let test2_flt = ErlType::float();
    let test2_num = ErlType::number();

    assert!(test2_int.is_subtype_of(&test2_num));
    assert!(!test2_num.is_subtype_of(&test2_int));

    assert!(test2_flt.is_subtype_of(&test2_num));
}

#[test]
fn typing_test_typing_subtyping_list() {
    let test3_any = ErlType::any_list();
    let test3_l_num = ErlType::list_of(ErlType::number());
    let test3_l_flt = ErlType::list_of(ErlType::float());
    let test3_l_int = ErlType::list_of(ErlType::integer());

    assert!(test3_l_num.is_subtype_of(&test3_any));
    assert!(!test3_any.is_subtype_of(&test3_l_num));

    assert!(test3_l_flt.is_subtype_of(&test3_any));
    assert!(!test3_any.is_subtype_of(&test3_l_flt));

    assert!(test3_l_int.is_subtype_of(&test3_any));
    assert!(!test3_any.is_subtype_of(&test3_l_int));
}

#[test]
fn literal_ordering_follows_value_and_kind() {
    let three_halves = Literal::Float(FloatLit { mantissa: 15, scale: 1 });
    let five_quarters = Literal::Float(FloatLit { mantissa: 125, scale: 2 });
    assert_eq!(three_halves.cmp_same_type(&five_quarters), Ordering::Greater);
    assert_eq!(five_quarters.cmp_same_type(&three_halves), Ordering::Less);

    let same_a = Literal::Float(FloatLit { mantissa: 15, scale: 1 });
    let same_b = Literal::Float(FloatLit { mantissa: 150, scale: 2 });
    assert_eq!(same_a.cmp_same_type(&same_b), Ordering::Equal);

    let one = Literal::Integer(1);
    let two = Literal::Integer(2);
    assert_eq!(one.cmp_same_type(&two), Ordering::Less);

    let apple = Literal::Atom(String::from("apple"));
    let pear = Literal::Atom(String::from("pear"));
    assert_eq!(apple.cmp_same_type(&pear), Ordering::Less);

    // Numbers sort before atoms across kinds.
    assert_eq!(two.cmp_lit(&apple), Ordering::Less);
    assert_eq!(one.get_order(), 1);
    assert_eq!(apple.get_order(), 2);

    let list_a = Literal::List { elements: vec![Literal::Integer(1)], tail: None };
    let list_b = Literal::List {
        elements: vec![Literal::Integer(1), Literal::Integer(2)],
        tail: None,
    };
    assert_eq!(list_a.cmp_same_type(&list_b), Ordering::Less);
}

#[test]
fn checking_is_one_directional_outside_function_specs() {
    let scope = Scope::new_root_scope(String::from("direction"));

    // The literal atom hello is not a boolean, so the backward
    // subtyping (boolean below atom) must not make this pass.
    let atom_expr =
        ErlModuleImpl::from_expr_source(String::from("direction"), "hello").unwrap();
    assert!(TypeCheck::check(&scope, &atom_expr.ast, &ErlType::boolean()).is_err());

    // A float list is not an integer list, although both sit under the
    // unqualified list type.
    let float_list =
        ErlModuleImpl::from_expr_source(String::from("direction"), "[1.5]").unwrap();
    assert!(TypeCheck::check(
        &scope,
        &float_list.ast,
        &ErlType::list_of(ErlType::integer())
    )
    .is_err());

    // The forward direction still passes.
    assert!(TypeCheck::check(&scope, &atom_expr.ast, &ErlType::atom()).unwrap());
    assert!(TypeCheck::check(&scope, &float_list.ast, &ErlType::any_list()).unwrap());
}
