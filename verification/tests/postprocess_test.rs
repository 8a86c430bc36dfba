//! The postprocessing pass, the equation generator, and error variants
//! of checking and synthesis.

use ironclad::check::TypeCheck;
use ironclad::erl_ast::ErlAst;
use ironclad::erl_type::ErlType;
use ironclad::error::ErlError;
use ironclad::funarity::FunArity;
use ironclad::module::ErlModuleImpl;
use ironclad::scope::Scope;
use ironclad::unifier::Unifier;

#[test]
fn postprocess_resolves_local_calls() {
    let src = "g() -> 1.\nf() -> g().\n";
    let m = ErlModuleImpl::from_module_source(String::from("postprocess_local"), src).unwrap();
    let (resolved, scope) = m.postprocess_ast();

    let fa = FunArity::new(String::from("g"), 0);
    assert!(scope.find_fn_ast(&fa).is_some());

    match &resolved.ast {
        ErlAst::Forms(forms) => match &forms[1] {
            ErlAst::FnDef { clauses, .. } => match clauses[0] {
                ErlAst::FClause { ref body, .. } => match &**body {
                    ErlAst::Apply(call) => match &*call.target {
                        ErlAst::MFA { module, funarity } => {
                            assert!(module.is_none());
                            assert_eq!(funarity.name, "g");
                            assert_eq!(funarity.arity, 0);
                        }
                        other => panic!("expected a resolved reference, got {:?}", other),
                    },
                    other => panic!("expected an application body, got {:?}", other),
                },
                ref other => panic!("expected a function clause, got {:?}", other),
            },
            other => panic!("expected a function definition, got {:?}", other),
        },
        other => panic!("expected a form list, got {:?}", other),
    }
}

#[test]
fn postprocess_resolves_imported_calls() {
    let src = "-import(lists, [map/2]).\nf(X) -> map(X, X).\n";
    let m = ErlModuleImpl::from_module_source(String::from("postprocess_import"), src).unwrap();
    let (resolved, scope) = m.postprocess_ast();

    let fa = FunArity::new(String::from("map"), 2);
    assert_eq!(scope.find_import(&fa).unwrap(), "lists");

    match &resolved.ast {
        ErlAst::Forms(forms) => match &forms[1] {
            ErlAst::FnDef { clauses, .. } => match clauses[0] {
                ErlAst::FClause { ref body, .. } => match &**body {
                    ErlAst::Apply(call) => match &*call.target {
                        ErlAst::MFA { module, funarity } => {
                            assert_eq!(module.as_deref(), Some("lists"));
                            assert_eq!(funarity.name, "map");
                        }
                        other => panic!("expected a resolved reference, got {:?}", other),
                    },
                    other => panic!("expected an application body, got {:?}", other),
                },
                ref other => panic!("expected a function clause, got {:?}", other),
            },
            other => panic!("expected a function definition, got {:?}", other),
        },
        other => panic!("expected a form list, got {:?}", other),
    }
}

#[test]
fn unresolved_calls_stay_as_atoms() {
    let src = "f() -> unknown_fn().\n";
    let m = ErlModuleImpl::from_module_source(String::from("postprocess_unknown"), src).unwrap();
    let (resolved, _scope) = m.postprocess_ast();
    match &resolved.ast {
        ErlAst::Forms(forms) => match &forms[0] {
            ErlAst::FnDef { clauses, .. } => match clauses[0] {
                ErlAst::FClause { ref body, .. } => match &**body {
                    ErlAst::Apply(call) => assert!(call.target.is_atom()),
                    other => panic!("expected an application body, got {:?}", other),
                },
                ref other => panic!("expected a function clause, got {:?}", other),
            },
            other => panic!("expected a function definition, got {:?}", other),
        },
        other => panic!("expected a form list, got {:?}", other),
    }
}

#[test]
fn equations_cover_operators_and_guards() {
    let m = ErlModuleImpl::from_expr_source(
        String::from("equations"),
        "case 1 + 2 of X when true -> X * 3 end",
    )
    .unwrap();
    let mut equations = Vec::new();
    let mut errors = Vec::new();
    let mut idx = 0usize;
    Unifier::generate_equations(&m.ast, &mut equations, &mut errors, &mut idx);
    // One equation set for each operator (result plus two operand
    // constraints), one for the guard, one for the case itself.
    assert_eq!(equations.len(), 8);
    assert!(errors.is_empty());
    assert!(idx > 0);
}

#[test]
fn incompatible_types_give_a_type_error() {
    let scope = Scope::new_root_scope(String::from("type_error"));
    let parsed = ErlModuleImpl::from_expr_source(String::from("type_error"), "hello").unwrap();
    let r = TypeCheck::check(&scope, &parsed.ast, &ErlType::integer());
    match r {
        Err(ErlError::TypeErr { expected, actual }) => {
            assert!(expected.is_integer());
            assert!(actual.is_atom());
        }
        other => panic!("expected a type error, got {:?}", other),
    }
}

#[test]
fn applying_a_non_function_is_an_internal_error() {
    let scope = Scope::new_root_scope(String::from("internal"));
    let parsed = ErlModuleImpl::from_expr_source(String::from("internal"), "notfn(1)").unwrap();
    let r = parsed.ast.synthesize(&scope);
    match r {
        Err(ErlError::Internal { .. }) => {}
        other => panic!("expected an internal error, got {:?}", other),
    }
}

#[test]
fn bound_variables_shadow_older_bindings() {
    let mut scope = Scope::new_root_scope(String::from("shadow"));
    scope.add_var(String::from("X"), ErlType::integer());
    scope.add_var(String::from("X"), ErlType::float());
    let found = scope.lookup_var("X").unwrap();
    assert!(found.is_float());
    assert!(scope.lookup_var("Y").is_none());
}
