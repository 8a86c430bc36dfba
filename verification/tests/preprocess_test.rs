//! Interpretation of preprocessor directives: macro substitution,
//! conditional resolution, includes and error collection.

use ironclad::error::ErlError;
use ironclad::file_cache::FileCacheImpl;
use ironclad::macro_string::MacroString;
use ironclad::pp_ast::PpAst;
use ironclad::pp_scope::ParserScopeImpl;
use ironclad::preprocess::ErlPreprocessStage;

fn fresh_stage() -> ErlPreprocessStage {
    ErlPreprocessStage::new(FileCacheImpl::new(), ParserScopeImpl::new_empty())
}

#[test]
fn define_then_use_substitutes_the_body() {
    let mut stage = fresh_stage();
    let out = stage
        .preprocess_source("-define(NAME, body_text).\nhello ?NAME world\n")
        .unwrap();
    assert_eq!(out, "hello body_text world\n");
}

#[test]
fn preprocessing_is_idempotent_on_directive_free_text() {
    let mut stage = fresh_stage();
    let input = "-define(A, 1).\nuse ?A here\nplain line\n";
    let once = stage.preprocess_source(input).unwrap();
    assert_eq!(once, "use 1 here\nplain line\n");

    let mut stage2 = fresh_stage();
    let twice = stage2.preprocess_source(once.as_str()).unwrap();
    assert_eq!(twice, once);
}

#[test]
fn constant_comparison_condition_is_evaluated() {
    let mut stage = fresh_stage();
    let out = stage
        .preprocess_source("-if(10>20).\nyes\n-else.\nno\n-endif.\n")
        .unwrap();
    assert_eq!(out, "no\n");

    let mut stage2 = fresh_stage();
    let out2 = stage2
        .preprocess_source("-if(10<20).\nyes\n-else.\nno\n-endif.\n")
        .unwrap();
    assert_eq!(out2, "yes\n");
}

#[test]
fn non_literal_condition_is_a_clear_error() {
    let mut stage = fresh_stage();
    let r = stage.preprocess_source("-if(X>2).\na\n-endif.\n");
    match r {
        Err(ErlError::Preprocessor { .. }) => {}
        other => panic!("expected a preprocessor diagnostic, got {:?}", other),
    }
}

#[test]
fn discarded_branch_definitions_stay_invisible() {
    let mut stage = fresh_stage();
    let out = stage
        .preprocess_source(
            "-if(true).\n-else.\n-define(M, 1).\n-endif.\n-ifdef(M).\nseen\n-else.\nunseen\n-endif.\n",
        )
        .unwrap();
    assert_eq!(out, "unseen\n");
}

#[test]
fn ifdef_sees_earlier_definitions() {
    let mut stage = fresh_stage();
    let out = stage
        .preprocess_source("-define(M, 1).\n-ifdef(M).\nseen\n-else.\nunseen\n-endif.\n")
        .unwrap();
    assert_eq!(out, "seen\n");

    let mut stage2 = fresh_stage();
    let out2 = stage2
        .preprocess_source("-define(M, 1).\n-undef(M).\n-ifdef(M).\nseen\n-endif.\n")
        .unwrap();
    assert_eq!(out2, "");
}

#[test]
fn ifndef_inverts_the_test() {
    let mut stage = fresh_stage();
    let out = stage
        .preprocess_source("-ifndef(M).\nfresh\n-else.\nstale\n-endif.\n")
        .unwrap();
    assert_eq!(out, "fresh\n");
}

#[test]
fn include_splices_the_cached_file() {
    let mut cache = FileCacheImpl::new();
    cache.update_source_text("lib.hrl", String::from("from the include\n"));
    let mut stage = ErlPreprocessStage::new(cache, ParserScopeImpl::new_empty());
    let out = stage
        .preprocess_source("before\n-include(\"lib.hrl\").\nafter\n")
        .unwrap();
    assert_eq!(out, "before\nfrom the include\nafter\n");
}

#[test]
fn missing_include_is_collected() {
    let mut stage = fresh_stage();
    let r = stage.preprocess_source("-include(\"absent.hrl\").\n");
    match r {
        Err(ErlError::Multiple { errors }) => assert_eq!(errors.len(), 1),
        other => panic!("expected a collected error report, got {:?}", other),
    }
}

#[test]
fn error_directives_are_reported_together() {
    let mut stage = fresh_stage();
    let r = stage.preprocess_source("-error(first).\ntext\n-error(second).\n");
    match r {
        Err(ErlError::Multiple { errors }) => assert_eq!(errors.len(), 2),
        other => panic!("expected two collected errors, got {:?}", other),
    }
}

#[test]
fn preprocess_file_updates_the_cache() {
    let mut cache = FileCacheImpl::new();
    cache.update_source_text("a.erl", String::from("-define(V, 9).\nv = ?V\n"));
    let mut stage = ErlPreprocessStage::new(cache, ParserScopeImpl::new_empty());
    let out = stage.preprocess_file("a.erl").unwrap();
    assert_eq!(out, "v = 9\n");
    assert_eq!(stage.file_cache.get_or_load("a.erl").unwrap(), "v = 9\n");

    let files = vec![String::from("a.erl"), String::from("b.txt")];
    let count = stage.run(&files).unwrap();
    assert_eq!(count, 1);
}

#[test]
fn headers_are_preprocessed_too() {
    let mut cache = FileCacheImpl::new();
    cache.update_source_text("h.hrl", String::from("-define(K, 7).\nk = ?K\n"));
    let mut stage = ErlPreprocessStage::new(cache, ParserScopeImpl::new_empty());
    let files = vec![String::from("h.hrl"), String::from("readme.txt")];
    let count = stage.run(&files).unwrap();
    assert_eq!(count, 1);
    assert_eq!(stage.file_cache.get_or_load("h.hrl").unwrap(), "k = 7\n");
}

#[test]
fn trim_drops_surrounding_whitespace_and_clamps() {
    assert_eq!(PpAst::trim("  hello \n"), "hello");
    assert_eq!(PpAst::trim(" \t \n"), "");
    let long = "x".repeat(60);
    assert_eq!(PpAst::trim(&long).len(), 39);
}

#[test]
fn macro_string_substitutes_in_place() {
    let mut scope = ParserScopeImpl::new_empty();
    scope.define("W", Vec::new(), "world");
    let mut text = MacroString::new("hello ?W");
    text.update(&scope);
    assert_eq!(text.text, "hello world");

    let untouched = MacroString::new("no marks here");
    assert_eq!(untouched.text, "no marks here");

    let mut unknown = MacroString::new_string(String::from("keep ?UNKNOWN"));
    unknown.update(&scope);
    assert_eq!(unknown.text, "keep ?UNKNOWN");
}

#[test]
fn scope_overlay_and_arity() {
    let mut one = ParserScopeImpl::new_empty();
    one.define("A", Vec::new(), "1");
    let mut two = ParserScopeImpl::new_empty();
    two.define("A", Vec::new(), "2");
    let merged = ParserScopeImpl::overlay(&one, &two);
    let got = merged.get_value("A", 0).unwrap();
    assert_eq!(got.text, "2");
    assert!(merged.is_defined("A"));
    assert!(!merged.is_defined_with_arity("A", 1));
}

#[test]
fn relative_includes_resolve_against_the_including_file() {
    let mut cache = FileCacheImpl::new();
    cache.update_source_text("dir/lib.hrl", String::from("shared\n"));
    cache.update_source_text("dir/main.erl", String::from("-include(\"lib.hrl\").\nbody\n"));
    let mut stage = ErlPreprocessStage::new(cache, ParserScopeImpl::new_empty());
    let out = stage.preprocess_file("dir/main.erl").unwrap();
    assert_eq!(out, "shared\nbody\n");
}
