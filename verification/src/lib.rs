//! Front-end pipeline for an Erlang-family language: preprocessing,
//! parsing, and gradual type inference over a structural type lattice.

pub mod ast_cache;
pub mod ast_children;
pub mod ast_new;
pub mod ast_processor;
pub mod check;
pub mod compile_module;
pub mod erl_ast;
pub mod erl_op;
pub mod erl_parser;
pub mod erl_type;
pub mod erl_type_new;
pub mod error;
pub mod expression;
pub mod file_cache;
pub mod funarity;
pub mod lit_cmp;
pub mod literal;
pub mod literal_bool;
pub mod macro_string;
pub mod module;
pub mod parse_forms;
pub mod pp_ast;
pub mod pp_parser;
pub mod pp_scope;
pub mod preprocess;
pub mod root_scope;
pub mod scope;
pub mod source_loc;
pub mod stage;
pub mod subtyping;
pub mod synthesize;
pub mod token_stream;
pub mod type_laws;
pub mod unifier;
