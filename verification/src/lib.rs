//! Lucy: lexer, bytecode encoding, types and editor helpers of the Lucy language.

pub mod span;
pub mod text;
pub mod operator;
pub mod ty;
pub mod lexer_spec;
pub mod lexer;
pub mod vm;
pub mod bytecode_debug;
pub mod lsp;
pub mod compiler;
pub mod builtin_types;
pub mod lucy_mod;
pub mod lib_std;
pub mod module;
pub mod scopes;
pub mod tc_spec;
pub mod typechecker;
pub mod checker;
pub mod tc_laws;
pub mod tc_wf;
pub mod parser;
pub mod parser_spec;
pub mod parse_macros;
pub mod parse_items;
pub mod grammar;
pub mod parse_exprs;
pub mod parse_stmts;
pub mod rules;
pub mod macro_spec;
pub mod macro_expand;
