//! The parser's rules for statements and expressions, one module per rule.
pub mod stmt;
pub mod body;
pub mod do_block;
pub mod brace_block;
pub mod var_decl;
pub mod ret;
pub mod fun_decl;
pub mod for_loop;
pub mod while_loop;
pub mod cond;
pub mod cond_rest;
pub mod else_body;
pub mod match_stmt;
pub mod arms;
pub mod arm_body;
pub mod match_pattern;
pub mod public;
pub mod file;
pub mod class_def;
pub mod members;
pub mod class_method;
pub mod operator_overload;
pub mod named_tuple;
pub mod method_block;
pub mod category;
pub mod variants;
pub mod variant_methods;
pub mod tuple_variant;
pub mod class_variant;
pub mod expr;
pub mod expr_bp;
pub mod bp_loop;
pub mod postfix;
pub mod class_literal;
pub mod class_literal_fields;
pub mod call_args;
pub mod array_items;
pub mod map_items;
pub mod fstring_parts;
pub mod primary;
