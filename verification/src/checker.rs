//! Checking statements and expressions, one kind in each module.
pub mod stmts;
pub mod stmt;
pub mod var_decl;
pub mod assign;
pub mod fn_decl;
pub mod cond;
pub mod while_loop;
pub mod for_loop;
pub mod match_stmt;
pub mod ret;
pub mod binop_stmt;
pub mod infer;
pub mod moved;
pub mod binop;
pub mod dot;
pub mod method_call;
pub mod class_literal;
pub mod call;
pub mod class_def;
