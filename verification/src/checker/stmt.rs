//! Checks a statement.
#![allow(unused_imports)]
use vstd::prelude::*;
use crate::span::Span;
use crate::operator::Operator;
use crate::ty::{Type, FunctionType, TypeId, SpecType, type_view, types_view, fn_type_view, clone_type,
    lemma_types_view, lemma_type_text_view, find_field, field_names, fields_view, class_view};
use crate::scopes::{find_name, lemma_index_from, str_names, lemma_typed_names, lemma_namespaces_view};
use crate::parser::{AstNode, SAst, TypeNode, BindingNode, MatchPattern, MatchArm, ClassMember};
use crate::text::{push_str, push_decimal, string_from_chars};
use crate::typechecker::{TypeChecker, quoted_string, quoted_quoted, arity_message, arith_type};
use crate::tc_spec::{
    TcState, with_error, quoted, inner_of, tc_infer, tc_moved, tc_binop, tc_dot, tc_method_call,
    tc_class_literal, lit_fields, tc_call, call_pairs, tc_stmts, tc_stmt, tc_var_decl, tc_assign,
    tc_fn_decl, tc_cond, tc_while, tc_for, tc_match, tc_arms, tc_return, tc_binop_stmt, tc_class,
    class_bodies, lemma_stmts_prefix, lemma_call_pairs_prefix, lemma_lit_fields_prefix,
    lemma_arms_prefix, lemma_class_bodies_prefix, push_scope, pop_scope,
};
use crate::text::decimal;

verus! {

impl TypeChecker {

    pub fn check_stmt(&mut self, stmt: &SAst)
        requires
            tc_stmt(old(self).view(), *stmt) is Some,
        ensures
            tc_stmt(old(self).view(), *stmt) == Some(final(self).view()),
        decreases stmt, 3int,
    {
        proof {
            reveal(tc_stmt);
        }
        match &stmt.node {
            AstNode::Program(stmts) => self.check_stmts(stmts),
            AstNode::ModuleStmt { .. } => {},
            AstNode::Public(inner) => self.check_stmt(inner),
            AstNode::UseStmt { base_path, used } => self.check_use(&base_path.node, used, stmt.span),
            AstNode::VarDeclaration { .. } => self.check_var_decl(stmt),
            AstNode::Assignment { .. } => self.check_assignment(stmt),
            AstNode::FunctionDeclaration { .. } => self.check_fn_decl(stmt),
            AstNode::ClassDefinition { .. } => self.check_class_definition(stmt),
            AstNode::ConditionalBranch { .. } => self.check_cond(stmt),
            AstNode::WhileLoop { .. } => self.check_while(stmt),
            AstNode::ForLoop { .. } => self.check_for(stmt),
            AstNode::MatchStmt { .. } => self.check_match(stmt),
            AstNode::ReturnStmt { .. } => self.check_return(stmt),
            AstNode::FunctionCall { .. } => {
                let _ = self.check_call(stmt);
            },
            AstNode::BinaryOperation { .. } => self.check_binop_stmt(stmt),
            _ => {},
        }
    }
}

} // verus!
