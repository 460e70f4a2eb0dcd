//! The type of an expression.
#![allow(unused_imports)]
use vstd::prelude::*;
use crate::span::Span;
use crate::operator::Operator;
use crate::ty::{Type, FunctionType, TypeId, SpecType, type_view, types_view, fn_type_view, clone_type,
    lemma_types_view, lemma_type_text_view, find_field, field_names, fields_view, class_view};
use crate::scopes::{find_name, lemma_index_from, str_names, lemma_typed_names, lemma_namespaces_view};
use crate::parser::{AstNode, SAst, TypeNode, BindingNode, MatchPattern, MatchArm, ClassMember};
use crate::text::{push_str, push_decimal, string_from_chars};
use crate::typechecker::{TypeChecker, quoted_string, quoted_quoted, arity_message, arith_type};
use crate::tc_spec::{
    TcState, with_error, quoted, inner_of, tc_infer, tc_moved, tc_binop, tc_dot, tc_method_call,
    tc_class_literal, lit_fields, tc_call, call_pairs, tc_stmts, tc_stmt, tc_var_decl, tc_assign,
    tc_fn_decl, tc_cond, tc_while, tc_for, tc_match, tc_arms, tc_return, tc_binop_stmt, tc_class,
    class_bodies, lemma_stmts_prefix, lemma_call_pairs_prefix, lemma_lit_fields_prefix,
    lemma_arms_prefix, lemma_class_bodies_prefix, push_scope, pop_scope,
};
use crate::text::decimal;

verus! {

impl TypeChecker {

    pub fn infer_expr_type(&mut self, expr: &SAst) -> (r: Type)
        requires
            tc_infer(old(self).view(), *expr) is Some,
        ensures
            tc_infer(old(self).view(), *expr) == Some((type_view(r), final(self).view())),
        decreases expr, 3int,
    {
        proof {
            reveal(tc_infer);
        }
        match &expr.node {
            AstNode::IntLiteral(_) => Type::I32,
            AstNode::FloatLiteral(_) => Type::F64,
            AstNode::StringLiteral(_) => Type::String,
            AstNode::Identifier(name) => self.infer_identifier(name.as_str(), expr.span),
            AstNode::SelfExpr => self.infer_self_type(),
            AstNode::Borrowed(inner) => {
                let t = self.infer_expr_type(inner);
                Type::Qualified { inner: Box::new(t), mutable: false, borrowed: true, moved: false }
            },
            AstNode::Moved(_) => self.infer_moved(expr),
            AstNode::BinaryOperation { .. } => self.infer_binop(expr),
            AstNode::FunctionCall { .. } => self.check_call(expr),
            AstNode::DotIndex { .. } => self.infer_dot(expr),
            AstNode::MethodCall { .. } => self.infer_method_call(expr),
            AstNode::ClassLiteral { .. } => self.infer_class_literal(expr),
            AstNode::TypeCast { left, right } => {
                let _ = self.infer_expr_type(left);
                self.compile_type(right)
            },
            AstNode::Typeof(inner) => {
                let _ = self.infer_expr_type(inner);
                Type::TypeVar("Type".to_owned())
            },
            _ => Type::Unknown,
        }
    }
}

} // verus!
