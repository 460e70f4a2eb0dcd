//! `for`.
#![allow(unused_imports)]
use vstd::prelude::*;
use crate::span::Span;
use crate::operator::Operator;
use crate::ty::{Type, FunctionType, TypeId, SpecType, type_view, types_view, fn_type_view, clone_type,
    lemma_types_view, lemma_type_text_view, find_field, field_names, fields_view, class_view};
use crate::scopes::{find_name, lemma_index_from, str_names, lemma_typed_names, lemma_namespaces_view};
use crate::parser::{AstNode, SAst, TypeNode, BindingNode, MatchPattern, MatchArm, ClassMember};
use crate::text::{push_str, push_decimal, string_from_chars};
use crate::typechecker::{TypeChecker, quoted_string, quoted_quoted, arity_message, arith_type};
use crate::tc_spec::{
    TcState, with_error, quoted, inner_of, tc_infer, tc_moved, tc_binop, tc_dot, tc_method_call,
    tc_class_literal, lit_fields, tc_call, call_pairs, tc_stmts, tc_stmt, tc_var_decl, tc_assign,
    tc_fn_decl, tc_cond, tc_while, tc_for, tc_match, tc_arms, tc_return, tc_binop_stmt, tc_class,
    class_bodies, lemma_stmts_prefix, lemma_call_pairs_prefix, lemma_lit_fields_prefix,
    lemma_arms_prefix, lemma_class_bodies_prefix, push_scope, pop_scope,
};
use crate::text::decimal;

verus! {

impl TypeChecker {

    pub(crate) fn check_for(&mut self, s: &SAst)
        requires
            tc_for(old(self).view(), *s) is Some,
        ensures
            tc_for(old(self).view(), *s) == Some(final(self).view()),
        decreases s, 2int,
    {
        proof {
            reveal(tc_for);
        }
        match &s.node {
            AstNode::ForLoop { binding, iterator, body } => {
                let _ = self.infer_expr_type(iterator);
                self.scopes.push();
                match binding {
                    BindingNode::IdentifierBinding { name, ty } => {
                        let compiled = self.compile_type(ty);
                        self.scopes.define_local(name.clone(), compiled, false);
                    },
                    _ => {},
                }
                self.check_stmts(body);
                self.scopes.pop();
            },
            _ => {},
        }
    }
}

} // verus!
