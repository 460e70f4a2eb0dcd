//! Checks a list of statements in order.
#![allow(unused_imports)]
use vstd::prelude::*;
use crate::span::Span;
use crate::operator::Operator;
use crate::ty::{Type, FunctionType, TypeId, SpecType, type_view, types_view, fn_type_view, clone_type,
    lemma_types_view, lemma_type_text_view, find_field, field_names, fields_view, class_view};
use crate::scopes::{find_name, lemma_index_from, str_names, lemma_typed_names, lemma_namespaces_view};
use crate::parser::{AstNode, SAst, TypeNode, BindingNode, MatchPattern, MatchArm, ClassMember};
use crate::text::{push_str, push_decimal, string_from_chars};
use crate::typechecker::{TypeChecker, quoted_string, quoted_quoted, arity_message, arith_type};
use crate::tc_spec::{
    TcState, with_error, quoted, inner_of, tc_infer, tc_moved, tc_binop, tc_dot, tc_method_call,
    tc_class_literal, lit_fields, tc_call, call_pairs, tc_stmts, tc_stmt, tc_var_decl, tc_assign,
    tc_fn_decl, tc_cond, tc_while, tc_for, tc_match, tc_arms, tc_return, tc_binop_stmt, tc_class,
    class_bodies, lemma_stmts_prefix, lemma_call_pairs_prefix, lemma_lit_fields_prefix,
    lemma_arms_prefix, lemma_class_bodies_prefix, push_scope, pop_scope,
};
use crate::text::decimal;

verus! {

impl TypeChecker {

    pub(crate) fn check_stmts(&mut self, ss: &Vec<SAst>)
        requires
            tc_stmts(old(self).view(), ss@, ss@.len()) is Some,
        ensures
            tc_stmts(old(self).view(), ss@, ss@.len()) == Some(final(self).view()),
        decreases ss@, 0int,
    {
        let ghost st0 = self.view();
        let mut k: usize = 0;
        proof {
            reveal(tc_stmts);
        }
        while k < ss.len()
            invariant
                k <= ss@.len(),
                st0 == old(self).view(),
                tc_stmts(st0, ss@, ss@.len()) is Some,
                tc_stmts(st0, ss@, k as nat) == Some(self.view()),
            decreases ss@.len() - k,
        {
            proof {
                reveal(tc_stmts);
                lemma_stmts_prefix(st0, ss@, ss@.len(), (k + 1) as nat);
            }
            self.check_stmt(&ss[k]);
            k = k + 1;
        }
    }
}

} // verus!
