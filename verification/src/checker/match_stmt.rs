//! `match`.
#![allow(unused_imports)]
use vstd::prelude::*;
use crate::span::Span;
use crate::operator::Operator;
use crate::ty::{Type, FunctionType, TypeId, SpecType, type_view, types_view, fn_type_view, clone_type,
    lemma_types_view, lemma_type_text_view, find_field, field_names, fields_view, class_view};
use crate::scopes::{find_name, lemma_index_from, str_names, lemma_typed_names, lemma_namespaces_view};
use crate::parser::{AstNode, SAst, TypeNode, BindingNode, MatchPattern, MatchArm, ClassMember};
use crate::text::{push_str, push_decimal, string_from_chars};
use crate::typechecker::{TypeChecker, quoted_string, quoted_quoted, arity_message, arith_type};
use crate::tc_spec::{
    TcState, with_error, quoted, inner_of, tc_infer, tc_moved, tc_binop, tc_dot, tc_method_call,
    tc_class_literal, lit_fields, tc_call, call_pairs, tc_stmts, tc_stmt, tc_var_decl, tc_assign,
    tc_fn_decl, tc_cond, tc_while, tc_for, tc_match, tc_arms, tc_return, tc_binop_stmt, tc_class,
    class_bodies, lemma_stmts_prefix, lemma_call_pairs_prefix, lemma_lit_fields_prefix,
    lemma_arms_prefix, lemma_class_bodies_prefix, push_scope, pop_scope,
};
use crate::text::decimal;

verus! {

impl TypeChecker {

    #[verifier::loop_isolation(false)]
    pub(crate) fn check_match(&mut self, s: &SAst)
        requires
            tc_match(old(self).view(), *s) is Some,
        ensures
            tc_match(old(self).view(), *s) == Some(final(self).view()),
        decreases s, 2int,
    {
        proof {
            reveal(tc_match);
        }
        match &s.node {
            AstNode::MatchStmt { matchee, arms } => {
                let mt = self.infer_expr_type(matchee);
                let ghost s1 = self.view();
                let ghost mtv = type_view(mt);
                let mut k: usize = 0;
                proof {
                    reveal(tc_arms);
                }
                while k < arms.len()
                    invariant
                        k <= arms@.len(),
                        tc_arms(s1, mtv, arms@, arms@.len()) is Some,
                        tc_arms(s1, mtv, arms@, k as nat) == Some(self.view()),
                    decreases arms@.len() - k,
                {
                    proof {
                        reveal(tc_arms);
                        lemma_arms_prefix(s1, mtv, arms@, arms@.len(), (k + 1) as nat);
                    }
                    self.scopes.push();
                    match &arms[k].pattern {
                        MatchPattern::Expr(x) => {
                            let pt = self.infer_expr_type(x);
                            self.assert_assignable(&mt, &pt, x.span);
                        },
                        MatchPattern::Binding(BindingNode::IdentifierBinding { name, ty }) => {
                            let compiled = self.compile_type(ty);
                            self.scopes.define_local(name.clone(), compiled, false);
                        },
                        _ => {},
                    }
                    self.check_stmts(&arms[k].body);
                    self.scopes.pop();
                    k = k + 1;
                }
            },
            _ => {},
        }
    }
}

} // verus!
