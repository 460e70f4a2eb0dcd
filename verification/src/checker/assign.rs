//! `x = e` and `a.f = e`.
#![allow(unused_imports)]
use vstd::prelude::*;
use crate::span::Span;
use crate::operator::Operator;
use crate::ty::{Type, FunctionType, TypeId, SpecType, type_view, types_view, fn_type_view, clone_type,
    lemma_types_view, lemma_type_text_view, find_field, field_names, fields_view, class_view};
use crate::scopes::{find_name, lemma_index_from, str_names, lemma_typed_names, lemma_namespaces_view};
use crate::parser::{AstNode, SAst, TypeNode, BindingNode, MatchPattern, MatchArm, ClassMember};
use crate::text::{push_str, push_decimal, string_from_chars};
use crate::typechecker::{TypeChecker, quoted_string, quoted_quoted, arity_message, arith_type};
use crate::tc_spec::{
    TcState, with_error, quoted, inner_of, tc_infer, tc_moved, tc_binop, tc_dot, tc_method_call,
    tc_class_literal, lit_fields, tc_call, call_pairs, tc_stmts, tc_stmt, tc_var_decl, tc_assign,
    tc_fn_decl, tc_cond, tc_while, tc_for, tc_match, tc_arms, tc_return, tc_binop_stmt, tc_class,
    class_bodies, lemma_stmts_prefix, lemma_call_pairs_prefix, lemma_lit_fields_prefix,
    lemma_arms_prefix, lemma_class_bodies_prefix, push_scope, pop_scope,
};
use crate::text::decimal;

verus! {

impl TypeChecker {

    pub(crate) fn check_assignment(&mut self, s: &SAst)
        requires
            tc_assign(old(self).view(), *s) is Some,
        ensures
            tc_assign(old(self).view(), *s) == Some(final(self).view()),
        decreases s, 2int,
    {
        proof {
            reveal(tc_assign);
        }
        match &s.node {
            AstNode::Assignment { left, right } => {
                let rhs = self.infer_expr_type(right);
                match &left.node {
                    AstNode::Identifier(name) => {
                        let info: Option<(bool, Type)> = match self.scopes.resolve_local(name.as_str()) {
                            Some(l) => Some((l.mutable, clone_type(&l.ty))),
                            None => None,
                        };
                        match info {
                            Some((mutable, ty)) => {
                                if !mutable {
                                    let m = quoted_string("cannot assign to immutable variable '", name.as_str());
                                    self.error(s.span, m);
                                }
                                self.assert_assignable(&ty, &rhs, s.span);
                            },
                            None => {
                                let m = quoted_string("undefined variable '", name.as_str());
                                self.error(s.span, m);
                            },
                        }
                    },
                    AstNode::DotIndex { indexee, index } => {
                        let obj = self.infer_expr_type(indexee);
                        match &index.node {
                            AstNode::Identifier(f) => match &obj {
                                Type::Class(id) => {
                                    let c = self.type_arena.get_class(*id);
                                    proof {
                                        assert(self.view().classes[id.0 as int] == class_view(*c));
                                    }
                                    let hit = match find_field(&c.fields, f.as_str()) {
                                        Some(i) => Some(clone_type(&c.fields[i].1)),
                                        None => None,
                                    };
                                    match hit {
                                        Some(ft) => self.assert_assignable(&ft, &rhs, s.span),
                                        None => {
                                            let m = quoted_string("class has no field '", f.as_str());
                                            self.error(s.span, m);
                                        },
                                    }
                                },
                                _ => {},
                            },
                            _ => {},
                        }
                    },
                    _ => {},
                }
            },
            _ => {},
        }
    }
}

} // verus!
