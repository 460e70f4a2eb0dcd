//! `T { f: e, ... }`.
#![allow(unused_imports)]
use vstd::prelude::*;
use crate::span::Span;
use crate::operator::Operator;
use crate::ty::{Type, FunctionType, TypeId, SpecType, type_view, types_view, fn_type_view, clone_type,
    lemma_types_view, lemma_type_text_view, find_field, field_names, fields_view, class_view};
use crate::scopes::{find_name, lemma_index_from, str_names, lemma_typed_names, lemma_namespaces_view};
use crate::parser::{AstNode, SAst, TypeNode, BindingNode, MatchPattern, MatchArm, ClassMember};
use crate::text::{push_str, push_decimal, string_from_chars};
use crate::typechecker::{TypeChecker, quoted_string, quoted_quoted, arity_message, arith_type};
use crate::tc_spec::{
    TcState, with_error, quoted, inner_of, tc_infer, tc_moved, tc_binop, tc_dot, tc_method_call,
    tc_class_literal, lit_fields, tc_call, call_pairs, tc_stmts, tc_stmt, tc_var_decl, tc_assign,
    tc_fn_decl, tc_cond, tc_while, tc_for, tc_match, tc_arms, tc_return, tc_binop_stmt, tc_class,
    class_bodies, lemma_stmts_prefix, lemma_call_pairs_prefix, lemma_lit_fields_prefix,
    lemma_arms_prefix, lemma_class_bodies_prefix, push_scope, pop_scope,
};
use crate::text::decimal;

verus! {

impl TypeChecker {

    #[verifier::loop_isolation(false)]
    pub(crate) fn infer_class_literal(&mut self, e: &SAst) -> (r: Type)
        requires
            tc_class_literal(old(self).view(), *e) is Some,
        ensures
            tc_class_literal(old(self).view(), *e) == Some((type_view(r), final(self).view())),
        decreases e, 2int,
    {
        proof {
            reveal(tc_class_literal);
        }
        match &e.node {
            AstNode::ClassLiteral { ty, fields } => {
                let class_name: String = match &ty.node {
                    AstNode::Identifier(s) => s.clone(),
                    AstNode::SelfExpr => match &self.current_class {
                        Some(c) => c.clone(),
                        None => String::new(),
                    },
                    _ => {
                        return Type::Unknown;
                    },
                };
                let class_ty = match self.scopes.resolve_type(class_name.as_str()) {
                    Some(t) => clone_type(t),
                    None => {
                        let m = quoted_string("unknown type '", class_name.as_str());
                        self.error(e.span, m);
                        return Type::Unknown;
                    },
                };
                match &class_ty {
                    Type::Class(id) => {
                        let id = *id;
                        let ghost s0 = self.view();
                        let mut k: usize = 0;
                        proof {
                            reveal(lit_fields);
                        }
                        while k < fields.len()
                            invariant
                                k <= fields@.len(),
                                lit_fields(s0, id.0, class_name@, fields@, fields@.len()) is Some,
                                lit_fields(s0, id.0, class_name@, fields@, k as nat) == Some(self.view()),
                            decreases fields@.len() - k,
                        {
                            proof {
                                reveal(lit_fields);
                                lemma_lit_fields_prefix(s0, id.0, class_name@, fields@, fields@.len(), (k + 1) as nat);
                            }
                            let at = self.infer_expr_type(&fields[k].1);
                            let c = self.type_arena.get_class(id);
                            proof {
                                assert(self.view().classes[id.0 as int] == class_view(*c));
                            }
                            let hit = match find_field(&c.fields, fields[k].0.as_str()) {
                                Some(i) => Some(clone_type(&c.fields[i].1)),
                                None => None,
                            };
                            match hit {
                                Some(expected) => self.assert_assignable(&expected, &at, fields[k].1.span),
                                None => {
                                    let m = quoted_quoted("class '", class_name.as_str(), " has no field '", fields[k].0.as_str());
                                    self.error(fields[k].1.span, m);
                                },
                            }
                            k = k + 1;
                        }
                    },
                    _ => {},
                }
                class_ty
            },
            _ => Type::Unknown,
        }
    }
}

} // verus!
