//! A call.
#![allow(unused_imports)]
use vstd::prelude::*;
use crate::span::Span;
use crate::operator::Operator;
use crate::ty::{Type, FunctionType, TypeId, SpecType, type_view, types_view, fn_type_view, clone_type,
    lemma_types_view, lemma_type_text_view, find_field, field_names, fields_view, class_view};
use crate::scopes::{find_name, lemma_index_from, str_names, lemma_typed_names, lemma_namespaces_view};
use crate::parser::{AstNode, SAst, TypeNode, BindingNode, MatchPattern, MatchArm, ClassMember};
use crate::text::{push_str, push_decimal, string_from_chars};
use crate::typechecker::{TypeChecker, quoted_string, quoted_quoted, arity_message, arith_type};
use crate::tc_spec::{
    TcState, with_error, quoted, inner_of, tc_infer, tc_moved, tc_binop, tc_dot, tc_method_call,
    tc_class_literal, lit_fields, tc_call, call_pairs, tc_stmts, tc_stmt, tc_var_decl, tc_assign,
    tc_fn_decl, tc_cond, tc_while, tc_for, tc_match, tc_arms, tc_return, tc_binop_stmt, tc_class,
    class_bodies, lemma_stmts_prefix, lemma_call_pairs_prefix, lemma_lit_fields_prefix,
    lemma_arms_prefix, lemma_class_bodies_prefix, push_scope, pop_scope,
};
use crate::text::decimal;

verus! {

impl TypeChecker {

    #[verifier::loop_isolation(false)]
    pub(crate) fn check_call(&mut self, e: &SAst) -> (r: Type)
        requires
            tc_call(old(self).view(), *e) is Some,
        ensures
            tc_call(old(self).view(), *e) == Some((type_view(r), final(self).view())),
        decreases e, 1int,
    {
        proof {
            reveal(tc_call);
        }
        match &e.node {
            AstNode::FunctionCall { callee, args } => {
                let callee_ty = self.infer_expr_type(callee);
                let ghost cv = type_view(callee_ty);
                let ghost s1 = self.view();
                match callee_ty {
                    Type::Function(f) => {
                        let ghost fv = fn_type_view(*f);
                        assert(cv == SpecType::Function(Box::new(fv)));
                        let params = f.params;
                        let return_type = f.return_type;
                        let ghost pv = types_view(params@);
                        proof {
                            lemma_types_view(params@);
                            assert(fv.params == pv);
                            assert(*fv.ret == type_view(*return_type));
                        }
                        if args.len() != params.len() {
                            let mut out: Vec<char> = Vec::new();
                            push_str(&mut out, "expected ");
                            push_decimal(&mut out, params.len());
                            push_str(&mut out, " argument(s), got ");
                            push_decimal(&mut out, args.len());
                            assert(out@ =~= "expected "@ + decimal(params@.len()) + " argument(s), got "@ + decimal(args@.len()));
                            let m = string_from_chars(&out);
                            self.error(e.span, m);
                        }
                        let n = if args.len() < params.len() { args.len() } else { params.len() };
                        let ghost s2 = self.view();
                        let mut k: usize = 0;
                        proof {
                            reveal(call_pairs);
                        }
                        while k < n
                            invariant
                                k <= n,
                                n <= args@.len(),
                                n <= params@.len(),
                                call_pairs(s2, args@, pv, n as nat) is Some,
                                call_pairs(s2, args@, pv, k as nat) == Some(self.view()),
                            decreases n - k,
                        {
                            proof {
                                reveal(call_pairs);
                                lemma_call_pairs_prefix(s2, args@, pv, n as nat, (k + 1) as nat);
                            }
                            let at = self.infer_expr_type(&args[k]);
                            self.check_arg(&args[k], &at, &params[k]);
                            k = k + 1;
                        }
                        *return_type
                    },
                    Type::Unknown => Type::Unknown,
                    _ => {
                        self.error(e.span, "attempt to call non-function".to_owned());
                        Type::Unknown
                    },
                }
            },
            _ => Type::Unknown,
        }
    }
}

} // verus!
