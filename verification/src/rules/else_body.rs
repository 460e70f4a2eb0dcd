//! The body of an else branch.
#![allow(unused_imports)]
use vstd::prelude::*;
use crate::span::{Span, Spanned};
use crate::operator::Operator;
use crate::lexer::{Token, token_eq};
use crate::text::str_eq;
use crate::parser::{
    LucyParser, ParsingContext, TypeNode, BindingNode, MatchPattern, MatchArm, ClassMember,
    CategoryVariant, NamedTupleDef, AstNode, FmtPart, SAst, ctx_view, get_bp, message,
};
use crate::parse_items::opt_member_view;
use crate::parse_exprs::{
    lemma_sasts_push, lemma_field_values_push, lemma_pairs_push, lemma_parts_push, last_span_of,
    binop_operator_of,
};
use crate::parse_stmts::{
    lemma_arms_push, lemma_members_push, lemma_variants_push, lemma_strings_push, arm_body_view,
    arms_view, members_view, variants_view, opt_variant_view, class_context, overload_operator_of,
};
use crate::parser_spec::{
    SpecSAst, sast_view, vec_sast_view, vec_pair_string_sast_view, vec_pair_sast_sast_view,
    vec_fmt_part_view, vec_match_arm_view, match_pattern_view, vec_class_member_view,
    vec_category_variant_view, vec_string_view, vec_pair_type_node_opt_type_node_view,
    opt_box_sast_view,
};
use crate::grammar::{
    binop_operator, overload_operator, push_some, last_span, class_ctx, p_type_args,
    p_variant_path, g_stmt, g_body, g_expr, g_expr_bp, g_bp_loop, g_postfix, g_class_literal,
    g_class_literal_fields, g_call_args, g_array_items, g_map_items, g_fstring_parts, g_primary,
    g_var_decl, g_ret, g_fun_decl, g_for, g_while, g_cond, g_cond_rest, g_else_body, g_match,
    g_arms, g_arm_body, g_brace_block, g_do_block, g_match_pattern, public_of, g_public,
    g_class_def, g_members, g_class_method, g_operator_overload, g_named_tuple, g_method_block,
    g_category, g_variants, g_variant_methods, g_tuple_variant, g_class_variant, top_ctx,
    g_file_stmts, g_file,
};

verus! {

impl LucyParser {
    pub(crate) fn parse_else_body(&mut self, ctx: &ParsingContext, end0: Span) -> (r: (Vec<SAst>, Span))
        requires
            old(self).wf(),
            g_else_body(old(self).ptoks(), old(self).state(), ctx_view(ctx), seq![], end0) is Some,
        ensures
            final(self).keeps(old(self)),
            g_else_body(old(self).ptoks(), old(self).state(), ctx_view(ctx), seq![], end0) == Some(
                ((vec_sast_view(r.0@), r.1), final(self).state()),
            ),
        decreases old(self).tokens@.len() - old(self).pos, 62int,
    {
        reveal(g_else_body);
        let mut body: Vec<SAst> = Vec::new();
        proof {
            assert(vec_sast_view(body@) =~= seq![]);
        }
        loop
            invariant
                self.keeps(old(self)),
                g_else_body(self.ptoks(), self.state(), ctx_view(ctx), vec_sast_view(body@), end0)
                    == g_else_body(old(self).ptoks(), old(self).state(), ctx_view(ctx), seq![], end0),
                g_else_body(old(self).ptoks(), old(self).state(), ctx_view(ctx), seq![], end0) is Some,
            decreases self.tokens@.len() - self.pos,
        {
            reveal(g_else_body);
            if self.peek_is(Token::END) {
                let mut e = end0;
                self.consume_end(&mut e);
                return (body, e);
            }
            let st = self.parse_stmt(ctx);
            proof {
                lemma_sasts_push(body@, st);
            }
            body.push(st);
        }
    }
}

} // verus!
