//! A class definition.
#![allow(unused_imports)]
use vstd::prelude::*;
use crate::span::{Span, Spanned};
use crate::operator::Operator;
use crate::lexer::{Token, token_eq};
use crate::text::str_eq;
use crate::parser::{
    LucyParser, ParsingContext, TypeNode, BindingNode, MatchPattern, MatchArm, ClassMember,
    CategoryVariant, NamedTupleDef, AstNode, FmtPart, SAst, ctx_view, get_bp, message,
};
use crate::parse_items::opt_member_view;
use crate::parse_exprs::{
    lemma_sasts_push, lemma_field_values_push, lemma_pairs_push, lemma_parts_push, last_span_of,
    binop_operator_of,
};
use crate::parse_stmts::{
    lemma_arms_push, lemma_members_push, lemma_variants_push, lemma_strings_push, arm_body_view,
    arms_view, members_view, variants_view, opt_variant_view, class_context, overload_operator_of,
};
use crate::parser_spec::{
    SpecSAst, sast_view, vec_sast_view, vec_pair_string_sast_view, vec_pair_sast_sast_view,
    vec_fmt_part_view, vec_match_arm_view, match_pattern_view, vec_class_member_view,
    vec_category_variant_view, vec_string_view, vec_pair_type_node_opt_type_node_view,
    opt_box_sast_view,
};
use crate::grammar::{
    binop_operator, overload_operator, push_some, last_span, class_ctx, p_type_args,
    p_variant_path, g_stmt, g_body, g_expr, g_expr_bp, g_bp_loop, g_postfix, g_class_literal,
    g_class_literal_fields, g_call_args, g_array_items, g_map_items, g_fstring_parts, g_primary,
    g_var_decl, g_ret, g_fun_decl, g_for, g_while, g_cond, g_cond_rest, g_else_body, g_match,
    g_arms, g_arm_body, g_brace_block, g_do_block, g_match_pattern, public_of, g_public,
    g_class_def, g_members, g_class_method, g_operator_overload, g_named_tuple, g_method_block,
    g_category, g_variants, g_variant_methods, g_tuple_variant, g_class_variant, top_ctx,
    g_file_stmts, g_file,
};

verus! {

impl LucyParser {
    /// Parses a class definition after `class`: a name and members up to
    /// `end`.
    pub fn parse_class_definition(&mut self, ctx: &ParsingContext) -> (r: SAst)
        requires
            old(self).wf(),
            g_class_def(old(self).ptoks(), old(self).state(), ctx_view(ctx)) is Some,
        ensures
            final(self).keeps(old(self)),
            g_class_def(old(self).ptoks(), old(self).state(), ctx_view(ctx)) == Some(
                (sast_view(r), final(self).state()),
            ),
        decreases old(self).tokens@.len() - old(self).pos, 56int,
    {
        reveal(g_class_def);
        let start = self.peek_span();
        let ghost t = self.ptoks();
        let ghost s0 = self.state();
        let (tk, span) = match self.expect_any_some() {
            None => {
                return Spanned::new(AstNode::Error, start);
            },
            Some(x) => x,
        };
        let ghost s1 = self.state();
        let ghost tkv = tk@;
        assert(s1 == crate::parser_spec::at_pos(s0, s0.pos + 1));
        assert(tkv == t[s0.pos].0);
        let name = match tk {
            Token::IDENT(s) => {
                assert(tkv == crate::lexer_spec::SpecToken::IDENT(s@));
                s
            },
            other => {
                self.push_error_tok("Expected class name, got ", &other, span);
                return Spanned::new(AstNode::Error, span);
            },
        };
        let cctx = class_context(ctx, &name);
        assert(ctx_view(&cctx) == class_ctx(ctx_view(ctx), name@));
        assert(g_members(t, s1, class_ctx(ctx_view(ctx), name@), seq![], start) is Some);
        match self.parse_members(&cctx, name.as_str(), start) {
            Err(sp) => Spanned::new(AstNode::Error, sp),
            Ok((members, end_span)) => Spanned::new(
                AstNode::ClassDefinition { name, members },
                start.merge(end_span),
            ),
        }
    }
}

} // verus!
