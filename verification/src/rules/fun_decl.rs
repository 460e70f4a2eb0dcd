//! A function declaration.
#![allow(unused_imports)]
use vstd::prelude::*;
use crate::span::{Span, Spanned};
use crate::operator::Operator;
use crate::lexer::{Token, token_eq};
use crate::text::str_eq;
use crate::parser::{
    LucyParser, ParsingContext, TypeNode, BindingNode, MatchPattern, MatchArm, ClassMember,
    CategoryVariant, NamedTupleDef, AstNode, FmtPart, SAst, ctx_view, get_bp, message,
};
use crate::parse_items::opt_member_view;
use crate::parse_exprs::{
    lemma_sasts_push, lemma_field_values_push, lemma_pairs_push, lemma_parts_push, last_span_of,
    binop_operator_of,
};
use crate::parse_stmts::{
    lemma_arms_push, lemma_members_push, lemma_variants_push, lemma_strings_push, arm_body_view,
    arms_view, members_view, variants_view, opt_variant_view, class_context, overload_operator_of,
};
use crate::parser_spec::{
    SpecSAst, sast_view, vec_sast_view, vec_pair_string_sast_view, vec_pair_sast_sast_view,
    vec_fmt_part_view, vec_match_arm_view, match_pattern_view, vec_class_member_view,
    vec_category_variant_view, vec_string_view, vec_pair_type_node_opt_type_node_view,
    opt_box_sast_view,
};
use crate::grammar::{
    binop_operator, overload_operator, push_some, last_span, class_ctx, p_type_args,
    p_variant_path, g_stmt, g_body, g_expr, g_expr_bp, g_bp_loop, g_postfix, g_class_literal,
    g_class_literal_fields, g_call_args, g_array_items, g_map_items, g_fstring_parts, g_primary,
    g_var_decl, g_ret, g_fun_decl, g_for, g_while, g_cond, g_cond_rest, g_else_body, g_match,
    g_arms, g_arm_body, g_brace_block, g_do_block, g_match_pattern, public_of, g_public,
    g_class_def, g_members, g_class_method, g_operator_overload, g_named_tuple, g_method_block,
    g_category, g_variants, g_variant_methods, g_tuple_variant, g_class_variant, top_ctx,
    g_file_stmts, g_file,
};

verus! {

impl LucyParser {
    /// Parses a function declaration after `fn`: a name, optional type
    /// parameters, parameters, an optional `: return type`, and a body
    /// unless declarations have none here.
    pub fn parse_fun_declaration(&mut self, ctx: &ParsingContext) -> (r: SAst)
        requires
            old(self).wf(),
            g_fun_decl(old(self).ptoks(), old(self).state(), ctx_view(ctx)) is Some,
        ensures
            final(self).keeps(old(self)),
            g_fun_decl(old(self).ptoks(), old(self).state(), ctx_view(ctx)) == Some(
                (sast_view(r), final(self).state()),
            ),
        decreases old(self).tokens@.len() - old(self).pos, 56int,
    {
        reveal(g_fun_decl);
        let start = self.peek_span();
        let (tk, span) = match self.expect_any_some() {
            None => {
                return Spanned::new(AstNode::Error, start);
            },
            Some(x) => x,
        };
        let name = match tk {
            Token::IDENT(s) => s,
            other => {
                self.push_error_tok("Expected function name, got ", &other, span);
                return Spanned::new(AstNode::Error, span);
            },
        };
        let type_params = if self.peek_is(Token::BINOP("<")) {
            self.consume();
            match self.parse_type_params(ctx) {
                Some(tp) => tp,
                None => {
                    return Spanned::new(AstNode::Error, start);
                },
            }
        } else {
            let tp: Vec<(TypeNode, Option<TypeNode>)> = Vec::new();
            proof {
                assert(vec_pair_type_node_opt_type_node_view(tp@) =~= seq![]);
            }
            tp
        };
        if self.expect_some(Token::PAREN("("), "Expected '(' after function name").is_none() {
            return Spanned::new(AstNode::Error, start);
        }
        let params = match self.parse_params(ctx) {
            Some(p) => p,
            None => {
                return Spanned::new(AstNode::Error, start);
            },
        };
        let return_type = if self.peek_is(Token::PUNCT(":")) {
            self.consume();
            match self.parse_type(ctx) {
                Some(t) => t,
                None => {
                    return Spanned::new(AstNode::Error, start);
                },
            }
        } else {
            TypeNode::Inferred
        };
        let body = if ctx.no_fn_body {
            let b: Vec<SAst> = Vec::new();
            proof {
                assert(vec_sast_view(b@) =~= seq![]);
            }
            b
        } else {
            self.parse_body(ctx)
        };
        let end = last_span_of(&body, start);
        Spanned::new(
            AstNode::FunctionDeclaration { name, type_params, params, return_type, body },
            start.merge(end),
        )
    }
}

} // verus!
