//! Postfix forms after an operand.
#![allow(unused_imports)]
use vstd::prelude::*;
use crate::span::{Span, Spanned};
use crate::operator::Operator;
use crate::lexer::{Token, token_eq};
use crate::text::str_eq;
use crate::parser::{
    LucyParser, ParsingContext, TypeNode, BindingNode, MatchPattern, MatchArm, ClassMember,
    CategoryVariant, NamedTupleDef, AstNode, FmtPart, SAst, ctx_view, get_bp, message,
};
use crate::parse_items::opt_member_view;
use crate::parse_exprs::{
    lemma_sasts_push, lemma_field_values_push, lemma_pairs_push, lemma_parts_push, last_span_of,
    binop_operator_of,
};
use crate::parse_stmts::{
    lemma_arms_push, lemma_members_push, lemma_variants_push, lemma_strings_push, arm_body_view,
    arms_view, members_view, variants_view, opt_variant_view, class_context, overload_operator_of,
};
use crate::parser_spec::{
    SpecSAst, sast_view, vec_sast_view, vec_pair_string_sast_view, vec_pair_sast_sast_view,
    vec_fmt_part_view, vec_match_arm_view, match_pattern_view, vec_class_member_view,
    vec_category_variant_view, vec_string_view, vec_pair_type_node_opt_type_node_view,
    opt_box_sast_view,
};
use crate::grammar::{
    binop_operator, overload_operator, push_some, last_span, class_ctx, p_type_args,
    p_variant_path, g_stmt, g_body, g_expr, g_expr_bp, g_bp_loop, g_postfix, g_class_literal,
    g_class_literal_fields, g_call_args, g_array_items, g_map_items, g_fstring_parts, g_primary,
    g_var_decl, g_ret, g_fun_decl, g_for, g_while, g_cond, g_cond_rest, g_else_body, g_match,
    g_arms, g_arm_body, g_brace_block, g_do_block, g_match_pattern, public_of, g_public,
    g_class_def, g_members, g_class_method, g_operator_overload, g_named_tuple, g_method_block,
    g_category, g_variants, g_variant_methods, g_tuple_variant, g_class_variant, top_ctx,
    g_file_stmts, g_file,
};

verus! {

impl LucyParser {
    /// Postfix forms after `left`: calls `(...)`, indexing `[...]`, method
    /// names `:name`, member names `.name`, type arguments `.<...>`, and
    /// class literals `{...}`.
    pub fn parse_postfix(&mut self, ctx: &ParsingContext, left0: SAst) -> (r: SAst)
        requires
            old(self).wf(),
            g_postfix(old(self).ptoks(), old(self).state(), ctx_view(ctx), sast_view(left0)) is Some,
        ensures
            final(self).keeps(old(self)),
            g_postfix(old(self).ptoks(), old(self).state(), ctx_view(ctx), sast_view(left0))
                == Some((sast_view(r), final(self).state())),
        decreases old(self).tokens@.len() - old(self).pos, 44int,
    {
        reveal(g_postfix);
        let ghost l0 = sast_view(left0);
        let mut left = left0;
        loop
            invariant
                self.keeps(old(self)),
                l0 == sast_view(left0),
                g_postfix(self.ptoks(), self.state(), ctx_view(ctx), sast_view(left)) == g_postfix(
                    old(self).ptoks(),
                    old(self).state(),
                    ctx_view(ctx),
                    l0,
                ),
                g_postfix(old(self).ptoks(), old(self).state(), ctx_view(ctx), l0) is Some,
            decreases self.tokens@.len() - self.pos,
        {
            reveal(g_postfix);
            if self.pos >= self.tokens.len() {
                return left;
            }
            if self.peek_is(Token::PAREN("(")) {
                let open_span = self.peek_span();
                self.consume();
                let args = self.parse_call_args(ctx);
                let end = last_span_of(&args, open_span);
                let span = left.span.merge(end);
                left = Spanned::new(AstNode::FunctionCall { callee: Box::new(left), args }, span);
            } else if self.peek_is(Token::PAREN("[")) {
                self.consume();
                let index = self.parse_expr(ctx);
                let close_span = match self.expect_some(Token::PAREN("]"), "Expected ']'") {
                    Some((_, s)) => s,
                    None => {
                        return left;
                    },
                };
                let span = left.span.merge(close_span);
                left = Spanned::new(
                    AstNode::ComputedIndex { indexee: Box::new(left), index: Box::new(index) },
                    span,
                );
            } else if self.peek_is(Token::PUNCT(":")) {
                self.consume();
                let nx = self.peek_some();
                match nx {
                    Token::IDENT(name) => {
                        let seg_span = self.peek_span();
                        self.consume();
                        let seg = Spanned::new(AstNode::Identifier(name), seg_span);
                        assert(sast_view(seg) == (crate::parser_spec::SpecAstNode::Identifier(name@), seg_span));
                        let span = left.span.merge(seg_span);
                        let ghost lv = sast_view(left);
                        left = Spanned::new(
                            AstNode::MethodCall { indexee: Box::new(left), index: Box::new(seg) },
                            span,
                        );
                        assert(sast_view(left) == (crate::parser_spec::SpecAstNode::MethodCall { indexee: Box::new(lv), index: Box::new((crate::parser_spec::SpecAstNode::Identifier(name@), seg_span)) }, span));
                    },
                    other => {
                        let span = self.peek_span();
                        self.push_error_tok("Expected ident after ':', got ", &other, span);
                        return left;
                    },
                }
            } else if self.peek_is(Token::PUNCT(".")) {
                self.consume();
                if self.peek_is(Token::BINOP("<")) {
                    self.consume();
                    let type_args = self.parse_type_args(ctx);
                    let span = left.span;
                    left = Spanned::new(
                        AstNode::TypeInstantiation { callee: Box::new(left), type_args },
                        span,
                    );
                } else {
                    let nx = self.peek_some();
                    match nx {
                        Token::IDENT(name) => {
                            let seg_span = self.peek_span();
                            self.consume();
                            let seg = Spanned::new(AstNode::Identifier(name), seg_span);
                            assert(sast_view(seg) == (crate::parser_spec::SpecAstNode::Identifier(name@), seg_span));
                            let span = left.span.merge(seg_span);
                            let ghost lv = sast_view(left);
                            left = Spanned::new(
                                AstNode::DotIndex { indexee: Box::new(left), index: Box::new(seg) },
                                span,
                            );
                            assert(sast_view(left) == (crate::parser_spec::SpecAstNode::DotIndex { indexee: Box::new(lv), index: Box::new((crate::parser_spec::SpecAstNode::Identifier(name@), seg_span)) }, span));
                        },
                        other => {
                            let span = self.peek_span();
                            self.push_error_tok("Expected ident or '<' after '::', got ", &other, span);
                            return left;
                        },
                    }
                }
            } else if self.peek_is(Token::PAREN("{")) {
                left = self.parse_class_literal(ctx, left);
            } else {
                return left;
            }
        }
    }
}

} // verus!
