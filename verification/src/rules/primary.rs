//! A primary expression.
#![allow(unused_imports)]
use vstd::prelude::*;
use crate::span::{Span, Spanned};
use crate::operator::Operator;
use crate::lexer::{Token, token_eq};
use crate::text::str_eq;
use crate::parser::{
    LucyParser, ParsingContext, TypeNode, BindingNode, MatchPattern, MatchArm, ClassMember,
    CategoryVariant, NamedTupleDef, AstNode, FmtPart, SAst, ctx_view, get_bp, message,
};
use crate::parse_items::opt_member_view;
use crate::parse_exprs::{
    lemma_sasts_push, lemma_field_values_push, lemma_pairs_push, lemma_parts_push, last_span_of,
    binop_operator_of,
};
use crate::parse_stmts::{
    lemma_arms_push, lemma_members_push, lemma_variants_push, lemma_strings_push, arm_body_view,
    arms_view, members_view, variants_view, opt_variant_view, class_context, overload_operator_of,
};
use crate::parser_spec::{
    SpecSAst, sast_view, vec_sast_view, vec_pair_string_sast_view, vec_pair_sast_sast_view,
    vec_fmt_part_view, vec_match_arm_view, match_pattern_view, vec_class_member_view,
    vec_category_variant_view, vec_string_view, vec_pair_type_node_opt_type_node_view,
    opt_box_sast_view,
};
use crate::grammar::{
    binop_operator, overload_operator, push_some, last_span, class_ctx, p_type_args,
    p_variant_path, g_stmt, g_body, g_expr, g_expr_bp, g_bp_loop, g_postfix, g_class_literal,
    g_class_literal_fields, g_call_args, g_array_items, g_map_items, g_fstring_parts, g_primary,
    g_var_decl, g_ret, g_fun_decl, g_for, g_while, g_cond, g_cond_rest, g_else_body, g_match,
    g_arms, g_arm_body, g_brace_block, g_do_block, g_match_pattern, public_of, g_public,
    g_class_def, g_members, g_class_method, g_operator_overload, g_named_tuple, g_method_block,
    g_category, g_variants, g_variant_methods, g_tuple_variant, g_class_variant, top_ctx,
    g_file_stmts, g_file,
};

verus! {

impl LucyParser {
    /// Parses a primary expression: a literal, a name or macro invocation,
    /// `self`, `Self`, a prefix operator with its operand, an array, hashmap
    /// or format-string literal, or an expression in parentheses.
    pub fn parse_primary(&mut self, ctx: &ParsingContext) -> (r: SAst)
        requires
            old(self).wf(),
            g_primary(old(self).ptoks(), old(self).state(), ctx_view(ctx)) is Some,
        ensures
            final(self).keeps(old(self)),
            g_primary(old(self).ptoks(), old(self).state(), ctx_view(ctx)) == Some(
                (sast_view(r), final(self).state()),
            ),
            old(self).pos < old(self).tokens@.len() ==> final(self).pos > old(self).pos,
        decreases old(self).tokens@.len() - old(self).pos, 40int,
    {
        reveal(g_primary);
        let (tok, span) = match self.expect_any_some() {
            Some(t) => t,
            None => {
                return Spanned::new(AstNode::Error, Span::dummy());
            },
        };
        match tok {
            Token::INT(n) => Spanned::new(AstNode::IntLiteral(n), span),
            Token::FLOAT(f) => Spanned::new(AstNode::FloatLiteral(f), span),
            Token::STRING(s) => Spanned::new(AstNode::StringLiteral(s), span),
            Token::IDENT(name) => {
                if self.peek_is(Token::BANG) {
                    self.parse_macro_invocation(name, span)
                } else {
                    Spanned::new(AstNode::Identifier(name), span)
                }
            },
            Token::SELF => Spanned::new(AstNode::SelfExpr, span),
            Token::SELFTYPE => match &ctx.current_class {
                Some(name) => Spanned::new(AstNode::Identifier(name.clone()), span),
                None => {
                    self.push_error(message("'Self' used outside a class body"), span);
                    Spanned::new(AstNode::Error, span)
                },
            },
            Token::TYPEOF => {
                let operand = self.parse_expr(ctx);
                let end = operand.span;
                Spanned::new(AstNode::Typeof(Box::new(operand)), span.merge(end))
            },
            Token::AND => {
                let operand = self.parse_primary(ctx);
                let end = operand.span;
                Spanned::new(AstNode::Borrowed(Box::new(operand)), span.merge(end))
            },
            Token::UNARY(u) => {
                if str_eq(u, "-") {
                    let operand = self.parse_primary(ctx);
                    let end = operand.span;
                    Spanned::new(
                        AstNode::UnaryOperation { op: Operator::Neg, right: Box::new(operand) },
                        span.merge(end),
                    )
                } else if str_eq(u, "~") {
                    let operand = self.parse_primary(ctx);
                    let end = operand.span;
                    Spanned::new(
                        AstNode::UnaryOperation { op: Operator::BNot, right: Box::new(operand) },
                        span.merge(end),
                    )
                } else {
                    self.push_error_tok("Unexpected token in expression: ", &Token::UNARY(u), span);
                    Spanned::new(AstNode::Error, span)
                }
            },
            Token::BANG => {
                let operand = self.parse_primary(ctx);
                let end = operand.span;
                Spanned::new(
                    AstNode::UnaryOperation { op: Operator::LNot, right: Box::new(operand) },
                    span.merge(end),
                )
            },
            Token::PAREN(p) => {
                if str_eq(p, "[") {
                    let (members, end_span) = self.parse_array_items(ctx, span);
                    Spanned::new(AstNode::ArrayLiteral(members), span.merge(end_span))
                } else if str_eq(p, "{") {
                    let (pairs, end_span) = self.parse_map_items(ctx, span);
                    Spanned::new(AstNode::HashMapLiteral(pairs), span.merge(end_span))
                } else if str_eq(p, "(") {
                    let expr = self.parse_expr(ctx);
                    let close = match self.expect_some(Token::PAREN(")"), "Expected ')'") {
                        Some((_, s)) => s,
                        None => expr.span,
                    };
                    Spanned::new(expr.node, span.merge(close))
                } else {
                    self.push_error_tok("Unexpected token in expression: ", &Token::PAREN(p), span);
                    Spanned::new(AstNode::Error, span)
                }
            },
            Token::ARROW => {
                let operand = self.parse_primary(ctx);
                let end = operand.span;
                Spanned::new(AstNode::Moved(Box::new(operand)), span.merge(end))
            },
            Token::FSTRING_START => {
                let (parts, end_span) = self.parse_fstring_parts(ctx, span);
                Spanned::new(AstNode::FmtStringLiteral(parts), span.merge(end_span))
            },
            other => {
                self.push_error_tok("Unexpected token in expression: ", &other, span);
                Spanned::new(AstNode::Error, span)
            },
        }
    }
}

} // verus!
