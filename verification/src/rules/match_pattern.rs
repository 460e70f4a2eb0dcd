//! The pattern of a match arm.
#![allow(unused_imports)]
use vstd::prelude::*;
use crate::span::{Span, Spanned};
use crate::operator::Operator;
use crate::lexer::{Token, token_eq};
use crate::text::str_eq;
use crate::parser::{
    LucyParser, ParsingContext, TypeNode, BindingNode, MatchPattern, MatchArm, ClassMember,
    CategoryVariant, NamedTupleDef, AstNode, FmtPart, SAst, ctx_view, get_bp, message,
};
use crate::parse_items::opt_member_view;
use crate::parse_exprs::{
    lemma_sasts_push, lemma_field_values_push, lemma_pairs_push, lemma_parts_push, last_span_of,
    binop_operator_of,
};
use crate::parse_stmts::{
    lemma_arms_push, lemma_members_push, lemma_variants_push, lemma_strings_push, arm_body_view,
    arms_view, members_view, variants_view, opt_variant_view, class_context, overload_operator_of,
};
use crate::parser_spec::{
    SpecSAst, sast_view, vec_sast_view, vec_pair_string_sast_view, vec_pair_sast_sast_view,
    vec_fmt_part_view, vec_match_arm_view, match_pattern_view, vec_class_member_view,
    vec_category_variant_view, vec_string_view, vec_pair_type_node_opt_type_node_view,
    opt_box_sast_view,
};
use crate::grammar::{
    binop_operator, overload_operator, push_some, last_span, class_ctx, p_type_args,
    p_variant_path, g_stmt, g_body, g_expr, g_expr_bp, g_bp_loop, g_postfix, g_class_literal,
    g_class_literal_fields, g_call_args, g_array_items, g_map_items, g_fstring_parts, g_primary,
    g_var_decl, g_ret, g_fun_decl, g_for, g_while, g_cond, g_cond_rest, g_else_body, g_match,
    g_arms, g_arm_body, g_brace_block, g_do_block, g_match_pattern, public_of, g_public,
    g_class_def, g_members, g_class_method, g_operator_overload, g_named_tuple, g_method_block,
    g_category, g_variants, g_variant_methods, g_tuple_variant, g_class_variant, top_ctx,
    g_file_stmts, g_file,
};

verus! {

impl LucyParser {
    pub(crate) fn parse_variant_path(&mut self, first: String) -> (r: Vec<String>)
        requires
            old(self).wf(),
        ensures
            final(self).keeps(old(self)),
            (vec_string_view(r@), final(self).state()) == p_variant_path(
                old(self).ptoks(),
                old(self).state(),
                seq![first@],
            ),
    {
        let mut path: Vec<String> = Vec::new();
        proof {
            lemma_strings_push(path@, first);
            assert(path@.push(first) =~= seq![first]);
            assert(vec_string_view(Seq::<String>::empty()) =~= seq![]);
        }
        path.push(first);
        loop
            invariant
                self.keeps(old(self)),
                p_variant_path(self.ptoks(), self.state(), vec_string_view(path@)) == p_variant_path(
                    old(self).ptoks(),
                    old(self).state(),
                    seq![first@],
                ),
            decreases self.tokens@.len() - self.pos,
        {
            if !self.peek_is(Token::PUNCT(".")) {
                return path;
            }
            self.consume();
            match self.expect_any_some() {
                Some((Token::IDENT(s), _)) => {
                    proof {
                        lemma_strings_push(path@, s);
                    }
                    path.push(s);
                },
                Some((other, span)) => {
                    self.push_error_tok("Expected variant name after '::', got ", &other, span);
                    return path;
                },
                None => {
                    return path;
                },
            }
        }
    }

    /// Parses the pattern of a match arm: `_`, `default [name]`, a binding
    /// list, a category variant path `A.B[(bindings)]`, a name, or an
    /// expression.
    pub fn parse_match_pattern(&mut self, ctx: &ParsingContext) -> (r: MatchPattern)
        requires
            old(self).wf(),
            g_match_pattern(old(self).ptoks(), old(self).state(), ctx_view(ctx)) is Some,
        ensures
            final(self).keeps(old(self)),
            g_match_pattern(old(self).ptoks(), old(self).state(), ctx_view(ctx)) == Some(
                (match_pattern_view(r), final(self).state()),
            ),
            old(self).pos < old(self).tokens@.len() ==> final(self).pos > old(self).pos,
        decreases old(self).tokens@.len() - old(self).pos, 58int,
    {
        reveal(g_match_pattern);
        proof {
            reveal_strlit("_");
        }
        if self.peek_is(Token::IDENT(message("_"))) {
            self.consume();
            return MatchPattern::Wildcard;
        }
        if self.peek_is(Token::DEFAULT) {
            self.consume();
            let nx = self.peek_some();
            return match nx {
                Token::IDENT(n) => {
                    self.consume();
                    MatchPattern::Default(Some(n))
                },
                _ => MatchPattern::Default(None),
            };
        }
        if self.peek_is(Token::PAREN("(")) {
            let b = match self.parse_binding(ctx) {
                Some(b) => b,
                None => BindingNode::OrderedBinding { bindings: Vec::new() },
            };
            proof {
                assert(crate::parser_spec::vec_binding_node_view(Seq::<BindingNode>::empty()) =~= seq![]);
            }
            return MatchPattern::Binding(b);
        }
        if self.peek_is(Token::PAREN("{")) {
            let b = match self.parse_binding(ctx) {
                Some(b) => b,
                None => BindingNode::UnorderedBinding { bindings: Vec::new() },
            };
            proof {
                assert(crate::parser_spec::vec_binding_node_view(Seq::<BindingNode>::empty()) =~= seq![]);
            }
            return MatchPattern::Binding(b);
        }
        let nx = self.peek_some();
        match nx {
            Token::IDENT(first) => {
                self.consume();
                if self.peek_is(Token::PUNCT(".")) {
                    let path = self.parse_variant_path(first);
                    let binding = if self.peek_is(Token::PAREN("(")) {
                        self.parse_binding(ctx)
                    } else {
                        None
                    };
                    MatchPattern::CategoryVariant { path, binding }
                } else {
                    MatchPattern::Binding(
                        BindingNode::IdentifierBinding { name: first, ty: TypeNode::Inferred },
                    )
                }
            },
            _ => MatchPattern::Expr(self.parse_expr(ctx)),
        }
    }
}

} // verus!
