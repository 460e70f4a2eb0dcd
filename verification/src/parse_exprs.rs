//! Parsing of expressions: precedence climbing over infix operators,
//! postfix forms, and primary expressions.
use vstd::prelude::*;
use crate::span::{Span, Spanned};
use crate::operator::Operator;
use crate::lexer::{Token, token_eq};
use crate::text::str_eq;
use crate::parser::{
    LucyParser, ParsingContext, TypeNode, AstNode, FmtPart, SAst, ctx_view, get_bp, message,
    lemma_types_push,
};
use crate::parser_spec::{
    SpecSAst, sast_view, vec_sast_view, vec_type_node_view, vec_pair_string_sast_view,
    pair_string_sast_view, vec_pair_sast_sast_view, pair_sast_sast_view, vec_fmt_part_view,
    fmt_part_view,
};
use crate::grammar::{
    g_expr, g_expr_bp, g_bp_loop, g_postfix, g_class_literal, g_class_literal_fields,
    g_call_args, g_array_items, g_map_items, g_fstring_parts, g_primary, p_type_args,
    binop_operator, last_span,
};

verus! {

pub proof fn lemma_sasts_push(v: Seq<SAst>, x: SAst)
    ensures
        vec_sast_view(v.push(x)) == vec_sast_view(v).push(sast_view(x)),
{
    assert(v.push(x).drop_last() =~= v);
}

pub proof fn lemma_field_values_push(v: Seq<(String, SAst)>, x: (String, SAst))
    ensures
        vec_pair_string_sast_view(v.push(x)) == vec_pair_string_sast_view(v).push(
            pair_string_sast_view(x),
        ),
{
    assert(v.push(x).drop_last() =~= v);
}

pub proof fn lemma_pairs_push(v: Seq<(SAst, SAst)>, x: (SAst, SAst))
    ensures
        vec_pair_sast_sast_view(v.push(x)) == vec_pair_sast_sast_view(v).push(pair_sast_sast_view(x)),
{
    assert(v.push(x).drop_last() =~= v);
}

pub proof fn lemma_parts_push(v: Seq<FmtPart>, x: FmtPart)
    ensures
        vec_fmt_part_view(v.push(x)) == vec_fmt_part_view(v).push(fmt_part_view(x)),
{
    assert(v.push(x).drop_last() =~= v);
}

/// The view of a sequence of nodes has the same length and the views of its
/// nodes.
pub proof fn lemma_sasts_view(v: Seq<SAst>)
    ensures
        vec_sast_view(v).len() == v.len(),
        forall|i: int| 0 <= i < v.len() ==> #[trigger] vec_sast_view(v)[i] == sast_view(v[i]),
    decreases v.len(),
{
    if v.len() > 0 {
        lemma_sasts_view(v.drop_last());
        assert forall|i: int| 0 <= i < v.len() implies #[trigger] vec_sast_view(v)[i] == sast_view(
            v[i],
        ) by {
            if i < v.len() - 1 {
                assert(vec_sast_view(v.drop_last())[i] == sast_view(v.drop_last()[i]));
            }
        }
    }
}

/// The span of the last node, or `dflt` when there is none.
pub fn last_span_of(v: &Vec<SAst>, dflt: Span) -> (r: Span)
    ensures
        r == last_span(vec_sast_view(v@), dflt),
{
    proof {
        lemma_sasts_view(v@);
    }
    if v.len() > 0 {
        v[v.len() - 1].span
    } else {
        dflt
    }
}

/// The operator of an infix token that has one.
pub fn binop_operator_of(tok: &Token) -> (r: Option<Operator>)
    ensures
        r == binop_operator(tok@),
{
    match tok {
        Token::BINOP(s) => if str_eq(s, "+") {
            Some(Operator::Add)
        } else if str_eq(s, "-") {
            Some(Operator::Sub)
        } else if str_eq(s, "*") {
            Some(Operator::Mul)
        } else if str_eq(s, "/") {
            Some(Operator::Div)
        } else if str_eq(s, "%") {
            Some(Operator::Mod)
        } else if str_eq(s, "^") {
            Some(Operator::Pow)
        } else if str_eq(s, "<<") {
            Some(Operator::BLShift)
        } else if str_eq(s, ">>") {
            Some(Operator::BRShift)
        } else if str_eq(s, "&&") {
            Some(Operator::LAnd)
        } else if str_eq(s, "||") {
            Some(Operator::LOr)
        } else if str_eq(s, "|") {
            Some(Operator::BOr)
        } else if str_eq(s, "==") {
            Some(Operator::Eq)
        } else if str_eq(s, "!=") {
            Some(Operator::NEq)
        } else if str_eq(s, "<") {
            Some(Operator::Lt)
        } else if str_eq(s, ">") {
            Some(Operator::Gt)
        } else if str_eq(s, "<=") {
            Some(Operator::Le)
        } else if str_eq(s, ">=") {
            Some(Operator::Ge)
        } else {
            None
        },
        Token::AND => Some(Operator::BAnd),
        _ => None,
    }
}

impl LucyParser {
    /// Type arguments after `.<`, up to `>`; stops at one that is not a
    /// type.
    pub(crate) fn parse_type_args(&mut self, ctx: &ParsingContext) -> (r: Vec<TypeNode>)
        requires
            old(self).wf(),
        ensures
            final(self).keeps(old(self)),
            (vec_type_node_view(r@), final(self).state()) == p_type_args(
                old(self).ptoks(),
                old(self).state(),
                ctx_view(ctx),
                seq![],
            ),
    {
        let mut acc: Vec<TypeNode> = Vec::new();
        proof {
            assert(vec_type_node_view(acc@) =~= seq![]);
        }
        loop
            invariant
                self.keeps(old(self)),
                p_type_args(self.ptoks(), self.state(), ctx_view(ctx), vec_type_node_view(acc@))
                    == p_type_args(old(self).ptoks(), old(self).state(), ctx_view(ctx), seq![]),
            decreases self.tokens@.len() - self.pos,
        {
            if self.peek_is(Token::BINOP(">")) {
                self.consume();
                return acc;
            } else if self.peek_is(Token::PUNCT(",")) {
                self.consume();
            } else {
                match self.parse_type(ctx) {
                    None => {
                        return acc;
                    },
                    Some(ty) => {
                        proof {
                            lemma_types_push(acc@, ty);
                        }
                        acc.push(ty);
                    },
                }
            }
        }
    }
}

} // verus!
