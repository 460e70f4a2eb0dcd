//! Parsing of the parts of declarations that hold no expressions: module
//! and use statements, class fields, parameter and type lists.
use vstd::prelude::*;
use crate::span::{Span, Spanned};
use crate::lexer::Token;
use crate::parser::{
    LucyParser, ParsingContext, TypeNode, BindingNode, ClassMember, AstNode, SAst, ctx_view,
    lemma_types_push, lemma_bindings_push,
};
use crate::parser_spec::{
    p_module, p_class_field, p_type_params, p_params, p_type_list, p_variant_fields,
    p_use_list, p_use_path, p_use, SpecSAst, sast_view, class_member_view,
    vec_pair_type_node_opt_type_node_view, pair_type_node_opt_type_node_view,
    vec_binding_node_view, vec_type_node_view, vec_pair_string_type_node_view,
    pair_string_type_node_view, vec_pair_string_string_view, pair_string_string_view,
};

verus! {

pub open spec fn opt_member_view(r: Option<ClassMember>) -> Option<
    crate::parser_spec::SpecClassMember,
> {
    match r {
        Some(x) => Some(class_member_view(x)),
        None => None,
    }
}

pub open spec fn opt_type_params_view(r: Option<Vec<(TypeNode, Option<TypeNode>)>>) -> Option<
    Seq<(crate::parser_spec::SpecTypeNode, Option<crate::parser_spec::SpecTypeNode>)>,
> {
    match r {
        Some(x) => Some(vec_pair_type_node_opt_type_node_view(x@)),
        None => None,
    }
}

pub open spec fn opt_params_view(r: Option<Vec<BindingNode>>) -> Option<
    Seq<crate::parser_spec::SpecBindingNode>,
> {
    match r {
        Some(x) => Some(vec_binding_node_view(x@)),
        None => None,
    }
}

pub open spec fn opt_named_types_view(r: Option<Vec<(String, TypeNode)>>) -> Option<
    Seq<(Seq<char>, crate::parser_spec::SpecTypeNode)>,
> {
    match r {
        Some(x) => Some(vec_pair_string_type_node_view(x@)),
        None => None,
    }
}

pub open spec fn use_path_view(r: Result<(SAst, Vec<(String, String)>), Span>) -> Result<
    (SpecSAst, Seq<(Seq<char>, Seq<char>)>),
    Span,
> {
    match r {
        Ok((b, u)) => Ok((sast_view(b), vec_pair_string_string_view(u@))),
        Err(sp) => Err(sp),
    }
}

pub proof fn lemma_type_params_push(
    v: Seq<(TypeNode, Option<TypeNode>)>,
    x: (TypeNode, Option<TypeNode>),
)
    ensures
        vec_pair_type_node_opt_type_node_view(v.push(x)) == vec_pair_type_node_opt_type_node_view(
            v,
        ).push(pair_type_node_opt_type_node_view(x)),
{
    assert(v.push(x).drop_last() =~= v);
}

pub proof fn lemma_named_types_push(v: Seq<(String, TypeNode)>, x: (String, TypeNode))
    ensures
        vec_pair_string_type_node_view(v.push(x)) == vec_pair_string_type_node_view(v).push(
            pair_string_type_node_view(x),
        ),
{
    assert(v.push(x).drop_last() =~= v);
}

pub proof fn lemma_string_pairs_push(v: Seq<(String, String)>, x: (String, String))
    ensures
        vec_pair_string_string_view(v.push(x)) == vec_pair_string_string_view(v).push(
            pair_string_string_view(x),
        ),
{
    assert(v.push(x).drop_last() =~= v);
}

impl LucyParser {
    /// Parses a module statement after `module`: a name.
    pub fn parse_module(&mut self, ctx: &ParsingContext) -> (r: SAst)
        requires
            old(self).wf(),
        ensures
            final(self).keeps(old(self)),
            (sast_view(r), final(self).state()) == p_module(old(self).ptoks(), old(self).state()),
    {
        let start = self.peek_span();
        match self.expect_any_some() {
            Some((Token::IDENT(s), end_span)) => Spanned::new(
                AstNode::ModuleStmt { name: s },
                start.merge(end_span),
            ),
            Some((other, span)) => {
                self.push_error_tok("Expected identifier after 'namespace', got ", &other, span);
                Spanned::new(AstNode::Error, span)
            },
            None => Spanned::new(AstNode::Error, start),
        }
    }

    /// Parses a class field: a name, `:`, and a type.
    pub fn parse_class_field(&mut self, ctx: &ParsingContext, is_public: bool) -> (r: Option<
        ClassMember,
    >)
        requires
            old(self).wf(),
        ensures
            final(self).keeps(old(self)),
            (opt_member_view(r), final(self).state()) == p_class_field(
                old(self).ptoks(),
                old(self).state(),
                ctx_view(ctx),
                is_public,
            ),
            old(self).pos < old(self).tokens@.len() ==> final(self).pos > old(self).pos,
    {
        let (tok, span) = match self.expect_any_some() {
            None => {
                return None;
            },
            Some(x) => x,
        };
        let name = match tok {
            Token::IDENT(s) => s,
            other => {
                self.push_error_tok("Expected field name, got ", &other, span);
                return None;
            },
        };
        if self.expect_some(Token::PUNCT(":"), "Expected ':' after field name").is_none() {
            return None;
        }
        match self.parse_type(ctx) {
            None => None,
            Some(ty) => Some(ClassMember::Field { name, ty, is_public }),
        }
    }

    /// Type parameters after `<`, each with an optional `: constraint`, up
    /// to `>`; `None` when one is not a type.
    pub(crate) fn parse_type_params(&mut self, ctx: &ParsingContext) -> (r: Option<
        Vec<(TypeNode, Option<TypeNode>)>,
    >)
        requires
            old(self).wf(),
        ensures
            final(self).keeps(old(self)),
            (opt_type_params_view(r), final(self).state()) == p_type_params(
                old(self).ptoks(),
                old(self).state(),
                ctx_view(ctx),
                seq![],
            ),
    {
        let mut acc: Vec<(TypeNode, Option<TypeNode>)> = Vec::new();
        proof {
            assert(vec_pair_type_node_opt_type_node_view(acc@) =~= seq![]);
        }
        loop
            invariant
                self.keeps(old(self)),
                p_type_params(
                    self.ptoks(),
                    self.state(),
                    ctx_view(ctx),
                    vec_pair_type_node_opt_type_node_view(acc@),
                ) == p_type_params(old(self).ptoks(), old(self).state(), ctx_view(ctx), seq![]),
            decreases self.tokens@.len() - self.pos,
        {
            if self.peek_is(Token::BINOP(">")) {
                self.consume();
                return Some(acc);
            } else if self.peek_is(Token::PUNCT(",")) {
                self.consume();
            } else {
                let node = match self.parse_type(ctx) {
                    None => {
                        return None;
                    },
                    Some(n) => n,
                };
                let item = if self.peek_is(Token::PUNCT(":")) {
                    self.consume();
                    match self.parse_type(ctx) {
                        None => {
                            return None;
                        },
                        Some(c) => (node, Some(c)),
                    }
                } else {
                    (node, None)
                };
                proof {
                    lemma_type_params_push(acc@, item);
                }
                acc.push(item);
            }
        }
    }

    /// Parameters after `(`, up to `)`; `None` when one is not a binding.
    pub(crate) fn parse_params(&mut self, ctx: &ParsingContext) -> (r: Option<Vec<BindingNode>>)
        requires
            old(self).wf(),
        ensures
            final(self).keeps(old(self)),
            (opt_params_view(r), final(self).state()) == p_params(
                old(self).ptoks(),
                old(self).state(),
                ctx_view(ctx),
                seq![],
            ),
    {
        let mut acc: Vec<BindingNode> = Vec::new();
        proof {
            assert(vec_binding_node_view(acc@) =~= seq![]);
        }
        loop
            invariant
                self.keeps(old(self)),
                p_params(self.ptoks(), self.state(), ctx_view(ctx), vec_binding_node_view(acc@))
                    == p_params(old(self).ptoks(), old(self).state(), ctx_view(ctx), seq![]),
            decreases self.tokens@.len() - self.pos,
        {
            if self.peek_is(Token::PAREN(")")) {
                self.consume();
                return Some(acc);
            } else if self.peek_is(Token::PUNCT(",")) {
                self.consume();
            } else {
                match self.parse_binding(ctx) {
                    None => {
                        return None;
                    },
                    Some(b) => {
                        proof {
                            lemma_bindings_push(acc@, b);
                        }
                        acc.push(b);
                    },
                }
            }
        }
    }

    /// Types after `(`, up to `)`; `None` when one is not a type.
    pub(crate) fn parse_type_list(&mut self, ctx: &ParsingContext) -> (r: Option<Vec<TypeNode>>)
        requires
            old(self).wf(),
        ensures
            final(self).keeps(old(self)),
            (crate::parser::opt_types_view(r), final(self).state()) == p_type_list(
                old(self).ptoks(),
                old(self).state(),
                ctx_view(ctx),
                seq![],
            ),
    {
        let mut acc: Vec<TypeNode> = Vec::new();
        proof {
            assert(vec_type_node_view(acc@) =~= seq![]);
        }
        loop
            invariant
                self.keeps(old(self)),
                p_type_list(self.ptoks(), self.state(), ctx_view(ctx), vec_type_node_view(acc@))
                    == p_type_list(old(self).ptoks(), old(self).state(), ctx_view(ctx), seq![]),
            decreases self.tokens@.len() - self.pos,
        {
            if self.peek_is(Token::PAREN(")")) {
                self.consume();
                return Some(acc);
            } else if self.peek_is(Token::PUNCT(",")) {
                self.consume();
            } else {
                match self.parse_type(ctx) {
                    None => {
                        return None;
                    },
                    Some(ty) => {
                        proof {
                            lemma_types_push(acc@, ty);
                        }
                        acc.push(ty);
                    },
                }
            }
        }
    }

    /// Named fields `name: type` of a struct variant after `{`, up to `}`.
    pub(crate) fn parse_variant_fields(&mut self, ctx: &ParsingContext) -> (r: Option<
        Vec<(String, TypeNode)>,
    >)
        requires
            old(self).wf(),
        ensures
            final(self).keeps(old(self)),
            (opt_named_types_view(r), final(self).state()) == p_variant_fields(
                old(self).ptoks(),
                old(self).state(),
                ctx_view(ctx),
                seq![],
            ),
    {
        let mut acc: Vec<(String, TypeNode)> = Vec::new();
        proof {
            assert(vec_pair_string_type_node_view(acc@) =~= seq![]);
        }
        loop
            invariant
                self.keeps(old(self)),
                p_variant_fields(
                    self.ptoks(),
                    self.state(),
                    ctx_view(ctx),
                    vec_pair_string_type_node_view(acc@),
                ) == p_variant_fields(old(self).ptoks(), old(self).state(), ctx_view(ctx), seq![]),
            decreases self.tokens@.len() - self.pos,
        {
            if self.peek_is(Token::PAREN("}")) {
                self.consume();
                return Some(acc);
            } else if self.peek_is(Token::PUNCT(",")) {
                self.consume();
            } else {
                let nx = self.peek_some();
                match nx {
                    Token::IDENT(fname) => {
                        self.consume();
                        if self.expect_some(
                            Token::PUNCT(":"),
                            "Expected ':' after struct field name",
                        ).is_none() {
                            return None;
                        }
                        match self.parse_type(ctx) {
                            None => {
                                return None;
                            },
                            Some(ty) => {
                                proof {
                                    lemma_named_types_push(acc@, (fname, ty));
                                }
                                acc.push((fname, ty));
                            },
                        }
                    },
                    other => {
                        let span = self.peek_span();
                        self.push_error_tok("Unexpected token in struct variant, got ", &other, span);
                        return None;
                    },
                }
            }
        }
    }

    fn parse_use_list(&mut self) -> (r: Vec<(String, String)>)
        requires
            old(self).wf(),
        ensures
            final(self).keeps(old(self)),
            (vec_pair_string_string_view(r@), final(self).state()) == p_use_list(
                old(self).ptoks(),
                old(self).state(),
                seq![],
            ),
    {
        let mut used: Vec<(String, String)> = Vec::new();
        proof {
            assert(vec_pair_string_string_view(used@) =~= seq![]);
        }
        loop
            invariant
                self.keeps(old(self)),
                p_use_list(self.ptoks(), self.state(), vec_pair_string_string_view(used@))
                    == p_use_list(old(self).ptoks(), old(self).state(), seq![]),
            decreases self.tokens@.len() - self.pos,
        {
            if self.peek_is(Token::PAREN("}")) {
                self.consume();
                return used;
            } else if self.peek_is(Token::PUNCT(",")) {
                self.consume();
            } else {
                let nx = self.peek_some();
                match nx {
                    Token::IDENT(actual) => {
                        self.consume();
                        if self.peek_is(Token::BINOP("::")) {
                            self.consume();
                            match self.expect_any_some() {
                                Some((Token::IDENT(alias), _)) => {
                                    proof {
                                        lemma_string_pairs_push(used@, (actual, alias));
                                    }
                                    used.push((actual, alias));
                                },
                                Some((other, sp)) => {
                                    self.push_error_tok("Expected ident after 'as', got ", &other, sp);
                                    return used;
                                },
                                None => {
                                    return used;
                                },
                            }
                        } else {
                            let pair = (actual.clone(), actual);
                            proof {
                                lemma_string_pairs_push(used@, pair);
                            }
                            used.push(pair);
                        }
                    },
                    other => {
                        let span = self.peek_span();
                        self.push_error_tok("Expected ident or '}' in use list, got ", &other, span);
                        return used;
                    },
                }
            }
        }
    }

    fn parse_use_path(&mut self, base0: SAst, start: Span) -> (r: Result<
        (SAst, Vec<(String, String)>),
        Span,
    >)
        requires
            old(self).wf(),
        ensures
            final(self).keeps(old(self)),
            (use_path_view(r), final(self).state()) == p_use_path(
                old(self).ptoks(),
                old(self).state(),
                sast_view(base0),
                start,
            ),
    {
        let ghost b0 = sast_view(base0);
        let mut base = base0;
        loop
            invariant
                self.keeps(old(self)),
                b0 == sast_view(base0),
                p_use_path(self.ptoks(), self.state(), sast_view(base), start) == p_use_path(
                    old(self).ptoks(),
                    old(self).state(),
                    b0,
                    start,
                ),
            decreases self.tokens@.len() - self.pos,
        {
            if !self.peek_is(Token::PUNCT(".")) {
                let used: Vec<(String, String)> = Vec::new();
                proof {
                    assert(vec_pair_string_string_view(used@) =~= seq![]);
                }
                return Ok((base, used));
            }
            self.consume();
            if self.peek_is(Token::PAREN("{")) {
                self.consume();
                let used = self.parse_use_list();
                return Ok((base, used));
            }
            let nx = self.peek_some();
            match nx {
                Token::IDENT(name) => {
                    let seg_span = self.peek_span();
                    self.consume();
                    if self.peek_is(Token::PUNCT(".")) {
                        let merged = base.span.merge(seg_span);
                        let ghost bv = sast_view(base);
                        let seg = Spanned::new(AstNode::Identifier(name), seg_span);
                        assert(sast_view(seg) == (
                        crate::parser_spec::SpecAstNode::Identifier(name@), seg_span));
                        base = Spanned::new(
                            AstNode::DotIndex { indexee: Box::new(base), index: Box::new(seg) },
                            merged,
                        );
                        assert(sast_view(base) == (
                        crate::parser_spec::SpecAstNode::DotIndex {
                            indexee: Box::new(bv),
                            index: Box::new(
                                (crate::parser_spec::SpecAstNode::Identifier(name@), seg_span),
                            ),
                        }, merged));
                    } else if self.peek_is(Token::BINOP("::")) {
                        self.consume();
                        match self.expect_any_some() {
                            None => {
                                return Err(start);
                            },
                            Some((Token::IDENT(alias), _)) => {
                                let mut v: Vec<(String, String)> = Vec::new();
                                proof {
                                    lemma_string_pairs_push(v@, (name, alias));
                                }
                                v.push((name, alias));
                                return Ok((base, v));
                            },
                            Some((other, sp)) => {
                                self.push_error_tok("Expected ident after 'as', got ", &other, sp);
                                return Err(start);
                            },
                        }
                    } else {
                        let mut v: Vec<(String, String)> = Vec::new();
                        let pair = (name.clone(), name);
                        proof {
                            lemma_string_pairs_push(v@, pair);
                        }
                        v.push(pair);
                        return Ok((base, v));
                    }
                },
                other => {
                    let span = self.peek_span();
                    self.push_error_tok("Expected ident or '{' after '::', got ", &other, span);
                    return Err(span);
                },
            }
        }
    }

    /// Parses a use statement after `use`: a path of names joined by `.`,
    /// ending in `.{a, b :: c}`, `.name :: alias` or `.name`.
    pub fn parse_use(&mut self, ctx: &ParsingContext) -> (r: SAst)
        requires
            old(self).wf(),
        ensures
            final(self).keeps(old(self)),
            (sast_view(r), final(self).state()) == p_use(old(self).ptoks(), old(self).state()),
    {
        let start = self.peek_span();
        let (first_tok, first_span) = match self.expect_any_some() {
            Some(t) => t,
            None => {
                return Spanned::new(AstNode::Error, start);
            },
        };
        let base_path = match first_tok {
            Token::IDENT(s) => Spanned::new(AstNode::Identifier(s), first_span),
            other => {
                self.push_error_tok(
                    "Expected identifier at start of use path, got ",
                    &other,
                    first_span,
                );
                return Spanned::new(AstNode::Error, first_span);
            },
        };
        match self.parse_use_path(base_path, start) {
            Err(sp) => Spanned::new(AstNode::Error, sp),
            Ok((base_path, used)) => {
                let span = start.merge(base_path.span);
                Spanned::new(AstNode::UseStmt { base_path: Box::new(base_path), used }, span)
            },
        }
    }
}

} // verus!
