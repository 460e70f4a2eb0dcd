//! The parser: turns tokens into a syntax tree, recording syntax errors.
use vstd::prelude::*;
use crate::span::{Span, Spanned};
use crate::operator::Operator;
use crate::lexer::{Token, SpannedToken, token_eq, clone_token, push_token_debug};
use crate::lexer_spec::SpecToken;
use crate::text::{str_eq, push_str, string_from_chars};
use crate::parser_spec::{
    PTok, PState, SpecCtx, SpecParseError, SpecMacroDefinition, peek_some, peek_span, consume,
    push_err, expect_any, expect_tok, after, after_progress, at_pos, dummy_span, wrap_qualifiers,
    p_type, p_type_quals, p_type_base, p_hashmap_type, p_generics, p_binding, p_binding_typed,
    p_binding_list, opt_string_view, type_node_view, binding_node_view, vec_type_node_view,
    vec_binding_node_view, macro_definition_view,
};

verus! {

/// A syntax error with the span where it was found.
#[derive(Debug, Clone)]
pub struct ParseError {
    pub message: String,
    pub span: Span,
}

/// What the parser knows about where it is.
#[derive(Clone)]
pub struct ParsingContext {
    /// Function declarations have no body (inside a declaration block).
    pub no_fn_body: bool,
    /// Name of the class being parsed, if any.
    pub current_class: Option<String>,
}

impl ParsingContext {
    /// The context at the top of a file.
    pub fn new() -> (r: Self)
        ensures
            !r.no_fn_body,
            r.current_class is None,
    {
        Self { no_fn_body: false, current_class: None }
    }
}

/// The kind of fragment that a macro variable matches.
#[derive(Debug, Clone, Copy, PartialEq, Eq, Structural)]
pub enum MacroDesignator {
    Expr,
    Stmt,
    Ty,
    Pat,
    Ident,
    Block,
    Lifetime,
    Vis,
    Meta,
    Tt,
    Str,
    Int,
    Float,
    Literal,
}

/// How often a macro repetition may occur.
#[derive(Debug, Clone, Copy, PartialEq, Eq, Structural)]
pub enum RepQuantifier {
    ZeroOrMore,
    OneOrMore,
}

/// A node with the span of its source.
pub type SAst = Spanned<AstNode>;

/// A piece of a macro pattern or template.
#[derive(Debug, PartialEq)]
pub enum MacroTokenTree {
    Token(Token, Span),
    Metavar { name: String, designator: MacroDesignator },
    Repetition { trees: Vec<MacroTokenTree>, separator: Option<String>, quantifier: RepQuantifier },
    Group { delimiter: char, trees: Vec<MacroTokenTree> },
}

/// One rule of a macro: a pattern and the template it expands to.
#[derive(Debug, PartialEq)]
pub struct MacroArm {
    pub pattern: Vec<MacroTokenTree>,
    pub template: Vec<MacroTokenTree>,
}

/// A macro with its rules.
#[derive(Debug, PartialEq)]
pub struct MacroDefinition {
    pub name: String,
    pub arms: Vec<MacroArm>,
}

/// A type as written in source.
#[derive(Debug, PartialEq)]
pub enum TypeNode {
    NominalType { name: String, generics: Vec<TypeNode> },
    ArrayType { elem_type: Box<TypeNode> },
    HashMapType { key_type: Box<TypeNode>, value_type: Box<TypeNode> },
    Qualified { inner: Box<TypeNode>, mutable: bool, borrowed: bool, moved: bool },
    Inferred,
}

/// A binding of names, as in `let` and parameters.
#[derive(Debug, PartialEq)]
pub enum BindingNode {
    IdentifierBinding { name: String, ty: TypeNode },
    OrderedBinding { bindings: Vec<BindingNode> },
    UnorderedBinding { bindings: Vec<BindingNode> },
}

/// The pattern of a match arm.
#[derive(Debug, PartialEq)]
pub enum MatchPattern {
    Binding(BindingNode),
    Expr(SAst),
    CategoryVariant { path: Vec<String>, binding: Option<BindingNode> },
    Default(Option<String>),
    Wildcard,
}

/// An arm of a match statement.
#[derive(Debug, PartialEq)]
pub struct MatchArm {
    pub pattern: MatchPattern,
    pub body: Vec<SAst>,
}

/// A member of a class body.
#[derive(Debug, PartialEq)]
pub enum ClassMember {
    Field { name: String, ty: TypeNode, is_public: bool },
    Method { name: String, type_params: Vec<(TypeNode, Option<TypeNode>)>, has_self: bool, params: Vec<BindingNode>, return_type: TypeNode, body: Vec<SAst>, is_public: bool },
    OperatorOverload { op: Operator, params: Vec<BindingNode>, return_type: TypeNode, body: Vec<SAst> },
}

/// A variant of a category.
#[derive(Debug, PartialEq)]
pub enum CategoryVariant {
    Unit { name: String },
    Tuple { name: String, fields: Vec<TypeNode>, methods: Vec<ClassMember> },
    Class { name: String, fields: Vec<(String, TypeNode)>, methods: Vec<ClassMember> },
}

/// A named tuple type with its methods.
#[derive(Debug, PartialEq)]
pub struct NamedTupleDef {
    pub name: String,
    pub fields: Vec<TypeNode>,
    pub methods: Vec<ClassMember>,
}

/// A piece of a format string.
#[derive(Debug, PartialEq)]
pub enum FmtPart {
    Literal(String),
    Expr(SAst),
}

/// A node of the syntax tree.
#[derive(Debug, PartialEq)]
pub enum AstNode {
    Identifier(String),
    IntLiteral(i32),
    FloatLiteral(String),
    StringLiteral(String),
    FmtStringLiteral(Vec<FmtPart>),
    ArrayLiteral(Vec<SAst>),
    HashMapLiteral(Vec<(SAst, SAst)>),
    SelfExpr,
    VarDeclaration { binding: BindingNode, init_value: Option<Box<SAst>> },
    Assignment { left: Box<SAst>, right: Box<SAst> },
    FunctionDeclaration { name: String, type_params: Vec<(TypeNode, Option<TypeNode>)>, params: Vec<BindingNode>, return_type: TypeNode, body: Vec<SAst> },
    ReturnStmt { value: Option<Box<SAst>> },
    ModuleStmt { name: String },
    UseStmt { base_path: Box<SAst>, used: Vec<(String, String)> },
    Public(Box<SAst>),
    Borrowed(Box<SAst>),
    Moved(Box<SAst>),
    Typeof(Box<SAst>),
    Throw(Box<SAst>),
    BinaryOperation { op: Operator, left: Box<SAst>, right: Box<SAst> },
    UnaryOperation { op: Operator, right: Box<SAst> },
    ComputedIndex { indexee: Box<SAst>, index: Box<SAst> },
    DotIndex { indexee: Box<SAst>, index: Box<SAst> },
    MethodCall { indexee: Box<SAst>, index: Box<SAst> },
    FunctionCall { callee: Box<SAst>, args: Vec<SAst> },
    ClassLiteral { ty: Box<SAst>, fields: Vec<(String, SAst)> },
    TypeInstantiation { callee: Box<SAst>, type_args: Vec<TypeNode> },
    TypeCast { left: Box<SAst>, right: TypeNode },
    ConditionalBranch { condition: Option<Box<SAst>>, body: Vec<SAst>, next: Option<Box<SAst>> },
    WhileLoop { condition: Box<SAst>, body: Vec<SAst> },
    MatchStmt { matchee: Box<SAst>, arms: Vec<MatchArm> },
    ForLoop { binding: BindingNode, iterator: Box<SAst>, body: Vec<SAst> },
    ClassDefinition { name: String, members: Vec<ClassMember> },
    NamedTupleDefinition(NamedTupleDef),
    CategoryDefinition { name: String, variants: Vec<CategoryVariant> },
    MacroDefinitionNode(MacroDefinition),
    MacroInvocation { name: String, args: Vec<MacroTokenTree> },
    Error,
    Program(Vec<SAst>),
}

/// The binding power of a token that continues an expression as an infix
/// operator: `=` binds loosest, then `||`, `&&`, `|`, `&`, the comparisons,
/// the shifts, `+ -`, `* / %`, `^`, and `::` (a cast) tightest.
pub open spec fn binding_power(t: SpecToken) -> Option<u8> {
    match t {
        SpecToken::BINOP(s) => if s == "="@ {
            Some(1u8)
        } else if s == "||"@ {
            Some(2u8)
        } else if s == "&&"@ {
            Some(3u8)
        } else if s == "|"@ {
            Some(4u8)
        } else if s == "=="@ || s == "!="@ || s == "<"@ || s == ">"@ || s == "<="@ || s == ">="@ {
            Some(6u8)
        } else if s == "<<"@ || s == ">>"@ {
            Some(8u8)
        } else if s == "+"@ || s == "-"@ {
            Some(10u8)
        } else if s == "*"@ || s == "/"@ || s == "%"@ {
            Some(20u8)
        } else if s == "^"@ {
            Some(25u8)
        } else if s == "::"@ {
            Some(30u8)
        } else {
            None
        },
        SpecToken::AND => Some(5u8),
        _ => None,
    }
}

/// The binding power of an infix operator token; `None` for other tokens.
pub fn get_bp(op: &Token) -> (r: Option<u8>)
    ensures
        r == binding_power(op@),
{
    match op {
        Token::BINOP(s) => if str_eq(s, "=") {
            Some(1u8)
        } else if str_eq(s, "||") {
            Some(2u8)
        } else if str_eq(s, "&&") {
            Some(3u8)
        } else if str_eq(s, "|") {
            Some(4u8)
        } else if str_eq(s, "==") || str_eq(s, "!=") || str_eq(s, "<") || str_eq(s, ">")
            || str_eq(s, "<=") || str_eq(s, ">=") {
            Some(6u8)
        } else if str_eq(s, "<<") || str_eq(s, ">>") {
            Some(8u8)
        } else if str_eq(s, "+") || str_eq(s, "-") {
            Some(10u8)
        } else if str_eq(s, "*") || str_eq(s, "/") || str_eq(s, "%") {
            Some(20u8)
        } else if str_eq(s, "^") {
            Some(25u8)
        } else if str_eq(s, "::") {
            Some(30u8)
        } else {
            None
        },
        Token::AND => Some(5u8),
        _ => None,
    }
}

/// Macro definitions by name; no name occurs twice.
pub struct SymbolTable {
    pub macros: Vec<(String, MacroDefinition)>,
}

/// The macros of a table of definitions, later entries first.
pub open spec fn macro_map(v: Seq<(String, MacroDefinition)>) -> Map<Seq<char>, SpecMacroDefinition>
    decreases v.len(),
{
    if v.len() == 0 {
        Map::empty()
    } else {
        macro_map(v.drop_last()).insert(v.last().0@, macro_definition_view(v.last().1))
    }
}

impl SymbolTable {
    pub open spec fn view(&self) -> Map<Seq<char>, SpecMacroDefinition> {
        macro_map(self.macros@)
    }

    pub open spec fn wf(&self) -> bool {
        crate::parse_macros::keys_unique(self.macros@)
    }

    /// An empty table.
    pub fn new() -> (r: Self)
        ensures
            r.wf(),
            r.view() == Map::<Seq<char>, SpecMacroDefinition>::empty(),
    {
        Self { macros: Vec::new() }
    }
}

/// Whether a binding starts with this token: a name, `self`, `(` or `{`.
pub open spec fn starts_binding(t: SpecToken) -> bool {
    t is IDENT || t is SELF || t == SpecToken::PAREN("("@) || t == SpecToken::PAREN("{"@)
}

pub open spec fn errors_view(v: Seq<ParseError>) -> Seq<SpecParseError> {
    v.map_values(|e: ParseError| (e.message@, e.span))
}

pub open spec fn ptoks_view(v: Seq<SpannedToken>) -> Seq<PTok> {
    v.map_values(|t: SpannedToken| (t.0@, t.1))
}

pub open spec fn ctx_view(c: &ParsingContext) -> SpecCtx {
    SpecCtx { no_fn_body: c.no_fn_body, current_class: opt_string_view(c.current_class) }
}

pub open spec fn opt_type_view(r: Option<TypeNode>) -> Option<crate::parser_spec::SpecTypeNode> {
    match r {
        Some(x) => Some(type_node_view(x)),
        None => None,
    }
}

pub open spec fn opt_binding_view(r: Option<BindingNode>) -> Option<
    crate::parser_spec::SpecBindingNode,
> {
    match r {
        Some(x) => Some(binding_node_view(x)),
        None => None,
    }
}

pub open spec fn opt_tok_view(r: Option<SpannedToken>) -> Option<PTok> {
    match r {
        Some(x) => Some((x.0@, x.1)),
        None => None,
    }
}

/// A recursive-descent parser over a token sequence.
pub struct LucyParser {
    pub tokens: Vec<SpannedToken>,
    pub pos: usize,
    pub symbols: SymbolTable,
    pub errors: Vec<ParseError>,
}

impl LucyParser {
    /// The tokens being parsed.
    pub open spec fn ptoks(&self) -> Seq<PTok> {
        ptoks_view(self.tokens@)
    }

    /// Where the parse stands.
    pub open spec fn state(&self) -> PState {
        PState { pos: self.pos as int, errs: errors_view(self.errors@), macros: self.symbols.view() }
    }

    pub open spec fn wf(&self) -> bool {
        self.pos <= self.tokens@.len() && self.symbols.wf()
    }

    /// What a step of the parse keeps: the tokens, and a position that only
    /// moves forward.
    pub open spec fn keeps(&self, before: &Self) -> bool {
        &&& self.tokens@ == before.tokens@
        &&& self.wf()
        &&& before.pos <= self.pos
    }

    /// A parser at the start of `tokens`, with no errors and no macros.
    pub fn new(tokens: Vec<SpannedToken>) -> (r: Self)
        ensures
            r.tokens@ == tokens@,
            r.pos == 0,
            r.errors@.len() == 0,
            r.symbols.view() == Map::<Seq<char>, SpecMacroDefinition>::empty(),
            r.wf(),
    {
        Self { tokens, pos: 0, symbols: SymbolTable::new(), errors: Vec::new() }
    }

    /// Whether no syntax error has been recorded.
    pub fn ok(&self) -> (r: bool)
        ensures
            r == (self.errors@.len() == 0),
    {
        self.errors.len() == 0
    }

    pub(crate) fn push_error(&mut self, message: String, span: Span)
        requires
            old(self).wf(),
        ensures
            final(self).keeps(old(self)),
            final(self).pos == old(self).pos,
            final(self).state() == push_err(old(self).state(), message@, span),
    {
        let ghost m = message@;
        self.errors.push(ParseError { message, span });
        proof {
            assert(errors_view(self.errors@) =~= errors_view(old(self).errors@).push((m, span)));
        }
    }

    /// Records the error `text` + the debug form of `tok`.
    pub(crate) fn push_error_tok(&mut self, text: &str, tok: &Token, span: Span)
        requires
            old(self).wf(),
        ensures
            final(self).keeps(old(self)),
            final(self).pos == old(self).pos,
            final(self).state() == push_err(
                old(self).state(),
                text@ + crate::lexer::token_debug(tok@),
                span,
            ),
    {
        let mut m: Vec<char> = Vec::new();
        push_str(&mut m, text);
        push_token_debug(&mut m, tok);
        proof {
            assert(m@ =~= text@ + crate::lexer::token_debug(tok@));
        }
        self.push_error(string_from_chars(&m), span);
    }

    pub(crate) proof fn lemma_tok(&self, k: int)
        requires
            0 <= k < self.tokens@.len(),
        ensures
            self.ptoks()[k] == (self.tokens@[k].0@, self.tokens@[k].1),
            self.ptoks().len() == self.tokens@.len(),
    {
    }

    pub(crate) fn peek_some(&self) -> (r: Token)
        ensures
            r@ == peek_some(self.ptoks(), self.state()),
    {
        if self.pos < self.tokens.len() {
            proof {
                self.lemma_tok(self.pos as int);
            }
            clone_token(&self.tokens[self.pos].0)
        } else {
            Token::END
        }
    }

    pub(crate) fn peek_is(&self, tok: Token) -> (r: bool)
        ensures
            r == (peek_some(self.ptoks(), self.state()) == tok@),
    {
        let t = self.peek_some();
        token_eq(&t, &tok)
    }

    pub(crate) fn peek_span(&self) -> (r: Span)
        ensures
            r == peek_span(self.ptoks(), self.state()),
    {
        if self.pos < self.tokens.len() {
            proof {
                self.lemma_tok(self.pos as int);
            }
            self.tokens[self.pos].1
        } else {
            Span::dummy()
        }
    }

    pub(crate) fn consume(&mut self) -> (r: Option<SpannedToken>)
        requires
            old(self).wf(),
        ensures
            final(self).keeps(old(self)),
            (opt_tok_view(r), final(self).state()) == consume(old(self).ptoks(), old(self).state()),
            r is Some <==> old(self).pos < old(self).tokens@.len(),
    {
        if self.pos < self.tokens.len() {
            proof {
                self.lemma_tok(self.pos as int);
            }
            let t = clone_token(&self.tokens[self.pos].0);
            let sp = self.tokens[self.pos].1;
            self.pos = self.pos + 1;
            Some((t, sp))
        } else {
            None
        }
    }

    pub(crate) fn expect_any_some(&mut self) -> (r: Option<SpannedToken>)
        requires
            old(self).wf(),
        ensures
            final(self).keeps(old(self)),
            (opt_tok_view(r), final(self).state()) == expect_any(
                old(self).ptoks(),
                old(self).state(),
            ),
            r is Some <==> final(self).pos > old(self).pos,
    {
        if self.pos < self.tokens.len() {
            self.consume()
        } else {
            let mut m: Vec<char> = Vec::new();
            push_str(&mut m, "Unexpected end of input");
            self.push_error(string_from_chars(&m), Span::dummy());
            None
        }
    }

    /// Takes a closing token and sets `end_span` to its span; past the end of
    /// input, records `No token`.
    pub(crate) fn consume_end(&mut self, end_span: &mut Span)
        requires
            old(self).wf(),
        ensures
            final(self).keeps(old(self)),
            (*final(end_span), final(self).state()) == crate::parser_spec::p_consume_end(
                old(self).ptoks(),
                old(self).state(),
                *old(end_span),
            ),
    {
        match self.consume() {
            Some((_, s)) => {
                *end_span = s;
            },
            None => {
                self.push_error(message("No token"), *end_span);
            },
        }
    }

    pub(crate) fn expect_some(&mut self, expected: Token, msg: &str) -> (r: Option<SpannedToken>)
        requires
            old(self).wf(),
        ensures
            final(self).keeps(old(self)),
            (opt_tok_view(r), final(self).state()) == expect_tok(
                old(self).ptoks(),
                old(self).state(),
                expected@,
                msg@,
            ),
    {
        if self.pos >= self.tokens.len() {
            let mut m: Vec<char> = Vec::new();
            push_str(&mut m, "Expected ");
            push_token_debug(&mut m, &expected);
            push_str(&mut m, " but got end of input: ");
            push_str(&mut m, msg);
            proof {
                assert(m@ =~= "Expected "@ + crate::lexer::token_debug(expected@)
                    + " but got end of input: "@ + msg@);
            }
            self.push_error(string_from_chars(&m), Span::dummy());
            return None;
        }
        let got = self.consume();
        match got {
            Some((tok, span)) => {
                if !token_eq(&tok, &expected) {
                    let mut m: Vec<char> = Vec::new();
                    push_str(&mut m, "Expected ");
                    push_token_debug(&mut m, &expected);
                    push_str(&mut m, ", got ");
                    push_token_debug(&mut m, &tok);
                    push_str(&mut m, ": ");
                    push_str(&mut m, msg);
                    proof {
                        assert(m@ =~= "Expected "@ + crate::lexer::token_debug(expected@) + ", got "@
                            + crate::lexer::token_debug(tok@) + ": "@ + msg@);
                    }
                    self.push_error(string_from_chars(&m), span);
                    None
                } else {
                    Some((tok, span))
                }
            },
            None => None,
        }
    }
}

pub open spec fn opt_types_view(r: Option<Vec<TypeNode>>) -> Option<
    Seq<crate::parser_spec::SpecTypeNode>,
> {
    match r {
        Some(x) => Some(vec_type_node_view(x@)),
        None => None,
    }
}

pub(crate) proof fn lemma_types_push(v: Seq<TypeNode>, x: TypeNode)
    ensures
        vec_type_node_view(v.push(x)) == vec_type_node_view(v).push(type_node_view(x)),
{
    assert(v.push(x).drop_last() =~= v);
}

pub(crate) proof fn lemma_bindings_push(v: Seq<BindingNode>, x: BindingNode)
    ensures
        vec_binding_node_view(v.push(x)) == vec_binding_node_view(v).push(binding_node_view(x)),
{
    assert(v.push(x).drop_last() =~= v);
}

pub(crate) fn wrap_qualifiers_exec(base: TypeNode, m: bool, b: bool, mv: bool) -> (r: TypeNode)
    ensures
        type_node_view(r) == wrap_qualifiers(type_node_view(base), m, b, mv),
{
    if m || b || mv {
        TypeNode::Qualified { inner: Box::new(base), mutable: m, borrowed: b, moved: mv }
    } else {
        base
    }
}

pub(crate) fn message(text: &str) -> (r: String)
    ensures
        r@ == text@,
{
    let mut m: Vec<char> = Vec::new();
    push_str(&mut m, text);
    proof {
        assert(m@ =~= text@);
    }
    string_from_chars(&m)
}

impl LucyParser {
    /// Parses a type: any of `mut`, `&`, `->`, then a name with optional
    /// `<generics>`, `Self`, `[T]` or `{[K]: V}`. `None` when it is not a
    /// type; the error is recorded.
    pub fn parse_type(&mut self, ctx: &ParsingContext) -> (r: Option<TypeNode>)
        requires
            old(self).wf(),
        ensures
            final(self).keeps(old(self)),
            (opt_type_view(r), final(self).state()) == p_type(
                old(self).ptoks(),
                old(self).state(),
                ctx_view(ctx),
            ),
            r is Some ==> final(self).pos > old(self).pos,
        decreases old(self).tokens@.len() - old(self).pos, 11int,
    {
        let mut m = false;
        let mut b = false;
        let mut mv = false;
        loop
            invariant
                self.keeps(old(self)),
                p_type_quals(self.ptoks(), self.state(), ctx_view(ctx), m, b, mv) == p_type(
                    old(self).ptoks(),
                    old(self).state(),
                    ctx_view(ctx),
                ),
            ensures
                self.keeps(old(self)),
                p_type_base(self.ptoks(), self.state(), ctx_view(ctx), m, b, mv) == p_type(
                    old(self).ptoks(),
                    old(self).state(),
                    ctx_view(ctx),
                ),
            decreases self.tokens@.len() - self.pos,
        {
            if self.peek_is(Token::MUTABLE) {
                self.consume();
                m = true;
            } else if self.peek_is(Token::AND) {
                self.consume();
                b = true;
            } else if self.peek_is(Token::ARROW) {
                self.consume();
                mv = true;
            } else {
                break;
            }
        }
        self.parse_type_base(ctx, m, b, mv)
    }

    fn parse_type_base(&mut self, ctx: &ParsingContext, m: bool, b: bool, mv: bool) -> (r: Option<
        TypeNode,
    >)
        requires
            old(self).wf(),
        ensures
            final(self).keeps(old(self)),
            (opt_type_view(r), final(self).state()) == p_type_base(
                old(self).ptoks(),
                old(self).state(),
                ctx_view(ctx),
                m,
                b,
                mv,
            ),
            r is Some ==> final(self).pos > old(self).pos,
        decreases old(self).tokens@.len() - old(self).pos, 9int,
    {
        let got = self.expect_any_some();
        let (tk, span) = match got {
            None => {
                return None;
            },
            Some(x) => x,
        };
        let ghost s1 = self.state();
        let base = match tk {
            Token::IDENT(name) => {
                if self.peek_is(Token::BINOP("<")) {
                    self.consume();
                    match self.parse_generics(ctx) {
                        None => {
                            return None;
                        },
                        Some(generics) => TypeNode::NominalType { name, generics },
                    }
                } else {
                    let generics: Vec<TypeNode> = Vec::new();
                    proof {
                        assert(vec_type_node_view(generics@) =~= seq![]);
                    }
                    TypeNode::NominalType { name, generics }
                }
            },
            Token::SELFTYPE => match &ctx.current_class {
                Some(n) => {
                    let generics: Vec<TypeNode> = Vec::new();
                    proof {
                        assert(vec_type_node_view(generics@) =~= seq![]);
                    }
                    TypeNode::NominalType { name: n.clone(), generics }
                },
                None => {
                    self.push_error(message("'Self' used outside of a class body"), span);
                    return None;
                },
            },
            Token::PAREN(p) => {
                if str_eq(p, "[") {
                    let elem = match self.parse_type(ctx) {
                        None => {
                            return None;
                        },
                        Some(e) => e,
                    };
                    match self.expect_some(Token::PAREN("]"), "Expected ']' after array element type") {
                        None => {
                            return None;
                        },
                        Some(_) => {},
                    }
                    TypeNode::ArrayType { elem_type: Box::new(elem) }
                } else if str_eq(p, "{") {
                    return self.parse_hashmap_type(ctx, m, b, mv);
                } else {
                    self.push_error_tok("Unhandled type token: ", &Token::PAREN(p), span);
                    return None;
                }
            },
            other => {
                self.push_error_tok("Unhandled type token: ", &other, span);
                return None;
            },
        };
        Some(wrap_qualifiers_exec(base, m, b, mv))
    }

    fn parse_hashmap_type(&mut self, ctx: &ParsingContext, m: bool, b: bool, mv: bool) -> (r:
        Option<TypeNode>)
        requires
            old(self).wf(),
        ensures
            final(self).keeps(old(self)),
            (opt_type_view(r), final(self).state()) == p_hashmap_type(
                old(self).ptoks(),
                old(self).state(),
                ctx_view(ctx),
                m,
                b,
                mv,
            ),
            r is Some ==> final(self).pos > old(self).pos,
        decreases old(self).tokens@.len() - old(self).pos, 8int,
    {
        if self.expect_some(Token::PAREN("["), "Expected '[' after '{' in hashmap type").is_none() {
            return None;
        }
        let key = match self.parse_type(ctx) {
            None => {
                return None;
            },
            Some(k) => k,
        };
        if self.expect_some(Token::PAREN("]"), "Expected ']' after hashmap key type").is_none() {
            return None;
        }
        if self.expect_some(Token::PUNCT(":"), "Expected ':' after hashmap key type").is_none() {
            return None;
        }
        let value = match self.parse_type(ctx) {
            None => {
                return None;
            },
            Some(v) => v,
        };
        if self.expect_some(Token::PAREN("}"), "Expected '}' to close hashmap type").is_none() {
            return None;
        }
        Some(
            wrap_qualifiers_exec(
                TypeNode::HashMapType { key_type: Box::new(key), value_type: Box::new(value) },
                m,
                b,
                mv,
            ),
        )
    }

    fn parse_generics(&mut self, ctx: &ParsingContext) -> (r: Option<Vec<TypeNode>>)
        requires
            old(self).wf(),
        ensures
            final(self).keeps(old(self)),
            (opt_types_view(r), final(self).state()) == p_generics(
                old(self).ptoks(),
                old(self).state(),
                ctx_view(ctx),
                seq![],
            ),
        decreases old(self).tokens@.len() - old(self).pos, 12int,
    {
        let mut acc: Vec<TypeNode> = Vec::new();
        proof {
            assert(vec_type_node_view(acc@) =~= seq![]);
        }
        loop
            invariant
                self.keeps(old(self)),
                p_generics(self.ptoks(), self.state(), ctx_view(ctx), vec_type_node_view(acc@))
                    == p_generics(old(self).ptoks(), old(self).state(), ctx_view(ctx), seq![]),
            decreases self.tokens@.len() - self.pos,
        {
            if self.peek_is(Token::BINOP(">")) {
                self.consume();
                return Some(acc);
            } else if self.peek_is(Token::PUNCT(",")) {
                self.consume();
            } else {
                match self.parse_type(ctx) {
                    None => {
                        return None;
                    },
                    Some(ty) => {
                        proof {
                            lemma_types_push(acc@, ty);
                        }
                        acc.push(ty);
                    },
                }
            }
        }
    }
}

impl LucyParser {
    /// Parses a binding: a name (or `self`) with an optional `: type`, or a
    /// list of bindings in `( )` (ordered) or `{ }` (unordered). `None` when
    /// it is not a binding; the error is recorded.
    pub fn parse_binding(&mut self, ctx: &ParsingContext) -> (r: Option<BindingNode>)
        requires
            old(self).wf(),
        ensures
            final(self).keeps(old(self)),
            (opt_binding_view(r), final(self).state()) == p_binding(
                old(self).ptoks(),
                old(self).state(),
                ctx_view(ctx),
            ),
            r is Some ==> final(self).pos > old(self).pos,
            old(self).pos < old(self).tokens@.len() && starts_binding(
                old(self).ptoks()[old(self).pos as int].0,
            ) ==> final(self).pos > old(self).pos,
        decreases old(self).tokens@.len() - old(self).pos, 13int,
    {
        let nx = self.peek_some();
        match nx {
            Token::IDENT(name) => {
                self.consume();
                self.parse_binding_typed(ctx, name)
            },
            Token::SELF => {
                self.consume();
                self.parse_binding_typed(ctx, message("self"))
            },
            Token::PAREN(p) => {
                if str_eq(p, "(") {
                    self.consume();
                    self.parse_binding_list(ctx, true)
                } else if str_eq(p, "{") {
                    self.consume();
                    self.parse_binding_list(ctx, false)
                } else {
                    let span = self.peek_span();
                    self.push_error_tok("Unknown binding initializer: ", &Token::PAREN(p), span);
                    None
                }
            },
            other => {
                let span = self.peek_span();
                self.push_error_tok("Unknown binding initializer: ", &other, span);
                None
            },
        }
    }

    fn parse_binding_typed(&mut self, ctx: &ParsingContext, name: String) -> (r: Option<
        BindingNode,
    >)
        requires
            old(self).wf(),
        ensures
            final(self).keeps(old(self)),
            (opt_binding_view(r), final(self).state()) == p_binding_typed(
                old(self).ptoks(),
                old(self).state(),
                ctx_view(ctx),
                name@,
            ),
        decreases old(self).tokens@.len() - old(self).pos, 12int,
    {
        if self.peek_is(Token::PUNCT(":")) {
            self.consume();
            match self.parse_type(ctx) {
                None => None,
                Some(ty) => Some(BindingNode::IdentifierBinding { name, ty }),
            }
        } else {
            Some(BindingNode::IdentifierBinding { name, ty: TypeNode::Inferred })
        }
    }

    fn parse_binding_list(&mut self, ctx: &ParsingContext, ordered: bool) -> (r: Option<
        BindingNode,
    >)
        requires
            old(self).wf(),
        ensures
            final(self).keeps(old(self)),
            (opt_binding_view(r), final(self).state()) == p_binding_list(
                old(self).ptoks(),
                old(self).state(),
                ctx_view(ctx),
                ordered,
                seq![],
            ),
            r is Some ==> final(self).pos > old(self).pos,
        decreases old(self).tokens@.len() - old(self).pos, 14int,
    {
        let mut acc: Vec<BindingNode> = Vec::new();
        proof {
            assert(vec_binding_node_view(acc@) =~= seq![]);
        }
        loop
            invariant
                self.keeps(old(self)),
                p_binding_list(
                    self.ptoks(),
                    self.state(),
                    ctx_view(ctx),
                    ordered,
                    vec_binding_node_view(acc@),
                ) == p_binding_list(
                    old(self).ptoks(),
                    old(self).state(),
                    ctx_view(ctx),
                    ordered,
                    seq![],
                ),
            decreases self.tokens@.len() - self.pos,
        {
            if (ordered && self.peek_is(Token::PAREN(")"))) || (!ordered && self.peek_is(
                Token::PAREN("}"),
            )) {
                self.consume();
                return Some(
                    if ordered {
                        BindingNode::OrderedBinding { bindings: acc }
                    } else {
                        BindingNode::UnorderedBinding { bindings: acc }
                    },
                );
            } else if self.peek_is(Token::PUNCT(",")) {
                self.consume();
            } else {
                match self.parse_binding(ctx) {
                    None => {
                        return None;
                    },
                    Some(bn) => {
                        proof {
                            lemma_bindings_push(acc@, bn);
                        }
                        acc.push(bn);
                    },
                }
            }
        }
    }
}

} // verus!
