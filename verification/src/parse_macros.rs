//! Parsing of macro token trees, macro invocations and macro definitions.
use vstd::prelude::*;
use crate::span::{Span, Spanned};
use crate::lexer::{Token, clone_token};
use crate::text::{str_eq, push_str, string_from_chars};
use crate::parser::{
    LucyParser, ParsingContext, MacroArm, MacroDefinition, SymbolTable, macro_map, MacroDesignator, RepQuantifier, MacroTokenTree, AstNode, SAst, message,
};
use crate::parser_spec::{
    p_designator, designator_named, p_macro_arms, p_macro_definition, p_tree, p_trees, p_macro_invocation, group_close,
    macro_token_tree_view, vec_macro_token_tree_view, sast_view, vec_macro_arm_view,
    macro_arm_view, macro_definition_view,
};

verus! {

pub open spec fn opt_tree_view(r: Option<MacroTokenTree>) -> Option<
    crate::parser_spec::SpecMacroTokenTree,
> {
    match r {
        Some(x) => Some(macro_token_tree_view(x)),
        None => None,
    }
}

pub proof fn lemma_trees_push(v: Seq<MacroTokenTree>, x: MacroTokenTree)
    ensures
        vec_macro_token_tree_view(v.push(x)) == vec_macro_token_tree_view(v).push(
            macro_token_tree_view(x),
        ),
{
    assert(v.push(x).drop_last() =~= v);
}

/// The designator named `name`, if any.
fn designator_from_name(name: &str) -> (r: Option<MacroDesignator>)
    ensures
        r == designator_named(name@),
{
    proof {
        reveal_strlit("expr");
        reveal_strlit("stmt");
        reveal_strlit("ty");
        reveal_strlit("pat");
        reveal_strlit("ident");
        reveal_strlit("block");
        reveal_strlit("lifetime");
        reveal_strlit("vis");
        reveal_strlit("meta");
        reveal_strlit("tt");
        reveal_strlit("str");
        reveal_strlit("int");
        reveal_strlit("float");
        reveal_strlit("literal");
    }
    if str_eq(name, "expr") {
        Some(MacroDesignator::Expr)
    } else if str_eq(name, "stmt") {
        Some(MacroDesignator::Stmt)
    } else if str_eq(name, "ty") {
        Some(MacroDesignator::Ty)
    } else if str_eq(name, "pat") {
        Some(MacroDesignator::Pat)
    } else if str_eq(name, "ident") {
        Some(MacroDesignator::Ident)
    } else if str_eq(name, "block") {
        Some(MacroDesignator::Block)
    } else if str_eq(name, "lifetime") {
        Some(MacroDesignator::Lifetime)
    } else if str_eq(name, "vis") {
        Some(MacroDesignator::Vis)
    } else if str_eq(name, "meta") {
        Some(MacroDesignator::Meta)
    } else if str_eq(name, "tt") {
        Some(MacroDesignator::Tt)
    } else if str_eq(name, "str") {
        Some(MacroDesignator::Str)
    } else if str_eq(name, "int") {
        Some(MacroDesignator::Int)
    } else if str_eq(name, "float") {
        Some(MacroDesignator::Float)
    } else if str_eq(name, "literal") {
        Some(MacroDesignator::Literal)
    } else {
        None
    }
}

impl LucyParser {
    /// Parses the designator after `$name:`; `None` (with the error
    /// recorded) when it names none.
    pub fn parse_designator(&mut self) -> (r: Option<MacroDesignator>)
        requires
            old(self).wf(),
        ensures
            final(self).keeps(old(self)),
            (r, final(self).state()) == p_designator(old(self).ptoks(), old(self).state()),
    {
        let (tk, span) = match self.expect_any_some() {
            None => {
                return None;
            },
            Some(x) => x,
        };
        let d = match &tk {
            Token::IDENT(name) => designator_from_name(name.as_str()),
            _ => None,
        };
        match d {
            Some(d) => Some(d),
            None => {
                self.push_error_tok("Unknown macro designator: ", &tk, span);
                None
            },
        }
    }

    /// Parses one token tree of a macro: a repetition `$( ... ) sep? *|+`, a
    /// variable `$name[:designator]`, a group in brackets, or a single token.
    pub fn parse_one_macro_token_tree(&mut self) -> (r: Option<MacroTokenTree>)
        requires
            old(self).wf(),
        ensures
            final(self).keeps(old(self)),
            (opt_tree_view(r), final(self).state()) == p_tree(old(self).ptoks(), old(self).state()),
            old(self).pos < old(self).tokens@.len() ==> final(self).pos > old(self).pos,
        decreases old(self).tokens@.len() - old(self).pos, 2int,
    {
        let nx = self.peek_some();
        match nx {
            Token::MACRO_REP_START => {
                self.consume();
                let inner = self.parse_macro_token_trees_inner(Token::PAREN(")"));
                self.consume();
                let separator = if self.peek_is(Token::PUNCT(",")) || self.peek_is(
                    Token::PUNCT(";"),
                ) {
                    match self.consume() {
                        Some((Token::PUNCT(p), _)) => Some(message(p)),
                        _ => None,
                    }
                } else {
                    None
                };
                let quantifier = if self.peek_is(Token::UNARY("*")) || self.peek_is(
                    Token::BINOP("*"),
                ) {
                    self.consume();
                    RepQuantifier::ZeroOrMore
                } else if self.peek_is(Token::UNARY("+")) || self.peek_is(Token::BINOP("+")) {
                    self.consume();
                    RepQuantifier::OneOrMore
                } else {
                    let other = self.peek_some();
                    let span = self.peek_span();
                    self.push_error_tok("Expected * or + after macro repetition, got ", &other, span);
                    return None;
                };
                Some(MacroTokenTree::Repetition { trees: inner, separator, quantifier })
            },
            Token::MACRO_VAR(name) => {
                self.consume();
                if self.peek_is(Token::PUNCT(":")) {
                    self.consume();
                    match self.parse_designator() {
                        None => None,
                        Some(designator) => Some(MacroTokenTree::Metavar { name, designator }),
                    }
                } else {
                    Some(MacroTokenTree::Metavar { name, designator: MacroDesignator::Tt })
                }
            },
            Token::PAREN(p) => {
                if str_eq(p, "(") || str_eq(p, "[") || str_eq(p, "{") {
                    let (close, delimiter) = if str_eq(p, "(") {
                        (Token::PAREN(")"), '(')
                    } else if str_eq(p, "[") {
                        (Token::PAREN("]"), '[')
                    } else {
                        (Token::PAREN("}"), '{')
                    };
                    proof {
                        reveal_strlit(")");
                        reveal_strlit("]");
                        reveal_strlit("}");
                        assert(close@ == crate::lexer_spec::SpecToken::PAREN(group_close(p@)));
                    }
                    self.consume();
                    let inner = self.parse_macro_token_trees_inner(close);
                    self.consume();
                    Some(MacroTokenTree::Group { delimiter, trees: inner })
                } else {
                    match self.consume() {
                        Some((tok, span)) => Some(MacroTokenTree::Token(tok, span)),
                        None => None,
                    }
                }
            },
            _ => {
                match self.consume() {
                    Some((tok, span)) => Some(MacroTokenTree::Token(tok, span)),
                    None => None,
                }
            },
        }
    }

    /// Parses token trees up to the end of input or the token `stop`, which
    /// is left in place; stops early at a tree that fails.
    pub fn parse_macro_token_trees_inner(&mut self, stop: Token) -> (r: Vec<MacroTokenTree>)
        requires
            old(self).wf(),
        ensures
            final(self).keeps(old(self)),
            (vec_macro_token_tree_view(r@), final(self).state()) == p_trees(
                old(self).ptoks(),
                old(self).state(),
                stop@,
                seq![],
            ),
        decreases old(self).tokens@.len() - old(self).pos, 3int,
    {
        let mut trees: Vec<MacroTokenTree> = Vec::new();
        proof {
            assert(vec_macro_token_tree_view(trees@) =~= seq![]);
        }
        loop
            invariant
                self.keeps(old(self)),
                p_trees(self.ptoks(), self.state(), stop@, vec_macro_token_tree_view(trees@))
                    == p_trees(old(self).ptoks(), old(self).state(), stop@, seq![]),
            decreases self.tokens@.len() - self.pos,
        {
            if self.pos >= self.tokens.len() {
                return trees;
            }
            proof {
                self.lemma_tok(self.pos as int);
            }
            if crate::lexer::token_eq(&self.tokens[self.pos].0, &stop) {
                return trees;
            }
            match self.parse_one_macro_token_tree() {
                None => {
                    return trees;
                },
                Some(tree) => {
                    proof {
                        lemma_trees_push(trees@, tree);
                    }
                    trees.push(tree);
                },
            }
        }
    }

    /// Parses the rest of a macro invocation `name!tree`, after its name.
    pub fn parse_macro_invocation(&mut self, name: String, span: Span) -> (r: SAst)
        requires
            old(self).wf(),
        ensures
            final(self).keeps(old(self)),
            (sast_view(r), final(self).state()) == p_macro_invocation(
                old(self).ptoks(),
                old(self).state(),
                name@,
                span,
            ),
    {
        let nx = self.peek_some();
        if !self.peek_is(Token::BANG) {
            let mut m: Vec<char> = Vec::new();
            push_str(&mut m, "Expected '!' after macro name '");
            push_str(&mut m, name.as_str());
            push_str(&mut m, "', got ");
            crate::lexer::push_token_debug(&mut m, &nx);
            proof {
                assert(m@ =~= "Expected '!' after macro name '"@ + name@ + "', got "@
                    + crate::lexer::token_debug(nx@));
            }
            self.push_error(string_from_chars(&m), span);
            return Spanned::new(AstNode::Error, span);
        }
        self.consume();
        let args = match self.parse_one_macro_token_tree() {
            Some(tree) => {
                let mut v: Vec<MacroTokenTree> = Vec::new();
                v.push(tree);
                proof {
                    lemma_trees_push(Seq::empty(), v@[0]);
                    assert(v@ =~= Seq::<MacroTokenTree>::empty().push(v@[0]));
                }
                v
            },
            None => {
                let v: Vec<MacroTokenTree> = Vec::new();
                proof {
                    assert(vec_macro_token_tree_view(v@) =~= seq![]);
                }
                v
            },
        };
        Spanned::new(AstNode::MacroInvocation { name, args }, span)
    }
}

/// A copy of a token tree.
pub fn clone_tree(t: &MacroTokenTree) -> (r: MacroTokenTree)
    ensures
        macro_token_tree_view(r) == macro_token_tree_view(*t),
    decreases t,
{
    match t {
        MacroTokenTree::Token(tok, span) => MacroTokenTree::Token(clone_token(tok), *span),
        MacroTokenTree::Metavar { name, designator } => MacroTokenTree::Metavar {
            name: name.clone(),
            designator: *designator,
        },
        MacroTokenTree::Repetition { trees, separator, quantifier } => {
            let sep = match separator {
                Some(s) => Some(s.clone()),
                None => None,
            };
            MacroTokenTree::Repetition {
                trees: clone_trees(trees),
                separator: sep,
                quantifier: *quantifier,
            }
        },
        MacroTokenTree::Group { delimiter, trees } => MacroTokenTree::Group {
            delimiter: *delimiter,
            trees: clone_trees(trees),
        },
    }
}

/// A copy of a sequence of token trees.
pub fn clone_trees(ts: &Vec<MacroTokenTree>) -> (r: Vec<MacroTokenTree>)
    ensures
        vec_macro_token_tree_view(r@) == vec_macro_token_tree_view(ts@),
    decreases ts,
{
    let mut r: Vec<MacroTokenTree> = Vec::new();
    let mut k: usize = 0;
    proof {
        assert(vec_macro_token_tree_view(r@) =~= vec_macro_token_tree_view(ts@.take(0)));
    }
    while k < ts.len()
        invariant
            k <= ts@.len(),
            vec_macro_token_tree_view(r@) == vec_macro_token_tree_view(ts@.take(k as int)),
        decreases ts@.len() - k,
    {
        proof {
            assert(decreases_to!(ts => ts@[k as int]));
        }
        let c = clone_tree(&ts[k]);
        proof {
            lemma_trees_push(r@, c);
            assert(ts@.take(k + 1).drop_last() =~= ts@.take(k as int));
        }
        r.push(c);
        k = k + 1;
    }
    assert(ts@.take(k as int) =~= ts@);
    r
}

pub proof fn lemma_arms_push(v: Seq<MacroArm>, x: MacroArm)
    ensures
        vec_macro_arm_view(v.push(x)) == vec_macro_arm_view(v).push(macro_arm_view(x)),
{
    assert(v.push(x).drop_last() =~= v);
}

/// A copy of a macro definition.
pub fn clone_macro_definition(d: &MacroDefinition) -> (r: MacroDefinition)
    ensures
        macro_definition_view(r) == macro_definition_view(*d),
{
    let mut arms: Vec<MacroArm> = Vec::new();
    let mut k: usize = 0;
    proof {
        assert(vec_macro_arm_view(arms@) =~= vec_macro_arm_view(d.arms@.take(0)));
    }
    while k < d.arms.len()
        invariant
            k <= d.arms@.len(),
            vec_macro_arm_view(arms@) == vec_macro_arm_view(d.arms@.take(k as int)),
        decreases d.arms@.len() - k,
    {
        let a = MacroArm {
            pattern: clone_trees(&d.arms[k].pattern),
            template: clone_trees(&d.arms[k].template),
        };
        proof {
            lemma_arms_push(arms@, a);
            assert(d.arms@.take(k + 1).drop_last() =~= d.arms@.take(k as int));
        }
        arms.push(a);
        k = k + 1;
    }
    assert(d.arms@.take(k as int) =~= d.arms@);
    MacroDefinition { name: d.name.clone(), arms }
}

/// No name occurs twice among the entries.
pub open spec fn keys_unique(v: Seq<(String, MacroDefinition)>) -> bool {
    forall|i: int, j: int|
        0 <= i < j < v.len() ==> (#[trigger] v[i]).0@ != (#[trigger] v[j]).0@
}

/// With distinct names, the table maps exactly the names of its entries,
/// each to its own definition.
pub proof fn lemma_macro_map(v: Seq<(String, MacroDefinition)>)
    requires
        keys_unique(v),
    ensures
        forall|k: Seq<char>|
            #[trigger] macro_map(v).contains_key(k) <==> exists|j: int|
                0 <= j < v.len() && (#[trigger] v[j]).0@ == k,
        forall|j: int|
            0 <= j < v.len() ==> macro_map(v)[(#[trigger] v[j]).0@] == macro_definition_view(
                v[j].1,
            ),
    decreases v.len(),
{
    if v.len() > 0 {
        let w = v.drop_last();
        assert(keys_unique(w)) by {
            assert forall|i: int, j: int| 0 <= i < j < w.len() implies (#[trigger] w[i]).0@ != (
            #[trigger] w[j]).0@ by {
                assert(w[i] == v[i] && w[j] == v[j]);
            }
        }
        lemma_macro_map(w);
        let last = v.last();
        assert forall|k: Seq<char>| #[trigger] macro_map(v).contains_key(k) <==> exists|j: int|
            0 <= j < v.len() && (#[trigger] v[j]).0@ == k by {
            if macro_map(v).contains_key(k) {
                if k == last.0@ {
                    assert(v[v.len() - 1].0@ == k);
                } else {
                    assert(macro_map(w).contains_key(k));
                    let j = choose|j: int| 0 <= j < w.len() && (#[trigger] w[j]).0@ == k;
                    assert(v[j] == w[j]);
                }
            }
            if exists|j: int| 0 <= j < v.len() && (#[trigger] v[j]).0@ == k {
                let j = choose|j: int| 0 <= j < v.len() && (#[trigger] v[j]).0@ == k;
                if j < v.len() - 1 {
                    assert(w[j] == v[j]);
                    assert(macro_map(w).contains_key(k));
                }
            }
        }
        assert forall|j: int| 0 <= j < v.len() implies macro_map(v)[(#[trigger] v[j]).0@]
            == macro_definition_view(v[j].1) by {
            if j < v.len() - 1 {
                assert(w[j] == v[j]);
                assert(v[j].0@ != v[v.len() - 1].0@);
            }
        }
    }
}

impl SymbolTable {
    /// Records `def` under `name`, replacing an earlier definition of it.
    pub fn define_macro(&mut self, name: String, def: MacroDefinition)
        requires
            old(self).wf(),
        ensures
            final(self).wf(),
            final(self).view() == old(self).view().insert(name@, macro_definition_view(def)),
    {
        let ghost v = self.macros@;
        let ghost dv = macro_definition_view(def);
        let mut i: usize = 0;
        while i < self.macros.len()
            invariant
                i <= self.macros@.len(),
                self.macros@ == v,
                v == old(self).macros@,
                dv == macro_definition_view(def),
                keys_unique(v),
                forall|j: int| 0 <= j < i ==> (#[trigger] v[j]).0@ != name@,
            decreases self.macros@.len() - i,
        {
            if str_eq(self.macros[i].0.as_str(), name.as_str()) {
                let ghost nm = name@;
                self.macros.set(i, (name, def));
                proof {
                    let v2 = self.macros@;
                    assert(keys_unique(v2)) by {
                        assert forall|a: int, b: int| 0 <= a < b < v2.len() implies (
                        #[trigger] v2[a]).0@ != (#[trigger] v2[b]).0@ by {
                            if a != i as int && b != i as int {
                                assert(v2[a] == v[a] && v2[b] == v[b]);
                            } else if a == i as int {
                                assert(v2[b] == v[b]);
                                assert(v[a].0@ != v[b].0@);
                            } else {
                                assert(v2[a] == v[a]);
                                assert(v[a].0@ != v[b].0@);
                            }
                        }
                    }
                    lemma_macro_map(v);
                    lemma_macro_map(v2);
                    assert(macro_map(v2) =~= macro_map(v).insert(nm, dv)) by {
                        assert forall|k: Seq<char>| #[trigger] macro_map(v2).contains_key(k)
                            <==> macro_map(v).insert(nm, dv).contains_key(k) by {
                            if macro_map(v2).contains_key(k) {
                                let j = choose|j: int| 0 <= j < v2.len() && (#[trigger] v2[j]).0@ == k;
                                if j != i as int {
                                    assert(v[j] == v2[j]);
                                }
                            }
                            if macro_map(v).contains_key(k) {
                                let j = choose|j: int| 0 <= j < v.len() && (#[trigger] v[j]).0@ == k;
                                if j != i as int {
                                    assert(v[j] == v2[j]);
                                } else {
                                    assert(v2[j].0@ == nm);
                                }
                            }
                            if k == nm {
                                assert(v2[i as int].0@ == nm);
                            }
                        }
                        assert forall|k: Seq<char>| #[trigger] macro_map(v2).contains_key(k)
                            implies macro_map(v2)[k] == macro_map(v).insert(nm, dv)[k] by {
                            let j = choose|j: int| 0 <= j < v2.len() && (#[trigger] v2[j]).0@ == k;
                            if j != i as int {
                                assert(v[j] == v2[j]);
                                assert(k != nm);
                                assert(macro_map(v)[v[j].0@] == macro_definition_view(v[j].1));
                            } else {
                                assert(v2[j].1 == def);
                                assert(macro_map(v2)[v2[j].0@] == macro_definition_view(v2[j].1));
                                assert(k == nm);
                                assert(macro_map(v2)[k] == dv);
                                assert(macro_map(v).insert(nm, dv)[k] == dv);
                            }
                        }
                    }
                }
                return;
            }
            i = i + 1;
        }
        proof {
            assert(keys_unique(v.push((name, def)))) by {
                let v2 = v.push((name, def));
                assert forall|a: int, b: int| 0 <= a < b < v2.len() implies (#[trigger] v2[a]).0@
                    != (#[trigger] v2[b]).0@ by {
                    assert(v2[a] == v[a]);
                    if b < v.len() {
                        assert(v2[b] == v[b]);
                    }
                }
            }
            assert(v.push((name, def)).drop_last() =~= v);
        }
        self.macros.push((name, def));
    }

    /// The definition recorded under `name`, if any.
    pub fn lookup_macro(&self, name: &str) -> (r: Option<&MacroDefinition>)
        requires
            self.wf(),
        ensures
            r is Some <==> self.view().contains_key(name@),
            r is Some ==> macro_definition_view(*r.unwrap()) == self.view()[name@],
    {
        proof {
            lemma_macro_map(self.macros@);
        }
        let mut i: usize = 0;
        while i < self.macros.len()
            invariant
                i <= self.macros@.len(),
                keys_unique(self.macros@),
                forall|j: int| 0 <= j < i ==> (#[trigger] self.macros@[j]).0@ != name@,
            decreases self.macros@.len() - i,
        {
            if str_eq(self.macros[i].0.as_str(), name) {
                proof {
                    lemma_macro_map(self.macros@);
                    assert(self.macros@[i as int].0@ == name@);
                }
                return Some(&self.macros[i].1);
            }
            i = i + 1;
        }
        proof {
            lemma_macro_map(self.macros@);
            if self.view().contains_key(name@) {
                let j = choose|j: int| 0 <= j < self.macros@.len() && (#[trigger] self.macros@[j]).0@
                    == name@;
                assert(self.macros@[j].0@ != name@);
            }
        }
        None
    }
}

impl LucyParser {
    fn parse_macro_arms(&mut self, start: Span) -> (r: (Vec<MacroArm>, Span))
        requires
            old(self).wf(),
        ensures
            final(self).keeps(old(self)),
            (vec_macro_arm_view(r.0@), r.1, final(self).state()) == p_macro_arms(
                old(self).ptoks(),
                old(self).state(),
                seq![],
                start,
            ),
    {
        let mut arms: Vec<MacroArm> = Vec::new();
        proof {
            assert(vec_macro_arm_view(arms@) =~= seq![]);
        }
        loop
            invariant
                self.keeps(old(self)),
                p_macro_arms(self.ptoks(), self.state(), vec_macro_arm_view(arms@), start)
                    == p_macro_arms(old(self).ptoks(), old(self).state(), seq![], start),
            decreases self.tokens@.len() - self.pos,
        {
            if self.peek_is(Token::END) {
                let mut e = start;
                self.consume_end(&mut e);
                return (arms, e);
            } else if self.peek_is(Token::PUNCT(",")) {
                self.consume();
            } else {
                let pattern = self.parse_macro_token_trees_inner(Token::FATARROW);
                if self.expect_some(Token::FATARROW, "Expected '=>' in macro arm").is_none() {
                    continue;
                }
                let template = self.parse_macro_token_trees_inner(Token::END);
                let arm = MacroArm { pattern, template };
                proof {
                    lemma_arms_push(arms@, arm);
                }
                arms.push(arm);
            }
        }
    }

    /// Parses a macro definition after `macro`: a name, an optional `!`,
    /// and arms `pattern => template` up to `end`. The macro is recorded in
    /// the symbol table.
    pub fn parse_macro_definition(&mut self, ctx: &ParsingContext) -> (r: SAst)
        requires
            old(self).wf(),
        ensures
            final(self).keeps(old(self)),
            (sast_view(r), final(self).state()) == p_macro_definition(
                old(self).ptoks(),
                old(self).state(),
            ),
    {
        let start = self.peek_span();
        let (tk, span) = match self.expect_any_some() {
            None => {
                return Spanned::new(AstNode::Error, start);
            },
            Some(x) => x,
        };
        let name = match tk {
            Token::IDENT(s) => s,
            other => {
                self.push_error_tok("Expected macro name, got ", &other, span);
                return Spanned::new(AstNode::Error, span);
            },
        };
        if self.peek_is(Token::BANG) {
            self.consume();
        }
        let (arms, end_span) = self.parse_macro_arms(start);
        let def = MacroDefinition { name: name.clone(), arms };
        self.symbols.define_macro(name, clone_macro_definition(&def));
        Spanned::new(AstNode::MacroDefinitionNode(def), start.merge(end_span))
    }
}

} // verus!
