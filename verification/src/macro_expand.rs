//! Macro expansion: matching an invocation against the arms of a macro,
//! filling in the template of the first arm that matches, and turning the
//! result back into tokens and statements.
use vstd::prelude::*;
use crate::span::Span;
use crate::lexer::{Token, SpannedToken, clone_token};
use crate::lexer_spec::SpecToken;
use crate::text::str_eq;
use crate::parser::{
    MacroTokenTree, MacroDesignator, RepQuantifier, MacroDefinition, MacroArm, SymbolTable,
    LucyParser, SAst, AstNode, ptoks_view,
};
use crate::parser_spec::{
    SpecMacroTokenTree, SpecMacroArm, SpecAstNode, SpecSAst, PState, PTok,
    vec_macro_token_tree_view, macro_token_tree_view, vec_macro_arm_view, macro_arm_view,
    macro_definition_view, vec_sast_view, sast_view,
};
use crate::parse_macros::clone_tree;
use crate::grammar::g_file;
use crate::typechecker::strings_view;
use crate::macro_spec::{
    Caps, token_kind, same_token, designator_accepts, is_separator, separator_token, match_from,
    repeat_from, captures_of, captured_names, pick, slot, capture_count_from, expand_from,
    expand_reps, expand_by_arms, expansion, delimiter_pair, flatten_from,
};

verus! {

pub open spec fn caps_view(c: Seq<(String, MacroTokenTree)>) -> Caps {
    c.map_values(|p: (String, MacroTokenTree)| (p.0@, macro_token_tree_view(p.1)))
}

/// A match so far followed by the rest of it.
pub open spec fn after_caps(acc: Caps, r: Option<(int, Caps)>) -> Option<(int, Caps)> {
    match r {
        Some((j, c)) => Some((j, acc + c)),
        None => None,
    }
}

/// The view of a list of trees has its length and the view of each tree.
pub proof fn lemma_trees_view(v: Seq<MacroTokenTree>)
    ensures
        vec_macro_token_tree_view(v).len() == v.len(),
        forall|i: int|
            0 <= i < v.len() ==> #[trigger] vec_macro_token_tree_view(v)[i]
                == macro_token_tree_view(v[i]),
    decreases v.len(),
{
    if v.len() > 0 {
        lemma_trees_view(v.drop_last());
        assert forall|i: int| 0 <= i < v.len() implies #[trigger] vec_macro_token_tree_view(v)[i]
            == macro_token_tree_view(v[i]) by {
            if i < v.len() - 1 {
                assert(vec_macro_token_tree_view(v.drop_last())[i] == macro_token_tree_view(
                    v.drop_last()[i],
                ));
            }
        }
    }
}

/// The view of a list of arms has its length and the view of each arm.
pub proof fn lemma_arms_view(v: Seq<MacroArm>)
    ensures
        vec_macro_arm_view(v).len() == v.len(),
        forall|i: int| 0 <= i < v.len() ==> #[trigger] vec_macro_arm_view(v)[i] == macro_arm_view(v[i]),
    decreases v.len(),
{
    if v.len() > 0 {
        lemma_arms_view(v.drop_last());
        assert forall|i: int| 0 <= i < v.len() implies #[trigger] vec_macro_arm_view(v)[i]
            == macro_arm_view(v[i]) by {
            if i < v.len() - 1 {
                assert(vec_macro_arm_view(v.drop_last())[i] == macro_arm_view(v.drop_last()[i]));
            }
        }
    }
}

/// A name captured at some position has a capture.
pub proof fn lemma_captured(c: Caps, k: int)
    requires
        0 <= k < c.len(),
    ensures
        captures_of(c, c[k].0).len() > 0,
    decreases c.len(),
{
    if k < c.len() - 1 {
        lemma_captured(c.drop_last(), k);
    }
}

/// The captures of a list extended by more are those of both.
pub proof fn lemma_captures_append(a: Caps, b: Caps, name: Seq<char>)
    ensures
        captures_of(a + b, name) == captures_of(a, name) + captures_of(b, name),
    decreases b.len(),
{
    if b.len() == 0 {
        assert(a + b =~= a);
        assert(captures_of(b, name) =~= Seq::empty());
        assert(captures_of(a, name) + Seq::<SpecMacroTokenTree>::empty() =~= captures_of(a, name));
    } else {
        assert((a + b).drop_last() =~= a + b.drop_last());
        lemma_captures_append(a, b.drop_last(), name);
        if b.last().0 == name {
            assert(captures_of(a, name) + captures_of(b.drop_last(), name).push(b.last().1)
                =~= (captures_of(a, name) + captures_of(b.drop_last(), name)).push(b.last().1));
        }
    }
}

/// `Box::leak` of a copy of `s`: a string slice that lives as long as the
/// program, with the same characters.
#[verifier::external_body]
fn leak_str(s: &str) -> (r: &'static str)
    ensures
        r@ == s@,
{
    Box::leak(s.to_string().into_boxed_str())
}

/// The position of a token's variant in the list of token kinds.
pub fn token_kind_of(t: &Token) -> (r: u8)
    ensures
        r == token_kind(t@),
{
    match t {
        Token::STRING(_) => 0u8,
        Token::INT(_) => 1u8,
        Token::FLOAT(_) => 2u8,
        Token::BINOP(_) => 3u8,
        Token::UNARY(_) => 4u8,
        Token::PAREN(_) => 5u8,
        Token::AND => 6u8,
        Token::BANG => 7u8,
        Token::DECLARE => 8u8,
        Token::CLASS => 9u8,
        Token::TUPLE => 10u8,
        Token::CATEGORY => 11u8,
        Token::MACRO => 12u8,
        Token::IDENT(_) => 13u8,
        Token::FN => 14u8,
        Token::RETURN => 15u8,
        Token::PUNCT(_) => 16u8,
        Token::ARROW => 17u8,
        Token::LEFTARROW => 18u8,
        Token::FATARROW => 19u8,
        Token::END => 20u8,
        Token::IF => 21u8,
        Token::ELSE => 22u8,
        Token::ELSEIF => 23u8,
        Token::IN => 24u8,
        Token::WHILE => 25u8,
        Token::FOR => 26u8,
        Token::DO => 27u8,
        Token::PUB => 28u8,
        Token::MODULE => 29u8,
        Token::USE => 30u8,
        Token::STATIC => 31u8,
        Token::DYNAMIC => 32u8,
        Token::MATCH => 33u8,
        Token::THROW => 34u8,
        Token::AS => 35u8,
        Token::MUTABLE => 36u8,
        Token::SELF => 37u8,
        Token::SELFTYPE => 38u8,
        Token::DEFAULT => 39u8,
        Token::OPERATOR => 40u8,
        Token::TYPEOF => 41u8,
        Token::FSTRING_START => 42u8,
        Token::FSTRING_CHUNK(_) => 43u8,
        Token::FSTRING_EXPR_START => 44u8,
        Token::FSTRING_EXPR_END => 45u8,
        Token::FSTRING_END => 46u8,
        Token::MACRO_REP_START => 47u8,
        Token::MACRO_VAR(_) => 48u8,
    }
}

/// Whether two tokens are the same: names, operators, punctuation, numbers
/// and strings by their text or value, other tokens by their kind alone.
pub fn tokens_equal(a: &Token, b: &Token) -> (r: bool)
    ensures
        r == same_token(a@, b@),
{
    match (a, b) {
        (Token::IDENT(x), Token::IDENT(y)) => str_eq(x.as_str(), y.as_str()),
        (Token::BINOP(x), Token::BINOP(y)) => str_eq(x, y),
        (Token::UNARY(x), Token::UNARY(y)) => str_eq(x, y),
        (Token::PUNCT(x), Token::PUNCT(y)) => str_eq(x, y),
        (Token::INT(x), Token::INT(y)) => *x == *y,
        (Token::FLOAT(x), Token::FLOAT(y)) => str_eq(x.as_str(), y.as_str()),
        (Token::STRING(x), Token::STRING(y)) => str_eq(x.as_str(), y.as_str()),
        _ => token_kind_of(a) == token_kind_of(b),
    }
}

/// Whether a tree may stand for a macro variable of this designator.
pub fn designator_matches(des: &MacroDesignator, tt: &MacroTokenTree) -> (r: bool)
    ensures
        r == designator_accepts(*des, macro_token_tree_view(*tt)),
{
    match des {
        MacroDesignator::Tt => true,
        MacroDesignator::Str => matches!(tt, MacroTokenTree::Token(Token::STRING(_), _)),
        MacroDesignator::Int => matches!(tt, MacroTokenTree::Token(Token::INT(_), _)),
        MacroDesignator::Float => matches!(tt, MacroTokenTree::Token(Token::FLOAT(_), _)),
        MacroDesignator::Literal => matches!(tt, MacroTokenTree::Token(Token::STRING(_), _))
            || matches!(tt, MacroTokenTree::Token(Token::INT(_), _))
            || matches!(tt, MacroTokenTree::Token(Token::FLOAT(_), _)),
        MacroDesignator::Ident => matches!(tt, MacroTokenTree::Token(Token::IDENT(_), _)),
        _ => true,
    }
}

/// The token that a separator stands for in an expansion.
pub fn str_to_sep_token(sep: &str) -> (r: Token)
    ensures
        r@ == separator_token(sep@),
{
    if str_eq(sep, "|") {
        Token::BINOP("|")
    } else if str_eq(sep, "+") {
        Token::BINOP("+")
    } else if str_eq(sep, ",") {
        Token::PUNCT(",")
    } else if str_eq(sep, ";") {
        Token::PUNCT(";")
    } else {
        Token::PUNCT(leak_str(sep))
    }
}

/// Whether a token is the separator `sep` of a repetition.
pub fn token_matches_sep(tok: &Token, sep: &str) -> (r: bool)
    ensures
        r == is_separator(tok@, sep@),
{
    match tok {
        Token::PUNCT(s) | Token::BINOP(s) | Token::UNARY(s) => str_eq(s, sep),
        Token::IDENT(s) => str_eq(s.as_str(), sep),
        _ => false,
    }
}

/// The opening and closing tokens of a group delimiter.
pub fn delimiter_tokens(delim: char) -> (r: (Token, Token))
    requires
        delimiter_pair(delim) is Some,
    ensures
        delimiter_pair(delim) == Some((r.0@, r.1@)),
{
    if delim == '(' {
        (Token::PAREN("("), Token::PAREN(")"))
    } else if delim == '[' {
        (Token::PAREN("["), Token::PAREN("]"))
    } else {
        (Token::PAREN("{"), Token::PAREN("}"))
    }
}

/// How many trees are captured for `name`.
fn count_captures(c: &Vec<(String, MacroTokenTree)>, name: &str) -> (r: usize)
    ensures
        r == captures_of(caps_view(c@), name@).len(),
{
    let ghost cv = caps_view(c@);
    let mut n: usize = 0;
    let mut k: usize = 0;
    assert(cv.take(0) =~= Caps::empty());
    while k < c.len()
        invariant
            k <= c@.len(),
            cv == caps_view(c@),
            n == captures_of(cv.take(k as int), name@).len(),
            n <= k,
        decreases c@.len() - k,
    {
        assert(cv.take(k + 1).drop_last() =~= cv.take(k as int));
        if str_eq(c[k].0.as_str(), name) {
            n = n + 1;
        }
        k = k + 1;
    }
    assert(cv.take(k as int) =~= cv);
    n
}

/// The trees captured for `name`, in order.
fn captures_named(c: &Vec<(String, MacroTokenTree)>, name: &str) -> (r: Vec<MacroTokenTree>)
    ensures
        vec_macro_token_tree_view(r@) == captures_of(caps_view(c@), name@),
{
    let ghost cv = caps_view(c@);
    let mut out: Vec<MacroTokenTree> = Vec::new();
    let mut k: usize = 0;
    assert(cv.take(0) =~= Caps::empty());
    assert(vec_macro_token_tree_view(out@) =~= Seq::empty());
    while k < c.len()
        invariant
            k <= c@.len(),
            cv == caps_view(c@),
            vec_macro_token_tree_view(out@) == captures_of(cv.take(k as int), name@),
        decreases c@.len() - k,
    {
        assert(cv.take(k + 1).drop_last() =~= cv.take(k as int));
        if str_eq(c[k].0.as_str(), name) {
            let t = clone_tree(&c[k].1);
            proof {
                crate::parse_macros::lemma_trees_push(out@, t);
            }
            out.push(t);
        }
        k = k + 1;
    }
    assert(cv.take(k as int) =~= cv);
    out
}

/// Whether `k` is among `names`.
fn contains_name(names: &Vec<String>, k: &str) -> (r: bool)
    ensures
        r == strings_view(names@).contains(k@),
{
    let mut i: usize = 0;
    while i < names.len()
        invariant
            i <= names@.len(),
            forall|m: int| 0 <= m < i ==> names@[m]@ != k@,
        decreases names@.len() - i,
    {
        if str_eq(names[i].as_str(), k) {
            assert(strings_view(names@)[i as int] == k@);
            return true;
        }
        i = i + 1;
    }
    assert forall|m: int| 0 <= m < strings_view(names@).len() implies strings_view(names@)[m]
        != k@ by {}
    false
}

/// The captures for the `i`-th expansion of a repetition.
fn build_slot(c: &Vec<(String, MacroTokenTree)>, i: usize) -> (r: Vec<(String, MacroTokenTree)>)
    ensures
        caps_view(r@) == slot(caps_view(c@), i as int),
{
    let ghost cv = caps_view(c@);
    let mut names: Vec<String> = Vec::new();
    let mut out: Vec<(String, MacroTokenTree)> = Vec::new();
    let mut k: usize = 0;
    assert(cv.take(0) =~= Caps::empty());
    assert(strings_view(names@) =~= Seq::empty());
    assert(caps_view(out@) =~= Seq::empty());
    while k < c.len()
        invariant
            k <= c@.len(),
            cv == caps_view(c@),
            strings_view(names@) == captured_names(cv.take(k as int)),
            caps_view(out@) == captured_names(cv.take(k as int)).map_values(
                |key: Seq<char>| (key, pick(captures_of(cv, key), i as int)),
            ),
        decreases c@.len() - k,
    {
        assert(cv.take(k + 1).drop_last() =~= cv.take(k as int));
        assert(cv[k as int].0 == c@[k as int].0@);
        if !contains_name(&names, c[k].0.as_str()) {
            let v = captures_named(c, c[k].0.as_str());
            proof {
                lemma_captured(cv, k as int);
                lemma_trees_view(v@);
            }
            let elem = if i < v.len() {
                clone_tree(&v[i])
            } else {
                clone_tree(&v[v.len() - 1])
            };
            let ghost n0 = names@;
            let ghost o0 = out@;
            names.push(c[k].0.clone());
            out.push((c[k].0.clone(), elem));
            proof {
                assert(strings_view(names@) =~= strings_view(n0).push(cv[k as int].0));
                assert(caps_view(out@) =~= caps_view(o0).push(
                    (cv[k as int].0, pick(captures_of(cv, cv[k as int].0), i as int)),
                ));
                assert(captured_names(cv.take(k + 1)).map_values(
                    |key: Seq<char>| (key, pick(captures_of(cv, key), i as int)),
                ) =~= captured_names(cv.take(k as int)).map_values(
                    |key: Seq<char>| (key, pick(captures_of(cv, key), i as int)),
                ).push((cv[k as int].0, pick(captures_of(cv, cv[k as int].0), i as int))));
            }
        }
        k = k + 1;
    }
    assert(cv.take(k as int) =~= cv);
    out
}

/// How many times a repetition expands.
pub fn rep_capture_count(trees: &Vec<MacroTokenTree>, bindings: &Vec<(String, MacroTokenTree)>) -> (r:
    usize)
    ensures
        r == capture_count_from(vec_macro_token_tree_view(trees@), caps_view(bindings@), 0),
    decreases trees@,
{
    let ghost tv = vec_macro_token_tree_view(trees@);
    let ghost cv = caps_view(bindings@);
    proof {
        lemma_trees_view(trees@);
    }
    let mut k: usize = 0;
    while k < trees.len()
        invariant
            k <= trees@.len(),
            tv == vec_macro_token_tree_view(trees@),
            cv == caps_view(bindings@),
            tv.len() == trees@.len(),
            forall|m: int| 0 <= m < trees@.len() ==> #[trigger] tv[m] == macro_token_tree_view(trees@[m]),
            capture_count_from(tv, cv, 0) == capture_count_from(tv, cv, k as int),
        decreases trees@.len() - k,
    {
        match &trees[k] {
            MacroTokenTree::Metavar { name, .. } => {
                let n = count_captures(bindings, name.as_str());
                if n > 0 {
                    return n;
                }
            },
            MacroTokenTree::Group { trees: inner, .. } => {
                proof {
                    assert(decreases_to!(trees@ => trees@[k as int]));
                }
                let n = rep_capture_count(inner, bindings);
                if n > 0 {
                    return n;
                }
            },
            _ => {},
        }
        k = k + 1;
    }
    0
}

/// Appends captures.
fn append_caps(dst: &mut Vec<(String, MacroTokenTree)>, src: Vec<(String, MacroTokenTree)>)
    ensures
        caps_view(final(dst)@) == caps_view(old(dst)@) + caps_view(src@),
{
    let mut src = src;
    let ghost s0 = src@;
    dst.append(&mut src);
    assert(caps_view(dst@) =~= caps_view(old(dst)@) + caps_view(s0));
}

/// Matches `pattern` against `input` from `start`, appending what it
/// captures to `bindings`: the position after the match, or `None`.
#[verifier::loop_isolation(false)]
#[verifier::rlimit(60)]
fn match_seq(
    pattern: &Vec<MacroTokenTree>,
    input: &Vec<MacroTokenTree>,
    start: usize,
    bindings: &mut Vec<(String, MacroTokenTree)>,
) -> (r: Option<usize>)
    requires
        start <= input@.len(),
    ensures
        r is Some <==> match_from(
            vec_macro_token_tree_view(pattern@),
            vec_macro_token_tree_view(input@),
            0,
            start as int,
        ) is Some,
        r is Some ==> ({
            let m = match_from(
                vec_macro_token_tree_view(pattern@),
                vec_macro_token_tree_view(input@),
                0,
                start as int,
            )->0;
            &&& r->0 == m.0
            &&& start <= r->0 <= input@.len()
            &&& caps_view(final(bindings)@) == caps_view(old(bindings)@) + m.1
        }),
    decreases pattern@,
{
    let ghost pv = vec_macro_token_tree_view(pattern@);
    let ghost iv = vec_macro_token_tree_view(input@);
    let ghost b0 = caps_view(bindings@);
    proof {
        lemma_trees_view(pattern@);
        lemma_trees_view(input@);
    }
    let mut i: usize = 0;
    let mut j: usize = start;
    let ghost mut acc: Caps = Seq::empty();
    assert(b0 + acc =~= b0);
    assert(after_caps(acc, match_from(pv, iv, 0, start as int)) == match_from(pv, iv, 0, start as int)) by {
        match match_from(pv, iv, 0, start as int) {
            Some((x, c)) => { assert(acc + c =~= c); },
            None => {},
        }
    }
    while i < pattern.len()
        invariant
            i <= pattern@.len(),
            start <= j <= input@.len(),
            caps_view(bindings@) == b0 + acc,
            match_from(pv, iv, 0, start as int) == after_caps(acc, match_from(pv, iv, i as int, j as int)),
        decreases pattern@.len() - i,
    {
        let ghost mi = match_from(pv, iv, i as int, j as int);
        match &pattern[i] {
            MacroTokenTree::Token(expected, _) => {
                let ok = j < input.len() && match &input[j] {
                    MacroTokenTree::Token(actual, _) => tokens_equal(actual, expected),
                    _ => false,
                };
                if !ok {
                    return None;
                }
                proof {
                    assert(after_caps(acc, mi) == after_caps(acc, match_from(pv, iv, i + 1, j + 1))) by {
                        match match_from(pv, iv, i + 1, j + 1) {
                            Some((x, c)) => { assert(Caps::empty() + c =~= c); },
                            None => {},
                        }
                    }
                }
                i = i + 1;
                j = j + 1;
            },
            MacroTokenTree::Metavar { name, designator } => {
                if j >= input.len() {
                    return None;
                }
                let captured = clone_tree(&input[j]);
                if !designator_matches(designator, &captured) {
                    return None;
                }
                let ghost a0 = acc;
                let ghost bv = bindings@;
                bindings.push((name.clone(), captured));
                proof {
                    let one = seq![(name@, iv[j as int])];
                    acc = a0 + one;
                    assert(caps_view(bindings@) =~= caps_view(bv).push((name@, iv[j as int])));
                    assert(caps_view(bindings@) =~= b0 + acc);
                    assert(after_caps(a0, mi) == after_caps(acc, match_from(pv, iv, i + 1, j + 1))) by {
                        match match_from(pv, iv, i + 1, j + 1) {
                            Some((x, c)) => { assert(a0 + (one + c) =~= acc + c); },
                            None => {},
                        }
                    }
                }
                i = i + 1;
                j = j + 1;
            },
            MacroTokenTree::Group { delimiter, trees } => {
                if j >= input.len() {
                    return None;
                }
                match &input[j] {
                    MacroTokenTree::Group { delimiter: d2, trees: inner } => {
                        if *d2 != *delimiter {
                            return None;
                        }
                        let mut sub: Vec<(String, MacroTokenTree)> = Vec::new();
                        proof {
                            assert(decreases_to!(pattern@ => pattern@[i as int]));
                        }
                        match match_seq(trees, inner, 0, &mut sub) {
                            Some(consumed) => {
                                if consumed != inner.len() {
                                    proof {
                                        lemma_trees_view(inner@);
                                    }
                                    return None;
                                }
                            },
                            None => {
                                return None;
                            },
                        }
                        proof {
                            lemma_trees_view(inner@);
                            assert(caps_view(sub@) =~= Caps::empty() + caps_view(sub@));
                        }
                        let ghost a0 = acc;
                        let ghost sv = caps_view(sub@);
                        append_caps(bindings, sub);
                        proof {
                            acc = a0 + sv;
                            assert(b0 + a0 + sv =~= b0 + acc);
                            assert(after_caps(a0, mi) == after_caps(acc, match_from(pv, iv, i + 1, j + 1))) by {
                                match match_from(pv, iv, i + 1, j + 1) {
                                    Some((x, c)) => { assert(a0 + (sv + c) =~= acc + c); },
                                    None => {},
                                }
                            }
                        }
                        i = i + 1;
                        j = j + 1;
                    },
                    _ => {
                        return None;
                    },
                }
            },
            MacroTokenTree::Repetition { trees, separator, quantifier } => {
                let ghost tv = vec_macro_token_tree_view(trees@);
                let ghost sepv = match separator {
                    Some(s) => Some(s@),
                    None => None::<Seq<char>>,
                };
                let mut count: usize = 0;
                let mut input_pos: usize = j;
                let mut rep_bindings: Vec<(String, MacroTokenTree)> = Vec::new();
                let mut done = false;
                proof {
                    let (n0, p0, c0) = repeat_from(tv, sepv, iv, j as int);
                    assert(c0 =~= caps_view(rep_bindings@) + c0);
                }
                while !done
                    invariant
                        j <= input_pos <= input@.len(),
                        count <= input_pos - j,
                        !done ==> ({
                            let (n0, p0, c0) = repeat_from(tv, sepv, iv, j as int);
                            let (n1, p1, c1) = repeat_from(tv, sepv, iv, input_pos as int);
                            n0 == count + n1 && p0 == p1 && c0 == caps_view(rep_bindings@) + c1
                        }),
                        done ==> repeat_from(tv, sepv, iv, j as int) == (
                            count as nat,
                            input_pos as int,
                            caps_view(rep_bindings@),
                        ),
                    decreases (if done { 0 } else { input@.len() + 1 - input_pos }),
                {
                    let mut trial: Vec<(String, MacroTokenTree)> = Vec::new();
                    proof {
                        assert(decreases_to!(pattern@ => pattern@[i as int]));
                    }
                    let ghost rp = repeat_from(tv, sepv, iv, input_pos as int);
                    match match_seq(trees, input, input_pos, &mut trial) {
                        None => {
                            proof {
                                assert(caps_view(rep_bindings@) + Caps::empty() =~= caps_view(rep_bindings@));
                            }
                            done = true;
                        },
                        Some(p) => {
                            if p == input_pos {
                                proof {
                                    assert(caps_view(rep_bindings@) + Caps::empty() =~= caps_view(rep_bindings@));
                                }
                                done = true;
                            } else {
                                let ghost r0 = caps_view(rep_bindings@);
                                let ghost tc = caps_view(trial@);
                                proof {
                                    assert(tc =~= Caps::empty() + tc);
                                }
                                append_caps(&mut rep_bindings, trial);
                                input_pos = p;
                                count = count + 1;
                                match separator {
                                    Some(sep) => {
                                        let is_sep = input_pos < input.len() && match &input[input_pos] {
                                            MacroTokenTree::Token(tok, _) => token_matches_sep(tok, sep.as_str()),
                                            _ => false,
                                        };
                                        if is_sep {
                                            input_pos = input_pos + 1;
                                            proof {
                                                let (n2, p2, c2) = repeat_from(tv, sepv, iv, input_pos as int);
                                                assert(r0 + (tc + c2) =~= (r0 + tc) + c2);
                                            }
                                        } else {
                                            proof {
                                                assert(r0 + tc =~= caps_view(rep_bindings@));
                                            }
                                            done = true;
                                        }
                                    },
                                    None => {
                                        proof {
                                            let (n2, p2, c2) = repeat_from(tv, sepv, iv, input_pos as int);
                                            assert(r0 + (tc + c2) =~= (r0 + tc) + c2);
                                        }
                                    },
                                }
                            }
                        },
                    }
                }
                if matches!(quantifier, RepQuantifier::OneOrMore) && count == 0 {
                    return None;
                }
                let ghost a0 = acc;
                let ghost rv = caps_view(rep_bindings@);
                append_caps(bindings, rep_bindings);
                proof {
                    acc = a0 + rv;
                    assert(b0 + a0 + rv =~= b0 + acc);
                    assert(after_caps(a0, mi) == after_caps(acc, match_from(pv, iv, i + 1, input_pos as int))) by {
                        match match_from(pv, iv, i + 1, input_pos as int) {
                            Some((x, c)) => { assert(a0 + (rv + c) =~= acc + c); },
                            None => {},
                        }
                    }
                }
                i = i + 1;
                j = input_pos;
            },
        }
    }
    proof {
        assert(acc + Caps::empty() =~= acc);
    }
    Some(j)
}

/// Whether `pattern` matches all of `input`, appending what it captures to
/// `bindings`.
pub fn match_trees(
    pattern: &Vec<MacroTokenTree>,
    input: &Vec<MacroTokenTree>,
    bindings: &mut Vec<(String, MacroTokenTree)>,
) -> (r: bool)
    ensures
        r == match match_from(
            vec_macro_token_tree_view(pattern@),
            vec_macro_token_tree_view(input@),
            0,
            0,
        ) {
            Some((c, _)) => c == input@.len(),
            None => false,
        },
        r ==> ({
            let m = match_from(
                vec_macro_token_tree_view(pattern@),
                vec_macro_token_tree_view(input@),
                0,
                0,
            )->0;
            caps_view(final(bindings)@) == caps_view(old(bindings)@) + m.1
        }),
{
    match match_seq(pattern, input, 0, bindings) {
        Some(consumed) => consumed == input.len(),
        None => false,
    }
}


/// The view of two lists of trees one after the other.
pub proof fn lemma_trees_view_add(a: Seq<MacroTokenTree>, b: Seq<MacroTokenTree>)
    ensures
        vec_macro_token_tree_view(a + b) == vec_macro_token_tree_view(a) + vec_macro_token_tree_view(b),
{
    lemma_trees_view(a);
    lemma_trees_view(b);
    lemma_trees_view(a + b);
    assert(vec_macro_token_tree_view(a + b) =~= vec_macro_token_tree_view(a) + vec_macro_token_tree_view(b));
}

/// A template with the captures filled in: tokens stay, a variable becomes
/// its captures, a group is filled inside, a repetition is filled once per
/// capture of its first variable, separated by its separator.
#[verifier::loop_isolation(false)]
pub fn expand_trees(template: &Vec<MacroTokenTree>, bindings: &Vec<(String, MacroTokenTree)>) -> (r:
    Vec<MacroTokenTree>)
    ensures
        vec_macro_token_tree_view(r@) == expand_from(
            vec_macro_token_tree_view(template@),
            caps_view(bindings@),
            0,
        ),
    decreases template@,
{
    let ghost tv = vec_macro_token_tree_view(template@);
    let ghost cv = caps_view(bindings@);
    proof {
        lemma_trees_view(template@);
    }
    let mut out: Vec<MacroTokenTree> = Vec::new();
    let mut k: usize = 0;
    assert(vec_macro_token_tree_view(out@) + expand_from(tv, cv, 0) =~= expand_from(tv, cv, 0));
    while k < template.len()
        invariant
            k <= template@.len(),
            vec_macro_token_tree_view(out@) + expand_from(tv, cv, k as int) == expand_from(tv, cv, 0),
        decreases template@.len() - k,
    {
        let ghost o0 = out@;
        let ghost rest = expand_from(tv, cv, k + 1);
        proof {
            assert(decreases_to!(template@ => template@[k as int]));
        }
        match &template[k] {
            MacroTokenTree::Token(tok, span) => {
                let t = MacroTokenTree::Token(clone_token(tok), *span);
                proof {
                    crate::parse_macros::lemma_trees_push(out@, t);
                }
                out.push(t);
                proof {
                    assert(vec_macro_token_tree_view(o0).push(macro_token_tree_view(t)) + rest
                        =~= vec_macro_token_tree_view(o0) + (seq![macro_token_tree_view(t)] + rest));
                }
            },
            MacroTokenTree::Metavar { name, .. } => {
                let mut v = captures_named(bindings, name.as_str());
                let ghost vv = v@;
                out.append(&mut v);
                proof {
                    lemma_trees_view_add(o0, vv);
                    assert(vec_macro_token_tree_view(o0) + vec_macro_token_tree_view(vv) + rest
                        =~= vec_macro_token_tree_view(o0) + (vec_macro_token_tree_view(vv) + rest));
                }
            },
            MacroTokenTree::Group { delimiter, trees } => {
                let inner = expand_trees(trees, bindings);
                let t = MacroTokenTree::Group { delimiter: *delimiter, trees: inner };
                proof {
                    crate::parse_macros::lemma_trees_push(out@, t);
                }
                out.push(t);
                proof {
                    assert(vec_macro_token_tree_view(o0).push(macro_token_tree_view(t)) + rest
                        =~= vec_macro_token_tree_view(o0) + (seq![macro_token_tree_view(t)] + rest));
                }
            },
            MacroTokenTree::Repetition { trees, separator, .. } => {
                let ghost trv = vec_macro_token_tree_view(trees@);
                let ghost sepv = match separator {
                    Some(s) => Some(s@),
                    None => None::<Seq<char>>,
                };
                let count = rep_capture_count(trees, bindings);
                let mut rep_i: usize = 0;
                let ghost start_out = vec_macro_token_tree_view(out@);
                assert(vec_macro_token_tree_view(out@) + expand_reps(trv, sepv, cv, 0, count as nat)
                    =~= start_out + expand_reps(trv, sepv, cv, 0, count as nat));
                while rep_i < count
                    invariant
                        rep_i <= count,
                        vec_macro_token_tree_view(out@) + expand_reps(trv, sepv, cv, rep_i as nat, count as nat)
                            == start_out + expand_reps(trv, sepv, cv, 0, count as nat),
                    decreases count - rep_i,
                {
                    let ghost before = vec_macro_token_tree_view(out@);
                    let ghost sep_part: Seq<SpecMacroTokenTree> = if rep_i > 0 {
                        match sepv {
                            Some(s) => seq![SpecMacroTokenTree::Token(separator_token(s), Span { start: 0, end: 0 })],
                            None => Seq::empty(),
                        }
                    } else {
                        Seq::empty()
                    };
                    if rep_i > 0 {
                        match separator {
                            Some(sep) => {
                                let t = MacroTokenTree::Token(str_to_sep_token(sep.as_str()), Span::dummy());
                                proof {
                                    crate::parse_macros::lemma_trees_push(out@, t);
                                }
                                out.push(t);
                            },
                            None => {},
                        }
                    }
                    assert(vec_macro_token_tree_view(out@) =~= before + sep_part);
                    let ghost mid = out@;
                    let slot_caps = build_slot(bindings, rep_i);
                    let mut part = expand_trees(trees, &slot_caps);
                    let ghost pv = part@;
                    out.append(&mut part);
                    proof {
                        lemma_trees_view_add(mid, pv);
                        let later = expand_reps(trv, sepv, cv, (rep_i + 1) as nat, count as nat);
                        assert(before + sep_part + vec_macro_token_tree_view(pv) + later =~= before + (
                        sep_part + expand_from(trv, slot(cv, rep_i as int), 0) + later));
                    }
                    rep_i = rep_i + 1;
                }
                proof {
                    assert(expand_reps(trv, sepv, cv, rep_i as nat, count as nat) =~= Seq::empty());
                    assert(vec_macro_token_tree_view(out@) + Seq::<SpecMacroTokenTree>::empty() =~= vec_macro_token_tree_view(out@));
                    assert(start_out + expand_reps(trv, sepv, cv, 0, count as nat) + rest =~= vec_macro_token_tree_view(o0) + (expand_reps(trv, sepv, cv, 0, count as nat) + rest));
                }
            },
        }
        k = k + 1;
    }
    proof {
        assert(vec_macro_token_tree_view(out@) + Seq::<SpecMacroTokenTree>::empty() =~= vec_macro_token_tree_view(out@));
    }
    out
}

/// The tokens of trees: a group between its delimiter tokens, which have no
/// source position.
#[verifier::loop_isolation(false)]
pub fn flatten_tts_to_tokens(tts: &Vec<MacroTokenTree>) -> (r: Vec<SpannedToken>)
    requires
        flatten_from(vec_macro_token_tree_view(tts@), 0) is Some,
    ensures
        ptoks_view(r@) == flatten_from(vec_macro_token_tree_view(tts@), 0)->0,
    decreases tts@,
{
    let ghost tv = vec_macro_token_tree_view(tts@);
    proof {
        lemma_trees_view(tts@);
    }
    let mut out: Vec<SpannedToken> = Vec::new();
    let mut k: usize = 0;
    assert(ptoks_view(out@) =~= Seq::empty());
    assert(flatten_from(tv, 0) == match flatten_from(tv, 0) { Some(x) => Some(ptoks_view(out@) + x), None => None }) by {
        match flatten_from(tv, 0) {
            Some(x) => { assert(ptoks_view(out@) + x =~= x); },
            None => {},
        }
    }
    while k < tts.len()
        invariant
            k <= tts@.len(),
            flatten_from(tv, 0) is Some,
            flatten_from(tv, 0) == match flatten_from(tv, k as int) {
                Some(x) => Some(ptoks_view(out@) + x),
                None => None,
            },
        decreases tts@.len() - k,
    {
        let ghost o0 = ptoks_view(out@);
        let ghost rest = flatten_from(tv, k + 1);
        proof {
            assert(decreases_to!(tts@ => tts@[k as int]));
        }
        match &tts[k] {
            MacroTokenTree::Token(tok, span) => {
                out.push((clone_token(tok), *span));
                proof {
                    let h = seq![(tok@, *span)];
                    assert(ptoks_view(out@) =~= o0 + h);
                    assert(o0 + (h + rest->0) =~= o0 + h + rest->0);
                }
            },
            MacroTokenTree::Group { delimiter, trees } => {
                let (open, close) = delimiter_tokens(*delimiter);
                out.push((open, Span::dummy()));
                let mut inner = flatten_tts_to_tokens(trees);
                let ghost iv = inner@;
                out.append(&mut inner);
                out.push((close, Span::dummy()));
                proof {
                    let h = seq![(open@, Span { start: 0, end: 0 })] + ptoks_view(iv) + seq![
                        (close@, Span { start: 0, end: 0 }),
                    ];
                    assert(ptoks_view(out@) =~= o0 + h);
                    assert(o0 + (h + rest->0) =~= o0 + h + rest->0);
                }
            },
            _ => {},
        }
        k = k + 1;
    }
    proof {
        assert(ptoks_view(out@) + Seq::<PTok>::empty() =~= ptoks_view(out@));
    }
    out
}

/// The expansion of the macro `name` on `args`: the template of the first
/// arm whose pattern matches all of them, filled in.
pub fn expand_macro(table: &SymbolTable, name: &str, args: &Vec<MacroTokenTree>) -> (r: Vec<
    MacroTokenTree,
>)
    requires
        table.wf(),
        expansion(table.view(), name@, vec_macro_token_tree_view(args@)) is Some,
    ensures
        vec_macro_token_tree_view(r@) == expansion(
            table.view(),
            name@,
            vec_macro_token_tree_view(args@),
        )->0,
{
    let ghost av = vec_macro_token_tree_view(args@);
    let mac = table.lookup_macro(name).unwrap();
    let ghost arms = macro_definition_view(*mac).arms;
    proof {
        lemma_arms_view(mac.arms@);
        lemma_trees_view(args@);
    }
    assert(expansion(table.view(), name@, av) == expand_by_arms(arms, av, 0));
    let mut k: usize = 0;
    while k < mac.arms.len()
        invariant
            k <= mac.arms@.len(),
            arms == vec_macro_arm_view(mac.arms@),
            arms.len() == mac.arms@.len(),
            forall|m: int| 0 <= m < mac.arms@.len() ==> #[trigger] arms[m] == macro_arm_view(mac.arms@[m]),
            av == vec_macro_token_tree_view(args@),
            av.len() == args@.len(),
            expand_by_arms(arms, av, 0) is Some,
            expansion(table.view(), name@, av) == expand_by_arms(arms, av, 0),
            expand_by_arms(arms, av, 0) == expand_by_arms(arms, av, k as int),
        decreases mac.arms@.len() - k,
    {
        let mut bindings: Vec<(String, MacroTokenTree)> = Vec::new();
        let ghost b0 = bindings@;
        assert(arms[k as int].pattern == vec_macro_token_tree_view(mac.arms@[k as int].pattern@));
        assert(arms[k as int].template == vec_macro_token_tree_view(mac.arms@[k as int].template@));
        if match_trees(&mac.arms[k].pattern, args, &mut bindings) {
            proof {
                assert(caps_view(b0) =~= Caps::empty());
                let m = match_from(arms[k as int].pattern, av, 0, 0)->0;
                assert(Caps::empty() + m.1 =~= m.1);
            }
            return expand_trees(&mac.arms[k].template, &bindings);
        }
        k = k + 1;
    }
    Vec::new()
}

/// The statements that the expansion of the macro `name` on `args` parses
/// to.
pub fn expand_macro_to_ast(
    table: &SymbolTable,
    name: &str,
    args: &Vec<MacroTokenTree>,
    _span: Span,
) -> (r: Vec<SAst>)
    requires
        table.wf(),
        expansion(table.view(), name@, vec_macro_token_tree_view(args@)) is Some,
        flatten_from(expansion(table.view(), name@, vec_macro_token_tree_view(args@))->0, 0) is Some,
        g_file(
            flatten_from(expansion(table.view(), name@, vec_macro_token_tree_view(args@))->0, 0)->0,
            PState { pos: 0, errs: Seq::empty(), macros: Map::empty() },
        ) is Some,
    ensures
        ({
            let parsed = g_file(
                flatten_from(expansion(table.view(), name@, vec_macro_token_tree_view(args@))->0, 0)->0,
                PState { pos: 0, errs: Seq::empty(), macros: Map::empty() },
            )->0;
            let ast = parsed.0;
            vec_sast_view(r@) == match ast.0 {
                SpecAstNode::Program(stmts) => stmts,
                _ => seq![ast],
            }
        }),
{
    let expanded = expand_macro(table, name, args);
    let tokens = flatten_tts_to_tokens(&expanded);
    let mut parser = LucyParser::new(tokens);
    proof {
        assert(parser.state().errs =~= Seq::empty());
        assert(parser.state() == (PState { pos: 0, errs: Seq::empty(), macros: Map::empty() }));
    }
    let parsed = parser.parse_file_source();
    let ghost gv = sast_view(parsed);
    match parsed.node {
        AstNode::Program(stmts) => {
            assert(gv.0 == SpecAstNode::Program(vec_sast_view(stmts@)));
            stmts
        },
        _ => {
            let r = vec![parsed];
            assert(r@.len() == 1 && r@[0] == parsed);
            assert(r@.drop_last() =~= Seq::<SAst>::empty());
            assert(vec_sast_view(Seq::<SAst>::empty()) =~= Seq::empty());
            assert(vec_sast_view(r@.drop_last()) =~= Seq::empty());
            assert(vec_sast_view(r@) == vec_sast_view(r@.drop_last()).push(sast_view(r@.last())));
            assert(vec_sast_view(r@) =~= seq![gv]);
            r
        },
    }
}

} // verus!
