//! What macro expansion does: matching an invocation against the patterns
//! of a macro's arms, filling the template of the first arm that matches,
//! and flattening the result to tokens.
use vstd::prelude::*;
use crate::span::Span;
use crate::lexer_spec::SpecToken;
use crate::parser::{MacroDesignator, RepQuantifier};
use crate::parser_spec::{SpecMacroTokenTree, SpecMacroDefinition, SpecMacroArm, PTok};

verus! {

/// Captures of macro variables, in the order they were captured; the
/// captures of a name are the trees paired with it, in order.
pub type Caps = Seq<(Seq<char>, SpecMacroTokenTree)>;

/// The position of a token's variant in the list of token kinds.
pub open spec fn token_kind(t: SpecToken) -> u8 {
    match t {
        SpecToken::STRING(_) => 0u8,
        SpecToken::INT(_) => 1u8,
        SpecToken::FLOAT(_) => 2u8,
        SpecToken::BINOP(_) => 3u8,
        SpecToken::UNARY(_) => 4u8,
        SpecToken::PAREN(_) => 5u8,
        SpecToken::AND => 6u8,
        SpecToken::BANG => 7u8,
        SpecToken::DECLARE => 8u8,
        SpecToken::CLASS => 9u8,
        SpecToken::TUPLE => 10u8,
        SpecToken::CATEGORY => 11u8,
        SpecToken::MACRO => 12u8,
        SpecToken::IDENT(_) => 13u8,
        SpecToken::FN => 14u8,
        SpecToken::RETURN => 15u8,
        SpecToken::PUNCT(_) => 16u8,
        SpecToken::ARROW => 17u8,
        SpecToken::LEFTARROW => 18u8,
        SpecToken::FATARROW => 19u8,
        SpecToken::END => 20u8,
        SpecToken::IF => 21u8,
        SpecToken::ELSE => 22u8,
        SpecToken::ELSEIF => 23u8,
        SpecToken::IN => 24u8,
        SpecToken::WHILE => 25u8,
        SpecToken::FOR => 26u8,
        SpecToken::DO => 27u8,
        SpecToken::PUB => 28u8,
        SpecToken::MODULE => 29u8,
        SpecToken::USE => 30u8,
        SpecToken::STATIC => 31u8,
        SpecToken::DYNAMIC => 32u8,
        SpecToken::MATCH => 33u8,
        SpecToken::THROW => 34u8,
        SpecToken::AS => 35u8,
        SpecToken::MUTABLE => 36u8,
        SpecToken::SELF => 37u8,
        SpecToken::SELFTYPE => 38u8,
        SpecToken::DEFAULT => 39u8,
        SpecToken::OPERATOR => 40u8,
        SpecToken::TYPEOF => 41u8,
        SpecToken::FSTRING_START => 42u8,
        SpecToken::FSTRING_CHUNK(_) => 43u8,
        SpecToken::FSTRING_EXPR_START => 44u8,
        SpecToken::FSTRING_EXPR_END => 45u8,
        SpecToken::FSTRING_END => 46u8,
        SpecToken::MACRO_REP_START => 47u8,
        SpecToken::MACRO_VAR(_) => 48u8,
    }
}

/// Whether two tokens are the same: names, operators, punctuation, numbers
/// and strings by their text or value, other tokens by their kind alone.
pub open spec fn same_token(a: SpecToken, b: SpecToken) -> bool {
    match (a, b) {
        (SpecToken::IDENT(x), SpecToken::IDENT(y)) => x == y,
        (SpecToken::BINOP(x), SpecToken::BINOP(y)) => x == y,
        (SpecToken::UNARY(x), SpecToken::UNARY(y)) => x == y,
        (SpecToken::PUNCT(x), SpecToken::PUNCT(y)) => x == y,
        (SpecToken::INT(x), SpecToken::INT(y)) => x == y,
        (SpecToken::FLOAT(x), SpecToken::FLOAT(y)) => x == y,
        (SpecToken::STRING(x), SpecToken::STRING(y)) => x == y,
        _ => token_kind(a) == token_kind(b),
    }
}

/// Whether a tree may stand for a macro variable of this designator.
pub open spec fn designator_accepts(des: MacroDesignator, tt: SpecMacroTokenTree) -> bool {
    match des {
        MacroDesignator::Tt => true,
        MacroDesignator::Str => tt matches SpecMacroTokenTree::Token(SpecToken::STRING(_), _),
        MacroDesignator::Int => tt matches SpecMacroTokenTree::Token(SpecToken::INT(_), _),
        MacroDesignator::Float => tt matches SpecMacroTokenTree::Token(SpecToken::FLOAT(_), _),
        MacroDesignator::Literal => (tt matches SpecMacroTokenTree::Token(SpecToken::STRING(_), _))
            || (tt matches SpecMacroTokenTree::Token(SpecToken::INT(_), _))
            || (tt matches SpecMacroTokenTree::Token(SpecToken::FLOAT(_), _)),
        MacroDesignator::Ident => tt matches SpecMacroTokenTree::Token(SpecToken::IDENT(_), _),
        _ => true,
    }
}

/// Whether a token is the separator `sep` of a repetition.
pub open spec fn is_separator(tok: SpecToken, sep: Seq<char>) -> bool {
    match tok {
        SpecToken::PUNCT(s) => s == sep,
        SpecToken::BINOP(s) => s == sep,
        SpecToken::UNARY(s) => s == sep,
        SpecToken::IDENT(s) => s == sep,
        _ => false,
    }
}

/// The token that a separator stands for in an expansion: `|` and `+` are
/// operators, anything else punctuation.
pub open spec fn separator_token(sep: Seq<char>) -> SpecToken {
    if sep == "|"@ || sep == "+"@ {
        SpecToken::BINOP(sep)
    } else {
        SpecToken::PUNCT(sep)
    }
}

/// Matches the pattern from its `i`-th tree against `input` from position
/// `j`: the position after the match and what it captured; `None` when it
/// does not match.
pub open spec fn match_from(
    pat: Seq<SpecMacroTokenTree>,
    input: Seq<SpecMacroTokenTree>,
    i: int,
    j: int,
) -> Option<(int, Caps)>
    decreases pat, 1int, pat.len() - i,
{
    if i < 0 || i >= pat.len() {
        Some((j, Seq::empty()))
    } else {
        let here: Option<(int, Caps)> = match pat[i] {
            SpecMacroTokenTree::Token(expected, _) => if 0 <= j < input.len() && (match input[j] {
                SpecMacroTokenTree::Token(actual, _) => same_token(actual, expected),
                _ => false,
            }) {
                Some((j + 1, Seq::empty()))
            } else {
                None
            },
            SpecMacroTokenTree::Metavar { name, designator } => if 0 <= j < input.len()
                && designator_accepts(designator, input[j]) {
                Some((j + 1, seq![(name, input[j])]))
            } else {
                None
            },
            SpecMacroTokenTree::Group { delimiter, trees } => if 0 <= j < input.len() {
                match input[j] {
                    SpecMacroTokenTree::Group { delimiter: d2, trees: inner } => if d2
                        == delimiter {
                        match match_from(trees, inner, 0, 0) {
                            Some((c, sub)) => if c == inner.len() {
                                Some((j + 1, sub))
                            } else {
                                None
                            },
                            None => None,
                        }
                    } else {
                        None
                    },
                    _ => None,
                }
            } else {
                None
            },
            SpecMacroTokenTree::Repetition { trees, separator, quantifier } => {
                let (count, pos, rc) = repeat_from(trees, separator, input, j);
                if quantifier == RepQuantifier::OneOrMore && count == 0 {
                    None
                } else {
                    Some((pos, rc))
                }
            },
        };
        match here {
            None => None,
            Some((j1, c1)) => match match_from(pat, input, i + 1, j1) {
                None => None,
                Some((j2, c2)) => Some((j2, c1 + c2)),
            },
        }
    }
}

/// Matches `trees` again and again from `pos`, each match taking at least
/// one tree and, with a separator, followed by it: how many matched, the
/// position after them, and what they captured.
pub open spec fn repeat_from(
    trees: Seq<SpecMacroTokenTree>,
    sep: Option<Seq<char>>,
    input: Seq<SpecMacroTokenTree>,
    pos: int,
) -> (nat, int, Caps)
    decreases trees, 2int, input.len() - pos,
{
    if pos < 0 || pos > input.len() {
        (0, pos, Seq::empty())
    } else {
        match match_from(trees, input, 0, pos) {
            None => (0, pos, Seq::empty()),
            Some((p1, c)) => if p1 <= pos || p1 > input.len() {
                (0, pos, Seq::empty())
            } else {
                match sep {
                    Some(s) => if p1 < input.len() && (match input[p1] {
                        SpecMacroTokenTree::Token(tok, _) => is_separator(tok, s),
                        _ => false,
                    }) {
                        let (n, p2, c2) = repeat_from(trees, sep, input, p1 + 1);
                        ((n + 1) as nat, p2, c + c2)
                    } else {
                        (1, p1, c)
                    },
                    None => {
                        let (n, p2, c2) = repeat_from(trees, sep, input, p1);
                        ((n + 1) as nat, p2, c + c2)
                    },
                }
            },
        }
    }
}

/// The trees captured for `name`, in order.
pub open spec fn captures_of(c: Caps, name: Seq<char>) -> Seq<SpecMacroTokenTree>
    decreases c.len(),
{
    if c.len() == 0 {
        Seq::empty()
    } else {
        let rest = captures_of(c.drop_last(), name);
        if c.last().0 == name {
            rest.push(c.last().1)
        } else {
            rest
        }
    }
}

/// The names captured, each once, in the order of their first capture.
pub open spec fn captured_names(c: Caps) -> Seq<Seq<char>>
    decreases c.len(),
{
    if c.len() == 0 {
        Seq::empty()
    } else {
        let d = captured_names(c.drop_last());
        if d.contains(c.last().0) {
            d
        } else {
            d.push(c.last().0)
        }
    }
}

/// The `i`-th of some captures, or the last one when there are fewer.
pub open spec fn pick(v: Seq<SpecMacroTokenTree>, i: int) -> SpecMacroTokenTree {
    if i < v.len() {
        v[i]
    } else {
        v.last()
    }
}

/// The captures for the `i`-th expansion of a repetition: each captured
/// name with its `i`-th capture.
pub open spec fn slot(c: Caps, i: int) -> Caps {
    captured_names(c).map_values(|k: Seq<char>| (k, pick(captures_of(c, k), i)))
}

/// How many times a repetition expands: the number of captures of the first
/// captured variable in its trees, looking into groups.
pub open spec fn capture_count_from(trees: Seq<SpecMacroTokenTree>, c: Caps, i: int) -> nat
    decreases trees, trees.len() - i,
{
    if i < 0 || i >= trees.len() {
        0
    } else {
        match trees[i] {
            SpecMacroTokenTree::Metavar { name, .. } => if captures_of(c, name).len() > 0 {
                captures_of(c, name).len()
            } else {
                capture_count_from(trees, c, i + 1)
            },
            SpecMacroTokenTree::Group { trees: inner, .. } => {
                let n = capture_count_from(inner, c, 0);
                if n > 0 {
                    n
                } else {
                    capture_count_from(trees, c, i + 1)
                }
            },
            _ => capture_count_from(trees, c, i + 1),
        }
    }
}

/// A template from its `i`-th tree with the captures filled in: tokens stay,
/// a variable becomes its captures, a group is filled inside, a repetition
/// is filled once per capture of its first variable.
pub open spec fn expand_from(tpl: Seq<SpecMacroTokenTree>, c: Caps, i: int) -> Seq<
    SpecMacroTokenTree,
>
    decreases tpl, 1int, tpl.len() - i,
{
    if i < 0 || i >= tpl.len() {
        Seq::empty()
    } else {
        let here: Seq<SpecMacroTokenTree> = match tpl[i] {
            SpecMacroTokenTree::Token(tok, span) => seq![SpecMacroTokenTree::Token(tok, span)],
            SpecMacroTokenTree::Metavar { name, .. } => captures_of(c, name),
            SpecMacroTokenTree::Group { delimiter, trees } => seq![
                SpecMacroTokenTree::Group { delimiter, trees: expand_from(trees, c, 0) },
            ],
            SpecMacroTokenTree::Repetition { trees, separator, .. } => expand_reps(
                trees,
                separator,
                c,
                0,
                capture_count_from(trees, c, 0),
            ),
        };
        here + expand_from(tpl, c, i + 1)
    }
}

/// The expansions `k` to `count - 1` of a repetition, separated.
pub open spec fn expand_reps(
    trees: Seq<SpecMacroTokenTree>,
    sep: Option<Seq<char>>,
    c: Caps,
    k: nat,
    count: nat,
) -> Seq<SpecMacroTokenTree>
    decreases trees, 2int, count - k,
{
    if k >= count {
        Seq::empty()
    } else {
        let sep_part: Seq<SpecMacroTokenTree> = if k > 0 {
            match sep {
                Some(s) => seq![SpecMacroTokenTree::Token(separator_token(s), Span { start: 0, end: 0 })],
                None => Seq::empty(),
            }
        } else {
            Seq::empty()
        };
        sep_part + expand_from(trees, slot(c, k as int), 0) + expand_reps(trees, sep, c, k + 1, count)
    }
}

/// The expansion by the first of the arms from the `k`-th whose pattern
/// matches all of `args`.
pub open spec fn expand_by_arms(arms: Seq<SpecMacroArm>, args: Seq<SpecMacroTokenTree>, k: int) -> Option<
    Seq<SpecMacroTokenTree>,
>
    decreases arms.len() - k,
{
    if k < 0 || k >= arms.len() {
        None
    } else {
        match match_from(arms[k].pattern, args, 0, 0) {
            Some((c, caps)) => if c == args.len() {
                Some(expand_from(arms[k].template, caps, 0))
            } else {
                expand_by_arms(arms, args, k + 1)
            },
            None => expand_by_arms(arms, args, k + 1),
        }
    }
}

/// The expansion of the macro `name` on `args`; `None` when there is no such
/// macro or no arm matches.
pub open spec fn expansion(
    macros: Map<Seq<char>, SpecMacroDefinition>,
    name: Seq<char>,
    args: Seq<SpecMacroTokenTree>,
) -> Option<Seq<SpecMacroTokenTree>> {
    if macros.contains_key(name) {
        expand_by_arms(macros[name].arms, args, 0)
    } else {
        None
    }
}

/// The opening and closing tokens of a group delimiter.
pub open spec fn delimiter_pair(d: char) -> Option<(SpecToken, SpecToken)> {
    if d == '(' {
        Some((SpecToken::PAREN("("@), SpecToken::PAREN(")"@)))
    } else if d == '[' {
        Some((SpecToken::PAREN("["@), SpecToken::PAREN("]"@)))
    } else if d == '{' {
        Some((SpecToken::PAREN("{"@), SpecToken::PAREN("}"@)))
    } else {
        None
    }
}

/// The tokens of trees from the `i`-th: a group between its delimiters;
/// `None` when a variable or repetition is left, or a delimiter is unknown.
pub open spec fn flatten_from(tts: Seq<SpecMacroTokenTree>, i: int) -> Option<Seq<PTok>>
    decreases tts, tts.len() - i,
{
    if i < 0 || i >= tts.len() {
        Some(Seq::empty())
    } else {
        let here: Option<Seq<PTok>> = match tts[i] {
            SpecMacroTokenTree::Token(tok, span) => Some(seq![(tok, span)]),
            SpecMacroTokenTree::Group { delimiter, trees } => match delimiter_pair(delimiter) {
                Some((open, close)) => match flatten_from(trees, 0) {
                    Some(inner) => Some(
                        seq![(open, Span { start: 0, end: 0 })] + inner + seq![
                            (close, Span { start: 0, end: 0 }),
                        ],
                    ),
                    None => None,
                },
                None => None,
            },
            _ => None,
        };
        match here {
            None => None,
            Some(h) => match flatten_from(tts, i + 1) {
                None => None,
                Some(rest) => Some(h + rest),
            },
        }
    }
}


/// A literal operator in a macro pattern matches an input operator only when
/// both spell the same operator: `+` never matches `-`.
pub proof fn lemma_operator_tokens_match(x: Seq<char>, y: Seq<char>)
    ensures
        same_token(SpecToken::BINOP(x), SpecToken::BINOP(y)) <==> x == y,
        same_token(SpecToken::UNARY(x), SpecToken::UNARY(y)) <==> x == y,
        same_token(SpecToken::PUNCT(x), SpecToken::PUNCT(y)) <==> x == y,
        same_token(SpecToken::IDENT(x), SpecToken::IDENT(y)) <==> x == y,
{
}

/// Tokens match each other symmetrically.
pub proof fn lemma_same_token_symmetric(a: SpecToken, b: SpecToken)
    ensures
        same_token(a, b) == same_token(b, a),
{
}

/// Where a pattern holds a literal operator and the input at that place holds
/// a different operator, the pattern does not match there.
pub proof fn lemma_operator_mismatch_fails(
    pat: Seq<SpecMacroTokenTree>,
    input: Seq<SpecMacroTokenTree>,
    i: int,
    j: int,
    x: Seq<char>,
    y: Seq<char>,
    sx: Span,
    sy: Span,
)
    requires
        0 <= i < pat.len(),
        0 <= j < input.len(),
        pat[i] == SpecMacroTokenTree::Token(SpecToken::BINOP(x), sx),
        input[j] == SpecMacroTokenTree::Token(SpecToken::BINOP(y), sy),
        x != y,
    ensures
        match_from(pat, input, i, j) is None,
{
}

} // verus!
