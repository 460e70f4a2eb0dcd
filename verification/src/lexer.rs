//! The lexer: turns Lucy source text into tokens with byte spans.
use vstd::prelude::*;
use crate::span::Span;
use crate::lexer_spec::{
    SpecToken, SpecSpanned, is_ident_char, is_ident_start, is_ascii_ws, is_digit, ident_end,
    number_end, digits_value, int_literal_value, unescape, string_lit, block_comment_end,
    line_comment_end, brace_close, expr_close, keyword, unary_context, at, operator_token,
    lex_fstr, lex_step, next_index, lex, spec_tokenize, ints_fit,
};
use crate::text::{
    byte_len, byte_pos, utf8_width, char_is_alphabetic, char_is_numeric, is_alphabetic,
    is_numeric, string_from_chars, chars_of, matches_word, str_eq, char_width, copy_range,
    push_str, str_debug, str_debug_text, signed_decimal, push_signed_decimal,
    lemma_byte_len_take_next, lemma_byte_len_subrange, lemma_byte_pos_mono,
    lemma_byte_pos_positive,
};

verus! {

/// A lexical token. Literal payloads own their text; operator and
/// punctuation payloads are the fixed spellings of the operator.
///
/// A float literal keeps the text of its digits (for example `"-1.5"`); it is
/// turned into a number where floating point is available.
#[allow(non_camel_case_types)]
#[derive(Clone, Debug, PartialEq)]
pub enum Token {
    STRING(String),
    INT(i32),
    FLOAT(String),
    BINOP(&'static str),
    UNARY(&'static str),
    PAREN(&'static str),
    AND,
    BANG,
    DECLARE,
    CLASS,
    TUPLE,
    CATEGORY,
    MACRO,
    IDENT(String),
    FN,
    RETURN,
    PUNCT(&'static str),
    ARROW,
    LEFTARROW,
    FATARROW,
    END,
    IF,
    ELSE,
    ELSEIF,
    IN,
    WHILE,
    FOR,
    DO,
    PUB,
    MODULE,
    USE,
    STATIC,
    DYNAMIC,
    MATCH,
    THROW,
    AS,
    MUTABLE,
    SELF,
    SELFTYPE,
    DEFAULT,
    OPERATOR,
    TYPEOF,
    FSTRING_START,
    FSTRING_CHUNK(String),
    FSTRING_EXPR_START,
    FSTRING_EXPR_END,
    FSTRING_END,
    MACRO_REP_START,
    MACRO_VAR(String),
}

impl View for Token {
    type V = SpecToken;

    open spec fn view(&self) -> SpecToken {
        match self {
            Token::STRING(s) => SpecToken::STRING(s@),
            Token::INT(v) => SpecToken::INT(*v as int),
            Token::FLOAT(s) => SpecToken::FLOAT(s@),
            Token::BINOP(s) => SpecToken::BINOP(s@),
            Token::UNARY(s) => SpecToken::UNARY(s@),
            Token::PAREN(s) => SpecToken::PAREN(s@),
            Token::AND => SpecToken::AND,
            Token::BANG => SpecToken::BANG,
            Token::DECLARE => SpecToken::DECLARE,
            Token::CLASS => SpecToken::CLASS,
            Token::TUPLE => SpecToken::TUPLE,
            Token::CATEGORY => SpecToken::CATEGORY,
            Token::MACRO => SpecToken::MACRO,
            Token::IDENT(s) => SpecToken::IDENT(s@),
            Token::FN => SpecToken::FN,
            Token::RETURN => SpecToken::RETURN,
            Token::PUNCT(s) => SpecToken::PUNCT(s@),
            Token::ARROW => SpecToken::ARROW,
            Token::LEFTARROW => SpecToken::LEFTARROW,
            Token::FATARROW => SpecToken::FATARROW,
            Token::END => SpecToken::END,
            Token::IF => SpecToken::IF,
            Token::ELSE => SpecToken::ELSE,
            Token::ELSEIF => SpecToken::ELSEIF,
            Token::IN => SpecToken::IN,
            Token::WHILE => SpecToken::WHILE,
            Token::FOR => SpecToken::FOR,
            Token::DO => SpecToken::DO,
            Token::PUB => SpecToken::PUB,
            Token::MODULE => SpecToken::MODULE,
            Token::USE => SpecToken::USE,
            Token::STATIC => SpecToken::STATIC,
            Token::DYNAMIC => SpecToken::DYNAMIC,
            Token::MATCH => SpecToken::MATCH,
            Token::THROW => SpecToken::THROW,
            Token::AS => SpecToken::AS,
            Token::MUTABLE => SpecToken::MUTABLE,
            Token::SELF => SpecToken::SELF,
            Token::SELFTYPE => SpecToken::SELFTYPE,
            Token::DEFAULT => SpecToken::DEFAULT,
            Token::OPERATOR => SpecToken::OPERATOR,
            Token::TYPEOF => SpecToken::TYPEOF,
            Token::FSTRING_START => SpecToken::FSTRING_START,
            Token::FSTRING_CHUNK(s) => SpecToken::FSTRING_CHUNK(s@),
            Token::FSTRING_EXPR_START => SpecToken::FSTRING_EXPR_START,
            Token::FSTRING_EXPR_END => SpecToken::FSTRING_EXPR_END,
            Token::FSTRING_END => SpecToken::FSTRING_END,
            Token::MACRO_REP_START => SpecToken::MACRO_REP_START,
            Token::MACRO_VAR(s) => SpecToken::MACRO_VAR(s@),
        }
    }
}

/// A token with the span of its source text.
pub type SpannedToken = (Token, Span);

pub open spec fn spanned_view(t: SpannedToken) -> SpecSpanned {
    (t.0@, t.1.start as int, t.1.end as int)
}

pub open spec fn tokens_view(v: Seq<SpannedToken>) -> Seq<SpecSpanned> {
    v.map_values(|t: SpannedToken| spanned_view(t))
}

proof fn lemma_push_view(v: Seq<SpannedToken>, t: SpannedToken)
    ensures
        tokens_view(v.push(t)) == tokens_view(v).push(spanned_view(t)),
{
    assert(tokens_view(v.push(t)) =~= tokens_view(v).push(spanned_view(t)));
}

proof fn lemma_append_view(v: Seq<SpannedToken>, w: Seq<SpannedToken>)
    ensures
        tokens_view(v + w) == tokens_view(v) + tokens_view(w),
{
    assert(tokens_view(v + w) =~= tokens_view(v) + tokens_view(w));
}

/// Appends `tok` with span `[start, end)`.
fn push_token(tokens: &mut Vec<SpannedToken>, tok: Token, start: usize, end: usize)
    ensures
        tokens_view(final(tokens)@) == tokens_view(old(tokens)@).push(
            (tok@, start as int, end as int),
        ),
{
    let ghost t = (tok, Span { start, end });
    tokens.push((tok, Span::new(start, end)));
    proof {
        lemma_push_view(old(tokens)@, t);
    }
}

fn is_ident_char_exec(c: char) -> (r: bool)
    ensures
        r == is_ident_char(c),
{
    is_alphabetic(c) || is_numeric(c) || c == '_'
}

fn is_ident_start_exec(c: char) -> (r: bool)
    ensures
        r == is_ident_start(c),
{
    is_alphabetic(c) || c == '_'
}

fn is_digit_exec(c: char) -> (r: bool)
    ensures
        r == is_digit(c),
{
    '0' <= c && c <= '9'
}

fn at_exec(chars: &Vec<char>, k: usize, c: char) -> (r: bool)
    ensures
        r == at(chars@, k as int, c),
{
    k < chars.len() && chars[k] == c
}

/// Moves past `chars[k]`, keeping the byte offset in step.
fn step_char(chars: &Vec<char>, k: usize, pk: usize) -> (r: (usize, usize))
    requires
        k < chars@.len(),
        pk == byte_pos(chars@, k as int),
        byte_len(chars@) <= usize::MAX,
    ensures
        r.0 == k + 1,
        r.1 == byte_pos(chars@, k + 1),
        r.1 == pk + utf8_width(chars@[k as int]),
{
    proof {
        lemma_byte_len_take_next(chars@, k as int);
    }
    let n = chars.len();
    assert(k + 1 <= n);
    let c = chars[k];
    (k + 1, pk + char_width(c))
}

/// Scans the identifier characters from `j`.
fn scan_ident(chars: &Vec<char>, j: usize, pj: usize) -> (r: (usize, usize))
    requires
        j <= chars@.len(),
        pj == byte_pos(chars@, j as int),
        byte_len(chars@) <= usize::MAX,
    ensures
        r.0 == ident_end(chars@, j as int),
        r.1 == byte_pos(chars@, r.0 as int),
        j <= r.0 <= chars@.len(),
{
    let mut k = j;
    let mut pk = pj;
    while k < chars.len() && is_ident_char_exec(chars[k])
        invariant
            j <= k <= chars@.len(),
            pk == byte_pos(chars@, k as int),
            byte_len(chars@) <= usize::MAX,
            ident_end(chars@, j as int) == ident_end(chars@, k as int),
        decreases chars@.len() - k,
    {
        let (k1, p1) = step_char(chars, k, pk);
        k = k1;
        pk = p1;
    }
    (k, pk)
}

/// Scans the rest of a number literal from `j`: its end, byte end, and
/// whether it has a fraction.
fn scan_number(chars: &Vec<char>, j: usize, pj: usize) -> (r: (usize, usize, bool))
    requires
        j <= chars@.len(),
        pj == byte_pos(chars@, j as int),
        byte_len(chars@) <= usize::MAX,
    ensures
        (r.0 as int, r.2) == number_end(chars@, j as int, false),
        r.1 == byte_pos(chars@, r.0 as int),
        j <= r.0 <= chars@.len(),
{
    let mut k = j;
    let mut pk = pj;
    let mut is_float = false;
    loop
        invariant_except_break
            number_end(chars@, j as int, false) == number_end(chars@, k as int, is_float),
        invariant
            j <= k <= chars@.len(),
            pk == byte_pos(chars@, k as int),
            byte_len(chars@) <= usize::MAX,
        ensures
            j <= k <= chars@.len(),
            pk == byte_pos(chars@, k as int),
            number_end(chars@, j as int, false) == (k as int, is_float),
        decreases chars@.len() - k,
    {
        if k < chars.len() && is_digit_exec(chars[k]) {
            let (k1, p1) = step_char(chars, k, pk);
            k = k1;
            pk = p1;
        } else if k < chars.len() && k + 1 < chars.len() && chars[k] == '.' && !is_float && is_digit_exec(
            chars[k + 1],
        ) {
            is_float = true;
            let (k1, p1) = step_char(chars, k, pk);
            k = k1;
            pk = p1;
        } else {
            break;
        }
    }
    (k, pk, is_float)
}

fn unescape_exec(c: char) -> (r: char)
    ensures
        r == unescape(c),
{
    if c == 'n' {
        '\n'
    } else if c == 't' {
        '\t'
    } else if c == 'r' {
        '\r'
    } else {
        c
    }
}

/// Scans a quoted string body from `j`: its end, byte end and text.
fn scan_string(chars: &Vec<char>, j: usize, pj: usize, quote: char) -> (r: (usize, usize, Vec<char>))
    requires
        j <= chars@.len(),
        pj == byte_pos(chars@, j as int),
        byte_len(chars@) <= usize::MAX,
    ensures
        (r.0 as int, r.2@) == string_lit(chars@, j as int, quote, seq![]),
        r.1 == byte_pos(chars@, r.0 as int),
        j <= r.0 <= chars@.len(),
{
    let mut k = j;
    let mut pk = pj;
    let mut text: Vec<char> = Vec::new();
    loop
        invariant_except_break
            string_lit(chars@, j as int, quote, seq![]) == string_lit(
                chars@,
                k as int,
                quote,
                text@,
            ),
        invariant
            j <= k <= chars@.len(),
            pk == byte_pos(chars@, k as int),
            byte_len(chars@) <= usize::MAX,
        ensures
            j <= k <= chars@.len(),
            pk == byte_pos(chars@, k as int),
            string_lit(chars@, j as int, quote, seq![]) == (k as int, text@),
        decreases chars@.len() - k,
    {
        if k >= chars.len() {
            break;
        }
        let ch = chars[k];
        if ch == '\\' {
            if k + 1 < chars.len() {
                text.push(unescape_exec(chars[k + 1]));
                let (k1, p1) = step_char(chars, k, pk);
                let (k2, p2) = step_char(chars, k1, p1);
                k = k2;
                pk = p2;
            } else {
                let (k1, p1) = step_char(chars, k, pk);
                k = k1;
                pk = p1;
                break;
            }
        } else if ch == quote {
            let (k1, p1) = step_char(chars, k, pk);
            k = k1;
            pk = p1;
            break;
        } else {
            text.push(ch);
            let (k1, p1) = step_char(chars, k, pk);
            k = k1;
            pk = p1;
        }
    }
    (k, pk, text)
}

/// Skips a block comment body from `j`.
fn skip_block_comment(chars: &Vec<char>, j: usize) -> (r: usize)
    requires
        j <= chars@.len(),
    ensures
        r == block_comment_end(chars@, j as int),
        j <= r <= chars@.len(),
{
    let mut k = j;
    loop
        invariant_except_break
            block_comment_end(chars@, j as int) == block_comment_end(chars@, k as int),
        invariant
            j <= k <= chars@.len(),
        ensures
            j <= k <= chars@.len(),
            block_comment_end(chars@, j as int) == k,
        decreases chars@.len() - k,
    {
        if k >= chars.len() {
            break;
        }
        if chars[k] == ']' && k + 1 < chars.len() && chars[k + 1] == ']' {
            k = k + 2;
            break;
        }
        k = k + 1;
    }
    k
}

/// Skips a line comment body from `j`, through the line feed.
fn skip_line_comment(chars: &Vec<char>, j: usize) -> (r: usize)
    requires
        j <= chars@.len(),
    ensures
        r == line_comment_end(chars@, j as int),
        j <= r <= chars@.len(),
{
    let mut k = j;
    loop
        invariant_except_break
            line_comment_end(chars@, j as int) == line_comment_end(chars@, k as int),
        invariant
            j <= k <= chars@.len(),
        ensures
            j <= k <= chars@.len(),
            line_comment_end(chars@, j as int) == k,
        decreases chars@.len() - k,
    {
        if k >= chars.len() {
            break;
        }
        if chars[k] == '\n' {
            k = k + 1;
            break;
        }
        k = k + 1;
    }
    k
}


pub open spec fn operator_view(r: Option<(Token, usize)>) -> Option<(SpecToken, int)> {
    match r {
        Some((t, e)) => Some((t@, e as int)),
        None => None,
    }
}

/// The operator or punctuation token at `i`, with the index past it.
fn operator_at(chars: &Vec<char>, i: usize, unary: bool) -> (r: Option<(Token, usize)>)
    requires
        i < chars@.len(),
    ensures
        operator_view(r) == operator_token(chars@, i as int, unary),
{
    let n = chars.len();
    let c = chars[i];
    if c == '+' {
        if at_exec(chars, i + 1, '=') {
            Some((Token::BINOP("+="), i + 2))
        } else {
            Some((Token::BINOP("+"), i + 1))
        }
    } else if c == '-' {
        if at_exec(chars, i + 1, '>') {
            Some((Token::ARROW, i + 2))
        } else if at_exec(chars, i + 1, '=') {
            Some((Token::BINOP("-="), i + 2))
        } else if unary {
            Some((Token::UNARY("-"), i + 1))
        } else {
            Some((Token::BINOP("-"), i + 1))
        }
    } else if c == '!' {
        if at_exec(chars, i + 1, '=') {
            Some((Token::BINOP("!="), i + 2))
        } else {
            Some((Token::BANG, i + 1))
        }
    } else if c == '*' {
        if at_exec(chars, i + 1, '=') {
            Some((Token::BINOP("*="), i + 2))
        } else if at_exec(chars, i + 1, '>') {
            Some((Token::BINOP("*>"), i + 2))
        } else {
            Some((Token::BINOP("*"), i + 1))
        }
    } else if c == '/' {
        if at_exec(chars, i + 1, '=') {
            Some((Token::BINOP("/="), i + 2))
        } else {
            Some((Token::BINOP("/"), i + 1))
        }
    } else if c == '^' {
        if at_exec(chars, i + 1, '=') {
            Some((Token::BINOP("^="), i + 2))
        } else {
            Some((Token::BINOP("^"), i + 1))
        }
    } else if c == '%' {
        if at_exec(chars, i + 1, '=') {
            Some((Token::BINOP("%="), i + 2))
        } else {
            Some((Token::BINOP("%"), i + 1))
        }
    } else if c == '.' {
        if at_exec(chars, i + 1, '.') {
            Some((Token::BINOP(".."), i + 2))
        } else {
            Some((Token::PUNCT("."), i + 1))
        }
    } else if c == ',' {
        Some((Token::PUNCT(","), i + 1))
    } else if c == ':' {
        if at_exec(chars, i + 1, ':') {
            Some((Token::BINOP("::"), i + 2))
        } else {
            Some((Token::PUNCT(":"), i + 1))
        }
    } else if c == '=' {
        if at_exec(chars, i + 1, '=') {
            Some((Token::BINOP("=="), i + 2))
        } else if at_exec(chars, i + 1, '>') {
            Some((Token::FATARROW, i + 2))
        } else {
            Some((Token::BINOP("="), i + 1))
        }
    } else if c == '(' {
        Some((Token::PAREN("("), i + 1))
    } else if c == ')' {
        Some((Token::PAREN(")"), i + 1))
    } else if c == '{' {
        Some((Token::PAREN("{"), i + 1))
    } else if c == '}' {
        Some((Token::PAREN("}"), i + 1))
    } else if c == '[' {
        Some((Token::PAREN("["), i + 1))
    } else if c == ']' {
        Some((Token::PAREN("]"), i + 1))
    } else if c == '<' {
        if at_exec(chars, i + 1, '<') {
            if at_exec(chars, i + 2, '=') {
                Some((Token::BINOP("<<="), i + 3))
            } else {
                Some((Token::BINOP("<<"), i + 2))
            }
        } else if at_exec(chars, i + 1, '=') {
            Some((Token::BINOP("<="), i + 2))
        } else if at_exec(chars, i + 1, '-') {
            Some((Token::LEFTARROW, i + 2))
        } else {
            Some((Token::BINOP("<"), i + 1))
        }
    } else if c == '>' {
        if at_exec(chars, i + 1, '>') {
            if at_exec(chars, i + 2, '=') {
                Some((Token::BINOP(">>="), i + 3))
            } else {
                Some((Token::BINOP(">>"), i + 2))
            }
        } else if at_exec(chars, i + 1, '=') {
            Some((Token::BINOP(">="), i + 2))
        } else {
            Some((Token::BINOP(">"), i + 1))
        }
    } else if c == '&' {
        if at_exec(chars, i + 1, '&') {
            if at_exec(chars, i + 2, '=') {
                Some((Token::BINOP("&&="), i + 3))
            } else {
                Some((Token::BINOP("&&"), i + 2))
            }
        } else if at_exec(chars, i + 1, '=') {
            Some((Token::BINOP("&="), i + 2))
        } else {
            Some((Token::AND, i + 1))
        }
    } else if c == '|' {
        if at_exec(chars, i + 1, '|') {
            if at_exec(chars, i + 2, '=') {
                Some((Token::BINOP("||="), i + 3))
            } else {
                Some((Token::BINOP("||"), i + 2))
            }
        } else if at_exec(chars, i + 1, '=') {
            Some((Token::BINOP("|="), i + 2))
        } else {
            Some((Token::BINOP("|"), i + 1))
        }
    } else {
        None
    }
}

pub open spec fn keyword_view(r: Option<Token>) -> Option<SpecToken> {
    match r {
        Some(t) => Some(t@),
        None => None,
    }
}

/// The keyword token that a word stands for, if any.
fn keyword_token(w: &Vec<char>) -> (r: Option<Token>)
    ensures
        keyword_view(r) == keyword(w@),
{
    if matches_word(w, "let") {
        Some(Token::DECLARE)
    } else if matches_word(w, "func") {
        Some(Token::FN)
    } else if matches_word(w, "return") {
        Some(Token::RETURN)
    } else if matches_word(w, "class") {
        Some(Token::CLASS)
    } else if matches_word(w, "if") {
        Some(Token::IF)
    } else if matches_word(w, "else") {
        Some(Token::ELSE)
    } else if matches_word(w, "elseif") {
        Some(Token::ELSEIF)
    } else if matches_word(w, "while") {
        Some(Token::WHILE)
    } else if matches_word(w, "for") {
        Some(Token::FOR)
    } else if matches_word(w, "do") {
        Some(Token::DO)
    } else if matches_word(w, "end") {
        Some(Token::END)
    } else if matches_word(w, "in") {
        Some(Token::IN)
    } else if matches_word(w, "pub") {
        Some(Token::PUB)
    } else if matches_word(w, "module") {
        Some(Token::MODULE)
    } else if matches_word(w, "dynamic") {
        Some(Token::DYNAMIC)
    } else if matches_word(w, "static") {
        Some(Token::STATIC)
    } else if matches_word(w, "use") {
        Some(Token::USE)
    } else if matches_word(w, "match") {
        Some(Token::MATCH)
    } else if matches_word(w, "mut") {
        Some(Token::MUTABLE)
    } else if matches_word(w, "operator") {
        Some(Token::OPERATOR)
    } else if matches_word(w, "as") {
        Some(Token::AS)
    } else if matches_word(w, "self") {
        Some(Token::SELF)
    } else if matches_word(w, "Self") {
        Some(Token::SELFTYPE)
    } else if matches_word(w, "typeof") {
        Some(Token::TYPEOF)
    } else if matches_word(w, "throw") {
        Some(Token::THROW)
    } else if matches_word(w, "default") {
        Some(Token::DEFAULT)
    } else if matches_word(w, "macro") {
        Some(Token::MACRO)
    } else if matches_word(w, "tuple") {
        Some(Token::TUPLE)
    } else if matches_word(w, "category") {
        Some(Token::CATEGORY)
    } else {
        None
    }
}

proof fn lemma_number_end(chars: Seq<char>, j: int, f: bool)
    requires
        0 <= j <= chars.len(),
    ensures
        j <= number_end(chars, j, f).0 <= chars.len(),
        f ==> number_end(chars, j, f).1,
        !number_end(chars, j, f).1 ==> forall|k: int|
            j <= k < number_end(chars, j, f).0 ==> is_digit(#[trigger] chars[k]),
    decreases chars.len() - j,
{
    if 0 <= j < chars.len() && is_digit(chars[j]) {
        lemma_number_end(chars, j + 1, f);
    } else if 0 <= j && j + 1 < chars.len() && chars[j] == '.' && !f && is_digit(chars[j + 1]) {
        lemma_number_end(chars, j + 1, true);
    }
}

proof fn lemma_digits_nonneg(s: Seq<char>)
    requires
        forall|k: int| 0 <= k < s.len() ==> is_digit(#[trigger] s[k]),
    ensures
        digits_value(s) >= 0,
    decreases s.len(),
{
    if s.len() > 0 {
        assert(is_digit(s[s.len() - 1]));
        lemma_digits_nonneg(s.drop_last());
    }
}

/// The value of a prefix of a digit string is at most that of the string.
proof fn lemma_digits_prefix(s: Seq<char>, m: int)
    requires
        0 <= m <= s.len(),
        forall|k: int| 0 <= k < s.len() ==> is_digit(#[trigger] s[k]),
    ensures
        0 <= digits_value(s.take(m)) <= digits_value(s),
    decreases s.len(),
{
    lemma_digits_nonneg(s);
    if m == s.len() {
        assert(s.take(m) =~= s);
    } else {
        assert(is_digit(s[s.len() - 1]));
        lemma_digits_prefix(s.drop_last(), m);
        lemma_digits_nonneg(s.drop_last());
        assert(s.drop_last().take(m) =~= s.take(m));
    }
}

/// The value of the integer literal `chars[a..b]`, if it fits in an `i32`.
fn int_literal(chars: &Vec<char>, a: usize, b: usize) -> (v: Option<i32>)
    requires
        a < b <= chars@.len(),
        is_digit(chars@[a as int]) || chars@[a as int] == '-',
        forall|k: int| a < k < b ==> is_digit(#[trigger] chars@[k]),
    ensures
        match v {
            Some(x) => x == int_literal_value(chars@.subrange(a as int, b as int)),
            None => !(i32::MIN <= int_literal_value(chars@.subrange(a as int, b as int))
                <= i32::MAX),
        },
{
    let neg = chars[a] == '-';
    let d0 = if neg {
        a + 1
    } else {
        a
    };
    let ghost text = chars@.subrange(a as int, b as int);
    let ghost digits = chars@.subrange(d0 as int, b as int);
    proof {
        if neg {
            assert(text.drop_first() =~= digits);
        } else {
            assert(text =~= digits);
        }
        assert forall|k: int| 0 <= k < digits.len() implies is_digit(#[trigger] digits[k]) by {
            assert(digits[k] == chars@[d0 + k]);
        }
        lemma_digits_nonneg(digits);
    }
    let mut v: i64 = 0;
    let mut k = d0;
    while k < b
        invariant
            a <= d0 <= k <= b <= chars@.len(),
            digits == chars@.subrange(d0 as int, b as int),
            forall|m: int| 0 <= m < digits.len() ==> is_digit(#[trigger] digits[m]),
            0 <= v <= 0x8000_0000,
            v == digits_value(chars@.subrange(d0 as int, k as int)),
            text == chars@.subrange(a as int, b as int),
            neg == (chars@[a as int] == '-'),
            neg ==> text.drop_first() == digits,
            !neg ==> text == digits,
        decreases b - k,
    {
        let ghost before = chars@.subrange(d0 as int, k as int);
        let c = chars[k];
        assert(digits[k - d0] == c);
        assert(is_digit(c));
        let d = (c as u32 - '0' as u32) as i64;
        proof {
            let after = chars@.subrange(d0 as int, k + 1);
            assert(after.drop_last() =~= before);
            assert(after =~= digits.take(k + 1 - d0));
            assert(digits[k - d0] == c);
            lemma_digits_prefix(digits, k + 1 - d0);
        }
        v = v * 10 + d;
        k = k + 1;
        if v > 0x8000_0000 {
            return None;
        }
    }
    proof {
        assert(chars@.subrange(d0 as int, b as int) =~= digits);
    }
    if neg {
        Some((0 - v) as i32)
    } else if v > 0x7fff_ffff {
        None
    } else {
        Some(v as i32)
    }
}

/// Finds the end of an embedded f-string expression starting at `j`.
fn scan_expr_close(chars: &Vec<char>, j: usize, pj: usize) -> (r: (usize, usize))
    requires
        1 <= j <= chars@.len(),
        pj == byte_pos(chars@, j as int),
        byte_len(chars@) <= usize::MAX,
    ensures
        r.0 == expr_close(chars@, j as int),
        r.1 == byte_pos(chars@, r.0 as int),
        j <= r.0 <= chars@.len(),
{
    let n = chars.len();
    let mut k = j;
    let mut pk = pj;
    let mut depth: usize = 1;
    loop
        invariant_except_break
            brace_close(chars@, j as int, 1) == brace_close(chars@, k as int, depth as nat),
        invariant
            n == chars@.len(),
            1 <= j <= k <= n,
            1 <= depth <= k - j + 1,
            pk == byte_pos(chars@, k as int),
            byte_len(chars@) <= usize::MAX,
        ensures
            j <= k <= n,
            pk == byte_pos(chars@, k as int),
            brace_close(chars@, j as int, 1) == k,
        decreases n - k,
    {
        if k >= n {
            break;
        }
        let ch = chars[k];
        if ch == '{' {
            depth = depth + 1;
        } else if ch == '}' {
            if depth <= 1 {
                break;
            }
            depth = depth - 1;
        }
        let (k1, p1) = step_char(chars, k, pk);
        k = k1;
        pk = p1;
    }
    (k, pk)
}

/// Whether a `-` read now is a unary minus.
fn unary_context_exec(tokens: &Vec<SpannedToken>) -> (r: bool)
    ensures
        r == unary_context(tokens_view(tokens@)),
{
    let n = tokens.len();
    if n == 0 {
        return true;
    }
    match &tokens[n - 1].0 {
        Token::BINOP(_) => true,
        Token::DECLARE => true,
        Token::PAREN(p) => str_eq(p, "(") || str_eq(p, "{"),
        Token::PUNCT(p) => str_eq(p, ","),
        _ => false,
    }
}

proof fn lemma_fstr_extends(
    chars: Seq<char>,
    j: int,
    chunk: Seq<char>,
    chunk_start: int,
    acc: Seq<SpecSpanned>,
)
    ensures
        acc.is_prefix_of(lex_fstr(chars, j, chunk, chunk_start, acc).1),
        j <= lex_fstr(chars, j, chunk, chunk_start, acc).0,
    decreases chars.len() - j,
{
    if 0 <= j < chars.len() {
        let ch = chars[j];
        let with_chunk = if chunk.len() > 0 {
            acc.push(
                (
                    SpecToken::FSTRING_CHUNK(chunk),
                    byte_pos(chars, chunk_start),
                    byte_pos(chars, j + 1),
                ),
            )
        } else {
            acc
        };
        if ch == '{' {
            let opened = with_chunk.push(
                (SpecToken::FSTRING_EXPR_START, byte_pos(chars, j), byte_pos(chars, j + 1)),
            );
            let close = expr_close(chars, j + 1);
            let after = if close < chars.len() {
                close + 1
            } else {
                close
            };
            let inner = lex(chars.subrange(j + 1, close), 0, seq![]);
            let closed = (opened + inner).push(
                (SpecToken::FSTRING_EXPR_END, byte_pos(chars, after) - 1, byte_pos(chars, after)),
            );
            lemma_fstr_extends(chars, after, seq![], after, closed);
            assert(acc.is_prefix_of(closed));
        } else if ch == '\\' {
            if j + 1 < chars.len() {
                lemma_fstr_extends(chars, j + 2, chunk.push(unescape(chars[j + 1])), chunk_start, acc);
            }
        } else if ch != '`' {
            lemma_fstr_extends(chars, j + 1, chunk.push(ch), chunk_start, acc);
        }
    }
}

proof fn lemma_step_extends(chars: Seq<char>, i: int, acc: Seq<SpecSpanned>)
    requires
        0 <= i < chars.len(),
    ensures
        acc.is_prefix_of(lex_step(chars, i, acc).1),
{
    let c = chars[i];
    if c == '`' {
        let start = byte_pos(chars, i);
        let acc1 = acc.push((SpecToken::FSTRING_START, start, byte_pos(chars, i + 1)));
        lemma_fstr_extends(chars, i + 1, seq![], i + 1, acc1);
    }
}

proof fn lemma_lex_extends(chars: Seq<char>, i: int, acc: Seq<SpecSpanned>)
    ensures
        acc.is_prefix_of(lex(chars, i, acc)),
    decreases chars.len() - i,
{
    if 0 <= i < chars.len() {
        let (next, acc2) = lex_step(chars, i, acc);
        lemma_step_extends(chars, i, acc);
        lemma_lex_extends(chars, next_index(i, next, chars.len() as int), acc2);
    }
}

proof fn lemma_fit_prefix(a: Seq<SpecSpanned>, b: Seq<SpecSpanned>)
    requires
        a.is_prefix_of(b),
        ints_fit(b),
    ensures
        ints_fit(a),
{
    assert forall|k: int| 0 <= k < a.len() implies ((#[trigger] a[k]).0 matches SpecToken::INT(v)
        ==> i32::MIN <= v <= i32::MAX) by {
        assert(a[k] == b[k]);
    }
}

proof fn lemma_fit_suffix(a: Seq<SpecSpanned>, b: Seq<SpecSpanned>)
    requires
        ints_fit(a + b),
    ensures
        ints_fit(b),
{
    assert forall|k: int| 0 <= k < b.len() implies ((#[trigger] b[k]).0 matches SpecToken::INT(v)
        ==> i32::MIN <= v <= i32::MAX) by {
        assert(b[k] == (a + b)[a.len() + k]);
    }
}

proof fn lemma_fit_last(b: Seq<SpecSpanned>)
    requires
        b.len() >= 1,
        ints_fit(b.drop_last()),
        b.last().0 matches SpecToken::INT(v) ==> i32::MIN <= v <= i32::MAX,
    ensures
        ints_fit(b),
{
    assert forall|k: int| 0 <= k < b.len() implies ((#[trigger] b[k]).0 matches SpecToken::INT(v)
        ==> i32::MIN <= v <= i32::MAX) by {
        if k < b.len() - 1 {
            assert(b[k] == b.drop_last()[k]);
        }
    }
}

proof fn lemma_fit_concat(a: Seq<SpecSpanned>, b: Seq<SpecSpanned>)
    requires
        ints_fit(a),
        ints_fit(b),
    ensures
        ints_fit(a + b),
{
    assert forall|k: int| 0 <= k < (a + b).len() implies ((#[trigger] (a + b)[k]).0 matches SpecToken::INT(v)
        ==> i32::MIN <= v <= i32::MAX) by {
        if k < a.len() {
            assert((a + b)[k] == a[k]);
        } else {
            assert((a + b)[k] == b[k - a.len()]);
        }
    }
}

/// Reads the body of an f-string from `j` (just past the opening backtick),
/// appending its tokens; returns the index and byte offset past it, or
/// `None` where an integer literal in it does not fit in an `i32`.
fn lex_fstring(chars: &Vec<char>, j: usize, pj: usize, tokens: &mut Vec<SpannedToken>) -> (r:
    Option<(usize, usize)>)
    requires
        1 <= j <= chars@.len(),
        pj == byte_pos(chars@, j as int),
        byte_len(chars@) <= usize::MAX,
        ints_fit(tokens_view(old(tokens)@)),
    ensures
        r is Some <==> ints_fit(
            lex_fstr(chars@, j as int, seq![], j as int, tokens_view(old(tokens)@)).1,
        ),
        match r {
            Some((e, pe)) => {
                &&& (e as int, tokens_view(final(tokens)@)) == lex_fstr(
                    chars@,
                    j as int,
                    seq![],
                    j as int,
                    tokens_view(old(tokens)@),
                )
                &&& pe == byte_pos(chars@, e as int)
                &&& j <= e <= chars@.len()
            },
            None => true,
        },
    decreases chars@.len(), 0int,
{
    let ghost goal = lex_fstr(chars@, j as int, seq![], j as int, tokens_view(old(tokens)@));
    let n = chars.len();
    let mut k = j;
    let mut pk = pj;
    let mut chunk: Vec<char> = Vec::new();
    let mut cs = j;
    let mut pcs = pj;
    loop
        invariant_except_break
            lex_fstr(chars@, k as int, chunk@, cs as int, tokens_view(tokens@)) == goal,
        invariant
            n == chars@.len(),
            1 <= j <= k <= n,
            cs <= k,
            pk == byte_pos(chars@, k as int),
            pcs == byte_pos(chars@, cs as int),
            byte_len(chars@) <= usize::MAX,
            ints_fit(tokens_view(tokens@)),
            goal == lex_fstr(chars@, j as int, seq![], j as int, tokens_view(old(tokens)@)),
        ensures
            j <= k <= n,
            pk == byte_pos(chars@, k as int),
            goal == (k as int, tokens_view(tokens@)),
        decreases n - k,
    {
        if k >= n {
            break;
        }
        let ch = chars[k];
        let ghost acc = tokens_view(tokens@);
        if ch == '`' {
            let (k1, p1) = step_char(chars, k, pk);
            if chunk.len() > 0 {
                let text = string_from_chars(&chunk);
                push_token(tokens, Token::FSTRING_CHUNK(text), pcs, p1);
                proof {
                    lemma_fit_last(tokens_view(tokens@));
                }
            }
            push_token(tokens, Token::FSTRING_END, p1 - 1, p1);
            proof {
                lemma_fit_last(tokens_view(tokens@));
            }
            k = k1;
            pk = p1;
            break;
        } else if ch == '{' {
            let (k1, p1) = step_char(chars, k, pk);
            if chunk.len() > 0 {
                let text = string_from_chars(&chunk);
                push_token(tokens, Token::FSTRING_CHUNK(text), pcs, p1);
                proof {
                    lemma_fit_last(tokens_view(tokens@));
                }
            }
            chunk = Vec::new();
            push_token(tokens, Token::FSTRING_EXPR_START, pk, p1);
            proof {
                lemma_fit_last(tokens_view(tokens@));
            }
            let ghost opened = tokens_view(tokens@);
            let (close, pclose) = scan_expr_close(chars, k1, p1);
            let sub = copy_range(chars, k1, close);
            let ghost inner_spec = lex(sub@, 0, seq![]);
            let ghost after_spec: int = if close < n {
                close + 1
            } else {
                close as int
            };
            let ghost closed = (opened + inner_spec).push(
                (
                    SpecToken::FSTRING_EXPR_END,
                    byte_pos(chars@, after_spec) - 1,
                    byte_pos(chars@, after_spec),
                ),
            );
            proof {
                lemma_byte_len_subrange(chars@, k1 as int, close as int);
                lemma_fstr_extends(chars@, after_spec, seq![], after_spec, closed);
                if ints_fit(goal.1) {
                    lemma_fit_prefix(closed, goal.1);
                    lemma_fit_prefix(opened + inner_spec, closed);
                    lemma_fit_suffix(opened, inner_spec);
                }
            }
            let mut inner = match lex_chars_checked(&sub) {
                Some(v) => v,
                None => {
                    return None;
                },
            };
            proof {
                lemma_fit_concat(opened, inner_spec);
            }
            let ghost before_append = tokens@;
            let ghost inner_tokens = inner@;
            tokens.append(&mut inner);
            proof {
                lemma_append_view(before_append, inner_tokens);
            }
            let (after, pafter) = if close < n {
                step_char(chars, close, pclose)
            } else {
                (close, pclose)
            };
            proof {
                lemma_byte_len_subrange(chars@, k1 as int, after as int);
                if pafter == 0 {
                    lemma_byte_len_take_next(chars@, k as int);
                    assert(byte_pos(chars@, k1 as int) >= 1);
                    assert(false);
                }
            }
            push_token(tokens, Token::FSTRING_EXPR_END, pafter - 1, pafter);
            proof {
                lemma_fit_last(tokens_view(tokens@));
            }
            k = after;
            pk = pafter;
            cs = after;
            pcs = pafter;
        } else if ch == '\\' {
            if k + 1 < n {
                chunk.push(unescape_exec(chars[k + 1]));
                let (k1, p1) = step_char(chars, k, pk);
                let (k2, p2) = step_char(chars, k1, p1);
                k = k2;
                pk = p2;
            } else {
                let (k1, p1) = step_char(chars, k, pk);
                k = k1;
                pk = p1;
                break;
            }
        } else {
            chunk.push(ch);
            let (k1, p1) = step_char(chars, k, pk);
            k = k1;
            pk = p1;
        }
    }
    Some((k, pk))
}

/// Reads what starts at index `i`, appending its tokens; returns the index
/// and byte offset past it, or `None` where an integer literal read does not
/// fit in an `i32`.
fn lex_one(chars: &Vec<char>, i: usize, pi: usize, tokens: &mut Vec<SpannedToken>) -> (r: Option<
    (usize, usize),
>)
    requires
        i < chars@.len(),
        pi == byte_pos(chars@, i as int),
        byte_len(chars@) <= usize::MAX,
        ints_fit(tokens_view(old(tokens)@)),
    ensures
        r is Some <==> ints_fit(lex_step(chars@, i as int, tokens_view(old(tokens)@)).1),
        match r {
            Some((e, pe)) => {
                &&& (e as int, tokens_view(final(tokens)@)) == lex_step(
                    chars@,
                    i as int,
                    tokens_view(old(tokens)@),
                )
                &&& pe == byte_pos(chars@, e as int)
                &&& i < e <= chars@.len()
            },
            None => true,
        },
    decreases chars@.len(), 1int,
{
    let n = chars.len();
    let c = chars[i];
    let ghost acc = tokens_view(old(tokens)@);
    let (i1, p1) = step_char(chars, i, pi);
    if c == ' ' || c == '\t' || c == '\n' || c == '\x0C' || c == '\r' {
        Some((i1, p1))
    } else if c == '"' || c == '\'' {
        let (e, pe, text) = scan_string(chars, i1, p1, c);
        let s = string_from_chars(&text);
        push_token(tokens, Token::STRING(s), pi, pe);
        proof {
            lemma_fit_last(tokens_view(tokens@));
        }
        Some((e, pe))
    } else if is_ident_start_exec(c) {
        let (e, pe) = scan_ident(chars, i1, p1);
        let word = copy_range(chars, i, e);
        let tok = match keyword_token(&word) {
            Some(k) => k,
            None => Token::IDENT(string_from_chars(&word)),
        };
        push_token(tokens, tok, pi, pe);
        proof {
            lemma_fit_last(tokens_view(tokens@));
        }
        Some((e, pe))
    } else if is_digit_exec(c) || (c == '-' && i1 < n && is_digit_exec(chars[i1])) {
        let (e, pe, is_float) = scan_number(chars, i1, p1);
        proof {
            lemma_number_end(chars@, i1 as int, false);
        }
        let tok = if is_float {
            let text = copy_range(chars, i, e);
            Token::FLOAT(string_from_chars(&text))
        } else {
            let ghost text = chars@.subrange(i as int, e as int);
            let ghost t = (SpecToken::INT(int_literal_value(text)), pi as int, pe as int);
            proof {
                assert(lex_step(chars@, i as int, acc).1 == acc.push(t));
                assert(lex_step(chars@, i as int, acc).1[acc.len() as int] == t);
            }
            match int_literal(chars, i, e) {
                Some(v) => Token::INT(v),
                None => {
                    return None;
                },
            }
        };
        push_token(tokens, tok, pi, pe);
        proof {
            lemma_fit_last(tokens_view(tokens@));
        }
        Some((e, pe))
    } else if c == '`' {
        push_token(tokens, Token::FSTRING_START, pi, p1);
        proof {
            lemma_fit_last(tokens_view(tokens@));
        }
        lex_fstring(chars, i1, p1, tokens)
    } else if c == '-' && at_exec(chars, i1, '-') {
        let e = if at_exec(chars, i + 2, '[') && at_exec(chars, i + 3, '[') {
            skip_block_comment(chars, i + 4)
        } else if at_exec(chars, i + 2, '[') {
            skip_line_comment(chars, i + 3)
        } else {
            skip_line_comment(chars, i + 2)
        };
        let (_, pe) = scan_bytes(chars, i1, p1, e);
        Some((e, pe))
    } else if c == '$' {
        if at_exec(chars, i1, '(') {
            let (i2, p2) = step_char(chars, i1, p1);
            push_token(tokens, Token::MACRO_REP_START, pi, p2);
            proof {
                lemma_fit_last(tokens_view(tokens@));
            }
            Some((i2, p2))
        } else if i1 < n && is_ident_start_exec(chars[i1]) {
            let (e, pe) = scan_ident(chars, i1, p1);
            let name = copy_range(chars, i1, e);
            push_token(tokens, Token::MACRO_VAR(string_from_chars(&name)), pi, pe);
            proof {
                lemma_fit_last(tokens_view(tokens@));
            }
            Some((e, pe))
        } else {
            Some((i1, p1))
        }
    } else {
        let unary = unary_context_exec(tokens);
        match operator_at(chars, i, unary) {
            Some((tok, e)) => {
                let (_, pe) = scan_bytes(chars, i1, p1, e);
                push_token(tokens, tok, pi, pe);
                proof {
                    lemma_fit_last(tokens_view(tokens@));
                }
                Some((e, pe))
            },
            None => Some((i1, p1)),
        }
    }
}

/// The byte offset of index `e`, counted on from index `k`.
fn scan_bytes(chars: &Vec<char>, k: usize, pk: usize, e: usize) -> (r: (usize, usize))
    requires
        k <= e <= chars@.len(),
        pk == byte_pos(chars@, k as int),
        byte_len(chars@) <= usize::MAX,
    ensures
        r.0 == e,
        r.1 == byte_pos(chars@, e as int),
{
    let mut m = k;
    let mut pm = pk;
    while m < e
        invariant
            k <= m <= e <= chars@.len(),
            pm == byte_pos(chars@, m as int),
            byte_len(chars@) <= usize::MAX,
        decreases e - m,
    {
        let (m1, p1) = step_char(chars, m, pm);
        m = m1;
        pm = p1;
    }
    (m, pm)
}

/// The tokens of `chars`, or `None` where an integer literal among them does
/// not fit in an `i32`.
pub(crate) fn lex_chars_checked(chars: &Vec<char>) -> (r: Option<Vec<SpannedToken>>)
    requires
        byte_len(chars@) <= usize::MAX,
    ensures
        r is Some <==> ints_fit(spec_tokenize(chars@)),
        match r {
            Some(v) => tokens_view(v@) == spec_tokenize(chars@),
            None => true,
        },
    decreases chars@.len(), 2int,
{
    let n = chars.len();
    let mut tokens: Vec<SpannedToken> = Vec::new();
    let mut i: usize = 0;
    let mut pos: usize = 0;
    proof {
        assert(tokens_view(tokens@) =~= seq![]);
        assert(chars@.take(0) =~= seq![]);
    }
    while i < n
        invariant
            n == chars@.len(),
            i <= n,
            pos == byte_pos(chars@, i as int),
            byte_len(chars@) <= usize::MAX,
            ints_fit(tokens_view(tokens@)),
            lex(chars@, i as int, tokens_view(tokens@)) == spec_tokenize(chars@),
        decreases n - i,
    {
        let ghost acc = tokens_view(tokens@);
        proof {
            let (next, acc2) = lex_step(chars@, i as int, acc);
            lemma_lex_extends(chars@, next_index(i as int, next, n as int), acc2);
        }
        match lex_one(chars, i, pos, &mut tokens) {
            Some((i1, p1)) => {
                i = i1;
                pos = p1;
            },
            None => {
                proof {
                    let (next, acc2) = lex_step(chars@, i as int, acc);
                    if ints_fit(spec_tokenize(chars@)) {
                        lemma_fit_prefix(acc2, spec_tokenize(chars@));
                    }
                }
                return None;
            },
        }
    }
    Some(tokens)
}

/// The tokens of `chars`.
pub(crate) fn lex_chars(chars: &Vec<char>) -> (r: Vec<SpannedToken>)
    requires
        byte_len(chars@) <= usize::MAX,
        ints_fit(spec_tokenize(chars@)),
    ensures
        tokens_view(r@) == spec_tokenize(chars@),
{
    match lex_chars_checked(chars) {
        Some(v) => v,
        None => {
            proof {
                assert(false);
            }
            Vec::new()
        },
    }
}

/// Splits Lucy source text into tokens, each with the byte span of its text.
///
/// Whitespace, comments (`-- line`, `--[[ block ]]`) and unknown characters
/// produce no token. Inside an f-string, each `{expr}` is tokenized on its own,
/// so the spans of its tokens count from the start of the expression's text.
pub fn tokenize(src: String) -> (r: Vec<SpannedToken>)
    requires
        byte_len(src@) <= usize::MAX,
        ints_fit(spec_tokenize(src@)),
    ensures
        tokens_view(r@) == spec_tokenize(src@),
{
    let chars = chars_of(src.as_str());
    lex_chars(&chars)
}

/// The tokens of `src` as `tokenize` gives them, or `None` exactly where an
/// integer literal in it does not fit in an `i32` (where `tokenize` cannot go
/// through).
pub fn tokenize_checked(src: String) -> (r: Option<Vec<SpannedToken>>)
    requires
        byte_len(src@) <= usize::MAX,
    ensures
        r is Some <==> ints_fit(spec_tokenize(src@)),
        match r {
            Some(v) => tokens_view(v@) == spec_tokenize(src@),
            None => true,
        },
{
    let chars = chars_of(src.as_str());
    lex_chars_checked(&chars)
}

/// Every span in `toks` starts at or before its end, and ends by `bound`.
pub open spec fn spans_within(toks: Seq<SpecSpanned>, bound: int) -> bool {
    forall|k: int| 0 <= k < toks.len() ==> 0 <= (#[trigger] toks[k]).1 <= toks[k].2 <= bound
}

proof fn lemma_spans_push(toks: Seq<SpecSpanned>, t: SpecSpanned, bound: int)
    requires
        spans_within(toks, bound),
        0 <= t.1 <= t.2 <= bound,
    ensures
        spans_within(toks.push(t), bound),
{
    assert forall|k: int| 0 <= k < toks.push(t).len() implies 0 <= (#[trigger] toks.push(t)[k]).1
        <= toks.push(t)[k].2 <= bound by {
        if k < toks.len() {
            assert(toks.push(t)[k] == toks[k]);
        }
    }
}

proof fn lemma_spans_concat(a: Seq<SpecSpanned>, b: Seq<SpecSpanned>, bound: int, small: int)
    requires
        spans_within(a, bound),
        spans_within(b, small),
        small <= bound,
    ensures
        spans_within(a + b, bound),
{
    assert forall|k: int| 0 <= k < (a + b).len() implies 0 <= (#[trigger] (a + b)[k]).1 <= (a
        + b)[k].2 <= bound by {
        if k < a.len() {
            assert((a + b)[k] == a[k]);
        } else {
            assert((a + b)[k] == b[k - a.len()]);
        }
    }
}

proof fn lemma_scan_bounds(chars: Seq<char>, j: int, q: char, text: Seq<char>, depth: nat)
    requires
        0 <= j <= chars.len(),
    ensures
        j <= ident_end(chars, j) <= chars.len(),
        j <= string_lit(chars, j, q, text).0 <= chars.len(),
        j <= block_comment_end(chars, j) <= chars.len(),
        j <= line_comment_end(chars, j) <= chars.len(),
        j <= brace_close(chars, j, depth) <= chars.len(),
    decreases chars.len() - j,
{
    if j < chars.len() {
        lemma_scan_bounds(chars, j + 1, q, text, depth + 1);
        lemma_scan_bounds(chars, j + 1, q, text.push(chars[j]), depth);
        if depth >= 1 {
            lemma_scan_bounds(chars, j + 1, q, text, (depth - 1) as nat);
        }
        if j + 1 < chars.len() {
            lemma_scan_bounds(chars, j + 2, q, text.push(unescape(chars[j + 1])), depth);
        }
    }
}

proof fn lemma_fstr_spans(
    chars: Seq<char>,
    j: int,
    chunk: Seq<char>,
    chunk_start: int,
    acc: Seq<SpecSpanned>,
)
    requires
        0 <= chunk_start <= j <= chars.len(),
        spans_within(acc, byte_len(chars) as int),
    ensures
        spans_within(lex_fstr(chars, j, chunk, chunk_start, acc).1, byte_len(chars) as int),
        j <= lex_fstr(chars, j, chunk, chunk_start, acc).0 <= chars.len(),
    decreases chars.len(), chars.len() - j, 0int,
{
    let bound = byte_len(chars) as int;
    if j < chars.len() {
        let ch = chars[j];
        lemma_byte_pos_mono(chars, chunk_start, j + 1);
        lemma_byte_pos_mono(chars, j, j + 1);
        lemma_byte_pos_positive(chars, j);
        let with_chunk = if chunk.len() > 0 {
            acc.push(
                (
                    SpecToken::FSTRING_CHUNK(chunk),
                    byte_pos(chars, chunk_start),
                    byte_pos(chars, j + 1),
                ),
            )
        } else {
            acc
        };
        if chunk.len() > 0 {
            lemma_spans_push(
                acc,
                (
                    SpecToken::FSTRING_CHUNK(chunk),
                    byte_pos(chars, chunk_start),
                    byte_pos(chars, j + 1),
                ),
                bound,
            );
        }
        if ch == '`' {
            lemma_spans_push(
                with_chunk,
                (SpecToken::FSTRING_END, byte_pos(chars, j + 1) - 1, byte_pos(chars, j + 1)),
                bound,
            );
        } else if ch == '{' {
            let start_tok = (SpecToken::FSTRING_EXPR_START, byte_pos(chars, j), byte_pos(chars, j + 1));
            let opened = with_chunk.push(start_tok);
            lemma_spans_push(with_chunk, start_tok, bound);
            let close = expr_close(chars, j + 1);
            let after = if close < chars.len() {
                close + 1
            } else {
                close
            };
            let sub = chars.subrange(j + 1, close);
            let inner = lex(sub, 0, seq![]);
            lemma_lex_spans(sub, 0, seq![]);
            lemma_byte_len_subrange(chars, j + 1, close);
            lemma_spans_concat(opened, inner, bound, byte_len(sub) as int);
            lemma_byte_pos_mono(chars, j + 1, after);
            let end_tok = (
                SpecToken::FSTRING_EXPR_END,
                byte_pos(chars, after) - 1,
                byte_pos(chars, after),
            );
            lemma_spans_push(opened + inner, end_tok, bound);
            let closed = (opened + inner).push(end_tok);
            lemma_fstr_spans(chars, after, seq![], after, closed);
        } else if ch == '\\' {
            if j + 1 < chars.len() {
                lemma_fstr_spans(chars, j + 2, chunk.push(unescape(chars[j + 1])), chunk_start, acc);
            }
        } else {
            lemma_fstr_spans(chars, j + 1, chunk.push(ch), chunk_start, acc);
        }
    }
}

proof fn lemma_step_spans(chars: Seq<char>, i: int, acc: Seq<SpecSpanned>)
    requires
        0 <= i < chars.len(),
        spans_within(acc, byte_len(chars) as int),
    ensures
        spans_within(lex_step(chars, i, acc).1, byte_len(chars) as int),
    decreases chars.len(), chars.len() - i, 1int,
{
    let bound = byte_len(chars) as int;
    let c = chars[i];
    let start = byte_pos(chars, i);
    lemma_scan_bounds(chars, i + 1, c, seq![], 1);
    lemma_number_end(chars, i + 1, false);
    if is_ascii_ws(c) {
    } else if c == '"' || c == '\'' {
        let (e, text) = string_lit(chars, i + 1, c, seq![]);
        lemma_byte_pos_mono(chars, i, e);
        lemma_spans_push(acc, (SpecToken::STRING(text), start, byte_pos(chars, e)), bound);
    } else if is_ident_start(c) {
        let e = ident_end(chars, i + 1);
        let word = chars.subrange(i, e);
        let tok = match keyword(word) {
            Some(k) => k,
            None => SpecToken::IDENT(word),
        };
        lemma_byte_pos_mono(chars, i, e);
        lemma_spans_push(acc, (tok, start, byte_pos(chars, e)), bound);
    } else if is_digit(c) || (c == '-' && i + 1 < chars.len() && is_digit(chars[i + 1])) {
        let (e, is_float) = number_end(chars, i + 1, false);
        let text = chars.subrange(i, e);
        let tok = if is_float {
            SpecToken::FLOAT(text)
        } else {
            SpecToken::INT(int_literal_value(text))
        };
        lemma_byte_pos_mono(chars, i, e);
        lemma_spans_push(acc, (tok, start, byte_pos(chars, e)), bound);
    } else if c == '`' {
        lemma_byte_pos_mono(chars, i, i + 1);
        let t = (SpecToken::FSTRING_START, start, byte_pos(chars, i + 1));
        lemma_spans_push(acc, t, bound);
        lemma_fstr_spans(chars, i + 1, seq![], i + 1, acc.push(t));
    } else if c == '-' && at(chars, i + 1, '-') {
    } else if c == '$' {
        if at(chars, i + 1, '(') {
            lemma_byte_pos_mono(chars, i, i + 2);
            lemma_spans_push(
                acc,
                (SpecToken::MACRO_REP_START, start, byte_pos(chars, i + 2)),
                bound,
            );
        } else if i + 1 < chars.len() && is_ident_start(chars[i + 1]) {
            let e = ident_end(chars, i + 1);
            lemma_byte_pos_mono(chars, i, e);
            lemma_spans_push(
                acc,
                (SpecToken::MACRO_VAR(chars.subrange(i + 1, e)), start, byte_pos(chars, e)),
                bound,
            );
        }
    } else {
        match operator_token(chars, i, unary_context(acc)) {
            Some((tok, e)) => {
                assert(i < e <= chars.len());
                lemma_byte_pos_mono(chars, i, e);
                lemma_spans_push(acc, (tok, start, byte_pos(chars, e)), bound);
            },
            None => {},
        }
    }
}

proof fn lemma_lex_spans(chars: Seq<char>, i: int, acc: Seq<SpecSpanned>)
    requires
        0 <= i <= chars.len(),
        spans_within(acc, byte_len(chars) as int),
    ensures
        spans_within(lex(chars, i, acc), byte_len(chars) as int),
    decreases chars.len(), chars.len() - i, 2int,
{
    if i < chars.len() {
        let (next, acc2) = lex_step(chars, i, acc);
        lemma_step_spans(chars, i, acc);
        lemma_lex_spans(chars, next_index(i, next, chars.len() as int), acc2);
    }
}

/// Every token's span lies within the text: it starts at or before its end,
/// and ends by the text's length in bytes. (Inside an f-string expression the
/// span counts from the start of the expression, so it lies within it too.)
pub proof fn lemma_tokenize_spans(chars: Seq<char>)
    ensures
        spans_within(spec_tokenize(chars), byte_len(chars) as int),
{
    lemma_lex_spans(chars, 0, seq![]);
}

/// Every token's span is non-empty, and each token ends at or before the
/// next one starts.
pub open spec fn spans_in_order(toks: Seq<SpecSpanned>) -> bool {
    &&& forall|k: int| 0 <= k < toks.len() ==> (#[trigger] toks[k]).1 < toks[k].2
    &&& forall|k: int| 0 <= k < toks.len() - 1 ==> (#[trigger] toks[k]).2 <= toks[k + 1].1
}

/// Every span ends by byte offset `p`.
pub open spec fn spans_end_by(toks: Seq<SpecSpanned>, p: int) -> bool {
    forall|k: int| 0 <= k < toks.len() ==> (#[trigger] toks[k]).2 <= p
}

/// Every identifier's span covers exactly the characters of its name.
pub open spec fn idents_hold_text(chars: Seq<char>, toks: Seq<SpecSpanned>) -> bool {
    forall|k: int|
        0 <= k < toks.len() ==> ((#[trigger] toks[k]).0 matches SpecToken::IDENT(w) ==> exists|
            a: int,
            b: int,
        |
            0 <= a < b <= chars.len() && toks[k].1 == byte_pos(chars, a) && toks[k].2 == byte_pos(
                chars,
                b,
            ) && chars.subrange(a, b) == w)
}

/// Whether a text holds no backtick, so no f-string.
pub open spec fn no_backtick(chars: Seq<char>) -> bool {
    forall|j: int| 0 <= j < chars.len() ==> chars[j] != '`'
}

proof fn lemma_byte_pos_strict(s: Seq<char>, a: int, b: int)
    requires
        0 <= a < b <= s.len(),
    ensures
        byte_pos(s, a) < byte_pos(s, b),
{
    lemma_byte_len_take_next(s, a);
    lemma_byte_pos_mono(s, a + 1, b);
}

proof fn lemma_push_in_order(
    chars: Seq<char>,
    acc: Seq<SpecSpanned>,
    i: int,
    e: int,
    t: SpecSpanned,
)
    requires
        0 <= i < e <= chars.len(),
        t.1 == byte_pos(chars, i),
        t.2 == byte_pos(chars, e),
        spans_in_order(acc),
        spans_end_by(acc, byte_pos(chars, i)),
        idents_hold_text(chars, acc),
        t.0 matches SpecToken::IDENT(w) ==> chars.subrange(i, e) == w,
    ensures
        spans_in_order(acc.push(t)),
        spans_end_by(acc.push(t), byte_pos(chars, e)),
        idents_hold_text(chars, acc.push(t)),
{
    lemma_byte_pos_strict(chars, i, e);
    let r = acc.push(t);
    assert forall|k: int| 0 <= k < r.len() - 1 implies (#[trigger] r[k]).2 <= r[k + 1].1 by {
        assert(r[k] == acc[k]);
        if k + 1 < acc.len() {
            assert(r[k + 1] == acc[k + 1]);
        }
    }
    assert forall|k: int| 0 <= k < r.len() implies (#[trigger] r[k]).1 < r[k].2 by {
        if k < acc.len() {
            assert(r[k] == acc[k]);
        }
    }
    assert forall|k: int| 0 <= k < r.len() implies (#[trigger] r[k]).2 <= byte_pos(chars, e) by {
        if k < acc.len() {
            assert(r[k] == acc[k]);
        }
    }
    assert forall|k: int| 0 <= k < r.len() implies ((#[trigger] r[k]).0 matches SpecToken::IDENT(w)
        ==> exists|a: int, b: int|
        0 <= a < b <= chars.len() && r[k].1 == byte_pos(chars, a) && r[k].2 == byte_pos(chars, b)
            && chars.subrange(a, b) == w) by {
        if k < acc.len() {
            assert(r[k] == acc[k]);
        } else {
            assert(r[k] == t);
            match t.0 {
                SpecToken::IDENT(w) => {
                    assert(0 <= i < e <= chars.len() && r[k].1 == byte_pos(chars, i) && r[k].2
                        == byte_pos(chars, e) && chars.subrange(i, e) == w);
                },
                _ => {},
            }
        }
    }
}

proof fn lemma_step_in_order(chars: Seq<char>, i: int, acc: Seq<SpecSpanned>)
    requires
        0 <= i < chars.len(),
        no_backtick(chars),
        spans_in_order(acc),
        spans_end_by(acc, byte_pos(chars, i)),
        idents_hold_text(chars, acc),
    ensures
        spans_in_order(lex_step(chars, i, acc).1),
        idents_hold_text(chars, lex_step(chars, i, acc).1),
        spans_end_by(
            lex_step(chars, i, acc).1,
            byte_pos(chars, next_index(i, lex_step(chars, i, acc).0, chars.len() as int)),
        ),
{
    let c = chars[i];
    let start = byte_pos(chars, i);
    let (next, acc2) = lex_step(chars, i, acc);
    let ni = next_index(i, next, chars.len() as int);
    lemma_scan_bounds(chars, i + 1, c, seq![], 1);
    lemma_number_end(chars, i + 1, false);
    lemma_byte_pos_mono(chars, i, ni);
    if is_ascii_ws(c) {
    } else if c == '"' || c == '\'' {
        let (e, text) = string_lit(chars, i + 1, c, seq![]);
        lemma_push_in_order(chars, acc, i, e, (SpecToken::STRING(text), start, byte_pos(chars, e)));
    } else if is_ident_start(c) {
        let e = ident_end(chars, i + 1);
        let word = chars.subrange(i, e);
        let tok = match keyword(word) {
            Some(k) => k,
            None => SpecToken::IDENT(word),
        };
        lemma_push_in_order(chars, acc, i, e, (tok, start, byte_pos(chars, e)));
    } else if is_digit(c) || (c == '-' && i + 1 < chars.len() && is_digit(chars[i + 1])) {
        let (e, is_float) = number_end(chars, i + 1, false);
        let text = chars.subrange(i, e);
        let tok = if is_float {
            SpecToken::FLOAT(text)
        } else {
            SpecToken::INT(int_literal_value(text))
        };
        lemma_push_in_order(chars, acc, i, e, (tok, start, byte_pos(chars, e)));
    } else if c == '`' {
        assert(false);
    } else if c == '-' && at(chars, i + 1, '-') {
    } else if c == '$' {
        if at(chars, i + 1, '(') {
            lemma_push_in_order(
                chars,
                acc,
                i,
                i + 2,
                (SpecToken::MACRO_REP_START, start, byte_pos(chars, i + 2)),
            );
        } else if i + 1 < chars.len() && is_ident_start(chars[i + 1]) {
            let e = ident_end(chars, i + 1);
            lemma_push_in_order(
                chars,
                acc,
                i,
                e,
                (SpecToken::MACRO_VAR(chars.subrange(i + 1, e)), start, byte_pos(chars, e)),
            );
        }
    } else {
        match operator_token(chars, i, unary_context(acc)) {
            Some((tok, e)) => {
                assert(i < e <= chars.len());
                lemma_push_in_order(chars, acc, i, e, (tok, start, byte_pos(chars, e)));
            },
            None => {},
        }
    }
}

proof fn lemma_lex_in_order(chars: Seq<char>, i: int, acc: Seq<SpecSpanned>)
    requires
        0 <= i <= chars.len(),
        no_backtick(chars),
        spans_in_order(acc),
        spans_end_by(acc, byte_pos(chars, i)),
        idents_hold_text(chars, acc),
    ensures
        spans_in_order(lex(chars, i, acc)),
        idents_hold_text(chars, lex(chars, i, acc)),
    decreases chars.len() - i,
{
    if i < chars.len() {
        lemma_step_in_order(chars, i, acc);
        let (next, acc2) = lex_step(chars, i, acc);
        lemma_lex_in_order(chars, next_index(i, next, chars.len() as int), acc2);
    }
}

/// In a text without f-strings, the tokens come in order: each span is
/// non-empty and ends at or before the next one starts; and the span of each
/// identifier covers exactly the characters of its name. (Inside an f-string
/// expression spans count from the start of the expression, so there this
/// does not hold.)
pub proof fn lemma_tokenize_in_order(chars: Seq<char>)
    requires
        no_backtick(chars),
    ensures
        spans_in_order(spec_tokenize(chars)),
        idents_hold_text(chars, spec_tokenize(chars)),
{
    assert(byte_pos(chars, 0) == 0) by {
        assert(chars.take(0) =~= seq![]);
    }
    lemma_lex_in_order(chars, 0, seq![]);
}

/// How a token is shown in messages: its variant name, with its payload in
/// parentheses, strings quoted as Rust's `Debug` quotes them. A float shows the
/// text of its literal.
pub open spec fn token_debug(t: SpecToken) -> Seq<char> {
    match t {
        SpecToken::STRING(s) => "STRING("@ + str_debug_text(s) + ")"@,
        SpecToken::INT(v) => "INT("@ + signed_decimal(v) + ")"@,
        SpecToken::FLOAT(s) => "FLOAT("@ + s + ")"@,
        SpecToken::BINOP(s) => "BINOP("@ + str_debug_text(s) + ")"@,
        SpecToken::UNARY(s) => "UNARY("@ + str_debug_text(s) + ")"@,
        SpecToken::PAREN(s) => "PAREN("@ + str_debug_text(s) + ")"@,
        SpecToken::AND => "AND"@,
        SpecToken::BANG => "BANG"@,
        SpecToken::DECLARE => "DECLARE"@,
        SpecToken::CLASS => "CLASS"@,
        SpecToken::TUPLE => "TUPLE"@,
        SpecToken::CATEGORY => "CATEGORY"@,
        SpecToken::MACRO => "MACRO"@,
        SpecToken::IDENT(s) => "IDENT("@ + str_debug_text(s) + ")"@,
        SpecToken::FN => "FN"@,
        SpecToken::RETURN => "RETURN"@,
        SpecToken::PUNCT(s) => "PUNCT("@ + str_debug_text(s) + ")"@,
        SpecToken::ARROW => "ARROW"@,
        SpecToken::LEFTARROW => "LEFTARROW"@,
        SpecToken::FATARROW => "FATARROW"@,
        SpecToken::END => "END"@,
        SpecToken::IF => "IF"@,
        SpecToken::ELSE => "ELSE"@,
        SpecToken::ELSEIF => "ELSEIF"@,
        SpecToken::IN => "IN"@,
        SpecToken::WHILE => "WHILE"@,
        SpecToken::FOR => "FOR"@,
        SpecToken::DO => "DO"@,
        SpecToken::PUB => "PUB"@,
        SpecToken::MODULE => "MODULE"@,
        SpecToken::USE => "USE"@,
        SpecToken::STATIC => "STATIC"@,
        SpecToken::DYNAMIC => "DYNAMIC"@,
        SpecToken::MATCH => "MATCH"@,
        SpecToken::THROW => "THROW"@,
        SpecToken::AS => "AS"@,
        SpecToken::MUTABLE => "MUTABLE"@,
        SpecToken::SELF => "SELF"@,
        SpecToken::SELFTYPE => "SELFTYPE"@,
        SpecToken::DEFAULT => "DEFAULT"@,
        SpecToken::OPERATOR => "OPERATOR"@,
        SpecToken::TYPEOF => "TYPEOF"@,
        SpecToken::FSTRING_START => "FSTRING_START"@,
        SpecToken::FSTRING_CHUNK(s) => "FSTRING_CHUNK("@ + str_debug_text(s) + ")"@,
        SpecToken::FSTRING_EXPR_START => "FSTRING_EXPR_START"@,
        SpecToken::FSTRING_EXPR_END => "FSTRING_EXPR_END"@,
        SpecToken::FSTRING_END => "FSTRING_END"@,
        SpecToken::MACRO_REP_START => "MACRO_REP_START"@,
        SpecToken::MACRO_VAR(s) => "MACRO_VAR("@ + str_debug_text(s) + ")"@,
    }
}

/// Appends how `t` is shown in messages.
pub fn push_token_debug(out: &mut Vec<char>, t: &Token)
    ensures
        final(out)@ == old(out)@ + token_debug(t@),
{
    match t {
        Token::STRING(s) => {
            push_str(out, "STRING(");
            let d = str_debug(s.as_str());
            push_str(out, d.as_str());
            push_str(out, ")");
        },
        Token::INT(v) => {
            push_str(out, "INT(");
            push_signed_decimal(out, *v);
            push_str(out, ")");
        },
        Token::FLOAT(s) => {
            push_str(out, "FLOAT(");
            push_str(out, s.as_str());
            push_str(out, ")");
        },
        Token::BINOP(s) => {
            push_str(out, "BINOP(");
            let d = str_debug(s);
            push_str(out, d.as_str());
            push_str(out, ")");
        },
        Token::UNARY(s) => {
            push_str(out, "UNARY(");
            let d = str_debug(s);
            push_str(out, d.as_str());
            push_str(out, ")");
        },
        Token::PAREN(s) => {
            push_str(out, "PAREN(");
            let d = str_debug(s);
            push_str(out, d.as_str());
            push_str(out, ")");
        },
        Token::AND => push_str(out, "AND"),
        Token::BANG => push_str(out, "BANG"),
        Token::DECLARE => push_str(out, "DECLARE"),
        Token::CLASS => push_str(out, "CLASS"),
        Token::TUPLE => push_str(out, "TUPLE"),
        Token::CATEGORY => push_str(out, "CATEGORY"),
        Token::MACRO => push_str(out, "MACRO"),
        Token::IDENT(s) => {
            push_str(out, "IDENT(");
            let d = str_debug(s.as_str());
            push_str(out, d.as_str());
            push_str(out, ")");
        },
        Token::FN => push_str(out, "FN"),
        Token::RETURN => push_str(out, "RETURN"),
        Token::PUNCT(s) => {
            push_str(out, "PUNCT(");
            let d = str_debug(s);
            push_str(out, d.as_str());
            push_str(out, ")");
        },
        Token::ARROW => push_str(out, "ARROW"),
        Token::LEFTARROW => push_str(out, "LEFTARROW"),
        Token::FATARROW => push_str(out, "FATARROW"),
        Token::END => push_str(out, "END"),
        Token::IF => push_str(out, "IF"),
        Token::ELSE => push_str(out, "ELSE"),
        Token::ELSEIF => push_str(out, "ELSEIF"),
        Token::IN => push_str(out, "IN"),
        Token::WHILE => push_str(out, "WHILE"),
        Token::FOR => push_str(out, "FOR"),
        Token::DO => push_str(out, "DO"),
        Token::PUB => push_str(out, "PUB"),
        Token::MODULE => push_str(out, "MODULE"),
        Token::USE => push_str(out, "USE"),
        Token::STATIC => push_str(out, "STATIC"),
        Token::DYNAMIC => push_str(out, "DYNAMIC"),
        Token::MATCH => push_str(out, "MATCH"),
        Token::THROW => push_str(out, "THROW"),
        Token::AS => push_str(out, "AS"),
        Token::MUTABLE => push_str(out, "MUTABLE"),
        Token::SELF => push_str(out, "SELF"),
        Token::SELFTYPE => push_str(out, "SELFTYPE"),
        Token::DEFAULT => push_str(out, "DEFAULT"),
        Token::OPERATOR => push_str(out, "OPERATOR"),
        Token::TYPEOF => push_str(out, "TYPEOF"),
        Token::FSTRING_START => push_str(out, "FSTRING_START"),
        Token::FSTRING_CHUNK(s) => {
            push_str(out, "FSTRING_CHUNK(");
            let d = str_debug(s.as_str());
            push_str(out, d.as_str());
            push_str(out, ")");
        },
        Token::FSTRING_EXPR_START => push_str(out, "FSTRING_EXPR_START"),
        Token::FSTRING_EXPR_END => push_str(out, "FSTRING_EXPR_END"),
        Token::FSTRING_END => push_str(out, "FSTRING_END"),
        Token::MACRO_REP_START => push_str(out, "MACRO_REP_START"),
        Token::MACRO_VAR(s) => {
            push_str(out, "MACRO_VAR(");
            let d = str_debug(s.as_str());
            push_str(out, d.as_str());
            push_str(out, ")");
        },
    }
    proof {
        assert(out@ =~= old(out)@ + token_debug(t@));
    }
}

/// Whether two tokens are the same.
pub fn token_eq(a: &Token, b: &Token) -> (r: bool)
    ensures
        r == (a@ == b@),
{
    match (a, b) {
        (Token::STRING(x), Token::STRING(y)) => str_eq(x.as_str(), y.as_str()),
        (Token::INT(x), Token::INT(y)) => *x == *y,
        (Token::FLOAT(x), Token::FLOAT(y)) => str_eq(x.as_str(), y.as_str()),
        (Token::BINOP(x), Token::BINOP(y)) => str_eq(x, y),
        (Token::UNARY(x), Token::UNARY(y)) => str_eq(x, y),
        (Token::PAREN(x), Token::PAREN(y)) => str_eq(x, y),
        (Token::AND, Token::AND) => true,
        (Token::BANG, Token::BANG) => true,
        (Token::DECLARE, Token::DECLARE) => true,
        (Token::CLASS, Token::CLASS) => true,
        (Token::TUPLE, Token::TUPLE) => true,
        (Token::CATEGORY, Token::CATEGORY) => true,
        (Token::MACRO, Token::MACRO) => true,
        (Token::IDENT(x), Token::IDENT(y)) => str_eq(x.as_str(), y.as_str()),
        (Token::FN, Token::FN) => true,
        (Token::RETURN, Token::RETURN) => true,
        (Token::PUNCT(x), Token::PUNCT(y)) => str_eq(x, y),
        (Token::ARROW, Token::ARROW) => true,
        (Token::LEFTARROW, Token::LEFTARROW) => true,
        (Token::FATARROW, Token::FATARROW) => true,
        (Token::END, Token::END) => true,
        (Token::IF, Token::IF) => true,
        (Token::ELSE, Token::ELSE) => true,
        (Token::ELSEIF, Token::ELSEIF) => true,
        (Token::IN, Token::IN) => true,
        (Token::WHILE, Token::WHILE) => true,
        (Token::FOR, Token::FOR) => true,
        (Token::DO, Token::DO) => true,
        (Token::PUB, Token::PUB) => true,
        (Token::MODULE, Token::MODULE) => true,
        (Token::USE, Token::USE) => true,
        (Token::STATIC, Token::STATIC) => true,
        (Token::DYNAMIC, Token::DYNAMIC) => true,
        (Token::MATCH, Token::MATCH) => true,
        (Token::THROW, Token::THROW) => true,
        (Token::AS, Token::AS) => true,
        (Token::MUTABLE, Token::MUTABLE) => true,
        (Token::SELF, Token::SELF) => true,
        (Token::SELFTYPE, Token::SELFTYPE) => true,
        (Token::DEFAULT, Token::DEFAULT) => true,
        (Token::OPERATOR, Token::OPERATOR) => true,
        (Token::TYPEOF, Token::TYPEOF) => true,
        (Token::FSTRING_START, Token::FSTRING_START) => true,
        (Token::FSTRING_CHUNK(x), Token::FSTRING_CHUNK(y)) => str_eq(x.as_str(), y.as_str()),
        (Token::FSTRING_EXPR_START, Token::FSTRING_EXPR_START) => true,
        (Token::FSTRING_EXPR_END, Token::FSTRING_EXPR_END) => true,
        (Token::FSTRING_END, Token::FSTRING_END) => true,
        (Token::MACRO_REP_START, Token::MACRO_REP_START) => true,
        (Token::MACRO_VAR(x), Token::MACRO_VAR(y)) => str_eq(x.as_str(), y.as_str()),
        _ => false,
    }
}

/// A copy of a token.
pub fn clone_token(t: &Token) -> (r: Token)
    ensures
        r@ == t@,
{
    match t {
        Token::STRING(s) => Token::STRING(s.clone()),
        Token::INT(v) => Token::INT(*v),
        Token::FLOAT(s) => Token::FLOAT(s.clone()),
        Token::BINOP(s) => Token::BINOP(s),
        Token::UNARY(s) => Token::UNARY(s),
        Token::PAREN(s) => Token::PAREN(s),
        Token::AND => Token::AND,
        Token::BANG => Token::BANG,
        Token::DECLARE => Token::DECLARE,
        Token::CLASS => Token::CLASS,
        Token::TUPLE => Token::TUPLE,
        Token::CATEGORY => Token::CATEGORY,
        Token::MACRO => Token::MACRO,
        Token::IDENT(s) => Token::IDENT(s.clone()),
        Token::FN => Token::FN,
        Token::RETURN => Token::RETURN,
        Token::PUNCT(s) => Token::PUNCT(s),
        Token::ARROW => Token::ARROW,
        Token::LEFTARROW => Token::LEFTARROW,
        Token::FATARROW => Token::FATARROW,
        Token::END => Token::END,
        Token::IF => Token::IF,
        Token::ELSE => Token::ELSE,
        Token::ELSEIF => Token::ELSEIF,
        Token::IN => Token::IN,
        Token::WHILE => Token::WHILE,
        Token::FOR => Token::FOR,
        Token::DO => Token::DO,
        Token::PUB => Token::PUB,
        Token::MODULE => Token::MODULE,
        Token::USE => Token::USE,
        Token::STATIC => Token::STATIC,
        Token::DYNAMIC => Token::DYNAMIC,
        Token::MATCH => Token::MATCH,
        Token::THROW => Token::THROW,
        Token::AS => Token::AS,
        Token::MUTABLE => Token::MUTABLE,
        Token::SELF => Token::SELF,
        Token::SELFTYPE => Token::SELFTYPE,
        Token::DEFAULT => Token::DEFAULT,
        Token::OPERATOR => Token::OPERATOR,
        Token::TYPEOF => Token::TYPEOF,
        Token::FSTRING_START => Token::FSTRING_START,
        Token::FSTRING_CHUNK(s) => Token::FSTRING_CHUNK(s.clone()),
        Token::FSTRING_EXPR_START => Token::FSTRING_EXPR_START,
        Token::FSTRING_EXPR_END => Token::FSTRING_EXPR_END,
        Token::FSTRING_END => Token::FSTRING_END,
        Token::MACRO_REP_START => Token::MACRO_REP_START,
        Token::MACRO_VAR(s) => Token::MACRO_VAR(s.clone()),
    }
}


/// A `-` that directly follows a binary operator (or opens the text) and is
/// not part of `->`, `-=`, `--` or a negative number is a unary minus; one
/// that follows an identifier, a number or a closing parenthesis is a binary
/// minus. (`-` is not alphabetic, as
/// `char::is_alphabetic` documents.)
pub proof fn lemma_minus_after_operator(chars: Seq<char>, i: int, acc: Seq<SpecSpanned>)
    requires
        !char_is_alphabetic('-'),
        0 <= i < chars.len(),
        chars[i] == '-',
        !at(chars, i + 1, '>'),
        !at(chars, i + 1, '='),
        !at(chars, i + 1, '-'),
        !(i + 1 < chars.len() && is_digit(chars[i + 1])),
    ensures
        acc.len() == 0 || acc.last().0 is BINOP ==> lex_step(chars, i, acc) == (
            i + 1,
            acc.push((SpecToken::UNARY("-"@), byte_pos(chars, i), byte_pos(chars, i + 1))),
        ),
        acc.len() > 0 && (acc.last().0 is DECLARE || acc.last().0 == SpecToken::PAREN("("@)
            || acc.last().0 == SpecToken::PUNCT(","@)) ==> lex_step(chars, i, acc) == (
            i + 1,
            acc.push((SpecToken::UNARY("-"@), byte_pos(chars, i), byte_pos(chars, i + 1))),
        ),
        acc.len() > 0 && (acc.last().0 is INT || acc.last().0 == SpecToken::PAREN(")"@))
            ==> lex_step(chars, i, acc) == (
            i + 1,
            acc.push((SpecToken::BINOP("-"@), byte_pos(chars, i), byte_pos(chars, i + 1))),
        ),
        acc.len() > 0 && acc.last().0 is IDENT ==> lex_step(chars, i, acc) == (
            i + 1,
            acc.push((SpecToken::BINOP("-"@), byte_pos(chars, i), byte_pos(chars, i + 1))),
        ),
{
    reveal_strlit(")");
    reveal_strlit("(");
    reveal_strlit("{");
    assert(")"@[0] == ')');
    assert("("@[0] == '(');
    assert("{"@[0] == '{');
    assert(")"@ != "("@);
    assert(")"@ != "{"@);
}

} // verus!
