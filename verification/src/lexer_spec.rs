//! The meaning of tokenizing: a character-level description of the token
//! stream that the lexer produces, with the byte spans of each token.
use vstd::prelude::*;
use crate::text::{byte_pos, char_is_alphabetic, char_is_numeric};

verus! {

/// What a token means, with its text as characters.
#[allow(non_camel_case_types)]
pub enum SpecToken {
    STRING(Seq<char>),
    INT(int),
    FLOAT(Seq<char>),
    BINOP(Seq<char>),
    UNARY(Seq<char>),
    PAREN(Seq<char>),
    AND,
    BANG,
    DECLARE,
    CLASS,
    TUPLE,
    CATEGORY,
    MACRO,
    IDENT(Seq<char>),
    FN,
    RETURN,
    PUNCT(Seq<char>),
    ARROW,
    LEFTARROW,
    FATARROW,
    END,
    IF,
    ELSE,
    ELSEIF,
    IN,
    WHILE,
    FOR,
    DO,
    PUB,
    MODULE,
    USE,
    STATIC,
    DYNAMIC,
    MATCH,
    THROW,
    AS,
    MUTABLE,
    SELF,
    SELFTYPE,
    DEFAULT,
    OPERATOR,
    TYPEOF,
    FSTRING_START,
    FSTRING_CHUNK(Seq<char>),
    FSTRING_EXPR_START,
    FSTRING_EXPR_END,
    FSTRING_END,
    MACRO_REP_START,
    MACRO_VAR(Seq<char>),
}

/// A token with the byte offsets `[start, end)` of its text.
pub type SpecSpanned = (SpecToken, int, int);

pub open spec fn is_ident_start(c: char) -> bool {
    char_is_alphabetic(c) || c == '_'
}

/// `char::is_alphanumeric` is alphabetic or numeric; identifiers also take `_`.
pub open spec fn is_ident_char(c: char) -> bool {
    char_is_alphabetic(c) || char_is_numeric(c) || c == '_'
}

/// `char::is_ascii_whitespace`: space, tab, line feed, form feed, carriage return.
pub open spec fn is_ascii_ws(c: char) -> bool {
    c == ' ' || c == '\t' || c == '\n' || c == '\x0C' || c == '\r'
}

pub open spec fn is_digit(c: char) -> bool {
    '0' <= c && c <= '9'
}

/// Index just past the run of identifier characters that starts at `j`.
pub open spec fn ident_end(chars: Seq<char>, j: int) -> int
    decreases chars.len() - j,
{
    if 0 <= j < chars.len() && is_ident_char(chars[j]) {
        ident_end(chars, j + 1)
    } else {
        j
    }
}

/// Index just past the digits of a number literal whose digits continue at
/// `j`, and whether a fraction was read: one `.` is taken when a digit follows it.
pub open spec fn number_end(chars: Seq<char>, j: int, is_float: bool) -> (int, bool)
    decreases chars.len() - j,
{
    if 0 <= j < chars.len() && is_digit(chars[j]) {
        number_end(chars, j + 1, is_float)
    } else if 0 <= j && j + 1 < chars.len() && chars[j] == '.' && !is_float && is_digit(
        chars[j + 1],
    ) {
        number_end(chars, j + 1, true)
    } else {
        (j, is_float)
    }
}

/// Decimal value of a string of digits.
pub open spec fn digits_value(s: Seq<char>) -> int
    decreases s.len(),
{
    if s.len() == 0 {
        0
    } else {
        digits_value(s.drop_last()) * 10 + (s.last() as int - '0' as int)
    }
}

/// Value of an integer literal: digits, with an optional leading `-`.
pub open spec fn int_literal_value(text: Seq<char>) -> int {
    if text.len() > 0 && text[0] == '-' {
        -digits_value(text.drop_first())
    } else {
        digits_value(text)
    }
}

/// The character that an escape `\c` stands for.
pub open spec fn unescape(c: char) -> char {
    if c == 'n' {
        '\n'
    } else if c == 't' {
        '\t'
    } else if c == 'r' {
        '\r'
    } else {
        c
    }
}

/// Scans the body of a quoted string from `j` up to the closing `quote`:
/// the index past the literal, and its text with escapes resolved.
pub open spec fn string_lit(chars: Seq<char>, j: int, quote: char, text: Seq<char>) -> (
    int,
    Seq<char>,
)
    decreases chars.len() - j,
{
    if !(0 <= j < chars.len()) {
        (j, text)
    } else if chars[j] == '\\' {
        if j + 1 < chars.len() {
            string_lit(chars, j + 2, quote, text.push(unescape(chars[j + 1])))
        } else {
            (j + 1, text)
        }
    } else if chars[j] == quote {
        (j + 1, text)
    } else {
        string_lit(chars, j + 1, quote, text.push(chars[j]))
    }
}

/// Index past a block comment whose body starts at `j`: past the first `]]`.
pub open spec fn block_comment_end(chars: Seq<char>, j: int) -> int
    decreases chars.len() - j,
{
    if !(0 <= j < chars.len()) {
        j
    } else if chars[j] == ']' && j + 1 < chars.len() && chars[j + 1] == ']' {
        j + 2
    } else {
        block_comment_end(chars, j + 1)
    }
}

/// Index past a line comment whose body starts at `j`: past the next line feed.
pub open spec fn line_comment_end(chars: Seq<char>, j: int) -> int
    decreases chars.len() - j,
{
    if !(0 <= j < chars.len()) {
        j
    } else if chars[j] == '\n' {
        j + 1
    } else {
        line_comment_end(chars, j + 1)
    }
}

/// Index of the `}` that closes a brace opened before `j` at nesting `depth`,
/// or the end of the input.
pub open spec fn brace_close(chars: Seq<char>, j: int, depth: nat) -> int
    decreases chars.len() - j,
{
    if !(0 <= j < chars.len()) {
        j
    } else if chars[j] == '{' {
        brace_close(chars, j + 1, depth + 1)
    } else if chars[j] == '}' {
        if depth <= 1 {
            j
        } else {
            brace_close(chars, j + 1, (depth - 1) as nat)
        }
    } else {
        brace_close(chars, j + 1, depth)
    }
}

/// End of the source of an embedded f-string expression starting at `j`,
/// kept within `[j, chars.len()]`.
pub open spec fn expr_close(chars: Seq<char>, j: int) -> int {
    let c = brace_close(chars, j, 1);
    if c < j {
        j
    } else if c > chars.len() {
        chars.len() as int
    } else {
        c
    }
}

/// The keyword token that a word stands for, if any.
pub open spec fn keyword(w: Seq<char>) -> Option<SpecToken> {
    if w == "let"@ {
        Some(SpecToken::DECLARE)
    } else if w == "func"@ {
        Some(SpecToken::FN)
    } else if w == "return"@ {
        Some(SpecToken::RETURN)
    } else if w == "class"@ {
        Some(SpecToken::CLASS)
    } else if w == "if"@ {
        Some(SpecToken::IF)
    } else if w == "else"@ {
        Some(SpecToken::ELSE)
    } else if w == "elseif"@ {
        Some(SpecToken::ELSEIF)
    } else if w == "while"@ {
        Some(SpecToken::WHILE)
    } else if w == "for"@ {
        Some(SpecToken::FOR)
    } else if w == "do"@ {
        Some(SpecToken::DO)
    } else if w == "end"@ {
        Some(SpecToken::END)
    } else if w == "in"@ {
        Some(SpecToken::IN)
    } else if w == "pub"@ {
        Some(SpecToken::PUB)
    } else if w == "module"@ {
        Some(SpecToken::MODULE)
    } else if w == "dynamic"@ {
        Some(SpecToken::DYNAMIC)
    } else if w == "static"@ {
        Some(SpecToken::STATIC)
    } else if w == "use"@ {
        Some(SpecToken::USE)
    } else if w == "match"@ {
        Some(SpecToken::MATCH)
    } else if w == "mut"@ {
        Some(SpecToken::MUTABLE)
    } else if w == "operator"@ {
        Some(SpecToken::OPERATOR)
    } else if w == "as"@ {
        Some(SpecToken::AS)
    } else if w == "self"@ {
        Some(SpecToken::SELF)
    } else if w == "Self"@ {
        Some(SpecToken::SELFTYPE)
    } else if w == "typeof"@ {
        Some(SpecToken::TYPEOF)
    } else if w == "throw"@ {
        Some(SpecToken::THROW)
    } else if w == "default"@ {
        Some(SpecToken::DEFAULT)
    } else if w == "macro"@ {
        Some(SpecToken::MACRO)
    } else if w == "tuple"@ {
        Some(SpecToken::TUPLE)
    } else if w == "category"@ {
        Some(SpecToken::CATEGORY)
    } else {
        None
    }
}

/// Whether a `-` that follows the tokens `acc` is a unary minus: at the
/// start, or after a binary operator, `let`, `(`, `{` or `,`.
pub open spec fn unary_context(acc: Seq<SpecSpanned>) -> bool {
    if acc.len() == 0 {
        true
    } else {
        match acc.last().0 {
            SpecToken::BINOP(_) => true,
            SpecToken::DECLARE => true,
            SpecToken::PAREN(p) => p == "("@ || p == "{"@,
            SpecToken::PUNCT(p) => p == ","@,
            _ => false,
        }
    }
}

/// Whether `chars[k]` exists and is `c`.
pub open spec fn at(chars: Seq<char>, k: int, c: char) -> bool {
    0 <= k < chars.len() && chars[k] == c
}

/// The operator or punctuation token that starts at `i`, with the index past it.
pub open spec fn operator_token(chars: Seq<char>, i: int, unary: bool) -> Option<(SpecToken, int)> {
    let c = chars[i];
    if c == '+' {
        if at(chars, i + 1, '=') {
            Some((SpecToken::BINOP("+="@), i + 2))
        } else {
            Some((SpecToken::BINOP("+"@), i + 1))
        }
    } else if c == '-' {
        if at(chars, i + 1, '>') {
            Some((SpecToken::ARROW, i + 2))
        } else if at(chars, i + 1, '=') {
            Some((SpecToken::BINOP("-="@), i + 2))
        } else if unary {
            Some((SpecToken::UNARY("-"@), i + 1))
        } else {
            Some((SpecToken::BINOP("-"@), i + 1))
        }
    } else if c == '!' {
        if at(chars, i + 1, '=') {
            Some((SpecToken::BINOP("!="@), i + 2))
        } else {
            Some((SpecToken::BANG, i + 1))
        }
    } else if c == '*' {
        if at(chars, i + 1, '=') {
            Some((SpecToken::BINOP("*="@), i + 2))
        } else if at(chars, i + 1, '>') {
            Some((SpecToken::BINOP("*>"@), i + 2))
        } else {
            Some((SpecToken::BINOP("*"@), i + 1))
        }
    } else if c == '/' {
        if at(chars, i + 1, '=') {
            Some((SpecToken::BINOP("/="@), i + 2))
        } else {
            Some((SpecToken::BINOP("/"@), i + 1))
        }
    } else if c == '^' {
        if at(chars, i + 1, '=') {
            Some((SpecToken::BINOP("^="@), i + 2))
        } else {
            Some((SpecToken::BINOP("^"@), i + 1))
        }
    } else if c == '%' {
        if at(chars, i + 1, '=') {
            Some((SpecToken::BINOP("%="@), i + 2))
        } else {
            Some((SpecToken::BINOP("%"@), i + 1))
        }
    } else if c == '.' {
        if at(chars, i + 1, '.') {
            Some((SpecToken::BINOP(".."@), i + 2))
        } else {
            Some((SpecToken::PUNCT("."@), i + 1))
        }
    } else if c == ',' {
        Some((SpecToken::PUNCT(","@), i + 1))
    } else if c == ':' {
        if at(chars, i + 1, ':') {
            Some((SpecToken::BINOP("::"@), i + 2))
        } else {
            Some((SpecToken::PUNCT(":"@), i + 1))
        }
    } else if c == '=' {
        if at(chars, i + 1, '=') {
            Some((SpecToken::BINOP("=="@), i + 2))
        } else if at(chars, i + 1, '>') {
            Some((SpecToken::FATARROW, i + 2))
        } else {
            Some((SpecToken::BINOP("="@), i + 1))
        }
    } else if c == '(' {
        Some((SpecToken::PAREN("("@), i + 1))
    } else if c == ')' {
        Some((SpecToken::PAREN(")"@), i + 1))
    } else if c == '{' {
        Some((SpecToken::PAREN("{"@), i + 1))
    } else if c == '}' {
        Some((SpecToken::PAREN("}"@), i + 1))
    } else if c == '[' {
        Some((SpecToken::PAREN("["@), i + 1))
    } else if c == ']' {
        Some((SpecToken::PAREN("]"@), i + 1))
    } else if c == '<' {
        if at(chars, i + 1, '<') {
            if at(chars, i + 2, '=') {
                Some((SpecToken::BINOP("<<="@), i + 3))
            } else {
                Some((SpecToken::BINOP("<<"@), i + 2))
            }
        } else if at(chars, i + 1, '=') {
            Some((SpecToken::BINOP("<="@), i + 2))
        } else if at(chars, i + 1, '-') {
            Some((SpecToken::LEFTARROW, i + 2))
        } else {
            Some((SpecToken::BINOP("<"@), i + 1))
        }
    } else if c == '>' {
        if at(chars, i + 1, '>') {
            if at(chars, i + 2, '=') {
                Some((SpecToken::BINOP(">>="@), i + 3))
            } else {
                Some((SpecToken::BINOP(">>"@), i + 2))
            }
        } else if at(chars, i + 1, '=') {
            Some((SpecToken::BINOP(">="@), i + 2))
        } else {
            Some((SpecToken::BINOP(">"@), i + 1))
        }
    } else if c == '&' {
        if at(chars, i + 1, '&') {
            if at(chars, i + 2, '=') {
                Some((SpecToken::BINOP("&&="@), i + 3))
            } else {
                Some((SpecToken::BINOP("&&"@), i + 2))
            }
        } else if at(chars, i + 1, '=') {
            Some((SpecToken::BINOP("&="@), i + 2))
        } else {
            Some((SpecToken::AND, i + 1))
        }
    } else if c == '|' {
        if at(chars, i + 1, '|') {
            if at(chars, i + 2, '=') {
                Some((SpecToken::BINOP("||="@), i + 3))
            } else {
                Some((SpecToken::BINOP("||"@), i + 2))
            }
        } else if at(chars, i + 1, '=') {
            Some((SpecToken::BINOP("|="@), i + 2))
        } else {
            Some((SpecToken::BINOP("|"@), i + 1))
        }
    } else {
        None
    }
}

/// Appends the pieces of an f-string whose body continues at `j`, where
/// `chunk` is the literal text gathered since index `chunk_start`; the index
/// past the f-string comes first. Each `{expr}` is tokenized on its own, with
/// spans relative to the expression's source.
pub open spec fn lex_fstr(
    chars: Seq<char>,
    j: int,
    chunk: Seq<char>,
    chunk_start: int,
    acc: Seq<SpecSpanned>,
) -> (int, Seq<SpecSpanned>)
    decreases chars.len(), chars.len() - j, 0int,
{
    if !(0 <= j < chars.len()) {
        (j, acc)
    } else {
        let ch = chars[j];
        let with_chunk = if chunk.len() > 0 {
            acc.push(
                (
                    SpecToken::FSTRING_CHUNK(chunk),
                    byte_pos(chars, chunk_start),
                    byte_pos(chars, j + 1),
                ),
            )
        } else {
            acc
        };
        if ch == '`' {
            (
                j + 1,
                with_chunk.push(
                    (SpecToken::FSTRING_END, byte_pos(chars, j + 1) - 1, byte_pos(chars, j + 1)),
                ),
            )
        } else if ch == '{' {
            let opened = with_chunk.push(
                (SpecToken::FSTRING_EXPR_START, byte_pos(chars, j), byte_pos(chars, j + 1)),
            );
            let close = expr_close(chars, j + 1);
            let after = if close < chars.len() {
                close + 1
            } else {
                close
            };
            let inner = lex(chars.subrange(j + 1, close), 0, seq![]);
            let closed = (opened + inner).push(
                (SpecToken::FSTRING_EXPR_END, byte_pos(chars, after) - 1, byte_pos(chars, after)),
            );
            lex_fstr(chars, after, seq![], after, closed)
        } else if ch == '\\' {
            if j + 1 < chars.len() {
                lex_fstr(chars, j + 2, chunk.push(unescape(chars[j + 1])), chunk_start, acc)
            } else {
                (j + 1, acc)
            }
        } else {
            lex_fstr(chars, j + 1, chunk.push(ch), chunk_start, acc)
        }
    }
}

/// Reads what starts at index `i`: the index past it, and `acc` with the
/// tokens it yields appended.
pub open spec fn lex_step(chars: Seq<char>, i: int, acc: Seq<SpecSpanned>) -> (
    int,
    Seq<SpecSpanned>,
)
    decreases chars.len(), chars.len() - i, 1int,
{
    if !(0 <= i < chars.len()) {
        (i + 1, acc)
    } else {
        let c = chars[i];
        let start = byte_pos(chars, i);
        if is_ascii_ws(c) {
            (i + 1, acc)
        } else if c == '"' || c == '\'' {
            let (e, text) = string_lit(chars, i + 1, c, seq![]);
            (e, acc.push((SpecToken::STRING(text), start, byte_pos(chars, e))))
        } else if is_ident_start(c) {
            let e = ident_end(chars, i + 1);
            let word = chars.subrange(i, e);
            let tok = match keyword(word) {
                Some(k) => k,
                None => SpecToken::IDENT(word),
            };
            (e, acc.push((tok, start, byte_pos(chars, e))))
        } else if is_digit(c) || (c == '-' && i + 1 < chars.len() && is_digit(chars[i + 1])) {
            let (e, is_float) = number_end(chars, i + 1, false);
            let text = chars.subrange(i, e);
            let tok = if is_float {
                SpecToken::FLOAT(text)
            } else {
                SpecToken::INT(int_literal_value(text))
            };
            (e, acc.push((tok, start, byte_pos(chars, e))))
        } else if c == '`' {
            lex_fstr(
                chars,
                i + 1,
                seq![],
                i + 1,
                acc.push((SpecToken::FSTRING_START, start, byte_pos(chars, i + 1))),
            )
        } else if c == '-' && at(chars, i + 1, '-') {
            if at(chars, i + 2, '[') && at(chars, i + 3, '[') {
                (block_comment_end(chars, i + 4), acc)
            } else if at(chars, i + 2, '[') {
                (line_comment_end(chars, i + 3), acc)
            } else {
                (line_comment_end(chars, i + 2), acc)
            }
        } else if c == '$' {
            if at(chars, i + 1, '(') {
                (i + 2, acc.push((SpecToken::MACRO_REP_START, start, byte_pos(chars, i + 2))))
            } else if i + 1 < chars.len() && is_ident_start(chars[i + 1]) {
                let e = ident_end(chars, i + 1);
                (
                    e,
                    acc.push(
                        (SpecToken::MACRO_VAR(chars.subrange(i + 1, e)), start, byte_pos(chars, e)),
                    ),
                )
            } else {
                (i + 1, acc)
            }
        } else {
            match operator_token(chars, i, unary_context(acc)) {
                Some((tok, e)) => (e, acc.push((tok, start, byte_pos(chars, e)))),
                None => (i + 1, acc),
            }
        }
    }
}

/// Keeps an index that must move forward within `(i, len]`.
pub open spec fn next_index(i: int, next: int, len: int) -> int {
    if i < next && next <= len {
        next
    } else {
        i + 1
    }
}

/// The tokens of `chars` from index `i` on, appended to `acc`.
pub open spec fn lex(chars: Seq<char>, i: int, acc: Seq<SpecSpanned>) -> Seq<SpecSpanned>
    decreases chars.len(), chars.len() - i, 2int,
{
    if !(0 <= i < chars.len()) {
        acc
    } else {
        let (next, acc2) = lex_step(chars, i, acc);
        lex(chars, next_index(i, next, chars.len() as int), acc2)
    }
}

/// The tokens of a whole source text.
pub open spec fn spec_tokenize(chars: Seq<char>) -> Seq<SpecSpanned> {
    lex(chars, 0, seq![])
}

/// Every integer literal in `toks` fits in an `i32`.
pub open spec fn ints_fit(toks: Seq<SpecSpanned>) -> bool {
    forall|k: int|
        0 <= k < toks.len() ==> ((#[trigger] toks[k]).0 matches SpecToken::INT(v) ==> i32::MIN
            <= v <= i32::MAX)
}

} // verus!
