//! What the language server computes from a document: positions of byte
//! offsets and the semantic highlighting of its tokens.
use vstd::prelude::*;
use vstd::utf8::is_char_boundary;
use vstd::string::StringSliceAdditionalSpecFns;
use crate::lexer::{Token, SpannedToken, lex_chars_checked, tokens_view};
use crate::lexer_spec::{SpecToken, SpecSpanned, spec_tokenize, ints_fit};
use crate::text::{byte_len, chars_of, str_eq, is_alphabetic, is_numeric, char_is_alphabetic, char_is_numeric, string_from_chars, copy_range};

verus! {

/// One entry of the semantic-token encoding: the position of a token relative
/// to the previous entry, its length in bytes and its kind.
///
/// Kinds: 0 keyword, 2 class, 3 variable, 4 string, 5 number, 6 type, 7 namespace.
#[derive(Clone, Copy, Debug, PartialEq, Eq, Structural)]
pub struct SemanticTokenData {
    pub delta_line: u32,
    pub delta_start: u32,
    pub length: u32,
    pub token_type: u32,
    pub token_modifiers_bitset: u32,
}

/// Whether `c` is an uppercase letter (`char::is_uppercase`).
pub uninterp spec fn char_is_uppercase(c: char) -> bool;

/// `char::is_uppercase`.
#[verifier::external_body]
fn is_uppercase(c: char) -> (r: bool)
    ensures
        r == char_is_uppercase(c),
{
    c.is_uppercase()
}

/// Number of line feeds in `b`.
pub open spec fn newline_count(b: Seq<u8>) -> nat
    decreases b.len(),
{
    if b.len() == 0 {
        0
    } else {
        newline_count(b.drop_last()) + if b.last() == 10u8 {
            1nat
        } else {
            0nat
        }
    }
}

/// Index of the last line feed in `b`.
pub open spec fn last_newline(b: Seq<u8>) -> Option<int>
    decreases b.len(),
{
    if b.len() == 0 {
        None
    } else if b.last() == 10u8 {
        Some(b.len() - 1)
    } else {
        last_newline(b.drop_last())
    }
}

pub open spec fn min_usize(a: usize, b: usize) -> usize {
    if a <= b {
        a
    } else {
        b
    }
}

/// Zero-based line and column (in bytes) of byte offset `offset`, each cut to
/// 32 bits; offsets past the end count lines up to the end.
pub open spec fn line_col(bytes: Seq<u8>, offset: usize) -> (u32, u32) {
    let up_to = bytes.take(min_usize(offset, bytes.len() as usize) as int);
    (
        newline_count(up_to) as u32,
        match last_newline(up_to) {
            Some(p) => (offset - p - 1) as u32,
            None => offset as u32,
        },
    )
}

/// Line and column of `offset` in `src`, both from zero; the column counts
/// bytes from the last line feed before `offset`.
pub fn span_to_line_col(src: &str, offset: usize) -> (r: (u32, u32))
    requires
        is_char_boundary(src.spec_bytes(), min_usize(offset, src.spec_bytes().len() as usize) as int),
    ensures
        r == line_col(src.spec_bytes(), offset),
{
    let bytes = src.as_bytes();
    let n = bytes.len();
    let stop = if offset <= n {
        offset
    } else {
        n
    };
    let ghost up_to = bytes@.take(stop as int);
    let mut count: usize = 0;
    let mut last: Option<usize> = None;
    let mut k: usize = 0;
    while k < stop
        invariant
            stop <= n == bytes@.len(),
            k <= stop,
            up_to == bytes@.take(stop as int),
            count == newline_count(bytes@.take(k as int)),
            count <= k,
            last == match last_newline(bytes@.take(k as int)) {
                Some(p) => Some(p as usize),
                None => None::<usize>,
            },
            last_newline(bytes@.take(k as int)) matches Some(p) ==> 0 <= p < k,
        decreases stop - k,
    {
        proof {
            assert(bytes@.take(k + 1).drop_last() =~= bytes@.take(k as int));
        }
        if bytes[k] == 10u8 {
            count = count + 1;
            last = Some(k);
        }
        k = k + 1;
    }
    let col = match last {
        Some(p) => offset - p - 1,
        None => offset,
    };
    (count as u32, col as u32)
}

/// Tokens shown as keywords.
pub open spec fn is_keyword_kind(t: SpecToken) -> bool {
    match t {
        SpecToken::MODULE | SpecToken::USE | SpecToken::PUB | SpecToken::CLASS | SpecToken::FN | SpecToken::FOR | SpecToken::IN | SpecToken::RETURN | SpecToken::END | SpecToken::AS | SpecToken::SELF | SpecToken::SELFTYPE | SpecToken::IF | SpecToken::ELSE | SpecToken::ELSEIF | SpecToken::WHILE | SpecToken::MATCH | SpecToken::DECLARE | SpecToken::MUTABLE | SpecToken::OPERATOR | SpecToken::TYPEOF => true,
        _ => false,
    }
}

/// Names of built-in types, shown as types.
pub open spec fn is_type_name(n: Seq<char>) -> bool {
    n == "string"@ || n == "u8"@ || n == "u16"@ || n == "u32"@ || n == "u64"@ || n == "i8"@ || n == "i16"@ || n == "i32"@ || n == "i64"@ || n == "bool"@ || n == "usize"@ || n == "Self"@
}

/// The semantic kind of a token on its own.
pub open spec fn token_kind(t: SpecToken) -> Option<u32> {
    if is_keyword_kind(t) {
        Some(0)
    } else {
        match t {
            SpecToken::STRING(_) => Some(4),
            SpecToken::INT(_) | SpecToken::FLOAT(_) => Some(5),
            SpecToken::IDENT(n) => if is_type_name(n) {
                Some(6)
            } else {
                Some(3)
            },
            _ => None,
        }
    }
}

/// The semantic kind of the token at `k`, given its neighbours: a name after
/// `module` or `use`, or before `.` or `:`, is a namespace; a name after
/// `class`, or one that starts with an uppercase letter, is a class.
pub open spec fn token_kind_in_context(toks: Seq<SpecSpanned>, k: int) -> Option<u32> {
    match toks[k].0 {
        SpecToken::IDENT(n) => if is_type_name(n) {
            Some(6)
        } else if k > 0 && (toks[k - 1].0 is MODULE || toks[k - 1].0 is USE) {
            Some(7)
        } else if k > 0 && toks[k - 1].0 is CLASS {
            Some(2)
        } else if k + 1 < toks.len() && (toks[k + 1].0 == SpecToken::PUNCT("."@) || toks[k
            + 1].0 == SpecToken::PUNCT(":"@)) {
            Some(7)
        } else if n.len() > 0 && char_is_uppercase(n[0]) {
            Some(2)
        } else {
            Some(3)
        },
        other => token_kind(other),
    }
}

fn is_type_name_exec(n: &str) -> (r: bool)
    ensures
        r == is_type_name(n@),
{
    str_eq(n, "string") || str_eq(n, "u8") || str_eq(n, "u16") || str_eq(n, "u32") || str_eq(n, "u64") || str_eq(n, "i8") || str_eq(n, "i16") || str_eq(n, "i32") || str_eq(n, "i64") || str_eq(n, "bool") || str_eq(n, "usize") || str_eq(n, "Self")
}

/// The semantic kind of a token on its own: 0 keyword, 3 name, 4 string,
/// 5 number, 6 built-in type name.
pub fn semantic_token_type(tok: &Token) -> (r: Option<u32>)
    ensures
        r == token_kind(tok@),
{
    match tok {
        Token::MODULE | Token::USE | Token::PUB | Token::CLASS | Token::FN | Token::FOR | Token::IN | Token::RETURN | Token::END | Token::AS | Token::SELF | Token::SELFTYPE | Token::IF | Token::ELSE | Token::ELSEIF | Token::WHILE | Token::MATCH | Token::DECLARE | Token::MUTABLE | Token::OPERATOR | Token::TYPEOF => Some(0),
        Token::STRING(_) => Some(4),
        Token::INT(_) | Token::FLOAT(_) => Some(5),
        Token::IDENT(n) => if is_type_name_exec(n.as_str()) {
            Some(6)
        } else {
            Some(3)
        },
        _ => None,
    }
}

fn is_punct(t: &Token, p1: &str, p2: &str) -> (r: bool)
    ensures
        r == (t@ == SpecToken::PUNCT(p1@) || t@ == SpecToken::PUNCT(p2@)),
{
    match t {
        Token::PUNCT(p) => str_eq(p, p1) || str_eq(p, p2),
        _ => false,
    }
}

fn token_kind_at(toks: &Vec<SpannedToken>, k: usize) -> (r: Option<u32>)
    requires
        k < toks@.len(),
    ensures
        r == token_kind_in_context(tokens_view(toks@), k as int),
{
    let ghost tv = tokens_view(toks@);
    let len = toks.len();
    assert(tv[k as int].0 == toks@[k as int].0@);
    match &toks[k].0 {
        Token::IDENT(n) => {
            let name = n.as_str();
            if is_type_name_exec(name) {
                Some(6)
            } else if k > 0 && (match &toks[k - 1].0 {
                Token::MODULE | Token::USE => true,
                _ => false,
            }) {
                assert(tv[k - 1].0 == toks@[k - 1].0@);
                Some(7)
            } else if k > 0 && (match &toks[k - 1].0 {
                Token::CLASS => true,
                _ => false,
            }) {
                assert(tv[k - 1].0 == toks@[k - 1].0@);
                Some(2)
            } else if k + 1 < len && is_punct(&toks[k + 1].0, ".", ":") {
                assert(tv[k + 1].0 == toks@[k + 1].0@);
                Some(7)
            } else if name.unicode_len() > 0 && is_uppercase(name.get_char(0)) {
                proof {
                    if k > 0 {
                        assert(tv[k - 1].0 == toks@[k - 1].0@);
                    }
                    if k + 1 < toks@.len() {
                        assert(tv[k + 1].0 == toks@[k + 1].0@);
                    }
                }
                Some(2)
            } else {
                proof {
                    if k > 0 {
                        assert(tv[k - 1].0 == toks@[k - 1].0@);
                    }
                    if k + 1 < toks@.len() {
                        assert(tv[k + 1].0 == toks@[k + 1].0@);
                    }
                }
                Some(3)
            }
        },
        t => semantic_token_type(t),
    }
}

/// The semantic tokens of the tokens from `k` on, after a token at line
/// `prev_line` and column `prev_col`, appended to `out`; `None` where a span
/// cuts a character or a token lies before the one before it.
pub open spec fn semantic_from(
    bytes: Seq<u8>,
    toks: Seq<SpecSpanned>,
    k: int,
    prev_line: u32,
    prev_col: u32,
    out: Seq<SemanticTokenData>,
) -> Option<Seq<SemanticTokenData>>
    decreases toks.len() - k,
{
    if !(0 <= k < toks.len()) {
        Some(out)
    } else {
        match token_kind_in_context(toks, k) {
            None => semantic_from(bytes, toks, k + 1, prev_line, prev_col, out),
            Some(kind) => {
                let start = toks[k].1;
                let end = toks[k].2;
                if !(0 <= start <= end <= usize::MAX) {
                    None
                } else if !is_char_boundary(
                    bytes,
                    min_usize(start as usize, bytes.len() as usize) as int,
                ) {
                    None
                } else {
                    let (line, col) = line_col(bytes, start as usize);
                    if line < prev_line || (line == prev_line && col < prev_col) {
                        None
                    } else {
                        let delta_line = (line - prev_line) as u32;
                        let delta_start = if delta_line == 0 {
                            (col - prev_col) as u32
                        } else {
                            col
                        };
                        semantic_from(
                            bytes,
                            toks,
                            k + 1,
                            line,
                            col,
                            out.push(
                                SemanticTokenData {
                                    delta_line,
                                    delta_start,
                                    length: (end - start) as u32,
                                    token_type: kind,
                                    token_modifiers_bitset: 0,
                                },
                            ),
                        )
                    }
                }
            },
        }
    }
}

/// The semantic tokens of a whole document.
pub open spec fn semantic_tokens_of(src: &str) -> Option<Seq<SemanticTokenData>> {
    semantic_from(src.spec_bytes(), spec_tokenize(src@), 0, 0, 0, seq![])
}

/// The semantic tokens of a document, in the relative encoding of the
/// language server protocol: each token's line is given as the number of lines
/// after the previous token, and its column relative to the previous token
/// when both are on one line.
pub fn semantic_tokens(src: &str) -> (r: Vec<SemanticTokenData>)
    requires
        byte_len(src@) <= usize::MAX,
        ints_fit(spec_tokenize(src@)),
        semantic_tokens_of(src) is Some,
    ensures
        Some(r@) == semantic_tokens_of(src),
{
    match semantic_tokens_checked(src) {
        Some(v) => v,
        None => {
            proof {
                assert(false);
            }
            Vec::new()
        },
    }
}

/// The semantic tokens of a document as `semantic_tokens` gives them, or
/// `None` exactly where that cannot go through: an integer literal does not
/// fit in an `i32`, or a token's span cuts a character or lies before the
/// token before it (as inside an f-string).
pub fn semantic_tokens_checked(src: &str) -> (r: Option<Vec<SemanticTokenData>>)
    requires
        byte_len(src@) <= usize::MAX,
    ensures
        r is Some <==> (ints_fit(spec_tokenize(src@)) && semantic_tokens_of(src) is Some),
        match r {
            Some(v) => Some(v@) == semantic_tokens_of(src),
            None => true,
        },
{
    let chars = chars_of(src);
    let tokens = match lex_chars_checked(&chars) {
        Some(t) => t,
        None => {
            return None;
        },
    };
    let ghost bytes = src.spec_bytes();
    let ghost toks = tokens_view(tokens@);
    let nb = src.as_bytes().len();
    let mut out: Vec<SemanticTokenData> = Vec::new();
    let mut prev_line: u32 = 0;
    let mut prev_col: u32 = 0;
    let n = tokens.len();
    let mut i: usize = 0;
    while i < n
        invariant
            n == tokens@.len(),
            i <= n,
            toks == tokens_view(tokens@),
            toks == spec_tokenize(src@),
            bytes == src.spec_bytes(),
            nb == bytes.len(),
            ints_fit(spec_tokenize(src@)),
            semantic_from(bytes, toks, i as int, prev_line, prev_col, out@) == semantic_tokens_of(
                src,
            ),
        decreases n - i,
    {
        let kind = token_kind_at(&tokens, i);
        match kind {
            None => {},
            Some(kind) => {
                let span = tokens[i].1;
                assert(toks[i as int].1 == span.start && toks[i as int].2 == span.end);
                if span.start > span.end {
                    return None;
                }
                let m = if span.start <= nb {
                    span.start
                } else {
                    nb
                };
                if !src.is_char_boundary(m) {
                    return None;
                }
                let (line, col) = span_to_line_col(src, span.start);
                if line < prev_line || (line == prev_line && col < prev_col) {
                    return None;
                }
                let len = (span.end - span.start) as u32;
                let delta_line = line - prev_line;
                let delta_start = if delta_line == 0 {
                    col - prev_col
                } else {
                    col
                };
                out.push(
                    SemanticTokenData {
                        delta_line,
                        delta_start,
                        length: len,
                        token_type: kind,
                        token_modifiers_bitset: 0,
                    },
                );
                prev_line = line;
                prev_col = col;
            },
        }
        i = i + 1;
    }
    Some(out)
}


/// The index of the first `'\n'` in `s` at or after `i`, or `s.len()`.
pub open spec fn newline_from(s: Seq<char>, i: int) -> int
    decreases s.len() - i,
{
    if i < 0 || i >= s.len() {
        s.len() as int
    } else if s[i] == '\n' {
        i
    } else {
        newline_from(s, i + 1)
    }
}

/// A line without its terminator: a `'\r'` before the `'\n'` goes too.
pub open spec fn strip_cr(line: Seq<char>, had_newline: bool) -> Seq<char> {
    if had_newline && line.len() > 0 && line.last() == '\r' {
        line.drop_last()
    } else {
        line
    }
}

/// The lines of `s` from position `i`, as `str::lines` gives them: split at
/// `'\n'` (and `"\r\n"`), with no empty line after a final terminator.
pub open spec fn lines_from(s: Seq<char>, i: int) -> Seq<Seq<char>>
    decreases s.len() - i,
{
    if i < 0 || i >= s.len() {
        Seq::empty()
    } else {
        let e = newline_from(s, i);
        proof {
            lemma_newline_from(s, i);
        }
        let line = strip_cr(s.subrange(i, e), e < s.len());
        if e >= s.len() {
            seq![line]
        } else {
            seq![line] + lines_from(s, e + 1)
        }
    }
}

/// Whether a character belongs to a word: a letter, a digit or `_`
/// (`char::is_alphanumeric`, which is `is_alphabetic || is_numeric`).
pub open spec fn is_word_char(c: char) -> bool {
    char_is_alphabetic(c) || char_is_numeric(c) || c == '_'
}

/// Where the word that ends at `c` starts.
pub open spec fn word_start(l: Seq<char>, c: int) -> int
    decreases c,
{
    if c > 0 && c <= l.len() && is_word_char(l[c - 1]) {
        word_start(l, c - 1)
    } else {
        c
    }
}

/// Where the word that starts at `c` ends.
pub open spec fn word_end(l: Seq<char>, c: int) -> int
    decreases l.len() - c,
{
    if 0 <= c < l.len() && is_word_char(l[c]) {
        word_end(l, c + 1)
    } else {
        c
    }
}

pub proof fn lemma_newline_from(s: Seq<char>, i: int)
    requires
        0 <= i <= s.len(),
    ensures
        i <= newline_from(s, i) <= s.len(),
        newline_from(s, i) < s.len() ==> s[newline_from(s, i)] == '\n',
        forall|k: int| i <= k < newline_from(s, i) ==> s[k] != '\n',
    decreases s.len() - i,
{
    if i < s.len() && s[i] != '\n' {
        lemma_newline_from(s, i + 1);
    }
}

pub proof fn lemma_word_bounds(l: Seq<char>, c: int)
    requires
        0 <= c <= l.len(),
    ensures
        0 <= word_start(l, c) <= c,
        c <= word_end(l, c) <= l.len(),
    decreases c,
{
    if c > 0 && is_word_char(l[c - 1]) {
        lemma_word_bounds(l, c - 1);
    }
    lemma_word_end_bound(l, c);
}

pub proof fn lemma_word_end_bound(l: Seq<char>, c: int)
    requires
        0 <= c <= l.len(),
    ensures
        c <= word_end(l, c) <= l.len(),
    decreases l.len() - c,
{
    if c < l.len() && is_word_char(l[c]) {
        lemma_word_end_bound(l, c + 1);
    }
}

/// The word around character `character` of line `line` of `src`: the
/// letters, digits and `_` before and after it; `None` when there is no such
/// line.
pub fn word_at_position(src: &str, line: u32, character: u32) -> (r: Option<String>)
    requires
        line < lines_from(src@, 0).len() ==> character <= lines_from(src@, 0)[line as int].len(),
    ensures
        match r {
            Some(w) => line < lines_from(src@, 0).len() && ({
                let l = lines_from(src@, 0)[line as int];
                w@ == l.subrange(word_start(l, character as int), word_end(l, character as int))
            }),
            None => line >= lines_from(src@, 0).len(),
        },
{
    let chars = chars_of(src);
    let ghost s = src@;
    let n = chars.len();
    let mut i: usize = 0;
    let mut k: u32 = 0;
    while i < n && k < line
        invariant
            chars@ == s,
            n == s.len(),
            i <= n,
            k <= line,
            lines_from(s, 0).len() == k + lines_from(s, i as int).len(),
            forall|m: int| 0 <= m < lines_from(s, i as int).len() ==> lines_from(s, 0)[k + m] == #[trigger] lines_from(s, i as int)[m],
        decreases n - i,
    {
        let mut e = i;
        while e < n && chars[e] != '\n'
            invariant
                chars@ == s,
                n == s.len(),
                i <= e <= n,
                newline_from(s, i as int) == newline_from(s, e as int),
            decreases n - e,
        {
            e = e + 1;
        }
        proof {
            lemma_newline_from(s, i as int);
            let li = lines_from(s, i as int);
            let line_i = strip_cr(s.subrange(i as int, e as int), e < n);
            if e < n {
                assert(li == seq![line_i] + lines_from(s, e + 1));
                assert forall|m: int| 0 <= m < lines_from(s, e + 1).len() implies lines_from(s, 0)[k + 1 + m]
                    == #[trigger] lines_from(s, e + 1)[m] by {
                    assert(li[m + 1] == lines_from(s, e + 1)[m]);
                    assert(lines_from(s, 0)[k + (m + 1)] == li[m + 1]);
                }
            } else {
                assert(li == seq![line_i]);
            }
        }
        if e >= n {
            i = n;
        } else {
            i = e + 1;
        }
        k = k + 1;
    }
    if i >= n {
        return None;
    }
    let mut e = i;
    while e < n && chars[e] != '\n'
        invariant
            chars@ == s,
            n == s.len(),
            i <= e <= n,
            newline_from(s, i as int) == newline_from(s, e as int),
        decreases n - e,
    {
        e = e + 1;
    }
    proof {
        lemma_newline_from(s, i as int);
    }
    let mut stop = e;
    if e < n && e > i && chars[e - 1] == '\r' {
        stop = e - 1;
    }
    let l = copy_range(&chars, i, stop);
    let ghost lv = l@;
    assert(lv == lines_from(s, i as int)[0]) by {
        assert(lv =~= strip_cr(s.subrange(i as int, e as int), e < n));
    }
    let c = character as usize;
    proof {
        lemma_word_bounds(lv, c as int);
    }
    let mut start = c;
    while start > 0 && (is_alphabetic(l[start - 1]) || is_numeric(l[start - 1]) || l[start - 1] == '_')
        invariant
            l@ == lv,
            c <= lv.len(),
            start <= c,
            word_start(lv, c as int) == word_start(lv, start as int),
        decreases start,
    {
        start = start - 1;
    }
    let mut end = c;
    while end < l.len() && (is_alphabetic(l[end]) || is_numeric(l[end]) || l[end] == '_')
        invariant
            l@ == lv,
            c <= end <= lv.len(),
            word_end(lv, c as int) == word_end(lv, end as int),
        decreases lv.len() - end,
    {
        end = end + 1;
    }
    let w = copy_range(&l, start, end);
    Some(string_from_chars(&w))
}


/// Every built-in type name of the language (each name the type checker
/// resolves to a built-in type, but `empty`, and also `Self`) is highlighted
/// as a type, wherever it stands.
pub proof fn lemma_builtin_names_are_types(n: Seq<char>, toks: Seq<SpecSpanned>, k: int)
    requires
        (crate::ty::builtin_type(n) is Some && n != "empty"@) || n == "Self"@,
    ensures
        token_kind(SpecToken::IDENT(n)) == Some(6u32),
        0 <= k < toks.len() && toks[k].0 == SpecToken::IDENT(n) ==> token_kind_in_context(toks, k)
            == Some(6u32),
{
    reveal_strlit("empty");
    reveal_strlit("Self");
    reveal_strlit("string");
    reveal_strlit("u8");
    reveal_strlit("u16");
    reveal_strlit("u32");
    reveal_strlit("u64");
    reveal_strlit("i8");
    reveal_strlit("i16");
    reveal_strlit("i32");
    reveal_strlit("i64");
    reveal_strlit("bool");
    reveal_strlit("usize");
}

} // verus!
