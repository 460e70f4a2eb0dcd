use lucy_lang::lsp::word_at_position;
use lucy_lang::lexer::Token;
use lucy_lang::lsp::{semantic_token_type, semantic_tokens, semantic_tokens_checked, span_to_line_col, SemanticTokenData};

fn st(delta_line: u32, delta_start: u32, length: u32, token_type: u32) -> SemanticTokenData {
    SemanticTokenData { delta_line, delta_start, length, token_type, token_modifiers_bitset: 0 }
}

#[test]
fn line_and_column() {
    assert_eq!(span_to_line_col("ab\ncd", 4), (1, 1));
    assert_eq!(span_to_line_col("ab\ncd", 0), (0, 0));
    assert_eq!(span_to_line_col("ab\ncd", 3), (1, 0));
    assert_eq!(span_to_line_col("ab", 9), (0, 9));
    assert_eq!(span_to_line_col("a\n\nb", 99), (2, 96));
}

#[test]
fn token_kinds() {
    assert_eq!(semantic_token_type(&Token::FN), Some(0));
    assert_eq!(semantic_token_type(&Token::STRING("s".to_string())), Some(4));
    assert_eq!(semantic_token_type(&Token::INT(1)), Some(5));
    assert_eq!(semantic_token_type(&Token::IDENT("u8".to_string())), Some(6));
    assert_eq!(semantic_token_type(&Token::IDENT("x".to_string())), Some(3));
    assert_eq!(semantic_token_type(&Token::BINOP("+")), None);
}

#[test]
fn semantic_token_stream() {
    assert_eq!(
        semantic_tokens("let x = 5"),
        vec![st(0, 0, 3, 0), st(0, 4, 1, 3), st(0, 4, 1, 5)]
    );
    assert_eq!(
        semantic_tokens("class Foo\n  let a: u8\nend"),
        vec![st(0, 0, 5, 0), st(0, 6, 3, 2), st(1, 2, 3, 0), st(0, 4, 1, 7), st(0, 3, 2, 6), st(1, 0, 3, 0)]
    );
    assert_eq!(
        semantic_tokens("use io\nio.p(Bar)"),
        vec![st(0, 0, 3, 0), st(0, 4, 2, 7), st(1, 0, 2, 7), st(0, 3, 1, 3), st(0, 2, 3, 2)]
    );
}

#[test]
fn word_under_the_cursor() {
    let src = "let foo_1 = bar\r\n  baz(x)\n";
    assert_eq!(word_at_position(src, 0, 5), Some("foo_1".to_string()));
    assert_eq!(word_at_position(src, 0, 4), Some("foo_1".to_string()));
    assert_eq!(word_at_position(src, 0, 15), Some("bar".to_string()));
    assert_eq!(word_at_position(src, 0, 11), Some("".to_string()));
    assert_eq!(word_at_position(src, 1, 4), Some("baz".to_string()));
    assert_eq!(word_at_position(src, 1, 6), Some("x".to_string()));
    assert_eq!(word_at_position(src, 2, 0), None);
    assert_eq!(word_at_position("", 0, 0), None);
}

#[test]
fn checked_semantic_tokens() {
    let src = "let x = 1\nfunc f(a: i32): i32 return a end";
    assert_eq!(semantic_tokens_checked(src), Some(semantic_tokens(src)));
    assert_eq!(semantic_tokens_checked("let x = 4294967296"), None);
    assert_eq!(semantic_tokens_checked("let s = `abc{x}`"), None);
}
