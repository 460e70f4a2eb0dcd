use lucy_lang::lexer::{tokenize, tokenize_checked, SpannedToken, Token};
use lucy_lang::span::Span;

fn toks(src: &str) -> Vec<SpannedToken> {
    tokenize(src.to_string())
}

fn kinds(src: &str) -> Vec<Token> {
    toks(src).into_iter().map(|(t, _)| t).collect()
}

#[test]
fn declaration_tokens_and_spans() {
    assert_eq!(
        toks("let x = 5"),
        vec![
            (Token::DECLARE, Span::new(0, 3)),
            (Token::IDENT("x".to_string()), Span::new(4, 5)),
            (Token::BINOP("="), Span::new(6, 7)),
            (Token::INT(5), Span::new(8, 9)),
        ]
    );
}

#[test]
fn keywords_are_recognised() {
    assert_eq!(
        kinds("func return class if else elseif while for do end in pub module use"),
        vec![
            Token::FN,
            Token::RETURN,
            Token::CLASS,
            Token::IF,
            Token::ELSE,
            Token::ELSEIF,
            Token::WHILE,
            Token::FOR,
            Token::DO,
            Token::END,
            Token::IN,
            Token::PUB,
            Token::MODULE,
            Token::USE,
        ]
    );
    assert_eq!(
        kinds("dynamic static match mut operator as self Self typeof throw default macro tuple category"),
        vec![
            Token::DYNAMIC,
            Token::STATIC,
            Token::MATCH,
            Token::MUTABLE,
            Token::OPERATOR,
            Token::AS,
            Token::SELF,
            Token::SELFTYPE,
            Token::TYPEOF,
            Token::THROW,
            Token::DEFAULT,
            Token::MACRO,
            Token::TUPLE,
            Token::CATEGORY,
        ]
    );
    assert_eq!(kinds("lets _a1"), vec![Token::IDENT("lets".to_string()), Token::IDENT("_a1".to_string())]);
}

#[test]
fn numbers() {
    assert_eq!(kinds("42 007 3.25"), vec![Token::INT(42), Token::INT(7), Token::FLOAT("3.25".to_string())]);
    assert_eq!(kinds("1..2"), vec![Token::INT(1), Token::BINOP(".."), Token::INT(2)]);
    assert_eq!(kinds("1.2.3"), vec![Token::FLOAT("1.2".to_string()), Token::PUNCT("."), Token::INT(3)]);
    assert_eq!(kinds("x.5"), vec![Token::IDENT("x".to_string()), Token::PUNCT("."), Token::INT(5)]);
    assert_eq!(kinds("2147483647 -2147483648"), vec![Token::INT(2147483647), Token::INT(-2147483648)]);
}

#[test]
fn minus_forms() {
    assert_eq!(kinds("x-1"), vec![Token::IDENT("x".to_string()), Token::INT(-1)]);
    assert_eq!(
        kinds("a - b"),
        vec![Token::IDENT("a".to_string()), Token::BINOP("-"), Token::IDENT("b".to_string())]
    );
    assert_eq!(kinds("-a"), vec![Token::UNARY("-"), Token::IDENT("a".to_string())]);
    assert_eq!(
        kinds("(-a"),
        vec![Token::PAREN("("), Token::UNARY("-"), Token::IDENT("a".to_string())]
    );
    assert_eq!(
        kinds("f(a, -b)"),
        vec![
            Token::IDENT("f".to_string()),
            Token::PAREN("("),
            Token::IDENT("a".to_string()),
            Token::PUNCT(","),
            Token::UNARY("-"),
            Token::IDENT("b".to_string()),
            Token::PAREN(")"),
        ]
    );
    assert_eq!(kinds(") - a")[1], Token::BINOP("-"));
    assert_eq!(kinds("a -> b -= c")[1], Token::ARROW);
    assert_eq!(kinds("a -> b -= c")[3], Token::BINOP("-="));
}

#[test]
fn operators() {
    assert_eq!(
        kinds("+ += * *= *> / /= ^ ^= % %= == => = != ! :: : , ."),
        vec![
            Token::BINOP("+"),
            Token::BINOP("+="),
            Token::BINOP("*"),
            Token::BINOP("*="),
            Token::BINOP("*>"),
            Token::BINOP("/"),
            Token::BINOP("/="),
            Token::BINOP("^"),
            Token::BINOP("^="),
            Token::BINOP("%"),
            Token::BINOP("%="),
            Token::BINOP("=="),
            Token::FATARROW,
            Token::BINOP("="),
            Token::BINOP("!="),
            Token::BANG,
            Token::BINOP("::"),
            Token::PUNCT(":"),
            Token::PUNCT(","),
            Token::PUNCT("."),
        ]
    );
    assert_eq!(
        kinds("< << <<= <= <- > >> >>= >= & && &&= &= | || ||= |="),
        vec![
            Token::BINOP("<"),
            Token::BINOP("<<"),
            Token::BINOP("<<="),
            Token::BINOP("<="),
            Token::LEFTARROW,
            Token::BINOP(">"),
            Token::BINOP(">>"),
            Token::BINOP(">>="),
            Token::BINOP(">="),
            Token::AND,
            Token::BINOP("&&"),
            Token::BINOP("&&="),
            Token::BINOP("&="),
            Token::BINOP("|"),
            Token::BINOP("||"),
            Token::BINOP("||="),
            Token::BINOP("|="),
        ]
    );
    assert_eq!(
        kinds("()[]{}"),
        vec![
            Token::PAREN("("),
            Token::PAREN(")"),
            Token::PAREN("["),
            Token::PAREN("]"),
            Token::PAREN("{"),
            Token::PAREN("}"),
        ]
    );
    assert_eq!(toks("a <<= b")[1], (Token::BINOP("<<="), Span::new(2, 5)));
}

#[test]
fn strings_and_escapes() {
    assert_eq!(
        toks("\"a\\nb\" 'c'"),
        vec![
            (Token::STRING("a\nb".to_string()), Span::new(0, 6)),
            (Token::STRING("c".to_string()), Span::new(7, 10)),
        ]
    );
    assert_eq!(kinds("\"q\\\"t\\\\\""), vec![Token::STRING("q\"t\\".to_string())]);
    assert_eq!(kinds("\"open"), vec![Token::STRING("open".to_string())]);
}

#[test]
fn comments_and_unknown_characters() {
    assert_eq!(
        kinds("x -- note\ny"),
        vec![Token::IDENT("x".to_string()), Token::IDENT("y".to_string())]
    );
    assert_eq!(kinds("--[[ a\nb ]] z"), vec![Token::IDENT("z".to_string())]);
    assert_eq!(kinds("--[ line\nw"), vec![Token::IDENT("w".to_string())]);
    assert_eq!(kinds("a ; # ~ b"), vec![Token::IDENT("a".to_string()), Token::IDENT("b".to_string())]);
    assert_eq!(kinds(""), vec![]);
}

#[test]
fn format_strings() {
    assert_eq!(
        toks("`a{x}b`"),
        vec![
            (Token::FSTRING_START, Span::new(0, 1)),
            (Token::FSTRING_CHUNK("a".to_string()), Span::new(1, 3)),
            (Token::FSTRING_EXPR_START, Span::new(2, 3)),
            (Token::IDENT("x".to_string()), Span::new(0, 1)),
            (Token::FSTRING_EXPR_END, Span::new(4, 5)),
            (Token::FSTRING_CHUNK("b".to_string()), Span::new(5, 7)),
            (Token::FSTRING_END, Span::new(6, 7)),
        ]
    );
    assert_eq!(
        kinds("`{ {1} }`"),
        vec![
            Token::FSTRING_START,
            Token::FSTRING_EXPR_START,
            Token::PAREN("{"),
            Token::INT(1),
            Token::PAREN("}"),
            Token::FSTRING_EXPR_END,
            Token::FSTRING_END,
        ]
    );
    assert_eq!(
        kinds("`a\\{b`"),
        vec![Token::FSTRING_START, Token::FSTRING_CHUNK("a{b".to_string()), Token::FSTRING_END]
    );
}

#[test]
fn macro_tokens() {
    assert_eq!(
        toks("$x $( $"),
        vec![
            (Token::MACRO_VAR("x".to_string()), Span::new(0, 2)),
            (Token::MACRO_REP_START, Span::new(3, 5)),
        ]
    );
}

#[test]
fn unicode_spans_count_bytes() {
    assert_eq!(
        toks("é = 1"),
        vec![
            (Token::IDENT("é".to_string()), Span::new(0, 2)),
            (Token::BINOP("="), Span::new(3, 4)),
            (Token::INT(1), Span::new(5, 6)),
        ]
    );
}

#[test]
fn checked_tokenize_refuses_overflowing_integers() {
    let src = "let a = 2147483647 let b = -2147483648 let c = 1.5";
    assert_eq!(tokenize_checked(src.to_string()), Some(tokenize(src.to_string())));
    assert_eq!(tokenize_checked("let a = 2147483648".to_string()), None);
    assert_eq!(tokenize_checked("let b = -2147483649".to_string()), None);
    assert_eq!(tokenize_checked("`a{99999999999}`".to_string()), None);
    assert_eq!(tokenize_checked("`a{7}`".to_string()), Some(tokenize("`a{7}`".to_string())));
}

#[test]
fn tokens_come_in_order_and_identifiers_hold_their_text() {
    let src = "let größe = x1 + 2 -- note\nfunc f(a: i32): i32 return a end";
    let ts = tokenize(src.to_string());
    assert!(!ts.is_empty());
    for (k, (tok, span)) in ts.iter().enumerate() {
        assert!(span.start < span.end);
        if k + 1 < ts.len() {
            assert!(span.end <= ts[k + 1].1.start);
        }
        if let Token::IDENT(name) = tok {
            assert_eq!(&src[span.start..span.end], name.as_str());
        }
    }
    assert!(ts.iter().any(|(t, _)| *t == Token::IDENT("größe".to_string())));
}
