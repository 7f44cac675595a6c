use funlang::lexer::{Kind, LexError, Lexer};

fn tokens(src: &str) -> Result<Vec<Kind>, LexError> {
    let mut lexer = Lexer::new(src);
    let mut out = Vec::new();
    while let Some(k) = lexer.next()? {
        out.push(k);
    }
    Ok(out)
}

fn id(s: &str) -> Kind {
    Kind::TokId(s.to_string())
}

#[test]
fn tokenizes_let_fun_expression() {
    let got = tokens("let x = fun a b -> a in a + b * c").unwrap();
    let want = vec![
        Kind::Let,
        id("x"),
        Kind::Eq,
        Kind::Fun,
        id("a"),
        id("b"),
        Kind::Arrow,
        id("a"),
        Kind::In,
        id("a"),
        id("+"),
        id("b"),
        id("*"),
        id("c"),
    ];
    assert_eq!(got, want);
}

#[test]
fn stream_ends_and_stays_ended() {
    let mut lexer = Lexer::new("x");
    assert_eq!(lexer.next(), Ok(Some(id("x"))));
    assert_eq!(lexer.next(), Ok(None));
    assert_eq!(lexer.next(), Ok(None));
}

#[test]
fn blank_input_has_no_tokens() {
    assert_eq!(tokens(" \t\r\n ").unwrap(), Vec::<Kind>::new());
    assert_eq!(tokens("").unwrap(), Vec::<Kind>::new());
}

#[test]
fn integers_keep_their_value() {
    for n in [0i32, 7, 10, 42, 1000, 65535, 2147483647] {
        let text = n.to_string();
        assert_eq!(tokens(&text).unwrap(), vec![Kind::TokInt(n)]);
    }
}

#[test]
fn leading_zeros_and_zero_digit() {
    assert_eq!(tokens("007 10 0").unwrap(), vec![Kind::TokInt(7), Kind::TokInt(10), Kind::TokInt(0)]);
}

#[test]
fn integer_overflow_is_an_error() {
    assert_eq!(tokens("2147483648"), Err(LexError::IntegerOverflow(0)));
    assert_eq!(tokens("1 99999999999"), Err(LexError::IntegerOverflow(2)));
}

#[test]
fn invalid_characters_are_errors() {
    assert_eq!(tokens("a . b"), Err(LexError::InvalidCharacter(2)));
    assert_eq!(tokens("[1]"), Err(LexError::InvalidCharacter(0)));
    assert_eq!(tokens("x \u{e9}"), Err(LexError::InvalidCharacter(2)));
}

#[test]
fn an_error_does_not_move_the_lexer() {
    let mut lexer = Lexer::new("x ,");
    assert_eq!(lexer.next(), Ok(Some(id("x"))));
    assert_eq!(lexer.peek(), Err(LexError::InvalidCharacter(2)));
    assert_eq!(lexer.next(), Err(LexError::InvalidCharacter(2)));
    assert_eq!(lexer.next(), Err(LexError::InvalidCharacter(2)));
}

#[test]
fn punctuation() {
    let got = tokens("( ) : :: ; = { } | ->").unwrap();
    let want = vec![
        Kind::LParen,
        Kind::RParen,
        Kind::Colon,
        Kind::DoubleColon,
        Kind::Semicolon,
        Kind::Eq,
        Kind::LBracket,
        Kind::RBracket,
        Kind::Pipe,
        Kind::Arrow,
    ];
    assert_eq!(got, want);
}

#[test]
fn colon_then_colon_is_maximal() {
    assert_eq!(tokens(":::").unwrap(), vec![Kind::DoubleColon, Kind::Colon]);
}

#[test]
fn keywords_are_whole_words_and_case_sensitive() {
    let got = tokens("let in if then else fun ifx Let lets iff in_ _if").unwrap();
    let want = vec![
        Kind::Let,
        Kind::In,
        Kind::If,
        Kind::Then,
        Kind::Else,
        Kind::Fun,
        Kind::Ifx,
        id("Let"),
        id("lets"),
        id("iff"),
        id("in_"),
        id("_if"),
    ];
    assert_eq!(got, want);
}

#[test]
fn minus_starts_a_symbolic_identifier() {
    assert_eq!(tokens("- -- -x").unwrap(), vec![id("-"), id("--"), id("-"), id("x")]);
    assert_eq!(tokens("+->").unwrap(), vec![id("+->")]);
    assert_eq!(tokens("a->b").unwrap(), vec![id("a"), Kind::Arrow, id("b")]);
}

#[test]
fn word_and_symbol_classes_are_disjoint() {
    assert_eq!(tokens("a+b").unwrap(), vec![id("a"), id("+"), id("b")]);
    assert_eq!(tokens("x1_y2 <>").unwrap(), vec![id("x1_y2"), id("<>")]);
    assert_eq!(tokens("<=>").unwrap(), vec![id("<"), Kind::Eq, id(">")]);
    assert_eq!(tokens("!#$%&*+/\\<>?@^~").unwrap(), vec![id("!#$%&*+/\\<>?@^~")]);
}

#[test]
fn identifier_text_is_only_the_identifier() {
    assert_eq!(tokens("  hello world ").unwrap(), vec![id("hello"), id("world")]);
}

#[test]
fn peek_is_idempotent() {
    let mut lexer = Lexer::new("a b");
    assert_eq!(lexer.peek(), Ok(Some(id("a"))));
    assert_eq!(lexer.peek(), Ok(Some(id("a"))));
    assert_eq!(lexer.next(), Ok(Some(id("a"))));
    assert_eq!(lexer.peek(), Ok(Some(id("b"))));
    assert_eq!(lexer.next(), Ok(Some(id("b"))));
    assert_eq!(lexer.peek(), Ok(None));
    assert_eq!(lexer.next(), Ok(None));
}

#[test]
fn peek_byte_reads_at_the_cursor() {
    let mut lexer = Lexer::new("ab c");
    assert_eq!(lexer.peek_byte(), Some(b'a'));
    assert_eq!(lexer.next(), Ok(Some(id("ab"))));
    assert_eq!(lexer.peek_byte(), Some(b' '));
    assert_eq!(lexer.next(), Ok(Some(id("c"))));
    assert_eq!(lexer.peek_byte(), None);
}

#[test]
fn duplicate_copies_a_token() {
    let k = id("abc");
    assert_eq!(k.duplicate(), k);
    assert_eq!(Kind::TokInt(5).duplicate(), Kind::TokInt(5));
}
