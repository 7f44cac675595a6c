use funlang::fixity::{Assoc, FixityTable, OperatorInfo};
use funlang::lexer::{Kind, LexError, Lexer};
use funlang::parser::{Definition, Expr, Literal, ParseError, Parser, TypeDef};

fn parse(src: &str) -> Result<Expr, ParseError> {
    let mut lexer = Lexer::new(src);
    let mut parser = Parser::new(&mut lexer);
    parser.parse()
}

fn id(s: &str) -> Expr {
    Expr::Id(s.to_string())
}

fn lit(i: i32) -> Expr {
    Expr::Literal(Literal::Int(i))
}

fn app(f: Expr, a: Expr) -> Expr {
    Expr::App(Box::new(f), Box::new(a))
}

fn bin(op: &str, a: Expr, b: Expr) -> Expr {
    app(app(id(op), a), b)
}

fn kid(s: &str) -> Kind {
    Kind::TokId(s.to_string())
}

#[test]
fn multiplication_binds_tighter() {
    let want = app(
        app(id("+"), lit(1)),
        app(app(id("*"), lit(2)), lit(3)),
    );
    assert_eq!(parse("1 + 2 * 3"), Ok(want));
}

#[test]
fn multiplication_first_then_addition() {
    assert_eq!(parse("1 * 2 + 3"), Ok(bin("+", bin("*", lit(1), lit(2)), lit(3))));
}

#[test]
fn addition_associates_left() {
    let got = parse("1 + 2 + 3").unwrap();
    assert_eq!(got, bin("+", bin("+", lit(1), lit(2)), lit(3)));
    assert_ne!(got, bin("+", lit(1), bin("+", lit(2), lit(3))));
}

#[test]
fn multiplication_associates_left() {
    assert_eq!(parse("a * b * c"), Ok(bin("*", bin("*", id("a"), id("b")), id("c"))));
}

#[test]
fn grouping_overrides_precedence() {
    let sum = Expr::Grouped(Box::new(bin("+", lit(1), lit(2))));
    assert_eq!(parse("(1 + 2) * 3"), Ok(bin("*", sum, lit(3))));
}

#[test]
fn missing_in_is_unexpected() {
    assert_eq!(
        parse("let x = fun a b -> a a + b"),
        Err(ParseError::Unexpected(vec![Kind::In], kid("a")))
    );
}

#[test]
fn let_with_fun_and_in_parses() {
    let fun = Expr::Function {
        ifx: false,
        args: vec!["a".to_string(), "b".to_string()],
        body: Box::new(id("a")),
    };
    let want = Expr::Let {
        id: "x".to_string(),
        def: Definition::ExprDef { explicit_type: None, body: Box::new(fun) },
        in_expr: Box::new(bin("+", id("a"), id("b"))),
    };
    assert_eq!(parse("let x = fun a b -> a in a + b"), Ok(want));
}

#[test]
fn if_without_else_ends_early() {
    assert_eq!(parse("if 1 then 2"), Err(ParseError::EarlyEof));
}

#[test]
fn if_then_else_parses() {
    let want = Expr::If {
        predicate: Box::new(id("c")),
        fulfilled: Box::new(lit(1)),
        unfulfilled: Box::new(bin("+", lit(2), lit(3))),
    };
    assert_eq!(parse("if c then 1 else 2 + 3"), Ok(want));
}

#[test]
fn if_with_wrong_keyword_is_unexpected() {
    assert_eq!(parse("if 1 else 2"), Err(ParseError::Unexpected(vec![Kind::Then], Kind::Else)));
}

#[test]
fn infix_function_with_three_parameters_is_rejected() {
    assert_eq!(parse("fun ifx a b c -> a"), Err(ParseError::ArityViolation));
    assert_eq!(parse("fun ifx a -> a"), Err(ParseError::ArityViolation));
}

#[test]
fn infix_function_with_two_parameters_is_accepted() {
    let want = Expr::Function {
        ifx: true,
        args: vec!["a".to_string(), "b".to_string()],
        body: Box::new(id("a")),
    };
    assert_eq!(parse("fun ifx a b -> a"), Ok(want));
}

#[test]
fn function_without_arrow_is_unexpected() {
    assert_eq!(parse("fun a b = a"), Err(ParseError::Unexpected(vec![Kind::Arrow], Kind::Eq)));
    assert_eq!(parse("fun a b"), Err(ParseError::EarlyEof));
}

#[test]
fn operator_at_the_start_is_a_prefix_application() {
    assert_eq!(parse("+ 1"), Ok(app(id("+"), lit(1))));
    assert_eq!(parse("* 2 + 3"), Ok(bin("+", app(id("*"), lit(2)), lit(3))));
}

#[test]
fn unknown_symbol_is_a_plain_identifier() {
    assert_eq!(parse("<>"), Ok(id("<>")));
    assert_eq!(parse("a <> b"), Ok(id("a")));
}

#[test]
fn unclosed_group() {
    assert_eq!(parse("(1 + 2"), Err(ParseError::EarlyEof));
    assert_eq!(
        parse("(1 2)"),
        Err(ParseError::Unexpected(vec![Kind::RParen], Kind::TokInt(2)))
    );
}

#[test]
fn empty_input_ends_early() {
    assert_eq!(parse(""), Err(ParseError::EarlyEof));
    assert_eq!(parse("1 +"), Err(ParseError::EarlyEof));
}

#[test]
fn token_that_starts_no_expression() {
    let starts = vec![
        Kind::Let,
        Kind::If,
        Kind::Fun,
        Kind::LParen,
        Kind::TokId(String::new()),
        Kind::TokInt(0),
    ];
    assert_eq!(parse(")"), Err(ParseError::Unexpected(starts, Kind::RParen)));
}

#[test]
fn typed_let_binding() {
    let want = Expr::Let {
        id: "x".to_string(),
        def: Definition::ExprDef {
            explicit_type: Some(TypeDef::TypeId("int".to_string())),
            body: Box::new(lit(1)),
        },
        in_expr: Box::new(id("x")),
    };
    assert_eq!(parse("let x : int = 1 in x"), Ok(want));
}

#[test]
fn type_declaration_binding() {
    let want = Expr::Let {
        id: "t".to_string(),
        def: Definition::TypeDef(TypeDef::TypeId("int".to_string())),
        in_expr: Box::new(id("t")),
    };
    assert_eq!(parse("let t :: int in t"), Ok(want));
}

#[test]
fn typed_let_without_equals() {
    assert_eq!(
        parse("let x : int 1 in x"),
        Err(ParseError::Unexpected(vec![Kind::Eq], Kind::TokInt(1)))
    );
}

#[test]
fn type_must_be_a_name() {
    let want = Err(ParseError::Unexpected(vec![Kind::TokId(String::new())], Kind::Pipe));
    assert_eq!(parse("let t :: | a in t"), want);
    assert_eq!(parse("let t ::"), Err(ParseError::EarlyEof));
}

#[test]
fn definition_needs_a_binder() {
    assert_eq!(
        parse("let x in x"),
        Err(ParseError::Unexpected(vec![Kind::DoubleColon, Kind::Colon, Kind::Eq], Kind::In))
    );
}

#[test]
fn let_needs_a_name() {
    assert_eq!(
        parse("let 1 = 2 in 3"),
        Err(ParseError::Unexpected(vec![Kind::TokId(String::new())], Kind::TokInt(1)))
    );
    assert_eq!(parse("let"), Err(ParseError::EarlyEof));
}

#[test]
fn lexical_errors_surface_in_the_parse() {
    assert_eq!(parse("1 + ."), Err(ParseError::Lexical(LexError::InvalidCharacter(4))));
    assert_eq!(
        parse("1 + 3000000000"),
        Err(ParseError::Lexical(LexError::IntegerOverflow(4)))
    );
}

#[test]
fn trailing_tokens_are_left_for_the_caller() {
    let mut lexer = Lexer::new("1 2 + 3");
    let mut parser = Parser::new(&mut lexer);
    assert_eq!(parser.parse(), Ok(lit(1)));
    assert_eq!(parser.parse(), Ok(bin("+", lit(2), lit(3))));
    assert_eq!(parser.parse(), Err(ParseError::EarlyEof));
}

#[test]
fn builtin_fixities() {
    let table = FixityTable::builtin();
    let plus = OperatorInfo { lbp: 10, rbp: 11, assoc: Assoc::Left };
    let times = OperatorInfo { lbp: 20, rbp: 21, assoc: Assoc::Left };
    assert_eq!(table.lookup(&"+".to_string()), Some(plus));
    assert_eq!(table.lookup(&"*".to_string()), Some(times));
    assert_eq!(table.lookup(&"-".to_string()), None);
    assert_eq!(table.lookup(&"x".to_string()), None);
}

#[test]
fn fixity_insert_adds_and_overrides() {
    let mut table = FixityTable::empty();
    assert_eq!(table.lookup(&"^".to_string()), None);
    table.insert("^".to_string(), OperatorInfo::right(30));
    assert_eq!(
        table.lookup(&"^".to_string()),
        Some(OperatorInfo { lbp: 30, rbp: 29, assoc: Assoc::Right })
    );
    table.insert("^".to_string(), OperatorInfo::left(5));
    assert_eq!(
        table.lookup(&"^".to_string()),
        Some(OperatorInfo { lbp: 5, rbp: 6, assoc: Assoc::Left })
    );
}
