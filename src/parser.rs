use vstd::prelude::*;

use crate::fixity::{Assoc, FixityTable, OperatorInfo, builtin_operators};
use crate::lexer::{Kind, LexError, Lexer, Tok, TokenStream, advance, front};

verus! {

/// Why a parse failed. In an expected set, a kind that carries a value
/// (an identifier, an integer) stands with an empty or zero value.
#[derive(Debug, PartialEq, Eq)]
pub enum ParseError {
    /// A token other than one of the expected kinds.
    Unexpected(Vec<Kind>, Kind),
    /// The input ended where a token was required.
    EarlyEof,
    /// An `ifx` function whose parameters are not exactly two.
    ArityViolation,
    /// The tokenizer failed.
    Lexical(LexError),
}

/// An expression.
#[derive(Debug, PartialEq, Eq)]
pub enum Expr {
    Let { id: String, def: Definition, in_expr: Box<Expr> },
    If { predicate: Box<Expr>, fulfilled: Box<Expr>, unfulfilled: Box<Expr> },
    /// A function; with `ifx` set it declares an infix operator, and has two
    /// parameters.
    Function { ifx: bool, args: Vec<String>, body: Box<Expr> },
    /// A function applied to one argument.
    App(Box<Expr>, Box<Expr>),
    Id(String),
    Literal(Literal),
    /// A parenthesized expression.
    Grouped(Box<Expr>),
}

/// What a `let` binds its name to.
#[derive(Debug, PartialEq, Eq)]
pub enum Definition {
    TypeDef(TypeDef),
    ExprDef { explicit_type: Option<TypeDef>, body: Box<Expr> },
}

/// A type.
#[derive(Debug, PartialEq, Eq)]
pub enum TypeDef {
    TypeId(String),
    ProductType(Vec<(String, String)>),
    SumType(Vec<TypeDef>),
    FunctionType(Box<TypeDef>, Box<TypeDef>),
}

#[derive(Debug, PartialEq, Eq)]
pub enum Literal {
    Int(i32),
    Str(String),
    Bool(bool),
    Char(char),
}

/// A literal, with its text as characters.
pub enum Value {
    Int(i32),
    Str(Seq<char>),
    Bool(bool),
    Char(char),
}

/// A type, with its names as characters.
pub enum TypeTerm {
    Named(Seq<char>),
    Product(Seq<(Seq<char>, Seq<char>)>),
    Sum(Seq<TypeTerm>),
    Arrow(Box<TypeTerm>, Box<TypeTerm>),
}

/// A definition, with its names as characters.
pub enum DefTerm {
    Type(TypeTerm),
    Value { explicit_type: Option<TypeTerm>, body: Box<Term> },
}

/// An expression, with its names as characters.
pub enum Term {
    Let { id: Seq<char>, def: DefTerm, body: Box<Term> },
    If { predicate: Box<Term>, fulfilled: Box<Term>, unfulfilled: Box<Term> },
    Function { infix: bool, args: Seq<Seq<char>>, body: Box<Term> },
    App(Box<Term>, Box<Term>),
    Id(Seq<char>),
    Lit(Value),
    Grouped(Box<Term>),
}

/// A parse failure, with tokens seen through their view.
pub enum Failure {
    Unexpected(Seq<Tok>, Tok),
    EarlyEof,
    Arity,
    Lexical(LexError),
}

pub open spec fn value_of(l: Literal) -> Value {
    match l {
        Literal::Int(i) => Value::Int(i),
        Literal::Str(s) => Value::Str(s@),
        Literal::Bool(b) => Value::Bool(b),
        Literal::Char(c) => Value::Char(c),
    }
}

pub open spec fn type_term_of(t: TypeDef) -> TypeTerm
    decreases t,
{
    match t {
        TypeDef::TypeId(n) => TypeTerm::Named(n@),
        TypeDef::ProductType(fields) => TypeTerm::Product(
            fields@.map_values(|f: (String, String)| (f.0@, f.1@)),
        ),
        TypeDef::SumType(alts) => TypeTerm::Sum(
            Seq::new(
                alts@.len(),
                |i: int|
                    if 0 <= i < alts@.len() {
                        type_term_of(alts@[i])
                    } else {
                        TypeTerm::Named(Seq::empty())
                    },
            ),
        ),
        TypeDef::FunctionType(a, b) => TypeTerm::Arrow(
            Box::new(type_term_of(*a)),
            Box::new(type_term_of(*b)),
        ),
    }
}

pub open spec fn term_of(e: Expr) -> Term
    decreases e,
{
    match e {
        Expr::Let { id, def, in_expr } => Term::Let {
            id: id@,
            def: def_term_of(def),
            body: Box::new(term_of(*in_expr)),
        },
        Expr::If { predicate, fulfilled, unfulfilled } => Term::If {
            predicate: Box::new(term_of(*predicate)),
            fulfilled: Box::new(term_of(*fulfilled)),
            unfulfilled: Box::new(term_of(*unfulfilled)),
        },
        Expr::Function { ifx, args, body } => Term::Function {
            infix: ifx,
            args: args@.map_values(|s: String| s@),
            body: Box::new(term_of(*body)),
        },
        Expr::App(f, a) => Term::App(Box::new(term_of(*f)), Box::new(term_of(*a))),
        Expr::Id(n) => Term::Id(n@),
        Expr::Literal(l) => Term::Lit(value_of(l)),
        Expr::Grouped(inner) => Term::Grouped(Box::new(term_of(*inner))),
    }
}

pub open spec fn def_term_of(d: Definition) -> DefTerm
    decreases d,
{
    match d {
        Definition::TypeDef(t) => DefTerm::Type(type_term_of(t)),
        Definition::ExprDef { explicit_type, body } => DefTerm::Value {
            explicit_type: match explicit_type {
                Some(t) => Some(type_term_of(t)),
                None => None,
            },
            body: Box::new(term_of(*body)),
        },
    }
}

impl View for Expr {
    type V = Term;

    open spec fn view(&self) -> Term {
        term_of(*self)
    }
}

impl View for Definition {
    type V = DefTerm;

    open spec fn view(&self) -> DefTerm {
        def_term_of(*self)
    }
}

impl View for TypeDef {
    type V = TypeTerm;

    open spec fn view(&self) -> TypeTerm {
        type_term_of(*self)
    }
}

impl View for ParseError {
    type V = Failure;

    open spec fn view(&self) -> Failure {
        match self {
            ParseError::Unexpected(expected, found) => Failure::Unexpected(
                expected@.map_values(|k: Kind| k@),
                found@,
            ),
            ParseError::EarlyEof => Failure::EarlyEof,
            ParseError::ArityViolation => Failure::Arity,
            ParseError::Lexical(e) => Failure::Lexical(*e),
        }
    }
}

/// A parse result with the tokens left after it.
pub type Parsed<T> = Result<(T, TokenStream), Failure>;

/// An executable result, with the tokens left after it, seen through views.
pub open spec fn outcome(r: Result<Expr, ParseError>, rest: TokenStream) -> Parsed<Term> {
    match r {
        Ok(e) => Ok((e@, rest)),
        Err(f) => Err(f@),
    }
}

/// `a` holds fewer tokens than `b`. Every expression takes at least one
/// token; the definitions below check this of a result before they go on
/// with the tokens it left, which is what makes them terminate. The
/// executable parser proves it of each result it returns.
pub open spec fn shorter(a: TokenStream, b: TokenStream) -> bool {
    a.tokens.len() < b.tokens.len()
}

/// The identifier kind in an expected set.
pub open spec fn any_id() -> Tok {
    Tok::Id(Seq::empty())
}

/// The tokens that can start an expression.
pub open spec fn expression_starts() -> Seq<Tok> {
    seq![Tok::Let, Tok::If, Tok::Fun, Tok::LParen, any_id(), Tok::Int(0)]
}

/// Reads one token, which must be `k`.
pub open spec fn expect(ts: TokenStream, k: Tok) -> Result<TokenStream, Failure> {
    match front(ts) {
        Err(e) => Err(Failure::Lexical(e)),
        Ok(None) => Err(Failure::EarlyEof),
        Ok(Some(t)) => if t == k {
            Ok(advance(ts))
        } else {
            Err(Failure::Unexpected(seq![k], t))
        },
    }
}

/// How tightly token `t` binds to an expression on its left: its left
/// binding power where it names an operator, else nothing.
pub open spec fn lbp_of(t: Tok, ops: Map<Seq<char>, OperatorInfo>) -> u8 {
    match t {
        Tok::Id(n) => if ops.contains_key(n) {
            ops[n].lbp
        } else {
            0
        },
        _ => 0,
    }
}

/// `f x` applied to `y`: how `x f y` and `f x y` are both represented.
pub open spec fn apply2(f: Seq<char>, x: Term, y: Term) -> Term {
    Term::App(Box::new(Term::App(Box::new(Term::Id(f)), Box::new(x))), Box::new(y))
}

/// An expression whose operators all bind tighter than `min_bp`.
pub open spec fn expr_at(ts: TokenStream, min_bp: int, ops: Map<Seq<char>, OperatorInfo>) -> Parsed<Term>
    decreases ts.tokens.len(), 5nat,
{
    match front(ts) {
        Err(e) => Err(Failure::Lexical(e)),
        Ok(None) => Err(Failure::EarlyEof),
        Ok(Some(t)) => match prefix_at(t, advance(ts), ops) {
            Err(f) => Err(f),
            Ok((lhs, rest)) => if shorter(rest, ts) {
                infix_at(lhs, rest, min_bp, ops)
            } else {
                Err(Failure::EarlyEof)
            },
        },
    }
}

/// Extends `lhs` with the infix operators that follow it while they bind
/// tighter than `min_bp`.
pub open spec fn infix_at(lhs: Term, ts: TokenStream, min_bp: int, ops: Map<Seq<char>, OperatorInfo>) -> Parsed<Term>
    decreases ts.tokens.len(), 0nat,
{
    match front(ts) {
        Err(e) => Err(Failure::Lexical(e)),
        Ok(None) => Ok((lhs, ts)),
        Ok(Some(t)) => if lbp_of(t, ops) <= min_bp {
            Ok((lhs, ts))
        } else {
            match led_at(lhs, t, advance(ts), ops) {
                Err(f) => Err(f),
                Ok((e, rest)) => if shorter(rest, ts) {
                    infix_at(e, rest, min_bp, ops)
                } else {
                    Err(Failure::EarlyEof)
                },
            }
        },
    }
}

/// The right operand of the infix operator `t`, combined with `lhs`.
pub open spec fn led_at(lhs: Term, t: Tok, ts: TokenStream, ops: Map<Seq<char>, OperatorInfo>) -> Parsed<Term>
    decreases ts.tokens.len(), 6nat,
{
    match t {
        Tok::Id(n) => if ops.contains_key(n) {
            match expr_at(ts, ops[n].rbp as int, ops) {
                Err(f) => Err(f),
                Ok((rhs, rest)) => Ok((apply2(n, lhs, rhs), rest)),
            }
        } else {
            Err(Failure::Unexpected(seq![], t))
        },
        _ => Err(Failure::Unexpected(seq![], t)),
    }
}

/// The expression that token `t` starts, `ts` being what follows `t`.
pub open spec fn prefix_at(t: Tok, ts: TokenStream, ops: Map<Seq<char>, OperatorInfo>) -> Parsed<Term>
    decreases ts.tokens.len(), 7nat,
{
    match t {
        Tok::Let => let_at(ts, ops),
        Tok::If => if_at(ts, ops),
        Tok::Fun => fun_at(ts, ops),
        Tok::Int(i) => Ok((Term::Lit(Value::Int(i)), ts)),
        Tok::Id(n) => if ops.contains_key(n) {
            match expr_at(ts, ops[n].rbp as int, ops) {
                Err(f) => Err(f),
                Ok((rhs, rest)) => Ok((Term::App(Box::new(Term::Id(n)), Box::new(rhs)), rest)),
            }
        } else {
            Ok((Term::Id(n), ts))
        },
        Tok::LParen => match expr_at(ts, 0, ops) {
            Err(f) => Err(f),
            Ok((inner, rest)) => match expect(rest, Tok::RParen) {
                Err(f) => Err(f),
                Ok(after) => Ok((Term::Grouped(Box::new(inner)), after)),
            },
        },
        _ => Err(Failure::Unexpected(expression_starts(), t)),
    }
}

/// `let`, past the keyword: a name, a definition, `in`, and the body.
pub open spec fn let_at(ts: TokenStream, ops: Map<Seq<char>, OperatorInfo>) -> Parsed<Term>
    decreases ts.tokens.len(), 6nat,
{
    match front(ts) {
        Err(e) => Err(Failure::Lexical(e)),
        Ok(None) => Err(Failure::EarlyEof),
        Ok(Some(Tok::Id(id))) => match def_at(advance(ts), ops) {
            Err(f) => Err(f),
            Ok((def, r1)) => match expect(r1, Tok::In) {
                Err(f) => Err(f),
                Ok(r2) => if shorter(r2, ts) {
                    match expr_at(r2, 0, ops) {
                        Err(f) => Err(f),
                        Ok((body, r3)) => Ok((Term::Let { id, def, body: Box::new(body) }, r3)),
                    }
                } else {
                    Err(Failure::EarlyEof)
                },
            },
        },
        Ok(Some(t)) => Err(Failure::Unexpected(seq![any_id()], t)),
    }
}

/// `if`, past the keyword: a predicate, `then`, a branch, `else`, a branch.
pub open spec fn if_at(ts: TokenStream, ops: Map<Seq<char>, OperatorInfo>) -> Parsed<Term>
    decreases ts.tokens.len(), 6nat,
{
    match expr_at(ts, 0, ops) {
        Err(f) => Err(f),
        Ok((predicate, r1)) => match expect(r1, Tok::Then) {
            Err(f) => Err(f),
            Ok(r2) => if shorter(r2, ts) {
                match expr_at(r2, 0, ops) {
                    Err(f) => Err(f),
                    Ok((fulfilled, r3)) => match expect(r3, Tok::Else) {
                        Err(f) => Err(f),
                        Ok(r4) => if shorter(r4, ts) {
                            match expr_at(r4, 0, ops) {
                                Err(f) => Err(f),
                                Ok((unfulfilled, r5)) => Ok(
                                    (
                                        Term::If {
                                            predicate: Box::new(predicate),
                                            fulfilled: Box::new(fulfilled),
                                            unfulfilled: Box::new(unfulfilled),
                                        },
                                        r5,
                                    ),
                                ),
                            }
                        } else {
                            Err(Failure::EarlyEof)
                        },
                    },
                }
            } else {
                Err(Failure::EarlyEof)
            },
        },
    }
}

/// The longest run of identifiers at the front of `ts`.
pub open spec fn params_at(ts: TokenStream) -> Result<(Seq<Seq<char>>, TokenStream), Failure>
    decreases ts.tokens.len(),
{
    match front(ts) {
        Err(e) => Err(Failure::Lexical(e)),
        Ok(Some(Tok::Id(n))) => match params_at(advance(ts)) {
            Err(f) => Err(f),
            Ok((ns, rest)) => Ok((seq![n] + ns, rest)),
        },
        Ok(_) => Ok((seq![], ts)),
    }
}

/// `fun`, past the keyword: `ifx` if the function declares an infix
/// operator, the parameters, `->`, and the body.
pub open spec fn fun_at(ts: TokenStream, ops: Map<Seq<char>, OperatorInfo>) -> Parsed<Term>
    decreases ts.tokens.len(), 6nat,
{
    let infix = front(ts) == Ok::<Option<Tok>, LexError>(Some(Tok::Ifx));
    let r1 = if infix {
        advance(ts)
    } else {
        ts
    };
    match params_at(r1) {
        Err(f) => Err(f),
        Ok((args, r2)) => if infix && args.len() != 2 {
            Err(Failure::Arity)
        } else {
            match expect(r2, Tok::Arrow) {
                Err(f) => Err(f),
                Ok(r3) => if shorter(r3, ts) {
                    match expr_at(r3, 0, ops) {
                        Err(f) => Err(f),
                        Ok((body, r4)) => Ok(
                            (Term::Function { infix, args, body: Box::new(body) }, r4),
                        ),
                    }
                } else {
                    Err(Failure::EarlyEof)
                },
            }
        },
    }
}

/// A type: for now, the name of one.
pub open spec fn type_at(ts: TokenStream) -> Parsed<TypeTerm> {
    match front(ts) {
        Err(e) => Err(Failure::Lexical(e)),
        Ok(None) => Err(Failure::EarlyEof),
        Ok(Some(Tok::Id(n))) => Ok((TypeTerm::Named(n), advance(ts))),
        Ok(Some(t)) => Err(Failure::Unexpected(seq![any_id()], t)),
    }
}

/// A definition: `:: type`, `: type = body`, or `= body`.
pub open spec fn def_at(ts: TokenStream, ops: Map<Seq<char>, OperatorInfo>) -> Parsed<DefTerm>
    decreases ts.tokens.len(), 6nat,
{
    match front(ts) {
        Err(e) => Err(Failure::Lexical(e)),
        Ok(None) => Err(Failure::EarlyEof),
        Ok(Some(Tok::DoubleColon)) => match type_at(advance(ts)) {
            Err(f) => Err(f),
            Ok((ty, r1)) => Ok((DefTerm::Type(ty), r1)),
        },
        Ok(Some(Tok::Colon)) => match type_at(advance(ts)) {
            Err(f) => Err(f),
            Ok((ty, r1)) => match expect(r1, Tok::Eq) {
                Err(f) => Err(f),
                Ok(r2) => if shorter(r2, ts) {
                    match expr_at(r2, 0, ops) {
                        Err(f) => Err(f),
                        Ok((body, r3)) => Ok(
                            (DefTerm::Value { explicit_type: Some(ty), body: Box::new(body) }, r3),
                        ),
                    }
                } else {
                    Err(Failure::EarlyEof)
                },
            },
        },
        Ok(Some(Tok::Eq)) => match expr_at(advance(ts), 0, ops) {
            Err(f) => Err(f),
            Ok((body, r1)) => Ok((DefTerm::Value { explicit_type: None, body: Box::new(body) }, r1)),
        },
        Ok(Some(t)) => Err(Failure::Unexpected(seq![Tok::DoubleColon, Tok::Colon, Tok::Eq], t)),
    }
}

/// What parsing a whole token stream gives: one expression, and the tokens
/// after it.
pub open spec fn parse_of(ts: TokenStream, ops: Map<Seq<char>, OperatorInfo>) -> Parsed<Term> {
    expr_at(ts, 0, ops)
}

/// A stream of the tokens `toks` that ends with the input.
pub open spec fn ended(toks: Seq<Tok>) -> TokenStream {
    TokenStream { tokens: toks, error: None }
}

/// Chaining a left-associative operator groups to the left: with plain
/// identifiers `x`, `y` and `z`, `x op y op z` parses as `(x op y) op z`.
pub proof fn lemma_left_associative_chain(
    x: Seq<char>,
    op: Seq<char>,
    y: Seq<char>,
    z: Seq<char>,
    ops: Map<Seq<char>, OperatorInfo>,
)
    requires
        ops.contains_key(op),
        ops[op].wf(),
        ops[op].assoc == Assoc::Left,
        ops[op].lbp > 0,
        !ops.contains_key(x),
        !ops.contains_key(y),
        !ops.contains_key(z),
    ensures
        parse_of(
            ended(seq![Tok::Id(x), Tok::Id(op), Tok::Id(y), Tok::Id(op), Tok::Id(z)]),
            ops,
        ) == Ok::<_, Failure>(
            (apply2(op, apply2(op, Term::Id(x), Term::Id(y)), Term::Id(z)), ended(seq![])),
        ),
{
    let info = ops[op];
    let t0 = ended(seq![Tok::Id(x), Tok::Id(op), Tok::Id(y), Tok::Id(op), Tok::Id(z)]);
    let t1 = ended(seq![Tok::Id(op), Tok::Id(y), Tok::Id(op), Tok::Id(z)]);
    let t2 = ended(seq![Tok::Id(y), Tok::Id(op), Tok::Id(z)]);
    let t3 = ended(seq![Tok::Id(op), Tok::Id(z)]);
    let t4 = ended(seq![Tok::Id(z)]);
    let t5 = ended(seq![]);
    assert(advance(t0) == t1) by { assert(t0.tokens.drop_first() =~= t1.tokens); }
    assert(advance(t1) == t2) by { assert(t1.tokens.drop_first() =~= t2.tokens); }
    assert(advance(t2) == t3) by { assert(t2.tokens.drop_first() =~= t3.tokens); }
    assert(advance(t3) == t4) by { assert(t3.tokens.drop_first() =~= t4.tokens); }
    assert(advance(t4) == t5) by { assert(t4.tokens.drop_first() =~= t5.tokens); }
    let xy = apply2(op, Term::Id(x), Term::Id(y));
    let all = apply2(op, xy, Term::Id(z));
    // The right operand of the first `op` stops before the second one.
    assert(infix_at(Term::Id(y), t3, info.rbp as int, ops) == Ok::<_, Failure>((Term::Id(y), t3)));
    assert(expr_at(t2, info.rbp as int, ops) == Ok::<_, Failure>((Term::Id(y), t3)));
    assert(led_at(Term::Id(x), Tok::Id(op), t2, ops) == Ok::<_, Failure>((xy, t3)));
    // The right operand of the second `op` is `z`.
    assert(infix_at(Term::Id(z), t5, info.rbp as int, ops) == Ok::<_, Failure>((Term::Id(z), t5)));
    assert(expr_at(t4, info.rbp as int, ops) == Ok::<_, Failure>((Term::Id(z), t5)));
    assert(led_at(xy, Tok::Id(op), t4, ops) == Ok::<_, Failure>((all, t5)));
    assert(infix_at(all, t5, 0, ops) == Ok::<_, Failure>((all, t5)));
    assert(infix_at(xy, t3, 0, ops) == Ok::<_, Failure>((all, t5)));
    assert(infix_at(Term::Id(x), t1, 0, ops) == Ok::<_, Failure>((all, t5)));
    assert(prefix_at(Tok::Id(x), t1, ops) == Ok::<_, Failure>((Term::Id(x), t1)));
}

/// An operator that binds tighter on the left than another binds on the
/// right takes its operands first: with plain identifiers `x`, `y` and
/// `z`, `x lo y hi z` parses as `x lo (y hi z)`.
pub proof fn lemma_tighter_operator_first(
    x: Seq<char>,
    lo: Seq<char>,
    y: Seq<char>,
    hi: Seq<char>,
    z: Seq<char>,
    ops: Map<Seq<char>, OperatorInfo>,
)
    requires
        ops.contains_key(lo),
        ops.contains_key(hi),
        ops[lo].lbp > 0,
        ops[hi].lbp > ops[lo].rbp,
        !ops.contains_key(x),
        !ops.contains_key(y),
        !ops.contains_key(z),
    ensures
        parse_of(
            ended(seq![Tok::Id(x), Tok::Id(lo), Tok::Id(y), Tok::Id(hi), Tok::Id(z)]),
            ops,
        ) == Ok::<_, Failure>(
            (apply2(lo, Term::Id(x), apply2(hi, Term::Id(y), Term::Id(z))), ended(seq![])),
        ),
{
    let l = ops[lo];
    let h = ops[hi];
    let t0 = ended(seq![Tok::Id(x), Tok::Id(lo), Tok::Id(y), Tok::Id(hi), Tok::Id(z)]);
    let t1 = ended(seq![Tok::Id(lo), Tok::Id(y), Tok::Id(hi), Tok::Id(z)]);
    let t2 = ended(seq![Tok::Id(y), Tok::Id(hi), Tok::Id(z)]);
    let t3 = ended(seq![Tok::Id(hi), Tok::Id(z)]);
    let t4 = ended(seq![Tok::Id(z)]);
    let t5 = ended(seq![]);
    assert(advance(t0) == t1) by { assert(t0.tokens.drop_first() =~= t1.tokens); }
    assert(advance(t1) == t2) by { assert(t1.tokens.drop_first() =~= t2.tokens); }
    assert(advance(t2) == t3) by { assert(t2.tokens.drop_first() =~= t3.tokens); }
    assert(advance(t3) == t4) by { assert(t3.tokens.drop_first() =~= t4.tokens); }
    assert(advance(t4) == t5) by { assert(t4.tokens.drop_first() =~= t5.tokens); }
    let yz = apply2(hi, Term::Id(y), Term::Id(z));
    let all = apply2(lo, Term::Id(x), yz);
    // `hi` takes `y` and `z`.
    assert(infix_at(Term::Id(z), t5, h.rbp as int, ops) == Ok::<_, Failure>((Term::Id(z), t5)));
    assert(expr_at(t4, h.rbp as int, ops) == Ok::<_, Failure>((Term::Id(z), t5)));
    assert(led_at(Term::Id(y), Tok::Id(hi), t4, ops) == Ok::<_, Failure>((yz, t5)));
    // ... inside the right operand of `lo`.
    assert(infix_at(yz, t5, l.rbp as int, ops) == Ok::<_, Failure>((yz, t5)));
    assert(infix_at(Term::Id(y), t3, l.rbp as int, ops) == Ok::<_, Failure>((yz, t5)));
    assert(expr_at(t2, l.rbp as int, ops) == Ok::<_, Failure>((yz, t5)));
    assert(led_at(Term::Id(x), Tok::Id(lo), t2, ops) == Ok::<_, Failure>((all, t5)));
    assert(infix_at(all, t5, 0, ops) == Ok::<_, Failure>((all, t5)));
    assert(infix_at(Term::Id(x), t1, 0, ops) == Ok::<_, Failure>((all, t5)));
    assert(prefix_at(Tok::Id(x), t1, ops) == Ok::<_, Failure>((Term::Id(x), t1)));
}

/// Parentheses keep their contents together whatever the operators: with
/// plain identifiers `x`, `y` and `z`, `(x lo y) hi z` applies `hi` to the
/// group and `z`.
pub proof fn lemma_group_is_one_operand(
    x: Seq<char>,
    lo: Seq<char>,
    y: Seq<char>,
    hi: Seq<char>,
    z: Seq<char>,
    ops: Map<Seq<char>, OperatorInfo>,
)
    requires
        ops.contains_key(lo),
        ops.contains_key(hi),
        ops[lo].lbp > 0,
        ops[hi].lbp > 0,
        !ops.contains_key(x),
        !ops.contains_key(y),
        !ops.contains_key(z),
    ensures
        parse_of(
            ended(
                seq![
                    Tok::LParen,
                    Tok::Id(x),
                    Tok::Id(lo),
                    Tok::Id(y),
                    Tok::RParen,
                    Tok::Id(hi),
                    Tok::Id(z),
                ],
            ),
            ops,
        ) == Ok::<_, Failure>(
            (
                apply2(
                    hi,
                    Term::Grouped(Box::new(apply2(lo, Term::Id(x), Term::Id(y)))),
                    Term::Id(z),
                ),
                ended(seq![]),
            ),
        ),
{
    let l = ops[lo];
    let h = ops[hi];
    let t0 = ended(
        seq![
            Tok::LParen,
            Tok::Id(x),
            Tok::Id(lo),
            Tok::Id(y),
            Tok::RParen,
            Tok::Id(hi),
            Tok::Id(z),
        ],
    );
    let t1 = ended(seq![Tok::Id(x), Tok::Id(lo), Tok::Id(y), Tok::RParen, Tok::Id(hi), Tok::Id(z)]);
    let t2 = ended(seq![Tok::Id(lo), Tok::Id(y), Tok::RParen, Tok::Id(hi), Tok::Id(z)]);
    let t3 = ended(seq![Tok::Id(y), Tok::RParen, Tok::Id(hi), Tok::Id(z)]);
    let t4 = ended(seq![Tok::RParen, Tok::Id(hi), Tok::Id(z)]);
    let t5 = ended(seq![Tok::Id(hi), Tok::Id(z)]);
    let t6 = ended(seq![Tok::Id(z)]);
    let t7 = ended(seq![]);
    assert(advance(t0) == t1) by { assert(t0.tokens.drop_first() =~= t1.tokens); }
    assert(advance(t1) == t2) by { assert(t1.tokens.drop_first() =~= t2.tokens); }
    assert(advance(t2) == t3) by { assert(t2.tokens.drop_first() =~= t3.tokens); }
    assert(advance(t3) == t4) by { assert(t3.tokens.drop_first() =~= t4.tokens); }
    assert(advance(t4) == t5) by { assert(t4.tokens.drop_first() =~= t5.tokens); }
    assert(advance(t5) == t6) by { assert(t5.tokens.drop_first() =~= t6.tokens); }
    assert(advance(t6) == t7) by { assert(t6.tokens.drop_first() =~= t7.tokens); }
    let xy = apply2(lo, Term::Id(x), Term::Id(y));
    let group = Term::Grouped(Box::new(xy));
    let all = apply2(hi, group, Term::Id(z));
    // Inside the parentheses, `lo` takes `x` and `y` and stops at `)`.
    assert(infix_at(Term::Id(y), t4, l.rbp as int, ops) == Ok::<_, Failure>((Term::Id(y), t4)));
    assert(expr_at(t3, l.rbp as int, ops) == Ok::<_, Failure>((Term::Id(y), t4)));
    assert(led_at(Term::Id(x), Tok::Id(lo), t3, ops) == Ok::<_, Failure>((xy, t4)));
    assert(infix_at(xy, t4, 0, ops) == Ok::<_, Failure>((xy, t4)));
    assert(infix_at(Term::Id(x), t2, 0, ops) == Ok::<_, Failure>((xy, t4)));
    assert(prefix_at(Tok::Id(x), t2, ops) == Ok::<_, Failure>((Term::Id(x), t2)));
    assert(expr_at(t1, 0, ops) == Ok::<_, Failure>((xy, t4)));
    assert(expect(t4, Tok::RParen) == Ok::<_, Failure>(t5));
    assert(prefix_at(Tok::LParen, t1, ops) == Ok::<_, Failure>((group, t5)));
    // Outside, `hi` applies to the group and `z`.
    assert(infix_at(Term::Id(z), t7, h.rbp as int, ops) == Ok::<_, Failure>((Term::Id(z), t7)));
    assert(expr_at(t6, h.rbp as int, ops) == Ok::<_, Failure>((Term::Id(z), t7)));
    assert(led_at(group, Tok::Id(hi), t6, ops) == Ok::<_, Failure>((all, t7)));
    assert(infix_at(all, t7, 0, ops) == Ok::<_, Failure>((all, t7)));
    assert(infix_at(group, t5, 0, ops) == Ok::<_, Failure>((all, t7)));
}

/// `expected` as a failure that names `want`.
fn expected(want: Kind, found: Kind) -> (r: ParseError)
    ensures
        r@ == Failure::Unexpected(seq![want@], found@),
{
    let v = vec![want];
    let r = ParseError::Unexpected(v, found);
    proof {
        assert(r@->Unexpected_0 =~= seq![want@]);
    }
    r
}

/// A parser over the tokens of one source text, with its own fixity table.
///
/// The table holds the built-in operators for the parser's whole life: a
/// function declared with `ifx` is parsed as a function, and does not add
/// an operator to the table. An operator name at the start of an expression
/// is applied, as a prefix, to the operand that follows it.
pub struct Parser<'a> {
    lexer: &'a mut Lexer<'a>,
    fixities: FixityTable,
}

impl<'a> Parser<'a> {
    pub closed spec fn wf(&self) -> bool {
        self.lexer.wf() && self.fixities.wf()
    }

    /// The tokens not yet read.
    pub closed spec fn remaining(&self) -> TokenStream {
        self.lexer@
    }

    /// The operators the parser knows, with their binding powers.
    pub closed spec fn operators(&self) -> Map<Seq<char>, OperatorInfo> {
        self.fixities@
    }

    /// A parser over `lexer` that knows the built-in operators.
    pub fn new(lexer: &'a mut Lexer<'a>) -> (r: Parser<'a>)
        requires
            old(lexer).wf(),
        ensures
            r.wf(),
            r.remaining() == old(lexer)@,
            r.operators() == builtin_operators(),
    {
        Parser { lexer, fixities: FixityTable::builtin() }
    }

    /// Parses one expression; the tokens after it stay unread.
    pub fn parse(&mut self) -> (r: Result<Expr, ParseError>)
        requires
            old(self).wf(),
        ensures
            final(self).wf(),
            final(self).operators() == old(self).operators(),
            outcome(r, final(self).remaining()) == parse_of(old(self).remaining(), old(self).operators()),
    {
        self.parse_expr()
    }

    fn parse_expr(&mut self) -> (r: Result<Expr, ParseError>)
        requires
            old(self).wf(),
        ensures
            final(self).wf(),
            final(self).fixities == old(self).fixities,
            outcome(r, final(self).lexer@) == expr_at(old(self).lexer@, 0, old(self).fixities@),
            r is Ok ==> shorter(final(self).lexer@, old(self).lexer@),
        decreases old(self).lexer@.tokens.len(), 6nat,
    {
        self.pratt_parse(0)
    }

    /// How tightly `kind` binds to an expression on its left.
    fn lbp(&self, kind: &Kind) -> (r: u8)
        requires
            self.fixities.wf(),
        ensures
            r == lbp_of(kind@, self.fixities@),
    {
        match kind {
            Kind::TokId(name) => match self.fixities.lookup(name) {
                Some(info) => info.lbp,
                None => 0,
            },
            _ => 0,
        }
    }

    fn pratt_parse(&mut self, min_bp: u8) -> (r: Result<Expr, ParseError>)
        requires
            old(self).wf(),
        ensures
            final(self).wf(),
            final(self).fixities == old(self).fixities,
            outcome(r, final(self).lexer@) == expr_at(old(self).lexer@, min_bp as int, old(self).fixities@),
            r is Ok ==> shorter(final(self).lexer@, old(self).lexer@),
        decreases old(self).lexer@.tokens.len(), 5nat,
    {
        let ghost ts = self.lexer@;
        let ghost ops = self.fixities@;
        let first = self.lexer.next();
        let kind = match first {
            Err(e) => return Err(ParseError::Lexical(e)),
            Ok(None) => return Err(ParseError::EarlyEof),
            Ok(Some(k)) => k,
        };
        let mut lhs = match self.nud(kind) {
            Err(e) => return Err(e),
            Ok(e) => e,
        };
        loop
            invariant
                self.wf(),
                self.fixities == old(self).fixities,
                ts == old(self).lexer@,
                ops == self.fixities@,
                shorter(self.lexer@, ts),
                infix_at(lhs@, self.lexer@, min_bp as int, ops) == expr_at(ts, min_bp as int, ops),
            decreases self.lexer@.tokens.len(),
        {
            let t = match self.lexer.peek() {
                Err(e) => return Err(ParseError::Lexical(e)),
                Ok(None) => return Ok(lhs),
                Ok(Some(t)) => t,
            };
            if self.lbp(&t) <= min_bp {
                return Ok(lhs);
            }
            let _ = self.lexer.next();
            lhs = match self.led(lhs, t) {
                Err(e) => return Err(e),
                Ok(e) => e,
            };
        }
    }

    /// The expression that `kind`, just read, starts.
    fn nud(&mut self, kind: Kind) -> (r: Result<Expr, ParseError>)
        requires
            old(self).wf(),
        ensures
            final(self).wf(),
            final(self).fixities == old(self).fixities,
            outcome(r, final(self).lexer@) == prefix_at(kind@, old(self).lexer@, old(self).fixities@),
            r is Ok ==> final(self).lexer@.tokens.len() <= old(self).lexer@.tokens.len(),
        decreases old(self).lexer@.tokens.len(), 9nat,
    {
        match kind {
            Kind::Let => self.parse_let(),
            Kind::If => self.parse_if(),
            Kind::Fun => self.parse_fun(),
            Kind::TokInt(i) => Ok(Expr::Literal(Literal::Int(i))),
            Kind::TokId(name) => match self.fixities.lookup(&name) {
                Some(info) => match self.pratt_parse(info.rbp) {
                    Err(e) => Err(e),
                    Ok(rhs) => {
                        let f = Expr::Id(name);
                        assert(f@ == Term::Id(name@));
                        Ok(Expr::App(Box::new(f), Box::new(rhs)))
                    },
                },
                None => Ok(Expr::Id(name)),
            },
            Kind::LParen => {
                let inner = match self.pratt_parse(0) {
                    Err(e) => return Err(e),
                    Ok(e) => e,
                };
                match self.lexer.next() {
                    Err(e) => Err(ParseError::Lexical(e)),
                    Ok(None) => Err(ParseError::EarlyEof),
                    Ok(Some(Kind::RParen)) => Ok(Expr::Grouped(Box::new(inner))),
                    Ok(Some(t)) => Err(expected(Kind::RParen, t)),
                }
            },
            other => {
                let starts = vec![
                    Kind::Let,
                    Kind::If,
                    Kind::Fun,
                    Kind::LParen,
                    Kind::TokId(String::new()),
                    Kind::TokInt(0),
                ];
                let r = ParseError::Unexpected(starts, other);
                proof {
                    assert(r@->Unexpected_0 =~= expression_starts());
                }
                Err(r)
            },
        }
    }

    /// The right operand of the infix operator `op`, just read, combined
    /// with `lhs`.
    fn led(&mut self, lhs: Expr, op: Kind) -> (r: Result<Expr, ParseError>)
        requires
            old(self).wf(),
        ensures
            final(self).wf(),
            final(self).fixities == old(self).fixities,
            outcome(r, final(self).lexer@) == led_at(lhs@, op@, old(self).lexer@, old(self).fixities@),
            r is Ok ==> final(self).lexer@.tokens.len() <= old(self).lexer@.tokens.len(),
        decreases old(self).lexer@.tokens.len(), 7nat,
    {
        match op {
            Kind::TokId(name) => match self.fixities.lookup(&name) {
                Some(info) => match self.pratt_parse(info.rbp) {
                    Err(e) => Err(e),
                    Ok(rhs) => {
                        let f = Expr::Id(name);
                        assert(f@ == Term::Id(name@));
                        let partial = Expr::App(Box::new(f), Box::new(lhs));
                        assert(partial@ == Term::App(Box::new(Term::Id(name@)), Box::new(lhs@)));
                        Ok(Expr::App(Box::new(partial), Box::new(rhs)))
                    },
                },
                None => {
                    let r = ParseError::Unexpected(Vec::new(), Kind::TokId(name));
                    proof {
                        assert(r@->Unexpected_0 =~= seq![]);
                    }
                    Err(r)
                },
            },
            other => {
                let r = ParseError::Unexpected(Vec::new(), other);
                proof {
                    assert(r@->Unexpected_0 =~= seq![]);
                }
                Err(r)
            },
        }
    }
    /// `let`, past the keyword.
    fn parse_let(&mut self) -> (r: Result<Expr, ParseError>)
        requires
            old(self).wf(),
        ensures
            final(self).wf(),
            final(self).fixities == old(self).fixities,
            outcome(r, final(self).lexer@) == let_at(old(self).lexer@, old(self).fixities@),
            r is Ok ==> final(self).lexer@.tokens.len() <= old(self).lexer@.tokens.len(),
        decreases old(self).lexer@.tokens.len(), 8nat,
    {
        let ghost ts = self.lexer@;
        let id = match self.lexer.next() {
            Err(e) => return Err(ParseError::Lexical(e)),
            Ok(None) => return Err(ParseError::EarlyEof),
            Ok(Some(Kind::TokId(id))) => id,
            Ok(Some(t)) => {
                let r = ParseError::Unexpected(vec![Kind::TokId(String::new())], t);
                proof {
                    assert(r@->Unexpected_0 =~= seq![any_id()]);
                }
                return Err(r);
            },
        };
        let def = match self.parse_def() {
            Err(e) => return Err(e),
            Ok(d) => d,
        };
        match self.lexer.next() {
            Err(e) => return Err(ParseError::Lexical(e)),
            Ok(None) => return Err(ParseError::EarlyEof),
            Ok(Some(Kind::In)) => {},
            Ok(Some(t)) => return Err(expected(Kind::In, t)),
        }
        assert(shorter(self.lexer@, ts));
        match self.parse_expr() {
            Err(e) => Err(e),
            Ok(body) => Ok(Expr::Let { id, def, in_expr: Box::new(body) }),
        }
    }

    /// `if`, past the keyword.
    fn parse_if(&mut self) -> (r: Result<Expr, ParseError>)
        requires
            old(self).wf(),
        ensures
            final(self).wf(),
            final(self).fixities == old(self).fixities,
            outcome(r, final(self).lexer@) == if_at(old(self).lexer@, old(self).fixities@),
            r is Ok ==> final(self).lexer@.tokens.len() <= old(self).lexer@.tokens.len(),
        decreases old(self).lexer@.tokens.len(), 8nat,
    {
        let ghost ts = self.lexer@;
        let predicate = match self.parse_expr() {
            Err(e) => return Err(e),
            Ok(e) => e,
        };
        match self.lexer.next() {
            Err(e) => return Err(ParseError::Lexical(e)),
            Ok(None) => return Err(ParseError::EarlyEof),
            Ok(Some(Kind::Then)) => {},
            Ok(Some(t)) => return Err(expected(Kind::Then, t)),
        }
        assert(shorter(self.lexer@, ts));
        let fulfilled = match self.parse_expr() {
            Err(e) => return Err(e),
            Ok(e) => e,
        };
        match self.lexer.next() {
            Err(e) => return Err(ParseError::Lexical(e)),
            Ok(None) => return Err(ParseError::EarlyEof),
            Ok(Some(Kind::Else)) => {},
            Ok(Some(t)) => return Err(expected(Kind::Else, t)),
        }
        assert(shorter(self.lexer@, ts));
        match self.parse_expr() {
            Err(e) => Err(e),
            Ok(unfulfilled) => Ok(
                Expr::If {
                    predicate: Box::new(predicate),
                    fulfilled: Box::new(fulfilled),
                    unfulfilled: Box::new(unfulfilled),
                },
            ),
        }
    }

    /// `fun`, past the keyword.
    fn parse_fun(&mut self) -> (r: Result<Expr, ParseError>)
        requires
            old(self).wf(),
        ensures
            final(self).wf(),
            final(self).fixities == old(self).fixities,
            outcome(r, final(self).lexer@) == fun_at(old(self).lexer@, old(self).fixities@),
            r is Ok ==> final(self).lexer@.tokens.len() <= old(self).lexer@.tokens.len(),
        decreases old(self).lexer@.tokens.len(), 8nat,
    {
        let ghost ts = self.lexer@;
        let mut is_infix = false;
        match self.lexer.peek() {
            Err(e) => return Err(ParseError::Lexical(e)),
            Ok(Some(Kind::Ifx)) => {
                let _ = self.lexer.next();
                is_infix = true;
            },
            Ok(_) => {},
        }
        let args = match self.parse_args() {
            Err(e) => return Err(e),
            Ok(a) => a,
        };
        if is_infix && args.len() != 2 {
            return Err(ParseError::ArityViolation);
        }
        match self.lexer.next() {
            Err(e) => return Err(ParseError::Lexical(e)),
            Ok(None) => return Err(ParseError::EarlyEof),
            Ok(Some(Kind::Arrow)) => {},
            Ok(Some(t)) => return Err(expected(Kind::Arrow, t)),
        }
        assert(shorter(self.lexer@, ts));
        match self.parse_expr() {
            Err(e) => Err(e),
            Ok(body) => Ok(Expr::Function { ifx: is_infix, args, body: Box::new(body) }),
        }
    }

    /// The longest run of identifiers that comes next.
    fn parse_args(&mut self) -> (r: Result<Vec<String>, ParseError>)
        requires
            old(self).wf(),
        ensures
            final(self).wf(),
            final(self).fixities == old(self).fixities,
            final(self).lexer@.tokens.len() <= old(self).lexer@.tokens.len(),
            match r {
                Ok(args) => params_at(old(self).lexer@) == Ok::<_, Failure>(
                    (args@.map_values(|s: String| s@), final(self).lexer@),
                ),
                Err(e) => params_at(old(self).lexer@) == Err::<(Seq<Seq<char>>, TokenStream), _>(e@),
            },
    {
        let ghost ts = self.lexer@;
        let mut args: Vec<String> = Vec::new();
        loop
            invariant
                self.wf(),
                self.fixities == old(self).fixities,
                ts == old(self).lexer@,
                self.lexer@.tokens.len() <= ts.tokens.len(),
                params_at(ts) == (match params_at(self.lexer@) {
                    Ok((ns, rest)) => Ok((args@.map_values(|s: String| s@) + ns, rest)),
                    Err(f) => Err(f),
                }),
            decreases self.lexer@.tokens.len(),
        {
            let ghost before = self.lexer@;
            let ghost names = args@.map_values(|s: String| s@);
            match self.lexer.peek() {
                Err(e) => return Err(ParseError::Lexical(e)),
                Ok(Some(Kind::TokId(name))) => {
                    let _ = self.lexer.next();
                    args.push(name);
                    proof {
                        let now = args@.map_values(|s: String| s@);
                        assert(now =~= names + seq![name@]);
                        match params_at(self.lexer@) {
                            Ok((ns, rest)) => {
                                assert(names + (seq![name@] + ns) =~= now + ns);
                            },
                            Err(f) => {},
                        }
                    }
                },
                Ok(_) => {
                    proof {
                        assert(args@.map_values(|s: String| s@) + seq![] =~= args@.map_values(
                            |s: String| s@,
                        ));
                    }
                    return Ok(args);
                },
            }
        }
    }

    /// A definition: `:: type`, `: type = body`, or `= body`.
    fn parse_def(&mut self) -> (r: Result<Definition, ParseError>)
        requires
            old(self).wf(),
        ensures
            final(self).wf(),
            final(self).fixities == old(self).fixities,
            match r {
                Ok(d) => def_at(old(self).lexer@, old(self).fixities@) == Ok::<_, Failure>(
                    (d@, final(self).lexer@),
                ),
                Err(e) => def_at(old(self).lexer@, old(self).fixities@) == Err::<(DefTerm, TokenStream), _>(e@),
            },
            r is Ok ==> final(self).lexer@.tokens.len() <= old(self).lexer@.tokens.len(),
        decreases old(self).lexer@.tokens.len(), 8nat,
    {
        let ghost ts = self.lexer@;
        match self.lexer.next() {
            Err(e) => Err(ParseError::Lexical(e)),
            Ok(None) => Err(ParseError::EarlyEof),
            Ok(Some(Kind::DoubleColon)) => match self.parse_type_def() {
                Err(e) => Err(e),
                Ok(t) => Ok(Definition::TypeDef(t)),
            },
            Ok(Some(Kind::Colon)) => {
                let t = match self.parse_type_def() {
                    Err(e) => return Err(e),
                    Ok(t) => t,
                };
                match self.lexer.next() {
                    Err(e) => return Err(ParseError::Lexical(e)),
                    Ok(None) => return Err(ParseError::EarlyEof),
                    Ok(Some(Kind::Eq)) => {},
                    Ok(Some(tok)) => return Err(expected(Kind::Eq, tok)),
                }
                assert(shorter(self.lexer@, ts));
                match self.parse_expr() {
                    Err(e) => Err(e),
                    Ok(body) => Ok(Definition::ExprDef { explicit_type: Some(t), body: Box::new(body) }),
                }
            },
            Ok(Some(Kind::Eq)) => match self.parse_expr() {
                Err(e) => Err(e),
                Ok(body) => Ok(Definition::ExprDef { explicit_type: None, body: Box::new(body) }),
            },
            Ok(Some(t)) => {
                let r = ParseError::Unexpected(vec![Kind::DoubleColon, Kind::Colon, Kind::Eq], t);
                proof {
                    assert(r@->Unexpected_0 =~= seq![Tok::DoubleColon, Tok::Colon, Tok::Eq]);
                }
                Err(r)
            },
        }
    }

    /// A type: for now, the name of one.
    fn parse_type_def(&mut self) -> (r: Result<TypeDef, ParseError>)
        requires
            old(self).wf(),
        ensures
            final(self).wf(),
            final(self).fixities == old(self).fixities,
            match r {
                Ok(t) => type_at(old(self).lexer@) == Ok::<_, Failure>((t@, final(self).lexer@)),
                Err(e) => type_at(old(self).lexer@) == Err::<(TypeTerm, TokenStream), _>(e@),
            },
            r is Ok ==> shorter(final(self).lexer@, old(self).lexer@),
    {
        match self.lexer.next() {
            Err(e) => Err(ParseError::Lexical(e)),
            Ok(None) => Err(ParseError::EarlyEof),
            Ok(Some(Kind::TokId(name))) => Ok(TypeDef::TypeId(name)),
            Ok(Some(t)) => {
                let r = ParseError::Unexpected(vec![Kind::TokId(String::new())], t);
                proof {
                    assert(r@->Unexpected_0 =~= seq![any_id()]);
                }
                Err(r)
            },
        }
    }
}

} // verus!
