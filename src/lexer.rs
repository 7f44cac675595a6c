use vstd::prelude::*;
use vstd::string::StringSliceAdditionalSpecFns;

verus! {

/// A lexical error, with the byte offset at which the offending token starts.
#[derive(Clone, Copy, Debug, PartialEq, Eq)]
pub enum LexError {
    /// A byte that starts no token (any byte of 0x80 or more among them).
    InvalidCharacter(usize),
    /// A run of decimal digits whose value does not fit in an `i32`.
    IntegerOverflow(usize),
}

/// A token.
#[derive(Clone, Debug, PartialEq, Eq)]
pub enum Kind {
    LParen,
    RParen,
    Let,
    In,
    DoubleColon,
    Colon,
    Semicolon,
    Eq,
    LBracket,
    RBracket,
    Pipe,
    Fun,
    Ifx,
    Arrow,
    If,
    Then,
    Else,
    TokId(String),
    TokBool(bool),
    TokStr(String),
    TokChar(char),
    TokInt(i32),
}

/// What a token is, with its text as a sequence of characters.
pub enum Tok {
    LParen,
    RParen,
    Let,
    In,
    DoubleColon,
    Colon,
    Semicolon,
    Eq,
    LBracket,
    RBracket,
    Pipe,
    Fun,
    Ifx,
    Arrow,
    If,
    Then,
    Else,
    Id(Seq<char>),
    Bool(bool),
    Str(Seq<char>),
    Char(char),
    Int(i32),
}

impl View for Kind {
    type V = Tok;

    open spec fn view(&self) -> Tok {
        match self {
            Kind::LParen => Tok::LParen,
            Kind::RParen => Tok::RParen,
            Kind::Let => Tok::Let,
            Kind::In => Tok::In,
            Kind::DoubleColon => Tok::DoubleColon,
            Kind::Colon => Tok::Colon,
            Kind::Semicolon => Tok::Semicolon,
            Kind::Eq => Tok::Eq,
            Kind::LBracket => Tok::LBracket,
            Kind::RBracket => Tok::RBracket,
            Kind::Pipe => Tok::Pipe,
            Kind::Fun => Tok::Fun,
            Kind::Ifx => Tok::Ifx,
            Kind::Arrow => Tok::Arrow,
            Kind::If => Tok::If,
            Kind::Then => Tok::Then,
            Kind::Else => Tok::Else,
            Kind::TokId(s) => Tok::Id(s@),
            Kind::TokBool(b) => Tok::Bool(*b),
            Kind::TokStr(s) => Tok::Str(s@),
            Kind::TokChar(c) => Tok::Char(*c),
            Kind::TokInt(i) => Tok::Int(*i),
        }
    }
}

impl Kind {
    /// A copy of this token.
    pub fn duplicate(&self) -> (r: Kind)
        ensures
            r == *self,
    {
        match self {
            Kind::LParen => Kind::LParen,
            Kind::RParen => Kind::RParen,
            Kind::Let => Kind::Let,
            Kind::In => Kind::In,
            Kind::DoubleColon => Kind::DoubleColon,
            Kind::Colon => Kind::Colon,
            Kind::Semicolon => Kind::Semicolon,
            Kind::Eq => Kind::Eq,
            Kind::LBracket => Kind::LBracket,
            Kind::RBracket => Kind::RBracket,
            Kind::Pipe => Kind::Pipe,
            Kind::Fun => Kind::Fun,
            Kind::Ifx => Kind::Ifx,
            Kind::Arrow => Kind::Arrow,
            Kind::If => Kind::If,
            Kind::Then => Kind::Then,
            Kind::Else => Kind::Else,
            Kind::TokId(s) => Kind::TokId(s.clone()),
            Kind::TokBool(b) => Kind::TokBool(*b),
            Kind::TokStr(s) => Kind::TokStr(s.clone()),
            Kind::TokChar(c) => Kind::TokChar(*c),
            Kind::TokInt(i) => Kind::TokInt(*i),
        }
    }
}

/// The tokens still to come, and how the stream ends after them: `None` at
/// the end of the input, `Some(e)` where a lexical error stops it.
pub struct TokenStream {
    pub tokens: Seq<Tok>,
    pub error: Option<LexError>,
}

/// What reading one token from `ts` gives.
pub open spec fn front(ts: TokenStream) -> Result<Option<Tok>, LexError> {
    if ts.tokens.len() > 0 {
        Ok(Some(ts.tokens[0]))
    } else {
        match ts.error {
            Some(e) => Err(e),
            None => Ok(None),
        }
    }
}

/// The stream after reading one token from `ts`: at the end, or at an
/// error, it stays as it is.
pub open spec fn advance(ts: TokenStream) -> TokenStream {
    if ts.tokens.len() > 0 {
        TokenStream { tokens: ts.tokens.drop_first(), error: ts.error }
    } else {
        ts
    }
}

/// A read result seen through the token view.
pub open spec fn read_view(r: Result<Option<Kind>, LexError>) -> Result<Option<Tok>, LexError> {
    match r {
        Ok(Some(k)) => Ok(Some(k@)),
        Ok(None) => Ok(None),
        Err(e) => Err(e),
    }
}

pub open spec fn space(b: u8) -> bool {
    b == (' ' as u8) || b == ('\t' as u8) || b == ('\n' as u8) || b == ('\r' as u8)
}

pub open spec fn digit(b: u8) -> bool {
    ('0' as u8) <= b <= ('9' as u8)
}

pub open spec fn letter(b: u8) -> bool {
    (('a' as u8) <= b <= ('z' as u8)) || (('A' as u8) <= b <= ('Z' as u8)) || b == ('_' as u8)
}

pub open spec fn symbol(b: u8) -> bool {
    b == ('!' as u8) || b == ('#' as u8) || b == ('$' as u8) || b == ('%' as u8) || b == ('&' as u8) || b == ('*' as u8) || b == ('+' as u8)
        || b == ('-' as u8) || b == ('/' as u8) || b == ('\\' as u8) || b == ('<' as u8) || b == ('>' as u8) || b == ('?' as u8)
        || b == ('@' as u8) || b == ('^' as u8) || b == ('~' as u8)
}

/// The classes of bytes that make up a multi-byte token.
#[derive(Clone, Copy, Debug, PartialEq, Eq)]
pub enum CharClass {
    /// Decimal digits, in an integer literal.
    Digit,
    /// Letters, digits and underscores, after the first byte of a word.
    Word,
    /// Operator characters, in a symbolic identifier.
    Symbol,
}

pub open spec fn in_class(cls: CharClass, b: u8) -> bool {
    match cls {
        CharClass::Digit => digit(b),
        CharClass::Word => letter(b) || digit(b),
        CharClass::Symbol => symbol(b),
    }
}

/// The first offset at or after `p` that does not hold white space.
pub open spec fn skip_space(b: Seq<u8>, p: int) -> int
    decreases b.len() - p,
{
    if 0 <= p < b.len() && space(b[p]) {
        skip_space(b, p + 1)
    } else {
        p
    }
}

/// The end of the longest run of bytes of class `cls` that starts at `p`.
pub open spec fn span(b: Seq<u8>, p: int, cls: CharClass) -> int
    decreases b.len() - p,
{
    if 0 <= p < b.len() && in_class(cls, b[p]) {
        span(b, p + 1, cls)
    } else {
        p
    }
}

/// The value of a sequence of decimal digits.
pub open spec fn decimal_value(w: Seq<u8>) -> int
    decreases w.len(),
{
    if w.len() == 0 {
        0
    } else {
        decimal_value(w.drop_last()) * 10 + (w.last() - ('0' as u8))
    }
}

/// The characters of a sequence of ASCII bytes.
pub open spec fn ascii_chars(w: Seq<u8>) -> Seq<char> {
    w.map_values(|x: u8| x as char)
}

/// The keyword that a word spells, if any.
pub open spec fn keyword_of(w: Seq<u8>) -> Option<Tok> {
    if w == seq![('l' as u8), ('e' as u8), ('t' as u8)] {
        Some(Tok::Let)
    } else if w == seq![('i' as u8), ('n' as u8)] {
        Some(Tok::In)
    } else if w == seq![('i' as u8), ('f' as u8)] {
        Some(Tok::If)
    } else if w == seq![('t' as u8), ('h' as u8), ('e' as u8), ('n' as u8)] {
        Some(Tok::Then)
    } else if w == seq![('e' as u8), ('l' as u8), ('s' as u8), ('e' as u8)] {
        Some(Tok::Else)
    } else if w == seq![('f' as u8), ('u' as u8), ('n' as u8)] {
        Some(Tok::Fun)
    } else if w == seq![('i' as u8), ('f' as u8), ('x' as u8)] {
        Some(Tok::Ifx)
    } else {
        None
    }
}

/// The outcome of scanning for one token.
pub enum Scan {
    /// A token, and the offset just past it.
    Token(Tok, int),
    /// Only white space is left.
    End,
    Failed(LexError),
}

/// The token that starts at the first non-blank byte at or after `p`.
pub open spec fn scan(b: Seq<u8>, p: int) -> Scan {
    let s = skip_space(b, p);
    if s < 0 || s >= b.len() {
        Scan::End
    } else {
        let c = b[s];
        if c == ('(' as u8) {
            Scan::Token(Tok::LParen, s + 1)
        } else if c == (')' as u8) {
            Scan::Token(Tok::RParen, s + 1)
        } else if c == (':' as u8) {
            if s + 1 < b.len() && b[s + 1] == (':' as u8) {
                Scan::Token(Tok::DoubleColon, s + 2)
            } else {
                Scan::Token(Tok::Colon, s + 1)
            }
        } else if c == (';' as u8) {
            Scan::Token(Tok::Semicolon, s + 1)
        } else if c == ('=' as u8) {
            Scan::Token(Tok::Eq, s + 1)
        } else if c == ('{' as u8) {
            Scan::Token(Tok::LBracket, s + 1)
        } else if c == ('}' as u8) {
            Scan::Token(Tok::RBracket, s + 1)
        } else if c == ('|' as u8) {
            Scan::Token(Tok::Pipe, s + 1)
        } else if c == ('-' as u8) && s + 1 < b.len() && b[s + 1] == ('>' as u8) {
            Scan::Token(Tok::Arrow, s + 2)
        } else if digit(c) {
            let e = span(b, s + 1, CharClass::Digit);
            let v = decimal_value(b.subrange(s, e));
            if v <= i32::MAX {
                Scan::Token(Tok::Int(v as i32), e)
            } else {
                Scan::Failed(LexError::IntegerOverflow(s as usize))
            }
        } else if letter(c) {
            let e = span(b, s + 1, CharClass::Word);
            let w = b.subrange(s, e);
            match keyword_of(w) {
                Some(t) => Scan::Token(t, e),
                None => Scan::Token(Tok::Id(ascii_chars(w)), e),
            }
        } else if symbol(c) {
            let e = span(b, s + 1, CharClass::Symbol);
            Scan::Token(Tok::Id(ascii_chars(b.subrange(s, e))), e)
        } else {
            Scan::Failed(LexError::InvalidCharacter(s as usize))
        }
    }
}

/// The tokens of `b` from offset `p` on. A token always ends past `p` (see
/// `lemma_scan_advances`), which the definition checks to terminate.
pub open spec fn stream_from(b: Seq<u8>, p: int) -> TokenStream
    decreases b.len() - p,
{
    match scan(b, p) {
        Scan::Token(t, q) => {
            if p < q <= b.len() {
                let rest = stream_from(b, q);
                TokenStream { tokens: seq![t] + rest.tokens, error: rest.error }
            } else {
                TokenStream { tokens: seq![t], error: None }
            }
        },
        Scan::End => TokenStream { tokens: seq![], error: None },
        Scan::Failed(e) => TokenStream { tokens: seq![], error: Some(e) },
    }
}

/// The tokens of a whole input.
pub open spec fn tokens_of(b: Seq<u8>) -> TokenStream {
    stream_from(b, 0)
}

pub open spec fn scanned(r: Result<Option<(Kind, usize)>, LexError>) -> Scan {
    match r {
        Ok(Some((k, q))) => Scan::Token(k@, q as int),
        Ok(None) => Scan::End,
        Err(e) => Scan::Failed(e),
    }
}

fn is_whitespace(b: u8) -> (r: bool)
    ensures
        r == space(b),
{
    b == (' ' as u8) || b == ('\t' as u8) || b == ('\n' as u8) || b == ('\r' as u8)
}

fn is_number(b: u8) -> (r: bool)
    ensures
        r == digit(b),
{
    ('0' as u8) <= b && b <= ('9' as u8)
}

fn is_id_start(b: u8) -> (r: bool)
    ensures
        r == letter(b),
{
    (('a' as u8) <= b && b <= ('z' as u8)) || (('A' as u8) <= b && b <= ('Z' as u8)) || b == ('_' as u8)
}

fn is_id_continue(b: u8) -> (r: bool)
    ensures
        r == (letter(b) || digit(b)),
{
    is_id_start(b) || is_number(b)
}

fn matches_sym(b: u8) -> (r: bool)
    ensures
        r == symbol(b),
{
    b == ('!' as u8) || b == ('#' as u8) || b == ('$' as u8) || b == ('%' as u8)
        || b == ('&' as u8) || b == ('*' as u8) || b == ('+' as u8) || b == ('-' as u8)
        || b == ('/' as u8) || b == ('\\' as u8) || b == ('<' as u8) || b == ('>' as u8)
        || b == ('?' as u8) || b == ('@' as u8) || b == ('^' as u8) || b == ('~' as u8)
}

fn class_has(cls: CharClass, b: u8) -> (r: bool)
    ensures
        r == in_class(cls, b),
{
    match cls {
        CharClass::Digit => is_number(b),
        CharClass::Word => is_id_continue(b),
        CharClass::Symbol => matches_sym(b),
    }
}

/// Relies on `str` indexing by a byte range (then `to_owned`): a range of
/// ASCII bytes lies on character boundaries, and the slice holds exactly
/// those characters.
#[verifier::external_body]
fn ascii_text(input: &str, start: usize, end: usize) -> (r: String)
    requires
        start < end <= input.spec_bytes().len(),
        forall|i: int| start <= i < end ==> input.spec_bytes()[i] < 128,
    ensures
        r@ == ascii_chars(input.spec_bytes().subrange(start as int, end as int)),
{
    input[start..end].to_owned()
}

proof fn lemma_span(b: Seq<u8>, p: int, cls: CharClass)
    requires
        0 <= p <= b.len(),
    ensures
        p <= span(b, p, cls) <= b.len(),
        forall|i: int| p <= i < span(b, p, cls) ==> in_class(cls, #[trigger] b[i]),
    decreases b.len() - p,
{
    if p < b.len() && in_class(cls, b[p]) {
        lemma_span(b, p + 1, cls);
    }
}

proof fn lemma_decimal_prefix(w: Seq<u8>, k: int)
    requires
        0 <= k <= w.len(),
        forall|i: int| 0 <= i < w.len() ==> digit(#[trigger] w[i]),
    ensures
        0 <= decimal_value(w.subrange(0, k)) <= decimal_value(w),
    decreases w.len(),
{
    if k == w.len() {
        assert(w.subrange(0, k) =~= w);
        if w.len() > 0 {
            lemma_decimal_prefix(w.drop_last(), k - 1);
            assert(w.drop_last().subrange(0, k - 1) =~= w.drop_last());
        }
    } else {
        let u = w.drop_last();
        lemma_decimal_prefix(u, k);
        assert(u.subrange(0, k) =~= w.subrange(0, k));
    }
}

proof fn lemma_skip_space(b: Seq<u8>, p: int)
    requires
        0 <= p <= b.len(),
    ensures
        p <= skip_space(b, p) <= b.len(),
    decreases b.len() - p,
{
    if p < b.len() && space(b[p]) {
        lemma_skip_space(b, p + 1);
    }
}

/// Scanning a token from a valid offset moves past it, and stays within
/// the input.
pub proof fn lemma_scan_advances(b: Seq<u8>, p: int)
    requires
        0 <= p <= b.len(),
    ensures
        scan(b, p) matches Scan::Token(_, q) ==> p < q <= b.len(),
{
    lemma_skip_space(b, p);
    let s = skip_space(b, p);
    if 0 <= s < b.len() {
        lemma_span(b, s + 1, CharClass::Digit);
        lemma_span(b, s + 1, CharClass::Word);
        lemma_span(b, s + 1, CharClass::Symbol);
    }
}

fn span_end(bytes: &[u8], p: usize, cls: CharClass) -> (e: usize)
    requires
        p <= bytes@.len(),
    ensures
        e == span(bytes@, p as int, cls),
        p <= e <= bytes@.len(),
        forall|i: int| p <= i < e ==> in_class(cls, #[trigger] bytes@[i]),
{
    let mut e = p;
    while e < bytes.len() && class_has(cls, bytes[e])
        invariant
            p <= e <= bytes@.len(),
            span(bytes@, p as int, cls) == span(bytes@, e as int, cls),
            forall|i: int| p <= i < e ==> in_class(cls, #[trigger] bytes@[i]),
        decreases bytes@.len() - e,
    {
        e += 1;
    }
    e
}

/// The value of the digits in `bytes[s..e]`, or `None` where it exceeds
/// `i32::MAX`.
fn decimal_at(bytes: &[u8], s: usize, e: usize) -> (r: Option<i32>)
    requires
        s <= e <= bytes@.len(),
        forall|i: int| s <= i < e ==> digit(#[trigger] bytes@[i]),
    ensures
        match r {
            Some(v) => v as int == decimal_value(bytes@.subrange(s as int, e as int)),
            None => decimal_value(bytes@.subrange(s as int, e as int)) > i32::MAX,
        },
{
    let ghost w = bytes@.subrange(s as int, e as int);
    let mut acc: u64 = 0;
    let mut i = s;
    while i < e
        invariant
            s <= i <= e <= bytes@.len(),
            w == bytes@.subrange(s as int, e as int),
            forall|j: int| s <= j < e ==> digit(#[trigger] bytes@[j]),
            acc <= i32::MAX,
            acc as int == decimal_value(bytes@.subrange(s as int, i as int)),
        decreases e - i,
    {
        let d = bytes[i] - ('0' as u8);
        let next = acc * 10 + d as u64;
        proof {
            let u = bytes@.subrange(s as int, i as int + 1);
            assert(u.drop_last() =~= bytes@.subrange(s as int, i as int));
        }
        if next > 2147483647 {
            proof {
                assert forall|j: int| 0 <= j < w.len() implies digit(#[trigger] w[j]) by {
                    assert(w[j] == bytes@[s + j]);
                }
                lemma_decimal_prefix(w, i - s + 1);
                assert(w.subrange(0, i - s + 1) =~= bytes@.subrange(s as int, i as int + 1));
            }
            return None;
        }
        acc = next;
        i += 1;
    }
    Some(acc as i32)
}

/// The keyword spelled by `bytes[s..e]`, if any.
fn keyword(bytes: &[u8], s: usize, e: usize) -> (r: Option<Kind>)
    requires
        s <= e <= bytes@.len(),
    ensures
        match r {
            Some(k) => keyword_of(bytes@.subrange(s as int, e as int)) == Some(k@),
            None => keyword_of(bytes@.subrange(s as int, e as int)) is None,
        },
{
    let ghost w = bytes@.subrange(s as int, e as int);
    let n = e - s;
    if n == 2 && bytes[s] == ('i' as u8) && bytes[s + 1] == ('n' as u8) {
        assert(w =~= seq![('i' as u8), ('n' as u8)]);
        Some(Kind::In)
    } else if n == 2 && bytes[s] == ('i' as u8) && bytes[s + 1] == ('f' as u8) {
        assert(w =~= seq![('i' as u8), ('f' as u8)]);
        Some(Kind::If)
    } else if n == 3 && bytes[s] == ('l' as u8) && bytes[s + 1] == ('e' as u8) && bytes[s + 2] == ('t' as u8) {
        assert(w =~= seq![('l' as u8), ('e' as u8), ('t' as u8)]);
        Some(Kind::Let)
    } else if n == 3 && bytes[s] == ('f' as u8) && bytes[s + 1] == ('u' as u8) && bytes[s + 2] == ('n' as u8) {
        assert(w =~= seq![('f' as u8), ('u' as u8), ('n' as u8)]);
        Some(Kind::Fun)
    } else if n == 3 && bytes[s] == ('i' as u8) && bytes[s + 1] == ('f' as u8) && bytes[s + 2] == ('x' as u8) {
        assert(w =~= seq![('i' as u8), ('f' as u8), ('x' as u8)]);
        Some(Kind::Ifx)
    } else if n == 4 && bytes[s] == ('t' as u8) && bytes[s + 1] == ('h' as u8) && bytes[s + 2] == ('e' as u8)
        && bytes[s + 3] == ('n' as u8) {
        assert(w =~= seq![('t' as u8), ('h' as u8), ('e' as u8), ('n' as u8)]);
        Some(Kind::Then)
    } else if n == 4 && bytes[s] == ('e' as u8) && bytes[s + 1] == ('l' as u8) && bytes[s + 2] == ('s' as u8)
        && bytes[s + 3] == ('e' as u8) {
        assert(w =~= seq![('e' as u8), ('l' as u8), ('s' as u8), ('e' as u8)]);
        Some(Kind::Else)
    } else {
        assert(w.len() == n);
        assert(w.len() >= 1 ==> w[0] == bytes@[s as int]);
        assert(w.len() >= 2 ==> w[1] == bytes@[s + 1]);
        assert(w.len() >= 3 ==> w[2] == bytes@[s + 2]);
        assert(w.len() >= 4 ==> w[3] == bytes@[s + 3]);
        None
    }
}

/// Scans the token that starts at the first non-blank byte at or after
/// `p`, returning it with the offset just past it.
fn scan_at(input: &str, bytes: &[u8], p: usize) -> (r: Result<Option<(Kind, usize)>, LexError>)
    requires
        bytes@ == input.spec_bytes(),
        p <= bytes@.len(),
    ensures
        scanned(r) == scan(bytes@, p as int),
        match r {
            Ok(Some((_, q))) => p < q <= bytes@.len(),
            _ => true,
        },
{
    let ghost b = bytes@;
    let mut s = p;
    while s < bytes.len() && is_whitespace(bytes[s])
        invariant
            p <= s <= b.len(),
            b == bytes@,
            skip_space(b, p as int) == skip_space(b, s as int),
        decreases b.len() - s,
    {
        s += 1;
    }
    if s >= bytes.len() {
        return Ok(None);
    }
    let c = bytes[s];
    if c == ('(' as u8) {
        Ok(Some((Kind::LParen, s + 1)))
    } else if c == (')' as u8) {
        Ok(Some((Kind::RParen, s + 1)))
    } else if c == (':' as u8) {
        if s + 1 < bytes.len() && bytes[s + 1] == (':' as u8) {
            Ok(Some((Kind::DoubleColon, s + 2)))
        } else {
            Ok(Some((Kind::Colon, s + 1)))
        }
    } else if c == (';' as u8) {
        Ok(Some((Kind::Semicolon, s + 1)))
    } else if c == ('=' as u8) {
        Ok(Some((Kind::Eq, s + 1)))
    } else if c == ('{' as u8) {
        Ok(Some((Kind::LBracket, s + 1)))
    } else if c == ('}' as u8) {
        Ok(Some((Kind::RBracket, s + 1)))
    } else if c == ('|' as u8) {
        Ok(Some((Kind::Pipe, s + 1)))
    } else if c == ('-' as u8) && s + 1 < bytes.len() && bytes[s + 1] == ('>' as u8) {
        Ok(Some((Kind::Arrow, s + 2)))
    } else if is_number(c) {
        let e = span_end(bytes, s + 1, CharClass::Digit);
        assert forall|j: int| s <= j < e implies digit(#[trigger] bytes@[j]) by {
            if j > s {
                assert(in_class(CharClass::Digit, bytes@[j]));
            }
        }
        match decimal_at(bytes, s, e) {
            Some(v) => Ok(Some((Kind::TokInt(v), e))),
            None => Err(LexError::IntegerOverflow(s)),
        }
    } else if is_id_start(c) {
        let e = span_end(bytes, s + 1, CharClass::Word);
        match keyword(bytes, s, e) {
            Some(k) => Ok(Some((k, e))),
            None => Ok(Some((Kind::TokId(ascii_text(input, s, e)), e))),
        }
    } else if matches_sym(c) {
        let e = span_end(bytes, s + 1, CharClass::Symbol);
        Ok(Some((Kind::TokId(ascii_text(input, s, e)), e)))
    } else {
        Err(LexError::InvalidCharacter(s))
    }
}

/// The canonical decimal spelling of `n`: no leading zeros.
pub open spec fn decimal_digits(n: nat) -> Seq<u8>
    decreases n,
{
    if n < 10 {
        seq![(48 + n) as u8]
    } else {
        decimal_digits(n / 10) + seq![(48 + n % 10) as u8]
    }
}

proof fn lemma_span_to_end(b: Seq<u8>, p: int, cls: CharClass)
    requires
        0 <= p <= b.len(),
        forall|i: int| p <= i < b.len() ==> in_class(cls, #[trigger] b[i]),
    ensures
        span(b, p, cls) == b.len(),
    decreases b.len() - p,
{
    if p < b.len() {
        lemma_span_to_end(b, p + 1, cls);
    }
}

/// Lexing a run of decimal digits whose value fits in an `i32` gives a
/// single integer token, and that token holds the value of the digits.
pub proof fn lemma_digits_lex_to_their_value(w: Seq<u8>)
    requires
        w.len() > 0,
        forall|i: int| 0 <= i < w.len() ==> digit(#[trigger] w[i]),
        decimal_value(w) <= i32::MAX,
    ensures
        tokens_of(w) == (TokenStream {
            tokens: seq![Tok::Int(decimal_value(w) as i32)],
            error: None,
        }),
{
    assert(digit(w[0]));
    assert(skip_space(w, 0) == 0);
    lemma_span_to_end(w, 1, CharClass::Digit);
    assert(w.subrange(0, w.len() as int) =~= w);
    assert(scan(w, 0) == Scan::Token(Tok::Int(decimal_value(w) as i32), w.len() as int));
    assert(skip_space(w, w.len() as int) == w.len());
    assert(stream_from(w, w.len() as int) == TokenStream { tokens: seq![], error: None });
    assert(seq![Tok::Int(decimal_value(w) as i32)] + Seq::<Tok>::empty() =~= seq![
        Tok::Int(decimal_value(w) as i32),
    ]);
}

proof fn lemma_decimal_digits(n: nat)
    ensures
        decimal_digits(n).len() > 0,
        forall|i: int| 0 <= i < decimal_digits(n).len() ==> digit(#[trigger] decimal_digits(n)[i]),
        decimal_value(decimal_digits(n)) == n,
    decreases n,
{
    if n < 10 {
        let d = decimal_digits(n);
        assert(d.drop_last() =~= Seq::<u8>::empty());
        assert(decimal_value(d.drop_last()) == 0);
        assert(d.last() == (48 + n) as u8);
        assert(decimal_value(d) == n);
    } else {
        lemma_decimal_digits(n / 10);
        let d = decimal_digits(n);
        let h = decimal_digits(n / 10);
        assert(d.drop_last() =~= h);
        assert(d.last() == (48 + n % 10) as u8);
        assert(decimal_value(h) == n / 10);
        assert(decimal_value(d) == decimal_value(h) * 10 + n % 10);
        assert(n == (n / 10) * 10 + n % 10) by (nonlinear_arith);
        assert forall|i: int| 0 <= i < d.len() implies digit(#[trigger] d[i]) by {
            if i < h.len() {
                assert(d[i] == h[i]);
            }
        }
    }
}

/// Writing an integer in decimal and lexing the text gives back one token
/// with that integer.
pub proof fn lemma_integer_round_trip(n: i32)
    requires
        n >= 0,
    ensures
        tokens_of(decimal_digits(n as nat)) == (TokenStream { tokens: seq![Tok::Int(n)], error: None }),
{
    lemma_decimal_digits(n as nat);
    lemma_digits_lex_to_their_value(decimal_digits(n as nat));
}

/// A tokenizer over a borrowed source text, with one token of lookahead.
pub struct Lexer<'a> {
    input: &'a str,
    cursor: usize,
    bytes: &'a [u8],
    peeked: Option<Kind>,
}

impl<'a> View for Lexer<'a> {
    type V = TokenStream;

    /// The tokens not yet read: the one held by `peek`, if any, then those
    /// after the cursor.
    closed spec fn view(&self) -> TokenStream {
        let rest = stream_from(self.bytes@, self.cursor as int);
        match self.peeked {
            Some(k) => TokenStream { tokens: seq![k@] + rest.tokens, error: rest.error },
            None => rest,
        }
    }
}

impl<'a> Lexer<'a> {
    pub closed spec fn wf(&self) -> bool {
        &&& self.bytes@ == self.input.spec_bytes()
        &&& self.cursor <= self.bytes@.len()
    }

    /// The bytes of the source text.
    pub closed spec fn source(&self) -> Seq<u8> {
        self.bytes@
    }

    /// The offset of the next byte to scan.
    pub closed spec fn offset(&self) -> int {
        self.cursor as int
    }

    pub fn new(input: &'a str) -> (r: Lexer<'a>)
        ensures
            r.wf(),
            r@ == tokens_of(input.spec_bytes()),
            r.source() == input.spec_bytes(),
            r.offset() == 0,
    {
        Lexer { input, cursor: 0, bytes: input.as_bytes(), peeked: None }
    }

    /// The byte at the cursor, if any, without moving.
    pub fn peek_byte(&self) -> (r: Option<u8>)
        requires
            self.wf(),
        ensures
            r == (if self.offset() < self.source().len() {
                Some(self.source()[self.offset()])
            } else {
                None
            }),
    {
        if self.cursor < self.bytes.len() {
            Some(self.bytes[self.cursor])
        } else {
            None
        }
    }

    /// Reads the next token: `Ok(None)` at the end of the input, `Err` at a
    /// lexical error. Neither the end nor an error moves the tokenizer.
    pub fn next(&mut self) -> (r: Result<Option<Kind>, LexError>)
        requires
            old(self).wf(),
        ensures
            final(self).wf(),
            read_view(r) == front(old(self)@),
            final(self)@ == advance(old(self)@),
    {
        match self.peeked.take() {
            Some(k) => {
                proof {
                    let rest = stream_from(self.bytes@, self.cursor as int);
                    assert((seq![k@] + rest.tokens).drop_first() =~= rest.tokens);
                }
                Ok(Some(k))
            },
            None => match scan_at(self.input, self.bytes, self.cursor) {
                Ok(Some((k, q))) => {
                    proof {
                        let rest = stream_from(self.bytes@, q as int);
                        assert((seq![k@] + rest.tokens).drop_first() =~= rest.tokens);
                    }
                    self.cursor = q;
                    Ok(Some(k))
                },
                Ok(None) => Ok(None),
                Err(e) => Err(e),
            },
        }
    }

    /// Reads the next token as `next` does, but leaves it to be read again.
    pub fn peek(&mut self) -> (r: Result<Option<Kind>, LexError>)
        requires
            old(self).wf(),
        ensures
            final(self).wf(),
            read_view(r) == front(old(self)@),
            final(self)@ == old(self)@,
    {
        match &self.peeked {
            Some(k) => Ok(Some(k.duplicate())),
            None => match scan_at(self.input, self.bytes, self.cursor) {
                Ok(Some((k, q))) => {
                    let copy = k.duplicate();
                    self.peeked = Some(k);
                    self.cursor = q;
                    Ok(Some(copy))
                },
                Ok(None) => Ok(None),
                Err(e) => Err(e),
            },
        }
    }
}

} // verus!
