//! Tokens of a small C subset: three keywords and five punctuators.
use vstd::prelude::*;
use crate::span::{SourceSpan, Span};
use crate::token::{Ident, Keyword, KeywordTag, Symbol, SymbolTag, Token};

verus! {

/// The reserved words of the C subset.
#[derive(Clone, Copy, Debug, PartialEq, Eq, Structural)]
pub enum CKeyword {
    Int,
    Void,
    Return,
}

impl KeywordTag for CKeyword {
    open spec fn spec_word(&self) -> Seq<char> {
        match self {
            CKeyword::Int => "int"@,
            CKeyword::Void => "void"@,
            CKeyword::Return => "return"@,
        }
    }

    fn as_str(&self) -> (r: &'static str) {
        match self {
            CKeyword::Int => "int",
            CKeyword::Void => "void",
            CKeyword::Return => "return",
        }
    }
}

/// The single-character symbols of the C subset.
#[derive(Clone, Copy, Debug, PartialEq, Eq, Structural)]
pub enum CSymbol {
    OpenParenthesis,
    CloseParenthesis,
    OpenCurlyBrace,
    CloseCurlyBrace,
    Semicolon,
}

impl SymbolTag for CSymbol {
    open spec fn spec_char(&self) -> char {
        match self {
            CSymbol::OpenParenthesis => '(',
            CSymbol::CloseParenthesis => ')',
            CSymbol::OpenCurlyBrace => '{',
            CSymbol::CloseCurlyBrace => '}',
            CSymbol::Semicolon => ';',
        }
    }

    fn as_char(&self) -> (r: char) {
        match self {
            CSymbol::OpenParenthesis => '(',
            CSymbol::CloseParenthesis => ')',
            CSymbol::OpenCurlyBrace => '{',
            CSymbol::CloseCurlyBrace => '}',
            CSymbol::Semicolon => ';',
        }
    }
}

/// A symbol used as an operator.
pub type Operator<'a> = Symbol<'a, CSymbol>;

/// A symbol used as punctuation.
pub type Punctuator<'a> = Symbol<'a, CSymbol>;

/// A numeric constant; its value is read by a later stage.
#[derive(Clone, Copy, Debug)]
pub struct Constant<'a> {
    span: SourceSpan<'a>,
}

impl<'a> Constant<'a> {
    pub closed spec fn spec_new(src: &'a str, start: usize, end: usize) -> Constant<'a> {
        Constant { span: SourceSpan::spec_new(src, start, end) }
    }

    pub fn new(src: &'a str, start: usize, end: usize) -> (r: Self)
        ensures
            r == Self::spec_new(src, start, end),
            r.buffer() == src,
            r.lo() == start,
            r.hi() == end,
    {
        Constant { span: SourceSpan::new(src, start, end) }
    }

    /// The range this token covers.
    pub fn source_span(&self) -> (r: SourceSpan<'a>)
        ensures
            r.buffer() == self.buffer(),
            r.lo() == self.lo(),
            r.hi() == self.hi(),
    {
        self.span
    }
}

impl<'a> Span for Constant<'a> {
    closed spec fn buffer(&self) -> &str {
        self.span.buffer()
    }

    closed spec fn lo(&self) -> int {
        self.span.lo()
    }

    closed spec fn hi(&self) -> int {
        self.span.hi()
    }

    fn src(&self) -> (r: &str) {
        self.span.src()
    }

    fn start(&self) -> (r: usize) {
        self.span.start()
    }

    fn end(&self) -> (r: usize) {
        self.span.end()
    }

    fn span(&self) -> (r: &str) {
        self.span.span()
    }

    fn len(&self) -> (r: usize) {
        self.span.len()
    }
}

impl<'a> Token for Constant<'a> {}

/// A token of the C subset.
#[derive(Clone, Copy, Debug)]
pub enum CToken<'a> {
    Keyword(Keyword<'a, CKeyword>),
    Operator(Operator<'a>),
    Punctuator(Punctuator<'a>),
    Identifier(Ident<'a>),
    Constant(Constant<'a>),
    /// Skippable text; never kept in a token stream.
    Whitespace,
}

impl<'a> CToken<'a> {
    pub fn is_whitespace(&self) -> (r: bool)
        ensures
            r == (*self is Whitespace),
    {
        match self {
            CToken::Whitespace => true,
            _ => false,
        }
    }

    /// Byte offset at which the token starts (zero for whitespace, which
    /// carries no range).
    pub open spec fn spec_offset(&self) -> int {
        match self {
            CToken::Keyword(k) => k.lo(),
            CToken::Operator(s) => s.lo(),
            CToken::Punctuator(s) => s.lo(),
            CToken::Identifier(i) => i.lo(),
            CToken::Constant(c) => c.lo(),
            CToken::Whitespace => 0,
        }
    }

    /// Byte offset just past the token (zero for whitespace).
    pub open spec fn spec_end(&self) -> int {
        match self {
            CToken::Keyword(k) => k.hi(),
            CToken::Operator(s) => s.hi(),
            CToken::Punctuator(s) => s.hi(),
            CToken::Identifier(i) => i.hi(),
            CToken::Constant(c) => c.hi(),
            CToken::Whitespace => 0,
        }
    }

    /// The buffer the token's range refers to (any buffer for whitespace).
    pub open spec fn spec_buffer(&self) -> &'a str {
        match self {
            CToken::Keyword(k) => k.buffer(),
            CToken::Operator(s) => s.buffer(),
            CToken::Punctuator(s) => s.buffer(),
            CToken::Identifier(i) => i.buffer(),
            CToken::Constant(c) => c.buffer(),
            CToken::Whitespace => arbitrary(),
        }
    }

    /// The token's range, unless it is whitespace.
    pub fn span(&self) -> (r: Option<SourceSpan<'a>>)
        ensures
            (r is None) == (*self is Whitespace),
            r matches Some(s) ==> s.lo() == self.spec_offset() && s.hi() == self.spec_end()
                && s.buffer() == self.spec_buffer(),
    {
        match self {
            CToken::Keyword(k) => Some(k.source_span()),
            CToken::Operator(s) => Some(s.source_span()),
            CToken::Punctuator(s) => Some(s.source_span()),
            CToken::Identifier(i) => Some(i.source_span()),
            CToken::Constant(c) => Some(c.source_span()),
            CToken::Whitespace => None,
        }
    }
}

impl<'a> Token for CToken<'a> {}

} // verus!
