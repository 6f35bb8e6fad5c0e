//! The token model shared by every language configuration.
use vstd::prelude::*;
use crate::span::{SourceSpan, Span};

verus! {

/// A lexical unit that a scan can emit.
pub trait Token: Copy {}

/// The ordered, append-only output of a scan.
#[derive(Debug)]
pub struct TokenStream<T: Token>(Vec<T>);

impl<T: Token> View for TokenStream<T> {
    type V = Seq<T>;

    closed spec fn view(&self) -> Seq<T> {
        self.0@
    }
}

impl<T: Token> TokenStream<T> {
    /// An empty stream with room for `capacity` tokens, so that a scan over a
    /// buffer of that many bytes never reallocates.
    pub fn new(capacity: usize) -> (r: Self)
        ensures
            r@ == Seq::<T>::empty(),
    {
        TokenStream(Vec::with_capacity(capacity))
    }

    pub fn push(&mut self, token: T)
        ensures
            final(self)@ == old(self)@.push(token),
    {
        self.0.push(token)
    }

    /// Removes the last token, if any.
    pub fn pop(&mut self) -> (r: Option<T>)
        ensures
            old(self)@.len() == 0 ==> r is None && final(self)@ == old(self)@,
            old(self)@.len() > 0 ==> r == Some(old(self)@.last())
                && final(self)@ == old(self)@.drop_last(),
    {
        self.0.pop()
    }

    pub fn len(&self) -> (r: usize)
        ensures
            r == self@.len(),
    {
        self.0.len()
    }

    pub fn is_empty(&self) -> (r: bool)
        ensures
            r == (self@.len() == 0),
    {
        self.0.is_empty()
    }

    /// The token at position `i`.
    pub fn get(&self, i: usize) -> (r: T)
        requires
            i < self@.len(),
        ensures
            r == self@[i as int],
    {
        self.0[i]
    }
}

/// An identifier: a name chosen by the program's author; its text is the name.
#[derive(Clone, Copy, Debug)]
pub struct Ident<'a> {
    span: SourceSpan<'a>,
}

impl<'a> Ident<'a> {
    pub closed spec fn spec_new(src: &'a str, start: usize, end: usize) -> Ident<'a> {
        Ident { span: SourceSpan::spec_new(src, start, end) }
    }

    pub fn new(src: &'a str, start: usize, end: usize) -> (r: Self)
        ensures
            r == Self::spec_new(src, start, end),
            r.buffer() == src,
            r.lo() == start,
            r.hi() == end,
    {
        Ident { span: SourceSpan::new(src, start, end) }
    }

    /// The range this token covers.
    pub fn source_span(&self) -> (r: SourceSpan<'a>)
        ensures
            r.buffer() == self.buffer(),
            r.lo() == self.lo(),
            r.hi() == self.hi(),
    {
        self.span
    }
}

impl<'a> Span for Ident<'a> {
    closed spec fn buffer(&self) -> &str {
        self.span.buffer()
    }

    closed spec fn lo(&self) -> int {
        self.span.lo()
    }

    closed spec fn hi(&self) -> int {
        self.span.hi()
    }

    fn src(&self) -> (r: &str) {
        self.span.src()
    }

    fn start(&self) -> (r: usize) {
        self.span.start()
    }

    fn end(&self) -> (r: usize) {
        self.span.end()
    }

    fn span(&self) -> (r: &str) {
        self.span.span()
    }

    fn len(&self) -> (r: usize) {
        self.span.len()
    }
}

impl<'a> Token for Ident<'a> {}

/// Names one single-character symbol of a language.
///
/// A tag type that does not state its character leaves it unspecified.
pub trait SymbolTag: Copy {
    /// The character the symbol is written as.
    open spec fn spec_char(&self) -> char {
        arbitrary()
    }

    fn as_char(&self) -> (r: char)
        ensures
            r == self.spec_char(),
    ;
}

/// Names one reserved word of a language.
///
/// A tag type that does not state its word leaves it unspecified.
pub trait KeywordTag: Copy {
    /// The word as written.
    open spec fn spec_word(&self) -> Seq<char> {
        arbitrary()
    }

    fn as_str(&self) -> (r: &'static str)
        ensures
            r@ == self.spec_word(),
    ;
}

/// A single-character structural token, tagged with which symbol it is.
#[derive(Clone, Copy, Debug)]
pub struct Symbol<'a, K: SymbolTag> {
    kind: K,
    span: SourceSpan<'a>,
}

impl<'a, K: SymbolTag> Symbol<'a, K> {
    pub closed spec fn spec_new(kind: K, src: &'a str, start: usize, end: usize) -> Symbol<'a, K> {
        Symbol { kind, span: SourceSpan::spec_new(src, start, end) }
    }

    pub closed spec fn spec_kind(&self) -> K {
        self.kind
    }

    pub fn new(kind: K, src: &'a str, start: usize, end: usize) -> (r: Self)
        ensures
            r == Self::spec_new(kind, src, start, end),
            r.spec_kind() == kind,
            r.buffer() == src,
            r.lo() == start,
            r.hi() == end,
    {
        Symbol { kind, span: SourceSpan::new(src, start, end) }
    }

    pub fn kind(&self) -> (r: K)
        ensures
            r == self.spec_kind(),
    {
        self.kind
    }

    /// The character this symbol stands for.
    pub fn as_char(&self) -> (r: char)
        ensures
            r == self.spec_kind().spec_char(),
    {
        self.kind.as_char()
    }

    /// The range this token covers.
    pub fn source_span(&self) -> (r: SourceSpan<'a>)
        ensures
            r.buffer() == self.buffer(),
            r.lo() == self.lo(),
            r.hi() == self.hi(),
    {
        self.span
    }
}

impl<'a, K: SymbolTag> Span for Symbol<'a, K> {
    closed spec fn buffer(&self) -> &str {
        self.span.buffer()
    }

    closed spec fn lo(&self) -> int {
        self.span.lo()
    }

    closed spec fn hi(&self) -> int {
        self.span.hi()
    }

    fn src(&self) -> (r: &str) {
        self.span.src()
    }

    fn start(&self) -> (r: usize) {
        self.span.start()
    }

    fn end(&self) -> (r: usize) {
        self.span.end()
    }

    fn span(&self) -> (r: &str) {
        self.span.span()
    }

    fn len(&self) -> (r: usize) {
        self.span.len()
    }
}

impl<'a, K: SymbolTag> Token for Symbol<'a, K> {}

impl<'a, K: SymbolTag> Delimiter for Symbol<'a, K> {}

/// A reserved-word token, tagged with which word it is.
#[derive(Clone, Copy, Debug)]
pub struct Keyword<'a, K: KeywordTag> {
    kind: K,
    span: SourceSpan<'a>,
}

impl<'a, K: KeywordTag> Keyword<'a, K> {
    pub closed spec fn spec_new(kind: K, src: &'a str, start: usize, end: usize) -> Keyword<'a, K> {
        Keyword { kind, span: SourceSpan::spec_new(src, start, end) }
    }

    pub closed spec fn spec_kind(&self) -> K {
        self.kind
    }

    pub fn new(kind: K, src: &'a str, start: usize, end: usize) -> (r: Self)
        ensures
            r == Self::spec_new(kind, src, start, end),
            r.spec_kind() == kind,
            r.buffer() == src,
            r.lo() == start,
            r.hi() == end,
    {
        Keyword { kind, span: SourceSpan::new(src, start, end) }
    }

    pub fn kind(&self) -> (r: K)
        ensures
            r == self.spec_kind(),
    {
        self.kind
    }

    /// The reserved word itself.
    pub fn as_str(&self) -> (r: &'static str)
        ensures
            r@ == self.spec_kind().spec_word(),
    {
        self.kind.as_str()
    }

    /// The range this token covers.
    pub fn source_span(&self) -> (r: SourceSpan<'a>)
        ensures
            r.buffer() == self.buffer(),
            r.lo() == self.lo(),
            r.hi() == self.hi(),
    {
        self.span
    }
}

impl<'a, K: KeywordTag> Span for Keyword<'a, K> {
    closed spec fn buffer(&self) -> &str {
        self.span.buffer()
    }

    closed spec fn lo(&self) -> int {
        self.span.lo()
    }

    closed spec fn hi(&self) -> int {
        self.span.hi()
    }

    fn src(&self) -> (r: &str) {
        self.span.src()
    }

    fn start(&self) -> (r: usize) {
        self.span.start()
    }

    fn end(&self) -> (r: usize) {
        self.span.end()
    }

    fn span(&self) -> (r: &str) {
        self.span.span()
    }

    fn len(&self) -> (r: usize) {
        self.span.len()
    }
}

impl<'a, K: KeywordTag> Token for Keyword<'a, K> {}

/// Names one sequence of symbols that a language glues into a single token,
/// such as a two-character operator.
///
/// A tag type that does not state its parts leaves them unspecified.
pub trait CookedTag: Copy {
    type Part: SymbolTag;

    /// The symbols it is made of, in order.
    open spec fn spec_parts(&self) -> Seq<Self::Part> {
        arbitrary()
    }

    fn parts(&self) -> (r: Vec<Self::Part>)
        ensures
            r@ == self.spec_parts(),
    ;
}

/// A symbol sequence glued into one logical token; its range covers every
/// constituent symbol.
#[derive(Clone, Copy, Debug)]
pub struct CookedSymbol<'a, K: CookedTag> {
    kind: K,
    span: SourceSpan<'a>,
}

impl<'a, K: CookedTag> CookedSymbol<'a, K> {
    pub closed spec fn spec_kind(&self) -> K {
        self.kind
    }

    pub fn new(kind: K, src: &'a str, start: usize, end: usize) -> (r: Self)
        ensures
            r.spec_kind() == kind,
            r.buffer() == src,
            r.lo() == start,
            r.hi() == end,
    {
        CookedSymbol { kind, span: SourceSpan::new(src, start, end) }
    }

    pub fn kind(&self) -> (r: K)
        ensures
            r == self.spec_kind(),
    {
        self.kind
    }

    /// The symbols this token is made of, in order.
    pub fn parts(&self) -> (r: Vec<K::Part>)
        ensures
            r@ == self.spec_kind().spec_parts(),
    {
        self.kind.parts()
    }

    /// The range this token covers.
    pub fn source_span(&self) -> (r: SourceSpan<'a>)
        ensures
            r.buffer() == self.buffer(),
            r.lo() == self.lo(),
            r.hi() == self.hi(),
    {
        self.span
    }
}

impl<'a, K: CookedTag> Span for CookedSymbol<'a, K> {
    closed spec fn buffer(&self) -> &str {
        self.span.buffer()
    }

    closed spec fn lo(&self) -> int {
        self.span.lo()
    }

    closed spec fn hi(&self) -> int {
        self.span.hi()
    }

    fn src(&self) -> (r: &str) {
        self.span.src()
    }

    fn start(&self) -> (r: usize) {
        self.span.start()
    }

    fn end(&self) -> (r: usize) {
        self.span.end()
    }

    fn span(&self) -> (r: &str) {
        self.span.span()
    }

    fn len(&self) -> (r: usize) {
        self.span.len()
    }
}

impl<'a, K: CookedTag> Token for CookedSymbol<'a, K> {}

impl<'a, K: CookedTag> Delimiter for CookedSymbol<'a, K> {}

/// A token that can open or close a delimited group.
pub trait Delimiter: Span + Copy {}

/// A token bracketed by an opening and a closing delimiter. Each part may be
/// missing, so that a parser can recover from an unbalanced bracket.
#[derive(Clone, Copy, Debug)]
pub struct DelimitedToken<O: Delimiter, T: Token, C: Delimiter> {
    open: Option<O>,
    token: Option<T>,
    close: Option<C>,
}

impl<O: Delimiter, T: Token, C: Delimiter> DelimitedToken<O, T, C> {
    pub closed spec fn spec_open(&self) -> Option<O> {
        self.open
    }

    pub closed spec fn spec_token(&self) -> Option<T> {
        self.token
    }

    pub closed spec fn spec_close(&self) -> Option<C> {
        self.close
    }

    /// The opening delimiter ends no later than the closing one starts.
    pub open spec fn well_ordered(&self) -> bool {
        match (self.spec_open(), self.spec_close()) {
            (Some(o), Some(c)) => o.hi() <= c.lo(),
            _ => true,
        }
    }

    /// Whether the opening delimiter ends no later than the closing one
    /// starts; true when either is missing.
    pub fn is_well_ordered(&self) -> (r: bool)
        ensures
            r == self.well_ordered(),
    {
        match (self.open, self.close) {
            (Some(o), Some(c)) => o.end() <= c.start(),
            _ => true,
        }
    }

    pub fn new(open: Option<O>, token: Option<T>, close: Option<C>) -> (r: Self)
        ensures
            r.spec_open() == open,
            r.spec_token() == token,
            r.spec_close() == close,
    {
        DelimitedToken { open, token, close }
    }

    pub fn open(&self) -> (r: Option<O>)
        ensures
            r == self.spec_open(),
    {
        self.open
    }

    pub fn token(&self) -> (r: Option<T>)
        ensures
            r == self.spec_token(),
    {
        self.token
    }

    pub fn close(&self) -> (r: Option<C>)
        ensures
            r == self.spec_close(),
    {
        self.close
    }

    /// Where the group starts: the opening delimiter's start, if it is there.
    pub fn start(&self) -> (r: Option<usize>)
        ensures
            r == (match self.spec_open() {
                Some(o) => Some(o.lo() as usize),
                None => None::<usize>,
            }),
    {
        match self.open {
            Some(o) => Some(o.start()),
            None => None,
        }
    }

    /// Where the group ends: the closing delimiter's end, if it is there.
    pub fn end(&self) -> (r: Option<usize>)
        ensures
            r == (match self.spec_close() {
                Some(c) => Some(c.hi() as usize),
                None => None::<usize>,
            }),
    {
        match self.close {
            Some(c) => Some(c.end()),
            None => None,
        }
    }

    /// Bytes from the opening delimiter's start to the closing one's end,
    /// when both are there (zero for a reversed pair).
    pub fn len(&self) -> (r: Option<usize>)
        ensures
            r == (match (self.spec_open(), self.spec_close()) {
                (Some(o), Some(c)) => Some(
                    if o.lo() <= c.hi() {
                        (c.hi() - o.lo()) as usize
                    } else {
                        0usize
                    },
                ),
                _ => None::<usize>,
            }),
    {
        match (self.open, self.close) {
            (Some(o), Some(c)) => {
                let s = o.start();
                let e = c.end();
                if s <= e {
                    Some(e - s)
                } else {
                    Some(0)
                }
            },
            _ => None,
        }
    }
}

impl<O: Delimiter, T: Token, C: Delimiter> Token for DelimitedToken<O, T, C> {}

} // verus!
