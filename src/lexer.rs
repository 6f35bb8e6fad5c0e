//! The C-subset configuration of the scanner, and the entry points that
//! scan source text with it.
use vstd::prelude::*;
use crate::c_token::{CKeyword, CSymbol, CToken, Constant};
use crate::error::LexError;
use crate::pattern::{regex_accepts, PatternError};
use crate::scan::{lex, lexes_to, error_views, Grammar, LexOutput, PatternTable};
use crate::span::{bytes_of, SourceSpan, Span};
use crate::token::{Ident, Keyword, KeywordTag, Symbol};

verus! {

/// The constructors of the C subset, one per table entry.
#[derive(Clone, Copy, Debug, PartialEq, Eq, Structural)]
pub enum CRule {
    /// Skippable text.
    Whitespace,
    /// A word: a keyword when it spells one, else an identifier.
    Word,
    /// A numeric constant.
    Number,
    /// One punctuator.
    Punctuator(CSymbol),
    /// Text nothing else accepts: always an error.
    Unrecognized,
}

/// The reserved word whose UTF-8 encoding is `text`, if any.
pub open spec fn keyword_of(text: Seq<u8>) -> Option<CKeyword> {
    if text == vstd::utf8::encode_utf8(CKeyword::Int.spec_word()) {
        Some(CKeyword::Int)
    } else if text == vstd::utf8::encode_utf8(CKeyword::Void.spec_word()) {
        Some(CKeyword::Void)
    } else if text == vstd::utf8::encode_utf8(CKeyword::Return.spec_word()) {
        Some(CKeyword::Return)
    } else {
        None
    }
}

fn bytes_equal(a: &[u8], b: &[u8]) -> (r: bool)
    ensures
        r == (a@ == b@),
{
    if a.len() != b.len() {
        return false;
    }
    let mut i: usize = 0;
    while i < a.len()
        invariant
            a@.len() == b@.len(),
            i <= a@.len(),
            forall|k: int| 0 <= k < i ==> a@[k] == b@[k],
        decreases a@.len() - i,
    {
        if a[i] != b[i] {
            return false;
        }
        i = i + 1;
    }
    assert(a@ =~= b@);
    true
}

/// The reserved word that `text` spells, if any.
pub fn keyword_for(text: &str) -> (r: Option<CKeyword>)
    ensures
        r == keyword_of(bytes_of(text)),
{
    let t = text.as_bytes();
    if bytes_equal(t, CKeyword::Int.as_str().as_bytes()) {
        Some(CKeyword::Int)
    } else if bytes_equal(t, CKeyword::Void.as_str().as_bytes()) {
        Some(CKeyword::Void)
    } else if bytes_equal(t, CKeyword::Return.as_str().as_bytes()) {
        Some(CKeyword::Return)
    } else {
        None
    }
}

/// The message of an error for text that no pattern accepts.
pub open spec fn unrecognized_message() -> Seq<char> {
    "Unrecognized token"@
}

/// The C-subset language, as the scanner sees it.
#[derive(Clone, Copy, Debug)]
pub struct CLang;

impl<'a> Grammar<'a> for CLang {
    type Rule = CRule;

    type Tok = CToken<'a>;

    open spec fn spec_construct(rule: CRule, src: &'a str, start: int, end: int) -> Result<
        CToken<'a>,
        (SourceSpan<'a>, Seq<char>),
    > {
        let (s, e) = (start as usize, end as usize);
        match rule {
            CRule::Whitespace => Ok(CToken::Whitespace),
            CRule::Word => Ok(
                match keyword_of(bytes_of(src).subrange(start, end)) {
                    Some(k) => CToken::Keyword(Keyword::spec_new(k, src, s, e)),
                    None => CToken::Identifier(Ident::spec_new(src, s, e)),
                },
            ),
            CRule::Number => Ok(CToken::Constant(Constant::spec_new(src, s, e))),
            CRule::Punctuator(k) => Ok(CToken::Punctuator(Symbol::spec_new(k, src, s, e))),
            CRule::Unrecognized => Err((SourceSpan::spec_new(src, s, e), unrecognized_message())),
        }
    }

    open spec fn spec_skip(tok: CToken<'a>) -> bool {
        tok is Whitespace
    }

    open spec fn spec_offset(tok: CToken<'a>) -> int {
        tok.spec_offset()
    }

    open spec fn spec_end(tok: CToken<'a>) -> int {
        tok.spec_end()
    }

    fn construct(rule: CRule, src: &'a str, start: usize, end: usize) -> (r: Result<
        CToken<'a>,
        LexError<'a>,
    >) {
        match rule {
            CRule::Whitespace => Ok(CToken::Whitespace),
            CRule::Word => {
                let raw = SourceSpan::new(src, start, end);
                match keyword_for(raw.span()) {
                    Some(k) => Ok(CToken::Keyword(Keyword::new(k, src, start, end))),
                    None => Ok(CToken::Identifier(Ident::new(src, start, end))),
                }
            },
            CRule::Number => Ok(CToken::Constant(Constant::new(src, start, end))),
            CRule::Punctuator(k) => Ok(CToken::Punctuator(Symbol::new(k, src, start, end))),
            CRule::Unrecognized => Err(LexError::new(src, start, end, "Unrecognized token")),
        }
    }

    fn is_skip(tok: &CToken<'a>) -> (r: bool) {
        tok.is_whitespace()
    }
}

/// The table of the C subset, in priority order: whitespace, words,
/// numbers, the five punctuators, and a catch-all for any other character.
pub open spec fn c_entries() -> Seq<(Seq<char>, CRule)> {
    seq![
        ("\\s"@, CRule::Whitespace),
        ("[a-zA-Z_]\\w*"@, CRule::Word),
        ("[0-9]+"@, CRule::Number),
        ("\\("@, CRule::Punctuator(CSymbol::OpenParenthesis)),
        ("\\)"@, CRule::Punctuator(CSymbol::CloseParenthesis)),
        ("\\{"@, CRule::Punctuator(CSymbol::OpenCurlyBrace)),
        ("\\}"@, CRule::Punctuator(CSymbol::CloseCurlyBrace)),
        ("\\;"@, CRule::Punctuator(CSymbol::Semicolon)),
        ("."@, CRule::Unrecognized),
    ]
}

/// `regex` compiles every pattern of the C-subset table.
pub open spec fn c_patterns_compile() -> bool {
    forall|i: int| 0 <= i < c_entries().len() ==> regex_accepts(#[trigger] c_entries()[i].0)
}

/// Builds the C-subset table.
pub fn c_table() -> (r: Result<PatternTable<CRule>, PatternError>)
    ensures
        r is Ok <==> c_patterns_compile(),
        r matches Ok(t) ==> t@ == c_entries(),
{
    let specs: Vec<(&str, CRule)> = vec![
        ("\\s", CRule::Whitespace),
        ("[a-zA-Z_]\\w*", CRule::Word),
        ("[0-9]+", CRule::Number),
        ("\\(", CRule::Punctuator(CSymbol::OpenParenthesis)),
        ("\\)", CRule::Punctuator(CSymbol::CloseParenthesis)),
        ("\\{", CRule::Punctuator(CSymbol::OpenCurlyBrace)),
        ("\\}", CRule::Punctuator(CSymbol::CloseCurlyBrace)),
        ("\\;", CRule::Punctuator(CSymbol::Semicolon)),
        (".", CRule::Unrecognized),
    ];
    let ghost entries = c_entries();
    assert(specs@.map_values(|e: (&str, CRule)| (e.0@, e.1)) =~= entries);
    let mut t = PatternTable::new();
    let mut i: usize = 0;
    while i < specs.len()
        invariant
            entries == c_entries(),
            specs@.map_values(|e: (&str, CRule)| (e.0@, e.1)) == entries,
            i <= specs@.len(),
            t@ == entries.subrange(0, i as int),
            forall|k: int| 0 <= k < i ==> regex_accepts(#[trigger] entries[k].0),
        decreases specs@.len() - i,
    {
        let (pattern, rule) = specs[i];
        assert(entries[i as int] == (pattern@, rule));
        match t.add(pattern, rule) {
            Ok(()) => {},
            Err(e) => {
                assert(!regex_accepts(c_entries()[i as int].0));
                return Err(e);
            },
        }
        assert(t@ =~= entries.subrange(0, i as int + 1));
        i = i + 1;
    }
    assert(t@ =~= entries);
    assert(c_patterns_compile());
    Ok(t)
}

/// Scans `src` with the C-subset table; fails only if a pattern of the
/// table does not compile.
pub fn lex_c_source<'a>(src: &'a str) -> (r: Result<LexOutput<'a, CToken<'a>>, PatternError>)
    ensures
        r is Ok <==> c_patterns_compile(),
        r matches Ok(out) ==> lexes_to::<CLang>(
            c_entries(),
            src,
            out.tokens@,
            error_views(out.errors@),
            out.stalled_at,
        ),
        r matches Ok(out) ==> forall|k: int|
            0 <= k < out.tokens@.len() ==> !(#[trigger] out.tokens@[k] is Whitespace),
        r matches Ok(out) ==> forall|j: int, k: int|
            0 <= j < k < out.tokens@.len() ==> (#[trigger] out.tokens@[j]).spec_offset() < (
            #[trigger] out.tokens@[k]).spec_offset(),
        r matches Ok(out) ==> forall|j: int, k: int|
            0 <= j < k < out.tokens@.len() ==> (#[trigger] out.tokens@[j]).spec_end() <= (
            #[trigger] out.tokens@[k]).spec_offset(),
{
    let table = c_table()?;
    Ok(lex::<CLang>(&table, src))
}

/// Something that holds source text.
pub trait Lexable {
    spec fn spec_text(&self) -> Seq<char>;

    fn text(&self) -> (r: &str)
        ensures
            r@ == self.spec_text(),
    ;
}

impl Lexable for String {
    open spec fn spec_text(&self) -> Seq<char> {
        self@
    }

    fn text(&self) -> (r: &str) {
        self.as_str()
    }
}

impl<'b> Lexable for &'b str {
    open spec fn spec_text(&self) -> Seq<char> {
        (*self)@
    }

    fn text(&self) -> (r: &str) {
        *self
    }
}

/// Source text to be scanned.
#[derive(Clone, Debug)]
pub struct Source<S: Lexable>(S);

impl<S: Lexable> Source<S> {
    pub closed spec fn inner(&self) -> S {
        self.0
    }

    pub fn new(src: S) -> (r: Self)
        ensures
            r.inner() == src,
    {
        Source(src)
    }
}

impl<S: Lexable> Lexable for Source<S> {
    open spec fn spec_text(&self) -> Seq<char> {
        self.inner().spec_text()
    }

    fn text(&self) -> (r: &str) {
        self.0.text()
    }
}

/// Scanning, for anything that holds source text.
pub trait Lexer: Lexable {
    /// Hands this value's text to the scanning function `f`.
    fn lex<'a, R, F: FnOnce(&'a str) -> R>(&'a self, f: F) -> (r: R)
        requires
            forall|s: &'a str| s@ == self.spec_text() ==> f.requires((s,)),
        ensures
            exists|s: &'a str| s@ == self.spec_text() && f.ensures((s,), r),
    {
        let s = self.text();
        f(s)
    }

    /// Scans `src` with the C-subset table; fails only if a pattern of the
    /// table does not compile.
    fn lex_c<'a>(src: &'a str) -> (r: Result<LexOutput<'a, CToken<'a>>, PatternError>)
        ensures
            r is Ok <==> c_patterns_compile(),
            r matches Ok(out) ==> lexes_to::<CLang>(
                c_entries(),
                src,
                out.tokens@,
                error_views(out.errors@),
                out.stalled_at,
            ),
            r matches Ok(out) ==> forall|k: int|
                0 <= k < out.tokens@.len() ==> !(#[trigger] out.tokens@[k] is Whitespace),
            r matches Ok(out) ==> forall|j: int, k: int|
                0 <= j < k < out.tokens@.len() ==> (#[trigger] out.tokens@[j]).spec_offset() < (
                #[trigger] out.tokens@[k]).spec_offset(),
            r matches Ok(out) ==> forall|j: int, k: int|
                0 <= j < k < out.tokens@.len() ==> (#[trigger] out.tokens@[j]).spec_end() <= (
                #[trigger] out.tokens@[k]).spec_offset(),
    {
        lex_c_source(src)
    }
}

impl<T: Lexable> Lexer for T {}

} // verus!
