//! The scan loop: first-match classification over an ordered pattern table.
use vstd::prelude::*;
use crate::error::{ErrorEmitter, LexError};
use crate::pattern::{match_end, Pattern, PatternError};
use crate::span::{bytes_of, valid_range, SourceSpan};
use crate::token::{Token, TokenStream};

verus! {

/// One language's classification of matched text: what each rule's
/// constructor makes of the range it matched.
pub trait Grammar<'a> {
    /// Names a constructor; each table entry pairs a pattern with one.
    type Rule: Copy;

    type Tok: Token;

    /// What the constructor of `rule` makes of `src[start..end]`: a token,
    /// or an error given by its view (range and context text).
    spec fn spec_construct(rule: Self::Rule, src: &'a str, start: int, end: int) -> Result<
        Self::Tok,
        (SourceSpan<'a>, Seq<char>),
    >;

    /// Tokens that mark skippable text and never reach the stream.
    spec fn spec_skip(tok: Self::Tok) -> bool;

    /// Byte offset at which a token starts.
    spec fn spec_offset(tok: Self::Tok) -> int;

    /// Byte offset just past a token.
    spec fn spec_end(tok: Self::Tok) -> int;

    fn construct(rule: Self::Rule, src: &'a str, start: usize, end: usize) -> (r: Result<
        Self::Tok,
        LexError<'a>,
    >)
        requires
            start < end,
            valid_range(src, start as int, end as int),
        ensures
            same_outcome(r, Self::spec_construct(rule, src, start as int, end as int)),
            r matches Ok(t) ==> (!Self::spec_skip(t) ==> Self::spec_offset(t) == start
                && Self::spec_end(t) == end),
    ;

    fn is_skip(tok: &Self::Tok) -> (r: bool)
        ensures
            r == Self::spec_skip(*tok),
    ;
}

/// An executed constructor's result agrees with its specified outcome.
pub open spec fn same_outcome<'a, T>(
    r: Result<T, LexError<'a>>,
    s: Result<T, (SourceSpan<'a>, Seq<char>)>,
) -> bool {
    match (r, s) {
        (Ok(t), Ok(u)) => t == u,
        (Err(e), Err(v)) => e@ == v,
        _ => false,
    }
}

/// An ordered list of (pattern, constructor) entries; earlier entries win.
#[derive(Debug)]
pub struct PatternTable<R> {
    entries: Vec<(Pattern, R)>,
}

impl<R: Copy> View for PatternTable<R> {
    type V = Seq<(Seq<char>, R)>;

    closed spec fn view(&self) -> Seq<(Seq<char>, R)> {
        self.entries@.map_values(|e: (Pattern, R)| (e.0.source(), e.1))
    }
}

/// The first entry, at index `from` or later, with a non-empty match starting
/// exactly at `pos`, and where that match ends.
pub open spec fn first_match<R>(entries: Seq<(Seq<char>, R)>, src: &str, pos: int, from: int) -> Option<
    (int, int),
>
    decreases entries.len() - from,
{
    if from < 0 || from >= entries.len() {
        None
    } else {
        match match_end(entries[from].0, src, pos) {
            Some(e) => Some((from, e)),
            None => first_match(entries, src, pos, from + 1),
        }
    }
}

/// The ranges that a scan from `pos` consumes, each with the index of the
/// entry that matched it, in order. The scan stops at the end of the buffer
/// or at the first position where no entry matches.
pub open spec fn scan_steps<R>(entries: Seq<(Seq<char>, R)>, src: &str, pos: int) -> Seq<
    (int, int, int),
>
    decreases bytes_of(src).len() - pos,
{
    if pos < 0 || pos >= bytes_of(src).len() {
        Seq::empty()
    } else {
        match first_match(entries, src, pos, 0) {
            Some((i, e)) => if pos < e <= bytes_of(src).len() {
                seq![(i, pos, e)] + scan_steps(entries, src, e)
            } else {
                Seq::empty()
            },
            None => Seq::empty(),
        }
    }
}

/// What the constructor of the entry that consumed `step` makes of it.
pub open spec fn step_outcome<'a, G: Grammar<'a>>(
    entries: Seq<(Seq<char>, G::Rule)>,
    src: &'a str,
    step: (int, int, int),
) -> Result<G::Tok, (SourceSpan<'a>, Seq<char>)> {
    G::spec_construct(entries[step.0].1, src, step.1, step.2)
}

/// The tokens that `steps` put into the stream, in order.
pub open spec fn tokens_of<'a, G: Grammar<'a>>(
    entries: Seq<(Seq<char>, G::Rule)>,
    src: &'a str,
    steps: Seq<(int, int, int)>,
) -> Seq<G::Tok>
    decreases steps.len(),
{
    if steps.len() == 0 {
        Seq::empty()
    } else {
        let before = tokens_of::<G>(entries, src, steps.drop_last());
        match step_outcome::<G>(entries, src, steps.last()) {
            Ok(t) => if G::spec_skip(t) {
                before
            } else {
                before.push(t)
            },
            Err(_) => before,
        }
    }
}

/// The errors that `steps` recorded, in order.
pub open spec fn errors_of<'a, G: Grammar<'a>>(
    entries: Seq<(Seq<char>, G::Rule)>,
    src: &'a str,
    steps: Seq<(int, int, int)>,
) -> Seq<(SourceSpan<'a>, Seq<char>)>
    decreases steps.len(),
{
    if steps.len() == 0 {
        Seq::empty()
    } else {
        let before = errors_of::<G>(entries, src, steps.drop_last());
        match step_outcome::<G>(entries, src, steps.last()) {
            Ok(_) => before,
            Err(e) => before.push(e),
        }
    }
}

/// Where a scan that started at `from` and consumed `steps` stopped.
pub open spec fn stop_of(steps: Seq<(int, int, int)>, from: int) -> int {
    if steps.len() == 0 {
        from
    } else {
        steps.last().2
    }
}

/// A found entry is in the table, its match starts at `pos`, consumes at
/// least one byte, and ends on a character boundary inside the buffer; every
/// entry between `from` and it has no such match.
pub proof fn lemma_first_match_sound<R>(entries: Seq<(Seq<char>, R)>, src: &str, pos: int, from: int)
    requires
        0 <= from,
    ensures
        first_match(entries, src, pos, from) matches Some((i, e)) ==> {
            &&& from <= i < entries.len()
            &&& match_end(entries[i].0, src, pos) == Some(e)
            &&& pos < e
            &&& valid_range(src, pos, e)
            &&& forall|j: int| from <= j < i ==> match_end(entries[j].0, src, pos) is None
        },
        first_match(entries, src, pos, from) is None ==> forall|j: int|
            from <= j < entries.len() ==> match_end(entries[j].0, src, pos) is None,
    decreases entries.len() - from,
{
    if from < entries.len() {
        lemma_first_match_sound(entries, src, pos, from + 1);
    }
}

/// The views of a sequence of errors.
pub open spec fn error_views<'a>(errors: Seq<LexError<'a>>) -> Seq<(SourceSpan<'a>, Seq<char>)> {
    errors.map_values(|e: LexError<'a>| e@)
}

/// What `lex` returns, stated over the scan's steps from offset zero.
pub open spec fn lexes_to<'a, G: Grammar<'a>>(
    entries: Seq<(Seq<char>, G::Rule)>,
    src: &'a str,
    tokens: Seq<G::Tok>,
    errors: Seq<(SourceSpan<'a>, Seq<char>)>,
    stalled_at: Option<usize>,
) -> bool {
    let steps = scan_steps(entries, src, 0);
    &&& tokens == tokens_of::<G>(entries, src, steps)
    &&& errors == errors_of::<G>(entries, src, steps)
    &&& stalled_at == if stop_of(steps, 0) < bytes_of(src).len() {
        Some(stop_of(steps, 0) as usize)
    } else {
        None::<usize>
    }
}

impl<R: Copy> PatternTable<R> {
    /// A table with no entries.
    pub fn new() -> (r: Self)
        ensures
            r@ == Seq::<(Seq<char>, R)>::empty(),
    {
        PatternTable { entries: Vec::new() }
    }

    /// Appends an entry after every existing one, so it has the lowest priority.
    pub fn add(&mut self, pattern: &str, rule: R) -> (r: Result<(), PatternError>)
        ensures
            r is Ok <==> crate::pattern::regex_accepts(pattern@),
            r is Ok ==> final(self)@ == old(self)@.push((pattern@, rule)),
            r matches Err(e) ==> final(self)@ == old(self)@ && e.pattern@ == pattern@,
    {
        match Pattern::new(pattern) {
            Ok(p) => {
                self.entries.push((p, rule));
                assert(final(self)@ =~= old(self)@.push((pattern@, rule)));
                Ok(())
            },
            Err(e) => Err(e),
        }
    }

    pub fn len(&self) -> (r: usize)
        ensures
            r == self@.len(),
    {
        self.entries.len()
    }

    /// The constructor of entry `i`.
    pub fn rule(&self, i: usize) -> (r: R)
        requires
            i < self@.len(),
        ensures
            r == self@[i as int].1,
    {
        self.entries[i].1
    }

    /// The first entry with a non-empty match starting exactly at `pos`, and
    /// where that match ends.
    pub fn first_match(&self, src: &str, pos: usize) -> (r: Option<(usize, usize)>)
        requires
            pos <= src.len(),
        ensures
            r matches Some((i, e)) ==> first_match(self@, src, pos as int, 0) == Some(
                (i as int, e as int),
            ),
            r is None ==> first_match(self@, src, pos as int, 0) is None,
    {
        let n = self.entries.len();
        let mut i: usize = 0;
        while i < n
            invariant
                n == self@.len(),
                pos <= src.len(),
                i <= n,
                first_match(self@, src, pos as int, 0) == first_match(self@, src, pos as int, i as int),
            decreases n - i,
        {
            let entry = &self.entries[i];
            match entry.0.match_at(src, pos) {
                Some(e) => {
                    return Some((i, e));
                },
                None => {},
            }
            i = i + 1;
        }
        None
    }
}

/// What a scan hands back: the token stream, the recoverable errors in the
/// order found, and, when no entry matched somewhere before the end of the
/// buffer, the offset where scanning had to stop.
#[derive(Debug)]
pub struct LexOutput<'a, T: Token> {
    pub tokens: TokenStream<T>,
    pub errors: ErrorEmitter<LexError<'a>>,
    pub stalled_at: Option<usize>,
}

/// Scans `src` with the entries of `table`, left to right. At each offset
/// the first entry whose non-empty match starts exactly there consumes it:
/// its constructor's token is appended unless it marks skippable text, and
/// its error is recorded; either way the scan moves past the match. Offsets
/// where no entry matches are never skipped: the scan stops there instead.
pub fn lex<'a, G: Grammar<'a>>(table: &PatternTable<G::Rule>, src: &'a str) -> (out: LexOutput<
    'a,
    G::Tok,
>)
    ensures
        lexes_to::<G>(table@, src, out.tokens@, error_views(out.errors@), out.stalled_at),
        forall|k: int| 0 <= k < out.tokens@.len() ==> !G::spec_skip(#[trigger] out.tokens@[k]),
        forall|j: int, k: int|
            0 <= j < k < out.tokens@.len() ==> G::spec_offset(#[trigger] out.tokens@[j])
                < G::spec_offset(#[trigger] out.tokens@[k]),
        forall|j: int, k: int|
            0 <= j < k < out.tokens@.len() ==> G::spec_end(#[trigger] out.tokens@[j])
                <= G::spec_offset(#[trigger] out.tokens@[k]),
{
    let n = src.as_bytes().len();
    let mut tokens: TokenStream<G::Tok> = TokenStream::new(n);
    let mut errors: ErrorEmitter<LexError<'a>> = ErrorEmitter::new();
    let mut pos: usize = 0;
    let ghost entries = table@;
    let ghost mut done: Seq<(int, int, int)> = Seq::empty();
    let mut stuck = false;
    while pos < n && !stuck
        invariant
            n == bytes_of(src).len(),
            entries == table@,
            pos <= n,
            done + scan_steps(entries, src, pos as int) == scan_steps(entries, src, 0),
            stop_of(done, 0) == pos,
            stuck ==> pos < n && scan_steps(entries, src, pos as int) == Seq::<(int, int, int)>::empty(),
            tokens@ == tokens_of::<G>(entries, src, done),
            error_views(errors@) == errors_of::<G>(entries, src, done),
            forall|k: int| 0 <= k < tokens@.len() ==> !G::spec_skip(#[trigger] tokens@[k]),
            forall|k: int| 0 <= k < tokens@.len() ==> G::spec_offset(#[trigger] tokens@[k]) < pos,
            forall|k: int| 0 <= k < tokens@.len() ==> G::spec_end(#[trigger] tokens@[k]) <= pos,
            forall|j: int, k: int|
                0 <= j < k < tokens@.len() ==> G::spec_offset(#[trigger] tokens@[j])
                    < G::spec_offset(#[trigger] tokens@[k]),
            forall|j: int, k: int|
                0 <= j < k < tokens@.len() ==> G::spec_end(#[trigger] tokens@[j])
                    <= G::spec_offset(#[trigger] tokens@[k]),
        decreases n - pos + if stuck {
            0int
        } else {
            1int
        },
    {
        proof {
            lemma_first_match_sound(entries, src, pos as int, 0);
        }
        match table.first_match(src, pos) {
            Some((i, e)) => {
                let ghost step = (i as int, pos as int, e as int);
                assert(scan_steps(entries, src, pos as int) == seq![step] + scan_steps(
                    entries,
                    src,
                    e as int,
                ));
                let rule = table.rule(i);
                let outcome = G::construct(rule, src, pos, e);
                proof {
                    assert(done.push(step).drop_last() =~= done);
                    assert(done.push(step) + scan_steps(entries, src, e as int) =~= done + (
                    seq![step] + scan_steps(entries, src, e as int)));
                }
                match outcome {
                    Ok(t) => {
                        if !G::is_skip(&t) {
                            tokens.push(t);
                        }
                    },
                    Err(err) => {
                        let ghost before = errors@;
                        errors.push(err);
                        assert(error_views(errors@) =~= error_views(before).push(err@));
                    },
                }
                proof {
                    done = done.push(step);
                }
                pos = e;
            },
            None => {
                stuck = true;
            },
        }
    }
    assert(done =~= done + scan_steps(entries, src, pos as int));
    let stalled_at = if pos < n {
        Some(pos)
    } else {
        None
    };
    LexOutput { tokens, errors, stalled_at }
}

/// Why a finished scan is not ready for a parser.
#[derive(Debug)]
pub enum LexFailure<'a> {
    /// The scan produced no token at all.
    EmptyStream,
    /// The scan recorded errors; all of them, in the order found.
    Errors(ErrorEmitter<LexError<'a>>),
    /// No entry matched at this offset, so the rest was never scanned.
    Stalled(usize),
}

impl<'a, T: Token> LexOutput<'a, T> {
    /// Hands over the token stream when it is fit for a parser: not empty,
    /// with no error recorded and the whole buffer scanned. An empty stream
    /// is reported first, whatever errors came with it, then errors, then a
    /// stall.
    pub fn finish(self) -> (r: Result<TokenStream<T>, LexFailure<'a>>)
        ensures
            r is Ok <==> (self.tokens@.len() > 0 && self.errors@.len() == 0
                && self.stalled_at is None),
            r matches Ok(ts) ==> ts@ == self.tokens@,
            self.tokens@.len() == 0 ==> r matches Err(LexFailure::EmptyStream),
            self.tokens@.len() > 0 && self.errors@.len() > 0 ==> (r matches Err(
                LexFailure::Errors(es),
            ) && es@ == self.errors@),
            self.tokens@.len() > 0 && self.errors@.len() == 0 && self.stalled_at is Some ==> r
                == Err::<TokenStream<T>, LexFailure<'a>>(
                LexFailure::Stalled(self.stalled_at.unwrap()),
            ),
    {
        if self.tokens.is_empty() {
            Err(LexFailure::EmptyStream)
        } else if !self.errors.is_empty() {
            Err(LexFailure::Errors(self.errors))
        } else {
            match self.stalled_at {
                Some(p) => Err(LexFailure::Stalled(p)),
                None => Ok(self.tokens),
            }
        }
    }
}

} // verus!
