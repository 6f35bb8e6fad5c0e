//! Recoverable lexical errors and their accumulator.
use vstd::prelude::*;
use crate::span::{SourceSpan, Span};

verus! {

/// Text that matched no acceptable shape: where it lies and what was wrong.
#[derive(Clone, Debug)]
pub struct LexError<'a> {
    span: SourceSpan<'a>,
    context: String,
}

impl<'a> View for LexError<'a> {
    /// The offending range and the context text.
    type V = (SourceSpan<'a>, Seq<char>);

    open spec fn view(&self) -> (SourceSpan<'a>, Seq<char>) {
        (self.spec_span(), self.spec_context())
    }
}

impl<'a> LexError<'a> {
    pub closed spec fn spec_span(&self) -> SourceSpan<'a> {
        self.span
    }

    pub closed spec fn spec_context(&self) -> Seq<char> {
        self.context@
    }

    pub fn new(src: &'a str, start: usize, end: usize, context: &str) -> (r: Self)
        ensures
            r@ == (SourceSpan::spec_new(src, start, end), context@),
            r.spec_span().buffer() == src,
            r.spec_span().lo() == start,
            r.spec_span().hi() == end,
            r.spec_context() == context@,
    {
        LexError { span: SourceSpan::new(src, start, end), context: context.to_owned() }
    }

    /// The offending range.
    pub fn span(&self) -> (r: SourceSpan<'a>)
        ensures
            r == self.spec_span(),
    {
        self.span
    }

    /// What was wrong with the text.
    pub fn context(&self) -> (r: &str)
        ensures
            r@ == self.spec_context(),
    {
        self.context.as_str()
    }
}

/// Collects every recoverable error of a scan, in the order they were found.
#[derive(Debug)]
pub struct ErrorEmitter<E> {
    state: Vec<E>,
}

impl<E> View for ErrorEmitter<E> {
    type V = Seq<E>;

    closed spec fn view(&self) -> Seq<E> {
        self.state@
    }
}

impl<E> ErrorEmitter<E> {
    pub fn new() -> (r: Self)
        ensures
            r@ == Seq::<E>::empty(),
    {
        ErrorEmitter { state: Vec::new() }
    }

    pub fn push(&mut self, err: E)
        ensures
            final(self)@ == old(self)@.push(err),
    {
        self.state.push(err);
    }

    pub fn len(&self) -> (r: usize)
        ensures
            r == self@.len(),
    {
        self.state.len()
    }

    pub fn is_empty(&self) -> (r: bool)
        ensures
            r == (self@.len() == 0),
    {
        self.state.is_empty()
    }

    /// The errors collected so far, in the order they were found.
    pub fn errors(&self) -> (r: &[E])
        ensures
            r@ == self@,
    {
        self.state.as_slice()
    }

    /// Success when nothing was collected; otherwise every collected error,
    /// in order, as the failure.
    pub fn check(&self) -> (r: Result<(), &[E]>)
        ensures
            self@.len() == 0 ==> r is Ok,
            self@.len() > 0 ==> (r matches Err(errs) && errs@ == self@),
    {
        if self.state.is_empty() {
            Ok(())
        } else {
            Err(self.state.as_slice())
        }
    }
}

impl<E> Default for ErrorEmitter<E> {
    fn default() -> (r: Self)
        ensures
            r@ == Seq::<E>::empty(),
    {
        Self::new()
    }
}

} // verus!
