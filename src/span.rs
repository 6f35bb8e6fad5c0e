//! Offset ranges into a borrowed source buffer.
use vstd::prelude::*;
use vstd::string::*;
use vstd::utf8::*;

verus! {

/// The bytes of a source buffer, as the offsets of a span count them.
pub open spec fn bytes_of(s: &str) -> Seq<u8> {
    s.spec_bytes()
}

/// A span lies inside its buffer and both ends are character boundaries,
/// so its text can be sliced out.
pub open spec fn valid_range(src: &str, start: int, end: int) -> bool {
    &&& 0 <= start <= end <= bytes_of(src).len()
    &&& is_char_boundary(bytes_of(src), start)
    &&& is_char_boundary(bytes_of(src), end)
}

/// A character boundary of a UTF-8 buffer that lies inside one of its
/// prefixes ending at a boundary is a boundary of that prefix as well.
pub proof fn lemma_prefix_boundary(bytes: Seq<u8>, end: int, i: int)
    requires
        valid_utf8(bytes),
        0 <= i <= end <= bytes.len(),
        is_char_boundary(bytes, i),
        is_char_boundary(bytes, end),
    ensures
        valid_utf8(bytes.subrange(0, end)),
        is_char_boundary(bytes.subrange(0, end), i),
{
    let head = bytes.subrange(0, end);
    valid_utf8_split(bytes, end);
    is_char_boundary_start_end_of_seq(head);
    if i < end {
        is_char_boundary_iff_not_is_continuation_byte(bytes, i);
        is_char_boundary_iff_not_is_continuation_byte(head, i);
    }
}

/// Anything that covers a range of a source buffer.
pub trait Span {
    /// The buffer the range refers to.
    spec fn buffer(&self) -> &str;

    /// First byte offset of the range.
    spec fn lo(&self) -> int;

    /// Byte offset just past the range.
    spec fn hi(&self) -> int;

    fn src(&self) -> (r: &str)
        ensures
            r == self.buffer(),
    ;

    fn start(&self) -> (r: usize)
        ensures
            r == self.lo(),
    ;

    fn end(&self) -> (r: usize)
        ensures
            r == self.hi(),
    ;

    /// The text the range covers.
    fn span(&self) -> (r: &str)
        requires
            valid_range(self.buffer(), self.lo(), self.hi()),
        ensures
            bytes_of(r) == bytes_of(self.buffer()).subrange(self.lo(), self.hi()),
    ;

    /// Number of bytes covered (zero for a reversed range).
    fn len(&self) -> (r: usize)
        ensures
            r == if self.lo() <= self.hi() { self.hi() - self.lo() } else { 0 },
    ;

    fn is_empty(&self) -> (r: bool)
        ensures
            r == (self.hi() <= self.lo()),
    {
        self.len() == 0
    }
}

/// A range of a source buffer, holding the buffer by shared borrow.
///
/// Construction never checks the range: the scanner only builds spans at
/// boundaries that a pattern match reported.
#[derive(Clone, Copy, Debug)]
pub struct SourceSpan<'a> {
    src: &'a str,
    start: usize,
    end: usize,
}

impl<'a> SourceSpan<'a> {
    /// The span of `src[start..end]`.
    pub closed spec fn spec_new(src: &'a str, start: usize, end: usize) -> SourceSpan<'a> {
        SourceSpan { src, start, end }
    }

    pub fn new(src: &'a str, start: usize, end: usize) -> (r: Self)
        ensures
            r == Self::spec_new(src, start, end),
            r.buffer() == src,
            r.lo() == start,
            r.hi() == end,
    {
        SourceSpan { src, start, end }
    }
}

impl<'a> Span for SourceSpan<'a> {
    closed spec fn buffer(&self) -> &str {
        self.src
    }

    closed spec fn lo(&self) -> int {
        self.start as int
    }

    closed spec fn hi(&self) -> int {
        self.end as int
    }

    fn src(&self) -> (r: &str) {
        self.src
    }

    fn start(&self) -> (r: usize) {
        self.start
    }

    fn end(&self) -> (r: usize) {
        self.end
    }

    fn span(&self) -> (r: &str) {
        proof {
            encode_utf8_valid_utf8(self.src@);
            lemma_prefix_boundary(bytes_of(self.src), self.end as int, self.start as int);
        }
        let (head, _) = self.src.split_at(self.end);
        let (_, text) = head.split_at(self.start);
        text
    }

    fn len(&self) -> (r: usize) {
        if self.start <= self.end {
            self.end - self.start
        } else {
            0
        }
    }
}

} // verus!
