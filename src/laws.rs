//! Facts about every scan, whatever the table and the buffer.
use vstd::prelude::*;
use vstd::utf8::*;
use crate::pattern::match_end;
use crate::scan::{
    errors_of, first_match, lemma_first_match_sound, lexes_to, scan_steps, stop_of, tokens_of, Grammar,
};
use crate::span::{bytes_of, valid_range, SourceSpan};

verus! {

/// `steps` consume `lo..hi` with no gap and no overlap: each consumes at
/// least one byte and starts where the previous one ended.
pub open spec fn tiles(steps: Seq<(int, int, int)>, lo: int, hi: int) -> bool {
    &&& steps.len() == 0 ==> lo == hi
    &&& steps.len() > 0 ==> steps[0].1 == lo && steps.last().2 == hi
    &&& forall|k: int| 0 <= k < steps.len() ==> (#[trigger] steps[k]).1 < steps[k].2
    &&& forall|k: int| 0 <= k < steps.len() - 1 ==> (#[trigger] steps[k]).2 == steps[k + 1].1
}

/// Some entry of the table matches at every character boundary of `src`
/// before its end, as a catch-all entry does.
pub open spec fn matches_everywhere<R>(entries: Seq<(Seq<char>, R)>, src: &str) -> bool {
    forall|pos: int|
        0 <= pos < bytes_of(src).len() && is_char_boundary(bytes_of(src), pos) ==> (#[trigger] first_match(
            entries,
            src,
            pos,
            0,
        )) is Some
}

proof fn lemma_steps_from<R>(entries: Seq<(Seq<char>, R)>, src: &str, pos: int)
    requires
        valid_utf8(bytes_of(src)),
        0 <= pos <= bytes_of(src).len(),
        is_char_boundary(bytes_of(src), pos),
    ensures
        scan_steps(entries, src, pos).len() <= bytes_of(src).len() - pos,
        tiles(scan_steps(entries, src, pos), pos, stop_of(scan_steps(entries, src, pos), pos)),
        matches_everywhere(entries, src) ==> stop_of(scan_steps(entries, src, pos), pos)
            == bytes_of(src).len(),
    decreases bytes_of(src).len() - pos,
{
    let steps = scan_steps(entries, src, pos);
    if pos < bytes_of(src).len() {
        lemma_first_match_sound(entries, src, pos, 0);
        match first_match(entries, src, pos, 0) {
            Some((i, e)) => {
                lemma_steps_from(entries, src, e);
                let rest = scan_steps(entries, src, e);
                assert(steps == seq![(i, pos, e)] + rest);
                assert forall|k: int| 1 <= k < steps.len() implies steps[k] == rest[k - 1] by {}
                if rest.len() > 0 {
                    assert(steps.last() == rest.last());
                }
                assert forall|k: int| 0 <= k < steps.len() implies (#[trigger] steps[k]).1
                    < steps[k].2 by {
                    if k > 0 {
                        assert(rest[k - 1].1 < rest[k - 1].2);
                    }
                }
                assert forall|k: int| 0 <= k < steps.len() - 1 implies (#[trigger] steps[k]).2
                    == steps[k + 1].1 by {
                    if k > 0 {
                        assert(rest[k - 1].2 == rest[k].1);
                    }
                }
            },
            None => {},
        }
    }
}

/// A scan takes at most one step per byte of its buffer: each step consumes
/// at least one byte, so the scan always ends.
pub proof fn scan_steps_bounded_by_length<R>(entries: Seq<(Seq<char>, R)>, src: &str)
    ensures
        scan_steps(entries, src, 0).len() <= bytes_of(src).len(),
{
    encode_utf8_valid_utf8(src@);
    is_char_boundary_start_end_of_seq(bytes_of(src));
    lemma_steps_from(entries, src, 0);
}

/// The ranges a scan consumes tile the buffer from offset zero up to where
/// the scan stopped, with no gap and no overlap; when some entry matches at
/// every character boundary, that is the end of the buffer.
pub proof fn scan_tiles_buffer<R>(entries: Seq<(Seq<char>, R)>, src: &str)
    ensures
        tiles(scan_steps(entries, src, 0), 0, stop_of(scan_steps(entries, src, 0), 0)),
        matches_everywhere(entries, src) ==> stop_of(scan_steps(entries, src, 0), 0)
            == bytes_of(src).len(),
{
    encode_utf8_valid_utf8(src@);
    is_char_boundary_start_end_of_seq(bytes_of(src));
    lemma_steps_from(entries, src, 0);
}

proof fn lemma_outcomes_bounded<'a, G: Grammar<'a>>(
    entries: Seq<(Seq<char>, G::Rule)>,
    src: &'a str,
    steps: Seq<(int, int, int)>,
)
    ensures
        tokens_of::<G>(entries, src, steps).len() + errors_of::<G>(entries, src, steps).len()
            <= steps.len(),
    decreases steps.len(),
{
    if steps.len() > 0 {
        lemma_outcomes_bounded::<G>(entries, src, steps.drop_last());
    }
}

/// Each step of a scan yields at most one token or one error, so a scan's
/// tokens and errors together never outnumber the bytes of its buffer.
pub proof fn lex_output_bounded_by_length<'a, G: Grammar<'a>>(
    entries: Seq<(Seq<char>, G::Rule)>,
    src: &'a str,
    tokens: Seq<G::Tok>,
    errors: Seq<(SourceSpan<'a>, Seq<char>)>,
    stalled_at: Option<usize>,
)
    requires
        lexes_to::<G>(entries, src, tokens, errors, stalled_at),
    ensures
        tokens.len() + errors.len() <= bytes_of(src).len(),
{
    scan_steps_bounded_by_length(entries, src);
    lemma_outcomes_bounded::<G>(entries, src, scan_steps(entries, src, 0));
}

proof fn lemma_same_text_first_match<R>(
    entries: Seq<(Seq<char>, R)>,
    src1: &str,
    src2: &str,
    pos: int,
    from: int,
)
    requires
        src1@ == src2@,
    ensures
        first_match(entries, src1, pos, from) == first_match(entries, src2, pos, from),
    decreases entries.len() - from,
{
    if 0 <= from < entries.len() {
        lemma_same_text_first_match(entries, src1, src2, pos, from + 1);
    }
}

proof fn lemma_same_text_steps<R>(entries: Seq<(Seq<char>, R)>, src1: &str, src2: &str, pos: int)
    requires
        src1@ == src2@,
    ensures
        scan_steps(entries, src1, pos) == scan_steps(entries, src2, pos),
    decreases bytes_of(src1).len() - pos,
{
    lemma_same_text_first_match(entries, src1, src2, pos, 0);
    if 0 <= pos < bytes_of(src1).len() {
        match first_match(entries, src1, pos, 0) {
            Some((i, e)) => {
                if pos < e <= bytes_of(src1).len() {
                    lemma_same_text_steps(entries, src1, src2, e);
                }
            },
            None => {},
        }
    }
}

/// Two buffers holding the same text are scanned alike: the same entries
/// consume the same ranges, whichever buffer is scanned.
pub proof fn same_text_same_steps<R>(entries: Seq<(Seq<char>, R)>, src1: &str, src2: &str)
    requires
        src1@ == src2@,
    ensures
        scan_steps(entries, src1, 0) == scan_steps(entries, src2, 0),
        stop_of(scan_steps(entries, src1, 0), 0) == stop_of(scan_steps(entries, src2, 0), 0),
{
    lemma_same_text_steps(entries, src1, src2, 0);
}

/// Scanning the same buffer with the same table twice gives the same tokens,
/// the same errors and the same stopping point.
pub proof fn lex_is_deterministic<'a, G: Grammar<'a>>(
    entries: Seq<(Seq<char>, G::Rule)>,
    src: &'a str,
    tokens1: Seq<G::Tok>,
    errors1: Seq<(SourceSpan<'a>, Seq<char>)>,
    stalled1: Option<usize>,
    tokens2: Seq<G::Tok>,
    errors2: Seq<(SourceSpan<'a>, Seq<char>)>,
    stalled2: Option<usize>,
)
    requires
        lexes_to::<G>(entries, src, tokens1, errors1, stalled1),
        lexes_to::<G>(entries, src, tokens2, errors2, stalled2),
    ensures
        tokens1 == tokens2,
        errors1 == errors2,
        stalled1 == stalled2,
{
}

/// When entries `i < j` both match at `pos`, the step taken there never
/// belongs to `j`: it belongs to the earliest matching entry, at or before
/// `i`, and consumes exactly that entry's match, whatever the lengths.
pub proof fn first_declared_entry_wins<R>(
    entries: Seq<(Seq<char>, R)>,
    src: &str,
    pos: int,
    i: int,
    j: int,
)
    requires
        0 <= i < j < entries.len(),
        match_end(entries[i].0, src, pos) is Some,
        match_end(entries[j].0, src, pos) is Some,
    ensures
        scan_steps(entries, src, pos).len() > 0,
        scan_steps(entries, src, pos)[0].0 <= i,
        scan_steps(entries, src, pos)[0].0 != j,
        scan_steps(entries, src, pos)[0].1 == pos,
        match_end(entries[scan_steps(entries, src, pos)[0].0].0, src, pos) == Some(
            scan_steps(entries, src, pos)[0].2,
        ),
        forall|k: int|
            0 <= k < scan_steps(entries, src, pos)[0].0 ==> match_end(entries[k].0, src, pos) is None,
{
    lemma_first_match_sound(entries, src, pos, 0);
    let (k, e) = first_match(entries, src, pos, 0).unwrap();
    assert(valid_range(src, pos, e));
    let steps = scan_steps(entries, src, pos);
    assert(steps == seq![(k, pos, e)] + scan_steps(entries, src, e));
}

} // verus!
