//! Decisions of the chapter range fetcher: validating and resolving the
//! requested range, the per-chapter retry policy, and the one-hop redirect
//! resolution for image URLs. The network calls themselves happen outside
//! the library; every outcome is handed back here as a plain value.

use vstd::prelude::*;
use crate::extract::Piece;

verus! {

/// A validated chapter range: both bounds inclusive, `from <= to`.
/// `beyond_count` records that the caller asked for more chapters than the
/// novel has, which is worth a warning but does not stop the run.
#[derive(Debug, PartialEq, Eq, Structural, Clone, Copy)]
pub struct ResolvedRange {
    pub from: usize,
    pub to: usize,
    pub beyond_count: bool,
}

/// The fatal range faults: a start past the novel's end, or an upper bound
/// below the start.
#[derive(Debug, PartialEq, Eq, Structural, Clone, Copy)]
pub enum RangeError {
    FromBeyondCount,
    FromAboveTo,
}

/// What the requested bounds resolve to against the novel's chapter count:
/// a missing upper bound defaults to the count; an upper bound past the
/// count is kept, flagged; a start past the count, or above the upper
/// bound, is fatal.
pub open spec fn resolve_range_spec(from: usize, to: Option<usize>, chapter_count: usize) -> Result<
    ResolvedRange,
    RangeError,
> {
    if from > chapter_count {
        Err(RangeError::FromBeyondCount)
    } else {
        match to {
            None => Ok(ResolvedRange { from, to: chapter_count, beyond_count: false }),
            Some(t) => if t > chapter_count {
                Ok(ResolvedRange { from, to: t, beyond_count: true })
            } else if from > t {
                Err(RangeError::FromAboveTo)
            } else {
                Ok(ResolvedRange { from, to: t, beyond_count: false })
            },
        }
    }
}

/// Validates the requested bounds, before anything is fetched.
pub fn resolve_range(from: usize, to: Option<usize>, chapter_count: usize) -> (r: Result<
    ResolvedRange,
    RangeError,
>)
    requires
        from >= 1,
    ensures
        r == resolve_range_spec(from, to, chapter_count),
        r matches Ok(rr) ==> rr.from == from && rr.from <= rr.to,
{
    if from > chapter_count {
        Err(RangeError::FromBeyondCount)
    } else {
        match to {
            None => Ok(ResolvedRange { from, to: chapter_count, beyond_count: false }),
            Some(t) => if t > chapter_count {
                Ok(ResolvedRange { from, to: t, beyond_count: true })
            } else if from > t {
                Err(RangeError::FromAboveTo)
            } else {
                Ok(ResolvedRange { from, to: t, beyond_count: false })
            },
        }
    }
}

/// The half of range validation that needs no metadata: a named upper
/// bound below the start is rejected here, before any network call is
/// made.
pub fn precheck_range(from: usize, to: Option<usize>) -> (r: Result<(), RangeError>)
    ensures
        (to matches Some(t) && from > t) <==> r == Result::<(), RangeError>::Err(
            RangeError::FromAboveTo,
        ),
        r is Ok <==> !(to matches Some(t) && from > t),
{
    match to {
        Some(t) => if from > t {
            Err(RangeError::FromAboveTo)
        } else {
            Ok(())
        },
        None => Ok(()),
    }
}

/// A pair that passes the pre-network check is never rejected for its
/// order later: against any chapter count, resolution can only fail for a
/// start past the novel's end.
pub proof fn lemma_precheck_screens_order(from: usize, to: Option<usize>, chapter_count: usize)
    ensures
        !(to matches Some(t) && from > t) ==> resolve_range_spec(from, to, chapter_count)
            != Result::<ResolvedRange, RangeError>::Err(RangeError::FromAboveTo),
{
}

/// The chapter indices a resolved range covers: every index from `from` to
/// `to` inclusive, ascending, and no others.
pub fn chapter_indices(range: &ResolvedRange) -> (r: Vec<usize>)
    requires
        1 <= range.from <= range.to,
    ensures
        r@.len() == range.to - range.from + 1,
        forall|i: int| 0 <= i < r@.len() ==> r@[i] == range.from + i,
{
    let mut out: Vec<usize> = Vec::new();
    let count = range.to - range.from;
    let mut i: usize = 0;
    while i <= count
        invariant
            1 <= range.from <= range.to,
            count == range.to - range.from,
            0 <= i <= count + 1,
            out@.len() == i,
            forall|k: int| 0 <= k < out@.len() ==> out@[k] == range.from + k,
        decreases count + 1 - i,
    {
        out.push(range.from + i);
        i = i + 1;
    }
    out
}

/// How one attempt to fetch a chapter page ended: an HTTP status, a
/// transport-level failure, or a response whose body could not be read.
#[derive(Debug, PartialEq, Eq, Structural, Clone, Copy)]
pub enum FetchOutcome {
    Status(u16),
    Transport,
    BodyUnreadable,
}

/// The next move of the per-chapter loop: hand the page to the extractor,
/// or try the same chapter again, after a backoff delay when the transport
/// itself failed.
#[derive(Debug, PartialEq, Eq, Structural, Clone, Copy)]
pub enum ChapterStep {
    Extract,
    Retry { backoff: bool },
}

/// The retry policy: only a 200 page goes to the extractor; every other
/// outcome is retried, with a backoff delay after a transport failure.
pub open spec fn chapter_step_spec(o: FetchOutcome) -> ChapterStep {
    match o {
        FetchOutcome::Status(code) => if code == 200 {
            ChapterStep::Extract
        } else {
            ChapterStep::Retry { backoff: false }
        },
        FetchOutcome::Transport => ChapterStep::Retry { backoff: true },
        FetchOutcome::BodyUnreadable => ChapterStep::Retry { backoff: false },
    }
}

/// Decides what the per-chapter loop does with one fetch outcome.
pub fn chapter_fetch_step(o: &FetchOutcome) -> (r: ChapterStep)
    ensures
        r == chapter_step_spec(*o),
{
    match o {
        FetchOutcome::Status(code) => if *code == 200 {
            ChapterStep::Extract
        } else {
            ChapterStep::Retry { backoff: false }
        },
        FetchOutcome::Transport => ChapterStep::Retry { backoff: true },
        FetchOutcome::BodyUnreadable => ChapterStep::Retry { backoff: false },
    }
}

/// A failed chapter fetch is never fatal: every outcome short of a 200 page
/// asks for another attempt at the same chapter, and only a transport
/// failure asks for a delay first.
pub proof fn lemma_fetch_failure_retries(o: FetchOutcome)
    ensures
        o != FetchOutcome::Status(200u16) ==> chapter_step_spec(o) matches ChapterStep::Retry {
            ..
        },
        chapter_step_spec(o) == ChapterStep::Extract <==> o == FetchOutcome::Status(200u16),
        chapter_step_spec(o) == (ChapterStep::Retry { backoff: true }) <==> o
            == FetchOutcome::Transport,
{
}

/// How a header-only probe of an image URL ended: a status line with the
/// `Location` header if one was present and readable, or a transport
/// failure.
pub enum HeadOutcome {
    Response(u16, Option<String>),
    Failed,
}

/// One-hop redirect resolution: a 3xx response with a readable `Location`
/// header names the real URL; in every other case the original URL stands.
pub open spec fn resolve_redirect_spec(url: Seq<char>, o: HeadOutcome) -> Seq<char> {
    match o {
        HeadOutcome::Response(status, loc) => if 300 <= status && status <= 399 {
            match loc {
                Some(l) => l@,
                None => url,
            }
        } else {
            url
        },
        HeadOutcome::Failed => url,
    }
}

/// Applies the redirect-resolution rule to one probe outcome. Degrades to
/// the original URL on anything but a clean redirect; it never fails the
/// caller.
pub fn resolve_redirect(url: String, o: HeadOutcome) -> (r: String)
    ensures
        r@ == resolve_redirect_spec(url@, o),
{
    match o {
        HeadOutcome::Response(status, loc) => if 300 <= status && status <= 399 {
            match loc {
                Some(l) => l,
                None => url,
            }
        } else {
            url
        },
        HeadOutcome::Failed => url,
    }
}

/// Applies one probe outcome to one planned piece: an image link gets its
/// resolved URL, its alt text untouched; any other piece stands as it is.
pub fn resolve_piece(p: Piece, o: HeadOutcome) -> (r: Piece)
    ensures
        p matches Piece::Image(src, alt) ==> (r matches Piece::Image(s2, a2) && s2@
            == resolve_redirect_spec(src@, o) && a2@ == alt@),
        !(p is Image) ==> r == p,
{
    match p {
        Piece::Image(src, alt) => Piece::Image(resolve_redirect(src, o), alt),
        other => other,
    }
}

} // verus!
