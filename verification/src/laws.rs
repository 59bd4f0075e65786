use vstd::prelude::*;

use crate::cursor::ByteCursor;
use crate::SeekFrom;
use crate::Stream;

verus! {

/// Law: a window with no limit of its own reaches exactly to the end of
/// the cursor. A seek measured from the window start is accepted exactly
/// when it does not pass the cursor's extent: seeking to exactly the
/// extent succeeds, and one byte further fails.
pub proof fn lemma_no_limit_seek_bound(s: Stream, inner: ByteCursor, n: u64)
    requires
        s.limit_pos == u64::MAX,
    ensures
        s.seek_in_bounds(inner, SeekFrom::Start(n)) <==> s.origin_pos + n <= inner.bytes().len(),
{
    inner.lemma_extent_bounded();
}

/// Law: a window whose limit `l` stays within the cursor's extent ends
/// exactly `l` bytes past its start. Seeking to `l` from the window
/// start is accepted, seeking to anything farther is rejected, and with
/// the cursor at the window start the remainder is exactly `l`.
pub proof fn lemma_limit_within_extent(s: Stream, inner: ByteCursor, l: u64)
    requires
        s.limit_pos == s.origin_pos + l,
        s.origin_pos + l <= inner.bytes().len(),
    ensures
        s.seek_in_bounds(inner, SeekFrom::Start(l)),
        forall|m: u64| l < m ==> !(#[trigger] s.seek_in_bounds(inner, SeekFrom::Start(m))),
        inner.pos() == s.origin_pos ==> s.spec_remainder(inner) == l,
{
}

/// Law: a limit past the cursor's extent never grows the window. The
/// effective end is the extent itself, whatever larger limit was asked
/// for.
pub proof fn lemma_limit_clamped_to_extent(s: Stream, inner: ByteCursor)
    requires
        s.limit_pos > inner.bytes().len(),
    ensures
        s.end_pos(inner) == inner.bytes().len(),
{
}

/// Law: nesting never widens. A window carved out of `parent` at the
/// cursor's position stays under `parent`'s own bound whatever limit was
/// requested, and its effective end never passes the parent's effective
/// end.
pub proof fn lemma_nesting_never_widens(parent: Stream, inner: ByteCursor, limit: Option<u64>)
    ensures
        parent.chunk_limit_pos(inner.pos(), limit) <= parent.limit_pos,
        (Stream {
            origin_pos: inner.pos(),
            limit_pos: parent.chunk_limit_pos(inner.pos(), limit),
        }).end_pos(inner) <= parent.end_pos(inner),
{
}

} // verus!
