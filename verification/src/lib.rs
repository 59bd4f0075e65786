//! Bounded, nestable windows over a seekable byte store, with capability
//! views that narrow a window to reading or to writing, and a fixed-width
//! numeric decoder aware of byte order — the primitives needed to walk
//! length-prefixed binary container formats without ever looking past a
//! record's declared end.

pub mod cursor;
pub mod laws;
pub mod read_num;
pub mod views;

use vstd::prelude::*;

use crate::cursor::ByteCursor;

verus! {

/// Where a seek request is measured from.
#[derive(Clone, Copy, Debug, PartialEq, Eq, Structural)]
pub enum SeekFrom {
    /// An offset from the start of the window (or of the bare cursor).
    Start(u64),
    /// A signed offset from the current position.
    Current(i64),
    /// A signed offset from the end of the window (or of the bare cursor).
    End(i64),
}

/// The failures this library reports. Short reads and short writes are
/// not among them: they return the transferred count instead.
#[derive(Clone, Copy, Debug, PartialEq, Eq, Structural)]
pub enum StreamError {
    /// A seek target below the window start, past the window end, or
    /// outside the representable offset range.
    InvalidSeek,
    /// A fixed-width decode met the end of the readable range first.
    UnexpectedEof,
}

/// A bounded window over a [`ByteCursor`]: every operation is confined to
/// the absolute range `[origin_pos, min(limit_pos, cursor length)]`.
///
/// The window itself holds no position; the cursor's absolute position is
/// the single source of truth, and each operation takes the cursor it
/// drives as an argument. Windows over the same cursor may therefore be
/// nested or put aside and resumed freely, one at a time.
#[derive(Clone, Copy, Debug, PartialEq, Eq, Structural)]
pub struct Stream {
    /// Absolute position of the window start, fixed at creation.
    pub origin_pos: u64,
    /// Absolute position the window may not reach past. The cursor's
    /// actual extent always bounds the window as well, so a limit beyond
    /// it — in particular the largest representable offset, standing for
    /// "no limit" — never widens anything.
    pub limit_pos: u64,
}

impl Stream {
    /// Absolute end of the window: the lesser of the window's limit and
    /// the cursor's extent — the actual extent always wins.
    pub open spec fn end_pos(self, inner: ByteCursor) -> int {
        if self.limit_pos <= inner.bytes().len() {
            self.limit_pos as int
        } else {
            inner.bytes().len() as int
        }
    }

    /// Bytes still visible between the cursor's position and the window
    /// end; zero when the position sits at or past the end.
    pub open spec fn spec_remainder(self, inner: ByteCursor) -> int {
        if inner.pos() <= self.end_pos(inner) {
            self.end_pos(inner) - inner.pos()
        } else {
            0
        }
    }

    /// The absolute position a seek request on this window resolves to,
    /// before any range check.
    pub open spec fn seek_target(self, inner: ByteCursor, pos: SeekFrom) -> int {
        match pos {
            SeekFrom::Start(n) => self.origin_pos + n,
            SeekFrom::Current(n) => inner.pos() + n,
            SeekFrom::End(n) => self.end_pos(inner) + n,
        }
    }

    /// A seek is accepted exactly when its target lies inside the window.
    pub open spec fn seek_in_bounds(self, inner: ByteCursor, pos: SeekFrom) -> bool {
        self.origin_pos <= self.seek_target(inner, pos) <= self.end_pos(inner)
    }

    /// The bound a window carved out at `origin` under this window
    /// receives: the requested limit, measured from `origin`, saturated,
    /// and clamped into this window's own bound; an absent limit inherits
    /// this window's bound unchanged. Nesting therefore never widens.
    pub open spec fn chunk_limit_pos(self, origin: u64, limit: Option<u64>) -> u64 {
        match limit {
            Option::None => self.limit_pos,
            Option::Some(l) => {
                let sum: u64 = if origin + l <= u64::MAX { (origin + l) as u64 } else { u64::MAX };
                if sum <= self.limit_pos {
                    sum
                } else {
                    self.limit_pos
                }
            }
        }
    }

    /// Wraps a cursor: a window starting at the cursor's current position
    /// with no limit of its own. Never fails and never moves the cursor.
    pub fn new(inner: &ByteCursor) -> (s: Stream)
        ensures
            s.origin_pos == inner.pos(),
            s.limit_pos == u64::MAX,
    {
        Stream { origin_pos: inner.stream_position(), limit_pos: u64::MAX }
    }

    /// Carves a nested window out of this one, starting at the cursor's
    /// current position, bounded by the requested limit intersected with
    /// this window's own bound. Never fails: clamping is arithmetic, not
    /// an error.
    pub fn borrow_chunk(&self, inner: &ByteCursor, limit: Option<u64>) -> (r: Result<
        Stream,
        StreamError,
    >)
        ensures
            r is Ok,
            r->Ok_0.origin_pos == inner.pos(),
            r->Ok_0.limit_pos == self.chunk_limit_pos(inner.pos(), limit),
    {
        let origin_pos: u64 = inner.stream_position();
        let limit_pos: u64 = match limit {
            None => self.limit_pos,
            Some(l) => {
                let sum: u64 = match origin_pos.checked_add(l) {
                    Some(s) => s,
                    None => u64::MAX,
                };
                if sum <= self.limit_pos {
                    sum
                } else {
                    self.limit_pos
                }
            }
        };
        Ok(Stream { origin_pos, limit_pos })
    }

    /// How many bytes remain between the cursor's position and the window
    /// end. Zero once the position stands at or past the end, also when
    /// something else drove the cursor out of the window. Never fails.
    pub fn remainder_len(&self, inner: &ByteCursor) -> (r: Result<u64, StreamError>)
        ensures
            r is Ok,
            r->Ok_0 == self.spec_remainder(*inner),
    {
        Ok(self.remainder_u64(inner))
    }

    /// Resolves a seek request against the window and, when the target
    /// lies inside `[origin_pos, end]`, moves the cursor there and
    /// returns the position relative to the window start. A target
    /// outside the window — below its start, past its end, or outside
    /// the representable offset range — is rejected with the cursor left
    /// where it was; this covers a target one byte past the bound.
    pub fn seek(&self, inner: &mut ByteCursor, pos: SeekFrom) -> (r: Result<u64, StreamError>)
        ensures
            final(inner).bytes() == old(inner).bytes(),
            r is Ok <==> self.seek_in_bounds(*old(inner), pos),
            r is Ok ==> final(inner).pos() == self.seek_target(*old(inner), pos)
                && r->Ok_0 == self.seek_target(*old(inner), pos) - self.origin_pos,
            r is Err ==> final(inner).pos() == old(inner).pos()
                && r->Err_0 == StreamError::InvalidSeek,
    {
        let start_position: u64 = self.origin_pos;
        let end_position: u64 = self.end_u64(inner);
        let final_position: Option<u64> = match pos {
            SeekFrom::Current(n) => inner.stream_position().checked_add_signed(n),
            SeekFrom::End(n) => end_position.checked_add_signed(n),
            SeekFrom::Start(n) => start_position.checked_add(n),
        };
        let relative_position: Option<u64> = match final_position {
            Some(n) => n.checked_sub(self.origin_pos),
            None => None,
        };
        match (final_position, relative_position) {
            (Some(f), Some(r)) => {
                if f <= end_position {
                    inner.set_position(f);
                    Ok(r)
                } else {
                    Err(StreamError::InvalidSeek)
                }
            }
            _ => Err(StreamError::InvalidSeek),
        }
    }

    /// Reads into the front of `buf`, transferring the lesser of the
    /// buffer's size and the window remainder and advancing the cursor by
    /// that count. Bytes of `buf` past the transferred prefix are left as
    /// they were. A request for more bytes than remain is a short read,
    /// never an error.
    pub fn read(&self, inner: &mut ByteCursor, buf: &mut Vec<u8>) -> (n: usize)
        ensures
            n == if old(buf).len() <= self.spec_remainder(*old(inner)) {
                old(buf).len() as int
            } else {
                self.spec_remainder(*old(inner))
            },
            final(inner).bytes() == old(inner).bytes(),
            final(inner).pos() == old(inner).pos() + n,
            final(buf).len() == old(buf).len(),
            forall|j: int| 0 <= j < n ==> final(buf)@[j] == old(inner).bytes()[old(inner).pos() + j],
            forall|j: int| n <= j < old(buf).len() ==> final(buf)@[j] == old(buf)@[j],
    {
        let rem: u64 = self.remainder_u64(inner);
        let count: usize = if rem < buf.len() as u64 {
            rem as usize
        } else {
            buf.len()
        };
        inner.read_into(buf, count)
    }

    /// Writes from the front of `buf`, transferring the lesser of the
    /// buffer's size and the window remainder and advancing the cursor by
    /// that count. Writing more than remains truncates silently: the
    /// caller detects a short write by the returned count.
    pub fn write(&self, inner: &mut ByteCursor, buf: &Vec<u8>) -> (n: usize)
        ensures
            n == if buf.len() <= self.spec_remainder(*old(inner)) {
                buf.len() as int
            } else {
                self.spec_remainder(*old(inner))
            },
            final(inner).bytes().len() == old(inner).bytes().len(),
            final(inner).pos() == old(inner).pos() + n,
            forall|j: int| 0 <= j < n
                ==> final(inner).bytes()[old(inner).pos() + j] == buf@[j],
            forall|j: int| 0 <= j < old(inner).bytes().len()
                && !(old(inner).pos() <= j < old(inner).pos() + n)
                ==> final(inner).bytes()[j] == old(inner).bytes()[j],
    {
        let rem: u64 = self.remainder_u64(inner);
        let count: usize = if rem < buf.len() as u64 {
            rem as usize
        } else {
            buf.len()
        };
        inner.write_from(buf, count)
    }

    /// Reads exactly `count` bytes from the window, or fails without
    /// yielding any: here a short read is promoted to an error, since a
    /// truncated fixed-width field has no valid interpretation. On
    /// failure the cursor still advances by what the window could
    /// supply.
    pub fn read_exact(&self, inner: &mut ByteCursor, count: usize) -> (r: Result<
        Vec<u8>,
        StreamError,
    >)
        ensures
            final(inner).bytes() == old(inner).bytes(),
            r is Ok <==> count <= self.spec_remainder(*old(inner)),
            r is Ok ==> r->Ok_0@.len() == count && (forall|j: int|
                0 <= j < count ==> r->Ok_0@[j] == old(inner).bytes()[old(inner).pos() + j])
                && final(inner).pos() == old(inner).pos() + count,
            r is Err ==> r->Err_0 == StreamError::UnexpectedEof
                && final(inner).pos() == old(inner).pos() + self.spec_remainder(*old(inner)),
    {
        let mut buf: Vec<u8> = Vec::new();
        let mut i: usize = 0;
        while i < count
            invariant
                i <= count,
                buf@.len() == i,
            decreases count - i,
        {
            buf.push(0u8);
            i = i + 1;
        }
        let n: usize = self.read(inner, &mut buf);
        if n == count {
            Ok(buf)
        } else {
            Err(StreamError::UnexpectedEof)
        }
    }

    /// Forwards to the cursor's flush; the window buffers nothing of its
    /// own.
    pub fn flush(&self, inner: &mut ByteCursor)
        ensures
            *final(inner) == *old(inner),
    {
        inner.flush();
    }

    /// The window end as a machine word.
    fn end_u64(&self, inner: &ByteCursor) -> (e: u64)
        ensures
            e == self.end_pos(*inner),
    {
        let len: u64 = inner.stream_len();
        if len < self.limit_pos {
            len
        } else {
            self.limit_pos
        }
    }

    /// The window remainder as a machine word.
    fn remainder_u64(&self, inner: &ByteCursor) -> (r: u64)
        ensures
            r == self.spec_remainder(*inner),
    {
        let end_position: u64 = self.end_u64(inner);
        let current_position: u64 = inner.stream_position();
        match end_position.checked_sub(current_position) {
            Some(n) => n,
            None => 0,
        }
    }
}

} // verus!
