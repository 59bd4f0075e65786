use vstd::prelude::*;

use crate::cursor::ByteCursor;
use crate::SeekFrom;
use crate::Stream;
use crate::StreamError;

verus! {

/// A window narrowed to reading: it forwards read and seek unchanged and
/// exposes no write at all, so a holder is kept from writing by the type,
/// not by a runtime check. No state of its own beyond the wrapped window.
#[derive(Clone, Copy, Debug, PartialEq, Eq, Structural)]
pub struct ReadOnlyWindow {
    win: Stream,
}

/// A window narrowed to writing: it forwards write, seek and flush
/// unchanged and exposes no read at all. No state of its own beyond the
/// wrapped window.
#[derive(Clone, Copy, Debug, PartialEq, Eq, Structural)]
pub struct WriteOnlyWindow {
    win: Stream,
}

impl Stream {
    /// Narrows this window to its read capability.
    pub fn to_read_only(self) -> (r: ReadOnlyWindow)
        ensures
            r.window() == self,
    {
        ReadOnlyWindow { win: self }
    }

    /// Narrows this window to its write capability.
    pub fn to_write_only(self) -> (r: WriteOnlyWindow)
        ensures
            r.window() == self,
    {
        WriteOnlyWindow { win: self }
    }
}

impl ReadOnlyWindow {
    /// The window this view narrows.
    pub closed spec fn window(self) -> Stream {
        self.win
    }

    /// Forwards to the wrapped window's seek, unchanged.
    pub fn seek(&self, inner: &mut ByteCursor, pos: SeekFrom) -> (r: Result<u64, StreamError>)
        ensures
            final(inner).bytes() == old(inner).bytes(),
            r is Ok <==> self.window().seek_in_bounds(*old(inner), pos),
            r is Ok ==> final(inner).pos() == self.window().seek_target(*old(inner), pos)
                && r->Ok_0 == self.window().seek_target(*old(inner), pos)
                    - self.window().origin_pos,
            r is Err ==> final(inner).pos() == old(inner).pos()
                && r->Err_0 == StreamError::InvalidSeek,
    {
        self.win.seek(inner, pos)
    }

    /// Forwards to the wrapped window's read, unchanged.
    pub fn read(&self, inner: &mut ByteCursor, buf: &mut Vec<u8>) -> (n: usize)
        ensures
            n == if old(buf).len() <= self.window().spec_remainder(*old(inner)) {
                old(buf).len() as int
            } else {
                self.window().spec_remainder(*old(inner))
            },
            final(inner).bytes() == old(inner).bytes(),
            final(inner).pos() == old(inner).pos() + n,
            final(buf).len() == old(buf).len(),
            forall|j: int| 0 <= j < n
                ==> final(buf)@[j] == old(inner).bytes()[old(inner).pos() + j],
            forall|j: int| n <= j < old(buf).len() ==> final(buf)@[j] == old(buf)@[j],
    {
        self.win.read(inner, buf)
    }

    /// Hands the full window back, with both capabilities.
    pub fn unwrap(self) -> (s: Stream)
        ensures
            s == self.window(),
    {
        self.win
    }
}

impl WriteOnlyWindow {
    /// The window this view narrows.
    pub closed spec fn window(self) -> Stream {
        self.win
    }

    /// Forwards to the wrapped window's seek, unchanged.
    pub fn seek(&self, inner: &mut ByteCursor, pos: SeekFrom) -> (r: Result<u64, StreamError>)
        ensures
            final(inner).bytes() == old(inner).bytes(),
            r is Ok <==> self.window().seek_in_bounds(*old(inner), pos),
            r is Ok ==> final(inner).pos() == self.window().seek_target(*old(inner), pos)
                && r->Ok_0 == self.window().seek_target(*old(inner), pos)
                    - self.window().origin_pos,
            r is Err ==> final(inner).pos() == old(inner).pos()
                && r->Err_0 == StreamError::InvalidSeek,
    {
        self.win.seek(inner, pos)
    }

    /// Forwards to the wrapped window's write, unchanged.
    pub fn write(&self, inner: &mut ByteCursor, buf: &Vec<u8>) -> (n: usize)
        ensures
            n == if buf.len() <= self.window().spec_remainder(*old(inner)) {
                buf.len() as int
            } else {
                self.window().spec_remainder(*old(inner))
            },
            final(inner).bytes().len() == old(inner).bytes().len(),
            final(inner).pos() == old(inner).pos() + n,
            forall|j: int| 0 <= j < n
                ==> final(inner).bytes()[old(inner).pos() + j] == buf@[j],
            forall|j: int| 0 <= j < old(inner).bytes().len()
                && !(old(inner).pos() <= j < old(inner).pos() + n)
                ==> final(inner).bytes()[j] == old(inner).bytes()[j],
    {
        self.win.write(inner, buf)
    }

    /// Forwards to the wrapped window's flush.
    pub fn flush(&self, inner: &mut ByteCursor)
        ensures
            *final(inner) == *old(inner),
    {
        self.win.flush(inner);
    }

    /// Hands the full window back, with both capabilities.
    pub fn unwrap(self) -> (s: Stream)
        ensures
            s == self.window(),
    {
        self.win
    }
}

} // verus!
