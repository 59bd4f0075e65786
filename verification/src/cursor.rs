use vstd::prelude::*;
use vstd::pervasive::VecAdditionalExecFns;

use crate::SeekFrom;
use crate::StreamError;

verus! {

/// An in-memory seekable byte store: the underlying stream that bounded
/// windows are laid over.
///
/// It keeps a byte buffer of fixed extent and an absolute position. Reads
/// and writes transfer as many bytes as the buffer still holds past the
/// position (a short transfer, never an error), and the position may be
/// moved past the end, where reads and writes simply transfer nothing.
pub struct ByteCursor {
    data: Vec<u8>,
    pos: u64,
}

impl ByteCursor {
    /// The bytes the cursor holds.
    pub closed spec fn bytes(&self) -> Seq<u8> {
        self.data@
    }

    /// The current absolute position.
    pub closed spec fn pos(&self) -> u64 {
        self.pos
    }

    /// A cursor over `data`, positioned at its start.
    pub fn new(data: Vec<u8>) -> (c: ByteCursor)
        ensures
            c.bytes() == data@,
            c.pos() == 0,
    {
        ByteCursor { data, pos: 0 }
    }

    /// Hands the byte buffer back, giving up the cursor.
    pub fn into_inner(self) -> (data: Vec<u8>)
        ensures
            data@ == self.bytes(),
    {
        self.data
    }

    /// The current absolute position, as a query.
    pub fn stream_position(&self) -> (p: u64)
        ensures
            p == self.pos(),
    {
        self.pos
    }

    /// The total number of bytes held, independent of the position.
    pub fn stream_len(&self) -> (l: u64)
        ensures
            l == self.bytes().len(),
    {
        self.data.len() as u64
    }

    /// Moves the position to `p`, which may lie past the end.
    pub fn set_position(&mut self, p: u64)
        ensures
            final(self).bytes() == old(self).bytes(),
            final(self).pos() == p,
    {
        self.pos = p;
    }

    /// The absolute position a seek request resolves to, before any
    /// range check.
    pub open spec fn seek_target(&self, pos: SeekFrom) -> int {
        match pos {
            SeekFrom::Start(n) => n as int,
            SeekFrom::Current(n) => self.pos() + n,
            SeekFrom::End(n) => self.bytes().len() + n,
        }
    }

    /// Absolute seek on the bare cursor. A target below zero or beyond
    /// the largest representable offset is rejected and the position is
    /// left unchanged; any other target is accepted, even one past the
    /// end of the buffer.
    pub fn seek(&mut self, pos: SeekFrom) -> (r: Result<u64, StreamError>)
        ensures
            final(self).bytes() == old(self).bytes(),
            r is Ok <==> 0 <= old(self).seek_target(pos) <= u64::MAX,
            r is Ok ==> final(self).pos() == old(self).seek_target(pos)
                && r->Ok_0 == old(self).seek_target(pos),
            r is Err ==> final(self).pos() == old(self).pos()
                && r->Err_0 == StreamError::InvalidSeek,
    {
        let target: Option<u64> = match pos {
            SeekFrom::Start(n) => Some(n),
            SeekFrom::Current(n) => self.pos.checked_add_signed(n),
            SeekFrom::End(n) => (self.data.len() as u64).checked_add_signed(n),
        };
        match target {
            Some(p) => {
                self.pos = p;
                Ok(p)
            }
            None => Err(StreamError::InvalidSeek),
        }
    }

    /// Copies up to `count` bytes from the buffer at the current position
    /// into the front of `buf`, advancing the position by the number
    /// copied. Bytes of `buf` past the copied prefix are left as they
    /// were; fewer than `count` bytes are copied only when the buffer
    /// ends first.
    pub fn read_into(&mut self, buf: &mut Vec<u8>, count: usize) -> (n: usize)
        requires
            count <= old(buf).len(),
        ensures
            n == if count <= old(self).available() { count as int } else { old(self).available() },
            final(self).bytes() == old(self).bytes(),
            final(self).pos() == old(self).pos() + n,
            final(buf).len() == old(buf).len(),
            forall|j: int| 0 <= j < n ==> final(buf)@[j] == old(self).bytes()[old(self).pos() + j],
            forall|j: int| n <= j < old(buf).len() ==> final(buf)@[j] == old(buf)@[j],
    {
        let len: u64 = self.data.len() as u64;
        let avail: u64 = if self.pos < len { len - self.pos } else { 0 };
        if avail == 0 || count == 0 {
            return 0;
        }
        let n: usize = if (count as u64) <= avail { count } else { avail as usize };
        let start: usize = self.pos as usize;
        let ghost buf0 = buf@;
        let ghost data0 = self.data@;
        let ghost pos0 = self.pos;
        let mut i: usize = 0;
        while i < n
            invariant
                i <= n,
                n <= buf.len(),
                start + n <= self.data.len(),
                buf@.len() == buf0.len(),
                self.data@ == data0,
                self.pos == pos0,
                start == pos0 as int,
                forall|j: int| 0 <= j < i ==> buf@[j] == data0[start + j],
                forall|j: int| i <= j < buf@.len() ==> buf@[j] == buf0[j],
            decreases n - i,
        {
            let b: u8 = self.data[start + i];
            buf.set(i, b);
            i = i + 1;
        }
        self.pos = self.pos + (n as u64);
        n
    }

    /// Overwrites up to `count` bytes of the buffer at the current
    /// position with the front of `buf`, advancing the position by the
    /// number written. The buffer's extent never changes; fewer than
    /// `count` bytes are written only when the buffer ends first.
    pub fn write_from(&mut self, buf: &Vec<u8>, count: usize) -> (n: usize)
        requires
            count <= buf.len(),
        ensures
            n == if count <= old(self).available() { count as int } else { old(self).available() },
            final(self).bytes().len() == old(self).bytes().len(),
            final(self).pos() == old(self).pos() + n,
            forall|j: int| 0 <= j < n
                ==> final(self).bytes()[old(self).pos() + j] == buf@[j],
            forall|j: int| 0 <= j < old(self).bytes().len()
                && !(old(self).pos() <= j < old(self).pos() + n)
                ==> final(self).bytes()[j] == old(self).bytes()[j],
    {
        let len: u64 = self.data.len() as u64;
        let avail: u64 = if self.pos < len { len - self.pos } else { 0 };
        if avail == 0 || count == 0 {
            return 0;
        }
        let n: usize = if (count as u64) <= avail { count } else { avail as usize };
        let start: usize = self.pos as usize;
        let ghost data0 = self.data@;
        let ghost pos0 = self.pos;
        let mut i: usize = 0;
        while i < n
            invariant
                i <= n,
                n <= buf.len(),
                start + n <= self.data.len(),
                self.data@.len() == data0.len(),
                self.pos == pos0,
                start == pos0 as int,
                forall|j: int| 0 <= j < i ==> self.data@[start + j] == buf@[j],
                forall|j: int| 0 <= j < data0.len() && !(start <= j < start + i)
                    ==> self.data@[j] == data0[j],
            decreases n - i,
        {
            let b: u8 = buf[i];
            self.data.set(start + i, b);
            i = i + 1;
        }
        self.pos = self.pos + (n as u64);
        n
    }

    /// Nothing is buffered, so there is nothing to push through.
    pub fn flush(&mut self)
        ensures
            *final(self) == *old(self),
    {
    }

    /// The buffer a cursor holds always fits in memory, so its extent
    /// never reaches past the largest representable offset.
    pub proof fn lemma_extent_bounded(&self)
        ensures
            self.bytes().len() <= usize::MAX <= u64::MAX,
    {
        vstd::std_specs::vec::axiom_spec_len(&self.data);
    }

    /// How many bytes lie between the position and the end of the buffer.
    pub open spec fn available(&self) -> int {
        if self.pos() < self.bytes().len() {
            self.bytes().len() - self.pos()
        } else {
            0
        }
    }
}

} // verus!
