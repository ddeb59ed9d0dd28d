//! A forward-only cursor over an in-memory byte buffer.

use byteorder::ByteOrder;
use vstd::prelude::*;

verus! {

/// The value of four bytes read as a little-endian unsigned 32-bit integer.
pub open spec fn le_u32(b: Seq<u8>) -> u32
    recommends
        b.len() == 4,
{
    (b[0] as int + 0x100 * b[1] as int + 0x1_0000 * b[2] as int + 0x100_0000 * b[3] as int) as u32
}

/// Relies on byteorder's `LittleEndian::read_u32`: the first four bytes of
/// the buffer, least significant first.
#[verifier::external_body]
fn read_u32_le(b: &[u8; 4]) -> (r: u32)
    ensures
        r == le_u32(b@),
{
    byteorder::LittleEndian::read_u32(b)
}

/// A read or a skip ran past the end of the data.
#[derive(Debug, Clone, Copy, PartialEq, Eq)]
pub struct UnexpectedEof {
    /// Where the read that could not be completed started.
    pub position: usize,
    /// How many bytes it asked for.
    pub wanted: usize,
}

/// A cursor over a byte buffer that supports reading a fixed number of bytes,
/// little-endian integers, and skipping ahead.
pub struct ByteReader {
    data: Vec<u8>,
    pos: usize,
}

impl ByteReader {
    /// The bytes the reader walks over.
    pub closed spec fn bytes(&self) -> Seq<u8> {
        self.data@
    }

    /// The offset of the next byte to be read.
    pub closed spec fn pos(&self) -> int {
        self.pos as int
    }

    /// The position never passes the end of the data.
    pub closed spec fn wf(&self) -> bool {
        self.pos <= self.data@.len()
    }

    /// A reader positioned at the first byte of `data`.
    pub fn new(data: Vec<u8>) -> (r: ByteReader)
        ensures
            r.wf(),
            r.bytes() == data@,
            r.pos() == 0,
    {
        ByteReader { data, pos: 0 }
    }

    /// The offset of the next byte to be read.
    pub fn position(&self) -> (r: usize)
        ensures
            r == self.pos(),
    {
        self.pos
    }

    /// How many bytes are left to read.
    pub fn remaining(&self) -> (r: usize)
        requires
            self.wf(),
        ensures
            r == self.bytes().len() - self.pos(),
    {
        self.data.len() - self.pos
    }

    /// Fails with `UnexpectedEof` unless `n` more bytes are there.
    fn check_available(&self, n: usize) -> (r: Result<(), UnexpectedEof>)
        requires
            self.wf(),
        ensures
            self.bytes().len() <= usize::MAX,
            r is Ok <==> self.pos() + n <= self.bytes().len(),
            r is Err ==> r->Err_0 == (UnexpectedEof { position: self.pos, wanted: n }),
    {
        if n <= self.data.len() - self.pos {
            Ok(())
        } else {
            Err(UnexpectedEof { position: self.pos, wanted: n })
        }
    }

    /// Moves the position `n` bytes ahead without looking at them. Skipping
    /// past the end fails and leaves the reader as it was.
    pub fn skip(&mut self, n: usize) -> (r: Result<(), UnexpectedEof>)
        requires
            old(self).wf(),
        ensures
            final(self).wf(),
            final(self).bytes() == old(self).bytes(),
            r is Ok <==> old(self).pos() + n <= old(self).bytes().len(),
            r is Ok ==> final(self).pos() == old(self).pos() + n,
            r is Err ==> final(self).pos() == old(self).pos() && r->Err_0.position == old(self).pos()
                && r->Err_0.wanted == n,
    {
        if let Err(e) = self.check_available(n) {
            return Err(e);
        }
        self.pos = self.pos + n;
        Ok(())
    }

    /// Reads one byte.
    pub fn read_u8(&mut self) -> (r: Result<u8, UnexpectedEof>)
        requires
            old(self).wf(),
        ensures
            final(self).wf(),
            final(self).bytes() == old(self).bytes(),
            r is Ok <==> old(self).pos() < old(self).bytes().len(),
            r is Ok ==> final(self).pos() == old(self).pos() + 1 && r->Ok_0 == old(
                self,
            ).bytes()[old(self).pos()],
            r is Err ==> final(self).pos() == old(self).pos() && r->Err_0.position == old(self).pos()
                && r->Err_0.wanted == 1,
    {
        if let Err(e) = self.check_available(1) {
            return Err(e);
        }
        let b = self.data[self.pos];
        self.pos = self.pos + 1;
        Ok(b)
    }

    /// Reads the next `N` bytes into an array.
    pub fn read_array<const N: usize>(&mut self) -> (r: Result<[u8; N], UnexpectedEof>)
        requires
            old(self).wf(),
        ensures
            final(self).wf(),
            final(self).bytes() == old(self).bytes(),
            r is Ok <==> old(self).pos() + N <= old(self).bytes().len(),
            r is Ok ==> final(self).pos() == old(self).pos() + N && r->Ok_0@ == old(
                self,
            ).bytes().subrange(old(self).pos(), old(self).pos() + N),
            r is Err ==> final(self).pos() == old(self).pos() && r->Err_0.position == old(self).pos()
                && r->Err_0.wanted == N,
    {
        if let Err(e) = self.check_available(N) {
            return Err(e);
        }
        let mut out = [0u8; N];
        let start = self.pos;
        let mut i: usize = 0;
        while i < N
            invariant
                self.wf(),
                self.pos == start,
                start + N <= self.data@.len(),
                self.data@.len() <= usize::MAX,
                i <= N,
                out@.len() == N,
                forall|j: int| 0 <= j < i ==> out@[j] == self.data@[start + j],
            decreases N - i,
        {
            out[i] = self.data[start + i];
            i = i + 1;
        }
        assert(out@ =~= self.data@.subrange(start as int, start + N));
        self.pos = start + N;
        Ok(out)
    }

    /// Reads a little-endian unsigned 32-bit integer.
    pub fn read_u32_le(&mut self) -> (r: Result<u32, UnexpectedEof>)
        requires
            old(self).wf(),
        ensures
            final(self).wf(),
            final(self).bytes() == old(self).bytes(),
            r is Ok <==> old(self).pos() + 4 <= old(self).bytes().len(),
            r is Ok ==> final(self).pos() == old(self).pos() + 4 && r->Ok_0 == le_u32(
                old(self).bytes().subrange(old(self).pos(), old(self).pos() + 4),
            ),
            r is Err ==> final(self).pos() == old(self).pos() && r->Err_0.position == old(self).pos()
                && r->Err_0.wanted == 4,
    {
        let b = self.read_array::<4>()?;
        Ok(read_u32_le(&b))
    }
}

} // verus!
