//! The bytes of a dump in memory, consumed from the front.

use crate::digest::HASH_LEN;
use crate::error::{Error, ErrorView};
use crate::wire::{be32_at, get_u32};
use vstd::prelude::*;
use vstd::slice::{slice_subrange, slice_to_vec};

verus! {

/// A byte buffer and how far it has been consumed. A read that asks for
/// more than is left fails as an input that ended early, and consumes what
/// was left.
pub struct Source {
    bytes: Vec<u8>,
    pos: usize,
}

/// The failure of an input that ends in the middle of an item: the
/// `std::io::Error` of kind `UnexpectedEof`, made by
/// `From<std::io::ErrorKind> for std::io::Error`.
#[verifier::external_body]
fn unexpected_eof() -> std::io::Error {
    std::io::Error::from(std::io::ErrorKind::UnexpectedEof)
}

impl Source {
    /// What every source made by `new` satisfies, and every method keeps.
    pub closed spec fn wf(&self) -> bool {
        self.pos <= self.bytes.len()
    }

    /// All the bytes, consumed or not.
    pub closed spec fn input(&self) -> Seq<u8> {
        self.bytes@
    }

    /// How many bytes have been consumed.
    pub closed spec fn pos(&self) -> int {
        self.pos as int
    }

    /// The bytes not yet consumed.
    pub open spec fn rest(&self) -> Seq<u8> {
        self.input().subrange(self.pos(), self.input().len() as int)
    }

    /// The position of a source lies within its bytes.
    pub proof fn lemma_in_bounds(&self)
        requires
            self.wf(),
        ensures
            0 <= self.pos() <= self.input().len(),
    {
    }

    /// A source that has consumed nothing of `bytes`.
    pub fn new(bytes: Vec<u8>) -> (source: Source)
        ensures
            source.wf(),
            source.input() == bytes@,
            source.pos() == 0,
    {
        Source { bytes, pos: 0 }
    }

    /// How many bytes are left.
    pub fn remaining(&self) -> (n: usize)
        requires
            self.wf(),
        ensures
            n == self.rest().len(),
    {
        self.bytes.len() - self.pos
    }

    /// Consumes everything and reports the input as ended early.
    fn fail(&mut self) -> (e: Error)
        ensures
            final(self).wf(),
            final(self).input() == old(self).input(),
            final(self).pos() == old(self).input().len(),
            e@ == ErrorView::Io,
    {
        self.pos = self.bytes.len();
        Error::Io(unexpected_eof())
    }

    /// Consumes the next `len` bytes and hands out a copy of them.
    pub fn read_bytes(&mut self, len: usize) -> (r: Result<Vec<u8>, Error>)
        requires
            old(self).wf(),
        ensures
            final(self).wf(),
            final(self).input() == old(self).input(),
            len <= old(self).rest().len() ==> (r matches Ok(v) && v@ == old(self).rest().subrange(
                0,
                len as int,
            )) && final(self).pos() == old(self).pos() + len,
            len > old(self).rest().len() ==> (r matches Err(e) && e@ == ErrorView::Io)
                && final(self).pos() == old(self).input().len(),
    {
        if len > self.bytes.len() - self.pos {
            return Err(self.fail());
        }
        let out: Vec<u8> = slice_to_vec(
            slice_subrange(self.bytes.as_slice(), self.pos, self.pos + len),
        );
        self.pos = self.pos + len;
        Ok(out)
    }

    /// Consumes the next byte.
    pub fn read_u8(&mut self) -> (r: Result<u8, Error>)
        requires
            old(self).wf(),
        ensures
            final(self).wf(),
            final(self).input() == old(self).input(),
            1 <= old(self).rest().len() ==> (r matches Ok(b) && b == old(self).rest()[0])
                && final(self).pos() == old(self).pos() + 1,
            1 > old(self).rest().len() ==> (r matches Err(e) && e@ == ErrorView::Io)
                && final(self).pos() == old(self).input().len(),
    {
        if self.pos >= self.bytes.len() {
            return Err(self.fail());
        }
        let b: u8 = self.bytes[self.pos];
        self.pos = self.pos + 1;
        Ok(b)
    }

    /// Consumes the next four bytes as a big-endian number.
    pub fn read_u32(&mut self) -> (r: Result<u32, Error>)
        requires
            old(self).wf(),
        ensures
            final(self).wf(),
            final(self).input() == old(self).input(),
            4 <= old(self).rest().len() ==> (r matches Ok(x) && x == be32_at(old(self).rest(), 0))
                && final(self).pos() == old(self).pos() + 4,
            4 > old(self).rest().len() ==> (r matches Err(e) && e@ == ErrorView::Io)
                && final(self).pos() == old(self).input().len(),
    {
        if self.bytes.len() - self.pos < 4 {
            return Err(self.fail());
        }
        let x: u32 = get_u32(&self.bytes, self.pos);
        self.pos = self.pos + 4;
        Ok(x)
    }

    /// Consumes the next 32 bytes as a digest.
    pub fn read_hash(&mut self) -> (r: Result<crate::digest::Hash, Error>)
        requires
            old(self).wf(),
        ensures
            final(self).wf(),
            final(self).input() == old(self).input(),
            HASH_LEN <= old(self).rest().len() ==> (r matches Ok(digest) && digest@ == old(
                self,
            ).rest().subrange(0, HASH_LEN as int)) && final(self).pos() == old(self).pos()
                + HASH_LEN,
            HASH_LEN > old(self).rest().len() ==> (r matches Err(e) && e@ == ErrorView::Io)
                && final(self).pos() == old(self).input().len(),
    {
        if self.bytes.len() - self.pos < HASH_LEN {
            return Err(self.fail());
        }
        let mut digest: crate::digest::Hash = [0u8; 32];
        let mut i: usize = 0;
        while i < HASH_LEN
            invariant
                i <= HASH_LEN,
                self.pos + HASH_LEN <= self.bytes.len(),
                forall|j: int| 0 <= j < i ==> digest@[j] == self.bytes@[self.pos + j],
            decreases HASH_LEN - i,
        {
            digest[i] = self.bytes[self.pos + i];
            i = i + 1;
        }
        self.pos = self.pos + HASH_LEN;
        Ok(digest)
    }
}

} // verus!
