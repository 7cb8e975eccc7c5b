//! Helper functions for big-endian serialization.
use vstd::prelude::*;
use vstd::slice::slice_subrange;

use crate::collections::{FrameBuf, FRAME_BUF_CAPACITY};
use crate::modem_core::protocol::{be16, be16_value, be32, be32_value, u16_from_be, ProtocolError};

verus! {

/// Append one byte; `BufferFull` (and no change) when the buffer is full.
pub fn write_u8(buffer: &mut FrameBuf, value: u8) -> (r: Result<(), ProtocolError>)
    ensures
        r is Ok <==> old(buffer)@.len() + 1 <= FRAME_BUF_CAPACITY,
        r is Ok ==> final(buffer)@ == old(buffer)@.push(value),
        r matches Err(e) ==> e == ProtocolError::BufferFull && final(buffer)@ == old(buffer)@,
{
    match buffer.push(value) {
        Ok(()) => Ok(()),
        Err(_) => Err(ProtocolError::BufferFull),
    }
}

/// Append a big-endian u16; `BufferFull` (and no change) when it does not fit.
pub fn write_u16(buffer: &mut FrameBuf, value: u16) -> (r: Result<(), ProtocolError>)
    ensures
        r is Ok <==> old(buffer)@.len() + 2 <= FRAME_BUF_CAPACITY,
        r is Ok ==> final(buffer)@ == old(buffer)@ + be16(value),
        r matches Err(e) ==> e == ProtocolError::BufferFull && final(buffer)@ == old(buffer)@,
{
    let bytes = [(value / 256) as u8, (value % 256) as u8];
    assert(bytes@ =~= be16(value));
    if buffer.extend_from_slice(bytes.as_slice()) {
        Ok(())
    } else {
        Err(ProtocolError::BufferFull)
    }
}

/// Append a big-endian u32; `BufferFull` (and no change) when it does not fit.
pub fn write_u32(buffer: &mut FrameBuf, value: u32) -> (r: Result<(), ProtocolError>)
    ensures
        r is Ok <==> old(buffer)@.len() + 4 <= FRAME_BUF_CAPACITY,
        r is Ok ==> final(buffer)@ == old(buffer)@ + be32(value),
        r matches Err(e) ==> e == ProtocolError::BufferFull && final(buffer)@ == old(buffer)@,
{
    let bytes = [
        (value / 0x100_0000) as u8,
        ((value / 0x1_0000) % 256) as u8,
        ((value / 256) % 256) as u8,
        (value % 256) as u8,
    ];
    assert(bytes@ =~= be32(value));
    if buffer.extend_from_slice(bytes.as_slice()) {
        Ok(())
    } else {
        Err(ProtocolError::BufferFull)
    }
}

/// Append a byte slice; `BufferFull` (and no change) when it does not fit.
pub fn write_slice(buffer: &mut FrameBuf, data: &[u8]) -> (r: Result<(), ProtocolError>)
    ensures
        r is Ok <==> old(buffer)@.len() + data@.len() <= FRAME_BUF_CAPACITY,
        r is Ok ==> final(buffer)@ == old(buffer)@ + data@,
        r matches Err(e) ==> e == ProtocolError::BufferFull && final(buffer)@ == old(buffer)@,
{
    if buffer.extend_from_slice(data) {
        Ok(())
    } else {
        Err(ProtocolError::BufferFull)
    }
}

/// The byte at `offset`, if there is one.
pub fn read_u8(data: &[u8], offset: usize) -> (r: Option<u8>)
    ensures
        r == (if offset < data@.len() { Some(data@[offset as int]) } else { None::<u8> }),
{
    if offset < data.len() {
        Some(data[offset])
    } else {
        None
    }
}

/// The big-endian u16 at `offset`, if the data holds two bytes there.
pub fn read_u16(data: &[u8], offset: usize) -> (r: Option<u16>)
    ensures
        r == (if offset + 2 <= data@.len() {
            Some(be16_value(data@[offset as int], data@[offset + 1]))
        } else {
            None::<u16>
        }),
{
    if data.len() < 2 || offset > data.len() - 2 {
        return None;
    }
    Some(u16_from_be(data[offset], data[offset + 1]))
}

/// The big-endian u32 at `offset`, if the data holds four bytes there.
pub fn read_u32(data: &[u8], offset: usize) -> (r: Option<u32>)
    ensures
        r == (if offset + 4 <= data@.len() {
            Some(
                be32_value(
                    data@[offset as int],
                    data@[offset + 1],
                    data@[offset + 2],
                    data@[offset + 3],
                ),
            )
        } else {
            None::<u32>
        }),
{
    if data.len() < 4 || offset > data.len() - 4 {
        return None;
    }
    Some(
        (data[offset] as u32) * 0x100_0000 + (data[offset + 1] as u32) * 0x1_0000 + (data[offset
            + 2] as u32) * 256 + (data[offset + 3] as u32),
    )
}

/// Helper for reading from a payload sequentially.
pub struct PayloadReader<'a> {
    data: &'a [u8],
    offset: usize,
}

/// Where a read of `size` bytes at position `pos` in `n` bytes leaves the
/// reader: past the bytes when they are all there, else where it was (the
/// step each of `read_u8` (1), `read_u16` (2), `read_u32` (4) and
/// `read_slice` (`len`) takes).
pub open spec fn read_step(pos: int, n: int, size: nat) -> int {
    if pos + size <= n {
        pos + size
    } else {
        pos
    }
}

/// The position after reads of the given sizes, from the first byte of `n`.
pub open spec fn pos_after_reads(n: int, sizes: Seq<nat>) -> int
    decreases sizes.len(),
{
    if sizes.len() == 0 {
        0
    } else {
        read_step(pos_after_reads(n, sizes.drop_last()), n, sizes.last())
    }
}

/// The sizes of those reads, in order, that succeed.
pub open spec fn successful_reads(n: int, sizes: Seq<nat>) -> Seq<nat>
    decreases sizes.len(),
{
    if sizes.len() == 0 {
        Seq::empty()
    } else if pos_after_reads(n, sizes.drop_last()) + sizes.last() <= n {
        successful_reads(n, sizes.drop_last()).push(sizes.last())
    } else {
        successful_reads(n, sizes.drop_last())
    }
}

/// The sum of a sequence of sizes.
pub open spec fn total(sizes: Seq<nat>) -> int
    decreases sizes.len(),
{
    if sizes.len() == 0 {
        0
    } else {
        total(sizes.drop_last()) + sizes.last()
    }
}

/// Over any sequence of reads from a new reader on `n` bytes, successful or
/// not, the position is the total size of the reads that succeeded and
/// never passes the end, so `remaining` is `n` minus that total.
pub proof fn lemma_reader_position(n: nat, sizes: Seq<nat>)
    ensures
        pos_after_reads(n as int, sizes) == total(successful_reads(n as int, sizes)),
        0 <= pos_after_reads(n as int, sizes) <= n,
    decreases sizes.len(),
{
    if sizes.len() > 0 {
        lemma_reader_position(n, sizes.drop_last());
        let rest = successful_reads(n as int, sizes.drop_last());
        assert(rest.push(sizes.last()).drop_last() =~= rest);
    }
}

impl<'a> PayloadReader<'a> {
    #[verifier::type_invariant]
    spec fn inv(self) -> bool {
        self.offset <= self.data@.len()
    }

    /// The bytes being read.
    pub closed spec fn bytes(self) -> Seq<u8> {
        self.data@
    }

    /// The position of the next byte to read.
    pub closed spec fn pos(self) -> int {
        self.offset as int
    }

    /// Reader positioned at the first byte of `data`.
    pub fn new(data: &'a [u8]) -> (r: Self)
        ensures
            r.bytes() == data@,
            r.pos() == 0,
    {
        Self { data, offset: 0 }
    }

    /// Read one byte, or `InvalidData` (and no move) at the end of the data.
    pub fn read_u8(&mut self) -> (r: Result<u8, ProtocolError>)
        ensures
            final(self).bytes() == old(self).bytes(),
            old(self).pos() + 1 <= old(self).bytes().len() ==> r == Ok::<u8, ProtocolError>(
                old(self).bytes()[old(self).pos()],
            ) && final(self).pos() == old(self).pos() + 1,
            old(self).pos() + 1 > old(self).bytes().len() ==> r == Err::<u8, ProtocolError>(
                ProtocolError::InvalidData,
            ) && final(self).pos() == old(self).pos(),
            final(self).pos() == read_step(old(self).pos(), old(self).bytes().len() as int, 1),
    {
        proof {
            use_type_invariant(&*self);
        }
        if self.offset >= self.data.len() {
            return Err(ProtocolError::InvalidData);
        }
        let value = self.data[self.offset];
        self.offset = self.offset + 1;
        Ok(value)
    }

    /// Read a big-endian u16, or `InvalidData` (and no move) when fewer than
    /// two bytes are left.
    pub fn read_u16(&mut self) -> (r: Result<u16, ProtocolError>)
        ensures
            final(self).bytes() == old(self).bytes(),
            old(self).pos() + 2 <= old(self).bytes().len() ==> r == Ok::<u16, ProtocolError>(
                be16_value(
                    old(self).bytes()[old(self).pos()],
                    old(self).bytes()[old(self).pos() + 1],
                ),
            ) && final(self).pos() == old(self).pos() + 2,
            old(self).pos() + 2 > old(self).bytes().len() ==> r == Err::<u16, ProtocolError>(
                ProtocolError::InvalidData,
            ) && final(self).pos() == old(self).pos(),
            final(self).pos() == read_step(old(self).pos(), old(self).bytes().len() as int, 2),
    {
        proof {
            use_type_invariant(&*self);
        }
        if self.data.len() - self.offset < 2 {
            return Err(ProtocolError::InvalidData);
        }
        let value = u16_from_be(self.data[self.offset], self.data[self.offset + 1]);
        self.offset = self.offset + 2;
        Ok(value)
    }

    /// Read a big-endian u32, or `InvalidData` (and no move) when fewer than
    /// four bytes are left.
    pub fn read_u32(&mut self) -> (r: Result<u32, ProtocolError>)
        ensures
            final(self).bytes() == old(self).bytes(),
            old(self).pos() + 4 <= old(self).bytes().len() ==> r == Ok::<u32, ProtocolError>(
                be32_value(
                    old(self).bytes()[old(self).pos()],
                    old(self).bytes()[old(self).pos() + 1],
                    old(self).bytes()[old(self).pos() + 2],
                    old(self).bytes()[old(self).pos() + 3],
                ),
            ) && final(self).pos() == old(self).pos() + 4,
            old(self).pos() + 4 > old(self).bytes().len() ==> r == Err::<u32, ProtocolError>(
                ProtocolError::InvalidData,
            ) && final(self).pos() == old(self).pos(),
            final(self).pos() == read_step(old(self).pos(), old(self).bytes().len() as int, 4),
    {
        proof {
            use_type_invariant(&*self);
        }
        if self.data.len() - self.offset < 4 {
            return Err(ProtocolError::InvalidData);
        }
        let o = self.offset;
        let value = (self.data[o] as u32) * 0x100_0000 + (self.data[o + 1] as u32) * 0x1_0000 + (
        self.data[o + 2] as u32) * 256 + (self.data[o + 3] as u32);
        self.offset = o + 4;
        Ok(value)
    }

    /// Read the next `len` bytes, or `InvalidData` (and no move) when fewer
    /// are left.
    pub fn read_slice(&mut self, len: usize) -> (r: Result<&'a [u8], ProtocolError>)
        ensures
            final(self).bytes() == old(self).bytes(),
            old(self).pos() + len <= old(self).bytes().len() ==> r is Ok && final(self).pos() == old(
                self,
            ).pos() + len,
            r matches Ok(s) ==> s@ == old(self).bytes().subrange(
                old(self).pos(),
                old(self).pos() + len,
            ),
            old(self).pos() + len > old(self).bytes().len() ==> r == Err::<&'a [u8], ProtocolError>(
                ProtocolError::InvalidData,
            ) && final(self).pos() == old(self).pos(),
            final(self).pos() == read_step(old(self).pos(), old(self).bytes().len() as int, len as nat),
    {
        proof {
            use_type_invariant(&*self);
        }
        if len > self.data.len() - self.offset {
            return Err(ProtocolError::InvalidData);
        }
        let slice = slice_subrange(self.data, self.offset, self.offset + len);
        self.offset = self.offset + len;
        Ok(slice)
    }

    /// The position of the next byte to read.
    pub fn offset(&self) -> (r: usize)
        ensures
            r == self.pos(),
    {
        self.offset
    }

    /// The number of bytes left to read.
    pub fn remaining(&self) -> (r: usize)
        ensures
            r == self.bytes().len() - self.pos(),
    {
        proof {
            use_type_invariant(self);
        }
        self.data.len() - self.offset
    }
}

} // verus!
