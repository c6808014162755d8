//! Reading a byte buffer bit by bit, most significant bit first.

use vstd::arithmetic::div_mod::lemma_fundamental_div_mod_converse;
use vstd::arithmetic::power2::{lemma2_to64, lemma_pow2_strictly_increases, lemma_pow2_unfold, pow2};
use vstd::prelude::*;

verus! {

/// Bit `i` of `data`, counting from the most significant bit of the first
/// byte.
pub open spec fn bit_at(data: Seq<u8>, i: int) -> bool {
    (data[i / 8] >> ((7 - i % 8) as u8)) & 1u8 == 1u8
}

/// The `n` bits of `data` starting at bit `pos`, read as a big-endian number.
pub open spec fn bits_value(data: Seq<u8>, pos: int, n: nat) -> nat
    decreases n,
{
    if n == 0 {
        0
    } else {
        2 * bits_value(data, pos, (n - 1) as nat) + if bit_at(data, pos + n - 1) {
            1nat
        } else {
            0nat
        }
    }
}

/// The `n` bytes read from a stream whose next bit is `pos`: each is eight
/// bits taken from there on.
pub open spec fn bytes_at(data: Seq<u8>, pos: int, n: nat) -> Seq<u8> {
    Seq::new(n, |k: int| bits_value(data, pos + 8 * k, 8) as u8)
}

/// The error of a read that runs past the end of the data.
#[derive(Debug, Clone, Copy, PartialEq, Eq, Structural)]
pub struct EndOfData;

/// An in-memory byte source with a cursor, which may be moved anywhere.
pub struct SeekableSlice {
    slice: Vec<u8>,
    cursor: usize,
}

impl SeekableSlice {
    /// The bytes of the source.
    pub closed spec fn bytes(&self) -> Seq<u8> {
        self.slice@
    }

    /// The position of the cursor.
    pub closed spec fn position(&self) -> int {
        self.cursor as int
    }

    /// The bytes of the source.
    pub fn as_slice(&self) -> (r: &[u8])
        ensures
            r@ == self.bytes(),
    {
        self.slice.as_slice()
    }

    /// A source over a copy of `slice`, with the cursor at its start.
    pub fn new(slice: &[u8]) -> (r: SeekableSlice)
        ensures
            r.bytes() == slice@,
            r.position() == 0,
    {
        let mut copy: Vec<u8> = Vec::new();
        let mut i: usize = 0;
        while i < slice.len()
            invariant
                i <= slice@.len(),
                copy@ == slice@.subrange(0, i as int),
            decreases slice.len() - i,
        {
            copy.push(slice[i]);
            i = i + 1;
            assert(copy@ =~= slice@.subrange(0, i as int));
        }
        assert(slice@.subrange(0, slice@.len() as int) =~= slice@);
        SeekableSlice { slice: copy, cursor: 0 }
    }
}

/// A reader of single bits and of bit fields over a byte source.
pub struct BitStream {
    io: SeekableSlice,
    remaining_bits: usize,
    byte: u8,
}

proof fn lemma_bit_position(cursor: int, remaining: int)
    requires
        1 <= remaining <= 8,
        cursor >= 1,
    ensures
        (cursor * 8 - remaining) / 8 == cursor - 1,
        (cursor * 8 - remaining) % 8 == 8 - remaining,
{
    lemma_fundamental_div_mod_converse(cursor * 8 - remaining, 8, cursor - 1, 8 - remaining);
}

/// The offset of the underlying byte reader when the next bit to read is
/// `pos`: the byte after the last one a bit was taken from.
pub open spec fn byte_pos(pos: int) -> int {
    (pos + 7) / 8
}

/// A field of `n` bits is below `2^n`.
pub proof fn lemma_bits_value_bound(data: Seq<u8>, pos: int, n: nat)
    ensures
        bits_value(data, pos, n) < pow2(n),
    decreases n,
{
    if n > 0 {
        lemma_bits_value_bound(data, pos, (n - 1) as nat);
        lemma_pow2_unfold(n);
    } else {
        lemma2_to64();
    }
}

impl BitStream {
    /// The bytes the stream reads from.
    pub closed spec fn data(&self) -> Seq<u8> {
        self.io.slice@
    }

    /// The index of the next bit to read.
    pub closed spec fn pos(&self) -> int {
        self.io.cursor * 8 - self.remaining_bits
    }

    pub closed spec fn wf(&self) -> bool {
        &&& self.remaining_bits < 8
        &&& self.remaining_bits > 0 ==> {
            &&& 1 <= self.io.cursor <= self.io.slice@.len()
            &&& self.byte == self.io.slice@[self.io.cursor - 1]
        }
    }

    /// Create a new bitstream over `io`, positioned at its cursor.
    pub fn new(io: SeekableSlice) -> (r: BitStream)
        ensures
            r.wf(),
            r.data() == io.bytes(),
            r.pos() == 8 * io.position(),
    {
        BitStream { io, remaining_bits: 0, byte: 0 }
    }

    /// Seek to a byte offset, ditching any unused bits of the current byte.
    /// Returns the new offset.
    pub fn seek(&mut self, offset: usize) -> (r: usize)
        requires
            old(self).wf(),
        ensures
            final(self).wf(),
            final(self).data() == old(self).data(),
            final(self).pos() == offset * 8,
            r == offset,
    {
        self.remaining_bits = 0;
        self.byte = 0;
        self.io.cursor = offset;
        offset
    }

    /// The current byte offset of the underlying reader.
    pub fn tell(&self) -> (r: usize)
        requires
            self.wf(),
        ensures
            r == byte_pos(self.pos()),
    {
        proof {
            lemma_fundamental_div_mod_converse(
                self.io.cursor * 8 - self.remaining_bits + 7,
                8,
                self.io.cursor as int,
                7 - self.remaining_bits,
            );
        }
        self.io.cursor
    }

    fn fill_byte(&mut self) -> (r: Result<(), EndOfData>)
        requires
            old(self).wf(),
            old(self).remaining_bits == 0,
        ensures
            final(self).data() == old(self).data(),
            r is Ok <==> old(self).io.cursor < old(self).io.slice@.len(),
            r is Ok ==> {
                &&& final(self).remaining_bits == 8
                &&& final(self).io.cursor == old(self).io.cursor + 1
                &&& final(self).io.cursor <= final(self).io.slice@.len()
                &&& final(self).byte == final(self).io.slice@[final(self).io.cursor - 1]
            },
            r is Err ==> *final(self) == *old(self),
    {
        if self.io.cursor >= self.io.slice.len() {
            return Err(EndOfData);
        }
        self.byte = self.io.slice[self.io.cursor];
        self.io.cursor = self.io.cursor + 1;
        self.remaining_bits = 8;
        Ok(())
    }

    /// Read only one bit from the stream.
    pub fn read_bit(&mut self) -> (r: Result<bool, EndOfData>)
        requires
            old(self).wf(),
        ensures
            final(self).wf(),
            final(self).data() == old(self).data(),
            r is Ok <==> old(self).pos() + 1 <= 8 * old(self).data().len(),
            r matches Ok(b) ==> b == bit_at(old(self).data(), old(self).pos())
                && final(self).pos() == old(self).pos() + 1,
    {
        if self.remaining_bits == 0 {
            self.fill_byte()?;
        }
        assert(1 <= self.remaining_bits <= 8);
        proof {
            lemma_bit_position(self.io.cursor as int, self.remaining_bits as int);
        }
        self.remaining_bits = self.remaining_bits - 1;
        let shifted = self.byte >> (self.remaining_bits as u8);
        let bit = shifted & 1u8;
        assert(bit == 0u8 || bit == 1u8) by (bit_vector)
            requires
                bit == shifted & 1u8,
        ;
        Ok(bit != 0)
    }

    /// Read `nb_bits` bits from the stream, most significant first.
    pub fn read(&mut self, nb_bits: usize) -> (r: Result<usize, EndOfData>)
        requires
            old(self).wf(),
            nb_bits <= 32,
        ensures
            final(self).wf(),
            final(self).data() == old(self).data(),
            r is Ok <==> nb_bits == 0 || old(self).pos() + nb_bits <= 8 * old(self).data().len(),
            r matches Ok(v) ==> v == bits_value(old(self).data(), old(self).pos(), nb_bits as nat)
                && final(self).pos() == old(self).pos() + nb_bits,
    {
        let ghost start = self.pos();
        let mut value: usize = 0;
        let mut k: usize = 0;
        proof {
            lemma2_to64();
        }
        while k < nb_bits
            invariant
                self.wf(),
                self.data() == old(self).data(),
                k <= nb_bits <= 32,
                start == old(self).pos(),
                self.pos() == start + k,
                k > 0 ==> start + k <= 8 * self.data().len(),
                value == bits_value(self.data(), start, k as nat),
                value < pow2(k as nat),
                pow2(32) == 0x1_0000_0000,
            decreases nb_bits - k,
        {
            let bit = match self.read_bit() {
                Ok(b) => b,
                Err(e) => {
                    return Err(e);
                },
            };
            proof {
                lemma_pow2_unfold((k + 1) as nat);
                if k + 1 < 32 {
                    lemma_pow2_strictly_increases((k + 1) as nat, 32);
                }
            }
            value = value * 2 + if bit {
                1
            } else {
                0
            };
            k = k + 1;
        }
        Ok(value)
    }

    /// Read a given amount of bytes, each made of the next eight bits.
    pub fn read_bytes(&mut self, nb_bytes: usize) -> (r: Result<Vec<u8>, EndOfData>)
        requires
            old(self).wf(),
        ensures
            final(self).wf(),
            final(self).data() == old(self).data(),
            r is Ok <==> nb_bytes == 0 || old(self).pos() + 8 * nb_bytes <= 8 * old(
                self,
            ).data().len(),
            r matches Ok(v) ==> v@ == bytes_at(old(self).data(), old(self).pos(), nb_bytes as nat)
                && final(self).pos() == old(self).pos() + 8 * nb_bytes,
    {
        let ghost start = self.pos();
        let mut buf: Vec<u8> = Vec::new();
        let mut k: usize = 0;
        while k < nb_bytes
            invariant
                self.wf(),
                self.data() == old(self).data(),
                k <= nb_bytes,
                start == old(self).pos(),
                self.pos() == start + 8 * k,
                k > 0 ==> start + 8 * k <= 8 * self.data().len(),
                buf@.len() == k,
                forall|j: int| 0 <= j < k ==> buf@[j] == bits_value(self.data(), start + 8 * j, 8) as u8,
            decreases nb_bytes - k,
        {
            proof {
                lemma_bits_value_bound(self.data(), self.pos(), 8);
                lemma2_to64();
            }
            let byte = match self.read(8) {
                Ok(b) => b as u8,
                Err(e) => {
                    return Err(e);
                },
            };
            buf.push(byte);
            k = k + 1;
        }
        assert(buf@ =~= bytes_at(self.data(), start, nb_bytes as nat));
        Ok(buf)
    }
}

} // verus!
