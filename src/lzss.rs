//! LZSS decompression over a bit stream.

use crate::bitstream::{bit_at, bits_value, BitStream, EndOfData};
use vstd::prelude::*;

verus! {

/// Why a decompression failed.
#[derive(Debug, Clone, Copy, PartialEq, Eq, Structural)]
pub enum LzssError {
    /// The compressed stream ended before the output was complete.
    EndOfData,
    /// A back-reference would write past the announced output size.
    Overflow,
}

/// The byte held by slot `slot` of a dictionary of `d` slots, after the
/// bytes of `out` were written one by one starting at slot 1: the last byte
/// written there, or zero.
pub open spec fn ring_byte(out: Seq<u8>, slot: int, d: int) -> u8
    decreases out.len(),
{
    if out.len() == 0 {
        0
    } else if (out.len() as int) % d == slot {
        out.last()
    } else {
        ring_byte(out.drop_last(), slot, d)
    }
}

/// `out` followed by the `n` bytes of a back-reference to dictionary offset
/// `offset`; each copied byte is written to the dictionary before the next
/// one is read.
pub open spec fn copy_match(out: Seq<u8>, offset: int, n: nat, d: int) -> Seq<u8>
    decreases n,
{
    if n == 0 {
        out
    } else {
        let o = copy_match(out, offset, (n - 1) as nat, d);
        o.push(ring_byte(o, (offset + n - 1) % d, d))
    }
}

/// The parameters of an LZSS stream.
pub struct LzssParams {
    pub size: int,
    pub dictionary_size: int,
    pub offset_size: nat,
    pub length_size: nat,
    pub minimum_match_length: nat,
}

/// Decoding of the stream `data` from bit `pos`, with `out` produced so far:
/// the result, and the bit position where decoding stopped.
pub open spec fn lzss_decode(data: Seq<u8>, pos: int, out: Seq<u8>, p: LzssParams) -> (Result<
    Seq<u8>,
    LzssError,
>, int)
    decreases 8 * data.len() - pos,
{
    let end = 8 * data.len();
    if out.len() >= p.size {
        (Ok(out), pos)
    } else if pos + 1 > end {
        (Err(LzssError::EndOfData), pos)
    } else if bit_at(data, pos) {
        if pos + 9 > end {
            (Err(LzssError::EndOfData), pos)
        } else {
            lzss_decode(data, pos + 9, out.push(bits_value(data, pos + 1, 8) as u8), p)
        }
    } else if p.offset_size > 0 && pos + 1 + p.offset_size > end {
        (Err(LzssError::EndOfData), pos)
    } else if p.length_size > 0 && pos + 1 + p.offset_size + p.length_size > end {
        (Err(LzssError::EndOfData), pos)
    } else {
        let offset = bits_value(data, pos + 1, p.offset_size) as int;
        let length = bits_value(data, pos + 1 + p.offset_size, p.length_size)
            + p.minimum_match_length;
        let next = pos + 1 + p.offset_size + p.length_size;
        if out.len() + length > p.size {
            (Err(LzssError::Overflow), next)
        } else if offset == 0 && length == 0 {
            (Ok(out + Seq::new((p.size - out.len()) as nat, |i: int| 0u8)), next)
        } else {
            lzss_decode(data, next, copy_match(out, offset, length as nat, p.dictionary_size), p)
        }
    }
}

/// A back-reference adds exactly its length to the output.
pub proof fn lemma_copy_match_len(out: Seq<u8>, offset: int, n: nat, d: int)
    ensures
        copy_match(out, offset, n, d).len() == out.len() + n,
    decreases n,
{
    if n > 0 {
        lemma_copy_match_len(out, offset, (n - 1) as nat, d);
    }
}

/// A successful decoding produces exactly the announced number of bytes,
/// never a truncated output; and it stops no earlier than where it started,
/// within the data unless it read nothing.
pub proof fn lemma_decode_complete(data: Seq<u8>, pos: int, out: Seq<u8>, p: LzssParams)
    requires
        out.len() <= p.size,
    ensures
        lzss_decode(data, pos, out, p).0 matches Ok(v) ==> v.len() == p.size,
        lzss_decode(data, pos, out, p).1 >= pos,
        lzss_decode(data, pos, out, p).0 is Ok ==> lzss_decode(data, pos, out, p).1 == pos
            || lzss_decode(data, pos, out, p).1 <= 8 * data.len(),
    decreases 8 * data.len() - pos,
{
    let end = 8 * data.len();
    if out.len() >= p.size {
    } else if pos + 1 > end {
    } else if bit_at(data, pos) {
        if pos + 9 <= end {
            lemma_decode_complete(data, pos + 9, out.push(bits_value(data, pos + 1, 8) as u8), p);
        }
    } else if p.offset_size > 0 && pos + 1 + p.offset_size > end {
    } else if p.length_size > 0 && pos + 1 + p.offset_size + p.length_size > end {
    } else {
        let offset = bits_value(data, pos + 1, p.offset_size) as int;
        let length = bits_value(data, pos + 1 + p.offset_size, p.length_size)
            + p.minimum_match_length;
        let next = pos + 1 + p.offset_size + p.length_size;
        if out.len() + length > p.size {
        } else if offset == 0 && length == 0 {
        } else {
            lemma_copy_match_len(out, offset, length as nat, p.dictionary_size);
            lemma_decode_complete(
                data,
                next,
                copy_match(out, offset, length as nat, p.dictionary_size),
                p,
            );
        }
    }
}

proof fn lemma_ring_push(out: Seq<u8>, b: u8, slot: int, d: int)
    ensures
        ring_byte(out.push(b), slot, d) == if (out.len() + 1) as int % d == slot {
            b
        } else {
            ring_byte(out, slot, d)
        },
{
    assert(out.push(b).drop_last() =~= out);
}

fn map_end(_e: EndOfData) -> (r: LzssError)
    ensures
        r == LzssError::EndOfData,
{
    LzssError::EndOfData
}

/// Decompresses `size` bytes of LZSS data from `bitstream`.
///
/// Each chunk starts with a flag bit: set, a literal byte follows; clear, a
/// back-reference of `offset_size` bits of dictionary offset and
/// `length_size` bits of length (plus `minimum_match_length`). A
/// back-reference that would go past `size` is an error.
pub fn decompress(
    bitstream: &mut BitStream,
    size: usize,
    dictionary_size: usize,
    offset_size: usize,
    length_size: usize,
    minimum_match_length: usize,
) -> (r: Result<Vec<u8>, LzssError>)
    requires
        old(bitstream).wf(),
        dictionary_size >= 2,
        offset_size <= 32,
        length_size <= 32,
    ensures
        final(bitstream).wf(),
        final(bitstream).data() == old(bitstream).data(),
        ({
            let (res, end) = lzss_decode(
                old(bitstream).data(),
                old(bitstream).pos(),
                Seq::empty(),
                LzssParams {
                    size: size as int,
                    dictionary_size: dictionary_size as int,
                    offset_size: offset_size as nat,
                    length_size: length_size as nat,
                    minimum_match_length: minimum_match_length as nat,
                },
            );
            &&& r is Ok <==> res is Ok
            &&& r matches Ok(v) ==> res == Ok::<Seq<u8>, LzssError>(v@) && final(bitstream).pos()
                == end
            &&& r matches Err(e) ==> res == Err::<Seq<u8>, LzssError>(e)
        }),
{
    let ghost p = LzssParams {
        size: size as int,
        dictionary_size: dictionary_size as int,
        offset_size: offset_size as nat,
        length_size: length_size as nat,
        minimum_match_length: minimum_match_length as nat,
    };
    let ghost data = bitstream.data();
    let ghost start = bitstream.pos();
    let mut dictionary: Vec<u8> = Vec::new();
    while dictionary.len() < dictionary_size
        invariant
            dictionary@.len() <= dictionary_size,
            forall|s: int| 0 <= s < dictionary@.len() ==> dictionary@[s] == 0,
        decreases dictionary_size - dictionary.len(),
    {
        dictionary.push(0);
    }
    let mut out: Vec<u8> = Vec::new();
    let mut dictionary_head: usize = 1;
    assert(1int % (dictionary_size as int) == 1) by {
        vstd::arithmetic::div_mod::lemma_small_mod(1, dictionary_size as nat);
    }
    while out.len() < size
        invariant
            bitstream.wf(),
            bitstream.data() == data,
            data == old(bitstream).data(),
            start == old(bitstream).pos(),
            p.size == size,
            p.dictionary_size == dictionary_size,
            p.offset_size == offset_size,
            p.length_size == length_size,
            p.minimum_match_length == minimum_match_length,
            dictionary_size >= 2,
            offset_size <= 32,
            length_size <= 32,
            out@.len() <= size,
            dictionary@.len() == dictionary_size,
            dictionary_head == (out@.len() + 1) as int % (dictionary_size as int),
            forall|s: int|
                0 <= s < dictionary_size ==> dictionary@[s] == ring_byte(
                    out@,
                    s,
                    dictionary_size as int,
                ),
            lzss_decode(data, start, Seq::empty(), p) == lzss_decode(
                data,
                bitstream.pos(),
                out@,
                p,
            ),
        decreases 8 * data.len() - bitstream.pos(),
    {
        let flag = match bitstream.read_bit() {
            Ok(b) => b,
            Err(e) => {
                return Err(map_end(e));
            },
        };
        if flag {
            let byte = match bitstream.read(8) {
                Ok(v) => v,
                Err(e) => {
                    return Err(map_end(e));
                },
            };
            proof {
                crate::bitstream::lemma_bits_value_bound(data, bitstream.pos() - 8, 8);
                vstd::arithmetic::power2::lemma2_to64();
            }
            let byte = byte as u8;
            proof {
                assert forall|s: int| 0 <= s < dictionary_size implies (if s
                    == dictionary_head as int {
                    byte
                } else {
                    dictionary@[s]
                }) == ring_byte(out@.push(byte), s, dictionary_size as int) by {
                    lemma_ring_push(out@, byte, s, dictionary_size as int);
                }
            }
            dictionary.set(dictionary_head, byte);
            proof {
                vstd::arithmetic::div_mod::lemma_add_mod_noop(
                    out@.len() + 1int,
                    1,
                    dictionary_size as int,
                );
                vstd::arithmetic::div_mod::lemma_small_mod(1, dictionary_size as nat);
            }
            dictionary_head = (dictionary_head + 1) % dictionary_size;
            out.push(byte);
        } else {
            let offset = match bitstream.read(offset_size) {
                Ok(v) => v,
                Err(e) => {
                    return Err(map_end(e));
                },
            };
            let length = match bitstream.read(length_size) {
                Ok(v) => v,
                Err(e) => {
                    return Err(map_end(e));
                },
            };
            let length = match length.checked_add(minimum_match_length) {
                Some(l) => l,
                None => {
                    return Err(LzssError::Overflow);
                },
            };
            if length > size - out.len() {
                return Err(LzssError::Overflow);
            }
            if offset == 0 && length == 0 {
                let ghost before = out@;
                while out.len() < size
                    invariant
                        bitstream.wf(),
                        bitstream.data() == data,
                        data == old(bitstream).data(),
                        before.len() <= out@.len() <= size,
                        out@.subrange(0, before.len() as int) == before,
                        forall|i: int| before.len() <= i < out@.len() ==> out@[i] == 0,
                    decreases size - out.len(),
                {
                    out.push(0);
                }
                assert(out@ =~= before + Seq::new((size - before.len()) as nat, |i: int| 0u8));
                return Ok(out);
            }
            let ghost before = out@;
            let mut index: usize = offset % dictionary_size;
            let mut k: usize = 0;
            while k < length
                invariant
                    bitstream.wf(),
                    bitstream.data() == data,
                    data == old(bitstream).data(),
                    dictionary_size >= 2,
                    k <= length,
                    before.len() + length <= size,
                    out@.len() == before.len() + k,
                    out@ == copy_match(before, offset as int, k as nat, dictionary_size as int),
                    index == (offset + k) % (dictionary_size as int),
                    dictionary@.len() == dictionary_size,
                    dictionary_head == (out@.len() + 1) as int % (dictionary_size as int),
                    forall|s: int|
                        0 <= s < dictionary_size ==> dictionary@[s] == ring_byte(
                            out@,
                            s,
                            dictionary_size as int,
                        ),
                decreases length - k,
            {
                let byte = dictionary[index];
                proof {
                    assert forall|s: int| 0 <= s < dictionary_size implies (if s
                        == dictionary_head as int {
                        byte
                    } else {
                        dictionary@[s]
                    }) == ring_byte(out@.push(byte), s, dictionary_size as int) by {
                        lemma_ring_push(out@, byte, s, dictionary_size as int);
                    }
                    assert((offset + (k + 1) - 1) % (dictionary_size as int) == index);
                }
                dictionary.set(dictionary_head, byte);
                proof {
                    vstd::arithmetic::div_mod::lemma_add_mod_noop(
                        out@.len() + 1int,
                        1,
                        dictionary_size as int,
                    );
                    vstd::arithmetic::div_mod::lemma_add_mod_noop(
                        offset + k as int,
                        1,
                        dictionary_size as int,
                    );
                    vstd::arithmetic::div_mod::lemma_small_mod(1, dictionary_size as nat);
                }
                dictionary_head = (dictionary_head + 1) % dictionary_size;
                out.push(byte);
                index = (index + 1) % dictionary_size;
                k = k + 1;
            }
        }
    }
    Ok(out)
}

} // verus!
