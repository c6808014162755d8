//! Decoding of the game's SHIFT_JIS strings.

use vstd::prelude::*;

verus! {

/// The text that SHIFT_JIS decoding gives for `bytes`, malformed sequences
/// replaced with U+FFFD.
pub uninterp spec fn shift_jis_decoded(bytes: Seq<u8>) -> Seq<char>;

/// Relies on `encoding_rs::SHIFT_JIS.decode`, which decodes a complete
/// buffer with replacement; its result depends on the bytes alone, and no
/// bytes give no text. It sizes its output buffer with checked arithmetic
/// that panics only on inputs of a third of the address space, far beyond
/// the bound here.
#[verifier::external_body]
pub(crate) fn decode_shift_jis(bytes: &[u8]) -> (r: String)
    requires
        bytes@.len() <= 0x1000_0000,
    ensures
        r@ == shift_jis_decoded(bytes@),
        bytes@.len() == 0 ==> r@.len() == 0,
{
    let (text, _encoding, _had_errors) = encoding_rs::SHIFT_JIS.decode(bytes);
    text.into_owned()
}

/// The bytes of `bytes` before its first NUL, or all of them.
pub open spec fn until_nul(bytes: Seq<u8>) -> Seq<u8>
    decreases bytes.len(),
{
    if bytes.len() == 0 || bytes[0] == 0 {
        Seq::empty()
    } else {
        seq![bytes[0]] + until_nul(bytes.drop_first())
    }
}

/// The bytes of `bytes` before its first NUL.
pub fn take_until_nul(bytes: &[u8]) -> (r: Vec<u8>)
    ensures
        r@ == until_nul(bytes@),
        r@.len() <= bytes@.len(),
{
    let mut out: Vec<u8> = Vec::new();
    let mut i: usize = 0;
    assert(bytes@.subrange(0, bytes@.len() as int) =~= bytes@);
    assert(out@ + until_nul(bytes@) =~= until_nul(bytes@));
    while i < bytes.len() && bytes[i] != 0
        invariant
            i <= bytes@.len(),
            out@ == bytes@.subrange(0, i as int),
            until_nul(bytes@) == out@ + until_nul(bytes@.subrange(i as int, bytes@.len() as int)),
        decreases bytes.len() - i,
    {
        let ghost rest = bytes@.subrange(i as int, bytes@.len() as int);
        assert(rest.drop_first() =~= bytes@.subrange(i + 1, bytes@.len() as int));
        let ghost prev = out@;
        out.push(bytes[i]);
        i = i + 1;
        assert(out@ =~= bytes@.subrange(0, i as int));
        assert(prev + (seq![rest[0]] + until_nul(rest.drop_first())) =~= out@ + until_nul(
            rest.drop_first(),
        ));
    }
    assert(until_nul(bytes@.subrange(i as int, bytes@.len() as int)) =~= Seq::empty());
    assert(bytes@.subrange(0, bytes@.len() as int) =~= bytes@);
    out
}

/// Decodes a SHIFT_JIS string stored in a fixed-size, NUL-padded field.
pub fn decode_field(bytes: &[u8]) -> (r: String)
    requires
        bytes@.len() <= 0x1000_0000,
    ensures
        r@ == shift_jis_decoded(until_nul(bytes@)),
{
    let raw = take_until_nul(bytes);
    decode_shift_jis(raw.as_slice())
}

} // verus!
