//! PBG3 archives: a bit-packed header and file table, followed by
//! LZSS-compressed files.

use crate::bitstream::{bits_value, byte_pos, bytes_at, BitStream, EndOfData, SeekableSlice};
use crate::lzss::{decompress, lemma_decode_complete, lzss_decode, LzssError, LzssParams};
use crate::text::{decode_shift_jis, shift_jis_decoded};
use vstd::arithmetic::power2::lemma2_to64;
use vstd::prelude::*;

verus! {

/// A variable-width integer at bit `pos`: two bits giving the number of
/// bytes minus one, then that many bytes. The value and the position after
/// it, or `None` where the data ends first.
pub open spec fn u32_field(data: Seq<u8>, pos: int) -> Option<(u32, int)> {
    if pos + 2 > 8 * data.len() {
        None
    } else {
        let width = (bits_value(data, pos, 2) + 1) * 8;
        if pos + 2 + width > 8 * data.len() {
            None
        } else {
            Some((bits_value(data, pos + 2, width) as u32, pos + 2 + width))
        }
    }
}

/// A string at bit `pos`: bytes up to a NUL (not kept) or up to `max`
/// bytes. The bytes and the position after them, or `None` where the data
/// ends first.
pub open spec fn string_field(data: Seq<u8>, pos: int, max: nat) -> Option<(Seq<u8>, int)>
    decreases max,
{
    if max == 0 {
        Some((Seq::empty(), pos))
    } else if pos + 8 > 8 * data.len() {
        None
    } else {
        let b = bits_value(data, pos, 8) as u8;
        if b == 0 {
            Some((Seq::empty(), pos + 8))
        } else {
            match string_field(data, pos + 8, (max - 1) as nat) {
                Some((s, e)) => Some((seq![b] + s, e)),
                None => None,
            }
        }
    }
}

/// Reader of the integers and strings of a PBG3 archive.
pub struct PBG3BitStream {
    bitstream: BitStream,
}

impl PBG3BitStream {
    pub closed spec fn wf(&self) -> bool {
        self.bitstream.wf()
    }

    /// The bytes of the archive.
    pub closed spec fn data(&self) -> Seq<u8> {
        self.bitstream.data()
    }

    /// The index of the next bit to read.
    pub closed spec fn pos(&self) -> int {
        self.bitstream.pos()
    }

    /// Create a bitstream capable of reading u32 and strings.
    pub fn new(bitstream: BitStream) -> (r: PBG3BitStream)
        requires
            bitstream.wf(),
        ensures
            r.wf(),
            r.data() == bitstream.data(),
            r.pos() == bitstream.pos(),
    {
        PBG3BitStream { bitstream }
    }

    /// Seek to a byte offset, ditching any unused bits.
    pub fn seek(&mut self, offset: usize) -> (r: usize)
        requires
            old(self).wf(),
        ensures
            final(self).wf(),
            final(self).data() == old(self).data(),
            final(self).pos() == offset * 8,
            r == offset,
    {
        self.bitstream.seek(offset)
    }

    /// Return the current byte offset in the stream.
    pub fn tell(&self) -> (r: usize)
        requires
            self.wf(),
        ensures
            r == byte_pos(self.pos()),
    {
        self.bitstream.tell()
    }

    /// Read a given amount of bits.
    pub fn read(&mut self, nb_bits: usize) -> (r: Result<usize, EndOfData>)
        requires
            old(self).wf(),
            nb_bits <= 32,
        ensures
            final(self).wf(),
            final(self).data() == old(self).data(),
            r is Ok <==> nb_bits == 0 || old(self).pos() + nb_bits <= 8 * old(self).data().len(),
            r matches Ok(v) ==> v == bits_value(old(self).data(), old(self).pos(), nb_bits as nat)
                && final(self).pos() == old(self).pos() + nb_bits,
    {
        self.bitstream.read(nb_bits)
    }

    /// Read a given amount of bytes.
    pub fn read_bytes(&mut self, nb_bytes: usize) -> (r: Result<Vec<u8>, EndOfData>)
        requires
            old(self).wf(),
        ensures
            final(self).wf(),
            final(self).data() == old(self).data(),
            r is Ok <==> nb_bytes == 0 || old(self).pos() + 8 * nb_bytes <= 8 * old(
                self,
            ).data().len(),
            r matches Ok(v) ==> v@ == bytes_at(old(self).data(), old(self).pos(), nb_bytes as nat)
                && final(self).pos() == old(self).pos() + 8 * nb_bytes,
    {
        self.bitstream.read_bytes(nb_bytes)
    }

    /// Read a variable-width integer: two bits giving its size in bytes
    /// minus one, then its value.
    pub fn read_u32(&mut self) -> (r: Result<u32, EndOfData>)
        requires
            old(self).wf(),
        ensures
            final(self).wf(),
            final(self).data() == old(self).data(),
            r is Ok <==> u32_field(old(self).data(), old(self).pos()) is Some,
            r matches Ok(v) ==> u32_field(old(self).data(), old(self).pos()) == Some(
                (v, final(self).pos()),
            ),
    {
        let size = self.read(2)?;
        proof {
            crate::bitstream::lemma_bits_value_bound(self.data(), old(self).pos(), 2);
            lemma2_to64();
        }
        let value = self.read((size + 1) * 8)?;
        Ok(value as u32)
    }

    /// Read a NUL-terminated string of at most `max_size` bytes; the
    /// strings are not byte-aligned.
    pub fn read_string(&mut self, max_size: usize) -> (r: Result<Vec<u8>, EndOfData>)
        requires
            old(self).wf(),
        ensures
            final(self).wf(),
            final(self).data() == old(self).data(),
            r is Ok <==> string_field(old(self).data(), old(self).pos(), max_size as nat) is Some,
            r matches Ok(v) ==> string_field(old(self).data(), old(self).pos(), max_size as nat)
                == Some((v@, final(self).pos())) && v@.len() <= max_size,
    {
        let ghost data = self.data();
        let ghost start = self.pos();
        let mut buf: Vec<u8> = Vec::new();
        let mut remaining = max_size;
        while remaining > 0
            invariant
                self.wf(),
                self.data() == data,
                data == old(self).data(),
                start == old(self).pos(),
                buf@.len() + remaining == max_size,
                string_field(data, start, max_size as nat) == match string_field(
                    data,
                    self.pos(),
                    remaining as nat,
                ) {
                    Some((s, e)) => Some((buf@ + s, e)),
                    None => None::<(Seq<u8>, int)>,
                },
            decreases remaining,
        {
            proof {
                crate::bitstream::lemma_bits_value_bound(data, self.pos(), 8);
                lemma2_to64();
            }
            let byte = match self.read(8) {
                Ok(b) => b as u8,
                Err(e) => {
                    return Err(e);
                },
            };
            if byte == 0 {
                assert(buf@ + Seq::<u8>::empty() =~= buf@);
                return Ok(buf);
            }
            let ghost prev = buf@;
            buf.push(byte);
            remaining = remaining - 1;
            proof {
                assert forall|s: Seq<u8>| prev + (seq![byte] + s) =~= buf@ + s by {}
            }
        }
        assert(buf@ + Seq::<u8>::empty() =~= buf@);
        Ok(buf)
    }
}

/// What the file table says of one file.
#[derive(Debug, Clone, Copy, PartialEq, Eq, Structural)]
pub struct EntryInfo {
    pub unknown_1: u32,
    pub unknown_2: u32,
    /// Sum of the bytes of the compressed data, modulo 2^32.
    pub checksum: u32,
    /// Byte offset of the compressed data.
    pub offset: u32,
    /// Size of the decompressed data.
    pub size: u32,
}

/// One record of the file table at bit `pos`: five integers and a name of
/// at most 255 bytes. The decoded name, the record and the position after
/// it.
pub open spec fn entry_field(data: Seq<u8>, pos: int) -> Option<(Seq<char>, EntryInfo, int)> {
    match u32_field(data, pos) {
        None => None,
        Some((unknown_1, after_1)) => match u32_field(data, after_1) {
            None => None,
            Some((unknown_2, after_2)) => match u32_field(data, after_2) {
                None => None,
                Some((checksum, after_3)) => match u32_field(data, after_3) {
                    None => None,
                    Some((offset, after_4)) => match u32_field(data, after_4) {
                        None => None,
                        Some((size, after_5)) => match string_field(data, after_5, 255) {
                            None => None,
                            Some((name, after_6)) => Some(
                                (
                                    shift_jis_decoded(name),
                                    EntryInfo { unknown_1, unknown_2, checksum, offset, size },
                                    after_6,
                                ),
                            ),
                        },
                    },
                },
            },
        },
    }
}

/// The `n` records of the file table from bit `pos`, appended to `acc`.
pub open spec fn entry_fields(data: Seq<u8>, pos: int, n: nat, acc: Seq<(Seq<char>, EntryInfo)>) -> Option<
    Seq<(Seq<char>, EntryInfo)>,
>
    decreases n,
{
    if n == 0 {
        Some(acc)
    } else {
        match entry_field(data, pos) {
            None => None,
            Some((name, info, next)) => entry_fields(data, next, (n - 1) as nat, acc.push((name, info))),
        }
    }
}

/// The files of a table: a later record of a name replaces an earlier one.
pub open spec fn table_of(records: Seq<(Seq<char>, EntryInfo)>) -> Map<Seq<char>, EntryInfo>
    decreases records.len(),
{
    if records.len() == 0 {
        Map::empty()
    } else {
        table_of(records.drop_last()).insert(records.last().0, records.last().1)
    }
}

/// The records of an archive, when `data` is one: the magic `PBG3`, then
/// from byte 4 the number of files and the offset of the table.
pub open spec fn archive_records(data: Seq<u8>) -> Option<Seq<(Seq<char>, EntryInfo)>> {
    match u32_field(data, 32) {
        None => None,
        Some((count, after_1)) => match u32_field(data, after_1) {
            None => None,
            Some((offset, _p2)) => entry_fields(data, 8 * offset, count as nat, Seq::empty()),
        },
    }
}

/// Whether `data` starts with the magic `PBG3`.
pub open spec fn has_magic(data: Seq<u8>) -> bool {
    &&& data.len() >= 4
    &&& data[0] == 0x50u8
    &&& data[1] == 0x42u8
    &&& data[2] == 0x47u8
    &&& data[3] == 0x33u8
}

/// Sum of the bytes of `s`.
pub open spec fn byte_sum(s: Seq<u8>) -> nat
    decreases s.len(),
{
    if s.len() == 0 {
        0
    } else {
        byte_sum(s.drop_last()) + s.last() as nat
    }
}

/// The parameters of the archive's LZSS streams, for a file of `size` bytes.
pub open spec fn file_params(size: u32) -> LzssParams {
    LzssParams {
        size: size as int,
        dictionary_size: 0x2000,
        offset_size: 13,
        length_size: 4,
        minimum_match_length: 3,
    }
}

/// Why an archive could not be opened, or a file not extracted.
#[derive(Debug, Clone, Copy, PartialEq, Eq, Structural)]
pub enum Pbg3Error {
    /// The data does not start with `PBG3`.
    WrongMagic,
    /// The data ends in the middle of the header or of the file table.
    Truncated,
    /// No file of that name is in the archive.
    NotFound,
    /// The compressed data ends early or overflows the announced size.
    Decompression(LzssError),
    /// The compressed data does not match its checksum.
    Corrupted,
}

/// A file of the archive.
pub struct Pbg3Entry {
    pub name: String,
    pub info: EntryInfo,
}

/// A PBG3 archive.
pub struct PBG3 {
    /// The records of the file table, in order.
    entries: Vec<Pbg3Entry>,
    bitstream: PBG3BitStream,
}

/// The (name, record) pairs of `entries`.
pub open spec fn records_of(entries: Seq<Pbg3Entry>) -> Seq<(Seq<char>, EntryInfo)> {
    entries.map_values(|e: Pbg3Entry| (e.name@, e.info))
}

/// A name is in a table exactly when some record has it.
pub proof fn lemma_table_dom(records: Seq<(Seq<char>, EntryInfo)>, name: Seq<char>)
    ensures
        table_of(records).contains_key(name) <==> exists|i: int|
            0 <= i < records.len() && records[i].0 == name,
    decreases records.len(),
{
    if records.len() > 0 {
        lemma_table_dom(records.drop_last(), name);
        if table_of(records.drop_last()).contains_key(name) {
            let i = choose|i: int| 0 <= i < records.drop_last().len() && records.drop_last()[i].0 == name;
            assert(records[i].0 == name);
        }
        if exists|i: int| 0 <= i < records.len() && records[i].0 == name {
            let i = choose|i: int| 0 <= i < records.len() && records[i].0 == name;
            if i < records.len() - 1 {
                assert(records.drop_last()[i].0 == name);
            }
        }
    }
}

/// A table looked up by a name that none of the records after `i` has gives
/// what the records up to `i` give.
proof fn lemma_table_prefix(records: Seq<(Seq<char>, EntryInfo)>, i: int, name: Seq<char>)
    requires
        0 <= i <= records.len(),
        forall|j: int| i <= j < records.len() ==> records[j].0 != name,
    ensures
        table_of(records).contains_key(name) == table_of(records.subrange(0, i)).contains_key(name),
        table_of(records).contains_key(name) ==> table_of(records)[name] == table_of(
            records.subrange(0, i),
        )[name],
    decreases records.len() - i,
{
    if i < records.len() {
        let last = records.len() - 1;
        assert(records.drop_last() =~= records.subrange(0, last));
        lemma_table_prefix(records.drop_last(), i, name);
        assert(records.drop_last().subrange(0, i) =~= records.subrange(0, i));
    } else {
        assert(records.subrange(0, i) =~= records);
    }
}

impl PBG3 {
    /// The bytes of the archive.
    pub closed spec fn data(&self) -> Seq<u8> {
        self.bitstream.data()
    }

    /// The records of the file table, in order.
    pub closed spec fn records(&self) -> Seq<(Seq<char>, EntryInfo)> {
        records_of(self.entries@)
    }

    /// The files of the archive, by name.
    pub open spec fn files(&self) -> Map<Seq<char>, EntryInfo> {
        table_of(self.records())
    }

    pub closed spec fn wf(&self) -> bool {
        self.bitstream.wf()
    }

    /// Create a PBG3 archive.
    fn new(entries: Vec<Pbg3Entry>, bitstream: PBG3BitStream) -> (r: PBG3)
        requires
            bitstream.wf(),
        ensures
            r.wf(),
            r.records() == records_of(entries@),
            r.data() == bitstream.data(),
    {
        PBG3 { entries, bitstream }
    }

    /// Open the PBG3 archive held in `file`.
    pub fn from_file(file: SeekableSlice) -> (r: Result<PBG3, Pbg3Error>)
        ensures
            r == Err::<PBG3, Pbg3Error>(Pbg3Error::WrongMagic) <==> !has_magic(file.bytes()),
            has_magic(file.bytes()) ==> (r is Ok <==> archive_records(file.bytes()) is Some),
            has_magic(file.bytes()) && archive_records(file.bytes()) is None ==> r == Err::<PBG3, Pbg3Error>(
                Pbg3Error::Truncated,
            ),
            r matches Ok(a) ==> {
                &&& a.wf()
                &&& a.data() == file.bytes()
                &&& archive_records(file.bytes()) == Some(a.records())
            },
    {
        let ghost bytes = file.bytes();
        let magic = file.as_slice();
        if magic.len() < 4 || magic[0] != 0x50u8 || magic[1] != 0x42u8 || magic[2] != 0x47u8
            || magic[3] != 0x33u8 {
            return Err(Pbg3Error::WrongMagic);
        }
        let mut bits = BitStream::new(file);
        bits.seek(4);
        let mut stream = PBG3BitStream::new(bits);
        let nb_entries = match stream.read_u32() {
            Ok(v) => v,
            Err(_) => {
                return Err(Pbg3Error::Truncated);
            },
        };
        let offset = match stream.read_u32() {
            Ok(v) => v,
            Err(_) => {
                return Err(Pbg3Error::Truncated);
            },
        };
        stream.seek(offset as usize);
        let mut entries: Vec<Pbg3Entry> = Vec::new();
        let mut k: u32 = 0;
        assert(records_of(entries@) =~= Seq::empty());
        while k < nb_entries
            invariant
                has_magic(bytes),
                bytes == file.bytes(),
                stream.wf(),
                stream.data() == bytes,
                k <= nb_entries,
                archive_records(bytes) == entry_fields(
                    bytes,
                    stream.pos(),
                    (nb_entries - k) as nat,
                    records_of(entries@),
                ),
            decreases nb_entries - k,
        {
            let ghost pos0 = stream.pos();
            let ghost acc = records_of(entries@);
            assert(entry_fields(bytes, pos0, (nb_entries - k) as nat, acc) == match entry_field(
                bytes,
                pos0,
            ) {
                None => None,
                Some((nm, inf, next)) => entry_fields(
                    bytes,
                    next,
                    (nb_entries - k - 1) as nat,
                    acc.push((nm, inf)),
                ),
            });
            let (name, info) = match read_entry(&mut stream) {
                Ok(e) => e,
                Err(_) => {
                    return Err(Pbg3Error::Truncated);
                },
            };
            let ghost prev = entries@;
            entries.push(Pbg3Entry { name, info });
            assert(records_of(entries@) =~= records_of(prev).push((name@, info)));
            k = k + 1;
        }
        Ok(PBG3::new(entries, stream))
    }

    /// Read a single file from this archive, verifying the checksum of its
    /// compressed data when `check` is set.
    pub fn get_file(&mut self, filename: String, check: bool) -> (r: Result<Vec<u8>, Pbg3Error>)
        requires
            old(self).wf(),
        ensures
            final(self).wf(),
            final(self).data() == old(self).data(),
            final(self).records() == old(self).records(),
            r == Err::<Vec<u8>, Pbg3Error>(Pbg3Error::NotFound) <==> !old(self).files().contains_key(
                filename@,
            ),
            old(self).files().contains_key(filename@) ==> ({
                let info = old(self).files()[filename@];
                let (res, end) = lzss_decode(
                    old(self).data(),
                    8 * info.offset,
                    Seq::empty(),
                    file_params(info.size),
                );
                let stored = bytes_at(
                    old(self).data(),
                    8 * info.offset,
                    (byte_pos(end) - info.offset) as nat,
                );
                match res {
                    Err(e) => r == Err::<Vec<u8>, Pbg3Error>(Pbg3Error::Decompression(e)),
                    Ok(v) => if check && byte_sum(stored) % 0x1_0000_0000 != info.checksum as nat {
                        r == Err::<Vec<u8>, Pbg3Error>(Pbg3Error::Corrupted)
                    } else {
                        r matches Ok(out) && out@ == v
                    },
                }
            }),
    {
        let ghost recs = self.records();
        let mut i: usize = self.entries.len();
        let mut found = false;
        while i > 0 && !found
            invariant
                recs == self.records(),
                recs.len() == self.entries@.len(),
                i <= self.entries@.len(),
                found ==> i > 0 && recs[i - 1].0 == filename@,
                forall|j: int| i <= j < recs.len() ==> recs[j].0 != filename@,
            decreases i + if found {
                0int
            } else {
                1int
            },
        {
            assert(recs[i - 1].0 == self.entries@[i - 1].name@);
            if self.entries[i - 1].name == filename {
                found = true;
            } else {
                i = i - 1;
            }
        }
        if !found {
            proof {
                lemma_table_prefix(recs, 0, filename@);
                assert(recs.subrange(0, 0) =~= Seq::empty());
            }
            return Err(Pbg3Error::NotFound);
        }
        let info = self.entries[i - 1].info;
        proof {
            let k = i as int;
            lemma_table_prefix(recs, k, filename@);
            assert(recs.subrange(0, k).drop_last() =~= recs.subrange(0, k - 1));
            assert(recs[k - 1].0 == filename@);
            assert(self.files()[filename@] == info);
        }
        self.bitstream.seek(info.offset as usize);
        proof {
            lemma_decode_complete(
                self.data(),
                8 * info.offset,
                Seq::empty(),
                file_params(info.size),
            );
        }
        let data = match decompress(&mut self.bitstream.bitstream, info.size as usize, 0x2000, 13, 4, 3) {
            Ok(d) => d,
            Err(e) => {
                return Err(Pbg3Error::Decompression(e));
            },
        };
        if check {
            let end = self.bitstream.tell();
            let compressed_size = end - info.offset as usize;
            self.bitstream.seek(info.offset as usize);
            let stored = match self.bitstream.read_bytes(compressed_size) {
                Ok(b) => b,
                Err(_) => {
                    return Err(Pbg3Error::Truncated);
                },
            };
            if checksum_of(&stored) != info.checksum {
                return Err(Pbg3Error::Corrupted);
            }
        }
        Ok(data)
    }

    /// List the names of the files in this archive, each once.
    pub fn list_files(&self) -> (r: Vec<String>)
        ensures
            forall|i: int| 0 <= i < r@.len() ==> self.files().contains_key(#[trigger] r@[i]@),
            forall|name: Seq<char>|
                self.files().contains_key(name) ==> exists|i: int|
                    0 <= i < r@.len() && #[trigger] r@[i]@ == name,
            forall|i: int, j: int| 0 <= i < j < r@.len() ==> r@[i]@ != r@[j]@,
    {
        let ghost recs = self.records();
        let n = self.entries.len();
        let mut out: Vec<String> = Vec::new();
        let ghost mut idx: Seq<int> = Seq::empty();
        let mut i: usize = 0;
        while i < n
            invariant
                n == self.entries@.len(),
                recs == self.records(),
                recs.len() == n,
                i <= n,
                idx.len() == out@.len(),
                forall|t: int| 0 <= t < idx.len() ==> 0 <= #[trigger] idx[t] < i,
                forall|t: int| 0 <= t < idx.len() ==> out@[t]@ == recs[#[trigger] idx[t]].0,
                forall|t: int, m: int|
                    0 <= t < idx.len() && idx[t] < m < n ==> #[trigger] recs[m].0 != recs[#[trigger] idx[t]].0,
                forall|s: int, t: int| 0 <= s < t < idx.len() ==> idx[s] < idx[t],
                forall|j: int|
                    0 <= j < i && #[trigger] last_of_name(recs, j) ==> exists|t: int|
                        0 <= t < idx.len() && #[trigger] idx[t] == j,
            decreases n - i,
        {
            let mut later = false;
            let mut m: usize = i + 1;
            while m < n
                invariant
                    n == self.entries@.len(),
                    recs == self.records(),
                    recs.len() == n,
                    i < n,
                    i + 1 <= m <= n,
                    later <==> exists|q: int| i < q < m && recs[q].0 == recs[i as int].0,
                decreases n - m,
            {
                assert(recs[m as int].0 == self.entries@[m as int].name@);
                assert(recs[i as int].0 == self.entries@[i as int].name@);
                if self.entries[m].name == self.entries[i].name {
                    later = true;
                }
                m = m + 1;
            }
            assert(recs[i as int].0 == self.entries@[i as int].name@);
            assert(last_of_name(recs, i as int) <==> !later);
            if !later {
                out.push(self.entries[i].name.clone());
                proof {
                    let ghost old_idx = idx;
                    idx = idx.push(i as int);
                    assert(idx[idx.len() - 1] == i);
                    assert forall|j: int|
                        0 <= j < i + 1 && #[trigger] last_of_name(recs, j) implies exists|t: int|
                        0 <= t < idx.len() && #[trigger] idx[t] == j by {
                        if j < i {
                            let t = choose|t: int| 0 <= t < old_idx.len() && #[trigger] old_idx[t] == j;
                            assert(idx[t] == j);
                        } else {
                            assert(idx[idx.len() - 1] == j);
                        }
                    }
                }
            }
            i = i + 1;
        }
        proof {
            assert forall|name: Seq<char>| self.files().contains_key(name) implies exists|t: int|
                0 <= t < out@.len() && #[trigger] out@[t]@ == name by {
                lemma_table_dom(recs, name);
                let j0 = choose|j: int| 0 <= j < recs.len() && recs[j].0 == name;
                let j = lemma_last_occurrence(recs, j0);
                let t = choose|t: int| 0 <= t < idx.len() && #[trigger] idx[t] == j;
                assert(out@[t]@ == name);
            }
            assert forall|t: int| 0 <= t < out@.len() implies self.files().contains_key(
                #[trigger] out@[t]@,
            ) by {
                lemma_table_dom(recs, out@[t]@);
                assert(recs[idx[t]].0 == out@[t]@);
            }
            assert forall|s: int, t: int| 0 <= s < t < out@.len() implies out@[s]@ != out@[t]@ by {
                assert(idx[s] < idx[t]);
            }
        }
        out
    }
}

/// The sum of `bytes`, modulo 2^32.
fn checksum_of(bytes: &Vec<u8>) -> (r: u32)
    ensures
        r == byte_sum(bytes@) % 0x1_0000_0000,
{
    let mut value: u32 = 0;
    let mut i: usize = 0;
    while i < bytes.len()
        invariant
            i <= bytes@.len(),
            value == byte_sum(bytes@.subrange(0, i as int)) % 0x1_0000_0000,
        decreases bytes.len() - i,
    {
        proof {
            assert(bytes@.subrange(0, i + 1).drop_last() =~= bytes@.subrange(0, i as int));
            vstd::arithmetic::div_mod::lemma_add_mod_noop(
                byte_sum(bytes@.subrange(0, i as int)) as int,
                bytes@[i as int] as int,
                0x1_0000_0000,
            );
            vstd::arithmetic::div_mod::lemma_small_mod(bytes@[i as int] as nat, 0x1_0000_0000);
        }
        value = value.wrapping_add(bytes[i] as u32);
        i = i + 1;
    }
    assert(bytes@.subrange(0, bytes@.len() as int) =~= bytes@);
    value
}

/// Read one record of the file table.
fn read_entry(stream: &mut PBG3BitStream) -> (r: Result<(String, EntryInfo), EndOfData>)
    requires
        old(stream).wf(),
    ensures
        final(stream).wf(),
        final(stream).data() == old(stream).data(),
        r is Ok <==> entry_field(old(stream).data(), old(stream).pos()) is Some,
        r matches Ok((name, info)) ==> entry_field(old(stream).data(), old(stream).pos()) == Some(
            (name@, info, final(stream).pos()),
        ),
{
    let unknown_1 = stream.read_u32()?;
    let unknown_2 = stream.read_u32()?;
    let checksum = stream.read_u32()?;
    let offset = stream.read_u32()?;
    let size = stream.read_u32()?;
    let raw_name = stream.read_string(255)?;
    let name = decode_shift_jis(raw_name.as_slice());
    Ok((name, EntryInfo { unknown_1, unknown_2, checksum, offset, size }))
}

/// No record after the `j`-th has its name.
pub open spec fn last_of_name(recs: Seq<(Seq<char>, EntryInfo)>, j: int) -> bool {
    forall|m: int| j < m < recs.len() ==> recs[m].0 != recs[j].0
}

/// From a record of a name, a last record of that name.
proof fn lemma_last_occurrence(recs: Seq<(Seq<char>, EntryInfo)>, j: int) -> (last: int)
    requires
        0 <= j < recs.len(),
    ensures
        j <= last < recs.len(),
        recs[last].0 == recs[j].0,
        last_of_name(recs, last),
    decreases recs.len() - j,
{
    if exists|m: int| j < m < recs.len() && recs[m].0 == recs[j].0 {
        let m = choose|m: int| j < m < recs.len() && recs[m].0 == recs[j].0;
        lemma_last_occurrence(recs, m)
    } else {
        j
    }
}

} // verus!
