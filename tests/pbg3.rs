use touhou::bitstream::{BitStream, SeekableSlice};
use touhou::lzss::{decompress, LzssError};
use touhou::pbg3::{PBG3BitStream, Pbg3Error, PBG3};

const ARCHIVE: [u8; 45] = [
    80, 66, 71, 51, 0, 129, 32, 180, 89, 109, 150, 203, 120, 176, 216, 128, 1, 16, 0, 0, 4, 13, 76,
    7, 1, 88, 75, 157, 30, 29, 0, 0, 0, 1, 2, 25, 3, 64, 102, 34, 230, 38, 150, 224, 0,
];

const CORRUPTED: [u8; 45] = [
    80, 66, 71, 51, 0, 129, 32, 180, 89, 109, 150, 203, 120, 176, 216, 128, 1, 16, 0, 0, 4, 13, 80,
    7, 1, 88, 75, 157, 30, 29, 0, 0, 0, 1, 2, 26, 3, 64, 102, 34, 230, 38, 150, 224, 0,
];

#[test]
fn bitstream() {
    let data = SeekableSlice::new(b"Hello world!\0");
    let bitstream = BitStream::new(data);
    let mut pbg3 = PBG3BitStream::new(bitstream);
    assert_eq!(pbg3.read_string(42).unwrap(), b"Hello world!");
}

#[test]
fn read_string_stops_at_max_size() {
    let mut pbg3 = PBG3BitStream::new(BitStream::new(SeekableSlice::new(b"Hello")));
    assert_eq!(pbg3.read_string(3).unwrap(), b"Hel");
    assert_eq!(pbg3.read_string(2).unwrap(), b"lo");
    pbg3.read_string(1).unwrap_err();
}

#[test]
fn read_u32_variable_width() {
    // Two bits of size (1: two bytes), then 0x1234.
    let mut pbg3 = PBG3BitStream::new(BitStream::new(SeekableSlice::new(&[0x44, 0x8d, 0x00])));
    assert_eq!(pbg3.read_u32().unwrap(), 0x1234);
    let mut short = PBG3BitStream::new(BitStream::new(SeekableSlice::new(&[0xc0])));
    short.read_u32().unwrap_err();
}

#[test]
fn lzss_literals_and_back_reference() {
    let mut bits = BitStream::new(SeekableSlice::new(&[176, 216, 128, 1, 16]));
    let data = decompress(&mut bits, 6, 0x2000, 13, 4, 3).unwrap();
    assert_eq!(data, b"ababab");
}

#[test]
fn lzss_back_reference_past_size_is_an_error() {
    let mut bits = BitStream::new(SeekableSlice::new(&[176, 216, 128, 1, 16]));
    assert_eq!(decompress(&mut bits, 5, 0x2000, 13, 4, 3), Err(LzssError::Overflow));
}

#[test]
fn lzss_end_of_data_is_an_error() {
    let mut bits = BitStream::new(SeekableSlice::new(&[176]));
    assert_eq!(decompress(&mut bits, 6, 0x2000, 13, 4, 3), Err(LzssError::EndOfData));
}

#[test]
fn lzss_empty_output() {
    let mut bits = BitStream::new(SeekableSlice::new(&[]));
    assert_eq!(decompress(&mut bits, 0, 0x2000, 13, 4, 3).unwrap(), Vec::<u8>::new());
}

#[test]
fn archive_lists_each_file_once() {
    let pbg3 = PBG3::from_file(SeekableSlice::new(&ARCHIVE)).unwrap();
    let mut files = pbg3.list_files();
    files.sort();
    assert_eq!(files, vec![String::from("a.txt"), String::from("b.bin")]);
}

#[test]
fn archive_extracts_and_checks_every_file() {
    let mut pbg3 = PBG3::from_file(SeekableSlice::new(&ARCHIVE)).unwrap();
    let files = pbg3.list_files();
    for filename in files {
        pbg3.get_file(filename, true).unwrap();
    }
    assert_eq!(pbg3.get_file(String::from("a.txt"), true).unwrap(), b"hello");
    assert_eq!(pbg3.get_file(String::from("b.bin"), true).unwrap(), b"ababab");
}

#[test]
fn archive_detects_corruption() {
    let mut pbg3 = PBG3::from_file(SeekableSlice::new(&CORRUPTED)).unwrap();
    assert_eq!(pbg3.get_file(String::from("a.txt"), true), Err(Pbg3Error::Corrupted));
    assert_eq!(pbg3.get_file(String::from("a.txt"), false).unwrap(), b"hello");
}

#[test]
fn archive_unknown_file() {
    let mut pbg3 = PBG3::from_file(SeekableSlice::new(&ARCHIVE)).unwrap();
    assert_eq!(pbg3.get_file(String::from("c.txt"), true), Err(Pbg3Error::NotFound));
}

#[test]
fn archive_wrong_magic_and_truncated() {
    assert!(matches!(PBG3::from_file(SeekableSlice::new(b"PBG4\0\0")), Err(Pbg3Error::WrongMagic)));
    assert!(matches!(PBG3::from_file(SeekableSlice::new(b"PB")), Err(Pbg3Error::WrongMagic)));
    assert!(matches!(PBG3::from_file(SeekableSlice::new(&ARCHIVE[..20])), Err(Pbg3Error::Truncated)));
}
