use touhou::bitstream::{BitStream, SeekableSlice};

#[test]
fn bitstream_bit_by_bit() {
    let data = SeekableSlice::new(&[1, 2, 3]);
    let mut bitstream = BitStream::new(data);

    // 1
    assert_eq!(bitstream.read_bit().unwrap(), false);
    assert_eq!(bitstream.read_bit().unwrap(), false);
    assert_eq!(bitstream.read_bit().unwrap(), false);
    assert_eq!(bitstream.read_bit().unwrap(), false);
    assert_eq!(bitstream.read_bit().unwrap(), false);
    assert_eq!(bitstream.read_bit().unwrap(), false);
    assert_eq!(bitstream.read_bit().unwrap(), false);
    assert_eq!(bitstream.read_bit().unwrap(), true);

    // 2
    assert_eq!(bitstream.read_bit().unwrap(), false);
    assert_eq!(bitstream.read_bit().unwrap(), false);
    assert_eq!(bitstream.read_bit().unwrap(), false);
    assert_eq!(bitstream.read_bit().unwrap(), false);
    assert_eq!(bitstream.read_bit().unwrap(), false);
    assert_eq!(bitstream.read_bit().unwrap(), false);
    assert_eq!(bitstream.read_bit().unwrap(), true);
    assert_eq!(bitstream.read_bit().unwrap(), false);

    // 3
    assert_eq!(bitstream.read_bit().unwrap(), false);
    assert_eq!(bitstream.read_bit().unwrap(), false);
    assert_eq!(bitstream.read_bit().unwrap(), false);
    assert_eq!(bitstream.read_bit().unwrap(), false);
    assert_eq!(bitstream.read_bit().unwrap(), false);
    assert_eq!(bitstream.read_bit().unwrap(), false);
    assert_eq!(bitstream.read_bit().unwrap(), true);
    assert_eq!(bitstream.read_bit().unwrap(), true);

    // Can’t read after the end.
    bitstream.read_bit().unwrap_err();
}

#[test]
fn byte_by_byte() {
    let data = SeekableSlice::new(&[1, 2, 3]);
    let mut bitstream = BitStream::new(data);

    assert_eq!(bitstream.read(8).unwrap(), 1);
    assert_eq!(bitstream.read(8).unwrap(), 2);
    assert_eq!(bitstream.read(8).unwrap(), 3);

    // Can’t read after the end.
    bitstream.read(1).unwrap_err();
}

#[test]
fn unaligned_bytes() {
    let data = SeekableSlice::new(&[0, 129, 1, 128]);
    let mut bitstream = BitStream::new(data);

    assert_eq!(bitstream.read_bit().unwrap(), false);
    assert_eq!(bitstream.read(8).unwrap(), 1);
    assert_eq!(bitstream.read(8).unwrap(), 2);
    assert_eq!(bitstream.read(8).unwrap(), 3);
    assert_eq!(bitstream.read(7).unwrap(), 0);

    // Can’t read after the end.
    bitstream.read(1).unwrap_err();
}

#[test]
fn read_zero_bits_past_the_end() {
    let mut bitstream = BitStream::new(SeekableSlice::new(&[]));
    assert_eq!(bitstream.read(0).unwrap(), 0);
    bitstream.read(1).unwrap_err();
}

#[test]
fn seek_drops_unread_bits() {
    let mut bitstream = BitStream::new(SeekableSlice::new(&[0xf0, 0x0f]));
    assert_eq!(bitstream.read(4).unwrap(), 0xf);
    assert_eq!(bitstream.tell(), 1);
    assert_eq!(bitstream.seek(1), 1);
    assert_eq!(bitstream.read(8).unwrap(), 0x0f);
    assert_eq!(bitstream.tell(), 2);
}

#[test]
fn read_bytes_unaligned() {
    let mut bitstream = BitStream::new(SeekableSlice::new(&[0x80, 0x81, 0x00]));
    assert_eq!(bitstream.read_bit().unwrap(), true);
    assert_eq!(bitstream.read_bytes(2).unwrap(), vec![0x01, 0x02]);
    bitstream.read_bytes(1).unwrap_err();
}
