use daf_reader::byteorder::ByteOrder;
use daf_reader::daf::FileRecord;
use daf_reader::DecodeError;

/// Build a 1024-byte file record buffer with the given marker and counts,
/// recognizable filler everywhere else.
fn header_buffer(marker: &[u8; 8], nd: i32, ni: i32, little: bool) -> Vec<u8> {
    let mut buf = vec![0x5au8; 1024];
    buf[0..8].copy_from_slice(b"DAF/SPK ");
    let nd_bytes = if little { nd.to_le_bytes() } else { nd.to_be_bytes() };
    let ni_bytes = if little { ni.to_le_bytes() } else { ni.to_be_bytes() };
    buf[8..12].copy_from_slice(&nd_bytes);
    buf[12..16].copy_from_slice(&ni_bytes);
    for (i, b) in buf[16..76].iter_mut().enumerate() {
        *b = b'a' + (i % 26) as u8;
    }
    let fwd = if little { 53i32.to_le_bytes() } else { 53i32.to_be_bytes() };
    let bwd = if little { 53i32.to_le_bytes() } else { 53i32.to_be_bytes() };
    let free = if little { 4_000_000i32.to_le_bytes() } else { 4_000_000i32.to_be_bytes() };
    buf[76..80].copy_from_slice(&fwd);
    buf[80..84].copy_from_slice(&bwd);
    buf[84..88].copy_from_slice(&free);
    buf[88..96].copy_from_slice(marker);
    buf[699..727].copy_from_slice(b"FTPSTR:\r:\n:\r\n:\r\0:\x81:\x10\xce:ENDFTP");
    buf
}

#[test]
fn buffer_of_1023_bytes_is_too_short() {
    let buf = vec![0u8; 1023];
    assert_eq!(DecodeError::BufferTooShort, FileRecord::try_from_bytes(&buf).unwrap_err());
}

#[test]
fn empty_buffer_is_too_short() {
    assert_eq!(DecodeError::BufferTooShort, FileRecord::try_from_bytes(&[]).unwrap_err());
}

#[test]
fn exact_1024_bytes_decode() {
    let buf = header_buffer(b"LTL-IEEE", 2, 6, true);
    assert_eq!(1024, buf.len());
    let fr = FileRecord::try_from_bytes(&buf).unwrap();
    assert_eq!(ByteOrder::LittleEndian, fr.byte_ordering);
    assert_eq!(2, fr.n_double);
    assert_eq!(6, fr.n_integer);
    assert_eq!(53, fr.forward);
    assert_eq!(53, fr.backward);
    assert_eq!(4_000_000, fr.first_free);
    assert_eq!(*b"DAF/SPK ", fr.id_word);
    assert_eq!(&buf[16..76], &fr.description[..]);
    assert_eq!(&buf[699..727], &fr.ftp_string[..]);
}

#[test]
fn big_endian_buffer_decodes() {
    let buf = header_buffer(b"BIG-IEEE", 3, 7, false);
    let fr = FileRecord::try_from_bytes(&buf).unwrap();
    assert_eq!(ByteOrder::BigEndian, fr.byte_ordering);
    assert_eq!(3, fr.n_double);
    assert_eq!(7, fr.n_integer);
    assert_eq!(4_000_000, fr.first_free);
}

#[test]
fn unknown_marker_is_rejected() {
    let buf = header_buffer(b"VAX-GFLT", 2, 6, true);
    assert_eq!(DecodeError::UnknownFormatMarker, FileRecord::try_from_bytes(&buf).unwrap_err());
}

#[test]
fn trailing_bytes_are_ignored() {
    let buf = header_buffer(b"LTL-IEEE", 2, 6, true);
    let mut longer = buf.clone();
    longer.extend_from_slice(&[0xffu8; 300]);
    let a = FileRecord::try_from_bytes(&buf).unwrap();
    let b = FileRecord::try_from_bytes(&longer).unwrap();
    assert_eq!(a.id_word, b.id_word);
    assert_eq!(a.n_double, b.n_double);
    assert_eq!(a.n_integer, b.n_integer);
    assert_eq!(&a.description[..], &b.description[..]);
    assert_eq!(a.forward, b.forward);
    assert_eq!(a.backward, b.backward);
    assert_eq!(a.first_free, b.first_free);
    assert_eq!(a.byte_ordering, b.byte_ordering);
    assert_eq!(&a.ftp_string[..], &b.ftp_string[..]);
}

#[test]
fn round_trip_little_endian_counts() {
    let mut buf = vec![0x13u8; 1024];
    buf[88..96].copy_from_slice(b"LTL-IEEE");
    buf[8..12].copy_from_slice(&2i32.to_le_bytes());
    buf[12..16].copy_from_slice(&6i32.to_le_bytes());
    let fr = FileRecord::try_from_bytes(&buf).unwrap();
    assert_eq!(ByteOrder::LittleEndian, fr.byte_ordering);
    assert_eq!(2, fr.n_double);
    assert_eq!(6, fr.n_integer);
    assert_eq!(5, fr.single_summary_size());
    assert_eq!(40, fr.n_character());
    assert_eq!(25, fr.summaries_per_record());
}

#[test]
fn derived_constants_after_decode() {
    let buf = header_buffer(b"BIG-IEEE", 1, 3, false);
    let fr = FileRecord::try_from_bytes(&buf).unwrap();
    assert_eq!(3, fr.single_summary_size());
    assert_eq!(24, fr.n_character());
    assert_eq!(41, fr.summaries_per_record());
}
