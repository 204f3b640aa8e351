use wire_policy::config::{
    BinaryConfig, DefaultConfig, ExtConfig, HumanReadableConfig, SerializerConfig, StructMapConfig,
    StructTupleConfig,
};
use wire_policy::error::{DecodeError, EncodeError, ValueWriteError};
use wire_policy::ext::{Ext, Reader};
use wire_policy::wire::append_bytes;

type WithExt = ExtConfig<DefaultConfig, Vec<u8>>;

/// Writes `ext` under `C`, then reads it back under `C` the way a decoder
/// does: marker first, then the hook.
fn round_trip<C: SerializerConfig>(ext: &Ext) -> (Vec<u8>, Option<Ext>, usize) {
    let mut buf = Vec::new();
    C::write_ext(&mut buf, ext).unwrap();
    buf.push(0xc0);
    let mut der = Reader::new(&buf);
    let marker = der.bytes[0];
    der.pos = 1;
    let back = C::try_read_ext(&mut der, marker).unwrap();
    (buf.clone(), back, der.pos)
}

#[test]
fn fixext_sizes_round_trip() {
    let markers = [(1usize, 0xd4u8), (2, 0xd5), (4, 0xd6), (8, 0xd7), (16, 0xd8)];
    for (len, marker) in markers {
        let ext = Ext::new(5, vec![0xab; len]);
        let (bytes, back, pos) = round_trip::<WithExt>(&ext);
        assert_eq!(bytes[0], marker);
        assert_eq!(bytes[1], 5);
        assert_eq!(bytes.len(), 2 + len + 1);
        assert_eq!(back, Some(ext));
        assert_eq!(pos, 2 + len);
    }
}

#[test]
fn ext8_round_trips() {
    let ext = Ext::new(1, vec![1, 2, 3]);
    let (bytes, back, pos) = round_trip::<WithExt>(&ext);
    assert_eq!(bytes, vec![0xc7, 3, 1, 1, 2, 3, 0xc0]);
    assert_eq!(back, Some(ext));
    assert_eq!(pos, 6);
}

#[test]
fn empty_payload_round_trips() {
    let ext = Ext::new(9, Vec::new());
    let (bytes, back, pos) = round_trip::<WithExt>(&ext);
    assert_eq!(bytes, vec![0xc7, 0, 9, 0xc0]);
    assert_eq!(back, Some(ext));
    assert_eq!(pos, 3);
}

#[test]
fn ext16_round_trips() {
    let data: Vec<u8> = (0..300u32).map(|i| (i % 251) as u8).collect();
    let ext = Ext::new(2, data);
    let (bytes, back, pos) = round_trip::<WithExt>(&ext);
    assert_eq!(&bytes[..4], &[0xc8, 0x01, 0x2c, 2]);
    assert_eq!(back, Some(ext));
    assert_eq!(pos, 4 + 300);
}

#[test]
fn ext32_round_trips() {
    let data: Vec<u8> = (0..70000u32).map(|i| (i % 253) as u8).collect();
    let ext = Ext::new(3, data);
    let (bytes, back, pos) = round_trip::<WithExt>(&ext);
    assert_eq!(&bytes[..6], &[0xc9, 0x00, 0x01, 0x11, 0x70, 3]);
    assert_eq!(back, Some(ext));
    assert_eq!(pos, 6 + 70000);
}

#[test]
fn negative_tag_round_trips() {
    for tag in [-1i8, -128, 127, 0] {
        let ext = Ext::new(tag, vec![7, 7]);
        let (bytes, back, _) = round_trip::<WithExt>(&ext);
        assert_eq!(bytes[0], 0xd5);
        assert_eq!(bytes[1], tag as u8);
        assert_eq!(back, Some(ext));
    }
}

#[test]
fn written_extension_is_what_rmp_reads() {
    let ext = Ext::new(-3, vec![9; 20]);
    let mut buf = Vec::new();
    WithExt::write_ext(&mut buf, &ext).unwrap();
    let mut rd: &[u8] = &buf;
    let meta = rmp::decode::read_ext_meta(&mut rd).unwrap();
    assert_eq!(meta.typeid, -3);
    assert_eq!(meta.size, 20);
    assert_eq!(rd, &[9u8; 20][..]);
}

#[test]
fn extension_written_by_rmp_is_read() {
    let mut buf = Vec::new();
    rmp::encode::write_ext_meta(&mut buf, 3, 42).unwrap();
    buf.extend_from_slice(&[1, 2, 3, 0xff]);
    let mut der = Reader::new(&buf);
    der.pos = 1;
    let back = WithExt::try_read_ext(&mut der, buf[0]).unwrap();
    assert_eq!(back, Some(Ext::new(42, vec![1, 2, 3])));
    assert_eq!(der.pos, 6);
}

#[test]
fn every_extension_marker_is_recognised() {
    for marker in [0xd4u8, 0xd5, 0xd6, 0xd7, 0xd8, 0xc7, 0xc8, 0xc9] {
        let input = [0u8; 0];
        let mut der = Reader::new(&input);
        assert_eq!(WithExt::try_read_ext(&mut der, marker), Err(DecodeError::InvalidDataRead));
        assert_eq!(der.pos, 0);
    }
}

#[test]
fn every_other_marker_is_not_handled() {
    let input = [1u8, 2, 3, 4, 5, 6, 7, 8];
    for marker in 0..=255u8 {
        if matches!(marker, 0xd4..=0xd8 | 0xc7..=0xc9) {
            continue;
        }
        let mut der = Reader::new(&input);
        der.pos = 2;
        assert_eq!(WithExt::try_read_ext(&mut der, marker), Ok(None));
        assert_eq!(der.pos, 2);
    }
}

#[test]
fn string_marker_is_not_handled_and_nothing_is_consumed() {
    let input = [0xa1u8, b'x'];
    let mut der = Reader::new(&input);
    der.pos = 1;
    assert_eq!(WithExt::try_read_ext(&mut der, 0xa1), Ok(None));
    assert_eq!(der.pos, 1);
    assert_eq!(der.bytes, &input[..]);
}

#[test]
fn truncated_extension_is_an_error_not_unhandled() {
    // fixext4 with three payload bytes
    let input = [0xd6u8, 1, 10, 11, 12];
    let mut der = Reader::new(&input);
    der.pos = 1;
    assert_eq!(WithExt::try_read_ext(&mut der, 0xd6), Err(DecodeError::InvalidDataRead));
    assert_eq!(der.pos, 1);
    // ext16 with half a length
    let input = [0xc8u8, 0];
    let mut der = Reader::new(&input);
    der.pos = 1;
    assert_eq!(WithExt::try_read_ext(&mut der, 0xc8), Err(DecodeError::InvalidDataRead));
    // ext8 with a length and no tag
    let input = [0xc7u8, 0];
    let mut der = Reader::new(&input);
    der.pos = 1;
    assert_eq!(WithExt::try_read_ext(&mut der, 0xc7), Err(DecodeError::InvalidDataRead));
    // ext32 whose payload is missing
    let input = [0xc9u8, 0xff, 0xff, 0xff, 0xff, 1, 2];
    let mut der = Reader::new(&input);
    der.pos = 1;
    assert_eq!(WithExt::try_read_ext(&mut der, 0xc9), Err(DecodeError::InvalidDataRead));
    assert_eq!(der.pos, 1);
}

#[test]
fn cursor_past_the_end_reads_nothing() {
    let input = [0xd4u8, 1, 2];
    let mut der = Reader::new(&input);
    der.pos = 10;
    assert_eq!(WithExt::try_read_ext(&mut der, 0xd4), Err(DecodeError::InvalidDataRead));
    assert_eq!(der.pos, 10);
    assert_eq!(WithExt::try_read_ext(&mut der, 0xa0), Ok(None));
    assert_eq!(der.pos, 10);
}

#[test]
fn default_write_ext_writes_nothing() {
    let mut buf = vec![0x01];
    DefaultConfig::write_ext(&mut buf, &Ext::new(1, vec![1, 2, 3])).unwrap();
    assert_eq!(buf, vec![0x01]);
}

#[test]
fn default_try_read_ext_handles_no_marker() {
    let input = [0xd4u8, 1, 2];
    for marker in 0..=255u8 {
        let mut der = Reader::new(&input);
        der.pos = 1;
        assert_eq!(DefaultConfig::try_read_ext(&mut der, marker), Ok(None));
        assert_eq!(der.pos, 1);
    }
}

#[test]
fn wrappers_without_extension_forward_to_default() {
    let ext = Ext::new(1, vec![1]);
    let input = [0xd4u8, 1, 1];
    let mut buf = Vec::new();
    StructMapConfig::<DefaultConfig>::write_ext(&mut buf, &ext).unwrap();
    StructTupleConfig::<DefaultConfig>::write_ext(&mut buf, &ext).unwrap();
    HumanReadableConfig::<DefaultConfig>::write_ext(&mut buf, &ext).unwrap();
    BinaryConfig::<DefaultConfig>::write_ext(&mut buf, &ext).unwrap();
    assert!(buf.is_empty());
    let mut der = Reader::new(&input);
    der.pos = 1;
    assert_eq!(StructMapConfig::<DefaultConfig>::try_read_ext(&mut der, 0xd4), Ok(None));
    assert_eq!(StructTupleConfig::<DefaultConfig>::try_read_ext(&mut der, 0xd4), Ok(None));
    assert_eq!(HumanReadableConfig::<DefaultConfig>::try_read_ext(&mut der, 0xd4), Ok(None));
    assert_eq!(BinaryConfig::<DefaultConfig>::try_read_ext(&mut der, 0xd4), Ok(None));
    assert_eq!(der.pos, 1);
}

#[test]
fn wrappers_over_extension_forward_to_it() {
    type Chain = HumanReadableConfig<StructMapConfig<BinaryConfig<StructTupleConfig<WithExt>>>>;
    let ext = Ext::new(4, vec![1, 2, 3, 4]);
    let (bytes, back, pos) = round_trip::<Chain>(&ext);
    assert_eq!(bytes, vec![0xd6, 4, 1, 2, 3, 4, 0xc0]);
    assert_eq!(back, Some(ext));
    assert_eq!(pos, 6);
}

#[test]
fn extension_wrapper_wins_over_an_inner_one() {
    type Chain = ExtConfig<ExtConfig<DefaultConfig, Vec<u8>>, Vec<u8>>;
    let ext = Ext::new(4, vec![6]);
    let (bytes, back, _) = round_trip::<Chain>(&ext);
    assert_eq!(bytes, vec![0xd4, 4, 6, 0xc0]);
    assert_eq!(back, Some(ext));
}

#[test]
fn ext_write_and_read_without_a_policy() {
    let ext = Ext::new(-2, vec![0xde, 0xad]);
    let mut buf = vec![0xc0];
    ext.write(&mut buf).unwrap();
    assert_eq!(buf, vec![0xc0, 0xd5, 0xfe, 0xde, 0xad]);
    let mut der = Reader::new(&buf);
    der.pos = 2;
    assert_eq!(Ext::read(&mut der, 0xd5), Ok(ext));
    assert_eq!(der.pos, 5);
}

#[test]
fn ext_read_refuses_other_markers() {
    let input = [0xa1u8, b'x'];
    let mut der = Reader::new(&input);
    der.pos = 1;
    assert_eq!(Ext::read(&mut der, 0xa1), Err(DecodeError::TypeMismatch(0xa1)));
    assert_eq!(der.pos, 1);
}

#[test]
fn ext_read_takes_the_length_from_the_marker() {
    // the same bytes under two markers
    let input = [0xffu8, 2, 7, 8, 9];
    let mut der = Reader::new(&input);
    der.pos = 1;
    assert_eq!(Ext::read(&mut der, 0xd5), Ok(Ext::new(2, vec![7, 8])));
    assert_eq!(der.pos, 4);
    let mut der = Reader::new(&input);
    der.pos = 1;
    assert_eq!(Ext::read(&mut der, 0xc7), Ok(Ext::new(7, vec![8, 9])));
    assert_eq!(der.pos, 5);
}

#[test]
fn reader_starts_at_the_first_byte() {
    let input = [1u8, 2, 3];
    let der = Reader::new(&input);
    assert_eq!(der.pos, 0);
    assert_eq!(der.bytes, &input[..]);
}

#[test]
fn append_bytes_keeps_what_is_there() {
    let mut buf = vec![1u8, 2];
    append_bytes(&mut buf, &[3, 4, 5]);
    assert_eq!(buf, vec![1, 2, 3, 4, 5]);
    append_bytes(&mut buf, &[]);
    assert_eq!(buf, vec![1, 2, 3, 4, 5]);
}

#[test]
fn error_messages() {
    assert_eq!(
        EncodeError::InvalidValueWrite(ValueWriteError::InvalidMarkerWrite).message(),
        "invalid marker write"
    );
    assert_eq!(
        EncodeError::InvalidValueWrite(ValueWriteError::InvalidDataWrite).message(),
        "invalid data write"
    );
    assert_eq!(DecodeError::InvalidDataRead.message(), "invalid data read");
    assert_eq!(DecodeError::TypeMismatch(0xa1).message(), "wrong msgpack marker");
}
