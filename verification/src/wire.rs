//! Byte layouts of the MessagePack headers that the policies emit, and the
//! calls into `rmp` that write them.
//!
//! The sink is a `Vec<u8>`. `rmp` writes into it through std's `Write`,
//! which appends to a vector and never fails, so every write here returns
//! `Ok`; the error values exist because `rmp` reports them for sinks in
//! general.
use vstd::prelude::*;
use vstd::utf8::encode_utf8;
use crate::error::ValueWriteError;

verus! {

/// Two bytes, most significant first.
pub open spec fn be16(n: u16) -> Seq<u8> {
    seq![(n / 256) as u8, (n % 256) as u8]
}

/// Four bytes, most significant first.
pub open spec fn be32(n: u32) -> Seq<u8> {
    seq![
        (n / 16777216) as u8,
        ((n / 65536) % 256) as u8,
        ((n / 256) % 256) as u8,
        (n % 256) as u8,
    ]
}

/// The number that two bytes spell, most significant first.
pub open spec fn read_be16(bytes: Seq<u8>, at: int) -> nat {
    (bytes[at] * 256 + bytes[at + 1]) as nat
}

/// The number that four bytes spell, most significant first.
pub open spec fn read_be32(bytes: Seq<u8>, at: int) -> nat {
    (bytes[at] * 16777216 + bytes[at + 1] * 65536 + bytes[at + 2] * 256 + bytes[at + 3]) as nat
}

/// The wire byte of a signed type tag: its two's complement.
pub open spec fn tag_byte(tag: i8) -> u8 {
    if tag >= 0 {
        tag as u8
    } else {
        (tag + 256) as u8
    }
}

/// A length as the 32-bit field of a header holds it: only the low 32 bits
/// survive.
pub open spec fn low32(len: nat) -> u32 {
    (len % 0x1_0000_0000) as u32
}

/// Header of an array of `len` elements: the shortest of fixarray,
/// array 16 and array 32.
pub open spec fn array_len_bytes(len: u32) -> Seq<u8> {
    if len < 16 {
        seq![(0x90 + len) as u8]
    } else if len <= 0xffff {
        seq![0xdcu8] + be16(len as u16)
    } else {
        seq![0xddu8] + be32(len)
    }
}

/// Header of a map of `len` entries: the shortest of fixmap, map 16 and
/// map 32.
pub open spec fn map_len_bytes(len: u32) -> Seq<u8> {
    if len < 16 {
        seq![(0x80 + len) as u8]
    } else if len <= 0xffff {
        seq![0xdeu8] + be16(len as u16)
    } else {
        seq![0xdfu8] + be32(len)
    }
}

/// Header of a string of `len` bytes: the shortest of fixstr, str 8, str 16
/// and str 32.
pub open spec fn str_len_bytes(len: u32) -> Seq<u8> {
    if len < 32 {
        seq![(0xa0 + len) as u8]
    } else if len < 256 {
        seq![0xd9u8, len as u8]
    } else if len <= 0xffff {
        seq![0xdau8] + be16(len as u16)
    } else {
        seq![0xdbu8] + be32(len)
    }
}

/// A string as `rmp` writes it: the header for the low 32 bits of its
/// UTF-8 length, then its UTF-8 bytes. For a string that fits the format
/// this is the string on the wire.
pub open spec fn str_bytes(s: Seq<char>) -> Seq<u8> {
    let utf8 = encode_utf8(s);
    str_len_bytes(low32(utf8.len())) + utf8
}

/// Header of an extension value with a payload of `len` bytes and type tag
/// `tag`: one of the five fixext markers where the length is 1, 2, 4, 8 or
/// 16, else the shortest of ext 8, ext 16 and ext 32 with the length, and
/// the tag as the last byte.
pub open spec fn ext_meta_bytes(len: u32, tag: i8) -> Seq<u8> {
    let head = if len == 1 {
        seq![0xd4u8]
    } else if len == 2 {
        seq![0xd5u8]
    } else if len == 4 {
        seq![0xd6u8]
    } else if len == 8 {
        seq![0xd7u8]
    } else if len == 16 {
        seq![0xd8u8]
    } else if len < 256 {
        seq![0xc7u8, len as u8]
    } else if len <= 0xffff {
        seq![0xc8u8] + be16(len as u16)
    } else {
        seq![0xc9u8] + be32(len)
    };
    head + seq![tag_byte(tag)]
}

/// Appends `bytes` to `buf`.
pub fn append_bytes(buf: &mut Vec<u8>, bytes: &[u8])
    ensures
        final(buf)@ == old(buf)@ + bytes@,
{
    let n: usize = bytes.len();
    let mut i: usize = 0;
    while i < n
        invariant
            n == bytes@.len(),
            i <= n,
            buf@ == old(buf)@ + bytes@.subrange(0, i as int),
        decreases n - i,
    {
        buf.push(bytes[i]);
        i += 1;
    }
}

/// `rmp::encode::write_array_len` into a `Vec<u8>`. The contract claims that
/// the call appends the array header of `len` and nothing else, and that it
/// succeeds.
#[verifier::external_body]
pub(crate) fn write_array_len(buf: &mut Vec<u8>, len: u32) -> (r: Result<(), ValueWriteError>)
    ensures
        r is Ok,
        final(buf)@ == old(buf)@ + array_len_bytes(len),
{
    match rmp::encode::write_array_len(buf, len) {
        Ok(_) => Ok(()),
        Err(rmp::encode::ValueWriteError::InvalidMarkerWrite(_)) => Err(ValueWriteError::InvalidMarkerWrite),
        Err(rmp::encode::ValueWriteError::InvalidDataWrite(_)) => Err(ValueWriteError::InvalidDataWrite),
    }
}

/// `rmp::encode::write_map_len` into a `Vec<u8>`. The contract claims that
/// the call appends the map header of `len` and nothing else, and that it
/// succeeds.
#[verifier::external_body]
pub(crate) fn write_map_len(buf: &mut Vec<u8>, len: u32) -> (r: Result<(), ValueWriteError>)
    ensures
        r is Ok,
        final(buf)@ == old(buf)@ + map_len_bytes(len),
{
    match rmp::encode::write_map_len(buf, len) {
        Ok(_) => Ok(()),
        Err(rmp::encode::ValueWriteError::InvalidMarkerWrite(_)) => Err(ValueWriteError::InvalidMarkerWrite),
        Err(rmp::encode::ValueWriteError::InvalidDataWrite(_)) => Err(ValueWriteError::InvalidDataWrite),
    }
}

/// `rmp::encode::write_str` into a `Vec<u8>`. The contract claims that the
/// call appends the string header of the UTF-8 length, cut to 32 bits, and
/// then every UTF-8 byte of `data`, and that it succeeds.
#[verifier::external_body]
pub(crate) fn write_str(buf: &mut Vec<u8>, data: &str) -> (r: Result<(), ValueWriteError>)
    ensures
        r is Ok,
        final(buf)@ == old(buf)@ + str_bytes(data@),
{
    match rmp::encode::write_str(buf, data) {
        Ok(_) => Ok(()),
        Err(rmp::encode::ValueWriteError::InvalidMarkerWrite(_)) => Err(ValueWriteError::InvalidMarkerWrite),
        Err(rmp::encode::ValueWriteError::InvalidDataWrite(_)) => Err(ValueWriteError::InvalidDataWrite),
    }
}

/// `rmp::encode::write_ext_meta` into a `Vec<u8>`. The contract claims that
/// the call takes every tag, negative ones too, appends the extension
/// header of `len` and `tag` and nothing else, and that it succeeds.
#[verifier::external_body]
pub(crate) fn write_ext_meta(buf: &mut Vec<u8>, len: u32, tag: i8) -> (r: Result<(), ValueWriteError>)
    ensures
        r is Ok,
        final(buf)@ == old(buf)@ + ext_meta_bytes(len, tag),
{
    match rmp::encode::write_ext_meta(buf, len, tag) {
        Ok(_) => Ok(()),
        Err(rmp::encode::ValueWriteError::InvalidMarkerWrite(_)) => Err(ValueWriteError::InvalidMarkerWrite),
        Err(rmp::encode::ValueWriteError::InvalidDataWrite(_)) => Err(ValueWriteError::InvalidDataWrite),
    }
}

} // verus!
