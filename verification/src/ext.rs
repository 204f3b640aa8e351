//! The extension envelope: a type tag and a payload of raw bytes, and its
//! wire form.
use vstd::prelude::*;
use crate::error::{DecodeError, EncodeError};
use crate::marker::{classify, is_ext_marker, marker_class, MarkerClass};
use crate::wire::{
    append_bytes, ext_meta_bytes, read_be16, read_be32, write_ext_meta,
};

verus! {

/// An extension value: a small signed type tag and the payload it labels.
#[derive(Clone, Debug, PartialEq, Eq)]
pub struct Ext {
    /// The type tag.
    pub tag: i8,
    /// The payload.
    pub data: Vec<u8>,
}

impl View for Ext {
    type V = (i8, Seq<u8>);

    open spec fn view(&self) -> (i8, Seq<u8>) {
        (self.tag, self.data@)
    }
}

/// A byte source with a cursor. Everything before `pos` has been consumed.
#[derive(Clone, Copy, Debug)]
pub struct Reader<'a> {
    /// The whole input.
    pub bytes: &'a [u8],
    /// Index of the next byte to read.
    pub pos: usize,
}

impl<'a> Reader<'a> {
    /// The bytes not yet consumed; none where the cursor is past the end.
    pub open spec fn remaining(&self) -> Seq<u8> {
        if self.pos <= self.bytes@.len() {
            self.bytes@.subrange(self.pos as int, self.bytes@.len() as int)
        } else {
            Seq::empty()
        }
    }

    /// A reader at the start of `bytes`.
    pub fn new(bytes: &'a [u8]) -> (r: Self)
        ensures
            r.bytes@ == bytes@,
            r.pos == 0,
            r.remaining() == bytes@,
    {
        Reader { bytes, pos: 0 }
    }
}

/// The signed type tag that a wire byte stands for.
pub open spec fn byte_tag(byte: u8) -> i8 {
    if byte < 128 {
        byte as i8
    } else {
        (byte - 256) as i8
    }
}

/// The wire form of an extension value: header, then payload, for a
/// payload that the 32-bit length field of the format can hold.
pub open spec fn ext_bytes(tag: i8, data: Seq<u8>) -> Seq<u8>
    recommends
        data.len() <= u32::MAX,
{
    ext_meta_bytes(data.len() as u32, tag) + data
}

/// The payload length that follows a marker of class `class`, and how many
/// bytes of `rest` spell it out. `None` where `rest` is too short or the
/// class is no extension.
pub open spec fn ext_len_field(class: MarkerClass, rest: Seq<u8>) -> Option<(nat, nat)> {
    match class {
        MarkerClass::FixExt1 => Some((1, 0)),
        MarkerClass::FixExt2 => Some((2, 0)),
        MarkerClass::FixExt4 => Some((4, 0)),
        MarkerClass::FixExt8 => Some((8, 0)),
        MarkerClass::FixExt16 => Some((16, 0)),
        MarkerClass::Ext8 => if rest.len() >= 1 {
            Some((rest[0] as nat, 1))
        } else {
            None
        },
        MarkerClass::Ext16 => if rest.len() >= 2 {
            Some((read_be16(rest, 0), 2))
        } else {
            None
        },
        MarkerClass::Ext32 => if rest.len() >= 4 {
            Some((read_be32(rest, 0), 4))
        } else {
            None
        },
        MarkerClass::Other => None,
    }
}

/// What the bytes after an extension marker decode to: the tag, the
/// payload, and the number of bytes they take. `None` where the marker is
/// no extension marker or `rest` ends too early.
pub open spec fn parse_ext(marker: u8, rest: Seq<u8>) -> Option<(i8, Seq<u8>, nat)> {
    match ext_len_field(marker_class(marker), rest) {
        None => None,
        Some((len, used)) => if rest.len() >= used + 1 + len {
            Some(
                (
                    byte_tag(rest[used as int]),
                    rest.subrange(used + 1 as int, used + 1 + len as int),
                    used + 1 + len,
                ),
            )
        } else {
            None
        },
    }
}

/// Copies `len` bytes of `bytes`, from index `start` on.
fn copy_range(bytes: &[u8], start: usize, len: usize) -> (out: Vec<u8>)
    requires
        start + len <= bytes@.len(),
    ensures
        out@ == bytes@.subrange(start as int, start + len),
{
    let total: usize = bytes.len();
    let mut out: Vec<u8> = Vec::new();
    let mut i: usize = 0;
    while i < len
        invariant
            total == bytes@.len(),
            start + len <= total,
            i <= len,
            out@ == bytes@.subrange(start as int, start + i),
        decreases len - i,
    {
        out.push(bytes[start + i]);
        i += 1;
    }
    out
}

/// The type tag held in one wire byte.
fn tag_of(byte: u8) -> (tag: i8)
    ensures
        tag == byte_tag(byte),
{
    if byte < 128 {
        byte as i8
    } else {
        (byte as i16 - 256) as i8
    }
}

impl Ext {
    /// An extension value of tag `tag` and payload `data`.
    pub fn new(tag: i8, data: Vec<u8>) -> (e: Self)
        ensures
            e@ == (tag, data@),
    {
        Ext { tag, data }
    }

    /// Writes the value in its wire form: the extension header for the
    /// payload's length and the tag, then the payload. The format has no
    /// extension value with a payload of more than `u32::MAX` bytes.
    pub fn write(&self, buf: &mut Vec<u8>) -> (r: Result<(), EncodeError>)
        requires
            self.data@.len() <= u32::MAX,
        ensures
            r is Ok,
            final(buf)@ == old(buf)@ + ext_bytes(self.tag, self.data@),
    {
        match write_ext_meta(buf, self.data.len() as u32, self.tag) {
            Ok(()) => {},
            Err(e) => {
                return Err(EncodeError::InvalidValueWrite(e));
            },
        }
        append_bytes(buf, self.data.as_slice());
        Ok(())
    }

    /// Reads the rest of an extension value whose marker byte `marker` has
    /// just been consumed from `der`: the length where the marker does not
    /// fix it, the tag and the payload. The cursor moves past the value
    /// exactly when it is returned. A marker outside the extension family
    /// is a type mismatch; input that ends too early is a read failure.
    pub fn read(der: &mut Reader<'_>, marker: u8) -> (r: Result<Ext, DecodeError>)
        ensures
            final(der).bytes@ == old(der).bytes@,
            match parse_ext(marker, old(der).remaining()) {
                Some((tag, data, n)) => {
                    &&& r matches Ok(e)
                    &&& e@ == (tag, data)
                    &&& final(der).pos == old(der).pos + n
                },
                None => {
                    &&& final(der).pos == old(der).pos
                    &&& r == Err::<Ext, DecodeError>(
                        if is_ext_marker(marker) {
                            DecodeError::InvalidDataRead
                        } else {
                            DecodeError::TypeMismatch(marker)
                        },
                    )
                },
            },
    {
        let bytes = der.bytes;
        let start: usize = der.pos;
        let total: usize = bytes.len();
        let avail: usize = if start <= total {
            total - start
        } else {
            0
        };
        let ghost rest = der.remaining();
        let class = classify(marker);
        let used: usize = match class {
            MarkerClass::Other => {
                return Err(DecodeError::TypeMismatch(marker));
            },
            MarkerClass::Ext8 => 1,
            MarkerClass::Ext16 => 2,
            MarkerClass::Ext32 => 4,
            _ => 0,
        };
        if avail < used {
            return Err(DecodeError::InvalidDataRead);
        }
        let len32: u32 = match class {
            MarkerClass::FixExt1 => 1,
            MarkerClass::FixExt2 => 2,
            MarkerClass::FixExt4 => 4,
            MarkerClass::FixExt8 => 8,
            MarkerClass::FixExt16 => 16,
            MarkerClass::Ext8 => bytes[start] as u32,
            MarkerClass::Ext16 => {
                let high: u32 = bytes[start] as u32;
                let low: u32 = bytes[start + 1] as u32;
                high * 256 + low
            },
            _ => {
                let b0: u32 = bytes[start] as u32;
                let b1: u32 = bytes[start + 1] as u32;
                let b2: u32 = bytes[start + 2] as u32;
                let b3: u32 = bytes[start + 3] as u32;
                b0 * 16777216 + b1 * 65536 + b2 * 256 + b3
            },
        };
        let len: usize = len32 as usize;
        if avail - used < 1 || avail - used - 1 < len {
            return Err(DecodeError::InvalidDataRead);
        }
        let tag: i8 = tag_of(bytes[start + used]);
        let data: Vec<u8> = copy_range(bytes, start + used + 1, len);
        der.pos = start + used + 1 + len;
        proof {
            assert(rest.subrange(used + 1, used + 1 + len) =~= bytes@.subrange(
                start + used + 1,
                start + used + 1 + len,
            ));
        }
        Ok(Ext { tag, data })
    }
}

} // verus!
