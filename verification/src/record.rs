//! Records as the hooks lay them out, and how a decoder takes them apart
//! again.
use vstd::prelude::*;
use vstd::utf8::{decode_utf8, valid_utf8};
use crate::config::{
    fits_str, struct_field_bytes, struct_len_bytes, SerializerConfig, StructShape,
};
use crate::error::EncodeError;
use crate::wire::{read_be16, read_be32};

verus! {

/// A field as it is handed to the hooks: its name, and the bytes its value
/// encodes to.
pub type Field = (Seq<char>, Seq<u8>);

/// A field as a decoder recovers it: the name where the record was a map,
/// and the bytes of the value.
pub type DecodedField = (Option<Seq<char>>, Seq<u8>);

/// The fields of a record, one after the other.
pub open spec fn fields_bytes(shape: StructShape, fields: Seq<Field>) -> Seq<u8>
    decreases fields.len(),
{
    if fields.len() == 0 {
        Seq::empty()
    } else {
        struct_field_bytes(shape, fields[0].0, fields[0].1) + fields_bytes(shape, fields.skip(1))
    }
}

/// A whole record: the header for the number of fields, then every field
/// in declaration order.
pub open spec fn record_bytes(shape: StructShape, fields: Seq<Field>) -> Seq<u8> {
    struct_len_bytes(shape, fields.len()) + fields_bytes(shape, fields)
}

/// What a decoder can recover of `fields`: every value in order, and the
/// names only where the record is a map.
pub open spec fn decoded_fields(shape: StructShape, fields: Seq<Field>) -> Seq<DecodedField>
    decreases fields.len(),
{
    if fields.len() == 0 {
        Seq::empty()
    } else {
        let name = match shape {
            StructShape::Tuple => None,
            StructShape::Keyed => Some(fields[0].0),
        };
        seq![(name, fields[0].1)] + decoded_fields(shape, fields.skip(1))
    }
}

/// Reads a record header: the shape it announces, the number of fields,
/// and the length of the header itself.
pub open spec fn parse_struct_len(bytes: Seq<u8>) -> Option<(StructShape, nat, nat)> {
    if bytes.len() == 0 {
        None
    } else if 0x90 <= bytes[0] <= 0x9f {
        Some((StructShape::Tuple, (bytes[0] - 0x90) as nat, 1))
    } else if 0x80 <= bytes[0] <= 0x8f {
        Some((StructShape::Keyed, (bytes[0] - 0x80) as nat, 1))
    } else if bytes[0] == 0xdc && bytes.len() >= 3 {
        Some((StructShape::Tuple, read_be16(bytes, 1), 3))
    } else if bytes[0] == 0xdd && bytes.len() >= 5 {
        Some((StructShape::Tuple, read_be32(bytes, 1), 5))
    } else if bytes[0] == 0xde && bytes.len() >= 3 {
        Some((StructShape::Keyed, read_be16(bytes, 1), 3))
    } else if bytes[0] == 0xdf && bytes.len() >= 5 {
        Some((StructShape::Keyed, read_be32(bytes, 1), 5))
    } else {
        None
    }
}

/// Reads a string header: the length of the string in bytes, and the
/// length of the header itself.
pub open spec fn parse_str_len(bytes: Seq<u8>) -> Option<(nat, nat)> {
    if bytes.len() == 0 {
        None
    } else if 0xa0 <= bytes[0] <= 0xbf {
        Some(((bytes[0] - 0xa0) as nat, 1))
    } else if bytes[0] == 0xd9 && bytes.len() >= 2 {
        Some((bytes[1] as nat, 2))
    } else if bytes[0] == 0xda && bytes.len() >= 3 {
        Some((read_be16(bytes, 1), 3))
    } else if bytes[0] == 0xdb && bytes.len() >= 5 {
        Some((read_be32(bytes, 1), 5))
    } else {
        None
    }
}

/// Reads a string: its text, and the number of bytes it takes.
pub open spec fn parse_str(bytes: Seq<u8>) -> Option<(Seq<char>, nat)> {
    match parse_str_len(bytes) {
        None => None,
        Some((len, used)) => {
            let text = bytes.subrange(used as int, (used + len) as int);
            if bytes.len() >= used + len && valid_utf8(text) {
                Some((decode_utf8(text), used + len))
            } else {
                None
            }
        },
    }
}

/// Reads `count` fields. `frame` tells where the encoded value at the
/// start of an input ends. The result holds the fields and the number of
/// bytes they take.
pub open spec fn parse_fields(
    shape: StructShape,
    bytes: Seq<u8>,
    count: nat,
    frame: spec_fn(Seq<u8>) -> Option<nat>,
) -> Option<(Seq<DecodedField>, nat)>
    decreases count,
{
    if count == 0 {
        Some((Seq::empty(), 0))
    } else {
        let name: Option<(Option<Seq<char>>, nat)> = match shape {
            StructShape::Tuple => Some((None, 0)),
            StructShape::Keyed => match parse_str(bytes) {
                Some((text, used)) => Some((Some(text), used)),
                None => None,
            },
        };
        match name {
            None => None,
            Some((name, at)) => match frame(bytes.skip(at as int)) {
                None => None,
                Some(len) => if at + len <= bytes.len() {
                    match parse_fields(shape, bytes.skip((at + len) as int), (count - 1) as nat, frame) {
                        None => None,
                        Some((others, used)) => Some(
                            (
                                seq![(name, bytes.subrange(at as int, (at + len) as int))] + others,
                                at + len + used,
                            ),
                        ),
                    }
                } else {
                    None
                },
            },
        }
    }
}

/// Reads a record: the shape its header announces, its fields, and the
/// number of bytes it takes.
pub open spec fn parse_record(bytes: Seq<u8>, frame: spec_fn(Seq<u8>) -> Option<nat>) -> Option<
    (StructShape, Seq<DecodedField>, nat),
> {
    match parse_struct_len(bytes) {
        None => None,
        Some((shape, count, used)) => match parse_fields(
            shape,
            bytes.skip(used as int),
            count,
            frame,
        ) {
            None => None,
            Some((fields, more)) => Some((shape, fields, used + more)),
        },
    }
}

/// The fields that a slice of names and encoded values stands for.
pub open spec fn fields_of(fields: Seq<(&str, &[u8])>) -> Seq<Field> {
    Seq::new(fields.len(), |i: int| (fields[i].0@, fields[i].1@))
}

/// One more field at the end of a record adds its bytes at the end.
pub proof fn fields_bytes_push(shape: StructShape, fields: Seq<Field>, last: Field)
    ensures
        fields_bytes(shape, fields.push(last)) == fields_bytes(shape, fields) + struct_field_bytes(
            shape,
            last.0,
            last.1,
        ),
    decreases fields.len(),
{
    let longer = fields.push(last);
    if fields.len() == 0 {
        assert(longer.skip(1) =~= Seq::<Field>::empty());
        assert(fields_bytes(shape, longer.skip(1)) =~= Seq::<u8>::empty());
        assert(fields_bytes(shape, longer) =~= struct_field_bytes(shape, last.0, last.1));
    } else {
        assert(longer.skip(1) =~= fields.skip(1).push(last));
        fields_bytes_push(shape, fields.skip(1), last);
        assert(fields_bytes(shape, longer) =~= fields_bytes(shape, fields) + struct_field_bytes(
            shape,
            last.0,
            last.1,
        ));
    }
}

/// Writes a record the way a codec drives the hooks of the policy `C`: the
/// header for the number of fields, then one field after the other, each
/// given by its name and the bytes its value encodes to. The number of
/// fields, and each name that the policy writes, have to fit the 32-bit
/// length fields of the format.
pub fn write_struct<C: SerializerConfig>(buf: &mut Vec<u8>, fields: &[(&str, &[u8])]) -> (r: Result<
    (),
    EncodeError,
>)
    requires
        fields@.len() <= u32::MAX,
        C::struct_shape() == StructShape::Keyed ==> forall|i: int|
            0 <= i < fields@.len() ==> fits_str(#[trigger] fields@[i].0@),
    ensures
        r is Ok,
        final(buf)@ == old(buf)@ + record_bytes(C::struct_shape(), fields_of(fields@)),
{
    let count: usize = fields.len();
    let ghost all = fields_of(fields@);
    let ghost shape = C::struct_shape();
    match C::write_struct_len(buf, count) {
        Ok(()) => {},
        Err(e) => {
            return Err(e);
        },
    }
    let mut i: usize = 0;
    proof {
        assert(all.take(0) =~= Seq::<Field>::empty());
    }
    while i < count
        invariant
            count == fields@.len(),
            count <= u32::MAX,
            C::struct_shape() == StructShape::Keyed ==> forall|j: int|
                0 <= j < fields@.len() ==> fits_str(#[trigger] fields@[j].0@),
            all == fields_of(fields@),
            shape == C::struct_shape(),
            i <= count,
            buf@ == old(buf)@ + struct_len_bytes(shape, count as nat) + fields_bytes(
                shape,
                all.take(i as int),
            ),
        decreases count - i,
    {
        let (key, value) = fields[i];
        let ghost before = buf@;
        match C::write_struct_field(buf, key, value) {
            Ok(()) => {},
            Err(e) => {
                return Err(e);
            },
        }
        proof {
            assert(all.take(i + 1) =~= all.take(i as int).push(all[i as int]));
            fields_bytes_push(shape, all.take(i as int), all[i as int]);
            assert(buf@ =~= old(buf)@ + struct_len_bytes(shape, count as nat) + fields_bytes(
                shape,
                all.take(i + 1),
            ));
        }
        i += 1;
    }
    proof {
        assert(all.take(count as int) =~= all);
        assert(buf@ =~= old(buf)@ + record_bytes(shape, all));
    }
    Ok(())
}

} // verus!
