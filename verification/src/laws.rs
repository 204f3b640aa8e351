//! What holds of every policy and of every chain of wrappers.
use vstd::prelude::*;
use crate::config::{
    ext_read_result, fits_str, struct_len_bytes, BinaryConfig, DefaultConfig, ExtConfig,
    HumanReadableConfig, SerializerConfig, StructMapConfig, StructShape, StructTupleConfig,
};
use crate::error::DecodeError;
use crate::ext::{byte_tag, ext_bytes, parse_ext, Ext};
use crate::marker::is_ext_marker;
use crate::record::{
    decoded_fields, fields_bytes, parse_fields, parse_record, parse_str, parse_str_len,
    parse_struct_len, record_bytes, Field,
};
use crate::wire::{ext_meta_bytes, low32, str_bytes, str_len_bytes, tag_byte};
use vstd::utf8::{encode_utf8, encode_utf8_decode_utf8, encode_utf8_valid_utf8};

verus! {

/// The outermost shape wrapper decides the record shape, whatever it wraps.
pub proof fn outer_shape_wins<C: SerializerConfig>()
    ensures
        StructMapConfig::<C>::struct_shape() == StructShape::Keyed,
        StructTupleConfig::<C>::struct_shape() == StructShape::Tuple,
        StructMapConfig::<StructTupleConfig<C>>::struct_shape() == StructShape::Keyed,
        StructTupleConfig::<StructMapConfig<C>>::struct_shape() == StructShape::Tuple,
{
}

/// The outermost mode wrapper decides the mode, whatever it wraps.
pub proof fn outer_mode_wins<C: SerializerConfig>()
    ensures
        HumanReadableConfig::<C>::human_readable(),
        !BinaryConfig::<C>::human_readable(),
        !BinaryConfig::<HumanReadableConfig<C>>::human_readable(),
        HumanReadableConfig::<BinaryConfig<C>>::human_readable(),
{
}

/// The default policy is compact, lays records out as tuples and leaves
/// extension values alone.
pub proof fn default_is_compact()
    ensures
        DefaultConfig::struct_shape() == StructShape::Tuple,
        !DefaultConfig::human_readable(),
        !DefaultConfig::handles_ext(),
{
}

/// A shape wrapper changes nothing but the record shape.
pub proof fn shape_wrappers_forward<C: SerializerConfig>(variant_index: u32, variant: Seq<char>)
    ensures
        StructMapConfig::<C>::human_readable() == C::human_readable(),
        StructMapConfig::<C>::handles_ext() == C::handles_ext(),
        StructMapConfig::<C>::variant_ident_bytes(variant_index, variant) == C::variant_ident_bytes(
            variant_index,
            variant,
        ),
        StructTupleConfig::<C>::human_readable() == C::human_readable(),
        StructTupleConfig::<C>::handles_ext() == C::handles_ext(),
        StructTupleConfig::<C>::variant_ident_bytes(variant_index, variant)
            == C::variant_ident_bytes(variant_index, variant),
{
}

/// A mode wrapper changes nothing but the mode.
pub proof fn mode_wrappers_forward<C: SerializerConfig>(variant_index: u32, variant: Seq<char>)
    ensures
        HumanReadableConfig::<C>::struct_shape() == C::struct_shape(),
        HumanReadableConfig::<C>::handles_ext() == C::handles_ext(),
        HumanReadableConfig::<C>::variant_ident_bytes(variant_index, variant)
            == C::variant_ident_bytes(variant_index, variant),
        BinaryConfig::<C>::struct_shape() == C::struct_shape(),
        BinaryConfig::<C>::handles_ext() == C::handles_ext(),
        BinaryConfig::<C>::variant_ident_bytes(variant_index, variant) == C::variant_ident_bytes(
            variant_index,
            variant,
        ),
{
}

/// The extension wrapper handles extensions and changes nothing else.
pub proof fn ext_wrapper_forwards<C: SerializerConfig, B>(variant_index: u32, variant: Seq<char>)
    ensures
        ExtConfig::<C, B>::handles_ext(),
        ExtConfig::<C, B>::struct_shape() == C::struct_shape(),
        ExtConfig::<C, B>::human_readable() == C::human_readable(),
        ExtConfig::<C, B>::variant_ident_bytes(variant_index, variant) == C::variant_ident_bytes(
            variant_index,
            variant,
        ),
{
}

/// A type tag survives its wire byte.
pub proof fn tag_round_trip(tag: i8)
    ensures
        byte_tag(tag_byte(tag)) == tag,
{
}

/// Reading back what was written: the wire form of an extension value
/// starts with an extension marker, and the bytes after that marker,
/// whatever follows them, decode to the tag and the payload and take up
/// the rest of the wire form exactly. The payload's length has to fit the
/// 32-bit length field.
pub proof fn ext_round_trip(tag: i8, data: Seq<u8>, tail: Seq<u8>)
    requires
        data.len() <= u32::MAX,
    ensures
        ext_bytes(tag, data).len() >= 2,
        is_ext_marker(ext_bytes(tag, data)[0]),
        parse_ext(ext_bytes(tag, data)[0], ext_bytes(tag, data).skip(1) + tail) == Some(
            (tag, data, (ext_bytes(tag, data).len() - 1) as nat),
        ),
{
    let len = data.len() as u32;
    let meta = ext_meta_bytes(len, tag);
    let wire = ext_bytes(tag, data);
    let rest = wire.skip(1) + tail;
    let used: int = meta.len() - 2;
    tag_round_trip(tag);
    assert(wire[0] == meta[0]);
    assert(rest[used] == tag_byte(tag));
    assert(rest.subrange(used + 1, used + 1 + len) =~= data);
    if len > 0xffff {
        assert(rest[0] == (len / 16777216) as u8);
        assert(rest[1] == ((len / 65536) % 256) as u8);
        assert(rest[2] == ((len / 256) % 256) as u8);
        assert(rest[3] == (len % 256) as u8);
    } else if len >= 256 {
        assert(rest[0] == ((len as u16) / 256) as u8);
        assert(rest[1] == ((len as u16) % 256) as u8);
    } else if !(len == 1 || len == 2 || len == 4 || len == 8 || len == 16) {
        assert(rest[0] == len as u8);
    }
}

/// A policy that handles extensions reads back the value it wrote: on the
/// bytes that `write_ext` appends for `(tag, data)`, with the marker
/// consumed, `try_read_ext` returns that value as handled and moves the
/// cursor to the end of it.
pub proof fn ext_hooks_round_trip<C: SerializerConfig>(
    tag: i8,
    data: Seq<u8>,
    tail: Seq<u8>,
    r: Result<Option<Ext>, DecodeError>,
    advance: int,
)
    requires
        C::handles_ext(),
        data.len() <= u32::MAX,
        ext_read_result(
            C::handles_ext(),
            ext_bytes(tag, data)[0],
            ext_bytes(tag, data).skip(1) + tail,
            r,
            advance,
        ),
    ensures
        r matches Ok(Some(e)) && e@ == (tag, data),
        advance == ext_bytes(tag, data).len() - 1,
{
    ext_round_trip(tag, data, tail);
}

/// A marker outside the extension family is never handled, under any
/// policy: the result is `Ok(None)` and the cursor does not move.
pub proof fn other_marker_not_handled<C: SerializerConfig>(
    marker: u8,
    rest: Seq<u8>,
    r: Result<Option<Ext>, DecodeError>,
    advance: int,
)
    requires
        !is_ext_marker(marker),
        ext_read_result(C::handles_ext(), marker, rest, r, advance),
    ensures
        r == Ok::<Option<Ext>, DecodeError>(None),
        advance == 0,
{
}

/// The default policy handles no extension value: `write_ext` appends
/// nothing, and `try_read_ext` returns `Ok(None)` for every marker and
/// leaves the cursor where it was.
pub proof fn default_ext_hooks_do_nothing(
    marker: u8,
    rest: Seq<u8>,
    r: Result<Option<Ext>, DecodeError>,
    advance: int,
)
    requires
        ext_read_result(DefaultConfig::handles_ext(), marker, rest, r, advance),
    ensures
        !DefaultConfig::handles_ext(),
        r == Ok::<Option<Ext>, DecodeError>(None),
        advance == 0,
{
}

/// A record header reads back as the shape and the number of fields it was
/// written for, whatever follows it. The number has to fit the 32-bit
/// length field.
pub proof fn struct_len_round_trip(shape: StructShape, len: nat, tail: Seq<u8>)
    requires
        len <= u32::MAX,
    ensures
        parse_struct_len(struct_len_bytes(shape, len) + tail) == Some(
            (shape, len, struct_len_bytes(shape, len).len()),
        ),
{
    let head = struct_len_bytes(shape, len);
    let bytes = head + tail;
    let n = len as u32;
    assert(bytes[0] == head[0]);
    if n > 0xffff {
        assert(bytes[1] == (n / 16777216) as u8);
        assert(bytes[2] == ((n / 65536) % 256) as u8);
        assert(bytes[3] == ((n / 256) % 256) as u8);
        assert(bytes[4] == (n % 256) as u8);
    } else if n >= 16 {
        assert(bytes[1] == ((n as u16) / 256) as u8);
        assert(bytes[2] == ((n as u16) % 256) as u8);
    }
}

/// A string reads back as the text it was written for, whatever follows
/// it. Its UTF-8 length has to fit the 32-bit length field.
pub proof fn str_round_trip(text: Seq<char>, tail: Seq<u8>)
    requires
        fits_str(text),
    ensures
        parse_str(str_bytes(text) + tail) == Some((text, str_bytes(text).len())),
{
    let utf8 = encode_utf8(text);
    let n = low32(utf8.len());
    assert(n == utf8.len());
    let head = str_len_bytes(n);
    let bytes = str_bytes(text) + tail;
    assert(bytes[0] == head[0]);
    if n > 0xffff {
        assert(bytes[1] == (n / 16777216) as u8);
        assert(bytes[2] == ((n / 65536) % 256) as u8);
        assert(bytes[3] == ((n / 256) % 256) as u8);
        assert(bytes[4] == (n % 256) as u8);
    } else if n >= 256 {
        assert(bytes[1] == ((n as u16) / 256) as u8);
        assert(bytes[2] == ((n as u16) % 256) as u8);
    } else if n >= 32 {
        assert(bytes[1] == n as u8);
    }
    assert(parse_str_len(bytes) == Some((n as nat, head.len())));
    assert(bytes.subrange(head.len() as int, head.len() + n) =~= utf8);
    encode_utf8_valid_utf8(text);
    encode_utf8_decode_utf8(text);
}

/// The fields of a record read back in the order they were written, with
/// their names where the record is a map and without them where it is a
/// tuple, whatever follows them. Values are opaque to the hooks, so the law
/// asks that `frame` finds the end of each value that was written; names
/// have to fit the 32-bit length field.
pub proof fn fields_round_trip(
    shape: StructShape,
    fields: Seq<Field>,
    frame: spec_fn(Seq<u8>) -> Option<nat>,
    tail: Seq<u8>,
)
    requires
        forall|i: int, after: Seq<u8>|
            0 <= i < fields.len() ==> #[trigger] frame(fields[i].1 + after) == Some(
                fields[i].1.len(),
            ),
        shape == StructShape::Keyed ==> forall|i: int|
            0 <= i < fields.len() ==> fits_str(#[trigger] fields[i].0),
    ensures
        parse_fields(shape, fields_bytes(shape, fields) + tail, fields.len(), frame) == Some(
            (decoded_fields(shape, fields), fields_bytes(shape, fields).len()),
        ),
    decreases fields.len(),
{
    if fields.len() > 0 {
        let others = fields.skip(1);
        let value = fields[0].1;
        let after = fields_bytes(shape, others) + tail;
        let bytes = fields_bytes(shape, fields) + tail;
        let at: nat = match shape {
            StructShape::Tuple => 0,
            StructShape::Keyed => str_bytes(fields[0].0).len(),
        };
        if shape == StructShape::Keyed {
            assert(bytes =~= str_bytes(fields[0].0) + (value + after));
            str_round_trip(fields[0].0, value + after);
        }
        assert(bytes.skip(at as int) =~= value + after);
        assert(frame(value + after) == Some(value.len()));
        assert(bytes.skip((at + value.len()) as int) =~= after);
        assert(bytes.subrange(at as int, (at + value.len()) as int) =~= value);
        assert forall|i: int, more: Seq<u8>| 0 <= i < others.len() implies #[trigger] frame(
            others[i].1 + more,
        ) == Some(others[i].1.len()) by {
            assert(others[i] == fields[i + 1]);
            assert(frame(fields[i + 1].1 + more) == Some(fields[i + 1].1.len()));
        }
        if shape == StructShape::Keyed {
            assert forall|i: int| 0 <= i < others.len() implies fits_str(
                #[trigger] others[i].0,
            ) by {
                assert(others[i] == fields[i + 1]);
            }
        }
        fields_round_trip(shape, others, frame, tail);
        assert(fields.len() - 1 == others.len());
    }
}

/// Writing a record and reading it back: the header for the number of
/// fields followed by the fields, as the hooks of a policy of shape `shape`
/// write them, decodes to that shape and to the fields that were written:
/// every value in declaration order, under its name where the record is a
/// map and without a name where it is a tuple. Values are opaque to the
/// hooks, so the law asks that `frame` finds the end of each value that was
/// written; the number of fields and the names have to fit the 32-bit
/// length fields.
pub proof fn record_round_trip(
    shape: StructShape,
    fields: Seq<Field>,
    frame: spec_fn(Seq<u8>) -> Option<nat>,
    tail: Seq<u8>,
)
    requires
        fields.len() <= u32::MAX,
        forall|i: int, after: Seq<u8>|
            0 <= i < fields.len() ==> #[trigger] frame(fields[i].1 + after) == Some(
                fields[i].1.len(),
            ),
        shape == StructShape::Keyed ==> forall|i: int|
            0 <= i < fields.len() ==> fits_str(#[trigger] fields[i].0),
    ensures
        parse_record(record_bytes(shape, fields) + tail, frame) == Some(
            (shape, decoded_fields(shape, fields), record_bytes(shape, fields).len()),
        ),
{
    let head = struct_len_bytes(shape, fields.len());
    let body = fields_bytes(shape, fields);
    let bytes = record_bytes(shape, fields) + tail;
    assert(bytes =~= head + (body + tail));
    struct_len_round_trip(shape, fields.len(), body + tail);
    assert(bytes.skip(head.len() as int) =~= body + tail);
    fields_round_trip(shape, fields, frame, tail);
}

/// A tuple-shaped record does not depend on the names of its fields: two
/// records with the same values in the same order have the same bytes.
pub proof fn tuple_shape_forgets_names(first: Seq<Field>, second: Seq<Field>)
    requires
        first.len() == second.len(),
        forall|i: int| 0 <= i < first.len() ==> first[i].1 == second[i].1,
    ensures
        record_bytes(StructShape::Tuple, first) == record_bytes(StructShape::Tuple, second),
{
    tuple_fields_forget_names(first, second);
}

/// The fields of a tuple-shaped record do not depend on their names.
pub proof fn tuple_fields_forget_names(first: Seq<Field>, second: Seq<Field>)
    requires
        first.len() == second.len(),
        forall|i: int| 0 <= i < first.len() ==> first[i].1 == second[i].1,
    ensures
        fields_bytes(StructShape::Tuple, first) == fields_bytes(StructShape::Tuple, second),
    decreases first.len(),
{
    if first.len() > 0 {
        assert forall|i: int| 0 <= i < first.skip(1).len() implies first.skip(1)[i].1
            == second.skip(1)[i].1 by {
            assert(first.skip(1)[i] == first[i + 1]);
            assert(second.skip(1)[i] == second[i + 1]);
        }
        tuple_fields_forget_names(first.skip(1), second.skip(1));
    }
}

} // verus!
