//! Encoding policies and the wrappers that change them.
//!
//! A policy is a type; its hooks are associated functions. [`DefaultConfig`]
//! is the leaf. Every other policy wraps an inner policy, answers the hooks
//! it is about and forwards the rest to the policy it wraps, so the
//! outermost wrapper that answers a hook decides it.
use core::marker::PhantomData;
use vstd::prelude::*;
use vstd::utf8::encode_utf8;
use crate::error::{DecodeError, EncodeError};
use crate::ext::{ext_bytes, parse_ext, Ext, Reader};
use crate::marker::{classify, is_ext_marker, MarkerClass};
use crate::sealed::Sealed;
use crate::wire::{
    append_bytes, array_len_bytes, map_len_bytes, str_bytes, write_array_len, write_map_len,
    write_str,
};

verus! {

/// How a record is laid out.
pub enum StructShape {
    /// An array of the field values, in declaration order.
    Tuple,
    /// A map from each field's name to its value.
    Keyed,
}

/// The header that opens a record of `len` fields, for a `len` that the
/// 32-bit length field of the format can hold.
pub open spec fn struct_len_bytes(shape: StructShape, len: nat) -> Seq<u8>
    recommends
        len <= u32::MAX,
{
    match shape {
        StructShape::Tuple => array_len_bytes(len as u32),
        StructShape::Keyed => map_len_bytes(len as u32),
    }
}

/// Whether a string's UTF-8 form fits the 32-bit length field of the
/// format.
pub open spec fn fits_str(text: Seq<char>) -> bool {
    encode_utf8(text).len() <= u32::MAX
}

/// One field of a record: the encoded value, after the field's name as a
/// string where the record is a map.
pub open spec fn struct_field_bytes(shape: StructShape, key: Seq<char>, value: Seq<u8>) -> Seq<u8> {
    match shape {
        StructShape::Tuple => value,
        StructShape::Keyed => str_bytes(key) + value,
    }
}

/// The hooks that a codec consults while it walks a value. Every hook is a
/// function of the policy type and the arguments alone. Only the policies
/// of this crate implement the trait.
pub trait SerializerConfig: Copy + Sealed {
    /// The layout of records under this policy.
    spec fn struct_shape() -> StructShape;

    /// The bytes that identify an enum variant under this policy.
    spec fn variant_ident_bytes(variant_index: u32, variant: Seq<char>) -> Seq<u8>;

    /// Whether this policy runs the codec in human-readable mode.
    spec fn human_readable() -> bool;

    /// Whether this policy writes and reads extension values itself.
    spec fn handles_ext() -> bool;

    /// Opens a record of exactly `len` fields. The format has no header
    /// for more than `u32::MAX` fields.
    fn write_struct_len(buf: &mut Vec<u8>, len: usize) -> (r: Result<(), EncodeError>)
        requires
            len <= u32::MAX,
        ensures
            r is Ok,
            final(buf)@ == old(buf)@ + struct_len_bytes(Self::struct_shape(), len as nat),
    ;

    /// Writes one field of a record, given the field's name and the bytes
    /// its value encodes to. Where the policy writes the name, the name has
    /// to fit a string of the format.
    fn write_struct_field(buf: &mut Vec<u8>, key: &str, value: &[u8]) -> (r: Result<
        (),
        EncodeError,
    >)
        requires
            Self::struct_shape() == StructShape::Keyed ==> fits_str(key@),
        ensures
            r is Ok,
            final(buf)@ == old(buf)@ + struct_field_bytes(Self::struct_shape(), key@, value@),
    ;

    /// Writes the identifier of an enum variant, given its index and name.
    /// The name has to fit a string of the format.
    fn write_variant_ident(buf: &mut Vec<u8>, variant_index: u32, variant: &str) -> (r: Result<
        (),
        EncodeError,
    >)
        requires
            fits_str(variant@),
        ensures
            r is Ok,
            final(buf)@ == old(buf)@ + Self::variant_ident_bytes(variant_index, variant@),
    ;

    /// Whether types with two encodings take the legible one.
    fn is_human_readable() -> (r: bool)
        ensures
            r == Self::human_readable(),
    ;

    /// Writes `ext` as an extension value where the policy handles
    /// extensions, and writes nothing where it does not. A payload that is
    /// written has to fit the 32-bit length field of the format.
    fn write_ext(buf: &mut Vec<u8>, ext: &Ext) -> (r: Result<(), EncodeError>)
        requires
            Self::handles_ext() ==> ext.data@.len() <= u32::MAX,
        ensures
            r is Ok,
            final(buf)@ == old(buf)@ + (if Self::handles_ext() {
                ext_bytes(ext.tag, ext.data@)
            } else {
                Seq::<u8>::empty()
            }),
    ;

    /// Reads an extension value whose marker byte `marker` has just been
    /// consumed from `der`. Where the policy does not handle extensions, or
    /// the marker is none of the eight extension markers, the value is not
    /// handled: the result is `Ok(None)` and the cursor stays. Otherwise
    /// the value is read and returned; input that ends inside it is an
    /// error, and the cursor stays.
    fn try_read_ext(der: &mut Reader<'_>, marker: u8) -> (r: Result<Option<Ext>, DecodeError>)
        ensures
            final(der).bytes@ == old(der).bytes@,
            ext_read_result(
                Self::handles_ext(),
                marker,
                old(der).remaining(),
                r,
                final(der).pos - old(der).pos,
            ),
    ;
}

/// What [`SerializerConfig::try_read_ext`] returns, and how far it moves
/// the cursor, for a marker and the input after it.
pub open spec fn ext_read_result(
    handled: bool,
    marker: u8,
    rest: Seq<u8>,
    r: Result<Option<Ext>, DecodeError>,
    advance: int,
) -> bool {
    if handled && is_ext_marker(marker) {
        match parse_ext(marker, rest) {
            Some((tag, data, n)) => {
                &&& r matches Ok(Some(e))
                &&& e@ == (tag, data)
                &&& advance == n
            },
            None => {
                &&& r == Err::<Option<Ext>, DecodeError>(DecodeError::InvalidDataRead)
                &&& advance == 0
            },
        }
    } else {
        &&& r == Ok::<Option<Ext>, DecodeError>(None)
        &&& advance == 0
    }
}

/// The default policy: records are tuples without field names, enum
/// variants are identified by name, the mode is compact, and extension
/// values are not handled. This is the most compact representation.
#[derive(Clone, Copy, Debug)]
pub struct DefaultConfig;

impl Sealed for DefaultConfig {

}

impl SerializerConfig for DefaultConfig {
    open spec fn struct_shape() -> StructShape {
        StructShape::Tuple
    }

    open spec fn variant_ident_bytes(variant_index: u32, variant: Seq<char>) -> Seq<u8> {
        str_bytes(variant)
    }

    open spec fn human_readable() -> bool {
        false
    }

    open spec fn handles_ext() -> bool {
        false
    }

    fn write_struct_len(buf: &mut Vec<u8>, len: usize) -> (r: Result<(), EncodeError>) {
        match write_array_len(buf, len as u32) {
            Ok(()) => Ok(()),
            Err(e) => Err(EncodeError::InvalidValueWrite(e)),
        }
    }

    fn write_struct_field(buf: &mut Vec<u8>, key: &str, value: &[u8]) -> (r: Result<
        (),
        EncodeError,
    >) {
        append_bytes(buf, value);
        Ok(())
    }

    fn write_variant_ident(buf: &mut Vec<u8>, variant_index: u32, variant: &str) -> (r: Result<
        (),
        EncodeError,
    >) {
        match write_str(buf, variant) {
            Ok(()) => Ok(()),
            Err(e) => Err(EncodeError::InvalidValueWrite(e)),
        }
    }

    fn is_human_readable() -> (r: bool) {
        false
    }

    fn write_ext(buf: &mut Vec<u8>, ext: &Ext) -> (r: Result<(), EncodeError>) {
        Ok(())
    }

    fn try_read_ext(der: &mut Reader<'_>, marker: u8) -> (r: Result<Option<Ext>, DecodeError>) {
        Ok(None)
    }
}

/// Policy wrapper that lays records out as maps with field names.
#[derive(Clone, Copy, Debug)]
pub struct StructMapConfig<C>(C);

impl<C> StructMapConfig<C> {
    /// The wrapped policy.
    pub closed spec fn inner(self) -> C {
        self.0
    }

    /// A policy that takes every unchanged option from `inner`.
    pub fn new(inner: C) -> (r: Self)
        ensures
            r.inner() == inner,
    {
        StructMapConfig(inner)
    }
}

impl<C: SerializerConfig> Sealed for StructMapConfig<C> {

}

impl<C: SerializerConfig> SerializerConfig for StructMapConfig<C> {
    open spec fn struct_shape() -> StructShape {
        StructShape::Keyed
    }

    open spec fn variant_ident_bytes(variant_index: u32, variant: Seq<char>) -> Seq<u8> {
        C::variant_ident_bytes(variant_index, variant)
    }

    open spec fn human_readable() -> bool {
        C::human_readable()
    }

    open spec fn handles_ext() -> bool {
        C::handles_ext()
    }

    fn write_struct_len(buf: &mut Vec<u8>, len: usize) -> (r: Result<(), EncodeError>) {
        match write_map_len(buf, len as u32) {
            Ok(()) => Ok(()),
            Err(e) => Err(EncodeError::InvalidValueWrite(e)),
        }
    }

    fn write_struct_field(buf: &mut Vec<u8>, key: &str, value: &[u8]) -> (r: Result<
        (),
        EncodeError,
    >) {
        match write_str(buf, key) {
            Ok(()) => {},
            Err(e) => {
                return Err(EncodeError::InvalidValueWrite(e));
            },
        }
        append_bytes(buf, value);
        proof {
            assert(buf@ =~= old(buf)@ + (str_bytes(key@) + value@));
        }
        Ok(())
    }

    fn write_variant_ident(buf: &mut Vec<u8>, variant_index: u32, variant: &str) -> (r: Result<
        (),
        EncodeError,
    >) {
        C::write_variant_ident(buf, variant_index, variant)
    }

    fn is_human_readable() -> (r: bool) {
        C::is_human_readable()
    }

    fn write_ext(buf: &mut Vec<u8>, ext: &Ext) -> (r: Result<(), EncodeError>) {
        C::write_ext(buf, ext)
    }

    fn try_read_ext(der: &mut Reader<'_>, marker: u8) -> (r: Result<Option<Ext>, DecodeError>) {
        C::try_read_ext(der, marker)
    }
}

/// Policy wrapper that lays records out as tuples without field names.
#[derive(Clone, Copy, Debug)]
pub struct StructTupleConfig<C>(C);

impl<C> StructTupleConfig<C> {
    /// The wrapped policy.
    pub closed spec fn inner(self) -> C {
        self.0
    }

    /// A policy that takes every unchanged option from `inner`.
    pub fn new(inner: C) -> (r: Self)
        ensures
            r.inner() == inner,
    {
        StructTupleConfig(inner)
    }
}

impl<C: SerializerConfig> Sealed for StructTupleConfig<C> {

}

impl<C: SerializerConfig> SerializerConfig for StructTupleConfig<C> {
    open spec fn struct_shape() -> StructShape {
        StructShape::Tuple
    }

    open spec fn variant_ident_bytes(variant_index: u32, variant: Seq<char>) -> Seq<u8> {
        C::variant_ident_bytes(variant_index, variant)
    }

    open spec fn human_readable() -> bool {
        C::human_readable()
    }

    open spec fn handles_ext() -> bool {
        C::handles_ext()
    }

    fn write_struct_len(buf: &mut Vec<u8>, len: usize) -> (r: Result<(), EncodeError>) {
        match write_array_len(buf, len as u32) {
            Ok(()) => Ok(()),
            Err(e) => Err(EncodeError::InvalidValueWrite(e)),
        }
    }

    fn write_struct_field(buf: &mut Vec<u8>, key: &str, value: &[u8]) -> (r: Result<
        (),
        EncodeError,
    >) {
        append_bytes(buf, value);
        Ok(())
    }

    fn write_variant_ident(buf: &mut Vec<u8>, variant_index: u32, variant: &str) -> (r: Result<
        (),
        EncodeError,
    >) {
        C::write_variant_ident(buf, variant_index, variant)
    }

    fn is_human_readable() -> (r: bool) {
        C::is_human_readable()
    }

    fn write_ext(buf: &mut Vec<u8>, ext: &Ext) -> (r: Result<(), EncodeError>) {
        C::write_ext(buf, ext)
    }

    fn try_read_ext(der: &mut Reader<'_>, marker: u8) -> (r: Result<Option<Ext>, DecodeError>) {
        C::try_read_ext(der, marker)
    }
}

/// Policy wrapper that turns human-readable mode on.
#[derive(Clone, Copy, Debug)]
pub struct HumanReadableConfig<C>(C);

impl<C> HumanReadableConfig<C> {
    /// The wrapped policy.
    pub closed spec fn inner(self) -> C {
        self.0
    }

    /// A policy that takes every unchanged option from `inner`.
    pub fn new(inner: C) -> (r: Self)
        ensures
            r.inner() == inner,
    {
        HumanReadableConfig(inner)
    }
}

impl<C: SerializerConfig> Sealed for HumanReadableConfig<C> {

}

impl<C: SerializerConfig> SerializerConfig for HumanReadableConfig<C> {
    open spec fn struct_shape() -> StructShape {
        C::struct_shape()
    }

    open spec fn variant_ident_bytes(variant_index: u32, variant: Seq<char>) -> Seq<u8> {
        C::variant_ident_bytes(variant_index, variant)
    }

    open spec fn human_readable() -> bool {
        true
    }

    open spec fn handles_ext() -> bool {
        C::handles_ext()
    }

    fn write_struct_len(buf: &mut Vec<u8>, len: usize) -> (r: Result<(), EncodeError>) {
        C::write_struct_len(buf, len)
    }

    fn write_struct_field(buf: &mut Vec<u8>, key: &str, value: &[u8]) -> (r: Result<
        (),
        EncodeError,
    >) {
        C::write_struct_field(buf, key, value)
    }

    fn write_variant_ident(buf: &mut Vec<u8>, variant_index: u32, variant: &str) -> (r: Result<
        (),
        EncodeError,
    >) {
        C::write_variant_ident(buf, variant_index, variant)
    }

    fn is_human_readable() -> (r: bool) {
        true
    }

    fn write_ext(buf: &mut Vec<u8>, ext: &Ext) -> (r: Result<(), EncodeError>) {
        C::write_ext(buf, ext)
    }

    fn try_read_ext(der: &mut Reader<'_>, marker: u8) -> (r: Result<Option<Ext>, DecodeError>) {
        C::try_read_ext(der, marker)
    }
}

/// Policy wrapper that turns human-readable mode off.
#[derive(Clone, Copy, Debug)]
pub struct BinaryConfig<C>(C);

impl<C> BinaryConfig<C> {
    /// The wrapped policy.
    pub closed spec fn inner(self) -> C {
        self.0
    }

    /// A policy that takes every unchanged option from `inner`.
    pub fn new(inner: C) -> (r: Self)
        ensures
            r.inner() == inner,
    {
        BinaryConfig(inner)
    }
}

impl<C: SerializerConfig> Sealed for BinaryConfig<C> {

}

impl<C: SerializerConfig> SerializerConfig for BinaryConfig<C> {
    open spec fn struct_shape() -> StructShape {
        C::struct_shape()
    }

    open spec fn variant_ident_bytes(variant_index: u32, variant: Seq<char>) -> Seq<u8> {
        C::variant_ident_bytes(variant_index, variant)
    }

    open spec fn human_readable() -> bool {
        false
    }

    open spec fn handles_ext() -> bool {
        C::handles_ext()
    }

    fn write_struct_len(buf: &mut Vec<u8>, len: usize) -> (r: Result<(), EncodeError>) {
        C::write_struct_len(buf, len)
    }

    fn write_struct_field(buf: &mut Vec<u8>, key: &str, value: &[u8]) -> (r: Result<
        (),
        EncodeError,
    >) {
        C::write_struct_field(buf, key, value)
    }

    fn write_variant_ident(buf: &mut Vec<u8>, variant_index: u32, variant: &str) -> (r: Result<
        (),
        EncodeError,
    >) {
        C::write_variant_ident(buf, variant_index, variant)
    }

    fn is_human_readable() -> (r: bool) {
        false
    }

    fn write_ext(buf: &mut Vec<u8>, ext: &Ext) -> (r: Result<(), EncodeError>) {
        C::write_ext(buf, ext)
    }

    fn try_read_ext(der: &mut Reader<'_>, marker: u8) -> (r: Result<Option<Ext>, DecodeError>) {
        C::try_read_ext(der, marker)
    }
}

/// Policy wrapper that writes and reads extension values. `B` names the
/// payload type that the codec hands over as bytes.
#[derive(Debug)]
pub struct ExtConfig<C, B>(C, PhantomData<B>);

impl<C, B> ExtConfig<C, B> {
    /// The wrapped policy.
    pub closed spec fn inner(self) -> C {
        self.0
    }

    /// A policy that takes every unchanged option from `inner`.
    pub fn new(inner: C) -> (r: Self)
        ensures
            r.inner() == inner,
    {
        ExtConfig(inner, PhantomData)
    }
}

impl<C: Copy, B> Copy for ExtConfig<C, B> {

}

impl<C: Clone, B> Clone for ExtConfig<C, B> {
    fn clone(&self) -> (r: Self)
        ensures
            cloned::<C>(self.inner(), r.inner()),
    {
        ExtConfig(self.0.clone(), PhantomData)
    }
}

impl<C: SerializerConfig, B> Sealed for ExtConfig<C, B> {

}

impl<C: SerializerConfig, B> SerializerConfig for ExtConfig<C, B> {
    open spec fn struct_shape() -> StructShape {
        C::struct_shape()
    }

    open spec fn variant_ident_bytes(variant_index: u32, variant: Seq<char>) -> Seq<u8> {
        C::variant_ident_bytes(variant_index, variant)
    }

    open spec fn human_readable() -> bool {
        C::human_readable()
    }

    open spec fn handles_ext() -> bool {
        true
    }

    fn write_struct_len(buf: &mut Vec<u8>, len: usize) -> (r: Result<(), EncodeError>) {
        C::write_struct_len(buf, len)
    }

    fn write_struct_field(buf: &mut Vec<u8>, key: &str, value: &[u8]) -> (r: Result<
        (),
        EncodeError,
    >) {
        C::write_struct_field(buf, key, value)
    }

    fn write_variant_ident(buf: &mut Vec<u8>, variant_index: u32, variant: &str) -> (r: Result<
        (),
        EncodeError,
    >) {
        C::write_variant_ident(buf, variant_index, variant)
    }

    fn is_human_readable() -> (r: bool) {
        C::is_human_readable()
    }

    fn write_ext(buf: &mut Vec<u8>, ext: &Ext) -> (r: Result<(), EncodeError>) {
        ext.write(buf)
    }

    fn try_read_ext(der: &mut Reader<'_>, marker: u8) -> (r: Result<Option<Ext>, DecodeError>) {
        let class = classify(marker);
        if matches!(
            class,
            MarkerClass::FixExt1 | MarkerClass::FixExt2 | MarkerClass::FixExt4
                | MarkerClass::FixExt8 | MarkerClass::FixExt16 | MarkerClass::Ext8
                | MarkerClass::Ext16 | MarkerClass::Ext32
        ) {
            return match Ext::read(der, marker) {
                Ok(ext) => Ok(Some(ext)),
                Err(e) => Err(e),
            };
        }
        Ok(None)
    }
}

} // verus!
