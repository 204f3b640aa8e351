//! Classification of wire markers.
use vstd::prelude::*;

verus! {

/// What a marker byte announces, as far as extension handling cares.
#[derive(Clone, Copy, Debug, PartialEq, Eq, Structural)]
pub enum MarkerClass {
    /// Extension with a payload of one byte.
    FixExt1,
    /// Extension with a payload of two bytes.
    FixExt2,
    /// Extension with a payload of four bytes.
    FixExt4,
    /// Extension with a payload of eight bytes.
    FixExt8,
    /// Extension with a payload of sixteen bytes.
    FixExt16,
    /// Extension whose payload length follows in one byte.
    Ext8,
    /// Extension whose payload length follows in two bytes.
    Ext16,
    /// Extension whose payload length follows in four bytes.
    Ext32,
    /// Any marker outside the extension family.
    Other,
}

/// The class of each marker byte.
pub open spec fn marker_class(byte: u8) -> MarkerClass {
    if byte == 0xd4 {
        MarkerClass::FixExt1
    } else if byte == 0xd5 {
        MarkerClass::FixExt2
    } else if byte == 0xd6 {
        MarkerClass::FixExt4
    } else if byte == 0xd7 {
        MarkerClass::FixExt8
    } else if byte == 0xd8 {
        MarkerClass::FixExt16
    } else if byte == 0xc7 {
        MarkerClass::Ext8
    } else if byte == 0xc8 {
        MarkerClass::Ext16
    } else if byte == 0xc9 {
        MarkerClass::Ext32
    } else {
        MarkerClass::Other
    }
}

/// Whether a marker byte opens an extension value.
pub open spec fn is_ext_marker(byte: u8) -> bool {
    marker_class(byte) != MarkerClass::Other
}

/// `rmp::Marker::from_u8`, with the variant it returns told apart. The
/// contract claims that the eight extension markers are the bytes `0xd4` to
/// `0xd8` and `0xc7` to `0xc9`, and that every other byte decodes to a
/// marker outside the extension family.
#[verifier::external_body]
pub(crate) fn classify(byte: u8) -> (class: MarkerClass)
    ensures
        class == marker_class(byte),
{
    match rmp::Marker::from_u8(byte) {
        rmp::Marker::FixExt1 => MarkerClass::FixExt1,
        rmp::Marker::FixExt2 => MarkerClass::FixExt2,
        rmp::Marker::FixExt4 => MarkerClass::FixExt4,
        rmp::Marker::FixExt8 => MarkerClass::FixExt8,
        rmp::Marker::FixExt16 => MarkerClass::FixExt16,
        rmp::Marker::Ext8 => MarkerClass::Ext8,
        rmp::Marker::Ext16 => MarkerClass::Ext16,
        rmp::Marker::Ext32 => MarkerClass::Ext32,
        _ => MarkerClass::Other,
    }
}

} // verus!
