//! Error values of the encoding and decoding hooks.
use vstd::prelude::*;

verus! {

/// Which part of a multi-byte value the sink refused.
#[derive(Clone, Copy, Debug, PartialEq, Eq, Structural)]
pub enum ValueWriteError {
    /// The marker byte could not be written.
    InvalidMarkerWrite,
    /// The bytes after the marker could not be written.
    InvalidDataWrite,
}

/// Failure of an encoding hook.
#[derive(Clone, Copy, Debug, PartialEq, Eq, Structural)]
pub enum EncodeError {
    /// The byte sink failed while a value was written.
    InvalidValueWrite(ValueWriteError),
}

/// Failure of a decoding hook.
#[derive(Clone, Copy, Debug, PartialEq, Eq, Structural)]
pub enum DecodeError {
    /// The marker, held here as its byte, does not open the expected value.
    TypeMismatch(u8),
    /// The input ended before the value was complete.
    InvalidDataRead,
}

impl EncodeError {
    /// A short description of the failure.
    pub fn message(&self) -> (s: &'static str)
        ensures
            s@ == encode_error_text(*self),
    {
        match self {
            EncodeError::InvalidValueWrite(ValueWriteError::InvalidMarkerWrite) => "invalid marker write",
            EncodeError::InvalidValueWrite(ValueWriteError::InvalidDataWrite) => "invalid data write",
        }
    }
}

impl DecodeError {
    /// A short description of the failure.
    pub fn message(&self) -> (s: &'static str)
        ensures
            s@ == decode_error_text(*self),
    {
        match self {
            DecodeError::TypeMismatch(_) => "wrong msgpack marker",
            DecodeError::InvalidDataRead => "invalid data read",
        }
    }
}

/// The text that [`EncodeError::message`] returns.
pub open spec fn encode_error_text(e: EncodeError) -> Seq<char> {
    match e {
        EncodeError::InvalidValueWrite(ValueWriteError::InvalidMarkerWrite) => "invalid marker write"@,
        EncodeError::InvalidValueWrite(ValueWriteError::InvalidDataWrite) => "invalid data write"@,
    }
}

/// The text that [`DecodeError::message`] returns.
pub open spec fn decode_error_text(e: DecodeError) -> Seq<char> {
    match e {
        DecodeError::TypeMismatch(_) => "wrong msgpack marker"@,
        DecodeError::InvalidDataRead => "invalid data read"@,
    }
}

} // verus!
