use vstd::prelude::*;

verus! {

/// Why a call on an engine did not produce what was asked for.
///
/// The four `*Failed` variants carry the status that the native engine
/// returned; rendering it as text is left to the host.
#[derive(Clone, Copy, Debug, PartialEq, Eq, Structural)]
pub enum CodecError {
    /// A required configuration field is missing or out of range.
    InvalidParameter,
    /// The codec id names a codec other than Opus.
    UnsupportedCodec,
    /// The option key is not one the engine knows.
    UnsupportedOption,
    /// The sample format is neither 16-bit integer nor 32-bit float.
    UnsupportedFormat,
    /// Output that borrows from the engine is never offered.
    BorrowedOutputUnsupported,
    /// The frame duration is not one of the nine the codec defines.
    InvalidFrameDuration,
    /// The native engine could not be created.
    CreationFailed(i32),
    /// The native encoder rejected a chunk.
    EncodeFailed(i32),
    /// The native decoder rejected a packet.
    DecodeFailed(i32),
    /// The native engine rejected a control request.
    SetFailed(i32),
    /// Nothing is queued yet: feed more input and ask again.
    Again,
    /// A destination buffer could not be written.
    NotWritable,
    /// A source buffer could not be read.
    NotReadable,
}

impl CodecError {
    /// The native status behind this error, where there is one.
    pub open spec fn spec_native_status(self) -> Option<i32> {
        match self {
            CodecError::CreationFailed(status) => Some(status),
            CodecError::EncodeFailed(status) => Some(status),
            CodecError::DecodeFailed(status) => Some(status),
            CodecError::SetFailed(status) => Some(status),
            _ => None,
        }
    }

    /// The native status behind this error, where there is one.
    #[verifier::when_used_as_spec(spec_native_status)]
    pub fn native_status(self) -> (status: Option<i32>)
        ensures
            status == self.spec_native_status(),
    {
        match self {
            CodecError::CreationFailed(status) => Some(status),
            CodecError::EncodeFailed(status) => Some(status),
            CodecError::DecodeFailed(status) => Some(status),
            CodecError::SetFailed(status) => Some(status),
            _ => None,
        }
    }

    /// Whether this is one of the "not supported" outcomes.
    pub open spec fn spec_is_unsupported(self) -> bool {
        self == CodecError::UnsupportedCodec || self == CodecError::UnsupportedOption
            || self == CodecError::UnsupportedFormat || self
            == CodecError::BorrowedOutputUnsupported
    }

    /// Whether this is one of the "not supported" outcomes.
    #[verifier::when_used_as_spec(spec_is_unsupported)]
    pub fn is_unsupported(self) -> (b: bool)
        ensures
            b == self.spec_is_unsupported(),
    {
        match self {
            CodecError::UnsupportedCodec => true,
            CodecError::UnsupportedOption => true,
            CodecError::UnsupportedFormat => true,
            CodecError::BorrowedOutputUnsupported => true,
            _ => false,
        }
    }
}

} // verus!
