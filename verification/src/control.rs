use crate::error::CodecError;
use vstd::prelude::*;

verus! {

/// The status with which the native engine reports success.
pub const OPUS_OK: i32 = 0;

/// Sets the encoder's target bit rate.
pub const OPUS_SET_BITRATE_REQUEST: i32 = 4002;

/// Caps the bandwidth the encoder may choose.
pub const OPUS_SET_MAX_BANDWIDTH_REQUEST: i32 = 4004;

/// Turns variable bit rate on or off.
pub const OPUS_SET_VBR_REQUEST: i32 = 4006;

/// Sets the encoder's computational effort, 0 to 10.
pub const OPUS_SET_COMPLEXITY_REQUEST: i32 = 4010;

/// Turns in-band forward error correction on or off.
pub const OPUS_SET_INBAND_FEC_REQUEST: i32 = 4012;

/// Tells the encoder what share of packets to expect lost, in percent.
pub const OPUS_SET_PACKET_LOSS_PERC_REQUEST: i32 = 4014;

/// Turns the constraint on variable bit rate on or off.
pub const OPUS_SET_VBR_CONSTRAINT_REQUEST: i32 = 4020;

/// Makes an engine forget the stream so far. Takes no argument.
pub const OPUS_RESET_STATE: i32 = 4028;

/// Sets the decoder's output gain.
pub const OPUS_SET_GAIN_REQUEST: i32 = 4034;

/// The application mode for speech.
pub const OPUS_APPLICATION_VOIP: i32 = 2048;

/// The application mode for general audio.
pub const OPUS_APPLICATION_AUDIO: i32 = 2049;

/// The application mode with the least delay.
pub const OPUS_APPLICATION_RESTRICTED_LOWDELAY: i32 = 2051;

/// One control request for the host to issue on the native engine.
///
/// `value` is the request's integer argument; a request that takes none
/// carries `None`.
#[derive(Clone, Copy, Debug, PartialEq, Eq, Structural)]
pub struct ControlCall {
    pub request: i32,
    pub value: Option<i32>,
}

impl ControlCall {
    /// A request with one integer argument.
    pub open spec fn spec_set(request: i32, value: i32) -> ControlCall {
        ControlCall { request, value: Some(value) }
    }

    /// A request with one integer argument.
    #[verifier::when_used_as_spec(spec_set)]
    pub fn set(request: i32, value: i32) -> (call: ControlCall)
        ensures
            call == Self::spec_set(request, value),
    {
        ControlCall { request, value: Some(value) }
    }
}

/// The value given for an option: a boolean or an integer.
#[derive(Clone, Copy, Debug, PartialEq, Eq, Structural)]
pub enum OptionValue {
    Bool(bool),
    Int(i32),
}

impl OptionValue {
    /// The value as the integer that the engine is given: a boolean counts
    /// as 0 or 1.
    pub open spec fn spec_as_int(self) -> i32 {
        match self {
            OptionValue::Bool(b) => if b {
                1
            } else {
                0
            },
            OptionValue::Int(i) => i,
        }
    }

    /// The value as the integer that the engine is given.
    #[verifier::when_used_as_spec(spec_as_int)]
    pub fn as_int(self) -> (i: i32)
        ensures
            i == self.spec_as_int(),
    {
        match self {
            OptionValue::Bool(b) => if b {
                1
            } else {
                0
            },
            OptionValue::Int(i) => i,
        }
    }
}

/// `0` or `1` for a flag.
pub open spec fn spec_flag(b: bool) -> i32 {
    if b {
        1
    } else {
        0
    }
}

/// `0` or `1` for a flag.
#[verifier::when_used_as_spec(spec_flag)]
pub fn flag(b: bool) -> (i: i32)
    ensures
        i == spec_flag(b),
{
    if b {
        1
    } else {
        0
    }
}

/// What the status of a control request means for the call that issued it.
pub open spec fn spec_control_status(status: i32) -> Result<(), CodecError> {
    if status == OPUS_OK {
        Ok(())
    } else {
        Err(CodecError::SetFailed(status))
    }
}

/// What the status of a control request means for the call that issued
/// it: anything but `OPUS_OK` fails the call.
#[verifier::when_used_as_spec(spec_control_status)]
pub fn control_status(status: i32) -> (r: Result<(), CodecError>)
    ensures
        r == spec_control_status(status),
{
    if status == OPUS_OK {
        Ok(())
    } else {
        Err(CodecError::SetFailed(status))
    }
}

/// What the outcome of creating the native engine means for construction.
pub open spec fn spec_creation_status(has_handle: bool, status: i32) -> Result<(), CodecError> {
    if has_handle && status == OPUS_OK {
        Ok(())
    } else {
        Err(CodecError::CreationFailed(status))
    }
}

/// What the outcome of creating the native engine means for construction:
/// it fails unless a handle came back and the status is `OPUS_OK`.
#[verifier::when_used_as_spec(spec_creation_status)]
pub fn creation_status(has_handle: bool, status: i32) -> (r: Result<(), CodecError>)
    ensures
        r == spec_creation_status(has_handle, status),
{
    if has_handle && status == OPUS_OK {
        Ok(())
    } else {
        Err(CodecError::CreationFailed(status))
    }
}

/// `str`'s `PartialEq::eq`: two string slices are equal when they hold the
/// same characters in the same order.
#[verifier::external_body]
pub(crate) fn same_text(a: &str, b: &str) -> (r: bool)
    ensures
        r == (a@ == b@),
{
    a == b
}

} // verus!
