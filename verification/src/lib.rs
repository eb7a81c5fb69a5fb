//! Framing and flow control around a native Opus engine.
//!
//! The engines in this crate never touch the native library themselves. Each
//! operation is split into a decision made here and a native call made by the
//! host: the engine hands out a request, the host performs it, and the engine
//! takes the outcome back and says what follows.

pub mod audio;
pub mod control;
pub mod decoder;
pub mod encoder;
pub mod error;
pub mod laws;
pub mod native;
pub mod options;
pub mod queue;
pub mod time;

use crate::control::{
    OPUS_APPLICATION_AUDIO, OPUS_APPLICATION_RESTRICTED_LOWDELAY, OPUS_APPLICATION_VOIP,
};
use vstd::prelude::*;

verus! {

/// Intended use of an encoder.
#[derive(Clone, Copy, Debug, PartialEq, Eq, Structural)]
pub enum Application {
    VoIP,
    Audio,
    LowDelay,
}

impl Application {
    /// The number by which the native engine knows this mode.
    pub open spec fn spec_code(self) -> i32 {
        match self {
            Application::VoIP => OPUS_APPLICATION_VOIP,
            Application::Audio => OPUS_APPLICATION_AUDIO,
            Application::LowDelay => OPUS_APPLICATION_RESTRICTED_LOWDELAY,
        }
    }

    /// The number by which the native engine knows this mode.
    #[verifier::when_used_as_spec(spec_code)]
    pub fn code(self) -> (code: i32)
        ensures
            code == self.spec_code(),
    {
        match self {
            Application::VoIP => OPUS_APPLICATION_VOIP,
            Application::Audio => OPUS_APPLICATION_AUDIO,
            Application::LowDelay => OPUS_APPLICATION_RESTRICTED_LOWDELAY,
        }
    }

    /// The mode that the native engine knows by `code`, if any.
    pub fn from_code(code: i32) -> (mode: Option<Application>)
        ensures
            mode matches Some(m) ==> m.spec_code() == code,
            mode is None ==> forall|m: Application| m.spec_code() != code,
    {
        if code == OPUS_APPLICATION_VOIP {
            Some(Application::VoIP)
        } else if code == OPUS_APPLICATION_AUDIO {
            Some(Application::Audio)
        } else if code == OPUS_APPLICATION_RESTRICTED_LOWDELAY {
            Some(Application::LowDelay)
        } else {
            None
        }
    }
}

/// Which codec a caller asks for.
#[derive(Clone, Copy, Debug, PartialEq, Eq, Structural)]
pub enum CodecId {
    Opus,
    /// Any codec but Opus.
    Other,
}

} // verus!
