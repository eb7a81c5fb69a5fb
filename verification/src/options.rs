use crate::control::{
    flag, same_text, spec_flag, ControlCall, OPUS_APPLICATION_AUDIO, OPUS_SET_BITRATE_REQUEST,
    OPUS_SET_COMPLEXITY_REQUEST, OPUS_SET_INBAND_FEC_REQUEST, OPUS_SET_MAX_BANDWIDTH_REQUEST,
    OPUS_SET_PACKET_LOSS_PERC_REQUEST, OPUS_SET_VBR_CONSTRAINT_REQUEST, OPUS_SET_VBR_REQUEST,
};
use vstd::prelude::*;

verus! {

/// The sample rate at which the codec's frame sizes are defined.
pub const CANONICAL_SAMPLE_RATE: u32 = 48000;

/// The frame duration used where none is asked for, in microseconds.
pub const DEFAULT_FRAME_DURATION_US: u32 = 20000;

/// The samples that a frame of `duration_us` microseconds holds at 48 kHz,
/// rounded down.
pub open spec fn spec_canonical_samples(duration_us: u32) -> u32 {
    (duration_us * 48 / 1000) as u32
}

/// The samples that a frame of `duration_us` microseconds holds at 48 kHz,
/// rounded down.
#[verifier::when_used_as_spec(spec_canonical_samples)]
pub fn canonical_samples(duration_us: u32) -> (n: u32)
    ensures
        n == spec_canonical_samples(duration_us),
        n == duration_us * 48 / 1000,
{
    let n: u64 = duration_us as u64 * 48 / 1000;
    n as u32
}

/// Whether `samples` is the 48 kHz size of one of the nine frame durations
/// the codec defines: 2.5, 5, 10, 20, 40, 60, 80, 100 or 120 ms.
pub open spec fn spec_is_legal_frame(samples: u32) -> bool {
    samples == 120 || samples == 240 || samples == 480 || samples == 960 || samples == 1920
        || samples == 2880 || samples == 3840 || samples == 4800 || samples == 5760
}

/// Whether `samples` is the 48 kHz size of one of the nine frame durations
/// the codec defines.
#[verifier::when_used_as_spec(spec_is_legal_frame)]
pub fn is_legal_frame(samples: u32) -> (legal: bool)
    ensures
        legal == spec_is_legal_frame(samples),
{
    samples == 120 || samples == 240 || samples == 480 || samples == 960 || samples == 1920
        || samples == 2880 || samples == 3840 || samples == 4800 || samples == 5760
}

/// Whether `samples` is the 48 kHz size of a frame duration that only the
/// low-delay mode can encode: 2.5 or 5 ms.
pub open spec fn spec_needs_low_delay(samples: u32) -> bool {
    samples == 120 || samples == 240
}

/// Whether `samples` is the 48 kHz size of a frame duration that only the
/// low-delay mode can encode.
#[verifier::when_used_as_spec(spec_needs_low_delay)]
pub fn needs_low_delay(samples: u32) -> (needed: bool)
    ensures
        needed == spec_needs_low_delay(samples),
{
    samples == 120 || samples == 240
}

/// A 48 kHz sample count scaled to `sample_rate`, rounded down.
pub open spec fn spec_scaled_samples(canonical: u32, sample_rate: u32) -> u64 {
    (canonical * sample_rate / 48000) as u64
}

/// A 48 kHz sample count scaled to `sample_rate`, rounded down.
#[verifier::when_used_as_spec(spec_scaled_samples)]
pub fn scaled_samples(canonical: u32, sample_rate: u32) -> (n: u64)
    ensures
        n == spec_scaled_samples(canonical, sample_rate),
        n == canonical * sample_rate / 48000,
{
    assert(canonical * sample_rate <= 0xffff_ffff * 0xffff_ffff) by (nonlinear_arith)
        requires
            0 <= canonical <= 0xffff_ffff,
            0 <= sample_rate <= 0xffff_ffff,
    ;
    canonical as u64 * sample_rate as u64 / CANONICAL_SAMPLE_RATE as u64
}

/// Encoder options as a caller gives them: each one may be left out.
#[derive(Clone, Copy, Debug, PartialEq, Eq, Structural)]
pub struct OptionSet {
    pub application: Option<i32>,
    /// Frame duration in microseconds.
    pub frame_duration_us: Option<u32>,
    pub packet_loss: Option<i32>,
    pub fec: Option<bool>,
    pub vbr: Option<u32>,
    pub max_bandwidth: Option<u32>,
    pub complexity: Option<u32>,
}

/// The options an encoder runs with.
#[derive(Clone, Copy, Debug, PartialEq, Eq, Structural)]
pub struct OpusOptions {
    /// The application mode, as the native engine numbers it.
    pub application: i32,
    /// Frame duration in microseconds.
    pub frame_duration_us: u32,
    /// Samples per channel in one chunk.
    pub frame_size: u32,
    /// Expected packet loss, in percent.
    pub packet_loss: i32,
    pub fec: bool,
    /// 0 for constant bit rate, 1 for variable, 2 for constrained variable.
    pub vbr: u32,
    /// The bandwidth cap, or 0 for none.
    pub max_bandwidth: u32,
    pub complexity: u32,
}

/// The set of options behind an optional reference.
pub open spec fn spec_given(options: Option<&OptionSet>) -> Option<OptionSet> {
    match options {
        Some(set) => Some(*set),
        None => None,
    }
}

impl OpusOptions {
    /// The options of an encoder that was given none.
    pub open spec fn spec_default() -> OpusOptions {
        OpusOptions {
            application: OPUS_APPLICATION_AUDIO,
            frame_duration_us: 20000,
            frame_size: 960,
            packet_loss: 0,
            fec: false,
            vbr: 1,
            max_bandwidth: 0,
            complexity: 10,
        }
    }

    /// The options that `given` asks for, with the default wherever it is
    /// silent. The frame size is the one the duration has at 48 kHz.
    pub open spec fn spec_from_options(given: Option<OptionSet>) -> OpusOptions {
        match given {
            Some(set) => {
                let duration = match set.frame_duration_us {
                    Some(us) => us,
                    None => 20000,
                };
                OpusOptions {
                    application: match set.application {
                        Some(application) => application,
                        None => OPUS_APPLICATION_AUDIO,
                    },
                    frame_duration_us: duration,
                    frame_size: spec_canonical_samples(duration),
                    packet_loss: match set.packet_loss {
                        Some(packet_loss) => packet_loss,
                        None => 0,
                    },
                    fec: match set.fec {
                        Some(fec) => fec,
                        None => false,
                    },
                    vbr: match set.vbr {
                        Some(vbr) => vbr,
                        None => 1,
                    },
                    max_bandwidth: match set.max_bandwidth {
                        Some(max_bandwidth) => max_bandwidth,
                        None => 0,
                    },
                    complexity: match set.complexity {
                        Some(complexity) => complexity,
                        None => 10,
                    },
                }
            },
            None => Self::spec_default(),
        }
    }

    /// The options that `given` asks for, with the default wherever it is
    /// silent.
    pub fn from_options(given: Option<&OptionSet>) -> (options: OpusOptions)
        ensures
            options == Self::spec_from_options(spec_given(given)),
    {
        match given {
            Some(set) => {
                let duration = match set.frame_duration_us {
                    Some(us) => us,
                    None => DEFAULT_FRAME_DURATION_US,
                };
                OpusOptions {
                    application: match set.application {
                        Some(application) => application,
                        None => OPUS_APPLICATION_AUDIO,
                    },
                    frame_duration_us: duration,
                    frame_size: canonical_samples(duration),
                    packet_loss: match set.packet_loss {
                        Some(packet_loss) => packet_loss,
                        None => 0,
                    },
                    fec: match set.fec {
                        Some(fec) => fec,
                        None => false,
                    },
                    vbr: match set.vbr {
                        Some(vbr) => vbr,
                        None => 1,
                    },
                    max_bandwidth: match set.max_bandwidth {
                        Some(max_bandwidth) => max_bandwidth,
                        None => 0,
                    },
                    complexity: match set.complexity {
                        Some(complexity) => complexity,
                        None => 10,
                    },
                }
            },
            None => OpusOptions::default(),
        }
    }

    /// The control requests that bring a native encoder in line with these
    /// options, in the order they are to be issued.
    pub open spec fn spec_controls(self) -> Seq<ControlCall> {
        let fixed = seq![
            ControlCall::spec_set(OPUS_SET_VBR_REQUEST, spec_flag(self.vbr > 0)),
            ControlCall::spec_set(OPUS_SET_VBR_CONSTRAINT_REQUEST, spec_flag(self.vbr == 2)),
            ControlCall::spec_set(OPUS_SET_PACKET_LOSS_PERC_REQUEST, self.packet_loss),
            ControlCall::spec_set(OPUS_SET_INBAND_FEC_REQUEST, spec_flag(self.fec)),
        ];
        let with_complexity = if self.complexity > 0 {
            fixed.push(ControlCall::spec_set(OPUS_SET_COMPLEXITY_REQUEST, self.complexity as i32))
        } else {
            fixed
        };
        if self.max_bandwidth > 0 {
            with_complexity.push(
                ControlCall::spec_set(OPUS_SET_MAX_BANDWIDTH_REQUEST, self.max_bandwidth as i32),
            )
        } else {
            with_complexity
        }
    }

    /// The control requests that bring a native encoder in line with these
    /// options, in the order they are to be issued.
    ///
    /// A complexity or a bandwidth cap of 0 is not sent: the engine keeps
    /// its own.
    pub fn controls(&self) -> (calls: Vec<ControlCall>)
        ensures
            calls@ == self.spec_controls(),
    {
        let mut calls: Vec<ControlCall> = Vec::new();
        calls.push(ControlCall::set(OPUS_SET_VBR_REQUEST, flag(self.vbr > 0)));
        calls.push(ControlCall::set(OPUS_SET_VBR_CONSTRAINT_REQUEST, flag(self.vbr == 2)));
        calls.push(ControlCall::set(OPUS_SET_PACKET_LOSS_PERC_REQUEST, self.packet_loss));
        calls.push(ControlCall::set(OPUS_SET_INBAND_FEC_REQUEST, flag(self.fec)));
        assert(calls@ == seq![
            ControlCall::spec_set(OPUS_SET_VBR_REQUEST, spec_flag(self.vbr > 0)),
            ControlCall::spec_set(OPUS_SET_VBR_CONSTRAINT_REQUEST, spec_flag(self.vbr == 2)),
            ControlCall::spec_set(OPUS_SET_PACKET_LOSS_PERC_REQUEST, self.packet_loss),
            ControlCall::spec_set(OPUS_SET_INBAND_FEC_REQUEST, spec_flag(self.fec)),
        ]);
        if self.complexity > 0 {
            calls.push(
                ControlCall::set(OPUS_SET_COMPLEXITY_REQUEST, #[verifier::truncate] (self.complexity as i32)),
            );
        }
        if self.max_bandwidth > 0 {
            calls.push(
                ControlCall::set(
                    OPUS_SET_MAX_BANDWIDTH_REQUEST,
                    #[verifier::truncate] (self.max_bandwidth as i32),
                ),
            );
        }
        calls
    }
}

impl Default for OpusOptions {
    fn default() -> (options: OpusOptions)
        ensures
            options == OpusOptions::spec_default(),
    {
        OpusOptions {
            application: OPUS_APPLICATION_AUDIO,
            frame_duration_us: DEFAULT_FRAME_DURATION_US,
            frame_size: 960,
            packet_loss: 0,
            fec: false,
            vbr: 1,
            max_bandwidth: 0,
            complexity: 10,
        }
    }
}

/// The encoder part of a codec configuration.
#[derive(Clone, Copy, Debug, PartialEq, Eq, Structural)]
pub struct EncoderParameters {
    /// Target bit rate in bits per second.
    pub bit_rate: Option<u64>,
    /// Effort level; becomes the complexity.
    pub level: Option<i32>,
}

impl EncoderParameters {
    /// The control request that sets the bit rate, if one is asked for.
    pub open spec fn spec_bit_rate_control(self) -> Option<ControlCall> {
        match self.bit_rate {
            Some(bit_rate) => Some(ControlCall::spec_set(OPUS_SET_BITRATE_REQUEST, bit_rate as i32)),
            None => None,
        }
    }

    /// The control request that sets the bit rate, if one is asked for.
    /// The host issues it before the configuration is applied.
    #[verifier::when_used_as_spec(spec_bit_rate_control)]
    pub fn bit_rate_control(self) -> (call: Option<ControlCall>)
        ensures
            call == self.spec_bit_rate_control(),
    {
        match self.bit_rate {
            Some(bit_rate) => Some(
                ControlCall::set(OPUS_SET_BITRATE_REQUEST, #[verifier::truncate] (bit_rate as i32)),
            ),
            None => None,
        }
    }

    /// The complexity that the level stands for, if one is given: the level
    /// itself from 0 to 10, and 10 for anything else.
    pub open spec fn spec_complexity(self) -> Option<u32> {
        match self.level {
            Some(level) => Some(
                if 0 <= level <= 10 {
                    level as u32
                } else {
                    10
                },
            ),
            None => None,
        }
    }
}

/// The options an encoder knows by name.
#[derive(Clone, Copy, Debug, PartialEq, Eq, Structural)]
pub enum EncoderOption {
    BitRate,
    PacketLossPercent,
    Fec,
    Vbr,
    MaxBandwidth,
    Complexity,
}

/// The options a decoder knows by name.
#[derive(Clone, Copy, Debug, PartialEq, Eq, Structural)]
pub enum DecoderOption {
    Gain,
    PacketLoss,
    Fec,
}

/// The encoder option that `key` names, if any.
pub open spec fn spec_encoder_option(key: Seq<char>) -> Option<EncoderOption> {
    if key == "bit_rate"@ {
        Some(EncoderOption::BitRate)
    } else if key == "packet_loss_percent"@ {
        Some(EncoderOption::PacketLossPercent)
    } else if key == "fec"@ {
        Some(EncoderOption::Fec)
    } else if key == "vbr"@ {
        Some(EncoderOption::Vbr)
    } else if key == "max_bandwidth"@ {
        Some(EncoderOption::MaxBandwidth)
    } else if key == "complexity"@ {
        Some(EncoderOption::Complexity)
    } else {
        None
    }
}

/// The encoder option that `key` names, if any.
pub fn encoder_option(key: &str) -> (option: Option<EncoderOption>)
    ensures
        option == spec_encoder_option(key@),
{
    if same_text(key, "bit_rate") {
        Some(EncoderOption::BitRate)
    } else if same_text(key, "packet_loss_percent") {
        Some(EncoderOption::PacketLossPercent)
    } else if same_text(key, "fec") {
        Some(EncoderOption::Fec)
    } else if same_text(key, "vbr") {
        Some(EncoderOption::Vbr)
    } else if same_text(key, "max_bandwidth") {
        Some(EncoderOption::MaxBandwidth)
    } else if same_text(key, "complexity") {
        Some(EncoderOption::Complexity)
    } else {
        None
    }
}

/// The decoder option that `key` names, if any.
pub open spec fn spec_decoder_option(key: Seq<char>) -> Option<DecoderOption> {
    if key == "gain"@ {
        Some(DecoderOption::Gain)
    } else if key == "packet_loss"@ {
        Some(DecoderOption::PacketLoss)
    } else if key == "fec"@ {
        Some(DecoderOption::Fec)
    } else {
        None
    }
}

/// The decoder option that `key` names, if any.
pub fn decoder_option(key: &str) -> (option: Option<DecoderOption>)
    ensures
        option == spec_decoder_option(key@),
{
    if same_text(key, "gain") {
        Some(DecoderOption::Gain)
    } else if same_text(key, "packet_loss") {
        Some(DecoderOption::PacketLoss)
    } else if same_text(key, "fec") {
        Some(DecoderOption::Fec)
    } else {
        None
    }
}

} // verus!
