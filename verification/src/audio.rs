use crate::error::CodecError;
use crate::time::TimeBase;
use vstd::prelude::*;

verus! {

/// The longest frame the codec defines, in milliseconds.
pub const MAX_FRAME_DURATION_MS: u32 = 120;

/// How one sample is stored. Only `S16` and `F32` can be handed to the
/// native engine; the others exist so that a request for them can be told
/// apart and refused.
#[derive(Clone, Copy, Debug, PartialEq, Eq, Structural)]
pub enum SampleFormat {
    U8,
    S16,
    S32,
    S64,
    F32,
    F64,
    U8P,
    S16P,
    S32P,
    S64P,
    F32P,
    F64P,
}

impl SampleFormat {
    /// Bytes taken by one sample of one channel.
    pub open spec fn spec_bytes(self) -> u8 {
        match self {
            SampleFormat::U8 | SampleFormat::U8P => 1,
            SampleFormat::S16 | SampleFormat::S16P => 2,
            SampleFormat::S32 | SampleFormat::S32P => 4,
            SampleFormat::S64 | SampleFormat::S64P => 8,
            SampleFormat::F32 | SampleFormat::F32P => 4,
            SampleFormat::F64 | SampleFormat::F64P => 8,
        }
    }

    /// Bytes taken by one sample of one channel.
    #[verifier::when_used_as_spec(spec_bytes)]
    pub fn bytes(self) -> (b: u8)
        ensures
            b == self.spec_bytes(),
    {
        match self {
            SampleFormat::U8 | SampleFormat::U8P => 1,
            SampleFormat::S16 | SampleFormat::S16P => 2,
            SampleFormat::S32 | SampleFormat::S32P => 4,
            SampleFormat::S64 | SampleFormat::S64P => 8,
            SampleFormat::F32 | SampleFormat::F32P => 4,
            SampleFormat::F64 | SampleFormat::F64P => 8,
        }
    }

    /// Whether the native engine takes samples in this format.
    pub open spec fn spec_is_supported(self) -> bool {
        self == SampleFormat::S16 || self == SampleFormat::F32
    }

    /// Whether the native engine takes samples in this format.
    #[verifier::when_used_as_spec(spec_is_supported)]
    pub fn is_supported(self) -> (b: bool)
        ensures
            b == self.spec_is_supported(),
    {
        match self {
            SampleFormat::S16 => true,
            SampleFormat::F32 => true,
            _ => false,
        }
    }
}

/// The audio part of a codec configuration. Every field may be absent.
#[derive(Clone, Copy, Debug, PartialEq, Eq, Structural)]
pub struct AudioParameters {
    pub format: Option<SampleFormat>,
    pub sample_rate: Option<u32>,
    pub channels: Option<u8>,
}

/// The shape of a buffer of interleaved samples.
#[derive(Clone, Copy, Debug, PartialEq, Eq, Structural)]
pub struct AudioShape {
    pub format: SampleFormat,
    /// Samples per channel.
    pub samples: u32,
    /// Samples per second.
    pub sample_rate: u32,
    pub channels: u8,
}

impl AudioShape {
    /// Nothing in the shape is zero.
    pub open spec fn wf(self) -> bool {
        self.samples > 0 && self.sample_rate > 0 && self.channels > 0
    }

    /// Bytes taken by one sample of every channel.
    pub open spec fn spec_sample_size(self) -> u32 {
        (self.channels * self.format.spec_bytes()) as u32
    }

    /// Bytes taken by one sample of every channel.
    #[verifier::when_used_as_spec(spec_sample_size)]
    pub fn sample_size(self) -> (n: u32)
        ensures
            n == self.spec_sample_size(),
            n == self.channels * self.format.spec_bytes(),
            n <= 2040,
    {
        let bytes: u8 = self.format.bytes();
        assert(self.channels * bytes <= 255 * 8) by (nonlinear_arith)
            requires
                0 <= self.channels <= 255,
                0 <= bytes <= 8,
        ;
        self.channels as u32 * bytes as u32
    }

    /// Bytes taken by `samples` samples of every channel.
    pub open spec fn bytes_for(self, samples: int) -> int {
        samples * self.spec_sample_size()
    }

    /// Bytes taken by the whole buffer.
    pub open spec fn spec_byte_len(self) -> u64 {
        self.bytes_for(self.samples as int) as u64
    }

    /// Bytes taken by the whole buffer.
    #[verifier::when_used_as_spec(spec_byte_len)]
    pub fn byte_len(self) -> (n: u64)
        ensures
            n == self.spec_byte_len(),
            n == self.samples * self.spec_sample_size(),
    {
        let size: u32 = self.sample_size();
        assert(self.samples * size <= 0xffff_ffff * 2040) by (nonlinear_arith)
            requires
                0 <= self.samples <= 0xffff_ffff,
                0 <= size <= 2040,
        ;
        self.samples as u64 * size as u64
    }
}

/// The number of samples that `duration_ms` milliseconds hold at
/// `sample_rate`, rounded down.
pub open spec fn spec_samples_for_duration(sample_rate: u32, duration_ms: u32) -> u64 {
    (sample_rate * duration_ms / 1000) as u64
}

/// The number of samples that `duration_ms` milliseconds hold at
/// `sample_rate`, rounded down.
#[verifier::when_used_as_spec(spec_samples_for_duration)]
pub fn samples_for_duration(sample_rate: u32, duration_ms: u32) -> (n: u64)
    ensures
        n == spec_samples_for_duration(sample_rate, duration_ms),
        n == sample_rate * duration_ms / 1000,
{
    assert(sample_rate * duration_ms <= 0xffff_ffff * 0xffff_ffff) by (nonlinear_arith)
        requires
            0 <= sample_rate <= 0xffff_ffff,
            0 <= duration_ms <= 0xffff_ffff,
    ;
    sample_rate as u64 * duration_ms as u64 / 1000
}

/// The number of samples a decode buffer must hold at `sample_rate`: the
/// longest frame the codec defines, whatever the packet turns out to hold.
pub open spec fn spec_decode_capacity(sample_rate: u32) -> u32 {
    (sample_rate * 120 / 1000) as u32
}

/// The number of samples a decode buffer must hold at `sample_rate`.
#[verifier::when_used_as_spec(spec_decode_capacity)]
pub fn decode_capacity(sample_rate: u32) -> (n: u32)
    ensures
        n == spec_decode_capacity(sample_rate),
        n == sample_rate * 120 / 1000,
        n == spec_samples_for_duration(sample_rate, MAX_FRAME_DURATION_MS),
{
    let n: u64 = samples_for_duration(sample_rate, MAX_FRAME_DURATION_MS);
    n as u32
}

/// The shape of the buffer that one decode call writes into, for a
/// configuration that names everything needed.
pub open spec fn spec_decode_shape(params: AudioParameters) -> Option<AudioShape> {
    match (params.sample_rate, params.format, params.channels) {
        (Some(sample_rate), Some(format), Some(channels)) => {
            if spec_decode_capacity(sample_rate) > 0 && channels > 0 {
                Some(
                    AudioShape {
                        format: if format == SampleFormat::F32 {
                            SampleFormat::F32
                        } else {
                            SampleFormat::S16
                        },
                        samples: spec_decode_capacity(sample_rate),
                        sample_rate,
                        channels,
                    },
                )
            } else {
                None
            }
        },
        _ => None,
    }
}

/// The shape of the buffer that one decode call writes into.
///
/// A configuration that lacks the sample rate, the format or the channel
/// count, or whose rate leaves no room for a single sample, is refused. Any
/// format but 32-bit float is decoded as 16-bit integer.
pub fn decode_shape(params: &AudioParameters) -> (r: Result<AudioShape, CodecError>)
    ensures
        r == match spec_decode_shape(*params) {
            Some(shape) => Ok::<AudioShape, CodecError>(shape),
            None => Err(CodecError::InvalidParameter),
        },
        r matches Ok(shape) ==> shape.wf() && shape.format.spec_is_supported(),
{
    let sample_rate = match params.sample_rate {
        Some(sample_rate) => sample_rate,
        None => return Err(CodecError::InvalidParameter),
    };
    let format = match params.format {
        Some(SampleFormat::F32) => SampleFormat::F32,
        Some(_) => SampleFormat::S16,
        None => return Err(CodecError::InvalidParameter),
    };
    let channels = match params.channels {
        Some(channels) => channels,
        None => return Err(CodecError::InvalidParameter),
    };
    let samples = decode_capacity(sample_rate);
    if samples == 0 || channels == 0 {
        return Err(CodecError::InvalidParameter);
    }
    Ok(AudioShape { format, samples, sample_rate, channels })
}

/// A buffer of interleaved samples with its shape and timing.
#[derive(Clone, Debug, PartialEq, Eq)]
pub struct AudioFrame {
    pub shape: AudioShape,
    /// When the first sample is to be presented, in ticks of `time_base`.
    pub pts: Option<i64>,
    pub time_base: Option<TimeBase>,
    /// The sample bytes, or `None` where the buffer could not be mapped.
    pub data: Option<Vec<u8>>,
}

/// What an `AudioFrame` holds.
pub struct AudioFrameView {
    pub shape: AudioShape,
    pub pts: Option<i64>,
    pub time_base: Option<TimeBase>,
    pub data: Option<Seq<u8>>,
}

impl View for AudioFrame {
    type V = AudioFrameView;

    open spec fn view(&self) -> AudioFrameView {
        AudioFrameView {
            shape: self.shape,
            pts: self.pts,
            time_base: self.time_base,
            data: match self.data {
                Some(data) => Some(data@),
                None => None,
            },
        }
    }
}

impl AudioFrameView {
    /// The shape has no zero in it, and mapped data in a supported format
    /// is exactly as long as the shape says.
    pub open spec fn wf(self) -> bool {
        &&& self.shape.wf()
        &&& (self.shape.format.spec_is_supported() && self.data is Some) ==> self.data->0.len()
            == self.shape.spec_byte_len()
    }
}

} // verus!
