use crate::audio::{AudioFrame, AudioFrameView, AudioParameters, SampleFormat};
use crate::control::{
    ControlCall, OptionValue, OPUS_APPLICATION_RESTRICTED_LOWDELAY, OPUS_OK,
    OPUS_SET_BITRATE_REQUEST, OPUS_SET_COMPLEXITY_REQUEST, OPUS_SET_INBAND_FEC_REQUEST,
    OPUS_SET_MAX_BANDWIDTH_REQUEST, OPUS_SET_PACKET_LOSS_PERC_REQUEST, OPUS_SET_VBR_REQUEST,
};
use crate::error::CodecError;
use crate::native::{NativeOutput, NativeOutputView};
use crate::options::{
    canonical_samples, encoder_option, is_legal_frame, needs_low_delay, scaled_samples,
    spec_canonical_samples, spec_encoder_option, spec_given, spec_is_legal_frame,
    spec_needs_low_delay, spec_scaled_samples, EncoderOption, EncoderParameters, OptionSet,
    OpusOptions,
};
use crate::queue::{spec_pop, PendingQueue};
use crate::time::{chunk_timing, spec_chunk_timing, TimeBase};
use crate::CodecId;
use vstd::prelude::*;

verus! {

/// Room the output queue starts with.
pub const DEFAULT_PACKET_PENDING_CAPACITY: usize = 8;

/// The most bytes one encoded sub-frame takes.
pub const MAX_FRAME_SIZE: usize = 1275;

/// The most sub-frames one packet holds: a 120 ms packet is six of 20 ms.
pub const MAX_FRAMES: usize = 6;

/// Bytes of header in front of a packet's sub-frames.
pub const PACKET_HEADER_SIZE: usize = 7;

/// The size of the buffer that one encode call writes into: the largest
/// packet the wire format allows.
pub const MAX_PACKET_SIZE: usize = PACKET_HEADER_SIZE + MAX_FRAME_SIZE * MAX_FRAMES;

/// The name under which the encoder is registered.
pub const CODEC_NAME: &'static str = "opus-enc";

/// The audio and the encoder part of a codec configuration.
#[derive(Clone, Copy, Debug, PartialEq, Eq, Structural)]
pub struct AudioEncoderParameters {
    pub audio: AudioParameters,
    pub encoder: EncoderParameters,
}

/// One encoded chunk with its timing.
#[derive(Clone, Debug, PartialEq, Eq)]
pub struct Packet {
    pub data: Vec<u8>,
    pub pts: Option<i64>,
    pub duration: Option<i64>,
    pub time_base: Option<TimeBase>,
}

/// What a `Packet` holds.
pub struct PacketView {
    pub data: Seq<u8>,
    pub pts: Option<i64>,
    pub duration: Option<i64>,
    pub time_base: Option<TimeBase>,
}

impl View for Packet {
    type V = PacketView;

    open spec fn view(&self) -> PacketView {
        PacketView {
            data: self.data@,
            pts: self.pts,
            duration: self.duration,
            time_base: self.time_base,
        }
    }
}

/// `count` zero bytes.
pub open spec fn zeros(count: int) -> Seq<u8> {
    Seq::new(count as nat, |i: int| 0u8)
}

/// One chunk for the host to encode.
///
/// The chunk is `len` bytes of the frame's data from `offset` on. Where
/// that is less than `chunk_size`, the chunk is the last of its frame and is
/// encoded from the scratch buffer, in which zeros follow it.
#[derive(Clone, Copy, Debug, PartialEq, Eq, Structural)]
pub struct EncodeRequest {
    pub offset: usize,
    pub len: usize,
    /// Bytes in a full chunk.
    pub chunk_size: usize,
    /// Samples per channel that the engine is asked to encode.
    pub samples: u32,
    /// The format of the samples, which selects the native entry point.
    pub format: SampleFormat,
    /// Bytes of room the engine is given to write the packet into.
    pub capacity: usize,
    /// The presentation time of the packet this chunk becomes.
    pub pts: i64,
    pub duration: i64,
    pub time_base: TimeBase,
}

impl EncodeRequest {
    /// Whether the chunk is short and is encoded from the scratch buffer.
    pub open spec fn spec_is_padded(self) -> bool {
        self.len < self.chunk_size
    }

    /// Whether the chunk is short and is encoded from the scratch buffer.
    #[verifier::when_used_as_spec(spec_is_padded)]
    pub fn is_padded(self) -> (b: bool)
        ensures
            b == self.spec_is_padded(),
    {
        self.len < self.chunk_size
    }

    /// The chunk as the scratch buffer holds it: its bytes, then zeros up
    /// to the size of a full chunk.
    pub open spec fn spec_staged(self, data: Seq<u8>) -> Seq<u8> {
        data.subrange(self.offset as int, self.offset + self.len) + zeros(
            self.chunk_size - self.len,
        )
    }

    /// The chunk that follows this one in a frame of `data_len` bytes, if
    /// the frame holds more: it starts one full chunk further on, and its
    /// presentation time is later by one duration.
    pub open spec fn spec_next(self, data_len: int) -> Option<EncodeRequest> {
        if self.chunk_size > 0 && self.offset + self.chunk_size < data_len {
            let offset = self.offset + self.chunk_size;
            let rest = data_len - offset;
            Some(
                EncodeRequest {
                    offset: offset as usize,
                    len: (if rest < self.chunk_size {
                        rest
                    } else {
                        self.chunk_size as int
                    }) as usize,
                    pts: (self.pts + self.duration) as i64,
                    ..self
                },
            )
        } else {
            None
        }
    }
}

/// What an encoder holds.
pub struct EncoderState {
    /// Packets produced and not yet taken, oldest first.
    pub pending: Seq<PacketView>,
    pub options: OpusOptions,
    /// The scratch buffer in which a short last chunk is padded.
    pub buffer: Seq<u8>,
    /// The format, rate and channel count the native encoder is created with.
    pub format: SampleFormat,
    pub sample_rate: u32,
    pub channels: u8,
}

impl EncoderState {
    /// The state of a new encoder, or why there is none.
    pub open spec fn spec_new(
        codec_id: CodecId,
        params: AudioEncoderParameters,
        options: Option<OptionSet>,
    ) -> Result<EncoderState, CodecError> {
        let given = OpusOptions::spec_from_options(options);
        let canonical = spec_canonical_samples(given.frame_duration_us);
        if codec_id != CodecId::Opus {
            Err(CodecError::UnsupportedCodec)
        } else if params.audio.format is None {
            Err(CodecError::InvalidParameter)
        } else if !params.audio.format->0.spec_is_supported() {
            Err(CodecError::UnsupportedFormat)
        } else if params.audio.sample_rate is None || params.audio.sample_rate == Some(0u32) {
            Err(CodecError::InvalidParameter)
        } else if params.audio.channels is None || params.audio.channels == Some(0u8) {
            Err(CodecError::InvalidParameter)
        } else if !spec_is_legal_frame(canonical) {
            Err(CodecError::InvalidFrameDuration)
        } else {
            let format = params.audio.format->0;
            let sample_rate = params.audio.sample_rate->0;
            let channels = params.audio.channels->0;
            let frame_size = spec_scaled_samples(canonical, sample_rate) as u32;
            Ok(
                EncoderState {
                    pending: Seq::empty(),
                    options: OpusOptions {
                        application: if spec_needs_low_delay(canonical) {
                            OPUS_APPLICATION_RESTRICTED_LOWDELAY
                        } else {
                            given.application
                        },
                        frame_size,
                        ..given
                    },
                    buffer: zeros(frame_size * channels * format.spec_bytes()),
                    format,
                    sample_rate,
                    channels,
                },
            )
        }
    }

    /// The state after the encoder part of a configuration was applied,
    /// given the status with which the engine answered the bit-rate request.
    ///
    /// The status counts only where the configuration names a bit rate.
    /// Where the engine refused it, nothing changes; otherwise a level
    /// becomes the complexity.
    pub open spec fn spec_set_encoder_parameters(self, params: EncoderParameters, status: i32) -> (
        EncoderState,
        Result<(), CodecError>,
    ) {
        if params.bit_rate is Some && status != OPUS_OK {
            (self, Err(CodecError::SetFailed(status)))
        } else {
            (
                match params.spec_complexity() {
                    Some(complexity) => EncoderState {
                        options: OpusOptions { complexity, ..self.options },
                        ..self
                    },
                    None => self,
                },
                Ok(()),
            )
        }
    }

    /// The options that a set of options asks for on an encoder running at
    /// `sample_rate`: the frame size is the one the duration has at that
    /// rate. A duration that is not one of the nine the codec defines is
    /// refused.
    pub open spec fn spec_reconfigured(sample_rate: u32, set: OptionSet) -> Result<
        OpusOptions,
        CodecError,
    > {
        let given = OpusOptions::spec_from_options(Some(set));
        let canonical = spec_canonical_samples(given.frame_duration_us);
        if spec_is_legal_frame(canonical) {
            Ok(
                OpusOptions {
                    frame_size: spec_scaled_samples(canonical, sample_rate) as u32,
                    ..given
                },
            )
        } else {
            Err(CodecError::InvalidFrameDuration)
        }
    }

    /// The bytes in the scratch buffer of an encoder with these options:
    /// one chunk.
    pub open spec fn spec_scratch_len(self, options: OpusOptions) -> int {
        options.frame_size * self.channels * self.format.spec_bytes()
    }

    /// The state after a configuration and a set of options were applied,
    /// and the control requests still to issue, in order.
    ///
    /// A refused bit rate, or a frame duration that is not one of the nine
    /// the codec defines, fails the call and leaves everything as it was.
    /// Otherwise a set of options replaces the options in force, with the
    /// frame size taken at the encoder's own sample rate, and the scratch
    /// buffer becomes one chunk of zeros.
    pub open spec fn spec_configure(
        self,
        params: Option<AudioEncoderParameters>,
        options: Option<OptionSet>,
        status: i32,
    ) -> (EncoderState, Result<Seq<ControlCall>, CodecError>) {
        let (configured, applied) = match params {
            Some(params) => self.spec_set_encoder_parameters(params.encoder, status),
            None => (self, Ok(())),
        };
        match applied {
            Err(e) => (self, Err(e)),
            Ok(_) => match options {
                Some(set) => match Self::spec_reconfigured(self.sample_rate, set) {
                    Ok(replaced) => (
                        EncoderState {
                            options: replaced,
                            buffer: zeros(self.spec_scratch_len(replaced)),
                            ..configured
                        },
                        Ok(replaced.spec_controls()),
                    ),
                    Err(e) => (self, Err(e)),
                },
                None => (configured, Ok(Seq::empty())),
            },
        }
    }

    /// The state after one option was set, and the control request to
    /// issue for it; or the refusal of a key that names no option.
    pub open spec fn spec_set_option(self, key: Seq<char>, value: OptionValue) -> (
        EncoderState,
        Result<ControlCall, CodecError>,
    ) {
        let v = value.spec_as_int();
        match spec_encoder_option(key) {
            Some(EncoderOption::BitRate) => (
                self,
                Ok(ControlCall::spec_set(OPUS_SET_BITRATE_REQUEST, v)),
            ),
            Some(EncoderOption::PacketLossPercent) => (
                EncoderState { options: OpusOptions { packet_loss: v, ..self.options }, ..self },
                Ok(ControlCall::spec_set(OPUS_SET_PACKET_LOSS_PERC_REQUEST, v)),
            ),
            Some(EncoderOption::Fec) => (
                EncoderState { options: OpusOptions { fec: v != 0, ..self.options }, ..self },
                Ok(ControlCall::spec_set(OPUS_SET_INBAND_FEC_REQUEST, v)),
            ),
            Some(EncoderOption::Vbr) => (
                EncoderState { options: OpusOptions { vbr: v as u32, ..self.options }, ..self },
                Ok(ControlCall::spec_set(OPUS_SET_VBR_REQUEST, v)),
            ),
            Some(EncoderOption::MaxBandwidth) => (
                EncoderState {
                    options: OpusOptions { max_bandwidth: v as u32, ..self.options },
                    ..self
                },
                Ok(ControlCall::spec_set(OPUS_SET_MAX_BANDWIDTH_REQUEST, v)),
            ),
            Some(EncoderOption::Complexity) => (
                EncoderState { options: OpusOptions { complexity: v as u32, ..self.options }, ..self },
                Ok(ControlCall::spec_set(OPUS_SET_COMPLEXITY_REQUEST, v)),
            ),
            None => (self, Err(CodecError::UnsupportedOption)),
        }
    }

    /// The request for the first chunk of `frame`.
    pub open spec fn spec_first_request(self, frame: AudioFrameView) -> EncodeRequest {
        let chunk_size = self.options.frame_size * frame.shape.spec_sample_size();
        let data_len = frame.data->0.len();
        let timing = spec_chunk_timing(
            self.options.frame_size,
            frame.shape.sample_rate,
            frame.time_base,
        );
        EncodeRequest {
            offset: 0,
            len: (if data_len < chunk_size {
                data_len as int
            } else {
                chunk_size
            }) as usize,
            chunk_size: chunk_size as usize,
            samples: self.options.frame_size,
            format: frame.shape.format,
            capacity: MAX_PACKET_SIZE,
            pts: match frame.pts {
                Some(pts) => pts,
                None => 0,
            },
            duration: timing.0,
            time_base: timing.1,
        }
    }

    /// The state after `frame` was accepted, and the request for its first
    /// chunk; or the refusal of a frame whose format the engine does not
    /// take or whose data cannot be read, which changes nothing.
    pub open spec fn spec_send_frame(self, frame: AudioFrameView) -> (
        EncoderState,
        Result<Option<EncodeRequest>, CodecError>,
    ) {
        if !frame.shape.format.spec_is_supported() {
            (self, Err(CodecError::UnsupportedFormat))
        } else if frame.data is None {
            (self, Err(CodecError::NotReadable))
        } else {
            let request = self.spec_first_request(frame);
            (
                EncoderState {
                    buffer: if request.spec_is_padded() {
                        request.spec_staged(frame.data->0)
                    } else {
                        zeros(self.buffer.len() as int)
                    },
                    ..self
                },
                Ok(Some(request)),
            )
        }
    }

    /// The packet that a chunk becomes once the engine has written
    /// `status` bytes for it into `data`.
    pub open spec fn spec_packet(request: EncodeRequest, status: i32, data: Seq<u8>) -> PacketView {
        PacketView {
            data: data.subrange(0, status as int),
            pts: Some(request.pts),
            duration: Some(request.duration),
            time_base: Some(request.time_base),
        }
    }

    /// The state after the engine's answer to `request` was taken in, and
    /// the request for the next chunk of `frame`, if there is one.
    ///
    /// A buffer that could not be written, a negative status, or a status
    /// beyond the end of the output buffer fails the call and changes
    /// nothing. Otherwise the packet joins the queue behind those already
    /// there.
    pub open spec fn spec_encoded(
        self,
        frame: AudioFrameView,
        request: EncodeRequest,
        output: NativeOutputView,
    ) -> (EncoderState, Result<Option<EncodeRequest>, CodecError>) {
        match output {
            NativeOutputView::NotWritable => (self, Err(CodecError::NotWritable)),
            NativeOutputView::Returned { status, data } => {
                if status < 0 {
                    (self, Err(CodecError::EncodeFailed(status)))
                } else if status > data.len() {
                    (self, Err(CodecError::InvalidParameter))
                } else {
                    let next = match frame.data {
                        Some(bytes) => request.spec_next(bytes.len() as int),
                        None => None,
                    };
                    (
                        EncoderState {
                            pending: self.pending.push(Self::spec_packet(request, status, data)),
                            buffer: match next {
                                Some(following) => if following.spec_is_padded() {
                                    following.spec_staged(frame.data->0)
                                } else {
                                    self.buffer
                                },
                                None => self.buffer,
                            },
                            ..self
                        },
                        Ok(next),
                    )
                }
            },
        }
    }

    /// The bytes that the engine is to encode for `request`: the chunk
    /// itself where it is a full one, else the scratch buffer.
    pub open spec fn spec_chunk_input(self, frame: AudioFrameView, request: EncodeRequest) -> Seq<
        u8,
    > {
        if !request.spec_is_padded() && frame.data is Some && request.offset + request.len
            <= frame.data->0.len() {
            frame.data->0.subrange(request.offset as int, request.offset + request.len)
        } else {
            self.buffer
        }
    }

    /// The state after the oldest packet was taken, and that packet; or
    /// `Again` and the same state where nothing is queued.
    pub open spec fn spec_receive_packet(self) -> (EncoderState, Result<PacketView, CodecError>) {
        let (rest, taken) = spec_pop(self.pending);
        (EncoderState { pending: rest, ..self }, taken)
    }

    /// The state after a flush: the scratch buffer holds zeros, and nothing
    /// else has changed.
    pub open spec fn spec_flush(self) -> EncoderState {
        EncoderState { buffer: zeros(self.buffer.len() as int), ..self }
    }
}

/// An Opus encoder without its native half.
#[derive(Debug)]
pub struct OpusEncoder {
    pending: PendingQueue<Packet>,
    options: OpusOptions,
    buffer: Vec<u8>,
    format: SampleFormat,
    sample_rate: u32,
    channels: u8,
}

impl View for OpusEncoder {
    type V = EncoderState;

    closed spec fn view(&self) -> EncoderState {
        EncoderState {
            pending: self.pending@.map_values(|packet: Packet| packet@),
            options: self.options,
            buffer: self.buffer@,
            format: self.format,
            sample_rate: self.sample_rate,
            channels: self.channels,
        }
    }
}

/// A vector of `count` zero bytes.
fn zeroed(count: usize) -> (bytes: Vec<u8>)
    ensures
        bytes@ == zeros(count as int),
{
    let bytes = vec![0u8; count];
    assert(bytes@ =~= zeros(count as int));
    bytes
}

/// Overwrites every byte of `bytes` with zero.
fn fill_zeros(bytes: &mut Vec<u8>)
    ensures
        final(bytes)@ == zeros(old(bytes)@.len() as int),
{
    let len = bytes.len();
    let mut i: usize = 0;
    while i < len
        invariant
            i <= len,
            bytes@.len() == len,
            forall|j: int| 0 <= j < i ==> bytes@[j] == 0u8,
        decreases len - i,
    {
        bytes[i] = 0;
        i += 1;
    }
    assert(bytes@ =~= zeros(len as int));
}

/// Rebuilds `buffer` as `len` bytes of `data` from `offset` on, followed by
/// zeros up to `chunk_size` bytes.
fn stage(buffer: &mut Vec<u8>, data: &Vec<u8>, offset: usize, len: usize, chunk_size: usize)
    requires
        offset + len <= data@.len(),
        len <= chunk_size,
    ensures
        final(buffer)@ == data@.subrange(offset as int, offset + len) + zeros(chunk_size - len),
{
    buffer.clear();
    let total: usize = data.len();
    let mut i: usize = 0;
    while i < len
        invariant
            i <= len,
            offset + len <= data@.len() == total,
            buffer@ == data@.subrange(offset as int, offset + i),
        decreases len - i,
    {
        buffer.push(data[offset + i]);
        i += 1;
        assert(buffer@ =~= data@.subrange(offset as int, offset + i));
    }
    while i < chunk_size
        invariant
            len <= i <= chunk_size,
            offset + len <= data@.len(),
            buffer@ == data@.subrange(offset as int, offset + len) + zeros(i - len),
        decreases chunk_size - i,
    {
        buffer.push(0);
        i += 1;
        assert(buffer@ =~= data@.subrange(offset as int, offset + len) + zeros(i - len));
    }
}

/// The bytes in one chunk of `frame_size` samples.
fn scratch_len(frame_size: u32, channels: u8, format: SampleFormat) -> (length: u64)
    ensures
        length == frame_size * channels * format.spec_bytes(),
{
    let bytes: u8 = format.bytes();
    assert(0 <= frame_size * channels <= 0xffff_ffff * 255) by (nonlinear_arith)
        requires
            0 <= frame_size <= 0xffff_ffff,
            0 <= channels <= 255,
    ;
    assert(0 <= frame_size * channels * bytes <= 0xffff_ffff * 255 * 8) by (nonlinear_arith)
        requires
            0 <= frame_size * channels <= 0xffff_ffff * 255,
            0 <= bytes <= 8,
    ;
    frame_size as u64 * channels as u64 * bytes as u64
}

/// The frame size that a legal 48 kHz sample count has at `sample_rate`.
fn frame_size_at(canonical: u32, sample_rate: u32) -> (frame_size: u32)
    requires
        spec_is_legal_frame(canonical),
    ensures
        frame_size == spec_scaled_samples(canonical, sample_rate) as u32,
        frame_size == spec_scaled_samples(canonical, sample_rate),
{
    let scaled: u64 = scaled_samples(canonical, sample_rate);
    assert(scaled <= sample_rate) by (nonlinear_arith)
        requires
            scaled == canonical * sample_rate / 48000,
            0 <= canonical <= 5760,
            0 <= sample_rate,
    ;
    scaled as u32
}

/// The options that a set of options asks for on an encoder running at
/// `sample_rate`.
fn reconfigured(sample_rate: u32, set: &OptionSet) -> (r: Result<OpusOptions, CodecError>)
    ensures
        r == EncoderState::spec_reconfigured(sample_rate, *set),
{
    let mut replaced = OpusOptions::from_options(Some(set));
    let canonical = canonical_samples(replaced.frame_duration_us);
    if !is_legal_frame(canonical) {
        return Err(CodecError::InvalidFrameDuration);
    }
    replaced.frame_size = frame_size_at(canonical, sample_rate);
    Ok(replaced)
}

/// What a valid configuration settles before an encoder is built.
struct Layout {
    options: OpusOptions,
    format: SampleFormat,
    sample_rate: u32,
    channels: u8,
    /// Bytes in the scratch buffer.
    scratch: u64,
}

/// Checks a configuration and works out the options, the native encoder's
/// parameters and the size of the scratch buffer.
fn validate(
    codec_id: CodecId,
    parameters: &AudioEncoderParameters,
    options: Option<&OptionSet>,
) -> (r: Result<Layout, CodecError>)
    ensures
        EncoderState::spec_new(codec_id, *parameters, spec_given(options)) == match r {
            Ok(layout) => Ok::<EncoderState, CodecError>(
                EncoderState {
                    pending: Seq::empty(),
                    options: layout.options,
                    buffer: zeros(layout.scratch as int),
                    format: layout.format,
                    sample_rate: layout.sample_rate,
                    channels: layout.channels,
                },
            ),
            Err(e) => Err(e),
        },
{
    match codec_id {
        CodecId::Opus => {},
        CodecId::Other => return Err(CodecError::UnsupportedCodec),
    }
    let mut opts = OpusOptions::from_options(options);
    let format = match parameters.audio.format {
        Some(format) => format,
        None => return Err(CodecError::InvalidParameter),
    };
    if !format.is_supported() {
        return Err(CodecError::UnsupportedFormat);
    }
    let sample_rate = match parameters.audio.sample_rate {
        Some(sample_rate) => sample_rate,
        None => return Err(CodecError::InvalidParameter),
    };
    if sample_rate == 0 {
        return Err(CodecError::InvalidParameter);
    }
    let channels = match parameters.audio.channels {
        Some(channels) => channels,
        None => return Err(CodecError::InvalidParameter),
    };
    if channels == 0 {
        return Err(CodecError::InvalidParameter);
    }
    let canonical = canonical_samples(opts.frame_duration_us);
    if !is_legal_frame(canonical) {
        return Err(CodecError::InvalidFrameDuration);
    }
    if needs_low_delay(canonical) {
        opts.application = OPUS_APPLICATION_RESTRICTED_LOWDELAY;
    }
    opts.frame_size = frame_size_at(canonical, sample_rate);
    let scratch = scratch_len(opts.frame_size, channels, format);
    Ok(Layout { options: opts, format, sample_rate, channels, scratch })
}

impl OpusEncoder {
    /// Whether the scratch buffer of the encoder that a configuration asks
    /// for can be addressed on this machine. A configuration that is refused
    /// asks for none.
    pub open spec fn spec_can_build(
        codec_id: CodecId,
        parameters: AudioEncoderParameters,
        options: Option<OptionSet>,
    ) -> bool {
        EncoderState::spec_new(codec_id, parameters, options) matches Ok(state)
            ==> state.buffer.len() <= usize::MAX
    }

    /// Whether `new` may be called with this configuration.
    pub fn can_build(
        codec_id: CodecId,
        parameters: &AudioEncoderParameters,
        options: Option<&OptionSet>,
    ) -> (ok: bool)
        ensures
            ok == Self::spec_can_build(codec_id, *parameters, spec_given(options)),
    {
        match validate(codec_id, parameters, options) {
            Ok(layout) => {
                assert(zeros(layout.scratch as int).len() == layout.scratch);
                layout.scratch <= usize::MAX as u64
            },
            Err(_) => true,
        }
    }

    /// Validates a configuration and builds the encoder for it.
    ///
    /// The codec must be Opus, the format 16-bit integer or 32-bit float,
    /// the sample rate and channel count present and not zero, and the frame
    /// duration one of the nine the codec defines. The two shortest durations
    /// force the low-delay application mode. Nothing native exists yet when
    /// this returns: the host creates the native encoder from
    /// `sample_rate`, `channels` and the application mode of `options`.
    pub fn new(
        codec_id: CodecId,
        parameters: &AudioEncoderParameters,
        options: Option<&OptionSet>,
    ) -> (r: Result<OpusEncoder, CodecError>)
        requires
            Self::spec_can_build(codec_id, *parameters, spec_given(options)),
        ensures
            match r {
                Ok(encoder) => Ok::<EncoderState, CodecError>(encoder@),
                Err(e) => Err(e),
            } == EncoderState::spec_new(codec_id, *parameters, spec_given(options)),
    {
        let layout = validate(codec_id, parameters, options)?;
        assert(zeros(layout.scratch as int).len() == layout.scratch);
        let encoder = OpusEncoder {
            pending: PendingQueue::with_capacity(DEFAULT_PACKET_PENDING_CAPACITY),
            options: layout.options,
            buffer: zeroed(layout.scratch as usize),
            format: layout.format,
            sample_rate: layout.sample_rate,
            channels: layout.channels,
        };
        assert(encoder@.pending == Seq::<PacketView>::empty());
        Ok(encoder)
    }

    /// The options in force.
    pub fn options(&self) -> (options: OpusOptions)
        ensures
            options == self@.options,
    {
        self.options
    }

    /// The sample format the native encoder is fed.
    pub fn format(&self) -> (format: SampleFormat)
        ensures
            format == self@.format,
    {
        self.format
    }

    /// The sample rate the native encoder is created with.
    pub fn sample_rate(&self) -> (sample_rate: u32)
        ensures
            sample_rate == self@.sample_rate,
    {
        self.sample_rate
    }

    /// The channel count the native encoder is created with.
    pub fn channels(&self) -> (channels: u8)
        ensures
            channels == self@.channels,
    {
        self.channels
    }

    /// The number of packets waiting to be taken.
    pub fn pending(&self) -> (count: usize)
        ensures
            count == self@.pending.len(),
    {
        self.pending.len()
    }

    /// Applies the encoder part of a configuration once the host has
    /// issued the bit-rate request that `params.bit_rate_control()` asks for.
    ///
    /// `bit_rate_status` is the engine's answer to that request, and is
    /// looked at only where the configuration names a bit rate. A refusal
    /// fails the call and changes nothing; otherwise a level becomes the
    /// complexity.
    pub fn set_encoder_parameters(&mut self, params: &EncoderParameters, bit_rate_status: i32) -> (r:
        Result<(), CodecError>)
        ensures
            (final(self)@, r) == old(self)@.spec_set_encoder_parameters(*params, bit_rate_status),
    {
        if params.bit_rate.is_some() && bit_rate_status != OPUS_OK {
            return Err(CodecError::SetFailed(bit_rate_status));
        }
        if let Some(level) = params.level {
            self.options.complexity = if 0 <= level && level <= 10 {
                level as u32
            } else {
                10
            };
        }
        Ok(())
    }

    /// The control requests that bring the native encoder in line with the
    /// options in force, in the order they are to be issued. The host stops
    /// at the first that the engine refuses.
    pub fn update_options(&self) -> (calls: Vec<ControlCall>)
        ensures
            calls@ == self@.options.spec_controls(),
    {
        self.options.controls()
    }

    /// Whether the scratch buffer that a set of options asks for can be
    /// addressed on this machine. No options, or options that are refused,
    /// ask for none.
    pub open spec fn spec_can_configure(state: EncoderState, options: Option<OptionSet>) -> bool {
        options matches Some(set) ==> (EncoderState::spec_reconfigured(state.sample_rate, set)
            matches Ok(replaced) ==> state.spec_scratch_len(replaced) <= usize::MAX)
    }

    /// Whether `configure` may be called with these options.
    pub fn can_configure(&self, options: Option<&OptionSet>) -> (ok: bool)
        ensures
            ok == Self::spec_can_configure(self@, spec_given(options)),
    {
        match options {
            Some(set) => match reconfigured(self.sample_rate, set) {
                Ok(replaced) => scratch_len(replaced.frame_size, self.channels, self.format)
                    <= usize::MAX as u64,
                Err(_) => true,
            },
            None => true,
        }
    }

    /// Applies a configuration, a set of options, or both, once the host
    /// has issued the bit-rate request that the configuration asks for, and
    /// lists the control requests still to issue.
    ///
    /// A refused bit rate, or a frame duration that is not one of the nine
    /// the codec defines, fails the call and changes nothing. A set of
    /// options replaces the options in force as a whole: the frame size is
    /// taken at the encoder's own sample rate, the scratch buffer becomes
    /// one chunk of zeros, and both stay so whatever the engine says to the
    /// requests that are returned.
    pub fn configure(
        &mut self,
        params: Option<&AudioEncoderParameters>,
        options: Option<&OptionSet>,
        bit_rate_status: i32,
    ) -> (r: Result<Vec<ControlCall>, CodecError>)
        requires
            Self::spec_can_configure(old(self)@, spec_given(options)),
        ensures
            (
                final(self)@,
                match r {
                    Ok(calls) => Ok::<Seq<ControlCall>, CodecError>(calls@),
                    Err(e) => Err(e),
                },
            ) == old(self)@.spec_configure(
                match params {
                    Some(params) => Some(*params),
                    None => None,
                },
                spec_given(options),
                bit_rate_status,
            ),
    {
        if let Some(params) = params {
            if params.encoder.bit_rate.is_some() && bit_rate_status != OPUS_OK {
                return Err(CodecError::SetFailed(bit_rate_status));
            }
        }
        let replaced = match options {
            Some(set) => Some(reconfigured(self.sample_rate, set)?),
            None => None,
        };
        if let Some(params) = params {
            self.set_encoder_parameters(&params.encoder, bit_rate_status)?;
        }
        match replaced {
            Some(replaced) => {
                let length = scratch_len(replaced.frame_size, self.channels, self.format);
                self.options = replaced;
                self.buffer = zeroed(length as usize);
                Ok(self.update_options())
            },
            None => Ok(Vec::new()),
        }
    }

    /// Sets one option by name. The cached option is updated first and
    /// stays updated whatever the engine then says to the control request
    /// that is returned; a key that names no option changes nothing.
    pub fn set_option(&mut self, key: &str, value: OptionValue) -> (r: Result<
        ControlCall,
        CodecError,
    >)
        ensures
            (final(self)@, r) == old(self)@.spec_set_option(key@, value),
            spec_encoder_option(key@) is None ==> r == Err::<ControlCall, CodecError>(
                CodecError::UnsupportedOption,
            ) && final(self)@ == old(self)@,
    {
        let v = value.as_int();
        match encoder_option(key) {
            Some(EncoderOption::BitRate) => Ok(ControlCall::set(OPUS_SET_BITRATE_REQUEST, v)),
            Some(EncoderOption::PacketLossPercent) => {
                self.options.packet_loss = v;
                Ok(ControlCall::set(OPUS_SET_PACKET_LOSS_PERC_REQUEST, v))
            },
            Some(EncoderOption::Fec) => {
                self.options.fec = v != 0;
                Ok(ControlCall::set(OPUS_SET_INBAND_FEC_REQUEST, v))
            },
            Some(EncoderOption::Vbr) => {
                self.options.vbr = #[verifier::truncate] (v as u32);
                Ok(ControlCall::set(OPUS_SET_VBR_REQUEST, v))
            },
            Some(EncoderOption::MaxBandwidth) => {
                self.options.max_bandwidth = #[verifier::truncate] (v as u32);
                Ok(ControlCall::set(OPUS_SET_MAX_BANDWIDTH_REQUEST, v))
            },
            Some(EncoderOption::Complexity) => {
                self.options.complexity = #[verifier::truncate] (v as u32);
                Ok(ControlCall::set(OPUS_SET_COMPLEXITY_REQUEST, v))
            },
            None => Err(CodecError::UnsupportedOption),
        }
    }

    /// Whether `frame` can be cut into chunks by this encoder on this
    /// machine: the frame is well formed, a chunk holds at least one sample
    /// and fits in memory, and the frame's time base, if it has one, is one
    /// that durations can be converted into.
    pub open spec fn spec_can_send(state: EncoderState, frame: AudioFrameView) -> bool {
        &&& frame.wf()
        &&& (frame.shape.format.spec_is_supported() && frame.data is Some) ==> {
            &&& state.options.frame_size > 0
            &&& (frame.time_base matches Some(time_base) ==> time_base.spec_converts(
                state.options.frame_size,
                frame.shape.sample_rate,
            ))
            &&& state.options.frame_size * frame.shape.spec_sample_size() <= usize::MAX
        }
    }

    /// Whether `send_frame` may be called with `frame`.
    pub fn can_send(&self, frame: &AudioFrame) -> (ok: bool)
        ensures
            ok == Self::spec_can_send(self@, frame@),
    {
        let shape = frame.shape;
        if shape.samples == 0 || shape.sample_rate == 0 || shape.channels == 0 {
            return false;
        }
        if !shape.format.is_supported() {
            return true;
        }
        let data = match &frame.data {
            Some(data) => data,
            None => return true,
        };
        if data.len() as u64 != shape.byte_len() {
            return false;
        }
        if self.options.frame_size == 0 {
            return false;
        }
        if let Some(time_base) = frame.time_base {
            if !time_base.converts(self.options.frame_size, shape.sample_rate) {
                return false;
            }
        }
        let sample_size: u32 = shape.sample_size();
        assert(self.options.frame_size * sample_size <= 0xffff_ffff * 2040) by (nonlinear_arith)
            requires
                0 <= self.options.frame_size <= 0xffff_ffff,
                0 <= sample_size <= 2040,
        ;
        let chunk: u64 = self.options.frame_size as u64 * sample_size as u64;
        chunk <= usize::MAX as u64
    }

    /// Accepts a frame for encoding and says which chunk the host is to
    /// encode first.
    ///
    /// The frame is cut into chunks of `frame_size` samples. A frame in a
    /// format the engine does not take, or one whose data cannot be read, is
    /// refused. The scratch buffer is rewritten: with the padded chunk
    /// where the first chunk is also the last and a short one, with zeros
    /// otherwise.
    pub fn send_frame(&mut self, frame: &AudioFrame) -> (r: Result<
        Option<EncodeRequest>,
        CodecError,
    >)
        requires
            Self::spec_can_send(old(self)@, frame@),
        ensures
            (final(self)@, r) == old(self)@.spec_send_frame(frame@),
    {
        if !frame.shape.format.is_supported() {
            return Err(CodecError::UnsupportedFormat);
        }
        let data = match &frame.data {
            Some(data) => data,
            None => return Err(CodecError::NotReadable),
        };
        let sample_size: u32 = frame.shape.sample_size();
        let chunk_size: usize = self.options.frame_size as usize * sample_size as usize;
        let (duration, time_base) = chunk_timing(
            self.options.frame_size,
            frame.shape.sample_rate,
            frame.time_base,
        );
        let len: usize = if data.len() < chunk_size {
            data.len()
        } else {
            chunk_size
        };
        let request = EncodeRequest {
            offset: 0,
            len,
            chunk_size,
            samples: self.options.frame_size,
            format: frame.shape.format,
            capacity: MAX_PACKET_SIZE,
            pts: match frame.pts {
                Some(pts) => pts,
                None => 0,
            },
            duration,
            time_base,
        };
        if len < chunk_size {
            stage(&mut self.buffer, data, 0, len, chunk_size);
        } else {
            fill_zeros(&mut self.buffer);
        }
        Ok(Some(request))
    }

    /// The bytes that the host hands to the engine for `request`.
    pub fn chunk_input<'a>(&'a self, frame: &'a AudioFrame, request: &EncodeRequest) -> (input: &'a [u8])
        ensures
            input@ == self@.spec_chunk_input(frame@, *request),
    {
        match &frame.data {
            Some(data) => {
                if request.len >= request.chunk_size && request.len <= data.len() && request.offset
                    <= data.len() - request.len {
                    vstd::slice::slice_subrange(
                        data.as_slice(),
                        request.offset,
                        request.offset + request.len,
                    )
                } else {
                    self.buffer.as_slice()
                }
            },
            None => self.buffer.as_slice(),
        }
    }

    /// Takes in what the engine answered to `request` and says which chunk
    /// of `frame` comes next, if any.
    ///
    /// On success the packet is cut to the `status` bytes the engine
    /// reported and queued. Packets queued earlier stay queued whatever this
    /// call returns.
    pub fn encoded(&mut self, frame: &AudioFrame, request: EncodeRequest, output: NativeOutput) -> (r:
        Result<Option<EncodeRequest>, CodecError>)
        requires
            i64::MIN <= request.pts + request.duration <= i64::MAX,
        ensures
            (final(self)@, r) == old(self)@.spec_encoded(frame@, request, output@),
    {
        let (status, mut data) = match output {
            NativeOutput::NotWritable => return Err(CodecError::NotWritable),
            NativeOutput::Returned { status, data } => (status, data),
        };
        if status < 0 {
            return Err(CodecError::EncodeFailed(status));
        }
        if status as u64 > data.len() as u64 {
            return Err(CodecError::InvalidParameter);
        }
        data.truncate(status as usize);
        let packet = Packet {
            data,
            pts: Some(request.pts),
            duration: Some(request.duration),
            time_base: Some(request.time_base),
        };
        let ghost before = self.pending@;
        self.pending.push(packet);
        assert(before.push(packet).map_values(|packet: Packet| packet@) == before.map_values(
            |packet: Packet| packet@,
        ).push(packet@));
        let bytes = match &frame.data {
            Some(bytes) => bytes,
            None => return Ok(None),
        };
        if request.chunk_size > 0 && request.offset < bytes.len() && request.chunk_size
            < bytes.len() - request.offset {
            let offset: usize = request.offset + request.chunk_size;
            let rest: usize = bytes.len() - offset;
            let len: usize = if rest < request.chunk_size {
                rest
            } else {
                request.chunk_size
            };
            let next = EncodeRequest {
                offset,
                len,
                chunk_size: request.chunk_size,
                samples: request.samples,
                format: request.format,
                capacity: request.capacity,
                pts: request.pts + request.duration,
                duration: request.duration,
                time_base: request.time_base,
            };
            if len < request.chunk_size {
                stage(&mut self.buffer, bytes, offset, len, request.chunk_size);
            }
            Ok(Some(next))
        } else {
            Ok(None)
        }
    }

    /// Takes the oldest packet, or reports `Again` where none is queued.
    pub fn receive_packet(&mut self) -> (r: Result<Packet, CodecError>)
        ensures
            (
                final(self)@,
                match r {
                    Ok(packet) => Ok::<PacketView, CodecError>(packet@),
                    Err(e) => Err(e),
                },
            ) == old(self)@.spec_receive_packet(),
    {
        let ghost before = self.pending@;
        let r = self.pending.pop();
        proof {
            if before.len() > 0 {
                assert(before.subrange(1, before.len() as int).map_values(|packet: Packet| packet@)
                    == before.map_values(|packet: Packet| packet@).subrange(
                    1,
                    before.len() as int,
                ));
            }
        }
        r
    }

    /// Overwrites the scratch buffer with zeros. The queue, the options and
    /// the native encoder are left as they are.
    pub fn flush(&mut self)
        ensures
            final(self)@ == old(self)@.spec_flush(),
    {
        fill_zeros(&mut self.buffer);
    }

    /// The codec this engine implements.
    pub fn id(&self) -> (id: CodecId)
        ensures
            id == CodecId::Opus,
    {
        CodecId::Opus
    }

    /// The name under which this engine is registered.
    pub fn name(&self) -> (name: &'static str)
        ensures
            name@ == CODEC_NAME@,
    {
        CODEC_NAME
    }
}

/// Builds Opus encoders.
#[derive(Clone, Copy, Debug)]
pub struct OpusEncoderBuilder;

impl OpusEncoderBuilder {
    /// An encoder for `codec_id` under `params`, as `OpusEncoder::new`
    /// builds it.
    pub fn new_encoder(
        &self,
        codec_id: CodecId,
        params: &AudioEncoderParameters,
        options: Option<&OptionSet>,
    ) -> (r: Result<OpusEncoder, CodecError>)
        requires
            OpusEncoder::spec_can_build(codec_id, *params, spec_given(options)),
        ensures
            match r {
                Ok(encoder) => Ok::<EncoderState, CodecError>(encoder@),
                Err(e) => Err(e),
            } == EncoderState::spec_new(codec_id, *params, spec_given(options)),
    {
        OpusEncoder::new(codec_id, params, options)
    }

    /// The codec the built encoders implement.
    pub fn id(&self) -> (id: CodecId)
        ensures
            id == CodecId::Opus,
    {
        CodecId::Opus
    }

    /// The name under which the builder is registered.
    pub fn name(&self) -> (name: &'static str)
        ensures
            name@ == CODEC_NAME@,
    {
        CODEC_NAME
    }
}

} // verus!
