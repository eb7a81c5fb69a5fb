use crate::audio::{
    decode_shape, spec_decode_shape, AudioFrame, AudioFrameView, AudioParameters, AudioShape,
};
use crate::control::{ControlCall, OptionValue, OPUS_RESET_STATE, OPUS_SET_GAIN_REQUEST};
use crate::error::CodecError;
use crate::native::{NativeOutput, NativeOutputView};
use crate::options::{decoder_option, spec_decoder_option, DecoderOption, OptionSet};
use crate::queue::{spec_pop, PendingQueue};
use crate::CodecId;
use vstd::prelude::*;

verus! {

/// Room the output queue starts with.
pub const DEFAULT_PACKET_PENDING_CAPACITY: usize = 2;

/// The name under which the decoder is registered.
pub const CODEC_NAME: &'static str = "opus-dec";

/// The audio part of a decoder's configuration.
#[derive(Clone, Copy, Debug, PartialEq, Eq, Structural)]
pub struct AudioDecoderParameters {
    pub audio: AudioParameters,
}

/// One decode for the host to perform on the packet in hand.
///
/// With `fec` set the engine is asked to rebuild the frame before this
/// packet from the redundancy the packet carries, and to produce as many
/// samples as the packet's header declares for one frame. Without it the
/// engine decodes the packet itself into a buffer of `shape.samples` samples.
#[derive(Clone, Copy, Debug, PartialEq, Eq, Structural)]
pub struct DecodeRequest {
    pub fec: bool,
    /// The shape of the buffer the engine writes into.
    pub shape: AudioShape,
    /// Whether the packet holds anything: after a recovery, whether the
    /// packet itself is still to be decoded.
    pub more: bool,
}

impl DecodeRequest {
    /// The sample count to ask the engine for, or `None` where the host
    /// takes it from the packet's header. A decode of the packet itself asks
    /// for a full buffer. A recovery asks for what the header declares, and
    /// for no samples at all where the packet is empty and has no header.
    pub open spec fn spec_frame_size(self) -> Option<u32> {
        if !self.fec {
            Some(self.shape.samples)
        } else if self.more {
            None
        } else {
            Some(0)
        }
    }

    /// The sample count to ask the engine for, or `None` where the host
    /// takes it from the packet's header.
    #[verifier::when_used_as_spec(spec_frame_size)]
    pub fn frame_size(self) -> (samples: Option<u32>)
        ensures
            samples == self.spec_frame_size(),
    {
        if !self.fec {
            Some(self.shape.samples)
        } else if self.more {
            None
        } else {
            Some(0)
        }
    }

    /// The decode of the packet itself that follows a recovery.
    pub open spec fn spec_following(self) -> Option<DecodeRequest> {
        if self.fec && self.more {
            Some(DecodeRequest { fec: false, shape: self.shape, more: false })
        } else {
            None
        }
    }
}

/// What a decoder holds.
pub struct DecoderState {
    /// Frames produced and not yet taken, oldest first.
    pub pending: Seq<AudioFrameView>,
    /// Whether the packet before the next one counts as lost.
    pub packet_loss: bool,
    /// Whether a lost packet is to be rebuilt from the one after it.
    pub fec: bool,
    /// The rate and channel count the native decoder is created with.
    pub sample_rate: u32,
    pub channels: u8,
}

impl DecoderState {
    /// The state of a new decoder, or why there is none.
    pub open spec fn spec_new(codec_id: CodecId, params: AudioDecoderParameters) -> Result<
        DecoderState,
        CodecError,
    > {
        if codec_id != CodecId::Opus {
            Err(CodecError::UnsupportedCodec)
        } else if params.audio.sample_rate is None || params.audio.sample_rate == Some(0u32) {
            Err(CodecError::InvalidParameter)
        } else if params.audio.channels is None || params.audio.channels == Some(0u8) {
            Err(CodecError::InvalidParameter)
        } else {
            Ok(
                DecoderState {
                    pending: Seq::empty(),
                    packet_loss: false,
                    fec: false,
                    sample_rate: params.audio.sample_rate->0,
                    channels: params.audio.channels->0,
                },
            )
        }
    }

    /// The state after one option was set, and the control request to
    /// issue for it, if it takes one; or the refusal of a key that names no
    /// option.
    pub open spec fn spec_set_option(self, key: Seq<char>, value: OptionValue) -> (
        DecoderState,
        Result<Option<ControlCall>, CodecError>,
    ) {
        let v = value.spec_as_int();
        match spec_decoder_option(key) {
            Some(DecoderOption::Gain) => (
                self,
                Ok(Some(ControlCall::spec_set(OPUS_SET_GAIN_REQUEST, v))),
            ),
            Some(DecoderOption::PacketLoss) => (
                DecoderState { packet_loss: v != 0, ..self },
                Ok(None),
            ),
            Some(DecoderOption::Fec) => (DecoderState { fec: v != 0, ..self }, Ok(None)),
            None => (self, Err(CodecError::UnsupportedOption)),
        }
    }

    /// What the host is to decode first for a packet of `packet_len` bytes:
    /// the lost frame where recovery is on and a loss was flagged, else the
    /// packet itself unless it is empty, else nothing.
    pub open spec fn spec_send_packet(self, config: AudioParameters, packet_len: int) -> Result<
        Option<DecodeRequest>,
        CodecError,
    > {
        match spec_decode_shape(config) {
            None => Err(CodecError::InvalidParameter),
            Some(shape) => if self.fec && self.packet_loss {
                Ok(Some(DecodeRequest { fec: true, shape, more: packet_len > 0 }))
            } else if packet_len > 0 {
                Ok(Some(DecodeRequest { fec: false, shape, more: false }))
            } else {
                Ok(None)
            },
        }
    }

    /// The frame that a decode becomes once the engine has written
    /// `status` samples into `data`: the samples it reported and no more.
    pub open spec fn spec_frame(request: DecodeRequest, status: i32, data: Seq<u8>) -> AudioFrameView {
        AudioFrameView {
            shape: AudioShape { samples: status as u32, ..request.shape },
            pts: None,
            time_base: None,
            data: Some(data.subrange(0, request.shape.bytes_for(status as int))),
        }
    }

    /// Whether the engine's answer can be cut to a frame: it reports at
    /// least one sample, no more than the buffer was made for, and the
    /// buffer holds them all.
    pub open spec fn spec_fits(request: DecodeRequest, status: i32, data: Seq<u8>) -> bool {
        0 < status <= request.shape.samples && request.shape.bytes_for(status as int) <= data.len()
    }

    /// The state after the engine's answer to `request` was taken in, and
    /// the decode that follows, if there is one.
    ///
    /// A buffer that could not be written, a negative status, or a sample
    /// count that the buffer cannot be cut to fails the call and changes
    /// nothing. Otherwise the frame joins the queue behind those already
    /// there, and a recovery clears the loss flag.
    pub open spec fn spec_decoded(self, request: DecodeRequest, output: NativeOutputView) -> (
        DecoderState,
        Result<Option<DecodeRequest>, CodecError>,
    ) {
        match output {
            NativeOutputView::NotWritable => (self, Err(CodecError::NotWritable)),
            NativeOutputView::Returned { status, data } => {
                if status < 0 {
                    (self, Err(CodecError::DecodeFailed(status)))
                } else if !Self::spec_fits(request, status, data) {
                    (self, Err(CodecError::InvalidParameter))
                } else {
                    (
                        DecoderState {
                            pending: self.pending.push(Self::spec_frame(request, status, data)),
                            packet_loss: if request.fec {
                                false
                            } else {
                                self.packet_loss
                            },
                            ..self
                        },
                        Ok(request.spec_following()),
                    )
                }
            },
        }
    }

    /// The state after the oldest frame was taken, and that frame; or
    /// `Again` and the same state where nothing is queued.
    pub open spec fn spec_receive_frame(self) -> (DecoderState, Result<AudioFrameView, CodecError>) {
        let (rest, taken) = spec_pop(self.pending);
        (DecoderState { pending: rest, ..self }, taken)
    }
}

/// An Opus decoder without its native half.
#[derive(Debug)]
pub struct OpusDecoder {
    pending: PendingQueue<AudioFrame>,
    packet_loss: bool,
    fec: bool,
    sample_rate: u32,
    channels: u8,
}

impl View for OpusDecoder {
    type V = DecoderState;

    closed spec fn view(&self) -> DecoderState {
        DecoderState {
            pending: self.pending@.map_values(|frame: AudioFrame| frame@),
            packet_loss: self.packet_loss,
            fec: self.fec,
            sample_rate: self.sample_rate,
            channels: self.channels,
        }
    }
}

impl OpusDecoder {
    /// Validates a configuration and builds the decoder for it.
    ///
    /// The codec must be Opus, and the sample rate and channel count
    /// present and not zero. Options are accepted and not looked at. Nothing
    /// native exists yet when this returns: the host creates the native
    /// decoder from `sample_rate` and `channels`.
    pub fn new(
        codec_id: CodecId,
        params: &AudioDecoderParameters,
        _options: Option<&OptionSet>,
    ) -> (r: Result<OpusDecoder, CodecError>)
        ensures
            match r {
                Ok(decoder) => Ok::<DecoderState, CodecError>(decoder@),
                Err(e) => Err(e),
            } == DecoderState::spec_new(codec_id, *params),
    {
        match codec_id {
            CodecId::Opus => {},
            CodecId::Other => return Err(CodecError::UnsupportedCodec),
        }
        let sample_rate = match params.audio.sample_rate {
            Some(sample_rate) => sample_rate,
            None => return Err(CodecError::InvalidParameter),
        };
        if sample_rate == 0 {
            return Err(CodecError::InvalidParameter);
        }
        let channels = match params.audio.channels {
            Some(channels) => channels,
            None => return Err(CodecError::InvalidParameter),
        };
        if channels == 0 {
            return Err(CodecError::InvalidParameter);
        }
        let decoder = OpusDecoder {
            pending: PendingQueue::with_capacity(DEFAULT_PACKET_PENDING_CAPACITY),
            packet_loss: false,
            fec: false,
            sample_rate,
            channels,
        };
        assert(decoder@.pending == Seq::<AudioFrameView>::empty());
        Ok(decoder)
    }

    /// Whether the packet before the next one counts as lost.
    pub fn packet_loss(&self) -> (flag: bool)
        ensures
            flag == self@.packet_loss,
    {
        self.packet_loss
    }

    /// Whether a lost packet is to be rebuilt from the one after it.
    pub fn fec(&self) -> (flag: bool)
        ensures
            flag == self@.fec,
    {
        self.fec
    }

    /// The sample rate the native decoder is created with.
    pub fn sample_rate(&self) -> (sample_rate: u32)
        ensures
            sample_rate == self@.sample_rate,
    {
        self.sample_rate
    }

    /// The channel count the native decoder is created with.
    pub fn channels(&self) -> (channels: u8)
        ensures
            channels == self@.channels,
    {
        self.channels
    }

    /// The number of frames waiting to be taken.
    pub fn pending(&self) -> (count: usize)
        ensures
            count == self@.pending.len(),
    {
        self.pending.len()
    }

    /// Accepts a configuration. A decoder has nothing to reconfigure.
    pub fn configure(&mut self, _params: Option<&AudioDecoderParameters>, _options: Option<&OptionSet>)
        ensures
            final(self)@ == old(self)@,
    {
    }

    /// The shape of the buffer one decode writes into under `config`.
    pub fn create_descriptor(&self, config: &AudioParameters) -> (r: Result<AudioShape, CodecError>)
        ensures
            r == match spec_decode_shape(*config) {
                Some(shape) => Ok::<AudioShape, CodecError>(shape),
                None => Err(CodecError::InvalidParameter),
            },
            r matches Ok(shape) ==> shape.wf() && shape.format.spec_is_supported(),
    {
        decode_shape(config)
    }

    /// Sets one option by name. `gain` becomes a control request for the
    /// host to issue; `packet_loss` and `fec` only steer this decoder's own
    /// recovery and reach no engine. A key that names no option changes
    /// nothing.
    pub fn set_option(&mut self, key: &str, value: OptionValue) -> (r: Result<
        Option<ControlCall>,
        CodecError,
    >)
        ensures
            (final(self)@, r) == old(self)@.spec_set_option(key@, value),
            spec_decoder_option(key@) is None ==> r == Err::<Option<ControlCall>, CodecError>(
                CodecError::UnsupportedOption,
            ) && final(self)@ == old(self)@,
    {
        let v = value.as_int();
        match decoder_option(key) {
            Some(DecoderOption::Gain) => Ok(Some(ControlCall::set(OPUS_SET_GAIN_REQUEST, v))),
            Some(DecoderOption::PacketLoss) => {
                self.packet_loss = v != 0;
                Ok(None)
            },
            Some(DecoderOption::Fec) => {
                self.fec = v != 0;
                Ok(None)
            },
            None => Err(CodecError::UnsupportedOption),
        }
    }

    /// Says what the host is to decode first for a packet of `packet_len`
    /// bytes, under the configuration as it stands now.
    ///
    /// An empty packet produces no frame of its own and flags no loss: a
    /// caller that knows of a loss sets `packet_loss` beforehand.
    pub fn send_packet(&self, config: &AudioParameters, packet_len: usize) -> (r: Result<
        Option<DecodeRequest>,
        CodecError,
    >)
        ensures
            r == self@.spec_send_packet(*config, packet_len as int),
    {
        let shape = decode_shape(config)?;
        if self.fec && self.packet_loss {
            Ok(Some(DecodeRequest { fec: true, shape, more: packet_len > 0 }))
        } else if packet_len > 0 {
            Ok(Some(DecodeRequest { fec: false, shape, more: false }))
        } else {
            Ok(None)
        }
    }

    /// Takes in what the engine answered to `request` and says what the
    /// host is to decode next, if anything.
    ///
    /// On success the frame is cut to the samples the engine reported and
    /// queued. Frames queued earlier stay queued whatever this call returns.
    pub fn decoded(&mut self, request: DecodeRequest, output: NativeOutput) -> (r: Result<
        Option<DecodeRequest>,
        CodecError,
    >)
        ensures
            (final(self)@, r) == old(self)@.spec_decoded(request, output@),
    {
        let (status, mut data) = match output {
            NativeOutput::NotWritable => return Err(CodecError::NotWritable),
            NativeOutput::Returned { status, data } => (status, data),
        };
        if status < 0 {
            return Err(CodecError::DecodeFailed(status));
        }
        let samples: u32 = status as u32;
        if samples == 0 || samples > request.shape.samples {
            return Err(CodecError::InvalidParameter);
        }
        let sample_size: u32 = request.shape.sample_size();
        assert(samples * sample_size <= 0xffff_ffff * 2040) by (nonlinear_arith)
            requires
                0 <= samples <= 0xffff_ffff,
                0 <= sample_size <= 2040,
        ;
        let bytes: u64 = samples as u64 * sample_size as u64;
        if bytes > data.len() as u64 {
            return Err(CodecError::InvalidParameter);
        }
        data.truncate(bytes as usize);
        let frame = AudioFrame {
            shape: AudioShape {
                format: request.shape.format,
                samples,
                sample_rate: request.shape.sample_rate,
                channels: request.shape.channels,
            },
            pts: None,
            time_base: None,
            data: Some(data),
        };
        let ghost before = self.pending@;
        self.pending.push(frame);
        assert(before.push(frame).map_values(|frame: AudioFrame| frame@) == before.map_values(
            |frame: AudioFrame| frame@,
        ).push(frame@));
        if request.fec {
            self.packet_loss = false;
            if request.more {
                return Ok(Some(DecodeRequest { fec: false, shape: request.shape, more: false }));
            }
        }
        Ok(None)
    }

    /// Takes the oldest frame, or reports `Again` where none is queued.
    pub fn receive_frame(&mut self) -> (r: Result<AudioFrame, CodecError>)
        ensures
            (
                final(self)@,
                match r {
                    Ok(frame) => Ok::<AudioFrameView, CodecError>(frame@),
                    Err(e) => Err(e),
                },
            ) == old(self)@.spec_receive_frame(),
    {
        let ghost before = self.pending@;
        let r = self.pending.pop();
        proof {
            if before.len() > 0 {
                assert(before.subrange(1, before.len() as int).map_values(|frame: AudioFrame| frame@)
                    == before.map_values(|frame: AudioFrame| frame@).subrange(
                    1,
                    before.len() as int,
                ));
            }
        }
        r
    }

    /// Refuses: a frame that borrows from the decoder is never offered.
    pub fn receive_frame_borrowed(&mut self) -> (r: Result<AudioFrame, CodecError>)
        ensures
            r is Err,
            r->Err_0 == CodecError::BorrowedOutputUnsupported,
            final(self)@ == old(self)@,
    {
        Err(CodecError::BorrowedOutputUnsupported)
    }

    /// The control request that makes the native decoder forget the stream
    /// so far. The host issues it and does not look at its status. The
    /// queue and the two flags stay as they are.
    pub fn flush(&self) -> (call: ControlCall)
        ensures
            call == (ControlCall { request: OPUS_RESET_STATE, value: None }),
    {
        ControlCall { request: OPUS_RESET_STATE, value: None }
    }

    /// The codec this engine implements.
    pub fn id(&self) -> (id: CodecId)
        ensures
            id == CodecId::Opus,
    {
        CodecId::Opus
    }

    /// The name under which this engine is registered.
    pub fn name(&self) -> (name: &'static str)
        ensures
            name@ == CODEC_NAME@,
    {
        CODEC_NAME
    }
}

/// Builds Opus decoders.
#[derive(Clone, Copy, Debug)]
pub struct OpusDecoderBuilder;

impl OpusDecoderBuilder {
    /// A decoder for `codec_id` under `params`, as `OpusDecoder::new` builds
    /// it.
    pub fn new_decoder(
        &self,
        codec_id: CodecId,
        params: &AudioDecoderParameters,
        options: Option<&OptionSet>,
    ) -> (r: Result<OpusDecoder, CodecError>)
        ensures
            match r {
                Ok(decoder) => Ok::<DecoderState, CodecError>(decoder@),
                Err(e) => Err(e),
            } == DecoderState::spec_new(codec_id, *params),
    {
        OpusDecoder::new(codec_id, params, options)
    }

    /// The codec the built decoders implement.
    pub fn id(&self) -> (id: CodecId)
        ensures
            id == CodecId::Opus,
    {
        CodecId::Opus
    }

    /// The name under which the builder is registered.
    pub fn name(&self) -> (name: &'static str)
        ensures
            name@ == CODEC_NAME@,
    {
        CODEC_NAME
    }
}

} // verus!
