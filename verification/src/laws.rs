use crate::audio::{spec_decode_shape, AudioFrameView, AudioParameters};
use crate::control::{ControlCall, OptionValue};
use crate::decoder::{DecodeRequest, DecoderState};
use crate::encoder::{
    zeros, AudioEncoderParameters, EncodeRequest, EncoderState, OpusEncoder, PacketView,
    MAX_PACKET_SIZE,
};
use crate::error::CodecError;
use crate::native::NativeOutputView;
use crate::options::{
    spec_canonical_samples, spec_decoder_option, spec_encoder_option, spec_is_legal_frame,
    spec_scaled_samples, OptionSet, OpusOptions,
};
use crate::CodecId;
use crate::queue::spec_drained;
use crate::time::{lemma_ticks_bounds, ticks_for_samples, TimeBase};
use vstd::prelude::*;

verus! {

/// With recovery on and a loss flagged, a packet that is not empty
/// produces exactly two frames: the recovered one first, the packet's own
/// behind it. The loss flag is down as soon as the recovered frame is in, and
/// stays down. The recovery asks for the samples the packet's header
/// declares, the decode of the packet itself for a full buffer.
pub proof fn law_recovery_comes_first(
    state: DecoderState,
    config: AudioParameters,
    packet_len: int,
    recovered: (i32, Seq<u8>),
    decoded: (i32, Seq<u8>),
)
    requires
        state.fec,
        state.packet_loss,
        packet_len > 0,
        spec_decode_shape(config) is Some,
    ensures
        ({
            let shape = spec_decode_shape(config)->0;
            let first = DecodeRequest { fec: true, shape, more: true };
            let second = DecodeRequest { fec: false, shape, more: false };
            let (after_first, next) = state.spec_decoded(
                first,
                NativeOutputView::Returned { status: recovered.0, data: recovered.1 },
            );
            let (after_second, last) = after_first.spec_decoded(
                second,
                NativeOutputView::Returned { status: decoded.0, data: decoded.1 },
            );
            &&& state.spec_send_packet(config, packet_len) == Ok::<
                Option<DecodeRequest>,
                CodecError,
            >(Some(first))
            &&& first.spec_frame_size() is None
            &&& second.spec_frame_size() == Some(shape.samples)
            &&& DecoderState::spec_fits(first, recovered.0, recovered.1) ==> {
                &&& next == Ok::<Option<DecodeRequest>, CodecError>(Some(second))
                &&& !after_first.packet_loss
                &&& after_first.pending == state.pending.push(
                    DecoderState::spec_frame(first, recovered.0, recovered.1),
                )
                &&& DecoderState::spec_fits(second, decoded.0, decoded.1) ==> {
                    &&& last == Ok::<Option<DecodeRequest>, CodecError>(None)
                    &&& !after_second.packet_loss
                    &&& after_second.pending == state.pending.push(
                        DecoderState::spec_frame(first, recovered.0, recovered.1),
                    ).push(DecoderState::spec_frame(second, decoded.0, decoded.1))
                }
                &&& !DecoderState::spec_fits(second, decoded.0, decoded.1) ==> {
                    &&& last is Err
                    &&& after_second == after_first
                }
            }
        }),
{
}

/// With recovery on and a loss flagged, an empty packet still leads to a
/// recovery, and to nothing else. It has no header, so the engine is asked
/// for no samples; what the engine makes of that decides the call.
pub proof fn law_empty_packet_recovers_only(
    state: DecoderState,
    config: AudioParameters,
    recovered: (i32, Seq<u8>),
)
    requires
        state.fec,
        state.packet_loss,
        spec_decode_shape(config) is Some,
    ensures
        ({
            let first = DecodeRequest { fec: true, shape: spec_decode_shape(config)->0, more: false };
            let (after, next) = state.spec_decoded(
                first,
                NativeOutputView::Returned { status: recovered.0, data: recovered.1 },
            );
            &&& state.spec_send_packet(config, 0) == Ok::<Option<DecodeRequest>, CodecError>(
                Some(first),
            )
            &&& first.spec_frame_size() == Some(0u32)
            &&& DecoderState::spec_fits(first, recovered.0, recovered.1) ==> {
                &&& next == Ok::<Option<DecodeRequest>, CodecError>(None)
                &&& !after.packet_loss
                &&& after.pending == state.pending.push(
                    DecoderState::spec_frame(first, recovered.0, recovered.1),
                )
            }
        }),
{
}

/// Without a flagged loss, or with recovery off, no recovery is asked for:
/// a packet that is not empty is decoded once, and an empty one not at all.
pub proof fn law_no_recovery_without_loss(state: DecoderState, config: AudioParameters, packet_len: int)
    requires
        !(state.fec && state.packet_loss),
        spec_decode_shape(config) is Some,
        packet_len >= 0,
    ensures
        state.spec_send_packet(config, packet_len) == Ok::<Option<DecodeRequest>, CodecError>(
            if packet_len > 0 {
                Some(DecodeRequest { fec: false, shape: spec_decode_shape(config)->0, more: false })
            } else {
                None
            },
        ),
{
}

/// A frame that a decode queues holds the samples the engine reported and
/// no more, whatever room the buffer had: its sample count is the status,
/// its data is that many samples long, and it is well formed.
pub proof fn law_frame_is_cut_to_the_status(request: DecodeRequest, status: i32, data: Seq<u8>)
    requires
        request.shape.wf(),
        request.shape.format.spec_is_supported(),
        DecoderState::spec_fits(request, status, data),
    ensures
        ({
            let frame = DecoderState::spec_frame(request, status, data);
            &&& frame.shape.samples == status
            &&& frame.shape.format == request.shape.format
            &&& frame.shape.sample_rate == request.shape.sample_rate
            &&& frame.shape.channels == request.shape.channels
            &&& frame.data is Some
            &&& frame.data->0.len() == status * request.shape.spec_sample_size()
            &&& frame.data->0 == data.subrange(0, status * request.shape.spec_sample_size())
            &&& frame.wf()
        }),
{
    let size = request.shape.spec_sample_size() as int;
    assert(request.shape.channels * request.shape.format.spec_bytes() <= 2040) by (nonlinear_arith)
        requires
            0 <= request.shape.channels <= 255,
            0 <= request.shape.format.spec_bytes() <= 8,
    ;
    assert(0 <= status * size <= 0xffff_ffff * 2040) by (nonlinear_arith)
        requires
            0 <= status <= 0xffff_ffff,
            0 <= size <= 2040,
    ;
}

/// A call that fails leaves the decoder as it was: what was queued before
/// is still queued, in the same order.
pub proof fn law_failed_decode_keeps_queue(
    state: DecoderState,
    request: DecodeRequest,
    output: NativeOutputView,
)
    ensures
        state.spec_decoded(request, output).1 is Err ==> state.spec_decoded(request, output).0
            == state,
        state.spec_decoded(request, output).1 is Ok ==> state.spec_decoded(
            request,
            output,
        ).0.pending.drop_last() == state.pending,
{
    let (after, r) = state.spec_decoded(request, output);
    if r is Ok {
        assert(after.pending.drop_last() == state.pending);
    }
}

/// The chunk with the given index in a frame of `data_len` bytes, reached
/// by stepping from the first chunk; `None` past the end of the frame.
pub open spec fn spec_chunk_at(first: EncodeRequest, data_len: int, index: nat) -> Option<
    EncodeRequest,
>
    decreases index,
{
    if index == 0 {
        Some(first)
    } else {
        match spec_chunk_at(first, data_len, (index - 1) as nat) {
            Some(previous) => previous.spec_next(data_len),
            None => None,
        }
    }
}

/// The bytes of a frame that chunk `index` covers, for chunks of
/// `chunk_size` bytes.
pub open spec fn spec_chunk_len(data_len: int, chunk_size: int, index: int) -> int {
    if data_len - index * chunk_size < chunk_size {
        data_len - index * chunk_size
    } else {
        chunk_size
    }
}

/// Stepping from the first chunk visits the chunks of a frame in order and
/// stops at its end. Chunk `index` starts `index` full chunks into the data,
/// its presentation time is that of the first plus `index` durations, and it
/// exists exactly while `index * chunk_size` is short of the data's end: a
/// frame is cut into as many chunks as are needed to cover it, the last one
/// short where the data is no multiple of the chunk size.
pub proof fn law_chunks_cover_frame(first: EncodeRequest, data_len: int, index: nat)
    requires
        first.offset == 0,
        first.chunk_size > 0,
        0 < data_len <= usize::MAX,
        first.len == spec_chunk_len(data_len, first.chunk_size as int, 0),
        first.duration >= 0,
        first.pts + index * first.duration <= i64::MAX,
    ensures
        index * first.chunk_size < data_len ==> spec_chunk_at(first, data_len, index) == Some(
            EncodeRequest {
                offset: (index * first.chunk_size) as usize,
                len: spec_chunk_len(data_len, first.chunk_size as int, index as int) as usize,
                pts: (first.pts + index * first.duration) as i64,
                ..first
            },
        ),
        index * first.chunk_size >= data_len ==> spec_chunk_at(first, data_len, index) is None,
    decreases index,
{
    let chunk = first.chunk_size as int;
    if index == 0 {
        assert(0 * chunk == 0);
        assert(first.pts + 0 * first.duration == first.pts) by (nonlinear_arith);
    } else {
        let before = (index - 1) as nat;
        assert(before * chunk + chunk == index * chunk) by (nonlinear_arith)
            requires
                before + 1 == index,
        ;
        assert(before * first.duration + first.duration == index * first.duration)
            by (nonlinear_arith)
            requires
                before + 1 == index,
        ;
        assert(0 <= before * first.duration) by (nonlinear_arith)
            requires
                0 <= before,
                0 <= first.duration,
        ;
        assert(0 <= before * chunk) by (nonlinear_arith)
            requires
                0 <= before,
                0 <= chunk,
        ;
        law_chunks_cover_frame(first, data_len, before);
        if before * chunk < data_len {
            let previous = spec_chunk_at(first, data_len, before)->0;
            assert(previous.offset == before * chunk);
            assert(previous.pts == first.pts + before * first.duration);
        }
    }
}

/// The presentation time a frame's packets start from: the frame's own, or
/// zero where it has none.
pub open spec fn spec_first_pts(frame: AudioFrameView) -> i64 {
    match frame.pts {
        Some(pts) => pts,
        None => 0,
    }
}

/// A frame that the encoder accepts is cut into chunks of `frame_size`
/// samples. Chunk `index` exists exactly while `index * frame_size` is short
/// of the frame's sample count, so a frame of `n` samples becomes `n /
/// frame_size` packets, rounded up. Every packet of the frame lasts the same
/// and is timed in the same time base: the frame's own where it has one,
/// else one tick per sample, in which a chunk lasts `frame_size` ticks. The
/// first packet starts at the frame's presentation time, or at zero where
/// the frame has none, and each later one starts one duration after the one
/// before it.
pub proof fn law_packets_follow_the_frame(state: EncoderState, frame: AudioFrameView, index: nat)
    requires
        OpusEncoder::spec_can_send(state, frame),
        frame.shape.format.spec_is_supported(),
        frame.data is Some,
        frame.data->0.len() <= usize::MAX,
        spec_first_pts(frame) + index * state.spec_first_request(frame).duration <= i64::MAX,
    ensures
        ({
            let first = state.spec_first_request(frame);
            let chunk = spec_chunk_at(first, frame.data->0.len() as int, index);
            &&& state.spec_send_frame(frame).1 == Ok::<Option<EncodeRequest>, CodecError>(
                Some(first),
            )
            &&& first.pts == spec_first_pts(frame)
            &&& first.samples == state.options.frame_size
            &&& first.duration >= 0
            &&& frame.time_base is None ==> first.duration == state.options.frame_size
                && first.time_base == (TimeBase { num: 1, den: frame.shape.sample_rate as i64 })
            &&& frame.time_base matches Some(time_base) ==> first.time_base == time_base
                && first.duration == ticks_for_samples(
                state.options.frame_size as int,
                frame.shape.sample_rate as int,
                time_base.num as int,
                time_base.den as int,
            )
            &&& chunk is Some <==> index * state.options.frame_size < frame.shape.samples
            &&& chunk matches Some(request) ==> {
                &&& request.pts == first.pts + index * first.duration
                &&& request.duration == first.duration
                &&& request.time_base == first.time_base
                &&& request.samples == first.samples
                &&& request.format == frame.shape.format
                &&& request.capacity == MAX_PACKET_SIZE
                &&& request.offset == index * first.chunk_size
                &&& request.spec_is_padded() <==> (index + 1) * state.options.frame_size
                    > frame.shape.samples
            }
        }),
{
    let first = state.spec_first_request(frame);
    let size = frame.shape.spec_sample_size() as int;
    let frame_size = state.options.frame_size as int;
    let samples = frame.shape.samples as int;
    let data_len = frame.data->0.len() as int;
    let chunk_size = frame_size * size;
    assert(1 <= size <= 2040) by {
        assert(frame.shape.channels * frame.shape.format.spec_bytes() >= 1) by (nonlinear_arith)
            requires
                frame.shape.channels >= 1,
                frame.shape.format.spec_bytes() >= 1,
        ;
        assert(frame.shape.channels * frame.shape.format.spec_bytes() <= 2040) by (nonlinear_arith)
            requires
                0 <= frame.shape.channels <= 255,
                0 <= frame.shape.format.spec_bytes() <= 8,
        ;
    }
    assert(samples * size <= 0xffff_ffff * 2040) by (nonlinear_arith)
        requires
            0 <= samples <= 0xffff_ffff,
            0 <= size <= 2040,
    ;
    assert(data_len == samples * size);
    assert(chunk_size >= 1 && chunk_size >= frame_size) by (nonlinear_arith)
        requires
            chunk_size == frame_size * size,
            frame_size >= 1,
            size >= 1,
    ;
    assert(data_len >= 1) by (nonlinear_arith)
        requires
            data_len == samples * size,
            samples >= 1,
            size >= 1,
    ;
    match frame.time_base {
        Some(time_base) => {
            lemma_ticks_bounds(
                frame_size,
                frame.shape.sample_rate as int,
                time_base.num as int,
                time_base.den as int,
            );
        },
        None => {},
    }
    assert(first.duration >= 0);
    law_chunks_cover_frame(first, data_len, index);
    assert((index * frame_size) * size == index * chunk_size) by (nonlinear_arith)
        requires
            chunk_size == frame_size * size,
    ;
    assert(((index + 1) * frame_size) * size == index * chunk_size + chunk_size)
        by (nonlinear_arith)
        requires
            chunk_size == frame_size * size,
    ;
    assert(index * frame_size < samples <==> index * chunk_size < data_len) by (nonlinear_arith)
        requires
            (index * frame_size) * size == index * chunk_size,
            data_len == samples * size,
            size >= 1,
    ;
    assert((index + 1) * frame_size > samples <==> index * chunk_size + chunk_size > data_len)
        by (nonlinear_arith)
        requires
            ((index + 1) * frame_size) * size == index * chunk_size + chunk_size,
            data_len == samples * size,
            size >= 1,
    ;
}

/// The encoder and the request in hand after the host has encoded the
/// first `count` chunks of a frame, the engine having answered chunk `i`
/// with `outputs[i]`. There is no request in hand once the frame is used up
/// or an answer was refused.
pub open spec fn spec_after_chunks(
    state: EncoderState,
    frame: AudioFrameView,
    first: EncodeRequest,
    outputs: Seq<(i32, Seq<u8>)>,
    count: nat,
) -> (EncoderState, Option<EncodeRequest>)
    decreases count,
{
    if count == 0 {
        (state, Some(first))
    } else {
        let (before, request) = spec_after_chunks(state, frame, first, outputs, (count - 1) as nat);
        match request {
            Some(request) => {
                let (after, next) = before.spec_encoded(
                    frame,
                    request,
                    NativeOutputView::Returned {
                        status: outputs[count - 1].0,
                        data: outputs[count - 1].1,
                    },
                );
                (
                    after,
                    match next {
                        Ok(next) => next,
                        Err(_) => None,
                    },
                )
            },
            None => (before, None),
        }
    }
}

/// The packets that the first `count` chunks of a frame become.
pub open spec fn spec_packets(
    first: EncodeRequest,
    data_len: int,
    outputs: Seq<(i32, Seq<u8>)>,
    count: nat,
) -> Seq<PacketView> {
    Seq::new(
        count,
        |i: int|
            EncoderState::spec_packet(
                spec_chunk_at(first, data_len, i as nat)->0,
                outputs[i].0,
                outputs[i].1,
            ),
    )
}

/// Encoding the chunks of a frame one after the other queues one packet per
/// chunk, in chunk order, behind the packets that were queued before, and
/// changes nothing else but the scratch buffer. After `count` chunks the
/// request in hand is the one for chunk `count`, and there is none once the
/// frame is used up.
pub proof fn law_frame_becomes_packets(
    state: EncoderState,
    frame: AudioFrameView,
    first: EncodeRequest,
    outputs: Seq<(i32, Seq<u8>)>,
    count: nat,
)
    requires
        frame.data is Some,
        first.offset == 0,
        first.chunk_size > 0,
        0 < frame.data->0.len() <= usize::MAX,
        first.len == spec_chunk_len(frame.data->0.len() as int, first.chunk_size as int, 0),
        first.duration >= 0,
        first.pts + count * first.duration <= i64::MAX,
        count <= outputs.len(),
        count > 0 ==> (count - 1) * first.chunk_size < frame.data->0.len(),
        forall|i: int| 0 <= i < count ==> 0 <= (#[trigger] outputs[i]).0 <= outputs[i].1.len(),
    ensures
        ({
            let data_len = frame.data->0.len() as int;
            let (after, request) = spec_after_chunks(state, frame, first, outputs, count);
            &&& after.pending == state.pending + spec_packets(first, data_len, outputs, count)
            &&& request == spec_chunk_at(first, data_len, count)
            &&& after.options == state.options
            &&& after.format == state.format
            &&& after.sample_rate == state.sample_rate
            &&& after.channels == state.channels
        }),
    decreases count,
{
    let data_len = frame.data->0.len() as int;
    if count == 0 {
        assert(state.pending + spec_packets(first, data_len, outputs, 0) == state.pending);
    } else {
        let done = (count - 1) as nat;
        assert(0 <= done * first.duration <= count * first.duration) by (nonlinear_arith)
            requires
                0 <= done <= count,
                0 <= first.duration,
        ;
        if done > 0 {
            assert((done - 1) * first.chunk_size <= done * first.chunk_size) by (nonlinear_arith)
                requires
                    0 <= first.chunk_size,
            ;
        }
        law_frame_becomes_packets(state, frame, first, outputs, done);
        law_chunks_cover_frame(first, data_len, done);
        let (before, request) = spec_after_chunks(state, frame, first, outputs, done);
        assert(request is Some);
        let packet = EncoderState::spec_packet(request->0, outputs[done as int].0, outputs[done as int].1);
        assert(0 <= outputs[done as int].0 <= outputs[done as int].1.len());
        assert(spec_packets(first, data_len, outputs, done).push(packet) == spec_packets(
            first,
            data_len,
            outputs,
            count,
        ));
        assert((state.pending + spec_packets(first, data_len, outputs, done)).push(packet)
            == state.pending + spec_packets(first, data_len, outputs, count));
    }
}

/// The packet made from a chunk is as long as the engine said, whether the
/// chunk was a full one or a short one padded with silence.
pub proof fn law_packet_length_is_reported(
    state: EncoderState,
    frame: AudioFrameView,
    request: EncodeRequest,
    status: i32,
    data: Seq<u8>,
)
    requires
        0 <= status <= data.len(),
    ensures
        ({
            let (after, next) = state.spec_encoded(
                frame,
                request,
                NativeOutputView::Returned { status, data },
            );
            &&& next is Ok
            &&& after.pending.len() == state.pending.len() + 1
            &&& after.pending.drop_last() == state.pending
            &&& after.pending.last().data.len() == status
            &&& after.pending.last().data == data.subrange(0, status as int)
            &&& after.pending.last().pts == Some(request.pts)
            &&& after.pending.last().duration == Some(request.duration)
            &&& after.pending.last().time_base == Some(request.time_base)
        }),
{
    let (after, next) = state.spec_encoded(
        frame,
        request,
        NativeOutputView::Returned { status, data },
    );
    assert(after.pending.drop_last() == state.pending);
}

/// A call that fails leaves the encoder as it was: packets queued before
/// are still queued, in the same order.
pub proof fn law_failed_encode_keeps_queue(
    state: EncoderState,
    frame: AudioFrameView,
    request: EncodeRequest,
    output: NativeOutputView,
)
    ensures
        state.spec_encoded(frame, request, output).1 is Err ==> state.spec_encoded(
            frame,
            request,
            output,
        ).0 == state,
{
}

/// However an encoder gets its options, at construction or from a later
/// set of options, they fit it: the frame duration is one of the nine the
/// codec defines, the frame size is that duration's 48 kHz sample count
/// scaled to the encoder's own sample rate, and the scratch buffer is one
/// chunk of zeros. A set of options that is refused changes nothing, and the
/// queue is the same either way.
pub proof fn law_options_fit_the_encoder(
    codec_id: CodecId,
    parameters: AudioEncoderParameters,
    given: Option<OptionSet>,
    state: EncoderState,
    params: Option<AudioEncoderParameters>,
    set: OptionSet,
    status: i32,
)
    ensures
        EncoderState::spec_new(codec_id, parameters, given) matches Ok(built) ==> {
            &&& spec_is_legal_frame(spec_canonical_samples(built.options.frame_duration_us))
            &&& built.options.frame_size == spec_canonical_samples(
                built.options.frame_duration_us,
            ) * built.sample_rate / 48000
            &&& built.buffer == zeros(built.spec_scratch_len(built.options))
            &&& built.pending.len() == 0
        },
        ({
            let (after, r) = state.spec_configure(params, Some(set), status);
            &&& after.pending == state.pending
            &&& after.format == state.format
            &&& after.sample_rate == state.sample_rate
            &&& after.channels == state.channels
            &&& r is Err ==> after == state
            &&& r is Ok ==> {
                &&& spec_is_legal_frame(spec_canonical_samples(after.options.frame_duration_us))
                &&& after.options.frame_size == spec_canonical_samples(
                    after.options.frame_duration_us,
                ) * state.sample_rate / 48000
                &&& after.buffer == zeros(after.spec_scratch_len(after.options))
                &&& r->Ok_0 == after.options.spec_controls()
            }
        }),
{
    let given_options = OpusOptions::spec_from_options(given);
    lemma_scaled_frame_fits(
        spec_canonical_samples(given_options.frame_duration_us),
        parameters.audio.sample_rate->0,
    );
    let set_options = OpusOptions::spec_from_options(Some(set));
    lemma_scaled_frame_fits(spec_canonical_samples(set_options.frame_duration_us), state.sample_rate);
}

/// A legal frame scaled to a sample rate is no more than the rate, so it
/// fits where the rate fits.
proof fn lemma_scaled_frame_fits(canonical: u32, sample_rate: u32)
    ensures
        spec_is_legal_frame(canonical) ==> spec_scaled_samples(canonical, sample_rate) as u32
            == canonical * sample_rate / 48000,
{
    if spec_is_legal_frame(canonical) {
        assert(0 <= canonical * sample_rate / 48000 <= sample_rate) by (nonlinear_arith)
            requires
                0 <= canonical <= 5760,
                0 <= sample_rate,
        ;
    }
}

/// A key that names no option is refused as unsupported by both engines,
/// and neither engine's state changes.
pub proof fn law_unknown_key_changes_nothing(
    decoder: DecoderState,
    encoder: EncoderState,
    key: Seq<char>,
    value: OptionValue,
)
    ensures
        spec_decoder_option(key) is None ==> decoder.spec_set_option(key, value) == (
            decoder,
            Err::<Option<ControlCall>, CodecError>(CodecError::UnsupportedOption),
        ),
        spec_encoder_option(key) is None ==> encoder.spec_set_option(key, value) == (
            encoder,
            Err::<ControlCall, CodecError>(CodecError::UnsupportedOption),
        ),
        spec_decoder_option(key) is Some ==> decoder.spec_set_option(key, value).1 is Ok,
        spec_encoder_option(key) is Some ==> encoder.spec_set_option(key, value).1 is Ok,
{
}

/// The decoder after `count` frames were asked for.
pub open spec fn spec_decoder_drained(state: DecoderState, count: nat) -> DecoderState
    decreases count,
{
    if count == 0 {
        state
    } else {
        spec_decoder_drained(state.spec_receive_frame().0, (count - 1) as nat)
    }
}

/// The encoder after `count` packets were asked for.
pub open spec fn spec_encoder_drained(state: EncoderState, count: nat) -> EncoderState
    decreases count,
{
    if count == 0 {
        state
    } else {
        spec_encoder_drained(state.spec_receive_packet().0, (count - 1) as nat)
    }
}

/// Asking a decoder for frames gives each queued frame once, oldest first,
/// and `Again` from then on, however often it is asked; nothing but the
/// queue changes.
pub proof fn law_decoder_drains_in_order(state: DecoderState, count: nat)
    ensures
        spec_decoder_drained(state, count) == (DecoderState {
            pending: spec_drained(state.pending, count),
            ..state
        }),
        count < state.pending.len() ==> spec_decoder_drained(state, count).spec_receive_frame().1
            == Ok::<AudioFrameView, CodecError>(state.pending[count as int]),
        count >= state.pending.len() ==> spec_decoder_drained(state, count).spec_receive_frame().1
            == Err::<AudioFrameView, CodecError>(CodecError::Again),
        count >= state.pending.len() ==> spec_decoder_drained(state, count).spec_receive_frame().0
            == spec_decoder_drained(state, count),
    decreases count,
{
    crate::queue::law_each_entry_once(state.pending, count);
    if count > 0 {
        law_decoder_drains_in_order(state.spec_receive_frame().0, (count - 1) as nat);
    }
}

/// Asking an encoder for packets gives each queued packet once, oldest
/// first, and `Again` from then on, however often it is asked; nothing but
/// the queue changes.
pub proof fn law_encoder_drains_in_order(state: EncoderState, count: nat)
    ensures
        spec_encoder_drained(state, count) == (EncoderState {
            pending: spec_drained(state.pending, count),
            ..state
        }),
        count < state.pending.len() ==> spec_encoder_drained(state, count).spec_receive_packet().1
            == Ok::<PacketView, CodecError>(state.pending[count as int]),
        count >= state.pending.len() ==> spec_encoder_drained(state, count).spec_receive_packet().1
            == Err::<PacketView, CodecError>(CodecError::Again),
        count >= state.pending.len() ==> spec_encoder_drained(
            state,
            count,
        ).spec_receive_packet().0 == spec_encoder_drained(state, count),
    decreases count,
{
    crate::queue::law_each_entry_once(state.pending, count);
    if count > 0 {
        law_encoder_drains_in_order(state.spec_receive_packet().0, (count - 1) as nat);
    }
}

} // verus!
