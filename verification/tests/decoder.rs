use media_codec_opus::audio::{AudioFrame, AudioParameters, AudioShape, SampleFormat};
use media_codec_opus::control::{ControlCall, OptionValue};
use media_codec_opus::native::NativeOutput;
use media_codec_opus::decoder::{
    AudioDecoderParameters, DecodeRequest, OpusDecoder, OpusDecoderBuilder,
};
use media_codec_opus::error::CodecError;
use media_codec_opus::CodecId;

fn stereo_48k() -> AudioParameters {
    AudioParameters { format: Some(SampleFormat::S16), sample_rate: Some(48000), channels: Some(2) }
}

fn new_decoder() -> OpusDecoder {
    OpusDecoder::new(CodecId::Opus, &AudioDecoderParameters { audio: stereo_48k() }, None).unwrap()
}

fn stereo_shape(samples: u32) -> AudioShape {
    AudioShape { format: SampleFormat::S16, samples, sample_rate: 48000, channels: 2 }
}

fn engine_wrote(samples: i32, fill: u8) -> NativeOutput {
    NativeOutput::Returned { status: samples, data: vec![fill; 5760 * 4] }
}

#[test]
fn new_decoder_starts_empty_with_flags_down() {
    let decoder = new_decoder();
    assert_eq!(decoder.pending(), 0);
    assert!(!decoder.packet_loss());
    assert!(!decoder.fec());
    assert_eq!(decoder.sample_rate(), 48000);
    assert_eq!(decoder.channels(), 2);
    assert_eq!(decoder.id(), CodecId::Opus);
    assert_eq!(decoder.name(), "opus-dec");
}

#[test]
fn new_decoder_refuses_other_codecs() {
    let r = OpusDecoder::new(CodecId::Other, &AudioDecoderParameters { audio: stereo_48k() }, None);
    assert_eq!(r.err(), Some(CodecError::UnsupportedCodec));
}

#[test]
fn new_decoder_needs_rate_and_channels() {
    let no_rate = AudioParameters { sample_rate: None, ..stereo_48k() };
    let r = OpusDecoder::new(CodecId::Opus, &AudioDecoderParameters { audio: no_rate }, None);
    assert_eq!(r.err(), Some(CodecError::InvalidParameter));
    let no_channels = AudioParameters { channels: None, ..stereo_48k() };
    let r = OpusDecoder::new(CodecId::Opus, &AudioDecoderParameters { audio: no_channels }, None);
    assert_eq!(r.err(), Some(CodecError::InvalidParameter));
    let zero_rate = AudioParameters { sample_rate: Some(0), ..stereo_48k() };
    let r = OpusDecoder::new(CodecId::Opus, &AudioDecoderParameters { audio: zero_rate }, None);
    assert_eq!(r.err(), Some(CodecError::InvalidParameter));
    let no_format = AudioParameters { format: None, ..stereo_48k() };
    let r = OpusDecoder::new(CodecId::Opus, &AudioDecoderParameters { audio: no_format }, None);
    assert!(r.is_ok());
}

#[test]
fn decoder_builder_builds_decoders() {
    let builder = OpusDecoderBuilder;
    assert_eq!(builder.id(), CodecId::Opus);
    assert_eq!(builder.name(), "opus-dec");
    let decoder = builder
        .new_decoder(CodecId::Opus, &AudioDecoderParameters { audio: stereo_48k() }, None)
        .unwrap();
    assert_eq!(decoder.sample_rate(), 48000);
    let refused =
        builder.new_decoder(CodecId::Other, &AudioDecoderParameters { audio: stereo_48k() }, None);
    assert_eq!(refused.err(), Some(CodecError::UnsupportedCodec));
}

#[test]
fn decoder_set_option_gain_becomes_a_control_call() {
    let mut decoder = new_decoder();
    assert_eq!(
        decoder.set_option("gain", OptionValue::Int(-256)),
        Ok(Some(ControlCall { request: 4034, value: Some(-256) }))
    );
    assert!(!decoder.packet_loss());
    assert!(!decoder.fec());
}

#[test]
fn decoder_set_option_flags_reach_no_engine() {
    let mut decoder = new_decoder();
    assert_eq!(decoder.set_option("packet_loss", OptionValue::Bool(true)), Ok(None));
    assert!(decoder.packet_loss());
    assert!(!decoder.fec());
    assert_eq!(decoder.set_option("fec", OptionValue::Int(5)), Ok(None));
    assert!(decoder.fec());
    assert_eq!(decoder.set_option("packet_loss", OptionValue::Int(0)), Ok(None));
    assert!(!decoder.packet_loss());
    assert_eq!(decoder.set_option("fec", OptionValue::Bool(false)), Ok(None));
    assert!(!decoder.fec());
}

#[test]
fn decoder_set_option_unknown_key_changes_nothing() {
    let mut decoder = new_decoder();
    decoder.set_option("fec", OptionValue::Bool(true)).unwrap();
    for key in ["bit_rate", "complexity", "vbr", "nonsense", "", "FEC", "packet_loss_percent"] {
        assert_eq!(
            decoder.set_option(key, OptionValue::Int(1)),
            Err(CodecError::UnsupportedOption)
        );
        assert!(decoder.fec());
        assert!(!decoder.packet_loss());
        assert_eq!(decoder.pending(), 0);
    }
}

#[test]
fn send_packet_asks_for_one_decode_of_a_plain_packet() {
    let decoder = new_decoder();
    assert_eq!(
        decoder.send_packet(&stereo_48k(), 100),
        Ok(Some(DecodeRequest { fec: false, shape: stereo_shape(5760), more: false }))
    );
}

#[test]
fn send_packet_skips_an_empty_packet() {
    let mut decoder = new_decoder();
    assert_eq!(decoder.send_packet(&stereo_48k(), 0), Ok(None));
    assert!(!decoder.packet_loss());
    decoder.set_option("fec", OptionValue::Bool(true)).unwrap();
    assert_eq!(decoder.send_packet(&stereo_48k(), 0), Ok(None));
    assert!(!decoder.packet_loss());
}

#[test]
fn send_packet_without_fec_ignores_the_loss_flag() {
    let mut decoder = new_decoder();
    decoder.set_option("packet_loss", OptionValue::Bool(true)).unwrap();
    assert_eq!(
        decoder.send_packet(&stereo_48k(), 10),
        Ok(Some(DecodeRequest { fec: false, shape: stereo_shape(5760), more: false }))
    );
}

#[test]
fn send_packet_follows_the_live_configuration() {
    let decoder = new_decoder();
    let mono_float =
        AudioParameters { format: Some(SampleFormat::F32), sample_rate: Some(16000), channels: Some(1) };
    assert_eq!(
        decoder.send_packet(&mono_float, 40),
        Ok(Some(DecodeRequest {
            fec: false,
            shape: AudioShape {
                format: SampleFormat::F32,
                samples: 1920,
                sample_rate: 16000,
                channels: 1
            },
            more: false
        }))
    );
    let broken = AudioParameters { sample_rate: None, ..stereo_48k() };
    assert_eq!(decoder.send_packet(&broken, 40), Err(CodecError::InvalidParameter));
    assert_eq!(decoder.create_descriptor(&stereo_48k()), Ok(stereo_shape(5760)));
    assert_eq!(decoder.create_descriptor(&broken), Err(CodecError::InvalidParameter));
}

#[test]
fn request_frame_size_comes_from_the_header_for_recovery() {
    let normal = DecodeRequest { fec: false, shape: stereo_shape(5760), more: false };
    assert_eq!(normal.frame_size(), Some(5760));
    let recovery = DecodeRequest { fec: true, shape: stereo_shape(5760), more: true };
    assert_eq!(recovery.frame_size(), None);
    let headerless = DecodeRequest { fec: true, shape: stereo_shape(5760), more: false };
    assert_eq!(headerless.frame_size(), Some(0));
}

#[test]
fn decoded_frame_is_cut_to_the_reported_samples() {
    let mut decoder = new_decoder();
    let request = decoder.send_packet(&stereo_48k(), 80).unwrap().unwrap();
    assert_eq!(decoder.decoded(request, engine_wrote(960, 7)), Ok(None));
    assert_eq!(decoder.pending(), 1);
    let frame = decoder.receive_frame().unwrap();
    assert_eq!(
        frame,
        AudioFrame {
            shape: stereo_shape(960),
            pts: None,
            time_base: None,
            data: Some(vec![7u8; 960 * 4]),
        }
    );
}

#[test]
fn recovery_frame_is_queued_ahead_of_the_packets_own() {
    let mut decoder = new_decoder();
    decoder.set_option("fec", OptionValue::Bool(true)).unwrap();
    decoder.set_option("packet_loss", OptionValue::Bool(true)).unwrap();
    let first = decoder.send_packet(&stereo_48k(), 120).unwrap().unwrap();
    assert_eq!(first, DecodeRequest { fec: true, shape: stereo_shape(5760), more: true });
    let second = decoder.decoded(first, engine_wrote(480, 1)).unwrap().unwrap();
    assert_eq!(second, DecodeRequest { fec: false, shape: stereo_shape(5760), more: false });
    assert!(!decoder.packet_loss());
    assert_eq!(decoder.pending(), 1);
    assert_eq!(decoder.decoded(second, engine_wrote(960, 2)), Ok(None));
    assert!(!decoder.packet_loss());
    assert!(decoder.fec());
    assert_eq!(decoder.pending(), 2);
    let recovered = decoder.receive_frame().unwrap();
    assert_eq!(recovered.shape.samples, 480);
    assert_eq!(recovered.data, Some(vec![1u8; 480 * 4]));
    let own = decoder.receive_frame().unwrap();
    assert_eq!(own.shape.samples, 960);
    assert_eq!(own.data, Some(vec![2u8; 960 * 4]));
    assert_eq!(decoder.receive_frame(), Err(CodecError::Again));
}

#[test]
fn recovery_happens_once_per_flagged_loss() {
    let mut decoder = new_decoder();
    decoder.set_option("fec", OptionValue::Bool(true)).unwrap();
    decoder.set_option("packet_loss", OptionValue::Bool(true)).unwrap();
    let first = decoder.send_packet(&stereo_48k(), 120).unwrap().unwrap();
    let second = decoder.decoded(first, engine_wrote(960, 1)).unwrap().unwrap();
    decoder.decoded(second, engine_wrote(960, 2)).unwrap();
    let next = decoder.send_packet(&stereo_48k(), 120).unwrap().unwrap();
    assert!(!next.fec);
    assert_eq!(decoder.decoded(next, engine_wrote(960, 3)), Ok(None));
    assert_eq!(decoder.pending(), 3);
}

#[test]
fn empty_packet_with_flagged_loss_recovers_only() {
    let mut decoder = new_decoder();
    decoder.set_option("fec", OptionValue::Bool(true)).unwrap();
    decoder.set_option("packet_loss", OptionValue::Bool(true)).unwrap();
    let first = decoder.send_packet(&stereo_48k(), 0).unwrap().unwrap();
    assert_eq!(first, DecodeRequest { fec: true, shape: stereo_shape(5760), more: false });
    assert_eq!(decoder.decoded(first, engine_wrote(960, 9)), Ok(None));
    assert!(!decoder.packet_loss());
    assert_eq!(decoder.pending(), 1);
}

#[test]
fn failed_recovery_keeps_the_loss_flag_and_the_queue() {
    let mut decoder = new_decoder();
    let plain = decoder.send_packet(&stereo_48k(), 50).unwrap().unwrap();
    decoder.decoded(plain, engine_wrote(960, 4)).unwrap();
    decoder.set_option("fec", OptionValue::Bool(true)).unwrap();
    decoder.set_option("packet_loss", OptionValue::Bool(true)).unwrap();
    let first = decoder.send_packet(&stereo_48k(), 50).unwrap().unwrap();
    assert_eq!(decoder.decoded(first, engine_wrote(-4, 0)), Err(CodecError::DecodeFailed(-4)));
    assert!(decoder.packet_loss());
    assert_eq!(decoder.pending(), 1);
    assert_eq!(decoder.receive_frame().unwrap().data, Some(vec![4u8; 960 * 4]));
}

#[test]
fn failed_decode_after_recovery_keeps_the_recovered_frame() {
    let mut decoder = new_decoder();
    decoder.set_option("fec", OptionValue::Bool(true)).unwrap();
    decoder.set_option("packet_loss", OptionValue::Bool(true)).unwrap();
    let first = decoder.send_packet(&stereo_48k(), 50).unwrap().unwrap();
    let second = decoder.decoded(first, engine_wrote(240, 5)).unwrap().unwrap();
    assert_eq!(decoder.decoded(second, engine_wrote(-1, 0)), Err(CodecError::DecodeFailed(-1)));
    assert!(!decoder.packet_loss());
    assert_eq!(decoder.pending(), 1);
    let recovered = decoder.receive_frame().unwrap();
    assert_eq!(recovered.shape.samples, 240);
    assert_eq!(recovered.data, Some(vec![5u8; 240 * 4]));
}

#[test]
fn decoded_refuses_a_buffer_that_was_not_writable() {
    let mut decoder = new_decoder();
    let request = decoder.send_packet(&stereo_48k(), 50).unwrap().unwrap();
    assert_eq!(decoder.decoded(request, NativeOutput::NotWritable), Err(CodecError::NotWritable));
    assert_eq!(decoder.pending(), 0);
}

#[test]
fn decoded_refuses_sample_counts_that_cannot_be_cut_to() {
    let mut decoder = new_decoder();
    let request = decoder.send_packet(&stereo_48k(), 50).unwrap().unwrap();
    assert_eq!(decoder.decoded(request, engine_wrote(0, 0)), Err(CodecError::InvalidParameter));
    assert_eq!(decoder.decoded(request, engine_wrote(5761, 0)), Err(CodecError::InvalidParameter));
    let short = NativeOutput::Returned { status: 960, data: vec![0u8; 960 * 4 - 1] };
    assert_eq!(decoder.decoded(request, short), Err(CodecError::InvalidParameter));
    assert_eq!(decoder.pending(), 0);
    assert_eq!(decoder.decoded(request, engine_wrote(5760, 3)), Ok(None));
    assert_eq!(decoder.receive_frame().unwrap().data, Some(vec![3u8; 5760 * 4]));
}

#[test]
fn receive_frame_reports_again_until_a_frame_is_queued() {
    let mut decoder = new_decoder();
    for _ in 0..5 {
        assert_eq!(decoder.receive_frame(), Err(CodecError::Again));
    }
    let request = decoder.send_packet(&stereo_48k(), 50).unwrap().unwrap();
    decoder.decoded(request, engine_wrote(120, 8)).unwrap();
    let frame = decoder.receive_frame().unwrap();
    assert_eq!(frame.shape.samples, 120);
    for _ in 0..5 {
        assert_eq!(decoder.receive_frame(), Err(CodecError::Again));
    }
}

#[test]
fn receive_frame_borrowed_is_never_offered() {
    let mut decoder = new_decoder();
    assert_eq!(decoder.receive_frame_borrowed(), Err(CodecError::BorrowedOutputUnsupported));
    let request = decoder.send_packet(&stereo_48k(), 50).unwrap().unwrap();
    decoder.decoded(request, engine_wrote(120, 8)).unwrap();
    assert_eq!(decoder.receive_frame_borrowed(), Err(CodecError::BorrowedOutputUnsupported));
    assert_eq!(decoder.pending(), 1);
}

#[test]
fn decoder_flush_resets_the_engine_and_nothing_else() {
    let mut decoder = new_decoder();
    decoder.set_option("fec", OptionValue::Bool(true)).unwrap();
    decoder.set_option("packet_loss", OptionValue::Bool(true)).unwrap();
    let first = decoder.send_packet(&stereo_48k(), 0).unwrap().unwrap();
    decoder.decoded(first, engine_wrote(960, 9)).unwrap();
    decoder.set_option("packet_loss", OptionValue::Bool(true)).unwrap();
    assert_eq!(decoder.flush(), ControlCall { request: 4028, value: None });
    assert_eq!(decoder.pending(), 1);
    assert!(decoder.packet_loss());
    assert!(decoder.fec());
}

#[test]
fn decoder_configure_changes_nothing() {
    let mut decoder = new_decoder();
    decoder.set_option("fec", OptionValue::Bool(true)).unwrap();
    decoder.configure(Some(&AudioDecoderParameters { audio: stereo_48k() }), None);
    assert!(decoder.fec());
    assert!(!decoder.packet_loss());
    assert_eq!(decoder.pending(), 0);
}
