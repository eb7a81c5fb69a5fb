use media_codec_opus::control::{control_status, creation_status, flag, ControlCall, OptionValue, OPUS_OK, OPUS_RESET_STATE, OPUS_SET_BITRATE_REQUEST, OPUS_SET_COMPLEXITY_REQUEST, OPUS_SET_GAIN_REQUEST, OPUS_SET_INBAND_FEC_REQUEST, OPUS_SET_MAX_BANDWIDTH_REQUEST, OPUS_SET_PACKET_LOSS_PERC_REQUEST, OPUS_SET_VBR_CONSTRAINT_REQUEST, OPUS_SET_VBR_REQUEST};
use media_codec_opus::error::CodecError;
use media_codec_opus::options::{
    canonical_samples, decoder_option, encoder_option, scaled_samples, DecoderOption,
    EncoderOption, OptionSet, OpusOptions,
};

fn no_options() -> OptionSet {
    OptionSet {
        application: None,
        frame_duration_us: None,
        packet_loss: None,
        fec: None,
        vbr: None,
        max_bandwidth: None,
        complexity: None,
    }
}

#[test]
fn request_numbers() {
    assert_eq!(OPUS_OK, 0);
    assert_eq!(OPUS_SET_BITRATE_REQUEST, 4002);
    assert_eq!(OPUS_SET_MAX_BANDWIDTH_REQUEST, 4004);
    assert_eq!(OPUS_SET_VBR_REQUEST, 4006);
    assert_eq!(OPUS_SET_COMPLEXITY_REQUEST, 4010);
    assert_eq!(OPUS_SET_INBAND_FEC_REQUEST, 4012);
    assert_eq!(OPUS_SET_PACKET_LOSS_PERC_REQUEST, 4014);
    assert_eq!(OPUS_SET_VBR_CONSTRAINT_REQUEST, 4020);
    assert_eq!(OPUS_RESET_STATE, 4028);
    assert_eq!(OPUS_SET_GAIN_REQUEST, 4034);
}

#[test]
fn option_values_become_integers() {
    assert_eq!(OptionValue::Bool(true).as_int(), 1);
    assert_eq!(OptionValue::Bool(false).as_int(), 0);
    assert_eq!(OptionValue::Int(-7).as_int(), -7);
    assert_eq!(OptionValue::Int(i32::MAX).as_int(), i32::MAX);
    assert_eq!(flag(true), 1);
    assert_eq!(flag(false), 0);
    assert_eq!(ControlCall::set(4002, 64000), ControlCall { request: 4002, value: Some(64000) });
}

#[test]
fn control_status_fails_on_anything_but_ok() {
    assert_eq!(control_status(0), Ok(()));
    assert_eq!(control_status(-1), Err(CodecError::SetFailed(-1)));
    assert_eq!(control_status(-5), Err(CodecError::SetFailed(-5)));
    assert_eq!(control_status(3), Err(CodecError::SetFailed(3)));
}

#[test]
fn creation_status_needs_handle_and_ok() {
    assert_eq!(creation_status(true, 0), Ok(()));
    assert_eq!(creation_status(false, 0), Err(CodecError::CreationFailed(0)));
    assert_eq!(creation_status(true, -1), Err(CodecError::CreationFailed(-1)));
    assert_eq!(creation_status(false, -7), Err(CodecError::CreationFailed(-7)));
}

#[test]
fn errors_know_their_native_status() {
    assert_eq!(CodecError::CreationFailed(-7).native_status(), Some(-7));
    assert_eq!(CodecError::EncodeFailed(-2).native_status(), Some(-2));
    assert_eq!(CodecError::DecodeFailed(-4).native_status(), Some(-4));
    assert_eq!(CodecError::SetFailed(-5).native_status(), Some(-5));
    assert_eq!(CodecError::Again.native_status(), None);
    assert_eq!(CodecError::InvalidParameter.native_status(), None);
    assert!(CodecError::UnsupportedCodec.is_unsupported());
    assert!(CodecError::UnsupportedOption.is_unsupported());
    assert!(CodecError::UnsupportedFormat.is_unsupported());
    assert!(CodecError::BorrowedOutputUnsupported.is_unsupported());
    assert!(!CodecError::InvalidFrameDuration.is_unsupported());
    assert!(!CodecError::NotWritable.is_unsupported());
    assert!(!CodecError::NotReadable.is_unsupported());
}

#[test]
fn encoder_keys_are_recognised_exactly() {
    assert_eq!(encoder_option("bit_rate"), Some(EncoderOption::BitRate));
    assert_eq!(encoder_option("packet_loss_percent"), Some(EncoderOption::PacketLossPercent));
    assert_eq!(encoder_option("fec"), Some(EncoderOption::Fec));
    assert_eq!(encoder_option("vbr"), Some(EncoderOption::Vbr));
    assert_eq!(encoder_option("max_bandwidth"), Some(EncoderOption::MaxBandwidth));
    assert_eq!(encoder_option("complexity"), Some(EncoderOption::Complexity));
    assert_eq!(encoder_option("gain"), None);
    assert_eq!(encoder_option("packet_loss"), None);
    assert_eq!(encoder_option("FEC"), None);
    assert_eq!(encoder_option("vbr "), None);
    assert_eq!(encoder_option(""), None);
}

#[test]
fn decoder_keys_are_recognised_exactly() {
    assert_eq!(decoder_option("gain"), Some(DecoderOption::Gain));
    assert_eq!(decoder_option("packet_loss"), Some(DecoderOption::PacketLoss));
    assert_eq!(decoder_option("fec"), Some(DecoderOption::Fec));
    assert_eq!(decoder_option("bit_rate"), None);
    assert_eq!(decoder_option("packet_loss_percent"), None);
    assert_eq!(decoder_option("Gain"), None);
    assert_eq!(decoder_option(""), None);
}

#[test]
fn canonical_samples_of_the_nine_durations() {
    assert_eq!(canonical_samples(2500), 120);
    assert_eq!(canonical_samples(5000), 240);
    assert_eq!(canonical_samples(10000), 480);
    assert_eq!(canonical_samples(20000), 960);
    assert_eq!(canonical_samples(40000), 1920);
    assert_eq!(canonical_samples(60000), 2880);
    assert_eq!(canonical_samples(80000), 3840);
    assert_eq!(canonical_samples(100000), 4800);
    assert_eq!(canonical_samples(120000), 5760);
    assert_eq!(canonical_samples(15000), 720);
    assert_eq!(canonical_samples(0), 0);
    assert_eq!(canonical_samples(u32::MAX), (u32::MAX as u64 * 48 / 1000) as u32);
}

#[test]
fn scaled_samples_follow_the_sample_rate() {
    assert_eq!(scaled_samples(960, 48000), 960);
    assert_eq!(scaled_samples(960, 16000), 320);
    assert_eq!(scaled_samples(960, 8000), 160);
    assert_eq!(scaled_samples(120, 24000), 60);
    assert_eq!(scaled_samples(5760, 12000), 1440);
    assert_eq!(scaled_samples(960, 44100), 882);
    assert_eq!(scaled_samples(120, 399), 0);
}

#[test]
fn default_options() {
    let options = OpusOptions::default();
    assert_eq!(
        options,
        OpusOptions {
            application: 2049,
            frame_duration_us: 20000,
            frame_size: 960,
            packet_loss: 0,
            fec: false,
            vbr: 1,
            max_bandwidth: 0,
            complexity: 10,
        }
    );
    assert_eq!(OpusOptions::from_options(None), options);
    assert_eq!(OpusOptions::from_options(Some(&no_options())), options);
}

#[test]
fn given_options_override_defaults() {
    let set = OptionSet {
        application: Some(2048),
        frame_duration_us: Some(10000),
        packet_loss: Some(15),
        fec: Some(true),
        vbr: Some(2),
        max_bandwidth: Some(1103),
        complexity: Some(5),
    };
    assert_eq!(
        OpusOptions::from_options(Some(&set)),
        OpusOptions {
            application: 2048,
            frame_duration_us: 10000,
            frame_size: 480,
            packet_loss: 15,
            fec: true,
            vbr: 2,
            max_bandwidth: 1103,
            complexity: 5,
        }
    );
    let partial = OptionSet { fec: Some(true), ..no_options() };
    assert_eq!(
        OpusOptions::from_options(Some(&partial)),
        OpusOptions { fec: true, ..OpusOptions::default() }
    );
}

#[test]
fn controls_for_default_options() {
    assert_eq!(
        OpusOptions::default().controls(),
        vec![
            ControlCall::set(OPUS_SET_VBR_REQUEST, 1),
            ControlCall::set(OPUS_SET_VBR_CONSTRAINT_REQUEST, 0),
            ControlCall::set(OPUS_SET_PACKET_LOSS_PERC_REQUEST, 0),
            ControlCall::set(OPUS_SET_INBAND_FEC_REQUEST, 0),
            ControlCall::set(OPUS_SET_COMPLEXITY_REQUEST, 10),
        ]
    );
}

#[test]
fn controls_cover_every_option() {
    let options = OpusOptions {
        application: 2048,
        frame_duration_us: 20000,
        frame_size: 960,
        packet_loss: 20,
        fec: true,
        vbr: 2,
        max_bandwidth: 1104,
        complexity: 3,
    };
    assert_eq!(
        options.controls(),
        vec![
            ControlCall::set(OPUS_SET_VBR_REQUEST, 1),
            ControlCall::set(OPUS_SET_VBR_CONSTRAINT_REQUEST, 1),
            ControlCall::set(OPUS_SET_PACKET_LOSS_PERC_REQUEST, 20),
            ControlCall::set(OPUS_SET_INBAND_FEC_REQUEST, 1),
            ControlCall::set(OPUS_SET_COMPLEXITY_REQUEST, 3),
            ControlCall::set(OPUS_SET_MAX_BANDWIDTH_REQUEST, 1104),
        ]
    );
}

#[test]
fn controls_leave_out_zero_complexity_and_bandwidth() {
    let options = OpusOptions { vbr: 0, complexity: 0, max_bandwidth: 0, ..OpusOptions::default() };
    assert_eq!(
        options.controls(),
        vec![
            ControlCall::set(OPUS_SET_VBR_REQUEST, 0),
            ControlCall::set(OPUS_SET_VBR_CONSTRAINT_REQUEST, 0),
            ControlCall::set(OPUS_SET_PACKET_LOSS_PERC_REQUEST, 0),
            ControlCall::set(OPUS_SET_INBAND_FEC_REQUEST, 0),
        ]
    );
}

#[test]
fn controls_wrap_values_beyond_31_bits() {
    let options = OpusOptions {
        complexity: u32::MAX,
        max_bandwidth: 0x8000_0000,
        ..OpusOptions::default()
    };
    let calls = options.controls();
    assert_eq!(calls[4], ControlCall::set(OPUS_SET_COMPLEXITY_REQUEST, -1));
    assert_eq!(calls[5], ControlCall::set(OPUS_SET_MAX_BANDWIDTH_REQUEST, i32::MIN));
}
