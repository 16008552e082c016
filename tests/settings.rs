use rust_worker::error::JobError;
use rust_worker::geometry::Dimensions;
use rust_worker::job::TaskPlan;
use rust_worker::settings::{
    audio_encoder_settings, encoder_choice, scale_target, video_encoder_settings, AudioSource, EncoderChoice,
    PixelChoice, Ratio, SampleChoice, ScaleTarget, VideoSource,
};

fn hd_source() -> VideoSource {
    VideoSource {
        size: Dimensions { width: 1920, height: 1080 },
        time_base: Ratio { num: 1, den: 30000 },
        bit_rate: 4_000_000,
        frame_rate: Some(Ratio { num: 30000, den: 1001 }),
    }
}

#[test]
fn resample_to_48k_sets_rate_tag() {
    let src = AudioSource { rate: 44100, channels: 2, bit_rate: 128_000 };
    let s = audio_encoder_settings(&TaskPlan::Resample { sample_rate: 48000 }, src).unwrap();
    assert_eq!(s.rate, 48000);
    assert_eq!(s.time_base, Ratio { num: 1, den: 48000 });
    assert_eq!(s.channels, 2);
    assert_eq!(s.sample, SampleChoice::Source);
    assert_eq!(s.bit_rate, 128_000);
}

#[test]
fn audio_extraction_and_mix_keep_source_rate() {
    let src = AudioSource { rate: 22050, channels: 1, bit_rate: 64_000 };
    let e = audio_encoder_settings(&TaskPlan::ExtractAudio { bitrate: 192_000 }, src).unwrap();
    assert_eq!((e.rate, e.bit_rate, e.sample), (22050, 192_000, SampleChoice::EncoderDefault));
    let m = audio_encoder_settings(&TaskPlan::Mix { inputs: vec!["a".to_string()] }, src).unwrap();
    assert_eq!((m.rate, m.bit_rate, m.time_base), (22050, 64_000, Ratio { num: 1, den: 22050 }));
    assert_eq!(audio_encoder_settings(&TaskPlan::AudioInfo, src), Err(JobError::UnsupportedCodec));
    assert_eq!(
        audio_encoder_settings(&TaskPlan::Resample { sample_rate: u32::MAX }, src),
        Err(JobError::UnsupportedCodec)
    );
}

#[test]
fn resize_settings_use_even_target() {
    let s = video_encoder_settings(&TaskPlan::Resize { target_height: 720 }, hd_source()).unwrap();
    assert_eq!(s.size, Dimensions { width: 1280, height: 720 });
    assert_eq!(s.bit_rate, 4_000_000);
    assert_eq!(s.pixel, PixelChoice::Source);
    assert_eq!(
        video_encoder_settings(&TaskPlan::Resize { target_height: 1 }, hd_source()),
        Err(JobError::InvalidGeometry)
    );
}

#[test]
fn transcode_and_preview_settings() {
    let plan = TaskPlan::Transcode { bitrate: 1_000_000, codec: "libx265".to_string() };
    let t = video_encoder_settings(&plan, hd_source()).unwrap();
    assert_eq!(t.size, Dimensions { width: 1920, height: 1080 });
    assert_eq!(t.bit_rate, 1_000_000);
    assert_eq!(t.frame_rate, Some(Ratio { num: 30000, den: 1001 }));
    match encoder_choice(&plan) {
        Some(EncoderChoice::Named(n)) => assert_eq!(n, "libx265"),
        other => panic!("unexpected {:?}", other),
    }
    let g = video_encoder_settings(&TaskPlan::AnimatedPreview { duration_ms: 5000, fps: 10 }, hd_source()).unwrap();
    assert_eq!(g.pixel, PixelChoice::Rgb8);
    assert_eq!(g.time_base, Ratio { num: 1, den: 10 });
    assert_eq!(g.frame_rate, Some(Ratio { num: 10, den: 1 }));
    assert!(matches!(encoder_choice(&TaskPlan::SceneCuts { threshold_ppm: 1 }), None));
    assert!(matches!(encoder_choice(&TaskPlan::Resample { sample_rate: 8000 }), Some(EncoderChoice::Mp3OrAac)));
}

#[test]
fn scaler_targets() {
    assert_eq!(scale_target(&TaskPlan::Resize { target_height: 720 }), Some(ScaleTarget::Resized));
    assert_eq!(scale_target(&TaskPlan::ExtractFrames { count: 3 }), Some(ScaleTarget::Rgb24));
    assert_eq!(scale_target(&TaskPlan::KeyFrame { timestamp: "1".to_string() }), Some(ScaleTarget::Rgb24));
    assert_eq!(scale_target(&TaskPlan::AnimatedPreview { duration_ms: 1, fps: 1 }), Some(ScaleTarget::Rgb8));
    assert_eq!(scale_target(&TaskPlan::Transcode { bitrate: 1, codec: "x".to_string() }), None);
    assert_eq!(scale_target(&TaskPlan::Resample { sample_rate: 8000 }), None);
}
