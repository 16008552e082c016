use rust_worker::error::JobError;
use rust_worker::job::{resolve_job, resolve_plan, JobParams, JobRequest, TaskPlan};
use rust_worker::task::{parse_task_name, TaskKind};

fn no_params() -> JobParams {
    JobParams {
        bitrate: None,
        codec: None,
        height: None,
        count: None,
        duration_ms: None,
        fps: None,
        threshold_ppm: None,
        watermark_path: None,
        timestamp: None,
        sample_rate: None,
        samples: None,
        input_files: None,
    }
}

fn request(task: &str, params: JobParams) -> JobRequest {
    JobRequest { task: task.to_string(), input_path: "in.mp4".to_string(), output_path: "out.mp4".to_string(), params }
}

#[test]
fn task_names_map_to_kinds() {
    assert_eq!(parse_task_name("transcode_h264_to_h265"), Some(TaskKind::TranscodeH264ToH265));
    assert_eq!(parse_task_name("resize_to_720p"), Some(TaskKind::ResizeTo720p));
    assert_eq!(parse_task_name("extract_thumbnails"), Some(TaskKind::ExtractThumbnails));
    assert_eq!(parse_task_name("mix_audio_tracks"), Some(TaskKind::MixAudioTracks));
    assert_eq!(parse_task_name("report_metrics"), Some(TaskKind::ReportMetrics));
    assert_eq!(parse_task_name("download_file"), Some(TaskKind::DownloadFile));
    assert_eq!(parse_task_name("Resize_to_720p"), None);
    assert_eq!(parse_task_name("resize_to_720"), None);
    assert_eq!(parse_task_name(""), None);
}

#[test]
fn unknown_task_is_rejected() {
    assert!(matches!(resolve_job(request("stabilize_video", no_params())), Err(JobError::UnknownTask)));
}

#[test]
fn defaults_are_filled_in() {
    match resolve_job(request("transcode_h264_to_h265", no_params())) {
        Ok(TaskPlan::Transcode { bitrate, codec }) => {
            assert_eq!(bitrate, 1_000_000);
            assert_eq!(codec, "libx265");
        }
        other => panic!("unexpected {:?}", other),
    }
    assert!(matches!(resolve_plan(TaskKind::ResizeTo720p, no_params()), Ok(TaskPlan::Resize { target_height: 720 })));
    assert!(matches!(resolve_plan(TaskKind::ExtractFrames, no_params()), Ok(TaskPlan::ExtractFrames { count: 10 })));
    assert!(matches!(
        resolve_plan(TaskKind::CreateAnimatedGif, no_params()),
        Ok(TaskPlan::AnimatedPreview { duration_ms: 5000, fps: 10 })
    ));
    assert!(matches!(
        resolve_plan(TaskKind::DetectSceneCuts, no_params()),
        Ok(TaskPlan::SceneCuts { threshold_ppm: 300_000 })
    ));
    assert!(matches!(resolve_plan(TaskKind::ResampleAudio, no_params()), Ok(TaskPlan::Resample { sample_rate: 44100 })));
    assert!(matches!(
        resolve_plan(TaskKind::ExtractAudioFromVideo, no_params()),
        Ok(TaskPlan::ExtractAudio { bitrate: 192_000 })
    ));
    assert!(matches!(resolve_plan(TaskKind::GenerateWaveformJson, no_params()), Ok(TaskPlan::Waveform { points: 1000 })));
    match resolve_plan(TaskKind::ExtractKeyFrame, no_params()) {
        Ok(TaskPlan::KeyFrame { timestamp }) => assert_eq!(timestamp, "00:00:01"),
        other => panic!("unexpected {:?}", other),
    }
    assert!(matches!(resolve_plan(TaskKind::GetVideoInfo, no_params()), Ok(TaskPlan::VideoInfo)));
    assert!(matches!(
        resolve_plan(TaskKind::CalculateSha256, no_params()),
        Ok(TaskPlan::Utility(TaskKind::CalculateSha256))
    ));
}

#[test]
fn given_parameters_are_used() {
    let mut p = no_params();
    p.bitrate = Some("192k".to_string());
    p.codec = Some("libx264".to_string());
    match resolve_plan(TaskKind::TranscodeH264ToH265, p) {
        Ok(TaskPlan::Transcode { bitrate, codec }) => {
            assert_eq!(bitrate, 192_000);
            assert_eq!(codec, "libx264");
        }
        other => panic!("unexpected {:?}", other),
    }
    let mut p = no_params();
    p.count = Some(5);
    assert!(matches!(resolve_plan(TaskKind::ExtractThumbnails, p), Ok(TaskPlan::ExtractFrames { count: 5 })));
    let mut p = no_params();
    p.height = Some(1080);
    assert!(matches!(resolve_plan(TaskKind::ResizeTo720p, p), Ok(TaskPlan::Resize { target_height: 1080 })));
    let mut p = no_params();
    p.sample_rate = Some(48000);
    assert!(matches!(resolve_plan(TaskKind::ResampleAudio, p), Ok(TaskPlan::Resample { sample_rate: 48000 })));
    let mut p = no_params();
    p.input_files = Some(vec!["a.wav".to_string(), "b.wav".to_string(), "c.wav".to_string()]);
    match resolve_plan(TaskKind::MixAudioTracks, p) {
        Ok(TaskPlan::Mix { inputs }) => assert_eq!(inputs, vec!["a.wav", "b.wav", "c.wav"]),
        other => panic!("unexpected {:?}", other),
    }
}

#[test]
fn invalid_parameters_are_rejected() {
    let mut p = no_params();
    p.bitrate = Some("fast".to_string());
    assert!(matches!(resolve_plan(TaskKind::ExtractAudioFromVideo, p), Err(JobError::InvalidBitrate)));
    let mut p = no_params();
    p.count = Some(0);
    assert!(matches!(resolve_plan(TaskKind::ExtractFrames, p), Err(JobError::InvalidParameter)));
    let mut p = no_params();
    p.samples = Some(0);
    assert!(matches!(resolve_plan(TaskKind::GenerateWaveformJson, p), Err(JobError::InvalidParameter)));
    let mut p = no_params();
    p.fps = Some(0);
    assert!(matches!(resolve_plan(TaskKind::CreateAnimatedGif, p), Err(JobError::InvalidParameter)));
    let mut p = no_params();
    p.sample_rate = Some(1 << 32);
    assert!(matches!(resolve_plan(TaskKind::ResampleAudio, p), Err(JobError::InvalidParameter)));
    let mut p = no_params();
    p.height = Some(u64::MAX);
    assert!(matches!(resolve_plan(TaskKind::ResizeTo720p, p), Err(JobError::InvalidParameter)));
    assert!(matches!(resolve_plan(TaskKind::ApplyWatermark, no_params()), Err(JobError::MissingParameter)));
    assert!(matches!(resolve_plan(TaskKind::MixAudioTracks, no_params()), Err(JobError::MissingParameter)));
    let mut p = no_params();
    p.input_files = Some(Vec::new());
    assert!(matches!(resolve_plan(TaskKind::MixAudioTracks, p), Err(JobError::EmptyInputList)));
}
