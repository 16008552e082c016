use vstd::prelude::*;

use crate::bitrate::{bitrate_value, parse_bitrate};
use crate::error::JobError;
use crate::task::{parse_task_name, task_of_name, TaskKind};

verus! {

/// The parameters that a job may carry, as read from its request. An absent
/// parameter, or one of the wrong type, is `None`. A threshold is given in
/// millionths, a duration in milliseconds.
#[derive(Debug)]
pub struct JobParams {
    pub bitrate: Option<String>,
    pub codec: Option<String>,
    pub height: Option<u64>,
    pub count: Option<u64>,
    pub duration_ms: Option<u64>,
    pub fps: Option<u64>,
    pub threshold_ppm: Option<u32>,
    pub watermark_path: Option<String>,
    pub timestamp: Option<String>,
    pub sample_rate: Option<u64>,
    pub samples: Option<u64>,
    pub input_files: Option<Vec<String>>,
}

/// One job: a task name, where to read, where to write, and parameters.
#[derive(Debug)]
pub struct JobRequest {
    pub task: String,
    pub input_path: String,
    pub output_path: String,
    pub params: JobParams,
}

/// A task with its parameters checked and its defaults filled in.
#[derive(Debug)]
pub enum TaskPlan {
    /// Re-encode the video stream with the named codec at a bit rate.
    Transcode { bitrate: usize, codec: String },
    /// Scale the video stream to a target height, keeping its aspect ratio.
    Resize { target_height: u32 },
    /// Describe the container and its streams.
    VideoInfo,
    /// Keep `count` evenly spaced frames as still images.
    ExtractFrames { count: u64 },
    /// Encode the first `duration_ms` of video as a looping animation.
    AnimatedPreview { duration_ms: u64, fps: u32 },
    /// Report frames that differ from their predecessor above a threshold.
    SceneCuts { threshold_ppm: u32 },
    /// Re-encode the video stream with an overlay image.
    Watermark { watermark_path: String },
    /// Save the first frame at or after a timestamp as a still image.
    KeyFrame { timestamp: String },
    /// Convert the audio stream to another sample rate.
    Resample { sample_rate: u32 },
    /// Re-encode the audio stream of a video at a bit rate.
    ExtractAudio { bitrate: usize },
    /// Describe the audio stream.
    AudioInfo,
    /// Summarise the audio stream's magnitude in `points` values.
    Waveform { points: usize },
    /// Decode every source in turn into one output (concatenation).
    Mix { inputs: Vec<String> },
    /// A file utility task that involves no frame processing.
    Utility(TaskKind),
}

pub open spec fn is_utility(k: TaskKind) -> bool {
    match k {
        TaskKind::DownloadFile | TaskKind::ValidateChecksum | TaskKind::ProbeMediaFile
        | TaskKind::SplitFileChunks | TaskKind::MergeFileChunks | TaskKind::SanitizeFilename
        | TaskKind::CreateFileManifest | TaskKind::VerifyFileIntegrity | TaskKind::CalculateSha256
        | TaskKind::CompressArchive | TaskKind::ExtractExifMetadata | TaskKind::PurgeOriginalFile
        | TaskKind::ValidateFormatCompliance | TaskKind::ChainJobTrigger | TaskKind::ReportMetrics => true,
        _ => false,
    }
}

/// The bit rate a job asks for, or `default` where it names none.
pub open spec fn bitrate_param(p: Option<String>, default: nat) -> Option<nat> {
    match p {
        None => Some(default),
        Some(s) => bitrate_value(s@),
    }
}

/// A whole-number parameter with its default, where it lies in `[low, high]`.
pub open spec fn ranged_param(p: Option<u64>, default: nat, low: nat, high: nat) -> Option<nat> {
    let v = match p {
        None => default,
        Some(x) => x as nat,
    };
    if low <= v && v <= high {
        Some(v)
    } else {
        None
    }
}

/// What resolving `kind` with `params` yields.
pub open spec fn resolves_to(kind: TaskKind, params: JobParams, r: Result<TaskPlan, JobError>) -> bool {
    match kind {
        TaskKind::TranscodeH264ToH265 => match bitrate_param(params.bitrate, 1_000_000) {
            Some(b) if b <= usize::MAX => match r {
                Ok(TaskPlan::Transcode { bitrate, codec }) => bitrate == b && match params.codec {
                    Some(c) => codec == c,
                    None => codec@ == "libx265"@,
                },
                _ => false,
            },
            _ => r == Err::<TaskPlan, JobError>(JobError::InvalidBitrate),
        },
        TaskKind::ResizeTo720p => match ranged_param(params.height, 720, 0, u32::MAX as nat) {
            Some(h) => r == Ok::<TaskPlan, JobError>(TaskPlan::Resize { target_height: h as u32 }),
            None => r == Err::<TaskPlan, JobError>(JobError::InvalidParameter),
        },
        TaskKind::GetVideoInfo => r == Ok::<TaskPlan, JobError>(TaskPlan::VideoInfo),
        TaskKind::ExtractFrames | TaskKind::ExtractThumbnails => match ranged_param(
            params.count,
            10,
            1,
            u64::MAX as nat,
        ) {
            Some(c) => r == Ok::<TaskPlan, JobError>(TaskPlan::ExtractFrames { count: c as u64 }),
            None => r == Err::<TaskPlan, JobError>(JobError::InvalidParameter),
        },
        TaskKind::CreateAnimatedGif => match ranged_param(params.fps, 10, 1, u32::MAX as nat) {
            Some(f) => r == Ok::<TaskPlan, JobError>(
                TaskPlan::AnimatedPreview {
                    duration_ms: match params.duration_ms {
                        Some(d) => d,
                        None => 5000,
                    },
                    fps: f as u32,
                },
            ),
            None => r == Err::<TaskPlan, JobError>(JobError::InvalidParameter),
        },
        TaskKind::DetectSceneCuts => r == Ok::<TaskPlan, JobError>(
            TaskPlan::SceneCuts {
                threshold_ppm: match params.threshold_ppm {
                    Some(t) => t,
                    None => 300_000,
                },
            },
        ),
        TaskKind::ApplyWatermark => match params.watermark_path {
            Some(w) => r == Ok::<TaskPlan, JobError>(TaskPlan::Watermark { watermark_path: w }),
            None => r == Err::<TaskPlan, JobError>(JobError::MissingParameter),
        },
        TaskKind::ExtractKeyFrame => match r {
            Ok(TaskPlan::KeyFrame { timestamp }) => match params.timestamp {
                Some(t) => timestamp == t,
                None => timestamp@ == "00:00:01"@,
            },
            _ => false,
        },
        TaskKind::ResampleAudio => match ranged_param(params.sample_rate, 44100, 1, u32::MAX as nat) {
            Some(s) => r == Ok::<TaskPlan, JobError>(TaskPlan::Resample { sample_rate: s as u32 }),
            None => r == Err::<TaskPlan, JobError>(JobError::InvalidParameter),
        },
        TaskKind::ExtractAudioFromVideo => match bitrate_param(params.bitrate, 192_000) {
            Some(b) if b <= usize::MAX => r == Ok::<TaskPlan, JobError>(
                TaskPlan::ExtractAudio { bitrate: b as usize },
            ),
            _ => r == Err::<TaskPlan, JobError>(JobError::InvalidBitrate),
        },
        TaskKind::GetAudioInfo => r == Ok::<TaskPlan, JobError>(TaskPlan::AudioInfo),
        TaskKind::GenerateWaveformJson => match ranged_param(params.samples, 1000, 1, usize::MAX as nat) {
            Some(s) => r == Ok::<TaskPlan, JobError>(TaskPlan::Waveform { points: s as usize }),
            None => r == Err::<TaskPlan, JobError>(JobError::InvalidParameter),
        },
        TaskKind::MixAudioTracks => match params.input_files {
            None => r == Err::<TaskPlan, JobError>(JobError::MissingParameter),
            Some(v) => if v@.len() == 0 {
                r == Err::<TaskPlan, JobError>(JobError::EmptyInputList)
            } else {
                r == Ok::<TaskPlan, JobError>(TaskPlan::Mix { inputs: v })
            },
        },
        _ => r == Ok::<TaskPlan, JobError>(TaskPlan::Utility(kind)),
    }
}

fn ranged(p: Option<u64>, default: u64, low: u64, high: u64) -> (r: Result<u64, JobError>)
    ensures
        match ranged_param(p, default as nat, low as nat, high as nat) {
            Some(v) => r == Ok::<u64, JobError>(v as u64),
            None => r == Err::<u64, JobError>(JobError::InvalidParameter),
        },
{
    let v = match p {
        None => default,
        Some(x) => x,
    };
    if low <= v && v <= high {
        Ok(v)
    } else {
        Err(JobError::InvalidParameter)
    }
}

fn bitrate_or(p: Option<String>, default: usize) -> (r: Result<usize, JobError>)
    ensures
        match bitrate_param(p, default as nat) {
            Some(b) => if b <= usize::MAX {
                r == Ok::<usize, JobError>(b as usize)
            } else {
                r == Err::<usize, JobError>(JobError::InvalidBitrate)
            },
            None => r == Err::<usize, JobError>(JobError::InvalidBitrate),
        },
{
    match p {
        None => Ok(default),
        Some(s) => parse_bitrate(s.as_str()),
    }
}

/// Checks a task's parameters and fills in their defaults (see `resolves_to`).
pub fn resolve_plan(kind: TaskKind, params: JobParams) -> (r: Result<TaskPlan, JobError>)
    ensures
        resolves_to(kind, params, r),
{
    match kind {
        TaskKind::TranscodeH264ToH265 => {
            let bitrate = match bitrate_or(params.bitrate, 1_000_000) {
                Ok(b) => b,
                Err(e) => return Err(e),
            };
            let codec = match params.codec {
                Some(c) => c,
                None => String::from_str("libx265"),
            };
            Ok(TaskPlan::Transcode { bitrate, codec })
        },
        TaskKind::ResizeTo720p => match ranged(params.height, 720, 0, 0xffff_ffff) {
            Ok(h) => Ok(TaskPlan::Resize { target_height: h as u32 }),
            Err(e) => Err(e),
        },
        TaskKind::GetVideoInfo => Ok(TaskPlan::VideoInfo),
        TaskKind::ExtractFrames | TaskKind::ExtractThumbnails => match ranged(
            params.count,
            10,
            1,
            u64::MAX,
        ) {
            Ok(c) => Ok(TaskPlan::ExtractFrames { count: c }),
            Err(e) => Err(e),
        },
        TaskKind::CreateAnimatedGif => match ranged(params.fps, 10, 1, 0xffff_ffff) {
            Ok(f) => {
                let duration_ms = match params.duration_ms {
                    Some(d) => d,
                    None => 5000,
                };
                Ok(TaskPlan::AnimatedPreview { duration_ms, fps: f as u32 })
            },
            Err(e) => Err(e),
        },
        TaskKind::DetectSceneCuts => {
            let threshold_ppm = match params.threshold_ppm {
                Some(t) => t,
                None => 300_000,
            };
            Ok(TaskPlan::SceneCuts { threshold_ppm })
        },
        TaskKind::ApplyWatermark => match params.watermark_path {
            Some(w) => Ok(TaskPlan::Watermark { watermark_path: w }),
            None => Err(JobError::MissingParameter),
        },
        TaskKind::ExtractKeyFrame => {
            let timestamp = match params.timestamp {
                Some(t) => t,
                None => String::from_str("00:00:01"),
            };
            Ok(TaskPlan::KeyFrame { timestamp })
        },
        TaskKind::ResampleAudio => match ranged(params.sample_rate, 44100, 1, 0xffff_ffff) {
            Ok(s) => Ok(TaskPlan::Resample { sample_rate: s as u32 }),
            Err(e) => Err(e),
        },
        TaskKind::ExtractAudioFromVideo => match bitrate_or(params.bitrate, 192_000) {
            Ok(b) => Ok(TaskPlan::ExtractAudio { bitrate: b }),
            Err(e) => Err(e),
        },
        TaskKind::GetAudioInfo => Ok(TaskPlan::AudioInfo),
        TaskKind::GenerateWaveformJson => match ranged(params.samples, 1000, 1, usize::MAX as u64) {
            Ok(s) => Ok(TaskPlan::Waveform { points: s as usize }),
            Err(e) => Err(e),
        },
        TaskKind::MixAudioTracks => match params.input_files {
            None => Err(JobError::MissingParameter),
            Some(v) => {
                if v.len() == 0 {
                    Err(JobError::EmptyInputList)
                } else {
                    Ok(TaskPlan::Mix { inputs: v })
                }
            },
        },
        _ => Ok(TaskPlan::Utility(kind)),
    }
}

/// Turns a job request into a plan: rejects an unknown task name before
/// anything else, then resolves the task's parameters.
pub fn resolve_job(request: JobRequest) -> (r: Result<TaskPlan, JobError>)
    ensures
        match task_of_name(request.task@) {
            None => r == Err::<TaskPlan, JobError>(JobError::UnknownTask),
            Some(k) => resolves_to(k, request.params, r),
        },
{
    match parse_task_name(request.task.as_str()) {
        None => Err(JobError::UnknownTask),
        Some(k) => resolve_plan(k, request.params),
    }
}

} // verus!
