use vstd::prelude::*;

use crate::error::JobError;
use crate::geometry::{target_dimensions, target_size, Dimensions};
use crate::job::TaskPlan;

verus! {

/// A time base or frame rate `num / den`, as the codec library gives it.
#[derive(Clone, Copy, Debug, PartialEq, Eq, Structural)]
pub struct Ratio {
    pub num: i32,
    pub den: i32,
}

/// Which encoder a task uses.
#[derive(Debug)]
pub enum EncoderChoice {
    /// The encoder of this name.
    Named(String),
    H264,
    Gif,
    /// MP3, or AAC where no MP3 encoder is present.
    Mp3OrAac,
}

/// The pixel format the video encoder is given.
#[derive(Clone, Copy, Debug, PartialEq, Eq, Structural)]
pub enum PixelChoice {
    /// The decoder's own format.
    Source,
    /// 8-bit palettised RGB, for animations.
    Rgb8,
}

/// What the scaler of a video task produces.
#[derive(Clone, Copy, Debug, PartialEq, Eq, Structural)]
pub enum ScaleTarget {
    /// The decoder's pixel format at the resize's target geometry.
    Resized,
    /// 24-bit RGB at the source geometry, for still images.
    Rgb24,
    /// 8-bit palettised RGB at the source geometry, for animations.
    Rgb8,
}

/// The sample format the audio encoder is given.
#[derive(Clone, Copy, Debug, PartialEq, Eq, Structural)]
pub enum SampleChoice {
    /// The decoder's own format.
    Source,
    /// The first format that the encoder supports.
    EncoderDefault,
}

/// What the decoder of a video stream negotiated.
#[derive(Clone, Copy, Debug, PartialEq, Eq, Structural)]
pub struct VideoSource {
    pub size: Dimensions,
    pub time_base: Ratio,
    pub bit_rate: usize,
    pub frame_rate: Option<Ratio>,
}

#[derive(Clone, Copy, Debug, PartialEq, Eq, Structural)]
pub struct VideoEncoderSettings {
    pub size: Dimensions,
    pub pixel: PixelChoice,
    pub time_base: Ratio,
    pub bit_rate: usize,
    pub frame_rate: Option<Ratio>,
}

/// What the decoder of an audio stream negotiated.
#[derive(Clone, Copy, Debug, PartialEq, Eq, Structural)]
pub struct AudioSource {
    pub rate: u32,
    pub channels: u16,
    pub bit_rate: usize,
}

#[derive(Clone, Copy, Debug, PartialEq, Eq, Structural)]
pub struct AudioEncoderSettings {
    pub rate: u32,
    pub channels: u16,
    pub sample: SampleChoice,
    pub bit_rate: usize,
    /// The encoder's time base is `1 / rate`.
    pub time_base: Ratio,
}

/// The encoder that `plan` uses, if it encodes.
pub fn encoder_choice(plan: &TaskPlan) -> (r: Option<EncoderChoice>)
    ensures
        match *plan {
            TaskPlan::Transcode { codec, .. } => r matches Some(EncoderChoice::Named(n)) && n == codec,
            TaskPlan::Resize { .. } | TaskPlan::Watermark { .. } => r matches Some(EncoderChoice::H264),
            TaskPlan::AnimatedPreview { .. } => r matches Some(EncoderChoice::Gif),
            TaskPlan::Resample { .. } | TaskPlan::ExtractAudio { .. } | TaskPlan::Mix { .. } => r matches Some(
                EncoderChoice::Mp3OrAac,
            ),
            _ => r is None,
        },
{
    match plan {
        TaskPlan::Transcode { codec, .. } => Some(EncoderChoice::Named(codec.clone())),
        TaskPlan::Resize { .. } | TaskPlan::Watermark { .. } => Some(EncoderChoice::H264),
        TaskPlan::AnimatedPreview { .. } => Some(EncoderChoice::Gif),
        TaskPlan::Resample { .. } | TaskPlan::ExtractAudio { .. } | TaskPlan::Mix { .. } => Some(
            EncoderChoice::Mp3OrAac,
        ),
        _ => None,
    }
}

/// The video encoder's configuration for `plan`, from what the decoder
/// negotiated. A transcode keeps the source's geometry and sets the job's bit
/// rate; a resize takes the even target geometry and the source's bit rate;
/// an animation keeps the geometry in 8-bit RGB at `1 / fps`; a watermark
/// keeps everything. Tasks that encode no video fail with `UnsupportedCodec`.
pub fn video_encoder_settings(plan: &TaskPlan, source: VideoSource) -> (r: Result<VideoEncoderSettings, JobError>)
    ensures
        match *plan {
            TaskPlan::Transcode { bitrate, .. } => r == Ok::<VideoEncoderSettings, JobError>(
                VideoEncoderSettings {
                    size: source.size,
                    pixel: PixelChoice::Source,
                    time_base: source.time_base,
                    bit_rate: bitrate,
                    frame_rate: source.frame_rate,
                },
            ),
            TaskPlan::Resize { target_height } => match target_size(source.size, target_height) {
                Ok(size) => r == Ok::<VideoEncoderSettings, JobError>(
                    VideoEncoderSettings {
                        size,
                        pixel: PixelChoice::Source,
                        time_base: source.time_base,
                        bit_rate: source.bit_rate,
                        frame_rate: source.frame_rate,
                    },
                ),
                Err(e) => r == Err::<VideoEncoderSettings, JobError>(e),
            },
            TaskPlan::AnimatedPreview { fps, .. } => if fps <= i32::MAX {
                r == Ok::<VideoEncoderSettings, JobError>(
                    VideoEncoderSettings {
                        size: source.size,
                        pixel: PixelChoice::Rgb8,
                        time_base: Ratio { num: 1, den: fps as i32 },
                        bit_rate: source.bit_rate,
                        frame_rate: Some(Ratio { num: fps as i32, den: 1 }),
                    },
                )
            } else {
                r == Err::<VideoEncoderSettings, JobError>(JobError::UnsupportedCodec)
            },
            TaskPlan::Watermark { .. } => r == Ok::<VideoEncoderSettings, JobError>(
                VideoEncoderSettings {
                    size: source.size,
                    pixel: PixelChoice::Source,
                    time_base: source.time_base,
                    bit_rate: source.bit_rate,
                    frame_rate: source.frame_rate,
                },
            ),
            _ => r == Err::<VideoEncoderSettings, JobError>(JobError::UnsupportedCodec),
        },
{
    match plan {
        TaskPlan::Transcode { bitrate, .. } => Ok(
            VideoEncoderSettings {
                size: source.size,
                pixel: PixelChoice::Source,
                time_base: source.time_base,
                bit_rate: *bitrate,
                frame_rate: source.frame_rate,
            },
        ),
        TaskPlan::Resize { target_height } => match target_dimensions(source.size, *target_height) {
            Ok(size) => Ok(
                VideoEncoderSettings {
                    size,
                    pixel: PixelChoice::Source,
                    time_base: source.time_base,
                    bit_rate: source.bit_rate,
                    frame_rate: source.frame_rate,
                },
            ),
            Err(e) => Err(e),
        },
        TaskPlan::AnimatedPreview { fps, .. } => {
            if *fps <= 0x7fff_ffff {
                Ok(
                    VideoEncoderSettings {
                        size: source.size,
                        pixel: PixelChoice::Rgb8,
                        time_base: Ratio { num: 1, den: *fps as i32 },
                        bit_rate: source.bit_rate,
                        frame_rate: Some(Ratio { num: *fps as i32, den: 1 }),
                    },
                )
            } else {
                Err(JobError::UnsupportedCodec)
            }
        },
        TaskPlan::Watermark { .. } => Ok(
            VideoEncoderSettings {
                size: source.size,
                pixel: PixelChoice::Source,
                time_base: source.time_base,
                bit_rate: source.bit_rate,
                frame_rate: source.frame_rate,
            },
        ),
        _ => Err(JobError::UnsupportedCodec),
    }
}

/// The audio encoder's configuration for `plan`, from what the (first)
/// decoder negotiated. A resample runs at the target rate with the source's
/// bit rate; an extraction keeps the rate and sets the job's bit rate; a mix
/// takes everything from its first source. The time base is always
/// `1 / rate`. Fails with `UnsupportedCodec` for tasks that encode no audio
/// and where the rate does not fit a time base.
pub fn audio_encoder_settings(plan: &TaskPlan, source: AudioSource) -> (r: Result<AudioEncoderSettings, JobError>)
    ensures
        match *plan {
            TaskPlan::Resample { sample_rate } => if sample_rate <= i32::MAX {
                r == Ok::<AudioEncoderSettings, JobError>(
                    AudioEncoderSettings {
                        rate: sample_rate,
                        channels: source.channels,
                        sample: SampleChoice::Source,
                        bit_rate: source.bit_rate,
                        time_base: Ratio { num: 1, den: sample_rate as i32 },
                    },
                )
            } else {
                r == Err::<AudioEncoderSettings, JobError>(JobError::UnsupportedCodec)
            },
            TaskPlan::ExtractAudio { bitrate } => if source.rate <= i32::MAX {
                r == Ok::<AudioEncoderSettings, JobError>(
                    AudioEncoderSettings {
                        rate: source.rate,
                        channels: source.channels,
                        sample: SampleChoice::EncoderDefault,
                        bit_rate: bitrate,
                        time_base: Ratio { num: 1, den: source.rate as i32 },
                    },
                )
            } else {
                r == Err::<AudioEncoderSettings, JobError>(JobError::UnsupportedCodec)
            },
            TaskPlan::Mix { .. } => if source.rate <= i32::MAX {
                r == Ok::<AudioEncoderSettings, JobError>(
                    AudioEncoderSettings {
                        rate: source.rate,
                        channels: source.channels,
                        sample: SampleChoice::EncoderDefault,
                        bit_rate: source.bit_rate,
                        time_base: Ratio { num: 1, den: source.rate as i32 },
                    },
                )
            } else {
                r == Err::<AudioEncoderSettings, JobError>(JobError::UnsupportedCodec)
            },
            _ => r == Err::<AudioEncoderSettings, JobError>(JobError::UnsupportedCodec),
        },
{
    match plan {
        TaskPlan::Resample { sample_rate } => {
            if *sample_rate <= 0x7fff_ffff {
                Ok(
                    AudioEncoderSettings {
                        rate: *sample_rate,
                        channels: source.channels,
                        sample: SampleChoice::Source,
                        bit_rate: source.bit_rate,
                        time_base: Ratio { num: 1, den: *sample_rate as i32 },
                    },
                )
            } else {
                Err(JobError::UnsupportedCodec)
            }
        },
        TaskPlan::ExtractAudio { bitrate } => {
            if source.rate <= 0x7fff_ffff {
                Ok(
                    AudioEncoderSettings {
                        rate: source.rate,
                        channels: source.channels,
                        sample: SampleChoice::EncoderDefault,
                        bit_rate: *bitrate,
                        time_base: Ratio { num: 1, den: source.rate as i32 },
                    },
                )
            } else {
                Err(JobError::UnsupportedCodec)
            }
        },
        TaskPlan::Mix { .. } => {
            if source.rate <= 0x7fff_ffff {
                Ok(
                    AudioEncoderSettings {
                        rate: source.rate,
                        channels: source.channels,
                        sample: SampleChoice::EncoderDefault,
                        bit_rate: source.bit_rate,
                        time_base: Ratio { num: 1, den: source.rate as i32 },
                    },
                )
            } else {
                Err(JobError::UnsupportedCodec)
            }
        },
        _ => Err(JobError::UnsupportedCodec),
    }
}

/// The scaler that `plan` needs, if any: a resize scales to its target
/// geometry, still images are converted to 24-bit RGB, and an animation to
/// 8-bit RGB.
pub fn scale_target(plan: &TaskPlan) -> (r: Option<ScaleTarget>)
    ensures
        r == match *plan {
            TaskPlan::Resize { .. } => Some(ScaleTarget::Resized),
            TaskPlan::ExtractFrames { .. } | TaskPlan::KeyFrame { .. } => Some(ScaleTarget::Rgb24),
            TaskPlan::AnimatedPreview { .. } => Some(ScaleTarget::Rgb8),
            _ => None::<ScaleTarget>,
        },
{
    match plan {
        TaskPlan::Resize { .. } => Some(ScaleTarget::Resized),
        TaskPlan::ExtractFrames { .. } | TaskPlan::KeyFrame { .. } => Some(ScaleTarget::Rgb24),
        TaskPlan::AnimatedPreview { .. } => Some(ScaleTarget::Rgb8),
        _ => None,
    }
}

} // verus!
