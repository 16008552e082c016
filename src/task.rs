use vstd::prelude::*;

verus! {

/// Every task that a job can name.
#[derive(Clone, Copy, Debug, PartialEq, Eq, Structural)]
pub enum TaskKind {
    DownloadFile,
    ValidateChecksum,
    ProbeMediaFile,
    SplitFileChunks,
    MergeFileChunks,
    SanitizeFilename,
    CreateFileManifest,
    VerifyFileIntegrity,
    TranscodeH264ToH265,
    ResizeTo720p,
    GetVideoInfo,
    ExtractFrames,
    ExtractThumbnails,
    CreateAnimatedGif,
    DetectSceneCuts,
    ApplyWatermark,
    ExtractKeyFrame,
    ResampleAudio,
    ExtractAudioFromVideo,
    GetAudioInfo,
    GenerateWaveformJson,
    MixAudioTracks,
    CalculateSha256,
    CompressArchive,
    ExtractExifMetadata,
    PurgeOriginalFile,
    ValidateFormatCompliance,
    ChainJobTrigger,
    ReportMetrics,
}

/// The task that a job names by `name`, if any.
pub open spec fn task_of_name(name: Seq<char>) -> Option<TaskKind> {
    if name == "download_file"@ {
        Some(TaskKind::DownloadFile)
    } else if name == "validate_checksum"@ {
        Some(TaskKind::ValidateChecksum)
    } else if name == "probe_media_file"@ {
        Some(TaskKind::ProbeMediaFile)
    } else if name == "split_file_chunks"@ {
        Some(TaskKind::SplitFileChunks)
    } else if name == "merge_file_chunks"@ {
        Some(TaskKind::MergeFileChunks)
    } else if name == "sanitize_filename"@ {
        Some(TaskKind::SanitizeFilename)
    } else if name == "create_file_manifest"@ {
        Some(TaskKind::CreateFileManifest)
    } else if name == "verify_file_integrity"@ {
        Some(TaskKind::VerifyFileIntegrity)
    } else if name == "transcode_h264_to_h265"@ {
        Some(TaskKind::TranscodeH264ToH265)
    } else if name == "resize_to_720p"@ {
        Some(TaskKind::ResizeTo720p)
    } else if name == "get_video_info"@ {
        Some(TaskKind::GetVideoInfo)
    } else if name == "extract_frames"@ {
        Some(TaskKind::ExtractFrames)
    } else if name == "extract_thumbnails"@ {
        Some(TaskKind::ExtractThumbnails)
    } else if name == "create_animated_gif"@ {
        Some(TaskKind::CreateAnimatedGif)
    } else if name == "detect_scene_cuts"@ {
        Some(TaskKind::DetectSceneCuts)
    } else if name == "apply_watermark"@ {
        Some(TaskKind::ApplyWatermark)
    } else if name == "extract_key_frame"@ {
        Some(TaskKind::ExtractKeyFrame)
    } else if name == "resample_audio"@ {
        Some(TaskKind::ResampleAudio)
    } else if name == "extract_audio_from_video"@ {
        Some(TaskKind::ExtractAudioFromVideo)
    } else if name == "get_audio_info"@ {
        Some(TaskKind::GetAudioInfo)
    } else if name == "generate_waveform_json"@ {
        Some(TaskKind::GenerateWaveformJson)
    } else if name == "mix_audio_tracks"@ {
        Some(TaskKind::MixAudioTracks)
    } else if name == "calculate_sha256"@ {
        Some(TaskKind::CalculateSha256)
    } else if name == "compress_archive"@ {
        Some(TaskKind::CompressArchive)
    } else if name == "extract_exif_metadata"@ {
        Some(TaskKind::ExtractExifMetadata)
    } else if name == "purge_original_file"@ {
        Some(TaskKind::PurgeOriginalFile)
    } else if name == "validate_format_compliance"@ {
        Some(TaskKind::ValidateFormatCompliance)
    } else if name == "chain_job_trigger"@ {
        Some(TaskKind::ChainJobTrigger)
    } else if name == "report_metrics"@ {
        Some(TaskKind::ReportMetrics)
    } else {
        None
    }
}

/// Whether two strings hold the same characters.
pub fn str_equal(a: &str, b: &str) -> (r: bool)
    ensures
        r == (a@ == b@),
{
    let n = a.unicode_len();
    if n != b.unicode_len() {
        return false;
    }
    let mut i: usize = 0;
    while i < n
        invariant
            n == a@.len(),
            n == b@.len(),
            i <= n,
            forall|j: int| 0 <= j < i ==> a@[j] == b@[j],
        decreases n - i,
    {
        if a.get_char(i) != b.get_char(i) {
            return false;
        }
        i = i + 1;
    }
    assert(a@ =~= b@);
    true
}

/// The task that a job names, if any.
pub fn parse_task_name(name: &str) -> (r: Option<TaskKind>)
    ensures
        r == task_of_name(name@),
{
    if str_equal(name, "download_file") {
        return Some(TaskKind::DownloadFile);
    }
    if str_equal(name, "validate_checksum") {
        return Some(TaskKind::ValidateChecksum);
    }
    if str_equal(name, "probe_media_file") {
        return Some(TaskKind::ProbeMediaFile);
    }
    if str_equal(name, "split_file_chunks") {
        return Some(TaskKind::SplitFileChunks);
    }
    if str_equal(name, "merge_file_chunks") {
        return Some(TaskKind::MergeFileChunks);
    }
    if str_equal(name, "sanitize_filename") {
        return Some(TaskKind::SanitizeFilename);
    }
    if str_equal(name, "create_file_manifest") {
        return Some(TaskKind::CreateFileManifest);
    }
    if str_equal(name, "verify_file_integrity") {
        return Some(TaskKind::VerifyFileIntegrity);
    }
    if str_equal(name, "transcode_h264_to_h265") {
        return Some(TaskKind::TranscodeH264ToH265);
    }
    if str_equal(name, "resize_to_720p") {
        return Some(TaskKind::ResizeTo720p);
    }
    if str_equal(name, "get_video_info") {
        return Some(TaskKind::GetVideoInfo);
    }
    if str_equal(name, "extract_frames") {
        return Some(TaskKind::ExtractFrames);
    }
    if str_equal(name, "extract_thumbnails") {
        return Some(TaskKind::ExtractThumbnails);
    }
    if str_equal(name, "create_animated_gif") {
        return Some(TaskKind::CreateAnimatedGif);
    }
    if str_equal(name, "detect_scene_cuts") {
        return Some(TaskKind::DetectSceneCuts);
    }
    if str_equal(name, "apply_watermark") {
        return Some(TaskKind::ApplyWatermark);
    }
    if str_equal(name, "extract_key_frame") {
        return Some(TaskKind::ExtractKeyFrame);
    }
    if str_equal(name, "resample_audio") {
        return Some(TaskKind::ResampleAudio);
    }
    if str_equal(name, "extract_audio_from_video") {
        return Some(TaskKind::ExtractAudioFromVideo);
    }
    if str_equal(name, "get_audio_info") {
        return Some(TaskKind::GetAudioInfo);
    }
    if str_equal(name, "generate_waveform_json") {
        return Some(TaskKind::GenerateWaveformJson);
    }
    if str_equal(name, "mix_audio_tracks") {
        return Some(TaskKind::MixAudioTracks);
    }
    if str_equal(name, "calculate_sha256") {
        return Some(TaskKind::CalculateSha256);
    }
    if str_equal(name, "compress_archive") {
        return Some(TaskKind::CompressArchive);
    }
    if str_equal(name, "extract_exif_metadata") {
        return Some(TaskKind::ExtractExifMetadata);
    }
    if str_equal(name, "purge_original_file") {
        return Some(TaskKind::PurgeOriginalFile);
    }
    if str_equal(name, "validate_format_compliance") {
        return Some(TaskKind::ValidateFormatCompliance);
    }
    if str_equal(name, "chain_job_trigger") {
        return Some(TaskKind::ChainJobTrigger);
    }
    if str_equal(name, "report_metrics") {
        return Some(TaskKind::ReportMetrics);
    }
    None
}

} // verus!
