use webview_bridge::media::{
    default_audio_format, default_concurrency, default_frame_format, default_max_images, default_true,
    generate_audio_extract_cmd, generate_image_extract_script, generate_keyframe_extract_cmd,
    generate_ytdlp_download_cmd, generate_ytdlp_subtitle_cmd, AnalysisOutput, DownloadStatus,
    ImageCollectRequest, ImageOutputFormat, MediaCache, SubtitleFormat, VideoQuality,
};

#[test]
fn test_image_output_format() {
    assert_eq!(ImageOutputFormat::default(), ImageOutputFormat::Urls);
    assert_ne!(ImageOutputFormat::Urls, ImageOutputFormat::Base64);
}

#[test]
fn test_video_quality_format() {
    assert_eq!(VideoQuality::Best.to_ytdlp_format(), "bestvideo+bestaudio/best");
    assert!(VideoQuality::Hd.to_ytdlp_format().contains("1080"));
    assert!(VideoQuality::Sd.to_ytdlp_format().contains("720"));
    assert!(VideoQuality::Low.to_ytdlp_format().contains("worst"));
    assert!(VideoQuality::Specific(480).to_ytdlp_format().contains("480"));
}

#[test]
fn test_generate_keyframe_extract_cmd() {
    let cmd = generate_keyframe_extract_cmd("input.mp4", "frame_%04d.jpg");
    assert!(cmd.contains(&"-i".to_string()));
    assert!(cmd.iter().any(|s| s.contains("pict_type")));
    assert!(cmd.contains(&"frame_%04d.jpg".to_string()));
}

#[test]
fn test_generate_audio_extract_cmd_mp3() {
    let cmd = generate_audio_extract_cmd("input.mp4", "output.mp3", "mp3");
    assert!(cmd.contains(&"-i".to_string()));
    assert!(cmd.contains(&"-vn".to_string()));
    assert!(cmd.contains(&"libmp3lame".to_string()));
    assert!(cmd.contains(&"192k".to_string()));
}

#[test]
fn test_generate_audio_extract_cmd_wav() {
    let cmd = generate_audio_extract_cmd("input.mp4", "output.wav", "wav");
    assert!(cmd.contains(&"pcm_s16le".to_string()));
}

#[test]
fn test_generate_audio_extract_cmd_other() {
    let cmd = generate_audio_extract_cmd("input.mp4", "output.aac", "aac");
    assert!(cmd.contains(&"copy".to_string()));
}

#[test]
fn test_generate_ytdlp_subtitle_cmd() {
    let cmd = generate_ytdlp_subtitle_cmd("https://youtube.com/watch?v=abc", "en", true);
    assert!(cmd.contains(&"--write-sub".to_string()));
    assert!(cmd.contains(&"--write-auto-sub".to_string()));
    assert!(cmd.contains(&"--sub-lang".to_string()));
}

#[test]
fn test_generate_ytdlp_subtitle_cmd_no_auto() {
    let cmd = generate_ytdlp_subtitle_cmd("https://youtube.com/watch?v=abc", "ja", false);
    assert!(!cmd.contains(&"--write-auto-sub".to_string()));
}

#[test]
fn test_generate_ytdlp_download_cmd() {
    let cmd = generate_ytdlp_download_cmd("https://youtube.com/watch?v=abc", &VideoQuality::Hd, "output.mp4");
    assert!(cmd.iter().any(|s| s.contains("1080")));
    assert!(cmd.contains(&"--embed-metadata".to_string()));
}

#[test]
fn test_media_cache() {
    let mut cache = MediaCache::new();
    let ref_id = cache.create_reference();

    assert!(cache.get_reference(&ref_id).is_some());

    cache.cache_url("https://example.com/img.jpg", &ref_id);
    assert_eq!(cache.get_cached("https://example.com/img.jpg"), Some(ref_id.as_str()));
}

#[test]
fn test_media_cache_not_found() {
    let cache = MediaCache::new();
    assert!(cache.get_reference("nonexistent").is_none());
    assert!(cache.get_cached("https://not-cached.com/img.jpg").is_none());
}

#[test]
fn test_media_cache_cleanup() {
    let mut cache = MediaCache::new();
    let expired = cache.cleanup_expired();
    assert!(expired.is_empty());
}

#[test]
fn test_generate_image_extract_script() {
    let request = ImageCollectRequest {
        session: "test".to_string(),
        container_selector: Some("#gallery".to_string()),
        min_width: Some(100),
        min_height: Some(100),
        url_pattern: None,
        output: ImageOutputFormat::Urls,
        max_images: 50,
        concurrency: 5,
    };

    let script = generate_image_extract_script(&request);
    assert!(script.contains("#gallery"));
    assert!(script.contains("querySelectorAll"));
    assert!(script.contains("100"));
}

#[test]
fn test_generate_image_extract_script_defaults() {
    let request = ImageCollectRequest {
        session: "test".to_string(),
        container_selector: None,
        min_width: None,
        min_height: None,
        url_pattern: None,
        output: ImageOutputFormat::Urls,
        max_images: 100,
        concurrency: 5,
    };

    let script = generate_image_extract_script(&request);
    assert!(script.contains("body"));
}

#[test]
fn test_subtitle_format_default() {
    assert_eq!(SubtitleFormat::default(), SubtitleFormat::Text);
}

#[test]
fn test_download_status_equality() {
    assert_eq!(DownloadStatus::Queued, DownloadStatus::Queued);
    assert_ne!(DownloadStatus::Queued, DownloadStatus::Completed);
}

#[test]
fn media_test_default_functions() {
    assert_eq!(default_max_images(), 100);
    assert_eq!(default_concurrency(), 5);
    assert!(default_true());
    assert_eq!(default_frame_format(), "jpg");
    assert_eq!(default_audio_format(), "mp3");
}

#[test]
fn test_analysis_output_default() {
    let output = AnalysisOutput::default();
    assert!(output.directory.is_none());
    assert_eq!(output.frame_format, "");
    assert_eq!(output.audio_format, "");
}

#[test]
fn test_video_quality_equality() {
    assert_eq!(VideoQuality::Best, VideoQuality::Best);
    assert_ne!(VideoQuality::Best, VideoQuality::Low);
    assert_eq!(VideoQuality::Specific(720), VideoQuality::Specific(720));
}

#[test]
fn specific_quality_selector_text() {
    assert_eq!(
        VideoQuality::Specific(480).to_ytdlp_format(),
        "bestvideo[height<=480]+bestaudio/best[height<=480]"
    );
}

#[test]
fn keyframe_command_exact() {
    let cmd = generate_keyframe_extract_cmd("in.mp4", "out_%d.jpg");
    assert_eq!(cmd, vec!["-i", "in.mp4", "-vf", "select='eq(pict_type,I)'", "-vsync", "vfr", "-q:v", "2", "out_%d.jpg"]);
}

#[test]
fn cached_url_can_be_repointed() {
    let mut cache = MediaCache::new();
    let a = cache.create_reference();
    let b = cache.create_reference();
    cache.cache_url("u", &a);
    cache.cache_url("u", &b);
    assert_eq!(cache.get_cached("u"), Some(b.as_str()));
}
