//! Media collection: image extraction from pages, video and subtitle
//! download with yt-dlp, audio and keyframe extraction with FFmpeg, and the
//! cache of downloaded media by reference.

use vstd::prelude::*;
use vstd::string::*;
use std::path::PathBuf;
use crate::table::{Keyed, Table};
use crate::text::{decimal, escape_quotes, escape_quotes_str, owned, push_decimal, push_str, str_eq, views};

verus! {

/// A request to collect the images of a page.
#[derive(Debug, Clone)]
pub struct ImageCollectRequest {
    pub session: String,
    /// Container to search (default `body`).
    pub container_selector: Option<String>,
    pub min_width: Option<u32>,
    pub min_height: Option<u32>,
    /// Regular expression the image URL must match (default `.*`).
    pub url_pattern: Option<String>,
    pub output: ImageOutputFormat,
    pub max_images: u32,
    pub concurrency: u32,
}

/// Most images collected unless told otherwise.
pub fn default_max_images() -> (r: u32)
    ensures
        r == 100,
{
    100
}

/// Parallel downloads unless told otherwise.
pub fn default_concurrency() -> (r: u32)
    ensures
        r == 5,
{
    5
}

/// Boolean request flags that default to on.
pub fn default_true() -> (r: bool)
    ensures
        r,
{
    true
}

/// How collected images are returned.
#[derive(Debug, Clone, Copy, PartialEq, Eq, Structural)]
pub enum ImageOutputFormat {
    /// URLs only.
    Urls,
    /// Inline base64 data.
    Base64,
    /// Saved files behind a reference.
    Files,
    /// A ZIP archive.
    Zip,
}

impl Default for ImageOutputFormat {
    fn default() -> (r: Self)
        ensures
            r == ImageOutputFormat::Urls,
    {
        ImageOutputFormat::Urls
    }
}

/// The collected images.
#[derive(Debug, Clone)]
pub struct ImageCollectResponse {
    pub success: bool,
    pub reference: Option<String>,
    pub images: Vec<ImageInfo>,
    pub count: usize,
    pub elapsed_ms: u64,
}

/// One collected image.
#[derive(Debug, Clone)]
pub struct ImageInfo {
    pub url: String,
    pub width: Option<u32>,
    pub height: Option<u32>,
    pub alt: Option<String>,
    pub base64: Option<String>,
    pub filename: Option<String>,
}

/// The container an image request searches.
pub open spec fn container_of(req: ImageCollectRequest) -> Seq<char> {
    match req.container_selector {
        Some(c) => c@,
        None => "body"@,
    }
}

/// The URL pattern of an image request.
pub open spec fn pattern_of(req: ImageCollectRequest) -> Seq<char> {
    match req.url_pattern {
        Some(p) => p@,
        None => ".*"@,
    }
}

/// An optional bound, zero when absent.
pub open spec fn opt_u32_or_zero(o: Option<u32>) -> nat {
    match o {
        Some(v) => v as nat,
        None => 0,
    }
}

/// The text `generate_image_extract_script` produces.
pub open spec fn image_extract_script(req: ImageCollectRequest) -> Seq<char> {
    "
(function() {
    const container = document.querySelector(\""@ + escape_quotes(container_of(req)) + "\");
    if (!container) return JSON.stringify({ error: \"Container not found\" });
    
    const images = Array.from(container.querySelectorAll(\"img\"));
    const pattern = new RegExp(\""@ + escape_quotes(pattern_of(req)) + "\");
    
    const results = images
        .filter(img => {
            const w = img.naturalWidth || img.width;
            const h = img.naturalHeight || img.height;
            return w >= "@ + decimal(opt_u32_or_zero(req.min_width)) + " && h >= "@ + decimal(opt_u32_or_zero(req.min_height)) + " && pattern.test(img.src);
        })
        .slice(0, "@ + decimal(req.max_images as nat) + ")
        .map(img => ({
            url: img.src,
            width: img.naturalWidth || img.width,
            height: img.naturalHeight || img.height,
            alt: img.alt || null
        }));
    
    return JSON.stringify({ images: results, count: results.length });
})();
"@
}

/// JavaScript that collects the images inside the container (default
/// `body`) at least `min_width` x `min_height` pixels whose URL matches the
/// pattern (default `.*`), at most `max_images` of them.
pub fn generate_image_extract_script(request: &ImageCollectRequest) -> (r: String)
    ensures
        r@ == image_extract_script(*request),
{
    let container: &str = match &request.container_selector {
        Some(c) => c.as_str(),
        None => "body",
    };
    let pattern: &str = match &request.url_pattern {
        Some(p) => p.as_str(),
        None => ".*",
    };
    let min_width: u32 = match request.min_width {
        Some(w) => w,
        None => 0,
    };
    let min_height: u32 = match request.min_height {
        Some(h) => h,
        None => 0,
    };
    let mut r = owned("
(function() {
    const container = document.querySelector(\"");
    let c = escape_quotes_str(container);
    push_str(&mut r, c.as_str());
    push_str(&mut r, "\");
    if (!container) return JSON.stringify({ error: \"Container not found\" });
    
    const images = Array.from(container.querySelectorAll(\"img\"));
    const pattern = new RegExp(\"");
    let pt = escape_quotes_str(pattern);
    push_str(&mut r, pt.as_str());
    push_str(&mut r, "\");
    
    const results = images
        .filter(img => {
            const w = img.naturalWidth || img.width;
            const h = img.naturalHeight || img.height;
            return w >= ");
    push_decimal(&mut r, min_width as u64);
    push_str(&mut r, " && h >= ");
    push_decimal(&mut r, min_height as u64);
    push_str(&mut r, " && pattern.test(img.src);
        })
        .slice(0, ");
    push_decimal(&mut r, request.max_images as u64);
    push_str(&mut r, ")
        .map(img => ({
            url: img.src,
            width: img.naturalWidth || img.width,
            height: img.naturalHeight || img.height,
            alt: img.alt || null
        }));
    
    return JSON.stringify({ images: results, count: results.length });
})();
");
    r
}

/// A request for the subtitles of a video.
#[derive(Debug, Clone)]
pub struct SubtitleRequest {
    pub url: String,
    pub languages: Vec<String>,
    pub auto_generated: bool,
    pub format: SubtitleFormat,
}

/// Subtitle output format.
#[derive(Debug, Clone, Copy, PartialEq, Eq, Structural)]
pub enum SubtitleFormat {
    Text,
    Srt,
    Vtt,
    Json,
}

impl Default for SubtitleFormat {
    fn default() -> (r: Self)
        ensures
            r == SubtitleFormat::Text,
    {
        SubtitleFormat::Text
    }
}

/// Extracted subtitles.
#[derive(Debug, Clone)]
pub struct SubtitleResponse {
    pub success: bool,
    pub video_id: String,
    pub title: Option<String>,
    pub language: String,
    pub format: String,
    pub content: Option<String>,
    pub reference: Option<String>,
}

/// A request to download a video.
#[derive(Debug, Clone)]
pub struct VideoDownloadRequest {
    pub url: String,
    pub quality: VideoQuality,
    pub audio_only: bool,
    pub format: Option<String>,
    pub embed_metadata: bool,
}

/// Video quality preference.
#[derive(Debug, Clone, Copy, PartialEq, Eq, Structural)]
pub enum VideoQuality {
    /// Best available.
    Best,
    /// 1080p or lower.
    Hd,
    /// 720p or lower.
    Sd,
    /// Lowest available.
    Low,
    /// At most the given height.
    Specific(u32),
}

impl Default for VideoQuality {
    fn default() -> (r: Self)
        ensures
            r == VideoQuality::Best,
    {
        VideoQuality::Best
    }
}

/// The yt-dlp format selector for a quality.
pub open spec fn ytdlp_format(q: VideoQuality) -> Seq<char> {
    match q {
        VideoQuality::Best => "bestvideo+bestaudio/best"@,
        VideoQuality::Hd => "bestvideo[height<=1080]+bestaudio/best[height<=1080]"@,
        VideoQuality::Sd => "bestvideo[height<=720]+bestaudio/best[height<=720]"@,
        VideoQuality::Low => "worstvideo+worstaudio/worst"@,
        VideoQuality::Specific(h) => "bestvideo[height<="@ + decimal(h as nat) + "]+bestaudio/best[height<="@
            + decimal(h as nat) + "]"@,
    }
}

impl VideoQuality {
    /// The yt-dlp format selector for this quality.
    pub fn to_ytdlp_format(&self) -> (r: String)
        ensures
            r@ == ytdlp_format(*self),
    {
        match self {
            VideoQuality::Best => owned("bestvideo+bestaudio/best"),
            VideoQuality::Hd => owned("bestvideo[height<=1080]+bestaudio/best[height<=1080]"),
            VideoQuality::Sd => owned("bestvideo[height<=720]+bestaudio/best[height<=720]"),
            VideoQuality::Low => owned("worstvideo+worstaudio/worst"),
            VideoQuality::Specific(h) => {
                let mut r = owned("bestvideo[height<=");
                push_decimal(&mut r, *h as u64);
                push_str(&mut r, "]+bestaudio/best[height<=");
                push_decimal(&mut r, *h as u64);
                push_str(&mut r, "]");
                r
            },
        }
    }
}

/// A video download.
#[derive(Debug, Clone)]
pub struct VideoDownloadResponse {
    pub success: bool,
    pub video_id: String,
    pub title: Option<String>,
    pub reference: String,
    pub status: DownloadStatus,
    pub progress: Option<u8>,
}

/// Status of a media download.
#[derive(Debug, Clone, Copy, PartialEq, Eq, Structural)]
pub enum DownloadStatus {
    Queued,
    InProgress,
    Completed,
    Failed,
}

/// Where and how analysis output is written.
#[derive(Debug)]
pub struct AnalysisOutput {
    /// Output directory (default: temporary).
    pub directory: Option<PathBuf>,
    pub frame_format: String,
    pub audio_format: String,
}

impl Default for AnalysisOutput {
    fn default() -> (r: Self)
        ensures
            r.directory is None,
            r.frame_format@.len() == 0,
            r.audio_format@.len() == 0,
    {
        AnalysisOutput { directory: None, frame_format: String::new(), audio_format: String::new() }
    }
}

/// Frame image format unless told otherwise.
pub fn default_frame_format() -> (r: String)
    ensures
        r@ == "jpg"@,
{
    owned("jpg")
}

/// Audio format unless told otherwise.
pub fn default_audio_format() -> (r: String)
    ensures
        r@ == "mp3"@,
{
    owned("mp3")
}

/// A list of owned strings from string slices.
fn strings(parts: &[&str]) -> (r: Vec<String>)
    ensures
        r@.len() == parts@.len(),
        forall|i: int| 0 <= i < parts@.len() ==> (#[trigger] r@[i])@ == parts@[i]@,
{
    let mut r: Vec<String> = Vec::new();
    let mut i: usize = 0;
    while i < parts.len()
        invariant
            i <= parts@.len(),
            r@.len() == i,
            forall|k: int| 0 <= k < i ==> (#[trigger] r@[k])@ == parts@[k]@,
        decreases parts@.len() - i,
    {
        r.push(owned(parts[i]));
        i = i + 1;
    }
    r
}

/// FFmpeg arguments that extract the keyframes (I-frames) of `input` to
/// `output_pattern`.
pub fn generate_keyframe_extract_cmd(input: &str, output_pattern: &str) -> (r: Vec<String>)
    ensures
        views(r@) == seq!["-i"@, input@, "-vf"@, "select='eq(pict_type,I)'"@, "-vsync"@, "vfr"@,
            "-q:v"@, "2"@, output_pattern@],
{
    let r = strings(&["-i", input, "-vf", "select='eq(pict_type,I)'", "-vsync", "vfr", "-q:v", "2", output_pattern]);
    assert(views(r@) =~= seq!["-i"@, input@, "-vf"@, "select='eq(pict_type,I)'"@, "-vsync"@, "vfr"@,
            "-q:v"@, "2"@, output_pattern@]);
    r
}

/// The FFmpeg arguments that extract the audio of `input` to `output`.
pub open spec fn audio_extract_args(input: Seq<char>, output: Seq<char>, format: Seq<char>) -> Seq<Seq<char>> {
    if format == "mp3"@ {
        seq!["-i"@, input, "-vn"@, "-acodec"@, "libmp3lame"@, "-ab"@, "192k"@, output]
    } else if format == "wav"@ {
        seq!["-i"@, input, "-vn"@, "-acodec"@, "pcm_s16le"@, output]
    } else {
        seq!["-i"@, input, "-vn"@, "-c:a"@, "copy"@, output]
    }
}

/// FFmpeg arguments that extract the audio of `input` to `output`: MP3 at
/// 192k, WAV as 16-bit PCM, anything else copied as it is.
pub fn generate_audio_extract_cmd(input: &str, output: &str, format: &str) -> (r: Vec<String>)
    ensures
        views(r@) == audio_extract_args(input@, output@, format@),
{
    if str_eq(format, "mp3") {
        let r = strings(&["-i", input, "-vn", "-acodec", "libmp3lame", "-ab", "192k", output]);
        assert(views(r@) =~= audio_extract_args(input@, output@, format@));
        r
    } else if str_eq(format, "wav") {
        let r = strings(&["-i", input, "-vn", "-acodec", "pcm_s16le", output]);
        assert(views(r@) =~= audio_extract_args(input@, output@, format@));
        r
    } else {
        let r = strings(&["-i", input, "-vn", "-c:a", "copy", output]);
        assert(views(r@) =~= audio_extract_args(input@, output@, format@));
        r
    }
}

/// yt-dlp arguments that fetch the subtitles of `url` in `lang` without the
/// video, auto-generated ones too when `auto` is set.
pub fn generate_ytdlp_subtitle_cmd(url: &str, lang: &str, auto: bool) -> (r: Vec<String>)
    ensures
        views(r@) == seq![url@, "--write-sub"@, "--sub-lang"@, lang@, "--skip-download"@]
            + (if auto { seq!["--write-auto-sub"@] } else { Seq::empty() }),
{
    let mut cmd = strings(&[url, "--write-sub", "--sub-lang", lang, "--skip-download"]);
    if auto {
        cmd.push(owned("--write-auto-sub"));
    }
    assert(views(cmd@) =~= seq![url@, "--write-sub"@, "--sub-lang"@, lang@, "--skip-download"@]
            + (if auto { seq!["--write-auto-sub"@] } else { Seq::empty() }));
    cmd
}

/// yt-dlp arguments that download `url` at `quality` to `output` with its
/// metadata embedded, reporting progress.
pub fn generate_ytdlp_download_cmd(url: &str, quality: &VideoQuality, output: &str) -> (r: Vec<String>)
    ensures
        views(r@) == seq![url@, "-f"@, ytdlp_format(*quality), "-o"@, output@, "--embed-metadata"@, "--progress"@],
{
    let f = quality.to_ytdlp_format();
    let r = strings(&[url, "-f", f.as_str(), "-o", output, "--embed-metadata", "--progress"]);
    assert(views(r@) =~= seq![url@, "-f"@, ytdlp_format(*quality), "-o"@, output@, "--embed-metadata"@, "--progress"@]);
    r
}

/// A stored media file; `metadata` pairs carry JSON text.
#[derive(Debug, Clone)]
pub struct MediaFile {
    pub filename: String,
    pub size: u64,
    pub mime_type: String,
    pub metadata: Option<Vec<(String, String)>>,
}

/// A reference under which downloaded media files are kept.
#[derive(Debug, Clone)]
pub struct MediaReference {
    pub id: String,
    pub created_at: String,
    pub expires_at: String,
    pub files: Vec<MediaFile>,
    pub total_size: u64,
}

impl Keyed for MediaReference {
    open spec fn key_view(&self) -> Seq<char> {
        self.id@
    }

    fn key_str(&self) -> (r: &str) {
        self.id.as_str()
    }
}

/// A cached URL and the reference its media is kept under.
#[derive(Debug, Clone)]
pub struct CachedUrl {
    pub url: String,
    pub reference: String,
}

impl Keyed for CachedUrl {
    open spec fn key_view(&self) -> Seq<char> {
        self.url@
    }

    fn key_str(&self) -> (r: &str) {
        self.url.as_str()
    }
}

/// The media cache: references by id, and the reference of each cached URL.
#[derive(Debug, Clone)]
pub struct MediaCache {
    url_map: Table<CachedUrl>,
    references: Table<MediaReference>,
}

impl MediaCache {
    /// The references by id.
    pub closed spec fn refs(&self) -> Map<Seq<char>, MediaReference> {
        self.references@
    }

    /// The reference of each cached URL.
    pub closed spec fn urls(&self) -> Map<Seq<char>, Seq<char>> {
        self.url_map@.map_values(|c: CachedUrl| c.reference@)
    }

    /// Well-formedness of both tables.
    pub closed spec fn wf(&self) -> bool {
        self.url_map.wf() && self.references.wf()
    }

    /// An empty cache.
    pub fn new() -> (r: Self)
        ensures
            r.wf(),
            r.refs() == Map::<Seq<char>, MediaReference>::empty(),
            r.urls() == Map::<Seq<char>, Seq<char>>::empty(),
    {
        let r = MediaCache { url_map: Table::new(), references: Table::new() };
        assert(r.urls() =~= Map::<Seq<char>, Seq<char>>::empty());
        r
    }

    /// Creates an empty reference with a fresh random id, stamped now (whole
    /// seconds since the epoch), and returns its id.
    pub fn create_reference(&mut self) -> (id: String)
        requires
            old(self).wf(),
        ensures
            final(self).wf(),
            final(self).urls() == old(self).urls(),
            final(self).refs().contains_key(id@),
            final(self).refs()[id@].id@ == id@,
            final(self).refs()[id@].files@.len() == 0,
            final(self).refs()[id@].total_size == 0,
            final(self).refs()[id@].expires_at@ == final(self).refs()[id@].created_at@,
            exists|t: u64| final(self).refs()[id@].created_at@ == decimal(t as nat),
            forall|k: Seq<char>| k != id@ ==> final(self).refs().contains_key(k) == old(self).refs().contains_key(k)
                && (old(self).refs().contains_key(k) ==> final(self).refs()[k] == old(self).refs()[k]),
    {
        let id = crate::ids::new_uuid_v4();
        let now = crate::text::u64_to_string(crate::clock::unix_now_secs());
        let r = MediaReference {
            id: id.clone(),
            created_at: now.clone(),
            expires_at: now,
            files: Vec::new(),
            total_size: 0,
        };
        let _ = self.references.insert(r);
        id
    }

    /// The reference with id `id`.
    pub fn get_reference(&self, id: &str) -> (r: Option<&MediaReference>)
        requires
            self.wf(),
        ensures
            match r {
                Some(m) => self.refs().contains_key(id@) && *m == self.refs()[id@],
                None => !self.refs().contains_key(id@),
            },
    {
        self.references.get(id)
    }

    /// The reference a URL is cached under.
    pub fn get_cached(&self, url: &str) -> (r: Option<&str>)
        requires
            self.wf(),
        ensures
            match r {
                Some(s) => self.urls().contains_key(url@) && s@ == self.urls()[url@],
                None => !self.urls().contains_key(url@),
            },
    {
        match self.url_map.get(url) {
            Some(c) => Some(c.reference.as_str()),
            None => None,
        }
    }

    /// Records that `url` is cached under `reference`.
    pub fn cache_url(&mut self, url: &str, reference: &str)
        requires
            old(self).wf(),
        ensures
            final(self).wf(),
            final(self).refs() == old(self).refs(),
            final(self).urls() == old(self).urls().insert(url@, reference@),
    {
        let _ = self.url_map.insert(CachedUrl { url: owned(url), reference: owned(reference) });
        assert(self.urls() =~= old(self).urls().insert(url@, reference@));
    }

    /// Removes expired references and returns their ids; references carry no
    /// expiry yet, so none is removed.
    pub fn cleanup_expired(&mut self) -> (r: Vec<String>)
        ensures
            r@.len() == 0,
            *final(self) == *old(self),
    {
        Vec::new()
    }
}

/// The capped qualities select the best video and audio no taller than
/// their cap (every height filter is `<=` the cap): `Hd` caps at 1080 lines
/// and `Sd` at 720, each selecting exactly what an explicit cap of that
/// height selects, and an explicit cap `h` filters both the video and the
/// combined fallback by `height<=h`.
pub proof fn law_quality_caps_height(h: u32)
    ensures
        ytdlp_format(VideoQuality::Specific(h)) == "bestvideo[height<="@ + decimal(h as nat)
            + "]+bestaudio/best[height<="@ + decimal(h as nat) + "]"@,
        ytdlp_format(VideoQuality::Hd) == ytdlp_format(VideoQuality::Specific(1080)),
        ytdlp_format(VideoQuality::Sd) == ytdlp_format(VideoQuality::Specific(720)),
{
    reveal_strlit("bestvideo[height<=");
    reveal_strlit("]+bestaudio/best[height<=");
    reveal_strlit("]");
    reveal_strlit("bestvideo[height<=1080]+bestaudio/best[height<=1080]");
    reveal_strlit("bestvideo[height<=720]+bestaudio/best[height<=720]");
    reveal_with_fuel(decimal, 5);
    assert(decimal(1080) =~= seq!['1', '0', '8', '0']);
    assert(decimal(720) =~= seq!['7', '2', '0']);
    assert(ytdlp_format(VideoQuality::Specific(1080)) =~= "bestvideo[height<=1080]+bestaudio/best[height<=1080]"@);
    assert(ytdlp_format(VideoQuality::Specific(720)) =~= "bestvideo[height<=720]+bestaudio/best[height<=720]"@);
}

} // verus!
