//! Assembly of structured media metadata records: the image path from
//! decoded dimensions and color model, and the container path from
//! probed format and stream values.

use vstd::prelude::*;
use crate::text::{
    after_last, ascii_lowercase, ascii_uppercase, dec_chars, has_nul, contains_nul, lower_chars,
    str_eq, suffix_after_last, u64_to_dec, upper_chars,
};

verus! {

/// Error types for media info extraction.
#[derive(Debug, Clone)]
pub enum MediaInfoError {
    /// The media file could not be opened
    FileOpen(String),
    /// Stream information could not be read
    StreamInfo(String),
    /// No video stream was found
    NoVideoStream,
    /// No audio stream was found
    NoAudioStream,
    /// Metadata could not be extracted
    MetadataExtraction(String),
    /// The underlying image decode failed
    ImageError(String),
    /// The file path is invalid
    InvalidPath(String),
}

/// The rendering of each extraction error as one line of text.
pub open spec fn spec_error_message(e: MediaInfoError) -> Seq<char> {
    match e {
        MediaInfoError::FileOpen(s) => "Failed to open media file: "@ + s@,
        MediaInfoError::StreamInfo(s) => "Failed to read stream info: "@ + s@,
        MediaInfoError::NoVideoStream => "No video stream found"@,
        MediaInfoError::NoAudioStream => "No audio stream found"@,
        MediaInfoError::MetadataExtraction(s) => "Failed to extract metadata: "@ + s@,
        MediaInfoError::ImageError(s) => "Image error: "@ + s@,
        MediaInfoError::InvalidPath(s) => "Invalid file path: "@ + s@,
    }
}

impl MediaInfoError {
    /// One line of text describing the error.
    pub fn message(&self) -> (r: String)
        ensures
            r@ == spec_error_message(*self),
    {
        match self {
            MediaInfoError::FileOpen(s) => {
                let mut m = String::from_str("Failed to open media file: ");
                m.append(s.as_str());
                m
            },
            MediaInfoError::StreamInfo(s) => {
                let mut m = String::from_str("Failed to read stream info: ");
                m.append(s.as_str());
                m
            },
            MediaInfoError::NoVideoStream => String::from_str("No video stream found"),
            MediaInfoError::NoAudioStream => String::from_str("No audio stream found"),
            MediaInfoError::MetadataExtraction(s) => {
                let mut m = String::from_str("Failed to extract metadata: ");
                m.append(s.as_str());
                m
            },
            MediaInfoError::ImageError(s) => {
                let mut m = String::from_str("Image error: ");
                m.append(s.as_str());
                m
            },
            MediaInfoError::InvalidPath(s) => {
                let mut m = String::from_str("Invalid file path: ");
                m.append(s.as_str());
                m
            },
        }
    }
}

/// Video stream information. The frame rate is kept as the stream's
/// average-frame-rate rational, `fps_num / fps_den`.
#[derive(Debug, Clone)]
pub struct VideoInfo {
    /// Video codec name (e.g., "h264", "hevc", "vp9")
    pub codec: String,
    /// Video codec long name (e.g., "H.264 / AVC / MPEG-4 AVC")
    pub codec_long: String,
    /// Width in pixels
    pub width: i32,
    /// Height in pixels
    pub height: i32,
    /// Frame rate numerator; 0 when the stream reports none
    pub fps_num: i32,
    /// Frame rate denominator; 1 when the stream reports none
    pub fps_den: i32,
    /// Bitrate in bits per second (if available)
    pub bitrate: Option<i64>,
    /// Pixel format (e.g., "yuv420p")
    pub pix_fmt: String,
    /// Aspect ratio (width:height)
    pub aspect_ratio: String,
}

/// Audio stream information.
#[derive(Debug, Clone)]
pub struct AudioInfo {
    /// Audio codec name (e.g., "aac", "mp3", "opus")
    pub codec: String,
    /// Audio codec long name
    pub codec_long: String,
    /// Sample rate in Hz
    pub sample_rate: i32,
    /// Number of audio channels
    pub channels: i32,
    /// Bitrate in bits per second (if available)
    pub bitrate: Option<i64>,
    /// Sample format (e.g., "fltp")
    pub sample_fmt: String,
}

/// General file information. The duration is kept in microseconds,
/// the container's own tick unit.
#[derive(Debug, Clone)]
pub struct GeneralInfo {
    /// File format name (e.g., "mp4", "mov", "jpeg")
    pub format: String,
    /// Format long name
    pub format_long: String,
    /// Duration in microseconds (for videos)
    pub duration: Option<i64>,
    /// Overall bitrate in bits per second
    pub bitrate: Option<i64>,
    /// File size in bytes
    pub size: i64,
}

/// Comprehensive media file information.
#[derive(Debug, Clone)]
pub struct MediaInfo {
    /// Video stream information
    pub video: Option<VideoInfo>,
    /// Audio stream information
    pub audio: Option<AudioInfo>,
    /// General file information
    pub general: GeneralInfo,
    /// Additional metadata (container tags)
    pub metadata: Vec<(String, String)>,
}

/// Whether a lowercase extension is handled by the image decode path.
pub open spec fn is_image_file_ext(s: Seq<char>) -> bool {
    ||| s == "jpg"@
    ||| s == "jpeg"@
    ||| s == "png"@
    ||| s == "gif"@
    ||| s == "bmp"@
    ||| s == "webp"@
    ||| s == "heic"@
    ||| s == "heif"@
    ||| s == "tiff"@
    ||| s == "tif"@
}

/// Whether the path's trailing extension picks the image decode path.
pub open spec fn spec_is_image_file(path: Seq<char>) -> bool {
    is_image_file_ext(lower_chars(after_last(path, '.')))
}

/// Check if file is an image based on extension.
pub fn is_image_file(file_path: &str) -> (r: bool)
    ensures
        r == spec_is_image_file(file_path@),
{
    let tail = suffix_after_last(file_path, '.');
    let low = ascii_lowercase(tail.as_str());
    let e = low.as_str();
    str_eq(e, "jpg") || str_eq(e, "jpeg") || str_eq(e, "png") || str_eq(e, "gif")
        || str_eq(e, "bmp") || str_eq(e, "webp") || str_eq(e, "heic") || str_eq(e, "heif")
        || str_eq(e, "tiff") || str_eq(e, "tif")
}

/// Greatest common divisor.
pub open spec fn spec_gcd(a: nat, b: nat) -> nat
    decreases b,
{
    if b == 0 {
        a
    } else {
        spec_gcd(b, a % b)
    }
}

/// The greatest common divisor of two positive numbers is positive.
pub proof fn lemma_gcd_pos(a: nat, b: nat)
    requires
        a > 0 || b > 0,
    ensures
        spec_gcd(a, b) > 0,
    decreases b,
{
    if b > 0 {
        lemma_gcd_pos(b, a % b);
    }
}

/// Calculate greatest common divisor for aspect ratio.
pub fn gcd(a: i32, b: i32) -> (r: i32)
    requires
        a >= 0,
        b >= 0,
    ensures
        r == spec_gcd(a as nat, b as nat),
{
    let mut x = a;
    let mut y = b;
    while y != 0
        invariant
            x >= 0,
            y >= 0,
            spec_gcd(x as nat, y as nat) == spec_gcd(a as nat, b as nat),
        decreases y,
    {
        let t = y;
        y = x % y;
        x = t;
    }
    x
}

/// The reduced aspect ratio text: `w:h` divided by their greatest
/// common divisor, or `N/A` for a degenerate height or width.
pub open spec fn spec_aspect_ratio(w: int, h: int) -> Seq<char> {
    if h > 0 && w >= 0 {
        let g = spec_gcd(w as nat, h as nat) as int;
        dec_chars((w / g) as nat) + ":"@ + dec_chars((h / g) as nat)
    } else {
        "N/A"@
    }
}

/// The reduced aspect ratio of a video frame, `N/A` when the height is
/// zero.
pub fn aspect_ratio_string(width: i32, height: i32) -> (r: String)
    ensures
        r@ == spec_aspect_ratio(width as int, height as int),
{
    if height > 0 && width >= 0 {
        let g = gcd(width, height);
        proof {
            lemma_gcd_pos(width as nat, height as nat);
        }
        let mut r = u64_to_dec((width / g) as u64);
        r.append(":");
        let h = u64_to_dec((height / g) as u64);
        r.append(h.as_str());
        r
    } else {
        String::from_str("N/A")
    }
}

/// The unreduced ratio text `w:h`, or `N/A` when the height is zero.
pub open spec fn spec_unreduced_ratio(w: nat, h: nat) -> Seq<char> {
    if h > 0 {
        dec_chars(w) + ":"@ + dec_chars(h)
    } else {
        "N/A"@
    }
}

/// The color model of a decoded image, reduced to the cases the image
/// decoder reports.
#[derive(Debug, Clone, Copy, PartialEq, Eq, Structural)]
pub enum ColorModel {
    /// 8-bit luminance
    L8,
    /// 8-bit luminance with alpha
    La8,
    /// 8-bit RGB
    Rgb8,
    /// 8-bit RGB with alpha
    Rgba8,
    /// 16-bit luminance
    L16,
    /// 16-bit luminance with alpha
    La16,
    /// 16-bit RGB
    Rgb16,
    /// 16-bit RGB with alpha
    Rgba16,
    /// 32-bit float RGB
    Rgb32F,
    /// 32-bit float RGB with alpha
    Rgba32F,
}

/// The name of each color model, as the decoder prints it.
pub open spec fn spec_color_name(c: ColorModel) -> Seq<char> {
    match c {
        ColorModel::L8 => "L8"@,
        ColorModel::La8 => "La8"@,
        ColorModel::Rgb8 => "Rgb8"@,
        ColorModel::Rgba8 => "Rgba8"@,
        ColorModel::L16 => "L16"@,
        ColorModel::La16 => "La16"@,
        ColorModel::Rgb16 => "Rgb16"@,
        ColorModel::Rgba16 => "Rgba16"@,
        ColorModel::Rgb32F => "Rgb32F"@,
        ColorModel::Rgba32F => "Rgba32F"@,
    }
}

impl ColorModel {
    /// The color model's name.
    pub fn name(&self) -> (r: String)
        ensures
            r@ == spec_color_name(*self),
    {
        match self {
            ColorModel::L8 => String::from_str("L8"),
            ColorModel::La8 => String::from_str("La8"),
            ColorModel::Rgb8 => String::from_str("Rgb8"),
            ColorModel::Rgba8 => String::from_str("Rgba8"),
            ColorModel::L16 => String::from_str("L16"),
            ColorModel::La16 => String::from_str("La16"),
            ColorModel::Rgb16 => String::from_str("Rgb16"),
            ColorModel::Rgba16 => String::from_str("Rgba16"),
            ColorModel::Rgb32F => String::from_str("Rgb32F"),
            ColorModel::Rgba32F => String::from_str("Rgba32F"),
        }
    }
}

/// The uppercased trailing extension of a path, the image path's
/// format name.
pub open spec fn spec_image_format(path: Seq<char>) -> Seq<char> {
    upper_chars(after_last(path, '.'))
}

/// Builds the metadata record of a decoded image: codec "image", the
/// decoded dimensions, the unreduced ratio, the format name from the
/// uppercased extension, and no audio stream or duration.
pub fn build_image_media_info(
    file_path: &str,
    width: u32,
    height: u32,
    color: ColorModel,
    file_size: i64,
) -> (r: MediaInfo)
    requires
        width <= i32::MAX as u32,
        height <= i32::MAX as u32,
    ensures
        r.video is Some,
        r.video->0.codec@ == "image"@,
        r.video->0.codec_long@ == spec_image_format(file_path@) + " Image"@,
        r.video->0.width == width as i32,
        r.video->0.height == height as i32,
        r.video->0.fps_num == 0,
        r.video->0.fps_den == 1,
        r.video->0.bitrate is None,
        r.video->0.pix_fmt@ == spec_color_name(color),
        r.video->0.aspect_ratio@ == spec_unreduced_ratio(width as nat, height as nat),
        r.audio is None,
        r.general.format@ == spec_image_format(file_path@),
        r.general.format_long@ == spec_image_format(file_path@) + " Image File"@,
        r.general.duration is None,
        r.general.bitrate is None,
        r.general.size == file_size,
        r.metadata@.len() == 0,
{
    let tail = suffix_after_last(file_path, '.');
    let format = ascii_uppercase(tail.as_str());
    let aspect_ratio = if height > 0 {
        let mut a = u64_to_dec(width as u64);
        a.append(":");
        let h = u64_to_dec(height as u64);
        a.append(h.as_str());
        a
    } else {
        String::from_str("N/A")
    };
    let mut codec_long = format.clone();
    codec_long.append(" Image");
    let mut format_long = format.clone();
    format_long.append(" Image File");
    MediaInfo {
        video: Some(
            VideoInfo {
                codec: String::from_str("image"),
                codec_long,
                width: width as i32,
                height: height as i32,
                fps_num: 0,
                fps_den: 1,
                bitrate: None,
                pix_fmt: color.name(),
                aspect_ratio,
            },
        ),
        audio: None,
        general: GeneralInfo {
            format,
            format_long,
            duration: None,
            bitrate: None,
            size: file_size,
        },
        metadata: Vec::new(),
    }
}

/// The container's sentinel for an absent timestamp.
pub const NO_TIMESTAMP: i64 = i64::MIN;

/// The kind of an elementary stream.
#[derive(Debug, Clone, Copy, PartialEq, Eq, Structural)]
pub enum StreamKind {
    /// A video stream
    Video,
    /// An audio stream
    Audio,
    /// Any other stream (subtitles, data, attachments)
    Other,
}

/// One elementary stream as the demuxer reports it, reduced to the
/// plain values the record assembly reads.
#[derive(Debug, Clone)]
pub struct ProbedStream {
    /// The stream's kind
    pub kind: StreamKind,
    /// Codec short name from the codec descriptor, if any
    pub codec_name: Option<String>,
    /// Codec long name from the codec descriptor, if any
    pub codec_long_name: Option<String>,
    /// Width in pixels (video)
    pub width: i32,
    /// Height in pixels (video)
    pub height: i32,
    /// Stream bitrate in bits per second, 0 or negative when unset
    pub bit_rate: i64,
    /// Average frame rate numerator (video)
    pub fps_num: i32,
    /// Average frame rate denominator (video); 0 when unset
    pub fps_den: i32,
    /// Pixel format name (video), if known
    pub pix_fmt: Option<String>,
    /// Sample rate in Hz (audio)
    pub sample_rate: i32,
    /// Channel count (audio)
    pub channels: i32,
    /// Sample format name (audio), if known
    pub sample_fmt: Option<String>,
}

/// A demuxed container as the prober reports it.
#[derive(Debug, Clone)]
pub struct ProbeData {
    /// Container format short name, if any
    pub format_name: Option<String>,
    /// Container format long name, if any
    pub format_long_name: Option<String>,
    /// Duration in container ticks (microseconds); `NO_TIMESTAMP` when
    /// the container reports none
    pub duration_ticks: i64,
    /// Overall bitrate in bits per second, 0 or negative when unset
    pub bit_rate: i64,
    /// Container-level tags
    pub tags: Vec<(String, String)>,
    /// The container's elementary streams, in container order
    pub streams: Vec<ProbedStream>,
}

/// A string option's characters, or "unknown" where it is absent.
pub open spec fn or_unknown(o: Option<String>) -> Seq<char> {
    match o {
        Some(s) => s@,
        None => "unknown"@,
    }
}

/// The option's characters where present, else "unknown".
pub fn name_or_unknown(o: &Option<String>) -> (r: String)
    ensures
        r@ == or_unknown(*o),
{
    match o {
        Some(s) => s.clone(),
        None => String::from_str("unknown"),
    }
}

/// Whether `i` is the position of the first stream of kind `k`.
pub open spec fn is_first_of_kind(streams: Seq<ProbedStream>, k: StreamKind, i: int) -> bool {
    &&& 0 <= i < streams.len()
    &&& streams[i].kind == k
    &&& forall|j: int| 0 <= j < i ==> streams[j].kind != k
}

/// Two first streams of one kind coincide.
pub proof fn lemma_first_of_kind_unique(streams: Seq<ProbedStream>, k: StreamKind, i1: int, i2: int)
    requires
        is_first_of_kind(streams, k, i1),
        is_first_of_kind(streams, k, i2),
    ensures
        i1 == i2,
{
}

/// Position of the first stream of kind `k`, if any.
pub fn find_first_of_kind(streams: &Vec<ProbedStream>, k: StreamKind) -> (r: Option<usize>)
    ensures
        match r {
            Some(i) => is_first_of_kind(streams@, k, i as int),
            None => forall|j: int| 0 <= j < streams@.len() ==> streams@[j].kind != k,
        },
{
    let mut i: usize = 0;
    while i < streams.len()
        invariant
            i <= streams@.len(),
            forall|j: int| 0 <= j < i ==> streams@[j].kind != k,
        decreases streams@.len() - i,
    {
        if streams[i].kind == k {
            return Some(i);
        }
        i = i + 1;
    }
    None
}

/// Whether a video record carries exactly the values of a probed
/// stream: descriptor names with an "unknown" fallback, the long name
/// falling back to the short one, positive bitrate only, the rational
/// frame rate zeroed when the denominator is unset, and the reduced
/// aspect ratio.
pub open spec fn video_matches_stream(s: ProbedStream, v: VideoInfo) -> bool {
    &&& v.codec@ == or_unknown(s.codec_name)
    &&& v.codec_long@ == match s.codec_long_name {
        Some(l) => l@,
        None => or_unknown(s.codec_name),
    }
    &&& v.width == s.width
    &&& v.height == s.height
    &&& (if s.fps_den > 0 {
        v.fps_num == s.fps_num && v.fps_den == s.fps_den
    } else {
        v.fps_num == 0 && v.fps_den == 1
    })
    &&& v.bitrate == (if s.bit_rate > 0 {
        Some(s.bit_rate)
    } else {
        Option::<i64>::None
    })
    &&& v.pix_fmt@ == or_unknown(s.pix_fmt)
    &&& v.aspect_ratio@ == spec_aspect_ratio(s.width as int, s.height as int)
}

/// Whether an audio record carries exactly the values of a probed
/// stream.
pub open spec fn audio_matches_stream(s: ProbedStream, a: AudioInfo) -> bool {
    &&& a.codec@ == or_unknown(s.codec_name)
    &&& a.codec_long@ == match s.codec_long_name {
        Some(l) => l@,
        None => or_unknown(s.codec_name),
    }
    &&& a.sample_rate == s.sample_rate
    &&& a.channels == s.channels
    &&& a.bitrate == (if s.bit_rate > 0 {
        Some(s.bit_rate)
    } else {
        Option::<i64>::None
    })
    &&& a.sample_fmt@ == or_unknown(s.sample_fmt)
}

/// Whether `v` is the record of the first video stream, or absent when
/// there is none.
pub open spec fn video_selection_matches(streams: Seq<ProbedStream>, v: Option<VideoInfo>) -> bool {
    if exists|i: int| is_first_of_kind(streams, StreamKind::Video, i) {
        let i = choose|i: int| is_first_of_kind(streams, StreamKind::Video, i);
        v is Some && video_matches_stream(streams[i], v->0)
    } else {
        v is None
    }
}

/// Whether `a` is the record of the first audio stream, or absent when
/// there is none.
pub open spec fn audio_selection_matches(streams: Seq<ProbedStream>, a: Option<AudioInfo>) -> bool {
    if exists|i: int| is_first_of_kind(streams, StreamKind::Audio, i) {
        let i = choose|i: int| is_first_of_kind(streams, StreamKind::Audio, i);
        a is Some && audio_matches_stream(streams[i], a->0)
    } else {
        a is None
    }
}

/// Builds the video record of the first video stream, if any.
pub fn extract_video_stream_info(streams: &Vec<ProbedStream>) -> (r: Option<VideoInfo>)
    ensures
        video_selection_matches(streams@, r),
{
    match find_first_of_kind(streams, StreamKind::Video) {
        Some(i) => {
            let s = &streams[i];
            let codec = name_or_unknown(&s.codec_name);
            let codec_long = match &s.codec_long_name {
                Some(l) => l.clone(),
                None => name_or_unknown(&s.codec_name),
            };
            let (fps_num, fps_den) = if s.fps_den > 0 {
                (s.fps_num, s.fps_den)
            } else {
                (0i32, 1i32)
            };
            let v = VideoInfo {
                codec,
                codec_long,
                width: s.width,
                height: s.height,
                fps_num,
                fps_den,
                bitrate: if s.bit_rate > 0 {
                    Some(s.bit_rate)
                } else {
                    None
                },
                pix_fmt: name_or_unknown(&s.pix_fmt),
                aspect_ratio: aspect_ratio_string(s.width, s.height),
            };
            proof {
                let j = choose|j: int| is_first_of_kind(streams@, StreamKind::Video, j);
                lemma_first_of_kind_unique(streams@, StreamKind::Video, i as int, j);
            }
            Some(v)
        },
        None => {
            proof {
                if exists|i: int| is_first_of_kind(streams@, StreamKind::Video, i) {
                    let i = choose|i: int| is_first_of_kind(streams@, StreamKind::Video, i);
                    assert(streams@[i].kind == StreamKind::Video);
                }
            }
            None
        },
    }
}

/// Builds the audio record of the first audio stream, if any.
pub fn extract_audio_stream_info(streams: &Vec<ProbedStream>) -> (r: Option<AudioInfo>)
    ensures
        audio_selection_matches(streams@, r),
{
    match find_first_of_kind(streams, StreamKind::Audio) {
        Some(i) => {
            let s = &streams[i];
            let codec = name_or_unknown(&s.codec_name);
            let codec_long = match &s.codec_long_name {
                Some(l) => l.clone(),
                None => name_or_unknown(&s.codec_name),
            };
            let a = AudioInfo {
                codec,
                codec_long,
                sample_rate: s.sample_rate,
                channels: s.channels,
                bitrate: if s.bit_rate > 0 {
                    Some(s.bit_rate)
                } else {
                    None
                },
                sample_fmt: name_or_unknown(&s.sample_fmt),
            };
            proof {
                let j = choose|j: int| is_first_of_kind(streams@, StreamKind::Audio, j);
                lemma_first_of_kind_unique(streams@, StreamKind::Audio, i as int, j);
            }
            Some(a)
        },
        None => {
            proof {
                if exists|i: int| is_first_of_kind(streams@, StreamKind::Audio, i) {
                    let i = choose|i: int| is_first_of_kind(streams@, StreamKind::Audio, i);
                    assert(streams@[i].kind == StreamKind::Audio);
                }
            }
            None
        },
    }
}

/// Copies a tag list entry by entry.
pub fn clone_tags(tags: &Vec<(String, String)>) -> (r: Vec<(String, String)>)
    ensures
        r@ == tags@,
{
    let mut r: Vec<(String, String)> = Vec::new();
    let mut i: usize = 0;
    while i < tags.len()
        invariant
            i <= tags@.len(),
            r@ =~= tags@.take(i as int),
        decreases tags@.len() - i,
    {
        let k = tags[i].0.clone();
        let v = tags[i].1.clone();
        r.push((k, v));
        i = i + 1;
        proof {
            assert(r@ =~= tags@.take(i as int));
        }
    }
    proof {
        assert(tags@.take(tags@.len() as int) =~= tags@);
    }
    r
}

/// Assembles the metadata record of a demuxed container: format names
/// with fallbacks, the duration only when the container carries a
/// valid timestamp, the overall bitrate only when positive, the first
/// video and audio streams, and the container tags copied verbatim.
pub fn assemble_media_info(probe: &ProbeData, file_size: i64) -> (r: MediaInfo)
    ensures
        r.general.format@ == or_unknown(probe.format_name),
        r.general.format_long@ == match probe.format_long_name {
            Some(l) => l@,
            None => or_unknown(probe.format_name),
        },
        r.general.duration == (if probe.duration_ticks != NO_TIMESTAMP {
            Some(probe.duration_ticks)
        } else {
            Option::<i64>::None
        }),
        r.general.bitrate == (if probe.bit_rate > 0 {
            Some(probe.bit_rate)
        } else {
            Option::<i64>::None
        }),
        r.general.size == file_size,
        video_selection_matches(probe.streams@, r.video),
        audio_selection_matches(probe.streams@, r.audio),
        r.metadata@ == probe.tags@,
{
    let format = name_or_unknown(&probe.format_name);
    let format_long = match &probe.format_long_name {
        Some(l) => l.clone(),
        None => name_or_unknown(&probe.format_name),
    };
    let duration = if probe.duration_ticks != NO_TIMESTAMP {
        Some(probe.duration_ticks)
    } else {
        None
    };
    let bitrate = if probe.bit_rate > 0 {
        Some(probe.bit_rate)
    } else {
        None
    };
    let video = extract_video_stream_info(&probe.streams);
    let audio = extract_audio_stream_info(&probe.streams);
    MediaInfo {
        video,
        audio,
        general: GeneralInfo { format, format_long, duration, bitrate, size: file_size },
        metadata: clone_tags(&probe.tags),
    }
}

/// Rejects a path that the container layer cannot open: one holding a
/// NUL character.
pub fn validate_media_path(path: &str) -> (r: Result<(), MediaInfoError>)
    ensures
        r is Ok <==> !has_nul(path@),
        r is Err ==> r->Err_0 is InvalidPath && (r->Err_0)->InvalidPath_0@
            == "File path contains null bytes"@,
{
    if contains_nul(path) {
        Err(MediaInfoError::InvalidPath(String::from_str("File path contains null bytes")))
    } else {
        Ok(())
    }
}

} // verus!
