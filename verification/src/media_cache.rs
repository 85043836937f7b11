//! The persistent metadata cache's read path: the staleness decision,
//! the conversion of a stored record back into a metadata record, and
//! the assembly of the values a cache write carries.

use vstd::prelude::*;
use crate::text::{after_last, ascii_uppercase, has_char, is_last_index_of, lower_chars, starts_with, suffix_after_last, upper_chars, lemma_last_index_unique, find_last};
use crate::media_info::{AudioInfo, GeneralInfo, MediaInfo, VideoInfo, spec_aspect_ratio, aspect_ratio_string};

verus! {

/// Error type for metadata store operations.
#[derive(Debug, Clone)]
pub enum DatabaseError {
    /// The store could not be reached
    Connection(String),
    /// A schema migration failed
    Migration(String),
    /// An underlying file operation failed
    Io(String),
}

/// The rendering of each store error as one line of text.
pub open spec fn spec_db_error_message(e: DatabaseError) -> Seq<char> {
    match e {
        DatabaseError::Connection(s) => "Database connection error: "@ + s@,
        DatabaseError::Migration(s) => "Migration error: "@ + s@,
        DatabaseError::Io(s) => "IO error: "@ + s@,
    }
}

impl DatabaseError {
    /// One line of text describing the error.
    pub fn message(&self) -> (r: String)
        ensures
            r@ == spec_db_error_message(*self),
    {
        match self {
            DatabaseError::Connection(s) => {
                let mut m = String::from_str("Database connection error: ");
                m.append(s.as_str());
                m
            },
            DatabaseError::Migration(s) => {
                let mut m = String::from_str("Migration error: ");
                m.append(s.as_str());
                m
            },
            DatabaseError::Io(s) => {
                let mut m = String::from_str("IO error: ");
                m.append(s.as_str());
                m
            },
        }
    }
}

/// Error type for command-level operations, carrying the rendered
/// message of the store error it wraps.
#[derive(Debug, Clone)]
pub struct CommandError {
    /// The rendered message
    pub message: String,
}

impl CommandError {
    /// Wraps a store error as its rendered message.
    pub fn from_database_error(e: &DatabaseError) -> (r: Self)
        ensures
            r.message@ == spec_db_error_message(*e),
    {
        CommandError { message: e.message() }
    }
}

/// Represents a scanned folder tracked by the store.
#[derive(Debug, Clone)]
pub struct ScannedFolder {
    /// Row id
    pub id: i64,
    /// Absolute path of the folder
    pub path: String,
    /// Display name
    pub name: String,
    /// When the folder was last scanned, Unix seconds
    pub last_scanned: i64,
    /// Number of files found at the last scan
    pub file_count: i64,
    /// When the row was created, Unix seconds
    pub created_at: i64,
}

/// Represents media file metadata stored in the persistent cache.
/// Timestamps are Unix seconds; the duration is in microseconds; the
/// frame rate is a numerator/denominator pair.
#[derive(Debug, Clone)]
pub struct MediaMetadata {
    /// Row id
    pub id: i64,
    /// Owning folder row, 0 for a detached row
    pub folder_id: i64,
    /// Absolute file path, the unique key
    pub file_path: String,
    /// File name without path
    pub file_name: String,
    /// File extension
    pub file_type: String,
    /// File size in bytes
    pub file_size: i64,
    /// Width in pixels, if known
    pub width: Option<i64>,
    /// Height in pixels, if known
    pub height: Option<i64>,
    /// Duration in microseconds, if known
    pub duration: Option<i64>,
    /// Creation time, if known
    pub created_date: Option<i64>,
    /// Source file modification time at extraction
    pub modified_date: i64,
    /// Cached thumbnail path, if any
    pub thumbnail_path: Option<String>,
    /// When the row was written
    pub indexed_at: i64,
    /// Video codec short name, if known
    pub video_codec: Option<String>,
    /// Video codec long name, if known
    pub video_codec_long: Option<String>,
    /// Audio codec short name, if known
    pub audio_codec: Option<String>,
    /// Audio codec long name, if known
    pub audio_codec_long: Option<String>,
    /// Overall bitrate, if known
    pub bitrate: Option<i64>,
    /// Frame rate as numerator and denominator, if known
    pub frame_rate: Option<(i32, i32)>,
    /// Sample rate in Hz, if known
    pub sample_rate: Option<i64>,
    /// Channel count, if known
    pub audio_channels: Option<i64>,
    /// Container format name, if known
    pub format: Option<String>,
    /// Container tags as a serialized text blob, if any
    pub metadata_json: Option<String>,
}

/// Parameters for inserting media metadata.
#[derive(Debug, Clone)]
pub struct InsertMediaParams {
    /// Owning folder row
    pub folder_id: i64,
    /// Absolute file path, the unique key
    pub file_path: String,
    /// File name without path
    pub file_name: String,
    /// File extension
    pub file_type: String,
    /// File size in bytes
    pub file_size: i64,
    /// Width in pixels, if known
    pub width: Option<i64>,
    /// Height in pixels, if known
    pub height: Option<i64>,
    /// Duration in microseconds, if known
    pub duration: Option<i64>,
    /// Creation time, if known
    pub created_date: Option<i64>,
    /// Source file modification time at extraction
    pub modified_date: i64,
    /// Cached thumbnail path, if any
    pub thumbnail_path: Option<String>,
    /// Video codec short name, if known
    pub video_codec: Option<String>,
    /// Video codec long name, if known
    pub video_codec_long: Option<String>,
    /// Audio codec short name, if known
    pub audio_codec: Option<String>,
    /// Audio codec long name, if known
    pub audio_codec_long: Option<String>,
    /// Overall bitrate, if known
    pub bitrate: Option<i64>,
    /// Frame rate as numerator and denominator, if known
    pub frame_rate: Option<(i32, i32)>,
    /// Sample rate in Hz, if known
    pub sample_rate: Option<i64>,
    /// Channel count, if known
    pub audio_channels: Option<i64>,
    /// Container format name, if known
    pub format: Option<String>,
    /// Container tags as a serialized text blob, if any
    pub metadata_json: Option<String>,
}

/// What a serialized tag list holds. Relied on below: serialization of
/// a tag list is a pure function of the tags.
pub uninterp spec fn json_of_tags(tags: Seq<(Seq<char>, Seq<char>)>) -> Seq<char>;

/// What parsing a tag blob yields, or nothing for malformed text.
pub uninterp spec fn tags_of_json(s: Seq<char>) -> Option<Seq<(Seq<char>, Seq<char>)>>;

/// Relies on serde_json::to_string: a list of string pairs always
/// serializes, and the text depends on the pairs alone.
#[verifier::external_body]
fn tags_to_json(tags: &Vec<(String, String)>) -> (r: Option<String>)
    ensures
        r is Some,
        r->0@ == json_of_tags(tags.deep_view()),
{
    serde_json::to_string(tags).ok()
}

/// Relies on serde_json::from_str: parsing depends on the input text
/// alone; malformed text is rejected.
#[verifier::external_body]
fn tags_from_json(s: &str) -> (r: Option<Vec<(String, String)>>)
    ensures
        match r {
            Some(v) => tags_of_json(s@) == Some(v.deep_view()),
            None => tags_of_json(s@) is None,
        },
{
    serde_json::from_str::<Vec<(String, String)>>(s).ok()
}

/// The tag list a stored record carries: the parsed blob, or an empty
/// list where the blob is absent or malformed.
pub open spec fn spec_record_tags(m: MediaMetadata) -> Seq<(Seq<char>, Seq<char>)> {
    match m.metadata_json {
        Some(j) => match tags_of_json(j@) {
            Some(t) => t,
            None => Seq::empty(),
        },
        None => Seq::empty(),
    }
}

/// Completeness invariant of a stored record: it is valid cache input
/// only with complete video fields or a known container format.
pub open spec fn record_complete(m: MediaMetadata) -> bool {
    (m.video_codec is Some && m.width is Some) || m.format is Some
}

/// The aspect ratio recomputed from stored dimensions: reduced where
/// the height is positive and both fit the frame size range, `N/A`
/// otherwise.
pub open spec fn spec_record_ratio(w: int, h: int) -> Seq<char> {
    if 0 < h <= i32::MAX && 0 <= w <= i32::MAX {
        spec_aspect_ratio(w, h)
    } else {
        "N/A"@
    }
}

/// Whether the video part of a conversion result matches the record.
pub open spec fn video_matches_record(m: MediaMetadata, v: Option<VideoInfo>) -> bool {
    if m.video_codec is Some && m.video_codec_long is Some && m.width is Some
        && m.height is Some {
        match v {
            Some(vi) => {
                &&& vi.codec@ == m.video_codec->0@
                &&& vi.codec_long@ == m.video_codec_long->0@
                &&& vi.width == clamp_i32(m.width->0)
                &&& vi.height == clamp_i32(m.height->0)
                &&& (match m.frame_rate {
                    Some(fr) => vi.fps_num == fr.0 && vi.fps_den == fr.1,
                    None => vi.fps_num == 0 && vi.fps_den == 1,
                })
                &&& vi.bitrate == m.bitrate
                &&& vi.pix_fmt@ == "cached"@
                &&& vi.aspect_ratio@ == spec_record_ratio(m.width->0 as int, m.height->0 as int)
            },
            None => false,
        }
    } else {
        v is None
    }
}

/// Whether the audio part of a conversion result matches the record.
pub open spec fn audio_matches_record(m: MediaMetadata, a: Option<AudioInfo>) -> bool {
    if m.audio_codec is Some && m.audio_codec_long is Some {
        match a {
            Some(ai) => {
                &&& ai.codec@ == m.audio_codec->0@
                &&& ai.codec_long@ == m.audio_codec_long->0@
                &&& ai.sample_rate == clamp_i32(match m.sample_rate {
                    Some(s) => s,
                    None => 0,
                })
                &&& ai.channels == clamp_i32(match m.audio_channels {
                    Some(c) => c,
                    None => 0,
                })
                &&& ai.bitrate == m.bitrate
                &&& ai.sample_fmt@ == "cached"@
            },
            None => false,
        }
    } else {
        a is None
    }
}

/// A wide value narrowed to the frame-field range, 0 where it does not
/// fit.
pub open spec fn clamp_i32(x: i64) -> i32 {
    if i32::MIN <= x <= i32::MAX {
        x as i32
    } else {
        0
    }
}

/// Narrows a wide stored value, 0 where it does not fit.
pub fn i64_to_i32_or_zero(x: i64) -> (r: i32)
    ensures
        r == clamp_i32(x),
{
    if x >= i32::MIN as i64 && x <= i32::MAX as i64 {
        x as i32
    } else {
        0
    }
}

/// Whether the general part of a conversion result matches the record:
/// the format name falls back to the file type, the long name to the
/// uppercased file type.
pub open spec fn general_matches_record(m: MediaMetadata, g: GeneralInfo) -> bool {
    &&& g.format@ == (match m.format {
        Some(f) => f@,
        None => m.file_type@,
    })
    &&& g.format_long@ == (match m.format {
        Some(f) => f@,
        None => upper_chars(m.file_type@) + " File"@,
    })
    &&& g.duration == m.duration
    &&& g.bitrate == m.bitrate
    &&& g.size == m.file_size
}

/// Convert a stored record to the metadata record it caches. Nothing
/// is returned for a record that fails the completeness invariant, so
/// a degraded row is treated as a miss.
pub fn convert_metadata_to_media_info(metadata: &MediaMetadata) -> (r: Option<MediaInfo>)
    ensures
        r is Some <==> record_complete(*metadata),
        r is Some ==> {
            &&& video_matches_record(*metadata, r->0.video)
            &&& audio_matches_record(*metadata, r->0.audio)
            &&& general_matches_record(*metadata, r->0.general)
            &&& r->0.metadata.deep_view() == spec_record_tags(*metadata)
        },
{
    let has_video_info = metadata.video_codec.is_some() && metadata.width.is_some();
    let has_complete_info = has_video_info || metadata.format.is_some();
    if !has_complete_info {
        return None;
    }
    let video = if metadata.video_codec.is_some() && metadata.video_codec_long.is_some()
        && metadata.width.is_some() && metadata.height.is_some() {
        let codec = match &metadata.video_codec {
            Some(c) => c.clone(),
            None => String::new(),
        };
        let codec_long = match &metadata.video_codec_long {
            Some(c) => c.clone(),
            None => String::new(),
        };
        let w: i64 = match &metadata.width {
            Some(w) => *w,
            None => 0,
        };
        let h: i64 = match &metadata.height {
            Some(h) => *h,
            None => 0,
        };
        let aspect_ratio = if h > 0 && h <= i32::MAX as i64 && w >= 0 && w <= i32::MAX as i64 {
            aspect_ratio_string(w as i32, h as i32)
        } else {
            String::from_str("N/A")
        };
        let (fps_num, fps_den) = match &metadata.frame_rate {
            Some(fr) => (fr.0, fr.1),
            None => (0i32, 1i32),
        };
        Some(
            VideoInfo {
                codec,
                codec_long,
                width: i64_to_i32_or_zero(w),
                height: i64_to_i32_or_zero(h),
                fps_num,
                fps_den,
                bitrate: metadata.bitrate,
                pix_fmt: String::from_str("cached"),
                aspect_ratio,
            },
        )
    } else {
        None
    };
    let audio = if metadata.audio_codec.is_some() && metadata.audio_codec_long.is_some() {
        let codec = match &metadata.audio_codec {
            Some(c) => c.clone(),
            None => String::new(),
        };
        let codec_long = match &metadata.audio_codec_long {
            Some(c) => c.clone(),
            None => String::new(),
        };
        let sr: i64 = match &metadata.sample_rate {
            Some(s) => *s,
            None => 0,
        };
        let ch: i64 = match &metadata.audio_channels {
            Some(c) => *c,
            None => 0,
        };
        Some(
            AudioInfo {
                codec,
                codec_long,
                sample_rate: i64_to_i32_or_zero(sr),
                channels: i64_to_i32_or_zero(ch),
                bitrate: metadata.bitrate,
                sample_fmt: String::from_str("cached"),
            },
        )
    } else {
        None
    };
    let tags: Vec<(String, String)> = match &metadata.metadata_json {
        Some(j) => match tags_from_json(j.as_str()) {
            Some(t) => t,
            None => Vec::new(),
        },
        None => Vec::new(),
    };
    proof {
        assert(tags.deep_view() =~= spec_record_tags(*metadata));
    }
    let format = match &metadata.format {
        Some(f) => f.clone(),
        None => metadata.file_type.clone(),
    };
    let format_long = match &metadata.format {
        Some(f) => f.clone(),
        None => {
            let mut fl = ascii_uppercase(metadata.file_type.as_str());
            fl.append(" File");
            fl
        },
    };
    Some(
        MediaInfo {
            video,
            audio,
            general: GeneralInfo {
                format,
                format_long,
                duration: metadata.duration,
                bitrate: metadata.bitrate,
                size: metadata.file_size,
            },
            metadata: tags,
        },
    )
}

/// Whether a cached record may be served for a file last modified at
/// `file_modified`: the record exists, is no older than the file, and
/// passes the completeness invariant.
pub open spec fn spec_serves_cached(cached: Option<MediaMetadata>, file_modified: i64) -> bool {
    &&& cached is Some
    &&& cached->0.modified_date >= file_modified
    &&& record_complete(cached->0)
}

/// The read-path decision for one lookup.
pub enum CacheDecision {
    /// Serve this record straight from the cache; no decode work
    ServeCached(MediaInfo),
    /// Extract afresh: the record is missing, stale, or degraded
    Reextract,
}

/// Decides whether the cached record may be served: only an existing,
/// fresh and complete record is, converted to a metadata record; in
/// every other case the file is re-extracted.
pub fn decide_cache_use(cached: &Option<MediaMetadata>, file_modified: i64) -> (r: CacheDecision)
    ensures
        r is ServeCached <==> spec_serves_cached(*cached, file_modified),
        r is ServeCached ==> {
            &&& video_matches_record(cached->0, r->ServeCached_0.video)
            &&& audio_matches_record(cached->0, r->ServeCached_0.audio)
            &&& general_matches_record(cached->0, r->ServeCached_0.general)
            &&& r->ServeCached_0.metadata.deep_view() == spec_record_tags(cached->0)
        },
{
    match cached {
        Some(m) => {
            if m.modified_date >= file_modified {
                match convert_metadata_to_media_info(m) {
                    Some(info) => CacheDecision::ServeCached(info),
                    None => CacheDecision::Reextract,
                }
            } else {
                CacheDecision::Reextract
            }
        },
        None => CacheDecision::Reextract,
    }
}

/// Staleness law: a record recorded at `t0` is never served once the
/// file's modification time has advanced past `t0`, and a complete
/// record is always served while the file stays at or before `t0`.
pub proof fn lemma_staleness_law(m: MediaMetadata, t0: i64, t1: i64)
    requires
        m.modified_date == t0,
    ensures
        t1 > t0 ==> !spec_serves_cached(Some(m), t1),
        t1 <= t0 && record_complete(m) ==> spec_serves_cached(Some(m), t1),
{
}

/// Completes a lookup that had to extract afresh: whatever became of
/// the cache write, the freshly extracted record is returned.
pub fn finish_lookup(extracted: MediaInfo, upsert_result: &Result<i64, DatabaseError>) -> (r:
    MediaInfo)
    ensures
        r == extracted,
{
    match upsert_result {
        Ok(_) => extracted,
        Err(_) => extracted,
    }
}

/// Whether `i` is the position of the first tracked folder whose path
/// is a prefix of the file's path.
pub open spec fn is_first_folder_match(
    folders: Seq<ScannedFolder>,
    path: Seq<char>,
    i: int,
) -> bool {
    &&& 0 <= i < folders.len()
    &&& folders[i].path@.is_prefix_of(path)
    &&& forall|j: int| 0 <= j < i ==> !folders[j].path@.is_prefix_of(path)
}

/// Find the folder id for a given file path: the first tracked folder
/// whose path is a prefix of the file's path, if any.
pub fn find_folder_id_for_file(folders: &Vec<ScannedFolder>, file_path: &str) -> (r: Option<i64>)
    ensures
        match r {
            Some(id) => exists|i: int|
                is_first_folder_match(folders@, file_path@, i) && #[trigger] folders@[i].id == id,
            None => forall|j: int|
                0 <= j < folders@.len() ==> !(#[trigger] folders@[j].path@).is_prefix_of(
                    file_path@,
                ),
        },
{
    let mut i: usize = 0;
    while i < folders.len()
        invariant
            i <= folders@.len(),
            forall|j: int|
                0 <= j < i ==> !(#[trigger] folders@[j].path@).is_prefix_of(file_path@),
        decreases folders@.len() - i,
    {
        if starts_with(file_path, folders[i].path.as_str()) {
            proof {
                assert(is_first_folder_match(folders@, file_path@, i as int));
            }
            return Some(folders[i].id);
        }
        i = i + 1;
    }
    None
}

/// The file name stored with a record: the characters after the last
/// `/`, or a fixed fallback when that part is empty.
pub open spec fn spec_store_file_name(path: Seq<char>) -> Seq<char> {
    if after_last(path, '/').len() == 0 {
        "unknown"@
    } else {
        after_last(path, '/')
    }
}

/// The file type stored with a record: the lowercase extension of the
/// file name, or a fixed fallback when the name has no extension.
pub open spec fn spec_store_file_type(path: Seq<char>) -> Seq<char> {
    let name = after_last(path, '/');
    if has_char(name, '.') {
        let i = choose|i: int| is_last_index_of(name, '.', i);
        if i > 0 {
            lower_chars(name.subrange(i + 1, name.len() as int))
        } else {
            "unknown"@
        }
    } else {
        "unknown"@
    }
}

fn store_file_name(path: &str) -> (r: String)
    ensures
        r@ == spec_store_file_name(path@),
{
    let name = suffix_after_last(path, '/');
    if name.as_str().unicode_len() == 0 {
        String::from_str("unknown")
    } else {
        name
    }
}

fn store_file_type(path: &str) -> (r: String)
    ensures
        r@ == spec_store_file_type(path@),
{
    let name = suffix_after_last(path, '/');
    let n = name.as_str().unicode_len();
    match find_last(name.as_str(), '.') {
        Some(i) => {
            proof {
                let j = choose|j: int| is_last_index_of(name@, '.', j);
                lemma_last_index_unique(name@, '.', i as int, j);
            }
            if i > 0 {
                let raw = name.as_str().substring_char(i + 1, n);
                crate::text::ascii_lowercase(raw)
            } else {
                String::from_str("unknown")
            }
        },
        None => String::from_str("unknown"),
    }
}

/// Whether the insert parameters carry exactly the values of the
/// extracted record for this path and modification time.
pub open spec fn params_match_info(
    p: InsertMediaParams,
    path: Seq<char>,
    info: MediaInfo,
    file_modified: i64,
    folder_id: i64,
) -> bool {
    &&& p.folder_id == folder_id
    &&& p.file_path@ == path
    &&& p.file_name@ == spec_store_file_name(path)
    &&& p.file_type@ == spec_store_file_type(path)
    &&& p.file_size == info.general.size
    &&& p.width == (match info.video {
        Some(v) => Some(v.width as i64),
        None => Option::<i64>::None,
    })
    &&& p.height == (match info.video {
        Some(v) => Some(v.height as i64),
        None => Option::<i64>::None,
    })
    &&& p.duration == info.general.duration
    &&& p.created_date is None
    &&& p.modified_date == file_modified
    &&& p.thumbnail_path is None
    &&& (match info.video {
        Some(v) => p.video_codec is Some && p.video_codec->0@ == v.codec@
            && p.video_codec_long is Some && p.video_codec_long->0@ == v.codec_long@,
        None => p.video_codec is None && p.video_codec_long is None,
    })
    &&& (match info.audio {
        Some(a) => p.audio_codec is Some && p.audio_codec->0@ == a.codec@
            && p.audio_codec_long is Some && p.audio_codec_long->0@ == a.codec_long@,
        None => p.audio_codec is None && p.audio_codec_long is None,
    })
    &&& p.bitrate == info.general.bitrate
    &&& p.frame_rate == (match info.video {
        Some(v) => Some((v.fps_num, v.fps_den)),
        None => Option::<(i32, i32)>::None,
    })
    &&& p.sample_rate == (match info.audio {
        Some(a) => Some(a.sample_rate as i64),
        None => Option::<i64>::None,
    })
    &&& p.audio_channels == (match info.audio {
        Some(a) => Some(a.channels as i64),
        None => Option::<i64>::None,
    })
    &&& p.format is Some && p.format->0@ == info.general.format@
    &&& (if info.metadata.len() > 0 {
        p.metadata_json is Some && p.metadata_json->0@ == json_of_tags(info.metadata.deep_view())
    } else {
        p.metadata_json is None
    })
}

/// Builds the values a cache write carries for an extracted record:
/// name and type from the path, stream fields from the record, and the
/// tag list serialized only when it is non-empty.
pub fn build_insert_params(
    file_path: &str,
    info: &MediaInfo,
    file_modified: i64,
    folder_id: i64,
) -> (r: InsertMediaParams)
    ensures
        params_match_info(r, file_path@, *info, file_modified, folder_id),
{
    let metadata_json = if info.metadata.len() > 0 {
        match tags_to_json(&info.metadata) {
            Some(j) => Some(j),
            None => None,
        }
    } else {
        None
    };
    let file_name = store_file_name(file_path);
    let file_type = store_file_type(file_path);
    InsertMediaParams {
        folder_id,
        file_path: String::from_str(file_path),
        file_name,
        file_type,
        file_size: info.general.size,
        width: match &info.video {
            Some(v) => Some(v.width as i64),
            None => None,
        },
        height: match &info.video {
            Some(v) => Some(v.height as i64),
            None => None,
        },
        duration: info.general.duration,
        created_date: None,
        modified_date: file_modified,
        thumbnail_path: None,
        video_codec: match &info.video {
            Some(v) => Some(v.codec.clone()),
            None => None,
        },
        video_codec_long: match &info.video {
            Some(v) => Some(v.codec_long.clone()),
            None => None,
        },
        audio_codec: match &info.audio {
            Some(a) => Some(a.codec.clone()),
            None => None,
        },
        audio_codec_long: match &info.audio {
            Some(a) => Some(a.codec_long.clone()),
            None => None,
        },
        bitrate: info.general.bitrate,
        frame_rate: match &info.video {
            Some(v) => Some((v.fps_num, v.fps_den)),
            None => None,
        },
        sample_rate: match &info.audio {
            Some(a) => Some(a.sample_rate as i64),
            None => None,
        },
        audio_channels: match &info.audio {
            Some(a) => Some(a.channels as i64),
            None => None,
        },
        format: Some(info.general.format.clone()),
        metadata_json,
    }
}

} // verus!
