use fmlm::media_cache::{
    build_insert_params, decide_cache_use, convert_metadata_to_media_info, find_folder_id_for_file,
    finish_lookup, CacheDecision, CommandError, DatabaseError, MediaMetadata, ScannedFolder,
};
use fmlm::media_info::{
    aspect_ratio_string, assemble_media_info, build_image_media_info, extract_audio_stream_info,
    extract_video_stream_info, gcd, is_image_file, validate_media_path, ColorModel, MediaInfoError,
    ProbeData, ProbedStream, StreamKind, NO_TIMESTAMP,
};
use fmlm::mime::get_mime_type;

#[test]
fn test_gcd_values() {
    assert_eq!(gcd(1920, 1080), 120);
    assert_eq!(gcd(7, 13), 1);
    assert_eq!(gcd(0, 5), 5);
    assert_eq!(gcd(5, 0), 5);
}

#[test]
fn test_aspect_ratio_reduction() {
    assert_eq!(aspect_ratio_string(1920, 1080), "16:9");
    assert_eq!(aspect_ratio_string(1280, 720), "16:9");
    assert_eq!(aspect_ratio_string(640, 480), "4:3");
    assert_eq!(aspect_ratio_string(100, 0), "N/A");
}

#[test]
fn test_is_image_file() {
    assert!(is_image_file("/x/photo.JPG"));
    assert!(is_image_file("/x/photo.webp"));
    assert!(!is_image_file("/x/clip.mp4"));
    assert!(!is_image_file("/x/drawing.svg"));
}

#[test]
fn test_validate_media_path() {
    assert!(validate_media_path("/x/a.mp4").is_ok());
    let err = validate_media_path("/x/a\0.mp4").unwrap_err();
    assert!(matches!(&err, MediaInfoError::InvalidPath(_)));
    assert_eq!(err.message(), "Invalid file path: File path contains null bytes");
}

#[test]
fn test_error_messages() {
    assert_eq!(
        MediaInfoError::FileOpen("gone".to_string()).message(),
        "Failed to open media file: gone"
    );
    assert_eq!(MediaInfoError::NoVideoStream.message(), "No video stream found");
    let db = DatabaseError::Connection("refused".to_string());
    assert_eq!(db.message(), "Database connection error: refused");
    let cmd = CommandError::from_database_error(&db);
    assert_eq!(cmd.message, "Database connection error: refused");
}

#[test]
fn test_build_image_media_info() {
    let info = build_image_media_info("/x/photo.jpg", 800, 600, ColorModel::Rgb8, 12345);
    let v = info.video.unwrap();
    assert_eq!(v.codec, "image");
    assert_eq!(v.codec_long, "JPG Image");
    assert_eq!(v.width, 800);
    assert_eq!(v.height, 600);
    assert_eq!(v.fps_num, 0);
    assert_eq!(v.fps_den, 1);
    assert_eq!(v.pix_fmt, "Rgb8");
    assert_eq!(v.aspect_ratio, "800:600");
    assert!(info.audio.is_none());
    assert_eq!(info.general.format, "JPG");
    assert_eq!(info.general.format_long, "JPG Image File");
    assert!(info.general.duration.is_none());
    assert_eq!(info.general.size, 12345);
}

fn video_stream() -> ProbedStream {
    ProbedStream {
        kind: StreamKind::Video,
        codec_name: Some("h264".to_string()),
        codec_long_name: Some("H.264 / AVC".to_string()),
        width: 1920,
        height: 1080,
        bit_rate: 4_000_000,
        fps_num: 30000,
        fps_den: 1001,
        pix_fmt: Some("yuv420p".to_string()),
        sample_rate: 0,
        channels: 0,
        sample_fmt: None,
    }
}

fn audio_stream() -> ProbedStream {
    ProbedStream {
        kind: StreamKind::Audio,
        codec_name: Some("aac".to_string()),
        codec_long_name: None,
        width: 0,
        height: 0,
        bit_rate: 0,
        fps_num: 0,
        fps_den: 0,
        pix_fmt: None,
        sample_rate: 48000,
        channels: 2,
        sample_fmt: Some("fltp".to_string()),
    }
}

#[test]
fn test_stream_selection_takes_first_of_each_kind() {
    let mut second_video = video_stream();
    second_video.codec_name = Some("vp9".to_string());
    let streams = vec![audio_stream(), video_stream(), second_video];
    let v = extract_video_stream_info(&streams).unwrap();
    assert_eq!(v.codec, "h264");
    let a = extract_audio_stream_info(&streams).unwrap();
    assert_eq!(a.codec, "aac");
    // the long name falls back to the short name
    assert_eq!(a.codec_long, "aac");
    assert_eq!(a.sample_fmt, "fltp");
    // a zero bitrate is reported as absent
    assert!(a.bitrate.is_none());
    let none: Vec<ProbedStream> = vec![audio_stream()];
    assert!(extract_video_stream_info(&none).is_none());
}

#[test]
fn test_assemble_media_info() {
    let probe = ProbeData {
        format_name: Some("mov,mp4,m4a,3gp,3g2,mj2".to_string()),
        format_long_name: Some("QuickTime / MOV".to_string()),
        duration_ticks: 12_500_000,
        bit_rate: 5_000_000,
        tags: vec![("title".to_string(), "clip".to_string())],
        streams: vec![video_stream(), audio_stream()],
    };
    let info = assemble_media_info(&probe, 777);
    assert_eq!(info.general.format, "mov,mp4,m4a,3gp,3g2,mj2");
    assert_eq!(info.general.format_long, "QuickTime / MOV");
    assert_eq!(info.general.duration, Some(12_500_000));
    assert_eq!(info.general.bitrate, Some(5_000_000));
    assert_eq!(info.general.size, 777);
    let v = info.video.unwrap();
    assert_eq!(v.aspect_ratio, "16:9");
    assert_eq!(v.fps_num, 30000);
    assert_eq!(v.fps_den, 1001);
    assert_eq!(info.metadata.len(), 1);
    assert_eq!(info.metadata[0].0, "title");
}

#[test]
fn test_assemble_media_info_absent_values() {
    let probe = ProbeData {
        format_name: None,
        format_long_name: None,
        duration_ticks: NO_TIMESTAMP,
        bit_rate: 0,
        tags: vec![],
        streams: vec![],
    };
    let info = assemble_media_info(&probe, 0);
    assert_eq!(info.general.format, "unknown");
    assert_eq!(info.general.format_long, "unknown");
    assert!(info.general.duration.is_none());
    assert!(info.general.bitrate.is_none());
    assert!(info.video.is_none());
    assert!(info.audio.is_none());
}

fn record(modified_date: i64) -> MediaMetadata {
    MediaMetadata {
        id: 1,
        folder_id: 2,
        file_path: "/x/clip.mp4".to_string(),
        file_name: "clip.mp4".to_string(),
        file_type: "mp4".to_string(),
        file_size: 777,
        width: Some(1920),
        height: Some(1080),
        duration: Some(12_500_000),
        created_date: None,
        modified_date,
        thumbnail_path: None,
        indexed_at: 0,
        video_codec: Some("h264".to_string()),
        video_codec_long: Some("H.264 / AVC".to_string()),
        audio_codec: Some("aac".to_string()),
        audio_codec_long: Some("AAC".to_string()),
        bitrate: Some(5_000_000),
        frame_rate: Some((30000, 1001)),
        sample_rate: Some(48000),
        audio_channels: Some(2),
        format: Some("mp4".to_string()),
        metadata_json: None,
    }
}

#[test]
fn test_convert_metadata_complete_record() {
    let info = convert_metadata_to_media_info(&record(100)).unwrap();
    let v = info.video.unwrap();
    assert_eq!(v.codec, "h264");
    assert_eq!(v.width, 1920);
    assert_eq!(v.aspect_ratio, "16:9");
    assert_eq!(v.pix_fmt, "cached");
    assert_eq!(v.fps_num, 30000);
    let a = info.audio.unwrap();
    assert_eq!(a.sample_rate, 48000);
    assert_eq!(a.sample_fmt, "cached");
    assert_eq!(info.general.format, "mp4");
    assert_eq!(info.general.duration, Some(12_500_000));
}

#[test]
fn test_convert_metadata_degraded_record_is_a_miss() {
    let mut m = record(100);
    m.video_codec = None;
    m.format = None;
    assert!(convert_metadata_to_media_info(&m).is_none());
    // format alone restores completeness; the fallback fills the names
    let mut n = record(100);
    n.video_codec = None;
    n.width = None;
    let info = convert_metadata_to_media_info(&n).unwrap();
    assert!(info.video.is_none());
    assert_eq!(info.general.format, "mp4");
}

#[test]
fn test_staleness_decision() {
    // cached record at T0 = 100
    let cached = Some(record(100));
    // file unchanged: served without extraction
    match decide_cache_use(&cached, 100) {
        CacheDecision::ServeCached(info) => {
            assert_eq!(info.general.size, 777);
        }
        CacheDecision::Reextract => panic!("fresh record must be served"),
    }
    // file advanced past T0: must re-extract
    assert!(matches!(decide_cache_use(&cached, 101), CacheDecision::Reextract));
    // no record: must extract
    assert!(matches!(decide_cache_use(&None, 100), CacheDecision::Reextract));
    // degraded record: treated as a miss
    let mut degraded = record(100);
    degraded.video_codec = None;
    degraded.format = None;
    assert!(matches!(decide_cache_use(&Some(degraded), 50), CacheDecision::Reextract));
}

#[test]
fn test_cache_store_outage_still_returns_record() {
    let probe = ProbeData {
        format_name: Some("mp4".to_string()),
        format_long_name: None,
        duration_ticks: 1_000_000,
        bit_rate: 0,
        tags: vec![],
        streams: vec![],
    };
    let extracted = assemble_media_info(&probe, 42);
    let failed: Result<i64, DatabaseError> =
        Err(DatabaseError::Connection("store down".to_string()));
    let returned = finish_lookup(extracted, &failed);
    assert_eq!(returned.general.format, "mp4");
    assert_eq!(returned.general.size, 42);
    assert_eq!(returned.general.duration, Some(1_000_000));
}

fn folder(id: i64, path: &str) -> ScannedFolder {
    ScannedFolder {
        id,
        path: path.to_string(),
        name: path.to_string(),
        last_scanned: 0,
        file_count: 0,
        created_at: 0,
    }
}

#[test]
fn test_find_folder_id_for_file() {
    let folders = vec![folder(1, "/media/photos"), folder(2, "/media")];
    assert_eq!(find_folder_id_for_file(&folders, "/media/photos/a.jpg"), Some(1));
    assert_eq!(find_folder_id_for_file(&folders, "/media/clips/b.mp4"), Some(2));
    assert_eq!(find_folder_id_for_file(&folders, "/other/c.mp4"), None);
}

#[test]
fn test_build_insert_params_and_tag_round_trip() {
    let probe = ProbeData {
        format_name: Some("mp4".to_string()),
        format_long_name: None,
        duration_ticks: 1_000_000,
        bit_rate: 2_000,
        tags: vec![
            ("title".to_string(), "clip".to_string()),
            ("artist".to_string(), "nobody".to_string()),
        ],
        streams: vec![video_stream(), audio_stream()],
    };
    let info = assemble_media_info(&probe, 55);
    let params = build_insert_params("/media/photos/clip.mp4", &info, 123, 7);
    assert_eq!(params.folder_id, 7);
    assert_eq!(params.file_name, "clip.mp4");
    assert_eq!(params.file_type, "mp4");
    assert_eq!(params.modified_date, 123);
    assert_eq!(params.width, Some(1920));
    assert_eq!(params.frame_rate, Some((30000, 1001)));
    assert_eq!(params.format.as_deref(), Some("mp4"));
    // the serialized tag blob parses back to the same tags
    let mut m = record(123);
    m.metadata_json = params.metadata_json.clone();
    let back = convert_metadata_to_media_info(&m).unwrap();
    assert_eq!(back.metadata, info.metadata);
    // no tags: no blob
    let empty = assemble_media_info(
        &ProbeData {
            format_name: Some("mp4".to_string()),
            format_long_name: None,
            duration_ticks: NO_TIMESTAMP,
            bit_rate: 0,
            tags: vec![],
            streams: vec![],
        },
        0,
    );
    let p2 = build_insert_params("/x/y.mp4", &empty, 1, 0);
    assert!(p2.metadata_json.is_none());
}

#[test]
fn test_get_mime_type() {
    assert_eq!(get_mime_type("/a/photo.jpg"), "image/jpeg");
    assert_eq!(get_mime_type("/a/photo.JPEG"), "image/jpeg");
    assert_eq!(get_mime_type("/a/clip.mkv"), "video/x-matroska");
    assert_eq!(get_mime_type("/a/drawing.svg"), "image/svg+xml");
    assert_eq!(get_mime_type("/a/notes.txt"), "application/octet-stream");
    assert_eq!(get_mime_type("/a/noext"), "application/octet-stream");
}
