use fmlm::thumbnail::{
    data_url_for, generate_cache_key, generate_thumbnail_core, get_thumbnail_path, render_thumbnail,
    search_frames, thumbnail_file_name, FrameSearch, ProbePacket, ThumbnailDiskCache,
    ThumbnailError,
};

#[test]
fn test_generate_cache_key_known_digest() {
    // the digest of "abc" is a published test vector
    assert_eq!(
        generate_cache_key("abc"),
        "ba7816bf8f01cfea414140de5dae2223b00361a396177a9cb410ff61f20015ad"
    );
}

#[test]
fn test_generate_cache_key_shape_and_determinism() {
    let key = generate_cache_key("/media/photos/a.jpg");
    assert_eq!(key.len(), 64);
    assert!(key.chars().all(|c| c.is_ascii_hexdigit() && !c.is_ascii_uppercase()));
    // the same path always yields the same key
    assert_eq!(key, generate_cache_key("/media/photos/a.jpg"));
}

#[test]
fn test_generate_cache_key_corpus_has_no_collisions() {
    let corpus = [
        "/media/photos/a.jpg",
        "/media/photos/b.jpg",
        "/media/photos/a.jpeg",
        "/media/Photos/a.jpg",
        "/media/photos/a.jpg ",
        "a.jpg",
        "",
        "/media/clips/video.mp4",
        "/media/clips/video.mkv",
        "/media/clips/video(1).mp4",
    ];
    let keys: Vec<String> = corpus.iter().map(|p| generate_cache_key(p)).collect();
    for i in 0..keys.len() {
        for j in 0..keys.len() {
            if i != j {
                assert_ne!(keys[i], keys[j], "collision between {:?} and {:?}", corpus[i], corpus[j]);
            }
        }
    }
}

#[test]
fn test_thumbnail_paths() {
    let name = thumbnail_file_name("abc");
    assert_eq!(
        name,
        "ba7816bf8f01cfea414140de5dae2223b00361a396177a9cb410ff61f20015ad.jpg"
    );
    let path = get_thumbnail_path("/cache/thumbs", "abc");
    assert_eq!(
        path,
        "/cache/thumbs/ba7816bf8f01cfea414140de5dae2223b00361a396177a9cb410ff61f20015ad.jpg"
    );
}

fn dud() -> ProbePacket {
    ProbePacket { on_stream: true, frame_len: None }
}

fn off_stream_frame() -> ProbePacket {
    ProbePacket { on_stream: false, frame_len: Some(100) }
}

fn good() -> ProbePacket {
    ProbePacket { on_stream: true, frame_len: Some(100) }
}

#[test]
fn test_search_frames_no_decodable_frame() {
    // a container with 150 packets and nothing decodable: failure, not a hang
    let packets: Vec<ProbePacket> = (0..150).map(|_| dud()).collect();
    let err = search_frames(&packets).unwrap_err();
    match err {
        ThumbnailError::VideoDecoding(m) => assert_eq!(m, "No frames could be decoded"),
        other => panic!("unexpected error {:?}", other),
    }
}

#[test]
fn test_search_frames_frame_beyond_budget_is_out_of_reach() {
    let mut packets: Vec<ProbePacket> = (0..120).map(|_| dud()).collect();
    packets.push(good());
    assert!(search_frames(&packets).is_err());
}

#[test]
fn test_search_frames_finds_frame_within_budget() {
    let mut packets: Vec<ProbePacket> = (0..50).map(|_| dud()).collect();
    packets.push(good());
    assert!(search_frames(&packets).is_ok());
    // a frame on another stream does not count
    let others: Vec<ProbePacket> = (0..10).map(|_| off_stream_frame()).collect();
    assert!(search_frames(&others).is_err());
    // a zero-length buffer does not count
    let empty_frames = vec![ProbePacket { on_stream: true, frame_len: Some(0) }];
    assert!(search_frames(&empty_frames).is_err());
}

#[test]
fn test_frame_search_budget_steps() {
    let mut fs = FrameSearch::new();
    let mut steps = 0u32;
    while fs.want_packet() {
        fs.note_packet();
        steps += 1;
        assert!(steps <= 100, "the budget caps the loop");
    }
    assert_eq!(steps, 100);
    assert!(fs.outcome().is_err());
}

#[test]
fn test_render_thumbnail_shrinks_and_encodes_jpeg() {
    // a 512x512 red frame shrinks to the bounding box
    let data = vec![200u8; 512 * 512 * 3];
    let (w, h, jpeg) = render_thumbnail(512, 512, data).unwrap();
    assert_eq!((w, h), (256, 256));
    // JPEG start-of-image marker
    assert_eq!(&jpeg[0..2], &[0xFF, 0xD8]);
    // aspect ratio is preserved within the box, longer side on the box
    let data = vec![10u8; 800 * 600 * 3];
    let (w, h, _) = render_thumbnail(800, 600, data).unwrap();
    assert_eq!((w, h), (256, 192));
    let data = vec![10u8; 600 * 800 * 3];
    let (w, h, _) = render_thumbnail(600, 800, data).unwrap();
    assert_eq!((w, h), (192, 256));
    // a small frame is scaled up to fill the box
    let data = vec![0u8; 4 * 4 * 3];
    let (w, h, _) = render_thumbnail(4, 4, data).unwrap();
    assert_eq!((w, h), (256, 256));
    // the rendered bytes depend on the pixels: two frames differ
    let dark = vec![0u8; 16 * 16 * 3];
    let light = vec![250u8; 16 * 16 * 3];
    let (_, _, jpeg_dark) = render_thumbnail(16, 16, dark).unwrap();
    let (_, _, jpeg_light) = render_thumbnail(16, 16, light).unwrap();
    assert_ne!(jpeg_dark, jpeg_light);
}

#[test]
fn test_generate_thumbnail_core_is_idempotent() {
    let mut cache = ThumbnailDiskCache::new();
    // first call: a miss, decode work is consumed, the file is recorded
    let (first, worked) = generate_thumbnail_core(&mut cache, "/cache", "/media/a.mp4", Ok(()));
    assert!(worked);
    let path = first.unwrap();
    assert_eq!(path, get_thumbnail_path("/cache", "/media/a.mp4"));
    // second call: a pure cache hit, same path, no decode work
    let (second, worked_again) =
        generate_thumbnail_core(&mut cache, "/cache", "/media/a.mp4", Ok(()));
    assert!(!worked_again);
    assert_eq!(second.unwrap(), path);
    // a different path is still a miss
    let (_, other_worked) = generate_thumbnail_core(&mut cache, "/cache", "/media/b.mp4", Ok(()));
    assert!(other_worked);
}

#[test]
fn test_generate_thumbnail_core_reports_decode_failure() {
    let mut cache = ThumbnailDiskCache::new();
    let failure = Err(ThumbnailError::VideoDecoding("No frames could be decoded".to_string()));
    let (r, worked) = generate_thumbnail_core(&mut cache, "/cache", "/media/bad.mp4", failure);
    assert!(worked);
    assert!(r.is_err());
    // nothing was recorded: the next attempt decodes again
    let (_, worked_again) =
        generate_thumbnail_core(&mut cache, "/cache", "/media/bad.mp4", Ok(()));
    assert!(worked_again);
}

#[test]
fn test_data_url_for() {
    assert_eq!(data_url_for(&vec![1u8, 2, 3]), "data:image/jpeg;base64,AQID");
    assert_eq!(data_url_for(&vec![]), "data:image/jpeg;base64,");
}
