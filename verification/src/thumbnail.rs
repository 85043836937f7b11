//! Thumbnail generation and caching: cache keys derived from the file
//! path, the cache-hit decision, the bounded packet search of the
//! video path, and the resize-and-encode step shared by both paths.

use vstd::prelude::*;
use vstd::string::StringSliceAdditionalSpecFns;
use sha2::Digest;
use crate::text::{bytes_to_hex, hex_chars};

verus! {

/// Thumbnail bounding box (width and height).
pub const THUMBNAIL_SIZE: u32 = 256;

/// Upper bound of packets examined while searching for a decodable
/// video frame.
pub const MAX_PROBE_PACKETS: u32 = 100;

/// Error types for thumbnail operations.
#[derive(Debug, Clone)]
pub enum ThumbnailError {
    /// The source image could not be opened or decoded
    ImageOpen(String),
    /// A video frame could not be decoded
    VideoDecoding(String),
    /// An underlying file operation failed
    Io(String),
    /// The file format is not supported
    UnsupportedFormat,
    /// The demuxing layer failed
    Ffmpeg(String),
}

/// The rendering of each thumbnail error as one line of text.
pub open spec fn spec_thumb_error_message(e: ThumbnailError) -> Seq<char> {
    match e {
        ThumbnailError::ImageOpen(s) => "Failed to open image: "@ + s@,
        ThumbnailError::VideoDecoding(s) => "Failed to decode video frame: "@ + s@,
        ThumbnailError::Io(s) => "IO error: "@ + s@,
        ThumbnailError::UnsupportedFormat => "Unsupported file format"@,
        ThumbnailError::Ffmpeg(s) => "FFmpeg error: "@ + s@,
    }
}

impl ThumbnailError {
    /// One line of text describing the error.
    pub fn message(&self) -> (r: String)
        ensures
            r@ == spec_thumb_error_message(*self),
    {
        match self {
            ThumbnailError::ImageOpen(s) => {
                let mut m = String::from_str("Failed to open image: ");
                m.append(s.as_str());
                m
            },
            ThumbnailError::VideoDecoding(s) => {
                let mut m = String::from_str("Failed to decode video frame: ");
                m.append(s.as_str());
                m
            },
            ThumbnailError::Io(s) => {
                let mut m = String::from_str("IO error: ");
                m.append(s.as_str());
                m
            },
            ThumbnailError::UnsupportedFormat => String::from_str("Unsupported file format"),
            ThumbnailError::Ffmpeg(s) => {
                let mut m = String::from_str("FFmpeg error: ");
                m.append(s.as_str());
                m
            },
        }
    }
}

/// What the cryptographic digest of a byte string is. Relied on below:
/// the digest depends on the input bytes alone.
pub uninterp spec fn sha256_of(bytes: Seq<u8>) -> Seq<u8>;

/// Relies on sha2::Sha256: the digest is a pure function of the input
/// bytes and is 32 bytes long.
#[verifier::external_body]
fn sha256_digest(bytes: &[u8]) -> (r: Vec<u8>)
    ensures
        r@ == sha256_of(bytes@),
        r@.len() == 32,
{
    sha2::Sha256::digest(bytes).as_slice().to_vec()
}

/// The cache key of a path: the lowercase hexadecimal rendering of the
/// digest of the path's bytes.
pub open spec fn spec_cache_key(path: Seq<char>) -> Seq<char> {
    hex_chars(sha256_of(vstd::utf8::encode_utf8(path)))
}

/// Generate a cache key from a file path: a digest of the path bytes,
/// rendered as 64 lowercase hexadecimal digits. A pure function of the
/// path string only, not of the file's content.
pub fn generate_cache_key(file_path: &str) -> (r: String)
    ensures
        r@ == spec_cache_key(file_path@),
        r@.len() == 64,
{
    let digest = sha256_digest(file_path.as_bytes());
    bytes_to_hex(&digest)
}

/// The thumbnail file name of a path: its cache key with the image
/// suffix.
pub open spec fn spec_thumb_file_name(path: Seq<char>) -> Seq<char> {
    spec_cache_key(path) + ".jpg"@
}

/// The thumbnail file name of a path.
pub fn thumbnail_file_name(file_path: &str) -> (r: String)
    ensures
        r@ == spec_thumb_file_name(file_path@),
{
    let mut r = generate_cache_key(file_path);
    r.append(".jpg");
    r
}

/// The cached thumbnail path of a file under a cache directory.
pub open spec fn spec_thumbnail_path(cache_dir: Seq<char>, path: Seq<char>) -> Seq<char> {
    cache_dir + "/"@ + spec_thumb_file_name(path)
}

/// Get the cached thumbnail path for a file under the given cache
/// directory.
pub fn get_thumbnail_path(cache_dir: &str, file_path: &str) -> (r: String)
    ensures
        r@ == spec_thumbnail_path(cache_dir@, file_path@),
{
    let mut r = String::from_str(cache_dir);
    r.append("/");
    let name = thumbnail_file_name(file_path);
    r.append(name.as_str());
    r
}

/// One packet of the selected container as the demuxer yields it: does
/// it belong to the selected stream, and what buffer length does the
/// decoder produce when fed it (nothing when no frame comes out).
#[derive(Debug, Clone, Copy)]
pub struct ProbePacket {
    /// Whether the packet belongs to the selected video stream
    pub on_stream: bool,
    /// Length of the converted frame buffer the decoder yields for
    /// this packet, if any
    pub frame_len: Option<usize>,
}

/// Whether a usable frame comes out of one packet: it belongs to the
/// stream and decodes to a non-empty buffer.
pub open spec fn packet_yields_frame(p: ProbePacket) -> bool {
    p.on_stream && p.frame_len is Some && p.frame_len->0 > 0
}

/// Whether a usable frame appears among the first `k` packets.
pub open spec fn spec_found_within(packets: Seq<ProbePacket>, k: int) -> bool {
    exists|i: int| 0 <= i < k && i < packets.len() && packet_yields_frame(#[trigger] packets[i])
}

/// The running state of a frame search: how many packets were
/// examined, and whether a usable frame has been decoded.
pub struct FrameSearch {
    /// Packets examined so far
    pub examined: u32,
    /// Whether a usable frame has been decoded
    pub found: bool,
}

impl FrameSearch {
    /// Well-formedness: the packet budget is never exceeded.
    pub open spec fn wf(&self) -> bool {
        self.examined <= MAX_PROBE_PACKETS
    }

    /// A fresh search: nothing examined, nothing found.
    pub fn new() -> (r: Self)
        ensures
            r.examined == 0,
            !r.found,
            r.wf(),
    {
        FrameSearch { examined: 0, found: false }
    }

    /// Whether the search wants another packet: none has yielded a
    /// frame yet and the budget is not exhausted.
    pub fn want_packet(&self) -> (r: bool)
        ensures
            r == (!self.found && self.examined < MAX_PROBE_PACKETS),
    {
        !self.found && self.examined < MAX_PROBE_PACKETS
    }

    /// Counts one examined packet against the budget.
    pub fn note_packet(&mut self)
        requires
            old(self).examined < MAX_PROBE_PACKETS,
        ensures
            final(self).examined == old(self).examined + 1,
            final(self).found == old(self).found,
            final(self).wf(),
    {
        self.examined = self.examined + 1;
    }

    /// Records what the decoder yielded: a frame counts only with a
    /// non-empty converted buffer.
    pub fn note_frame(&mut self, buffer_len: usize)
        ensures
            final(self).found == (old(self).found || buffer_len > 0),
            final(self).examined == old(self).examined,
    {
        if buffer_len > 0 {
            self.found = true;
        }
    }

    /// The search's outcome: a frame, or the decode failure.
    pub fn outcome(&self) -> (r: Result<(), ThumbnailError>)
        ensures
            r is Ok <==> self.found,
            r is Err ==> r->Err_0 is VideoDecoding && (r->Err_0)->VideoDecoding_0@
                == "No frames could be decoded"@,
    {
        if self.found {
            Ok(())
        } else {
            Err(ThumbnailError::VideoDecoding(String::from_str("No frames could be decoded")))
        }
    }
}

/// Runs the frame search over a packet trace: packets are examined in
/// order, each counted against the budget, until a usable frame
/// appears, the budget is exhausted, or the trace ends. The search
/// succeeds exactly when a usable frame appears within the budget.
pub fn search_frames(packets: &Vec<ProbePacket>) -> (r: Result<(), ThumbnailError>)
    ensures
        r is Ok <==> spec_found_within(packets@, MAX_PROBE_PACKETS as int),
        r is Err ==> r->Err_0 is VideoDecoding && (r->Err_0)->VideoDecoding_0@
            == "No frames could be decoded"@,
{
    let mut fs = FrameSearch::new();
    let mut i: usize = 0;
    while fs.want_packet() && i < packets.len()
        invariant
            fs.wf(),
            i <= packets@.len(),
            i <= MAX_PROBE_PACKETS,
            fs.examined == i,
            fs.found == spec_found_within(packets@, i as int),
        decreases packets@.len() - i,
    {
        fs.note_packet();
        let p = packets[i];
        if p.on_stream {
            if let Some(l) = p.frame_len {
                fs.note_frame(l);
            }
        }
        i = i + 1;
        proof {
            if fs.found && !spec_found_within(packets@, i as int - 1) {
                assert(packet_yields_frame(packets@[i as int - 1]));
            }
        }
    }
    proof {
        if fs.found {
            assert(spec_found_within(packets@, MAX_PROBE_PACKETS as int));
        } else {
            assert(!fs.found && (i == packets@.len() || fs.examined == MAX_PROBE_PACKETS));
            if spec_found_within(packets@, MAX_PROBE_PACKETS as int) {
                let w = choose|w: int|
                    0 <= w < MAX_PROBE_PACKETS && w < packets@.len() && packet_yields_frame(
                        packets@[w],
                    );
                assert(spec_found_within(packets@, i as int));
            }
        }
    }
    fs.outcome()
}

/// Packet budget law: a trace with no usable frame among its packets
/// never yields one within the budget, so the search reports the
/// decode failure rather than searching on.
pub proof fn lemma_packet_budget(packets: Seq<ProbePacket>)
    requires
        forall|i: int| 0 <= i < packets.len() ==> !packet_yields_frame(#[trigger] packets[i]),
    ensures
        !spec_found_within(packets, MAX_PROBE_PACKETS as int),
{
}

/// Packet budget law, second half: a usable frame beyond the budget is
/// out of reach; only the first hundred packets decide the outcome.
pub proof fn lemma_budget_prefix_decides(packets: Seq<ProbePacket>)
    requires
        packets.len() >= MAX_PROBE_PACKETS,
    ensures
        spec_found_within(packets, MAX_PROBE_PACKETS as int) == spec_found_within(
            packets.take(MAX_PROBE_PACKETS as int),
            MAX_PROBE_PACKETS as int,
        ),
{
    let budget = MAX_PROBE_PACKETS as int;
    if spec_found_within(packets, budget) {
        let w = choose|w: int| 0 <= w < budget && w < packets.len() && packet_yields_frame(packets[w]);
        assert(packet_yields_frame(packets.take(budget)[w]));
    }
    if spec_found_within(packets.take(budget), budget) {
        let w = choose|w: int|
            0 <= w < budget && w < packets.take(budget).len() && packet_yields_frame(
                packets.take(budget)[w],
            );
        assert(packet_yields_frame(packets[w]));
    }
}

/// What the aspect-preserving fit of an RGB frame into a bounding box
/// yields: the fitted dimensions and the resampled pixels. Relied on
/// below: the result depends on the frame and the bounds alone.
pub uninterp spec fn resized_rgb_of(
    width: u32,
    height: u32,
    data: Seq<u8>,
    bound_w: u32,
    bound_h: u32,
) -> (u32, u32, Seq<u8>);

/// Relies on image::DynamicImage::resize with the Lanczos3 filter: the
/// result preserves the aspect ratio and is the largest size fitting
/// inside the given bounds, so both dimensions stay positive and
/// within them and the constraining axis lands exactly on its bound;
/// the buffer keeps the packed RGB layout; the resampling depends on
/// the pixels and bounds alone.
#[verifier::external_body]
fn resize_rgb(width: u32, height: u32, data: Vec<u8>, bound_w: u32, bound_h: u32) -> (r: (
    u32,
    u32,
    Vec<u8>,
))
    requires
        1 <= width,
        1 <= height,
        data@.len() == 3 * width * height,
        3 * width * height <= usize::MAX,
        1 <= bound_w <= 16384,
        1 <= bound_h <= 16384,
    ensures
        r.0 == resized_rgb_of(width, height, data@, bound_w, bound_h).0,
        r.1 == resized_rgb_of(width, height, data@, bound_w, bound_h).1,
        r.2@ == resized_rgb_of(width, height, data@, bound_w, bound_h).2,
        1 <= r.0 <= bound_w,
        1 <= r.1 <= bound_h,
        r.0 == bound_w || r.1 == bound_h,
        r.2@.len() == 3 * r.0 * r.1,
{
    let img = image::RgbImage::from_raw(width, height, data).unwrap();
    let resized = image::DynamicImage::ImageRgb8(img).resize(
        bound_w,
        bound_h,
        image::imageops::FilterType::Lanczos3,
    ).into_rgb8();
    let w2 = resized.width();
    let h2 = resized.height();
    (w2, h2, resized.into_raw())
}

/// What the fixed-quality JPEG encoding of an RGB buffer is. Relied on
/// below: the bytes depend on the dimensions and pixels alone.
pub uninterp spec fn jpeg_bytes_of(width: u32, height: u32, data: Seq<u8>) -> Seq<u8>;

/// Relies on image::codecs::jpeg::JpegEncoder: encoding an RGB buffer
/// into an in-memory vector succeeds for dimensions the format
/// supports, and the bytes depend on the input alone.
#[verifier::external_body]
fn encode_jpeg_rgb(width: u32, height: u32, data: &Vec<u8>) -> (r: Option<Vec<u8>>)
    requires
        data@.len() == 3 * width * height,
    ensures
        1 <= width <= 65535 && 1 <= height <= 65535 ==> r is Some,
        r is Some ==> r->0@ == jpeg_bytes_of(width, height, data@),
{
    let mut buf: Vec<u8> = Vec::new();
    let mut enc = image::codecs::jpeg::JpegEncoder::new(&mut buf);
    match enc.encode(data.as_slice(), width, height, image::ExtendedColorType::Rgb8) {
        Ok(()) => Some(buf),
        Err(_) => None,
    }
}

/// Resize an RGB frame to the thumbnail bounding box, preserving the
/// aspect ratio, and encode it as JPEG. Every frame with valid
/// dimensions renders: the bounded result always fits what the encoder
/// supports. The returned dimensions are the fitted frame's, the
/// longer side lands exactly on the box, and the returned bytes are
/// the JPEG encoding of the fitted frame's pixels.
pub fn render_thumbnail(width: u32, height: u32, data: Vec<u8>) -> (r: Result<
    (u32, u32, Vec<u8>),
    ThumbnailError,
>)
    requires
        1 <= width,
        1 <= height,
        data@.len() == 3 * width * height,
        3 * width * height <= usize::MAX,
    ensures
        r is Ok,
        r is Ok ==> ({
            let fitted = resized_rgb_of(width, height, data@, THUMBNAIL_SIZE, THUMBNAIL_SIZE);
            &&& r->Ok_0.0 == fitted.0
            &&& r->Ok_0.1 == fitted.1
            &&& 1 <= r->Ok_0.0 <= THUMBNAIL_SIZE
            &&& 1 <= r->Ok_0.1 <= THUMBNAIL_SIZE
            &&& (r->Ok_0.0 == THUMBNAIL_SIZE || r->Ok_0.1 == THUMBNAIL_SIZE)
            &&& r->Ok_0.2@ == jpeg_bytes_of(fitted.0, fitted.1, fitted.2)
        }),
{
    let (tw, th, small) = resize_rgb(width, height, data, THUMBNAIL_SIZE, THUMBNAIL_SIZE);
    match encode_jpeg_rgb(tw, th, &small) {
        Some(jpeg) => Ok((tw, th, jpeg)),
        None => Err(ThumbnailError::VideoDecoding(String::from_str("Failed to scale frame"))),
    }
}

/// The thumbnail disk cache as the pipeline sees it: the set of
/// thumbnail file names present in the cache directory. Presence of a
/// name is treated as a valid entry; absence means generation is
/// needed.
pub struct ThumbnailDiskCache {
    /// The file names present in the cache directory
    pub entries: Vec<String>,
}

/// Whether a name is present among the cache entries.
pub open spec fn spec_cache_has(entries: Seq<String>, name: Seq<char>) -> bool {
    exists|i: int| 0 <= i < entries.len() && (#[trigger] entries[i])@ == name
}

impl ThumbnailDiskCache {
    /// An empty cache directory.
    pub fn new() -> (r: Self)
        ensures
            r.entries@.len() == 0,
    {
        ThumbnailDiskCache { entries: Vec::new() }
    }

    /// Whether a thumbnail file of this name is present.
    pub fn contains_name(&self, name: &str) -> (r: bool)
        ensures
            r == spec_cache_has(self.entries@, name@),
    {
        let mut i: usize = 0;
        while i < self.entries.len()
            invariant
                i <= self.entries@.len(),
                forall|j: int| 0 <= j < i ==> (#[trigger] self.entries@[j])@ != name@,
            decreases self.entries@.len() - i,
        {
            if crate::text::str_eq(self.entries[i].as_str(), name) {
                return true;
            }
            i = i + 1;
        }
        false
    }

    /// Records a newly written thumbnail file.
    pub fn record_name(&mut self, name: String)
        ensures
            final(self).entries@ == old(self).entries@.push(name),
    {
        self.entries.push(name);
    }
}

/// One thumbnail generation against the cache model. A present entry
/// is served as is: no decode work, no write. Otherwise the decode
/// outcome decides: a decoded frame is recorded under the file's name
/// and its path returned, a decode failure is reported for this file
/// alone. The second component tells whether decode work was consumed.
pub fn generate_thumbnail_core(
    cache: &mut ThumbnailDiskCache,
    cache_dir: &str,
    file_path: &str,
    decoded: Result<(), ThumbnailError>,
) -> (r: (Result<String, ThumbnailError>, bool))
    ensures
        spec_cache_has(old(cache).entries@, spec_thumb_file_name(file_path@)) ==> {
            &&& r.0 is Ok
            &&& (r.0)->Ok_0@ == spec_thumbnail_path(cache_dir@, file_path@)
            &&& r.1 == false
            &&& final(cache).entries@ == old(cache).entries@
        },
        !spec_cache_has(old(cache).entries@, spec_thumb_file_name(file_path@)) ==> {
            &&& r.1 == true
            &&& (match decoded {
                Ok(()) => {
                    &&& r.0 is Ok
                    &&& (r.0)->Ok_0@ == spec_thumbnail_path(cache_dir@, file_path@)
                    &&& final(cache).entries@.len() == old(cache).entries@.len() + 1
                    &&& spec_cache_has(final(cache).entries@, spec_thumb_file_name(file_path@))
                },
                Err(e) => r.0 == Result::<String, ThumbnailError>::Err(e) && final(cache).entries@
                    == old(cache).entries@,
            })
        },
{
    let name = thumbnail_file_name(file_path);
    let path = get_thumbnail_path(cache_dir, file_path);
    if cache.contains_name(name.as_str()) {
        (Ok(path), false)
    } else {
        match decoded {
            Ok(()) => {
                let ghost n0 = cache.entries@;
                cache.record_name(name);
                proof {
                    assert((#[trigger] final(cache).entries@[n0.len() as int])@
                        == spec_thumb_file_name(file_path@));
                }
                (Ok(path), true)
            },
            Err(e) => (Err(e), true),
        }
    }
}

/// Idempotence law: once a thumbnail file name is recorded, the cache
/// holds it, so the next generation for the same path is a pure cache
/// hit — the same path comes back and no decode work is consumed.
pub proof fn lemma_thumbnail_idempotent(entries: Seq<String>, s: String, path: Seq<char>)
    requires
        s@ == spec_thumb_file_name(path),
    ensures
        spec_cache_has(entries.push(s), spec_thumb_file_name(path)),
{
    assert((entries.push(s)[entries.len() as int])@ == spec_thumb_file_name(path));
}

/// What the textual encoding of a byte string is. Relied on below: the
/// encoding depends on the bytes alone.
pub uninterp spec fn base64_of(bytes: Seq<u8>) -> Seq<char>;

/// Relies on base64's standard-alphabet engine: the encoding is a pure
/// function of the input bytes.
#[verifier::external_body]
fn base64_encode(data: &Vec<u8>) -> (r: String)
    ensures
        r@ == base64_of(data@),
{
    base64::Engine::encode(&base64::engine::general_purpose::STANDARD, data)
}

/// The inline data representation of a rendered thumbnail.
pub open spec fn spec_data_url(data: Seq<u8>) -> Seq<char> {
    "data:image/jpeg;base64,"@ + base64_of(data)
}

/// Renders thumbnail bytes as an inline data representation for the
/// caller's display layer.
pub fn data_url_for(data: &Vec<u8>) -> (r: String)
    ensures
        r@ == spec_data_url(data@),
{
    let mut r = String::from_str("data:image/jpeg;base64,");
    let b = base64_encode(data);
    r.append(b.as_str());
    r
}

} // verus!
