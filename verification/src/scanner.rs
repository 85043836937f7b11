//! Classification of files by extension and assembly of the scan
//! result list: unsupported entries are filtered out and the survivors
//! are sorted by modification date, newest first.

use vstd::prelude::*;
use vstd::seq_lib::lemma_multiset_commutative;
use crate::text::{
    after_last, ascii_lowercase, find_last, has_char, is_last_index_of,
    lemma_last_index_unique, lower_chars, str_eq, suffix_after_last,
};

verus! {

/// Classification of media file types.
#[derive(Debug, Clone, Copy, PartialEq, Eq, Structural)]
pub enum MediaType {
    /// Image file (jpg, png, and the like)
    Image,
    /// Video file (mp4, mov, and the like)
    Video,
    /// Unsupported or unknown file type
    Unknown,
}

impl Default for MediaType {
    /// Files are unknown until classified.
    fn default() -> (r: Self)
        ensures
            r == MediaType::Unknown,
    {
        MediaType::Unknown
    }
}

/// Whether a lowercase extension belongs to the image allow-list.
pub open spec fn is_image_extension(s: Seq<char>) -> bool {
    ||| s == "jpg"@
    ||| s == "jpeg"@
    ||| s == "png"@
    ||| s == "gif"@
    ||| s == "bmp"@
    ||| s == "webp"@
    ||| s == "heic"@
    ||| s == "heif"@
    ||| s == "tiff"@
    ||| s == "tif"@
    ||| s == "svg"@
}

/// Whether a lowercase extension belongs to the video allow-list.
pub open spec fn is_video_extension(s: Seq<char>) -> bool {
    ||| s == "mp4"@
    ||| s == "mov"@
    ||| s == "avi"@
    ||| s == "mkv"@
    ||| s == "webm"@
    ||| s == "flv"@
    ||| s == "wmv"@
    ||| s == "m4v"@
    ||| s == "mpg"@
    ||| s == "mpeg"@
}

/// Classification of a lowercase extension against the two allow-lists.
pub open spec fn spec_media_type(s: Seq<char>) -> MediaType {
    if is_image_extension(s) {
        MediaType::Image
    } else if is_video_extension(s) {
        MediaType::Video
    } else {
        MediaType::Unknown
    }
}

/// Determines the media type based on a lowercase file extension.
pub fn determine_media_type(extension: &str) -> (r: MediaType)
    ensures
        r == spec_media_type(extension@),
{
    if str_eq(extension, "jpg") || str_eq(extension, "jpeg") || str_eq(extension, "png")
        || str_eq(extension, "gif") || str_eq(extension, "bmp") || str_eq(extension, "webp")
        || str_eq(extension, "heic") || str_eq(extension, "heif") || str_eq(extension, "tiff")
        || str_eq(extension, "tif") || str_eq(extension, "svg") {
        MediaType::Image
    } else if str_eq(extension, "mp4") || str_eq(extension, "mov") || str_eq(extension, "avi")
        || str_eq(extension, "mkv") || str_eq(extension, "webm") || str_eq(extension, "flv")
        || str_eq(extension, "wmv") || str_eq(extension, "m4v") || str_eq(extension, "mpg")
        || str_eq(extension, "mpeg") {
        MediaType::Video
    } else {
        MediaType::Unknown
    }
}

/// The file name part of a path: the characters after the last `/`,
/// or a fixed fallback when that part is empty.
pub open spec fn spec_file_name(path: Seq<char>) -> Seq<char> {
    if after_last(path, '/').len() == 0 {
        "Unknown"@
    } else {
        after_last(path, '/')
    }
}

/// Extracts the file name from a path.
pub fn extract_file_name(path: &str) -> (r: String)
    ensures
        r@ == spec_file_name(path@),
{
    let name = suffix_after_last(path, '/');
    if name.as_str().unicode_len() == 0 {
        String::from_str("Unknown")
    } else {
        name
    }
}

/// The lowercase extension of a path's file name: the characters after
/// the last `.` of the name, empty when the name has no `.`, or only a
/// leading one.
pub open spec fn spec_extension(path: Seq<char>) -> Seq<char> {
    let name = after_last(path, '/');
    if has_char(name, '.') {
        let i = choose|i: int| is_last_index_of(name, '.', i);
        if i > 0 {
            lower_chars(name.subrange(i + 1, name.len() as int))
        } else {
            Seq::empty()
        }
    } else {
        Seq::empty()
    }
}

proof fn lemma_extension_at(path: Seq<char>, i: int)
    requires
        is_last_index_of(after_last(path, '/'), '.', i),
    ensures
        spec_extension(path) == if i > 0 {
            lower_chars(after_last(path, '/').subrange(i + 1, after_last(path, '/').len() as int))
        } else {
            Seq::<char>::empty()
        },
{
    let name = after_last(path, '/');
    assert(has_char(name, '.'));
    let j = choose|j: int| is_last_index_of(name, '.', j);
    lemma_last_index_unique(name, '.', i, j);
}

/// The lowercase extension of a path's file name.
pub fn extension_of(path: &str) -> (r: String)
    ensures
        r@ == spec_extension(path@),
{
    let name = suffix_after_last(path, '/');
    let n = name.as_str().unicode_len();
    match find_last(name.as_str(), '.') {
        Some(i) => {
            proof {
                lemma_extension_at(path@, i as int);
            }
            if i > 0 {
                let raw = name.as_str().substring_char(i + 1, n);
                ascii_lowercase(raw)
            } else {
                String::new()
            }
        },
        None => {
            assert(spec_extension(path@) =~= Seq::<char>::empty());
            String::new()
        },
    }
}

/// One directory entry as the walker reports it, reduced to the plain
/// values the classification reads.
#[derive(Debug, Clone)]
pub struct ScanEntry {
    /// Absolute path of the entry
    pub path: String,
    /// Whether the entry is a directory
    pub is_dir: bool,
    /// Size in bytes
    pub size: u64,
    /// Last modified time as a Unix timestamp, 0 when unavailable
    pub modified: i64,
}

/// Represents a media file with its metadata.
#[derive(Debug, Clone, Eq)]
pub struct MediaFile {
    /// Absolute path to the file
    pub path: String,
    /// File name without path
    pub name: String,
    /// File size in bytes
    pub size: u64,
    /// Last modified timestamp (Unix timestamp)
    pub modified: i64,
    /// File type/extension (e.g., "jpg", "mp4")
    pub file_type: String,
    /// Whether it's an image or video
    pub media_type: MediaType,
}

impl PartialEq for MediaFile {
    fn eq(&self, other: &Self) -> (r: bool) {
        self.path == other.path && self.name == other.name && self.size == other.size
            && self.modified == other.modified && self.file_type == other.file_type
            && self.media_type == other.media_type
    }
}

impl vstd::std_specs::cmp::PartialEqSpecImpl for MediaFile {
    open spec fn obeys_eq_spec() -> bool {
        true
    }

    open spec fn eq_spec(&self, other: &MediaFile) -> bool {
        &&& self.path@ == other.path@
        &&& self.name@ == other.name@
        &&& self.size == other.size
        &&& self.modified == other.modified
        &&& self.file_type@ == other.file_type@
        &&& self.media_type == other.media_type
    }
}

/// Whether a scan entry survives filtering: a file whose extension
/// falls in one of the two allow-lists.
pub open spec fn entry_supported(e: ScanEntry) -> bool {
    !e.is_dir && spec_media_type(spec_extension(e.path@)) != MediaType::Unknown
}

/// Whether a media file record carries exactly the values read from an
/// entry.
pub open spec fn entry_matches(e: ScanEntry, m: MediaFile) -> bool {
    &&& m.path@ == e.path@
    &&& m.name@ == spec_file_name(e.path@)
    &&& m.size == e.size
    &&& m.modified == e.modified
    &&& m.file_type@ == spec_extension(e.path@)
    &&& m.media_type == spec_media_type(spec_extension(e.path@))
}

/// Whether `r` is exactly the record list of the supported entries, in
/// entry order: one record per supported entry, matching it field by
/// field, and none for a directory or an unsupported file.
pub open spec fn builds_records(entries: Seq<ScanEntry>, r: Seq<MediaFile>) -> bool
    decreases entries.len(),
{
    if entries.len() == 0 {
        r.len() == 0
    } else if entry_supported(entries.last()) {
        &&& r.len() > 0
        &&& entry_matches(entries.last(), r.last())
        &&& builds_records(entries.drop_last(), r.drop_last())
    } else {
        builds_records(entries.drop_last(), r)
    }
}

/// How many entries of the sequence survive filtering.
pub open spec fn count_supported(entries: Seq<ScanEntry>) -> nat
    decreases entries.len(),
{
    if entries.len() == 0 {
        0
    } else {
        count_supported(entries.drop_last()) + if entry_supported(entries.last()) {
            1nat
        } else {
            0nat
        }
    }
}

/// Builds the record for one entry, or nothing for a directory or an
/// unsupported file.
pub fn build_media_file(e: &ScanEntry) -> (r: Option<MediaFile>)
    ensures
        r is Some <==> entry_supported(*e),
        r is Some ==> entry_matches(*e, r->Some_0),
{
    if e.is_dir {
        return None;
    }
    let extension = extension_of(e.path.as_str());
    let media_type = determine_media_type(extension.as_str());
    if media_type == MediaType::Unknown {
        return None;
    }
    let name = extract_file_name(e.path.as_str());
    Some(
        MediaFile {
            path: e.path.clone(),
            name,
            size: e.size,
            modified: e.modified,
            file_type: extension,
            media_type,
        },
    )
}

/// Whether the sequence is sorted by modification date, newest first.
pub open spec fn sorted_by_modified_desc(s: Seq<MediaFile>) -> bool {
    forall|i: int, j: int| 0 <= i < j < s.len() ==> s[i].modified >= s[j].modified
}

proof fn lemma_insert_to_multiset(s: Seq<MediaFile>, pos: int, e: MediaFile)
    requires
        0 <= pos <= s.len(),
    ensures
        s.insert(pos, e).to_multiset() =~= s.to_multiset().insert(e),
{
    broadcast use vstd::seq_lib::group_to_multiset_ensures;
    broadcast use vstd::multiset::group_multiset_axioms;

    let left = s.subrange(0, pos);
    let right = s.subrange(pos, s.len() as int);
    lemma_multiset_commutative(left.push(e), right);
    lemma_multiset_commutative(left, right);
    assert(left + right =~= s);
    assert(left.push(e).to_multiset() =~= left.to_multiset().insert(e));
}

/// Sorts the list by modification date, newest first, keeping exactly
/// the same records.
pub fn sort_media_files(files: &mut Vec<MediaFile>)
    ensures
        final(files)@.to_multiset() == old(files)@.to_multiset(),
        sorted_by_modified_desc(final(files)@),
        final(files)@.len() == old(files)@.len(),
{
    broadcast use vstd::seq_lib::group_to_multiset_ensures;
    broadcast use vstd::multiset::group_multiset_axioms;

    if files.len() <= 1 {
        return;
    }
    let mut i: usize = 1;
    while i < files.len()
        invariant
            1 <= i,
            i <= files@.len(),
            files@.to_multiset() == old(files)@.to_multiset(),
            files@.len() == old(files)@.len(),
            sorted_by_modified_desc(files@.take(i as int)),
        decreases files@.len() - i,
    {
        let ghost before = files@;
        let x = files.remove(i);
        let ghost removed = files@;
        proof {
            before.to_multiset_ensures();
            assert(x == before[i as int]);
            assert(removed =~= before.remove(i as int));
            assert(before.remove(i as int).to_multiset() =~= before.to_multiset().remove(x));
            assert(0 <= i < before.len() && before[i as int] == x);
            assert(before.contains(x));
            assert(before.to_multiset().count(x) > 0);
        }
        let mut j: usize = 0;
        while j < i && files[j].modified >= x.modified
            invariant
                j <= i,
                i < before.len(),
                files@ == removed,
                i <= removed.len(),
                forall|k: int| 0 <= k < j ==> files@[k].modified >= x.modified,
            decreases i - j,
        {
            j = j + 1;
        }
        files.insert(j, x);
        proof {
            lemma_insert_to_multiset(removed, j as int, x);
            assert(files@.to_multiset() =~= removed.to_multiset().insert(x));
            assert(before.to_multiset().remove(x).insert(x) =~= before.to_multiset());
            assert(files@.to_multiset() =~= before.to_multiset());
            // the prefix of length i + 1 stays sorted after the insertion
            assert(forall|a: int| 0 <= a < j ==> files@[a] == before[a]);
            assert(forall|a: int| j < a <= i ==> files@[a] == before[a - 1]);
            assert(sorted_by_modified_desc(files@.take(i as int + 1))) by {
                assert(forall|a: int, b: int|
                    0 <= a < b <= i && a != j && b != j ==> #[trigger] files@[a].modified
                        >= #[trigger] files@[b].modified);
                assert(forall|a: int, b: int|
                    0 <= a < b <= i ==> #[trigger] files@.take(i as int + 1)[a].modified
                        >= #[trigger] files@.take(i as int + 1)[b].modified);
            }
        }
        i = i + 1;
    }
    proof {
        if files@.len() > 0 {
            assert(files@.take(files@.len() as int) =~= files@);
        }
    }
}

/// Builds the records for every supported file among the entries, in
/// entry order: each supported entry contributes exactly one record.
pub fn collect_media_files(entries: &Vec<ScanEntry>) -> (r: Vec<MediaFile>)
    ensures
        builds_records(entries@, r@),
        r@.len() == count_supported(entries@),
        forall|k: int|
            0 <= k < r@.len() ==> exists|j: int|
                0 <= j < entries@.len() && entry_supported(entries@[j]) && entry_matches(
                    entries@[j],
                    #[trigger] r@[k],
                ),
        forall|k: int| 0 <= k < r@.len() ==> #[trigger] r@[k].media_type != MediaType::Unknown,
{
    let mut r: Vec<MediaFile> = Vec::new();
    let mut i: usize = 0;
    while i < entries.len()
        invariant
            i <= entries@.len(),
            builds_records(entries@.take(i as int), r@),
            r@.len() == count_supported(entries@.take(i as int)),
            forall|k: int|
                0 <= k < r@.len() ==> exists|j: int|
                    0 <= j < entries@.len() && entry_supported(entries@[j]) && entry_matches(
                        entries@[j],
                        #[trigger] r@[k],
                    ),
            forall|k: int| 0 <= k < r@.len() ==> #[trigger] r@[k].media_type != MediaType::Unknown,
        decreases entries@.len() - i,
    {
        let ghost prefix = entries@.take(i as int);
        if let Some(m) = build_media_file(&entries[i]) {
            let ghost kk = r@.len() as int;
            let ghost r0 = r@;
            r.push(m);
            proof {
                assert(forall|k: int| 0 <= k < r0.len() ==> r@[k] == r0[k]);
                assert(r@.drop_last() =~= r0);
                assert(0 <= i < entries@.len() && entry_supported(entries@[i as int])
                    && entry_matches(entries@[i as int], r@[kk]));
            }
        }
        i = i + 1;
        proof {
            assert(entries@.take(i as int).drop_last() =~= prefix);
            assert(entries@.take(i as int).last() == entries@[i - 1]);
        }
    }
    proof {
        assert(entries@.take(entries@.len() as int) =~= entries@);
    }
    r
}

/// Scan assembly: the records of every supported file, sorted by
/// modification date, newest first. The result holds exactly the
/// per-entry records of the supported entries — each contributes one
/// record and unsupported entries contribute nothing — reordered only.
pub fn scan_collect(entries: &Vec<ScanEntry>) -> (r: Vec<MediaFile>)
    ensures
        exists|unsorted: Seq<MediaFile>|
            #[trigger] builds_records(entries@, unsorted) && r@.to_multiset()
                == unsorted.to_multiset(),
        r@.len() == count_supported(entries@),
        sorted_by_modified_desc(r@),
        forall|k: int|
            0 <= k < r@.len() ==> exists|j: int|
                0 <= j < entries@.len() && entry_supported(entries@[j]) && entry_matches(
                    entries@[j],
                    #[trigger] r@[k],
                ),
        forall|k: int| 0 <= k < r@.len() ==> #[trigger] r@[k].media_type != MediaType::Unknown,
{
    broadcast use vstd::seq_lib::group_to_multiset_ensures;

    let mut files = collect_media_files(entries);
    let ghost unsorted = files@;
    sort_media_files(&mut files);
    proof {
        assert(builds_records(entries@, unsorted) && files@.to_multiset()
            == unsorted.to_multiset());
        assert forall|k: int| 0 <= k < files@.len() implies (exists|j: int|
            0 <= j < entries@.len() && entry_supported(entries@[j]) && entry_matches(
                entries@[j],
                #[trigger] files@[k],
            )) by {
            files@.to_multiset_ensures();
            unsorted.to_multiset_ensures();
            assert(files@.contains(files@[k]));
            assert(unsorted.to_multiset().count(files@[k]) > 0);
            assert(unsorted.contains(files@[k]));
            let m = choose|m: int| 0 <= m < unsorted.len() && unsorted[m] == files@[k];
            assert(unsorted[m] == files@[k]);
        }
        assert forall|k: int| 0 <= k < files@.len() implies #[trigger] files@[k].media_type
            != MediaType::Unknown by {
            files@.to_multiset_ensures();
            unsorted.to_multiset_ensures();
            assert(files@.contains(files@[k]));
            assert(unsorted.to_multiset().count(files@[k]) > 0);
            assert(unsorted.contains(files@[k]));
            let m = choose|m: int| 0 <= m < unsorted.len() && unsorted[m] == files@[k];
            assert(unsorted[m] == files@[k]);
        }
    }
    files
}

} // verus!
