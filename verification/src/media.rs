//! Stored media: the record kept per uploaded file, the per-second frame
//! metadata, the layout of the storage directory, and metadata rescaling.

use vstd::prelude::*;
use vstd::string::StringExecFns;

verus! {

/// The record kept in the media index for one uploaded file.
pub struct MediaFiles {
    pub id: String,
    pub filename: String,
}

/// Relies on `uuid::Uuid::new_v4` and `Uuid`'s `Display` form: a freshly
/// drawn random UUID rendered hyphenated, which is always 36 characters.
#[verifier::external_body]
fn fresh_uuid_string() -> (r: String)
    ensures
        r@.len() == 36,
{
    uuid::Uuid::new_v4().to_string()
}

impl MediaFiles {
    /// A record for a newly stored file: a freshly drawn id together with the
    /// name the file was uploaded under.
    pub fn build(filename: String) -> (r: MediaFiles)
        ensures
            r.filename == filename,
            r.id@.len() == 36,
    {
        MediaFiles { id: fresh_uuid_string(), filename }
    }
}

/// One frame's worth of metadata: the whole second it was sampled at, and the
/// box the frame occupies.
#[derive(Clone, Copy, PartialEq, Eq, Structural, Debug)]
pub struct MediaFileMetadata {
    /// Second in which the frame is extracted.
    pub timestamp: u64,
    /// Position of the frame on the X axis.
    pub x: u32,
    /// Position of the frame on the Y axis.
    pub y: u32,
    /// Width that the frame occupies.
    pub width: u32,
    /// Height that the frame occupies.
    pub height: u32,
}

/// `v` rescaled by `num / den`, rounded toward zero and saturating at
/// `u32::MAX`.
pub open spec fn spec_scale(v: u32, num: u32, den: u32) -> u32 {
    let q = (v * num) / (den as int);
    if q > u32::MAX {
        u32::MAX
    } else {
        q as u32
    }
}

/// `m` rescaled to a `new_width` by `new_height` frame: the position moves in
/// proportion, the timestamp stays.
pub open spec fn spec_resized(m: MediaFileMetadata, new_width: u32, new_height: u32) -> MediaFileMetadata {
    MediaFileMetadata {
        timestamp: m.timestamp,
        x: spec_scale(m.x, new_width, m.width),
        y: spec_scale(m.y, new_height, m.height),
        width: new_width,
        height: new_height,
    }
}

/// Rescales one coordinate by `num / den`.
fn scale(v: u32, num: u32, den: u32) -> (r: u32)
    requires
        den > 0,
    ensures
        r == spec_scale(v, num, den),
{
    proof {
        assert(v as int * num as int <= 0xffff_ffff * 0xffff_ffff) by (nonlinear_arith)
            requires
                v <= 0xffff_ffff,
                num <= 0xffff_ffff,
        ;
    }
    let p: u64 = (v as u64) * (num as u64);
    let q: u64 = p / (den as u64);
    if q > 0xffff_ffff {
        u32::MAX
    } else {
        q as u32
    }
}

/// Maps every metadata record onto a `new_width` by `new_height` frame,
/// moving each position in proportion and keeping each timestamp.
pub fn resize_metadata(metadata: &Vec<MediaFileMetadata>, new_width: u32, new_height: u32) -> (r: Vec<
    MediaFileMetadata,
>)
    requires
        forall|i: int|
            0 <= i < metadata@.len() ==> metadata@[i].width > 0 && metadata@[i].height > 0,
    ensures
        r@.len() == metadata@.len(),
        forall|i: int|
            0 <= i < metadata@.len() ==> r@[i] == spec_resized(metadata@[i], new_width, new_height),
{
    let mut out: Vec<MediaFileMetadata> = Vec::new();
    let mut i: usize = 0;
    while i < metadata.len()
        invariant
            i <= metadata@.len(),
            out@.len() == i,
            forall|j: int|
                0 <= j < metadata@.len() ==> metadata@[j].width > 0 && metadata@[j].height > 0,
            forall|j: int|
                0 <= j < i ==> out@[j] == spec_resized(metadata@[j], new_width, new_height),
        decreases metadata@.len() - i,
    {
        let m = metadata[i];
        out.push(
            MediaFileMetadata {
                timestamp: m.timestamp,
                x: scale(m.x, new_width, m.width),
                y: scale(m.y, new_height, m.height),
                width: new_width,
                height: new_height,
            },
        );
        i += 1;
    }
    out
}

/// Path of the media index file under the storage root.
pub fn media_index_path(root: &str) -> (r: String)
    ensures
        r@ == root@ + "/media_files.json"@,
{
    let mut r = root.to_owned();
    r.append("/media_files.json");
    r
}

/// Path of the directory holding one media file and its metadata.
pub fn media_dir_path(root: &str, id: &str) -> (r: String)
    ensures
        r@ == root@ + "/media_files/"@ + id@,
{
    let mut r = root.to_owned();
    r.append("/media_files/");
    r.append(id);
    r
}

/// Path under which the uploaded file itself is stored.
pub fn media_file_path(root: &str, id: &str, filename: &str) -> (r: String)
    ensures
        r@ == root@ + "/media_files/"@ + id@ + "/"@ + filename@,
{
    let mut r = media_dir_path(root, id);
    r.append("/");
    r.append(filename);
    r
}

/// Path of the metadata file kept beside one stored media file.
pub fn metadata_file_path(root: &str, id: &str) -> (r: String)
    ensures
        r@ == root@ + "/media_files/"@ + id@ + "/metadata.json"@,
{
    let mut r = media_dir_path(root, id);
    r.append("/metadata.json");
    r
}

} // verus!
