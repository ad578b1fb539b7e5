//! Command-line level configuration: where the media comes from and how the
//! playback URI is formed from it, plus classification of raw media cap names.

use vstd::prelude::*;
use vstd::string::StringExecFns;

use crate::text::spec_has_prefix;
use crate::text::str_has_prefix;

verus! {

/// Where the media to play originates.
pub enum OriginType {
    /// The media is a local file.
    File,
    /// The media is an HTTP stream.
    Http,
}

/// The playback request: a URI together with its origin.
pub struct Args {
    /// The URI of the media to play.
    pub uri: String,
    /// The origin of the media to play.
    pub origin: OriginType,
}

impl Args {
    /// The URI handed to the playback pipeline: a local file gets the
    /// `file://` scheme prefixed, an HTTP stream is passed through unchanged.
    pub fn formatted_uri(&self) -> (r: String)
        ensures
            r@ == match self.origin {
                OriginType::File => "file://"@ + self.uri@,
                OriginType::Http => self.uri@,
            },
    {
        match self.origin {
            OriginType::File => {
                let mut r = String::from_str("file://");
                r.append(self.uri.as_str());
                r
            },
            OriginType::Http => self.uri.clone(),
        }
    }
}

/// What kind of stream a raw cap name announces.
#[derive(Debug, PartialEq, Eq, Structural)]
pub enum CapType {
    Audio,
    Video,
    Other,
}

/// Classification of a cap name by its `audio/x-raw` or `video/x-raw` prefix.
pub open spec fn spec_cap_type(name: Seq<char>) -> CapType {
    if spec_has_prefix(name, "audio/x-raw"@) {
        CapType::Audio
    } else if spec_has_prefix(name, "video/x-raw"@) {
        CapType::Video
    } else {
        CapType::Other
    }
}

impl CapType {
    /// Classifies a pad's cap name: raw audio, raw video, or anything else.
    pub fn from_str(cap_name: &str) -> (r: CapType)
        ensures
            r == spec_cap_type(cap_name@),
    {
        if str_has_prefix(cap_name, "audio/x-raw") {
            CapType::Audio
        } else if str_has_prefix(cap_name, "video/x-raw") {
            CapType::Video
        } else {
            CapType::Other
        }
    }
}

} // verus!
