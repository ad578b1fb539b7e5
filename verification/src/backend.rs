//! The REST backend's own values: the response envelope every route returns
//! and the server settings drawn from the environment.

use vstd::prelude::*;
use vstd::string::StringExecFns;

use crate::text::parse_u16;
use crate::text::spec_parse_u16;
use crate::text::str_equal;

verus! {

/// The envelope every route answers with: a success flag, a human-readable
/// message and the payload.
pub struct ServerResponse<T> {
    pub status: bool,
    pub message: String,
    pub data: T,
}

impl<T> ServerResponse<T> {
    /// Packs the three parts of a response, changing none of them.
    pub fn new(status: bool, message: String, data: T) -> (r: ServerResponse<T>)
        ensures
            r.status == status,
            r.message == message,
            r.data == data,
    {
        ServerResponse { status, message, data }
    }
}

/// The check the upload route makes on a multipart part: the part must carry
/// a file name and must arrive under the field name `media_file`; the file
/// name is what is kept.
pub fn accept_upload_field(file_name: Option<String>, field_name: Option<String>) -> (r: Option<
    String,
>)
    ensures
        r == match (file_name, field_name) {
            (Some(f), Some(n)) => if n@ == "media_file"@ {
                Some(f)
            } else {
                None::<String>
            },
            _ => None::<String>,
        },
{
    match (file_name, field_name) {
        (Some(f), Some(n)) => if str_equal(n.as_str(), "media_file") {
            Some(f)
        } else {
            None
        },
        _ => None,
    }
}

/// The server's settings: where media is stored and which port it listens on.
#[derive(Clone, Debug)]
pub struct ServerEnvVars {
    pub media_storage_path: String,
    pub port: u16,
}

impl ServerEnvVars {
    /// Settles the settings from the raw environment values `MEDIA_STORAGE_PATH`
    /// and `PORT`: a missing path falls back to `./media_files`, and a missing
    /// or unparsable port falls back to 3000.
    pub fn build(media_storage_path: Option<String>, port: Option<String>) -> (r: ServerEnvVars)
        ensures
            r.media_storage_path@ == match media_storage_path {
                Some(p) => p@,
                None => "./media_files"@,
            },
            r.port == match port {
                Some(t) => match spec_parse_u16(t@) {
                    Some(n) => n,
                    None => 3000u16,
                },
                None => 3000u16,
            },
    {
        let path = match media_storage_path {
            Some(p) => p,
            None => String::from_str("./media_files"),
        };
        let port_num: u16 = match port {
            Some(t) => match parse_u16(t.as_str()) {
                Some(n) => n,
                None => 3000,
            },
            None => 3000,
        };
        ServerEnvVars { media_storage_path: path, port: port_num }
    }
}

} // verus!
