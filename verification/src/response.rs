//! The response value handed back for every request, and the builders for
//! file contents and redirects.

use vstd::prelude::*;
use vstd::string::StringExecFns;

verus! {

/// HTTP status for a successful response.
pub const STATUS_OK: u16 = 200;

/// HTTP status for a permanent redirect.
pub const STATUS_MOVED_PERMANENTLY: u16 = 301;

/// HTTP status for a directory that cannot be enumerated.
pub const STATUS_FORBIDDEN: u16 = 403;

/// HTTP status for a missing path.
pub const STATUS_NOT_FOUND: u16 = 404;

/// HTTP status for a template that fails to render.
pub const STATUS_INTERNAL_SERVER_ERROR: u16 = 500;

/// A response body: empty (redirects), text (listings and error pages),
/// or raw bytes (file contents).
#[derive(Debug)]
pub enum Body {
    Empty,
    Text(String),
    Bytes(Vec<u8>),
}

/// A response: status code, optional `Location` header, and body.
#[derive(Debug)]
pub struct Response {
    pub status: u16,
    pub location: Option<String>,
    pub body: Body,
}

/// The plain-text body used when a filesystem read fails after the probe
/// said it would succeed: the word `Error`, a colon, and the message.
pub(crate) fn error_text(message: &str) -> (t: String)
    ensures
        t@ == "Error: "@ + message@,
{
    let mut t = String::from_str("Error: ");
    t.append(message);
    t
}

/// Build the response for a resolved file, from the result of reading its
/// full contents.
///
/// On success the body is the file's bytes, exactly. When the read fails
/// even though the probe classified the location as a file (the file went
/// away or became unreadable in between), the error message is returned as
/// a plain-text body — still under the success status, faithfully to the
/// served behavior.
pub fn read_file(contents: Result<Vec<u8>, String>) -> (resp: Response)
    ensures
        resp.status == STATUS_OK,
        resp.location is None,
        match contents {
            Ok(bytes) => resp.body matches Body::Bytes(b) && b@ == bytes@,
            Err(e) => resp.body matches Body::Text(t) && t@ == "Error: "@ + e@,
        },
{
    match contents {
        Ok(bytes) => Response { status: STATUS_OK, location: None, body: Body::Bytes(bytes) },
        Err(e) => Response {
            status: STATUS_OK,
            location: None,
            body: Body::Text(error_text(e.as_str())),
        },
    }
}

/// Build the permanent redirect for a directory path that lacks its
/// trailing separator: same path with the separator appended, empty body.
pub fn redirect_response(decoded: &str) -> (resp: Response)
    ensures
        resp.status == STATUS_MOVED_PERMANENTLY,
        resp.location matches Some(loc) && loc@ == decoded@.push('/'),
        resp.body is Empty,
{
    let mut loc = String::from_str(decoded);
    loc.append("/");
    proof {
        reveal_strlit("/");
        assert(loc@ =~= decoded@.push('/'));
    }
    Response { status: STATUS_MOVED_PERMANENTLY, location: Some(loc), body: Body::Empty }
}

} // verus!
