//! The template collaborator: a `tera::Tera` value rendering the listing
//! and error templates, and the response built from a rendering outcome.
//!
//! What a template produces depends on the template files loaded into the
//! `Tera` value, so nothing is promised of the rendered text itself; the
//! response construction around it is exact.

use vstd::prelude::*;
use vstd::string::StringExecFns;
use crate::response::Body;
use crate::response::Response;
use crate::response::STATUS_INTERNAL_SERVER_ERROR;

verus! {

/// The template engine, carried opaquely: it is built once at startup and
/// only read afterwards.
#[verifier::external_type_specification]
#[verifier::external_body]
pub struct ExTera(tera::Tera);

/// Render the directory-listing template for the given decoded path and
/// entry names.
///
/// Relies on `tera::Tera::render` with the template `listing.html` and a
/// context holding the path under `uri_path` and the names under
/// `entries`. The outcome depends on the loaded templates, so nothing is
/// promised of it; the caller handles both cases.
#[verifier::external_body]
pub(crate) fn render_listing_template(
    tera: &tera::Tera,
    uri_path: &str,
    entries: &Vec<String>,
) -> Result<String, String> {
    let mut context = tera::Context::new();
    context.insert("uri_path", uri_path);
    context.insert("entries", entries);
    match tera.render("listing.html", &context) {
        Ok(body) => Ok(body),
        Err(error) => Err(format!("{}", error)),
    }
}

/// Render the error-page template for the given status code and message.
///
/// Relies on `tera::Tera::render` with the template `error.html` and a
/// context holding the code under `error_code` and the message under
/// `message`. As above, nothing is promised of the outcome.
#[verifier::external_body]
pub(crate) fn render_error_template(
    tera: &tera::Tera,
    error_code: &str,
    message: &str,
) -> Result<String, String> {
    let mut context = tera::Context::new();
    context.insert("error_code", error_code);
    context.insert("message", message);
    match tera.render("error.html", &context) {
        Ok(body) => Ok(body),
        Err(error) => Err(format!("{}", error)),
    }
}

/// Build the response for a rendering outcome: the rendered document under
/// the given status on success, and an internal-error response carrying
/// the rendering error as plain text on failure. A malformed template must
/// never end the request, let alone the server.
pub fn template_response(rendered: Result<String, String>, ok_status: u16) -> (resp: Response)
    ensures
        resp.location is None,
        match rendered {
            Ok(document) => resp.status == ok_status && (resp.body matches Body::Text(t) && t@
                == document@),
            Err(e) => resp.status == STATUS_INTERNAL_SERVER_ERROR && (resp.body matches Body::Text(
                t,
            ) && t@ == "Templating error: "@ + e@),
        },
{
    match rendered {
        Ok(document) => Response { status: ok_status, location: None, body: Body::Text(document) },
        Err(e) => {
            let mut message = String::from_str("Templating error: ");
            message.append(e.as_str());
            Response {
                status: STATUS_INTERNAL_SERVER_ERROR,
                location: None,
                body: Body::Text(message),
            }
        },
    }
}

} // verus!
