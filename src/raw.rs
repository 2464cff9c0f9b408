use vstd::prelude::*;
use crate::cli::RawReq;
use crate::client::{check_response, is_error_status, opt_view, ESSClient, EssError, HttpMethod, HttpRequest};
use crate::config::DeploymentSpecificConfig;

verus! {

/// The request of a raw passthrough: `path` resolved against the endpoint's
/// URL, bypassing the typed schemas.
pub fn handle_raw_request(cfg: &DeploymentSpecificConfig, raw: &RawReq, client: &ESSClient) -> (r: Result<
    HttpRequest,
    EssError,
>)
    ensures
        match raw {
            RawReq::Get { path } => client.is_request_for(r, HttpMethod::Get, cfg.url@, path@, None),
            RawReq::Post { path, body } => client.is_request_for(
                r,
                HttpMethod::Post,
                cfg.url@,
                path@,
                opt_view(*body),
            ),
        },
{
    match raw {
        RawReq::Get { path } => client.get(cfg.url.as_str(), path.as_str()),
        RawReq::Post { path, body } => {
            let body = match body {
                Some(b) => Some(b.clone()),
                None => None,
            };
            client.post(cfg.url.as_str(), path.as_str(), body)
        },
    }
}

/// What pretty-printing the JSON text `s` gives: the re-indented text, or
/// the printer's error message.
pub uninterp spec fn pretty_json(s: Seq<char>) -> Result<Seq<char>, Seq<char>>;

/// Relies on jsonxf::pretty_print, which re-indents JSON text (two spaces per
/// level, a line feed after each member, no trailing newline) or returns the
/// message of an error met on the way; the result depends on the text alone.
#[verifier::external_body]
fn pretty_print(json: &str) -> (r: Result<String, String>)
    ensures
        match r {
            Ok(p) => pretty_json(json@) == Ok::<Seq<char>, Seq<char>>(p@),
            Err(m) => pretty_json(json@) == Err::<Seq<char>, Seq<char>>(m@),
        },
{
    jsonxf::pretty_print(json)
}

/// The output of a raw request from the pretty-printer's result: the
/// indented text, or a schema error that carries the printer's reason.
pub fn raw_output(pretty: Result<String, String>) -> (r: Result<String, EssError>)
    ensures
        match pretty {
            Ok(p) => r == Ok::<String, EssError>(p),
            Err(m) => r == Err::<String, EssError>(EssError::Schema { message: m }),
        },
{
    match pretty {
        Ok(p) => Ok(p),
        Err(m) => Err(EssError::Schema { message: m }),
    }
}

/// The printed output of a raw request from the response's status and body:
/// an error status fails as any request does, and a body the printer fails
/// on is a schema error.
pub fn format_raw_response(status: u16, body: String) -> (r: Result<String, EssError>)
    ensures
        is_error_status(status) ==> r == Err::<String, EssError>(EssError::Http { status }),
        !is_error_status(status) ==> match pretty_json(body@) {
            Ok(p) => r matches Ok(s) && s@ == p,
            Err(m) => r matches Err(EssError::Schema { message }) && message@ == m,
        },
{
    let body = check_response(status, body)?;
    raw_output(pretty_print(body.as_str()))
}

} // verus!
