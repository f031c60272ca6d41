//! The last stage on the way out: every failure leaves the service in one
//! and the same form, and every request leaves a line in the log.

use crate::ctx::Ctx;
use crate::error::{ClientError, Error};
use crate::log::{log_request, RequestLogLine};
use vstd::prelude::*;

verus! {

/// The body of a failed request's response. It has one member, `error`,
/// and nothing else.
#[derive(Debug)]
pub struct ClientErrorBody {
    pub error: ClientErrorDetail,
}

/// What a client is told of a failure: its category, and the id under
/// which the server's log has the rest.
#[derive(Debug)]
pub struct ClientErrorDetail {
    /// The tag of the failure's category; `type` on the wire.
    pub error_type: &'static str,
    pub req_uuid: String,
}

/// The response that takes the place of a failed request's own.
#[derive(Debug)]
pub struct ErrorResponse {
    /// The HTTP status.
    pub status: u16,
    pub body: ClientErrorBody,
}

/// What leaves the service in answer to a request.
#[derive(Debug)]
pub enum MappedResponse<R> {
    /// The response as the handler made it.
    Unchanged(R),
    /// The uniform response of a failure; the handler's own is dropped.
    Replaced(ErrorResponse),
}

/// What a client is told of a failure: its category, or nothing where
/// nothing failed.
pub open spec fn client_error_of(service_error: Option<Error>) -> Option<ClientError> {
    match service_error {
        Some(e) => Some(e.client_error()),
        None => None,
    }
}

impl<R> MappedResponse<R> {
    /// Whether this is the answer to a request that ended with
    /// `service_error`, where `res` is the handler's response and
    /// `req_uuid` the id of the request: the handler's response where
    /// nothing failed, and else the failure's status, the tag of its
    /// category and the id, with nothing of the handler's response.
    pub open spec fn answers(self, req_uuid: Seq<char>, service_error: Option<Error>, res: R)
        -> bool {
        match service_error {
            None => self == MappedResponse::Unchanged(res),
            Some(e) => self matches MappedResponse::Replaced(r) && r.status == e.status()
                && r.body.error.error_type@ == e.client_error().tag() && r.body.error.req_uuid@
                == req_uuid,
        }
    }
}

/// Whether `c` is a digit of a number written to the base 16 in lower case.
pub open spec fn is_lower_hex_digit(c: char) -> bool {
    ('0' <= c && c <= '9') || ('a' <= c && c <= 'f')
}

/// Whether `s` is the text of a random (version 4) UUID: 32 lower-case
/// hexadecimal digits in groups of 8, 4, 4, 4 and 12 with a hyphen between
/// two groups, the third group starting with `4` and the fourth with one
/// of `8`, `9`, `a`, `b`.
pub open spec fn is_req_uuid(s: Seq<char>) -> bool {
    &&& s.len() == 36
    &&& forall|i: int|
        0 <= i < 36 ==> if i == 8 || i == 13 || i == 18 || i == 23 {
            #[trigger] s[i] == '-'
        } else {
            is_lower_hex_digit(s[i])
        }
    &&& s[14] == '4'
    &&& (s[19] == '8' || s[19] == '9' || s[19] == 'a' || s[19] == 'b')
}

/// A fresh id for one request, from `uuid::Uuid::new_v4` and written out
/// as the `uuid` crate's `Display` writes it.
///
/// Not proved, but taken from that crate: `new_v4` sets the version to 4
/// and the variant to the one of RFC 4122 in 128 random bits, and `Display`
/// writes a UUID in lower case with hyphens. Nothing is claimed of the
/// random digits; in particular, that two ids differ is likely and not
/// certain. `new_v4` panics where the system cannot supply random bytes.
#[verifier::external_body]
fn new_req_uuid() -> (s: String)
    ensures
        is_req_uuid(s@),
{
    uuid::Uuid::new_v4().to_string()
}

/// Finishes a request whose id is `req_uuid`: the line for the log, and
/// the response for the client.
///
/// The log line is written for every request. The response is the
/// handler's own, untouched, unless the request ended with a failure; then
/// it is replaced as a whole.
pub fn map_response<R>(
    req_uuid: &str,
    ctx: Option<Ctx>,
    uri: &str,
    req_method: &str,
    service_error: Option<Error>,
    res: R,
) -> (out: (MappedResponse<R>, RequestLogLine))
    ensures
        out.0.answers(req_uuid@, service_error, res),
        out.1.records(
            req_uuid@,
            req_method@,
            uri@,
            ctx,
            service_error,
            client_error_of(service_error),
        ),
{
    let client_error = match service_error {
        Some(err) => Some(err.client_status_and_error().1),
        None => None,
    };
    let line = log_request(req_uuid, req_method, uri, ctx, service_error, client_error);
    match service_error {
        Some(err) => {
            let (status, client_error) = err.client_status_and_error();
            let body = ClientErrorBody {
                error: ClientErrorDetail {
                    error_type: client_error.as_str(),
                    req_uuid: req_uuid.to_owned(),
                },
            };
            (MappedResponse::Replaced(ErrorResponse { status, body }), line)
        },
        None => (MappedResponse::Unchanged(res), line),
    }
}

/// Finishes a request under a fresh id: the line for the log, and the
/// response for the client. The id is in the log line, and in the response
/// where the request failed; apart from the id, both are what
/// [`map_response`] makes of the request.
pub fn main_response_mapper<R>(
    ctx: Option<Ctx>,
    uri: &str,
    req_method: &str,
    service_error: Option<Error>,
    res: R,
) -> (out: (MappedResponse<R>, RequestLogLine))
    ensures
        is_req_uuid(out.1.uuid@),
        out.0.answers(out.1.uuid@, service_error, res),
        out.1.records(
            out.1.uuid@,
            req_method@,
            uri@,
            ctx,
            service_error,
            client_error_of(service_error),
        ),
{
    let uuid = new_req_uuid();
    map_response(uuid.as_str(), ctx, uri, req_method, service_error, res)
}

} // verus!
