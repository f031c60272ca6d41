//! The record that is written to the server's log for every request.

use crate::ctx::Ctx;
use crate::error::{ClientError, Error};
use vstd::prelude::*;

verus! {

/// One line of the server's log: what was asked, by whom, and how it failed
/// if it did.
#[derive(Debug)]
pub struct RequestLogLine {
    /// The id that ties this line to the response of the same request.
    pub uuid: String,
    pub req_path: String,
    pub req_method: String,
    /// The caller, where the request had a valid identity.
    pub user_id: Option<u64>,
    /// What the client was told of the failure.
    pub client_error_type: Option<ClientError>,
    /// The failure with all its detail, which the client was not told.
    pub error: Option<Error>,
}

/// The user id of the caller, where there is one.
pub open spec fn user_id_of(ctx: Option<Ctx>) -> Option<u64> {
    match ctx {
        Some(c) => Some(c.user_id()),
        None => None,
    }
}

impl RequestLogLine {
    /// Whether this line records exactly the given request and outcome.
    pub open spec fn records(
        self,
        uuid: Seq<char>,
        req_method: Seq<char>,
        uri: Seq<char>,
        ctx: Option<Ctx>,
        service_error: Option<Error>,
        client_error: Option<ClientError>,
    ) -> bool {
        &&& self.uuid@ == uuid
        &&& self.req_method@ == req_method
        &&& self.req_path@ == uri
        &&& self.user_id == user_id_of(ctx)
        &&& self.error == service_error
        &&& self.client_error_type == client_error
    }
}

/// The log line of one request. The failure goes into it as it is, with the
/// detail that the response leaves out.
pub fn log_request(
    uuid: &str,
    req_method: &str,
    uri: &str,
    ctx: Option<Ctx>,
    service_error: Option<Error>,
    client_error: Option<ClientError>,
) -> (line: RequestLogLine)
    ensures
        line.records(uuid@, req_method@, uri@, ctx, service_error, client_error),
{
    let user_id = match ctx {
        Some(c) => Some(c.user_id()),
        None => None,
    };
    RequestLogLine {
        uuid: uuid.to_owned(),
        req_path: uri.to_owned(),
        req_method: req_method.to_owned(),
        user_id,
        client_error_type: client_error,
        error: service_error,
    }
}

} // verus!
