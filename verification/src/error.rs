//! The failure taxonomy: what can go wrong inside the service, and the
//! sanitized category and HTTP status that a client gets to see of it.

use vstd::prelude::*;

verus! {

/// HTTP status of a request that names something which does not exist.
pub const STATUS_BAD_REQUEST: u16 = 400;

/// HTTP status of a request without a valid identity.
pub const STATUS_UNAUTHORIZED: u16 = 401;

/// HTTP status of a fault that the service cannot classify.
pub const STATUS_INTERNAL_SERVER_ERROR: u16 = 500;

/// A failure, with all the detail the server knows of it.
///
/// This value is for the server's log; a client only ever sees its
/// [`ClientError`].
#[derive(Clone, Copy, Debug, PartialEq, Eq, Structural)]
pub enum Error {
    /// The credential check of a login failed.
    LoginFail,
    /// The request carried no credential cookie.
    AuthFailNoAuthTokenCookie,
    /// The request carried a credential that is malformed or cannot be verified.
    AuthFailTokenWrongFormat,
    /// No outcome of the context resolution was attached to the request.
    AuthFailCtxNotInRequestExt,
    /// A ticket was to be deleted that is not in the store.
    TicketDeleteFailIdNotFound { id: u64 },
    /// A fault that fits none of the kinds above.
    InternalFault,
}

/// The category of a failure that is safe to show to a client.
#[derive(Clone, Copy, Debug, PartialEq, Eq, Structural)]
pub enum ClientError {
    LoginFail,
    NoAuth,
    InvalidParams,
    ServiceError,
}

impl ClientError {
    /// The tag that stands for this category in a response body.
    pub open spec fn tag(self) -> Seq<char> {
        match self {
            ClientError::LoginFail => "LOGIN_FAIL"@,
            ClientError::NoAuth => "NO_AUTH"@,
            ClientError::InvalidParams => "INVALID_PARAMS"@,
            ClientError::ServiceError => "SERVICE_ERROR"@,
        }
    }

    /// The tag of this category, as text.
    pub fn as_str(&self) -> (s: &'static str)
        ensures
            s@ == self.tag(),
    {
        match self {
            ClientError::LoginFail => "LOGIN_FAIL",
            ClientError::NoAuth => "NO_AUTH",
            ClientError::InvalidParams => "INVALID_PARAMS",
            ClientError::ServiceError => "SERVICE_ERROR",
        }
    }

    /// Two categories with the same tag are the same category: a client can
    /// tell the categories apart by the tag alone.
    pub proof fn lemma_tag_injective(a: ClientError, b: ClientError)
        requires
            a.tag() == b.tag(),
        ensures
            a == b,
    {
        reveal_strlit("LOGIN_FAIL");
        reveal_strlit("NO_AUTH");
        reveal_strlit("INVALID_PARAMS");
        reveal_strlit("SERVICE_ERROR");
        assert("LOGIN_FAIL"@.len() == 10);
        assert("NO_AUTH"@.len() == 7);
        assert("INVALID_PARAMS"@.len() == 14);
        assert("SERVICE_ERROR"@.len() == 13);
    }
}

impl Error {
    /// Whether this failure says that the request has no valid identity.
    pub open spec fn is_auth_failure(self) -> bool {
        self == Error::AuthFailNoAuthTokenCookie || self == Error::AuthFailTokenWrongFormat
            || self == Error::AuthFailCtxNotInRequestExt
    }

    /// The HTTP status that answers a request which failed this way.
    pub open spec fn status(self) -> u16 {
        match self {
            Error::TicketDeleteFailIdNotFound { .. } => STATUS_BAD_REQUEST,
            Error::LoginFail
            | Error::AuthFailNoAuthTokenCookie
            | Error::AuthFailTokenWrongFormat
            | Error::AuthFailCtxNotInRequestExt => STATUS_UNAUTHORIZED,
            Error::InternalFault => STATUS_INTERNAL_SERVER_ERROR,
        }
    }

    /// The category under which a client learns of this failure.
    pub open spec fn client_error(self) -> ClientError {
        match self {
            Error::TicketDeleteFailIdNotFound { .. } => ClientError::InvalidParams,
            Error::LoginFail => ClientError::LoginFail,
            Error::AuthFailNoAuthTokenCookie
            | Error::AuthFailTokenWrongFormat
            | Error::AuthFailCtxNotInRequestExt => ClientError::NoAuth,
            Error::InternalFault => ClientError::ServiceError,
        }
    }

    /// The HTTP status and the client-facing category of this failure.
    pub fn client_status_and_error(&self) -> (res: (u16, ClientError))
        ensures
            res.0 == self.status(),
            res.1 == self.client_error(),
    {
        match self {
            Error::LoginFail => (STATUS_UNAUTHORIZED, ClientError::LoginFail),
            Error::AuthFailNoAuthTokenCookie
            | Error::AuthFailTokenWrongFormat
            | Error::AuthFailCtxNotInRequestExt => (STATUS_UNAUTHORIZED, ClientError::NoAuth),
            Error::TicketDeleteFailIdNotFound { .. } => (
                STATUS_BAD_REQUEST,
                ClientError::InvalidParams,
            ),
            Error::InternalFault => (STATUS_INTERNAL_SERVER_ERROR, ClientError::ServiceError),
        }
    }

    /// What a client sees of a missing ticket does not depend on which
    /// ticket was missing: the id stays on the server.
    pub proof fn lemma_ticket_id_not_exposed(id_a: u64, id_b: u64)
        ensures
            (Error::TicketDeleteFailIdNotFound { id: id_a }).status() == (
            Error::TicketDeleteFailIdNotFound { id: id_b }).status(),
            (Error::TicketDeleteFailIdNotFound { id: id_a }).client_error() == (
            Error::TicketDeleteFailIdNotFound { id: id_b }).client_error(),
    {
    }

    /// The three ways in which a request can lack an identity look the same
    /// to a client: status 401 and the category `NoAuth`.
    pub proof fn lemma_auth_failures_look_alike(e: Error)
        requires
            e.is_auth_failure(),
        ensures
            e.status() == STATUS_UNAUTHORIZED,
            e.client_error() == ClientError::NoAuth,
    {
    }
}

} // verus!
