use ticket_service::error::{
    ClientError, Error, STATUS_BAD_REQUEST, STATUS_INTERNAL_SERVER_ERROR, STATUS_UNAUTHORIZED,
};

#[test]
fn status_constants() {
    assert_eq!(STATUS_BAD_REQUEST, 400);
    assert_eq!(STATUS_UNAUTHORIZED, 401);
    assert_eq!(STATUS_INTERNAL_SERVER_ERROR, 500);
}

#[test]
fn missing_ticket_maps_to_400_invalid_params() {
    let e = Error::TicketDeleteFailIdNotFound { id: 17 };
    assert_eq!(e.client_status_and_error(), (400, ClientError::InvalidParams));
}

#[test]
fn missing_ticket_id_does_not_reach_the_client() {
    let a = Error::TicketDeleteFailIdNotFound { id: 0 }.client_status_and_error();
    let b = Error::TicketDeleteFailIdNotFound { id: u64::MAX }.client_status_and_error();
    assert_eq!(a, b);
}

#[test]
fn login_fail_maps_to_401_login_fail() {
    assert_eq!(Error::LoginFail.client_status_and_error(), (401, ClientError::LoginFail));
}

#[test]
fn auth_failures_map_to_401_no_auth() {
    for e in [
        Error::AuthFailNoAuthTokenCookie,
        Error::AuthFailTokenWrongFormat,
        Error::AuthFailCtxNotInRequestExt,
    ] {
        assert_eq!(e.client_status_and_error(), (401, ClientError::NoAuth));
    }
}

#[test]
fn internal_fault_maps_to_500_service_error() {
    assert_eq!(Error::InternalFault.client_status_and_error(), (500, ClientError::ServiceError));
}

#[test]
fn client_error_tags() {
    assert_eq!(ClientError::LoginFail.as_str(), "LOGIN_FAIL");
    assert_eq!(ClientError::NoAuth.as_str(), "NO_AUTH");
    assert_eq!(ClientError::InvalidParams.as_str(), "INVALID_PARAMS");
    assert_eq!(ClientError::ServiceError.as_str(), "SERVICE_ERROR");
}

#[test]
fn client_error_tags_are_distinct() {
    let tags = [
        ClientError::LoginFail.as_str(),
        ClientError::NoAuth.as_str(),
        ClientError::InvalidParams.as_str(),
        ClientError::ServiceError.as_str(),
    ];
    for i in 0..tags.len() {
        for j in 0..tags.len() {
            assert_eq!(tags[i] == tags[j], i == j);
        }
    }
}
