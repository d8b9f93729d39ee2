use jwt_guard::error::{BizKind, Kind, ServiceError};
use jwt_guard::records::{page_offset, require_rows};
use jwt_guard::response::translate;
use jwt_guard::upload::upload_path;

#[test]
fn data_not_found_translates_to_404() {
    let err = ServiceError::build()
        .belong(Kind::BizError(BizKind::DataNotFound))
        .done();
    let (status, _) = translate(&err);
    assert_eq!(status, 404);
}

#[test]
fn infra_error_without_sub_kind_translates_to_503() {
    let err = ServiceError::build().belong(Kind::InfraError).done();
    let (status, _) = translate(&err);
    assert_eq!(status, 503);
}

#[test]
fn token_invalid_translates_to_401() {
    let err = ServiceError::build()
        .belong(Kind::BizError(BizKind::TokenInvalid))
        .done();
    assert_eq!(translate(&err).0, 401);
}

#[test]
fn claims_not_found_translates_to_401() {
    let err = ServiceError::build()
        .belong(Kind::BizError(BizKind::ClaimsNotFound))
        .done();
    assert_eq!(translate(&err).0, 401);
}

#[test]
fn credential_malformed_takes_business_default_400() {
    let err = ServiceError::build()
        .belong(Kind::BizError(BizKind::CredentialMalformed))
        .done();
    assert_eq!(translate(&err).0, 400);
}

#[test]
fn server_error_translates_to_500() {
    let err = ServiceError::build().belong(Kind::ServerError).done();
    assert_eq!(translate(&err).0, 500);
}

#[test]
fn body_carries_message_never_cause() {
    let cause = ServiceError::build()
        .belong(Kind::ServerError)
        .message("connection refused by peer")
        .done();
    let err = ServiceError::build()
        .belong(Kind::BizError(BizKind::DataNotFound))
        .message("There is no health record")
        .because(cause)
        .done();
    let (status, body) = translate(&err);
    assert_eq!(status, 404);
    assert_eq!(body, "{\"message\":\"There is no health record\"}");
    assert!(!body.contains("connection refused"));
    let kept = err.cause().unwrap();
    assert_eq!(kept.kind(), Kind::ServerError);
    assert_eq!(kept.message(), "connection refused by peer");
}

#[test]
fn builder_accumulates_fields() {
    let err = ServiceError::build()
        .belong(Kind::BizError(BizKind::DataNotFound))
        .message("nothing here")
        .done();
    assert_eq!(err.kind(), Kind::BizError(BizKind::DataNotFound));
    assert_eq!(err.message(), "nothing here");
    assert!(err.cause().is_none());
}

#[test]
fn empty_result_set_is_data_not_found() {
    let err = require_rows(0, "There is no health record").unwrap_err();
    assert_eq!(err.kind(), Kind::BizError(BizKind::DataNotFound));
    assert_eq!(err.message(), "There is no health record");
    assert_eq!(translate(&err).0, 404);
}

#[test]
fn non_empty_result_set_passes() {
    assert!(require_rows(3, "There is no health record").is_ok());
}

#[test]
fn page_offset_multiplies() {
    assert_eq!(page_offset(3, 10), Some(30));
    assert_eq!(page_offset(0, 25), Some(0));
}

#[test]
fn page_offset_refuses_overflow() {
    assert_eq!(page_offset(i64::MAX, 2), None);
}

#[test]
fn upload_path_joins_sanitized_name() {
    assert_eq!(upload_path("/var/static", "avatar.png"), "/var/static/avatar.png");
    assert_eq!(upload_path("/var/static", "a/b.png"), "/var/static/ab.png");
}
