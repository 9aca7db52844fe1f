use todoproxy::errors::{
    report_auth_err, report_habitica_err, report_internal_serde_error, report_pool_err,
    report_postgres_err, report_serde_error, AppError, AuthError, HabiticaError,
};

fn postgres_error() -> tokio_postgres::Error {
    match "port=notanumber".parse::<tokio_postgres::Config>() {
        Ok(_) => panic!("the configuration should not parse"),
        Err(e) => e,
    }
}

fn json_error() -> serde_json::Error {
    match serde_json::from_str::<u32>("{") {
        Ok(_) => panic!("the text should not decode"),
        Err(e) => e,
    }
}

#[test]
fn status_codes() {
    assert_eq!(AppError::DecodeError.status_code(), 502);
    assert_eq!(AppError::InternalServerError.status_code(), 500);
    assert_eq!(AppError::Unauthorized.status_code(), 401);
    assert_eq!(AppError::BadRequest.status_code(), 400);
    assert_eq!(AppError::NotFound.status_code(), 404);
    assert_eq!(AppError::IntegrationNotFound.status_code(), 400);
    assert_eq!(AppError::Unknown.status_code(), 500);
}

#[test]
fn error_text_is_the_variant_name() {
    assert_eq!(AppError::DecodeError.to_string(), "DecodeError");
    assert_eq!(AppError::InternalServerError.to_string(), "InternalServerError");
    assert_eq!(AppError::Unauthorized.to_string(), "Unauthorized");
    assert_eq!(AppError::BadRequest.to_string(), "BadRequest");
    assert_eq!(AppError::NotFound.to_string(), "NotFound");
    assert_eq!(AppError::IntegrationNotFound.to_string(), "IntegrationNotFound");
    assert_eq!(AppError::Unknown.to_string(), "Unknown");
}

#[test]
fn store_failures_are_internal() {
    assert_eq!(report_postgres_err(postgres_error()), AppError::InternalServerError);
    assert_eq!(report_pool_err(deadpool_postgres::PoolError::Closed), AppError::InternalServerError);
    assert_eq!(
        report_pool_err(deadpool_postgres::PoolError::Backend(postgres_error())),
        AppError::InternalServerError
    );
}

#[test]
fn decode_failures() {
    assert_eq!(report_internal_serde_error(json_error()), AppError::InternalServerError);
    assert_eq!(report_serde_error(json_error()), AppError::DecodeError);
}

#[test]
fn habitica_failures_are_internal() {
    let e = HabiticaError { message: "connection refused".to_string() };
    assert_eq!(report_habitica_err(e), AppError::InternalServerError);
}

#[test]
fn auth_failures() {
    assert_eq!(report_auth_err(AuthError::ApiKeyNonexistent), AppError::Unauthorized);
    assert_eq!(report_auth_err(AuthError::ApiKeyUnauthorized), AppError::Unauthorized);
    assert_eq!(report_auth_err(AuthError::InternalServerError), AppError::InternalServerError);
    assert_eq!(report_auth_err(AuthError::MethodNotAllowed), AppError::InternalServerError);
    assert_eq!(report_auth_err(AuthError::BadRequest), AppError::InternalServerError);
    assert_eq!(report_auth_err(AuthError::Network), AppError::InternalServerError);
    assert_eq!(report_auth_err(AuthError::Other), AppError::Unknown);
}
