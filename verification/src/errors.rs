//! The failures that the service reports, and how the failures of its
//! collaborators are mapped onto them.

use vstd::prelude::*;

verus! {

/// A failure as the service reports it to a client.
#[derive(Clone, Copy, Debug, PartialEq, Eq, Structural)]
pub enum AppError {
    DecodeError,
    InternalServerError,
    Unauthorized,
    BadRequest,
    NotFound,
    IntegrationNotFound,
    Unknown,
}

/// Why the authentication service did not resolve an API key. `Other` stands
/// for every failure that the mapping below does not tell apart.
#[derive(Clone, Copy, Debug, PartialEq, Eq, Structural)]
pub enum AuthError {
    ApiKeyNonexistent,
    ApiKeyUnauthorized,
    InternalServerError,
    MethodNotAllowed,
    BadRequest,
    Network,
    Other,
}

/// A failure of the habit-tracker client, with the text it reported.
#[derive(Debug, PartialEq, Eq)]
pub struct HabiticaError {
    pub message: String,
}

/// `tokio_postgres::Error`, the failure of a call to the relational store.
/// Nothing is claimed of what it holds: it is only told apart from success.
#[verifier::external_type_specification]
#[verifier::external_body]
pub struct ExPostgresError(tokio_postgres::Error);

/// `serde_json::Error`, the failure to decode or encode JSON. Nothing is
/// claimed of what it holds.
#[verifier::external_type_specification]
#[verifier::external_body]
pub struct ExSerdeJsonError(serde_json::Error);

/// `deadpool::managed::PoolError`, the failure to obtain a connection from a
/// pool whose backend fails with `E`. Nothing is claimed of what it holds.
#[verifier::external_type_specification]
#[verifier::external_body]
#[verifier::reject_recursive_types(E)]
pub struct ExPoolError<E>(deadpool::managed::PoolError<E>);

impl AppError {
    /// The name of the variant, which is how the failure is spelled in a close
    /// reason.
    pub open spec fn name(self) -> Seq<char> {
        match self {
            AppError::DecodeError => "DecodeError"@,
            AppError::InternalServerError => "InternalServerError"@,
            AppError::Unauthorized => "Unauthorized"@,
            AppError::BadRequest => "BadRequest"@,
            AppError::NotFound => "NotFound"@,
            AppError::IntegrationNotFound => "IntegrationNotFound"@,
            AppError::Unknown => "Unknown"@,
        }
    }

    /// The HTTP status that goes with the failure.
    pub open spec fn status(self) -> int {
        match self {
            AppError::DecodeError => 502,
            AppError::InternalServerError => 500,
            AppError::Unauthorized => 401,
            AppError::BadRequest => 400,
            AppError::NotFound => 404,
            AppError::IntegrationNotFound => 400,
            AppError::Unknown => 500,
        }
    }

    /// The HTTP status code of the response that carries this failure.
    pub fn status_code(&self) -> (code: u16)
        ensures
            code == self.status(),
    {
        match *self {
            AppError::DecodeError => 502,
            AppError::InternalServerError => 500,
            AppError::Unauthorized => 401,
            AppError::BadRequest => 400,
            AppError::NotFound => 404,
            AppError::IntegrationNotFound => 400,
            AppError::Unknown => 500,
        }
    }

    /// The failure as text: the name of its variant.
    pub fn to_string(&self) -> (text: String)
        ensures
            text@ == self.name(),
    {
        match *self {
            AppError::DecodeError => "DecodeError".to_owned(),
            AppError::InternalServerError => "InternalServerError".to_owned(),
            AppError::Unauthorized => "Unauthorized".to_owned(),
            AppError::BadRequest => "BadRequest".to_owned(),
            AppError::NotFound => "NotFound".to_owned(),
            AppError::IntegrationNotFound => "IntegrationNotFound".to_owned(),
            AppError::Unknown => "Unknown".to_owned(),
        }
    }
}

/// A failure of the relational store is an internal failure.
pub fn report_postgres_err(e: tokio_postgres::Error) -> (r: AppError)
    ensures
        r == AppError::InternalServerError,
{
    AppError::InternalServerError
}

/// A failure to obtain a connection from the pool is an internal failure.
pub fn report_pool_err(e: deadpool_postgres::PoolError) -> (r: AppError)
    ensures
        r == AppError::InternalServerError,
{
    AppError::InternalServerError
}

/// Stored data that does not decode is an internal failure.
pub fn report_internal_serde_error(e: serde_json::Error) -> (r: AppError)
    ensures
        r == AppError::InternalServerError,
{
    AppError::InternalServerError
}

/// A client frame that does not decode is a decode failure.
pub fn report_serde_error(e: serde_json::Error) -> (r: AppError)
    ensures
        r == AppError::DecodeError,
{
    AppError::DecodeError
}

/// A failure of the habit-tracker client is an internal failure.
pub fn report_habitica_err(e: HabiticaError) -> (r: AppError)
    ensures
        r == AppError::InternalServerError,
{
    AppError::InternalServerError
}

/// The failure that a client sees when the authentication service does not
/// resolve its key: `Unauthorized` for a key that does not exist or may not be
/// used, an internal failure for a failure of the service or of the way to it,
/// and `Unknown` for anything else.
pub open spec fn auth_failure(e: AuthError) -> AppError {
    match e {
        AuthError::ApiKeyNonexistent | AuthError::ApiKeyUnauthorized => AppError::Unauthorized,
        AuthError::InternalServerError
        | AuthError::MethodNotAllowed
        | AuthError::BadRequest
        | AuthError::Network => AppError::InternalServerError,
        AuthError::Other => AppError::Unknown,
    }
}

/// Maps a failure of the authentication service onto the service's own.
pub fn report_auth_err(e: AuthError) -> (r: AppError)
    ensures
        r == auth_failure(e),
{
    match e {
        AuthError::ApiKeyNonexistent => AppError::Unauthorized,
        AuthError::ApiKeyUnauthorized => AppError::Unauthorized,
        c => {
            match c {
                AuthError::InternalServerError => AppError::InternalServerError,
                AuthError::MethodNotAllowed => AppError::InternalServerError,
                AuthError::BadRequest => AppError::InternalServerError,
                AuthError::Network => AppError::InternalServerError,
                _ => AppError::Unknown,
            }
        },
    }
}

} // verus!
