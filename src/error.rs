use vstd::prelude::*;

verus! {

/// The failures the service reports.
#[derive(Debug, Clone)]
pub enum AppError {
    /// Any failure of the link table, with the database's own description.
    DatabaseError(String),
    /// The submitted string is not an absolute URL.
    URLParseError,
}

/// The body of an error response: a readable message and the HTTP status.
#[derive(Debug, Clone)]
pub struct ApiError {
    pub message: String,
    pub status_code: u16,
}

pub const STATUS_UNPROCESSABLE_ENTITY: u16 = 422;

pub const STATUS_INTERNAL_SERVER_ERROR: u16 = 500;

/// The HTTP status that answers an error.
pub open spec fn status_code_of(e: AppError) -> u16 {
    match e {
        AppError::DatabaseError(_) => STATUS_INTERNAL_SERVER_ERROR,
        AppError::URLParseError => STATUS_UNPROCESSABLE_ENTITY,
    }
}

/// The readable message of an error.
pub open spec fn message_of(e: AppError) -> Seq<char> {
    match e {
        AppError::DatabaseError(detail) => "Database Error: "@ + detail@,
        AppError::URLParseError => "URL Parse Error"@,
    }
}

impl AppError {
    pub fn status_code(&self) -> (r: u16)
        ensures
            r == status_code_of(*self),
    {
        match self {
            AppError::DatabaseError(_) => STATUS_INTERNAL_SERVER_ERROR,
            AppError::URLParseError => STATUS_UNPROCESSABLE_ENTITY,
        }
    }

    pub fn message(&self) -> (r: String)
        ensures
            r@ == message_of(*self),
    {
        match self {
            AppError::DatabaseError(detail) => String::from_str("Database Error: ").concat(
                detail.as_str(),
            ),
            AppError::URLParseError => String::from_str("URL Parse Error"),
        }
    }

    /// The body that answers this error.
    pub fn to_api_error(&self) -> (r: ApiError)
        ensures
            r.status_code == status_code_of(*self),
            r.message@ == message_of(*self),
    {
        ApiError { message: self.message(), status_code: self.status_code() }
    }
}

} // verus!
