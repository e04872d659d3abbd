use vstd::prelude::*;
use crate::clock::now_millis;

verus! {

/// The failure taxonomy of the backend. Each variant carries a detail text.
#[derive(Debug)]
pub enum GenesisError {
    DatabaseError(String),
    AiCoreError(String),
    ValidationError(String),
    TimeoutError(String),
    InternalError(String),
    NotFoundError(String),
}

/// The detail text carried by an error, whichever variant holds it.
pub open spec fn error_detail(e: GenesisError) -> Seq<char> {
    match e {
        GenesisError::DatabaseError(m) => m@,
        GenesisError::AiCoreError(m) => m@,
        GenesisError::ValidationError(m) => m@,
        GenesisError::TimeoutError(m) => m@,
        GenesisError::InternalError(m) => m@,
        GenesisError::NotFoundError(m) => m@,
    }
}

impl GenesisError {
    /// The HTTP status code each variant maps to.
    pub fn http_status(&self) -> (code: u16)
        ensures
            code == match self {
                GenesisError::DatabaseError(_) => 500u16,
                GenesisError::AiCoreError(_) => 503u16,
                GenesisError::ValidationError(_) => 400u16,
                GenesisError::TimeoutError(_) => 408u16,
                GenesisError::InternalError(_) => 500u16,
                GenesisError::NotFoundError(_) => 404u16,
            },
    {
        match self {
            GenesisError::DatabaseError(_) => 500,
            GenesisError::AiCoreError(_) => 503,
            GenesisError::ValidationError(_) => 400,
            GenesisError::TimeoutError(_) => 408,
            GenesisError::InternalError(_) => 500,
            GenesisError::NotFoundError(_) => 404,
        }
    }

    /// The machine-readable code each variant maps to.
    pub fn error_code(&self) -> (code: String)
        ensures
            code@ == match self {
                GenesisError::DatabaseError(_) => "DATABASE_ERROR"@,
                GenesisError::AiCoreError(_) => "AI_CORE_ERROR"@,
                GenesisError::ValidationError(_) => "VALIDATION_ERROR"@,
                GenesisError::TimeoutError(_) => "TIMEOUT_ERROR"@,
                GenesisError::InternalError(_) => "INTERNAL_ERROR"@,
                GenesisError::NotFoundError(_) => "NOT_FOUND"@,
            },
    {
        match self {
            GenesisError::DatabaseError(_) => "DATABASE_ERROR".to_owned(),
            GenesisError::AiCoreError(_) => "AI_CORE_ERROR".to_owned(),
            GenesisError::ValidationError(_) => "VALIDATION_ERROR".to_owned(),
            GenesisError::TimeoutError(_) => "TIMEOUT_ERROR".to_owned(),
            GenesisError::InternalError(_) => "INTERNAL_ERROR".to_owned(),
            GenesisError::NotFoundError(_) => "NOT_FOUND".to_owned(),
        }
    }

    /// The human-readable message each variant maps to.
    pub fn public_message(&self) -> (msg: String)
        ensures
            msg@ == match self {
                GenesisError::DatabaseError(_) => "Database operation failed"@,
                GenesisError::AiCoreError(_) => "AI Core service unavailable"@,
                GenesisError::ValidationError(_) => "Invalid request data"@,
                GenesisError::TimeoutError(_) => "Request timed out"@,
                GenesisError::InternalError(_) => "Internal server error"@,
                GenesisError::NotFoundError(_) => "Resource not found"@,
            },
    {
        match self {
            GenesisError::DatabaseError(_) => "Database operation failed".to_owned(),
            GenesisError::AiCoreError(_) => "AI Core service unavailable".to_owned(),
            GenesisError::ValidationError(_) => "Invalid request data".to_owned(),
            GenesisError::TimeoutError(_) => "Request timed out".to_owned(),
            GenesisError::InternalError(_) => "Internal server error".to_owned(),
            GenesisError::NotFoundError(_) => "Resource not found".to_owned(),
        }
    }

    /// A full description: a variant prefix followed by the detail text.
    pub fn describe(&self) -> (text: String)
        ensures
            text@ == match self {
                GenesisError::DatabaseError(m) => "Database error: "@ + m@,
                GenesisError::AiCoreError(m) => "AI Core error: "@ + m@,
                GenesisError::ValidationError(m) => "Validation error: "@ + m@,
                GenesisError::TimeoutError(m) => "Timeout error: "@ + m@,
                GenesisError::InternalError(m) => "Internal error: "@ + m@,
                GenesisError::NotFoundError(m) => "Not found: "@ + m@,
            },
    {
        let (prefix, detail): (&str, &String) = match self {
            GenesisError::DatabaseError(m) => ("Database error: ", m),
            GenesisError::AiCoreError(m) => ("AI Core error: ", m),
            GenesisError::ValidationError(m) => ("Validation error: ", m),
            GenesisError::TimeoutError(m) => ("Timeout error: ", m),
            GenesisError::InternalError(m) => ("Internal error: ", m),
            GenesisError::NotFoundError(m) => ("Not found: ", m),
        };
        let mut text = prefix.to_owned();
        text.append(detail.as_str());
        text
    }

    /// Classification of a failed transport call, from the two observable
    /// flags of the transport error: a timed-out call, a connection that
    /// could not be established, or anything else.
    pub fn from_transport(is_timeout: bool, is_connect: bool, detail: String) -> (e: GenesisError)
        ensures
            is_timeout ==> e == GenesisError::TimeoutError(detail),
            !is_timeout && is_connect ==> (e matches GenesisError::AiCoreError(m)
                && m@ == "Failed to connect to AI Core"@),
            !is_timeout && !is_connect ==> e == GenesisError::InternalError(detail),
    {
        if is_timeout {
            GenesisError::TimeoutError(detail)
        } else if is_connect {
            GenesisError::AiCoreError("Failed to connect to AI Core".to_owned())
        } else {
            GenesisError::InternalError(detail)
        }
    }
}

/// Machine-readable error body of an API response.
#[derive(Debug)]
pub struct ApiError {
    pub code: String,
    pub message: String,
    pub details: Option<String>,
    pub timestamp: u64,
}

impl ApiError {
    /// A fresh error body stamped with the current wall-clock time.
    pub fn new(code: &str, message: &str) -> (e: ApiError)
        ensures
            e.code@ == code@,
            e.message@ == message@,
            e.details is None,
    {
        ApiError { code: code.to_owned(), message: message.to_owned(), details: None, timestamp: now_millis() }
    }

    /// The same error body with the detail text attached.
    pub fn with_details(self, details: &str) -> (e: ApiError)
        ensures
            e.code == self.code,
            e.message == self.message,
            e.timestamp == self.timestamp,
            e.details matches Some(d) && d@ == details@,
    {
        ApiError { details: Some(details.to_owned()), ..self }
    }
}

} // verus!
