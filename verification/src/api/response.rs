//! Standard response envelopes.

use vstd::prelude::*;

verus! {

/// Standard error response.
#[derive(Debug, Clone)]
pub struct ApiErrorResponse {
    pub success: bool,
    pub code: u16,
    pub message: String,
    pub error: Option<String>,
}

impl ApiErrorResponse {
    /// A 500 error with the given message and no detail.
    pub fn new(message: String) -> (r: Self)
        ensures
            r == (ApiErrorResponse { success: false, code: 500u16, message, error: None::<String> }),
    {
        ApiErrorResponse { success: false, code: 500, message, error: None }
    }

    pub fn with_code(self, code: u16) -> (r: Self)
        ensures
            r == (ApiErrorResponse { code, ..self }),
    {
        ApiErrorResponse { code, ..self }
    }

    pub fn with_message(self, message: String) -> (r: Self)
        ensures
            r == (ApiErrorResponse { message, ..self }),
    {
        ApiErrorResponse { message, ..self }
    }

    pub fn with_error(self, error: String) -> (r: Self)
        ensures
            r == (ApiErrorResponse { error: Some(error), ..self }),
    {
        ApiErrorResponse { error: Some(error), ..self }
    }
}

impl Default for ApiErrorResponse {
    /// A generic 500 error.
    fn default() -> (r: Self)
        ensures
            r.success == false,
            r.code == 500,
            r.message@ == "Internal server error"@,
            r.error is None,
    {
        ApiErrorResponse {
            success: false,
            code: 500,
            message: String::from_str("Internal server error"),
            error: None,
        }
    }
}

/// Conversion of plain error messages into the standard error envelope.
pub trait IntoApiError: Sized {
    /// The message the conversion surfaces.
    spec fn api_error_message(self) -> Seq<char>;

    fn into_api_error(self) -> (r: ApiErrorResponse)
        ensures
            r.success == false,
            r.code == 500,
            r.message@ == self.api_error_message(),
            r.error is None,
    ;
}

impl IntoApiError for String {
    open spec fn api_error_message(self) -> Seq<char> {
        self@
    }

    fn into_api_error(self) -> (r: ApiErrorResponse) {
        ApiErrorResponse::new(self)
    }
}

impl IntoApiError for &str {
    open spec fn api_error_message(self) -> Seq<char> {
        self@
    }

    fn into_api_error(self) -> (r: ApiErrorResponse) {
        ApiErrorResponse::new(String::from_str(self))
    }
}

/// Standard success response wrapper.
#[derive(Debug, Clone)]
pub struct ApiSuccessResponse<T> {
    pub success: bool,
    pub code: u16,
    pub message: Option<String>,
    pub data: T,
}

impl<T> ApiSuccessResponse<T> {
    /// A 200 response around the data.
    pub fn new(data: T) -> (r: Self)
        ensures
            r.success == true,
            r.code == 200,
            r.message is None,
            r.data == data,
    {
        ApiSuccessResponse { success: true, code: 200, message: None, data }
    }

    pub fn with_code(self, code: u16) -> (r: Self)
        ensures
            r == (ApiSuccessResponse { code, ..self }),
    {
        ApiSuccessResponse { code, ..self }
    }

    pub fn with_message(self, message: String) -> (r: Self)
        ensures
            r == (ApiSuccessResponse { message: Some(message), ..self }),
    {
        ApiSuccessResponse { message: Some(message), ..self }
    }

    pub fn with_data(self, data: T) -> (r: Self)
        ensures
            r == (ApiSuccessResponse { data, ..self }),
    {
        ApiSuccessResponse { data, ..self }
    }
}

/// Standard response wrapper (success or error in one shape).
#[derive(Debug, Clone)]
pub struct ApiResponseWrapper<T> {
    pub success: bool,
    pub data: Option<T>,
    pub message: Option<String>,
    pub code: Option<u16>,
}

impl<T> ApiResponseWrapper<T> {
    pub fn success(data: T) -> (r: Self)
        ensures
            r.success == true,
            r.data == Some(data),
            r.message is None,
            r.code is None,
    {
        ApiResponseWrapper { success: true, data: Some(data), message: None, code: None }
    }

    pub fn error(message: String, code: u16) -> (r: Self)
        ensures
            r.success == false,
            r.data is None,
            r.message == Some(message),
            r.code == Some(code),
    {
        ApiResponseWrapper { success: false, data: None, message: Some(message), code: Some(code) }
    }
}

} // verus!
