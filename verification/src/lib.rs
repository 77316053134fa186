//! Composition of authenticated GET requests to a JSON API, and the
//! classification of what the service answers.
//!
//! The crate decides what a request holds (target, headers, query pairs) and
//! what a response amounts to (success, API errors, malformed error body).
//! Sending the request and reading the response are left to the caller's
//! transport.

pub mod errors;
pub mod options;
pub mod request;
pub mod requests;
pub mod response;

pub use errors::{ApiError, ApiErrors, RequestError};
pub use options::Options;
pub use request::{get_request_url, set_headers, set_query_params, Header, Request};
pub use requests::Requests;
pub use response::{check_dispatch, check_errors, error_from_body, Checked, STATUS_OK};
