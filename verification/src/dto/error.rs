//! The body of every error response.

use vstd::prelude::*;

use crate::errors::ApiErrorCode;

verus! {

pub struct ErrorResponse {
    pub code: ApiErrorCode,
    pub message: String,
}

} // verus!
