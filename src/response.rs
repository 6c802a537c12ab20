use vstd::prelude::*;

use crate::error::{kind_status, ServiceError, STATUS_OK};

verus! {

/// The envelope every operation's outcome leaves the system in: exactly one of
/// `data` and `error` is present, and `status` is the HTTP status to answer with.
pub struct ApiResponse<T> {
    pub data: Option<T>,
    pub error: Option<String>,
    pub status: u16,
}

impl<T> ApiResponse<T> {
    /// Exactly one of `data` and `error` is present.
    pub open spec fn well_formed(&self) -> bool {
        self.data is Some <==> self.error is None
    }

    /// The envelope of a successful operation.
    pub fn success(data: T) -> (r: ApiResponse<T>)
        ensures
            r.data == Some(data),
            r.error is None,
            r.status == STATUS_OK,
            r.well_formed(),
    {
        ApiResponse { data: Some(data), error: None, status: STATUS_OK }
    }

    /// The envelope of a failed operation.
    pub fn failure(message: String, status: u16) -> (r: ApiResponse<T>)
        ensures
            r.data is None,
            r.error == Some(message),
            r.status == status,
            r.well_formed(),
    {
        ApiResponse { data: None, error: Some(message), status }
    }
}

/// Maps an operation's outcome onto the envelope, whichever operation ran.
pub fn respond<T>(outcome: Result<T, ServiceError>) -> (r: ApiResponse<T>)
    ensures
        r.well_formed(),
        match outcome {
            Ok(v) => r.data == Some(v) && r.error is None && r.status == STATUS_OK,
            Err(e) => r.data is None && r.error == Some(e.message) && r.status == kind_status(
                e.kind,
            ),
        },
{
    match outcome {
        Ok(v) => ApiResponse::success(v),
        Err(e) => {
            let status = e.status_code();
            ApiResponse::failure(e.message, status)
        },
    }
}

} // verus!
