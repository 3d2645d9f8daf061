//! Successful answers: a status and the data.

use vstd::prelude::*;

verus! {

/// Data answered with a success status.
#[derive(Debug)]
pub struct ApiResponse<T> {
    pub status: u16,
    pub data: T,
}

impl<T> ApiResponse<T> {
    /// `data` with status 200.
    pub fn ok(data: T) -> (r: ApiResponse<T>)
        ensures
            r.status == 200,
            r.data == data,
    {
        ApiResponse { status: 200, data }
    }

    /// `data` with status 201.
    pub fn created(data: T) -> (r: ApiResponse<T>)
        ensures
            r.status == 201,
            r.data == data,
    {
        ApiResponse { status: 201, data }
    }
}

/// An answer with no body.
#[derive(Debug, Clone, Copy, PartialEq, Eq, Structural)]
pub struct ApiNoContent;

impl ApiNoContent {
    /// The status answered: 204.
    pub fn status(&self) -> (r: u16)
        ensures
            r == 204,
    {
        204
    }
}

} // verus!
