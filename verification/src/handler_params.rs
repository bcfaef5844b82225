//! Parameters that callers pass to the request API.

use crate::email_confirmation_request::Status;
use vstd::prelude::*;

verus! {

/// Optional identity filter of the listing endpoint.
#[derive(Debug, PartialEq, Eq)]
pub struct QueryParams {
    pub email: Option<String>,
    pub client_id: Option<String>,
    pub request_id: Option<String>,
}

/// Body of a status transition: the new status and the capability token.
#[derive(Debug, PartialEq, Eq)]
pub struct PutStatusParams {
    pub status: Option<Status>,
    pub signature: Option<String>,
}

/// Query of a single-record read: the capability token.
#[derive(Debug, PartialEq, Eq)]
pub struct GetSingleParams {
    pub signature: Option<String>,
}

/// A copy of an optional string.
fn clone_optional(text: &Option<String>) -> (copy: Option<String>)
    ensures
        copy == *text,
{
    match text {
        Some(text) => Some(text.clone()),
        None => None,
    }
}

impl Clone for QueryParams {
    fn clone(&self) -> (r: Self)
        ensures
            r == *self,
    {
        QueryParams {
            email: clone_optional(&self.email),
            client_id: clone_optional(&self.client_id),
            request_id: clone_optional(&self.request_id),
        }
    }
}

impl Clone for PutStatusParams {
    fn clone(&self) -> (r: Self)
        ensures
            r == *self,
    {
        PutStatusParams { status: self.status, signature: clone_optional(&self.signature) }
    }
}

impl Clone for GetSingleParams {
    fn clone(&self) -> (r: Self)
        ensures
            r == *self,
    {
        GetSingleParams { signature: clone_optional(&self.signature) }
    }
}

} // verus!
