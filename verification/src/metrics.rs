//! Labels of the request metrics: the request method and its outcome.

use vstd::prelude::*;

verus! {

/// The HTTP-style method a service operation is recorded under.
#[derive(Debug, Clone, Copy, PartialEq, Eq, Hash)]
pub enum Method {
    Get,
    Post,
    Put,
    Delete,
}

/// The outcome a service operation is recorded under.
#[derive(Debug, Clone, Copy, PartialEq, Eq, Hash)]
pub enum Status {
    Success,
    Error,
}

impl Method {
    /// The label of the method in the metrics: `GET`, `POST`, `PUT` or
    /// `DELETE`.
    pub fn label(&self) -> (r: &'static str)
        ensures
            r@ == (match *self {
                Method::Get => "GET"@,
                Method::Post => "POST"@,
                Method::Put => "PUT"@,
                Method::Delete => "DELETE"@,
            }),
    {
        match self {
            Method::Get => "GET",
            Method::Post => "POST",
            Method::Put => "PUT",
            Method::Delete => "DELETE",
        }
    }
}

impl Status {
    /// The label of the outcome in the metrics: `success` or `error`.
    pub fn label(&self) -> (r: &'static str)
        ensures
            r@ == (match *self {
                Status::Success => "success"@,
                Status::Error => "error"@,
            }),
    {
        match self {
            Status::Success => "success",
            Status::Error => "error",
        }
    }

    /// The outcome recorded when an operation completes.
    pub fn of_completion(is_success: bool) -> (s: Status)
        ensures
            s == (if is_success { Status::Success } else { Status::Error }),
    {
        if is_success {
            Status::Success
        } else {
            Status::Error
        }
    }
}

/// The status word attached to the tracing event that closes an operation.
pub fn completion_word(is_success: bool) -> (r: &'static str)
    ensures
        r@ == (if is_success { "SUCCESS"@ } else { "ERROR"@ }),
{
    if is_success {
        "SUCCESS"
    } else {
        "ERROR"
    }
}

} // verus!
