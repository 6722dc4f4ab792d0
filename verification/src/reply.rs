//! How one attempt at an endpoint ended.
//!
//! The caller sends the request and reports what came back; the library
//! decides what it means. A response counts as a success only with a
//! status from 200 to 299 and a body that could be decoded.

use vstd::prelude::*;

verus! {

/// What the caller reports of one attempt.
pub enum Reply<T> {
    /// No response arrived; the text says why.
    Unreachable(String),
    /// A response arrived. The body need only be read where the status
    /// is a success; it is the decoded value, or the text of the decoder's
    /// complaint.
    Answered { status: u16, body: Result<T, String> },
}

/// Why one attempt failed.
#[derive(Debug, Clone)]
pub enum AttemptError {
    /// The transport failed.
    Network(String),
    /// The response had a status outside 200 to 299.
    UpstreamStatus(u16),
    /// The body did not have the expected form.
    Deserialization(String),
}

/// `AttemptError` as mathematics.
pub enum AttemptErrorView {
    Network(Seq<char>),
    UpstreamStatus(u16),
    Deserialization(Seq<char>),
}

impl View for AttemptError {
    type V = AttemptErrorView;

    open spec fn view(&self) -> AttemptErrorView {
        match self {
            AttemptError::Network(detail) => AttemptErrorView::Network(detail@),
            AttemptError::UpstreamStatus(status) => AttemptErrorView::UpstreamStatus(*status),
            AttemptError::Deserialization(detail) => AttemptErrorView::Deserialization(detail@),
        }
    }
}

/// A status that stands for success.
pub open spec fn is_success(status: u16) -> bool {
    200 <= status <= 299
}

/// What an attempt gave, or why it failed.
pub open spec fn outcome_of<T>(reply: Reply<T>) -> Result<T, AttemptErrorView> {
    match reply {
        Reply::Unreachable(detail) => Err(AttemptErrorView::Network(detail@)),
        Reply::Answered { status, body } => if !is_success(status) {
            Err(AttemptErrorView::UpstreamStatus(status))
        } else {
            match body {
                Ok(data) => Ok(data),
                Err(detail) => Err(AttemptErrorView::Deserialization(detail@)),
            }
        },
    }
}

/// An exec result and a result over views say the same.
pub open spec fn same_outcome<T>(
    exec: Result<T, AttemptError>,
    math: Result<T, AttemptErrorView>,
) -> bool {
    match exec {
        Ok(data) => math == Ok::<T, AttemptErrorView>(data),
        Err(error) => math == Err::<T, AttemptErrorView>(error@),
    }
}

/// Whether a status stands for success.
pub fn is_success_status(status: u16) -> (r: bool)
    ensures
        r == is_success(status),
{
    200 <= status && status <= 299
}

impl<T> Reply<T> {
    /// What the attempt gave, or why it failed.
    pub fn outcome(self) -> (r: Result<T, AttemptError>)
        ensures
            same_outcome(r, outcome_of(self)),
    {
        match self {
            Reply::Unreachable(detail) => Err(AttemptError::Network(detail)),
            Reply::Answered { status, body } => {
                if !is_success_status(status) {
                    Err(AttemptError::UpstreamStatus(status))
                } else {
                    match body {
                        Ok(data) => Ok(data),
                        Err(detail) => Err(AttemptError::Deserialization(detail)),
                    }
                }
            },
        }
    }
}

} // verus!
