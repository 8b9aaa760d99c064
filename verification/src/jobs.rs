//! The jobs that a caller may ask a worker for.

use vstd::prelude::*;
use crate::outcome::outcome_view;
use crate::text::{owned, same_text};

verus! {

/// What could go wrong with a job.
#[derive(Debug)]
pub enum ServicesError {
    /// The request was no JSON text; holds the reader's message.
    RequestParseError(String),
    /// The request names no job, or one that is not known.
    InvalidJob(Option<String>),
    /// The final check failed; holds what it told.
    InvalidFinalCheck(String),
}

/// A job that went wrong, with texts read as sequences of characters.
pub enum ServicesErrorView {
    RequestParseError(Seq<char>),
    InvalidJob(Option<Seq<char>>),
    InvalidFinalCheck(Seq<char>),
}

impl View for ServicesError {
    type V = ServicesErrorView;

    open spec fn view(&self) -> ServicesErrorView {
        match self {
            ServicesError::RequestParseError(message) => ServicesErrorView::RequestParseError(message@),
            ServicesError::InvalidJob(message) => ServicesErrorView::InvalidJob(
                match message {
                    Some(message) => Some(message@),
                    None => None,
                },
            ),
            ServicesError::InvalidFinalCheck(message) => ServicesErrorView::InvalidFinalCheck(message@),
        }
    }
}

/// A job that a worker knows.
#[derive(Debug, Clone, Copy, PartialEq, Eq, Structural)]
pub enum Job {
    FinalCheck,
    CorrectSlides,
}

impl View for Job {
    type V = Job;

    open spec fn view(&self) -> Job {
        *self
    }
}

/// The job that a name in a request stands for.
pub open spec fn job_of_name(name: Seq<char>) -> Result<Job, ServicesErrorView> {
    if name == "final_check"@ {
        Ok(Job::FinalCheck)
    } else if name == "correct_slides"@ {
        Ok(Job::CorrectSlides)
    } else {
        Err(ServicesErrorView::InvalidJob(Some("Invalid job type specified in request!"@)))
    }
}

/// What is told of a job that went wrong.
pub open spec fn services_message(error: ServicesErrorView) -> Seq<char> {
    match error {
        ServicesErrorView::RequestParseError(message) => "could not parse base json: "@ + message,
        ServicesErrorView::InvalidJob(Some(message)) => "Invalid job requested: "@ + message,
        ServicesErrorView::InvalidJob(None) => "Invalid job requested!"@,
        ServicesErrorView::InvalidFinalCheck(message) => message,
    }
}

/// Finds the job that a request names.
pub fn service_router(job: &str) -> (r: Result<Job, ServicesError>)
    ensures
        outcome_view(r) == job_of_name(job@),
{
    if same_text(job, "final_check") {
        Ok(Job::FinalCheck)
    } else if same_text(job, "correct_slides") {
        Ok(Job::CorrectSlides)
    } else {
        Err(ServicesError::InvalidJob(Some(owned("Invalid job type specified in request!"))))
    }
}

impl ServicesError {
    /// What is told of this failure.
    pub fn to_string(&self) -> (r: String)
        ensures
            r@ == services_message(self@),
    {
        match self {
            ServicesError::RequestParseError(message) => {
                let mut text = owned("could not parse base json: ");
                text.append(message.as_str());
                text
            },
            ServicesError::InvalidJob(Some(message)) => {
                let mut text = owned("Invalid job requested: ");
                text.append(message.as_str());
                text
            },
            ServicesError::InvalidJob(None) => owned("Invalid job requested!"),
            ServicesError::InvalidFinalCheck(message) => message.clone(),
        }
    }
}

} // verus!
