//! The one failure a compute function may report of a request.
use vstd::prelude::*;
use vstd::string::StringExecFns;
use crate::req::{ComputeRequest, ComputeRequestView};

verus! {

/// What a bad-request error is, as a mathematical value.
pub struct BadRequestErrorView {
    pub sender: Seq<char>,
    pub message: Seq<char>,
    pub request: Option<ComputeRequestView>,
}

/// Says which function rejected a request, why, and which request it was.
#[derive(Debug)]
pub struct BadRequestError {
    sender: String,
    message: String,
    request: Option<ComputeRequest>,
}

impl View for BadRequestError {
    type V = BadRequestErrorView;

    closed spec fn view(&self) -> BadRequestErrorView {
        BadRequestErrorView {
            sender: self.sender@,
            message: self.message@,
            request: match self.request {
                Some(request) => Some(request@),
                None => None,
            },
        }
    }
}

impl BadRequestErrorView {
    /// The description of an error.
    pub open spec fn text(self) -> Seq<char> {
        "BadRequestError from "@ + self.sender + ": "@ + self.message
    }
}

impl BadRequestError {
    #[must_use]
    pub fn new(sender: &str, msg: &str, request: Option<ComputeRequest>) -> (error: Self)
        ensures
            error@.sender == sender@,
            error@.message == msg@,
            error@.request == match request {
                Some(r) => Some(r@),
                None => None,
            },
    {
        Self { sender: String::from_str(sender), message: String::from_str(msg), request }
    }

    #[must_use]
    pub fn without_request(sender: &str, msg: &str) -> (error: Self)
        ensures
            error@ == (BadRequestErrorView { sender: sender@, message: msg@, request: None }),
    {
        Self::new(sender, msg, None)
    }

    #[must_use]
    pub fn sender(&self) -> (sender: &str)
        ensures
            sender@ == self@.sender,
    {
        self.sender.as_str()
    }

    #[must_use]
    pub fn message(&self) -> (message: &str)
        ensures
            message@ == self@.message,
    {
        self.message.as_str()
    }

    #[must_use]
    pub fn request(&self) -> (request: Option<&ComputeRequest>)
        ensures
            request.is_some() == self@.request.is_some(),
            request matches Some(r) ==> self@.request == Some(r@),
    {
        self.request.as_ref()
    }

    #[must_use]
    pub fn has_request(&self) -> (yes: bool)
        ensures
            yes == self@.request.is_some(),
    {
        self.request.is_some()
    }

    /// The description of this error for a reader.
    pub fn to_text(&self) -> (text: String)
        ensures
            text@ == self@.text(),
    {
        String::from_str("BadRequestError from ").concat(self.sender.as_str()).concat(": ").concat(
            self.message.as_str(),
        )
    }
}

impl Clone for BadRequestError {
    fn clone(&self) -> (copy: Self)
        ensures
            copy@ == self@,
    {
        let request = match &self.request {
            Some(request) => Some(request.clone()),
            None => None,
        };
        Self { sender: self.sender.clone(), message: self.message.clone(), request }
    }
}

} // verus!
