//! The failure reported of an input that no operation accepts.
use vstd::prelude::*;
use vstd::string::StringExecFns;
use crate::input::{AppInput, AppInputView};

verus! {

/// What a bad-input error is, as a mathematical value.
pub struct BadInputErrorView {
    pub message: Seq<char>,
    pub input: AppInputView,
}

/// Says why an input was rejected, and which input it was.
#[derive(Debug)]
pub struct BadInputError {
    message: String,
    input: AppInput,
}

impl View for BadInputError {
    type V = BadInputErrorView;

    closed spec fn view(&self) -> BadInputErrorView {
        BadInputErrorView { message: self.message@, input: self.input@ }
    }
}

impl BadInputErrorView {
    /// The description of an error.
    pub open spec fn text(self) -> Seq<char> {
        "BadInputError: "@ + self.message
    }
}

impl BadInputError {
    /// A new error with the given message and input.
    #[must_use]
    pub fn new(message: &str, input: AppInput) -> (error: Self)
        ensures
            error@ == (BadInputErrorView { message: message@, input: input@ }),
    {
        Self { message: String::from_str(message), input }
    }

    #[must_use]
    pub fn message(&self) -> (message: &str)
        ensures
            message@ == self@.message,
    {
        self.message.as_str()
    }

    #[must_use]
    pub fn input(&self) -> (input: &AppInput)
        ensures
            input@ == self@.input,
    {
        &self.input
    }

    /// The description of this error for a reader.
    pub fn to_text(&self) -> (text: String)
        ensures
            text@ == self@.text(),
    {
        String::from_str("BadInputError: ").concat(self.message.as_str())
    }
}

impl Clone for BadInputError {
    fn clone(&self) -> (copy: Self)
        ensures
            copy@ == self@,
    {
        Self { message: self.message.clone(), input: self.input.clone() }
    }
}

} // verus!
