//! Everything the host can answer to a transport.
use vstd::prelude::*;
use crate::json::{json_string, json_text};
use crate::resp::ComputeResponse;
use crate::status::{http_status_of, status_code_number, GenericStatusCode};

verus! {

/// The answer to one input.
#[derive(Debug)]
pub enum AppOutput {
    ComputeResponse(ComputeResponse),
    AddFunctionSuccess,
    RemoveFunctionSuccess,
    Other { status: GenericStatusCode, message: Option<String> },
}

impl AppOutput {
    /// The number of the HTTP status an answer is sent with.
    pub open spec fn http_number(&self) -> u16 {
        match self {
            Self::AddFunctionSuccess => 201,
            Self::RemoveFunctionSuccess => 200,
            Self::ComputeResponse(response) => response.spec_status().http_number(),
            Self::Other { status, .. } => status.http_number(),
        }
    }

    /// An `AddFunctionSuccess`.
    pub fn add_function_success() -> (output: Self)
        ensures
            output == Self::AddFunctionSuccess,
    {
        Self::AddFunctionSuccess
    }

    /// A `RemoveFunctionSuccess`.
    pub fn remove_function_success() -> (output: Self)
        ensures
            output == Self::RemoveFunctionSuccess,
    {
        Self::RemoveFunctionSuccess
    }

    /// The answer that hands on the response of a compute function.
    pub fn compute_response(compute_response: ComputeResponse) -> (output: Self)
        ensures
            output == Self::ComputeResponse(compute_response),
    {
        Self::ComputeResponse(compute_response)
    }

    /// An answer of another kind, with the given status and message.
    pub fn other(code: GenericStatusCode, msg: Option<String>) -> (output: Self)
        ensures
            output == (Self::Other { status: code, message: msg }),
    {
        Self::Other { status: code, message: msg }
    }

    /// The HTTP status code this answer is sent with.
    pub fn status(&self) -> (code: hyper::StatusCode)
        ensures
            status_code_number(code) == self.http_number(),
    {
        match self {
            Self::AddFunctionSuccess => http_status_of(201),
            Self::RemoveFunctionSuccess => http_status_of(200),
            Self::ComputeResponse(cr) => cr.status().to_status_code(),
            Self::Other { status, .. } => (*status).to_status_code(),
        }
    }

    /// The content of this answer, if it has any: the content of the response
    /// it hands on, or its message as a JSON string.
    pub fn data(&self) -> (data: Option<serde_json::Value>)
        ensures
            match self {
                Self::ComputeResponse(response) => data == response.spec_data(),
                Self::Other { message: Some(text), .. } => data is Some && json_text(data->0)
                    == Some(text@),
                _ => data is None,
            },
    {
        match self {
            Self::ComputeResponse(cr) => cr.data(),
            Self::Other { message, .. } => match message {
                Some(s) => Some(json_string(s.as_str())),
                None => None,
            },
            Self::AddFunctionSuccess | Self::RemoveFunctionSuccess => None,
        }
    }
}

} // verus!
