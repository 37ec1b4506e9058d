//! What a compute function answers.
use vstd::prelude::*;
use crate::json::json_clone;
use crate::status::{status_code_number, GenericStatusCode};

verus! {

/// A status together with structured content.
#[derive(Debug)]
pub struct ComputeJsonResponse {
    pub status: GenericStatusCode,
    pub data: serde_json::Value,
}

impl ComputeJsonResponse {
    pub fn new(status: GenericStatusCode, data: serde_json::Value) -> (response: Self)
        ensures
            response == (Self { status, data }),
    {
        Self { status, data }
    }

    /// The status of the response.
    pub fn status(&self) -> (status: GenericStatusCode)
        ensures
            status == self.status,
    {
        self.status
    }

    /// The content of the response.
    pub fn data(&self) -> (data: &serde_json::Value)
        ensures
            *data == self.data,
    {
        &self.data
    }
}

impl Clone for ComputeJsonResponse {
    fn clone(&self) -> (copy: Self)
        ensures
            copy == *self,
    {
        Self { status: self.status, data: json_clone(&self.data) }
    }
}

/// Either no content with a status, or structured content with a status.
#[derive(Debug)]
pub enum ComputeResponse {
    NoContent(GenericStatusCode),
    Json(ComputeJsonResponse),
}

impl ComputeResponse {
    /// The status a response carries.
    pub open spec fn spec_status(&self) -> GenericStatusCode {
        match self {
            Self::NoContent(status) => *status,
            Self::Json(json) => json.status,
        }
    }

    /// The content a response carries, if it carries any.
    pub open spec fn spec_data(&self) -> Option<serde_json::Value> {
        match self {
            Self::NoContent(_) => None,
            Self::Json(json) => Some(json.data),
        }
    }

    /// A response with status `Success` and no content.
    #[must_use]
    pub fn ok() -> (response: Self)
        ensures
            response == Self::NoContent(GenericStatusCode::Success),
    {
        Self::NoContent(GenericStatusCode::Success)
    }

    /// A response with no content and the given status.
    #[must_use]
    pub fn status_only(status: GenericStatusCode) -> (response: Self)
        ensures
            response == Self::NoContent(status),
    {
        Self::NoContent(status)
    }

    /// A response with status `Success` and the given content.
    #[must_use]
    pub fn json_ok(data: serde_json::Value) -> (response: Self)
        ensures
            response == Self::Json(ComputeJsonResponse { status: GenericStatusCode::Success, data }),
    {
        Self::Json(ComputeJsonResponse::new(GenericStatusCode::Success, data))
    }

    /// A response with the given status and content.
    #[must_use]
    pub fn json(status: GenericStatusCode, data: serde_json::Value) -> (response: Self)
        ensures
            response == Self::Json(ComputeJsonResponse { status, data }),
    {
        Self::Json(ComputeJsonResponse::new(status, data))
    }

    /// The status of this response.
    #[must_use]
    pub fn status(&self) -> (status: GenericStatusCode)
        ensures
            status == self.spec_status(),
    {
        match self {
            Self::NoContent(status) => *status,
            Self::Json(json) => json.status(),
        }
    }

    /// The HTTP status code of this response.
    #[must_use]
    pub fn http_status(&self) -> (code: hyper::StatusCode)
        ensures
            status_code_number(code) == self.spec_status().http_number(),
    {
        self.status().to_status_code()
    }

    /// The content of this response if it has any, `None` otherwise.
    #[must_use]
    pub fn data(&self) -> (data: Option<serde_json::Value>)
        ensures
            data == self.spec_data(),
    {
        match self {
            ComputeResponse::NoContent(_) => None,
            ComputeResponse::Json(json) => Some(json_clone(json.data())),
        }
    }

    /// The numeric status and the content that a response is sent as.
    pub open spec fn wire(&self) -> (u16, Option<serde_json::Value>) {
        (self.spec_status().number(), self.spec_data())
    }

    /// The response that a numeric status and a content are read back as.
    pub open spec fn of_wire(number: u16, data: Option<serde_json::Value>) -> Self {
        match data {
            Some(data) => Self::Json(
                ComputeJsonResponse { status: GenericStatusCode::of_number(number), data },
            ),
            None => Self::NoContent(GenericStatusCode::of_number(number)),
        }
    }

    /// A response read back from what it was sent as has the content that
    /// was sent, and a status of the number that was sent. If its status is
    /// canonical, it is the response that was sent.
    pub proof fn lemma_round_trip(response: Self)
        ensures
            Self::of_wire(response.wire().0, response.wire().1).spec_data() == response.spec_data(),
            Self::of_wire(response.wire().0, response.wire().1).wire() == response.wire(),
            response.spec_status().is_canonical() ==> Self::of_wire(
                response.wire().0,
                response.wire().1,
            ) == response,
    {
    }
}

impl Clone for ComputeResponse {
    fn clone(&self) -> (copy: Self)
        ensures
            copy == *self,
    {
        match self {
            Self::NoContent(status) => Self::NoContent(*status),
            Self::Json(json) => Self::Json(json.clone()),
        }
    }
}

impl Default for ComputeResponse {
    fn default() -> (response: Self)
        ensures
            response == Self::NoContent(GenericStatusCode::Success),
    {
        Self::ok()
    }
}

impl From<Option<serde_json::Value>> for ComputeResponse {
    fn from(data: Option<serde_json::Value>) -> (response: Self) {
        match data {
            Some(data) => Self::json_ok(data),
            None => Self::ok(),
        }
    }
}

impl vstd::std_specs::convert::FromSpecImpl<Option<serde_json::Value>> for ComputeResponse {
    open spec fn obeys_from_spec() -> bool {
        true
    }

    open spec fn from_spec(data: Option<serde_json::Value>) -> Self {
        match data {
            Some(data) => Self::Json(ComputeJsonResponse { status: GenericStatusCode::Success, data }),
            None => Self::NoContent(GenericStatusCode::Success),
        }
    }
}

impl From<serde_json::Value> for ComputeResponse {
    fn from(data: serde_json::Value) -> (response: Self) {
        Self::json_ok(data)
    }
}

impl vstd::std_specs::convert::FromSpecImpl<serde_json::Value> for ComputeResponse {
    open spec fn obeys_from_spec() -> bool {
        true
    }

    open spec fn from_spec(data: serde_json::Value) -> Self {
        Self::Json(ComputeJsonResponse { status: GenericStatusCode::Success, data })
    }
}

impl From<()> for ComputeResponse {
    fn from(unit: ()) -> (response: Self) {
        Self::ok()
    }
}

impl vstd::std_specs::convert::FromSpecImpl<()> for ComputeResponse {
    open spec fn obeys_from_spec() -> bool {
        true
    }

    open spec fn from_spec(unit: ()) -> Self {
        Self::NoContent(GenericStatusCode::Success)
    }
}

} // verus!
