//! Transport-independent status classes and their numeric and HTTP forms.
use vstd::prelude::*;

verus! {

#[verifier::external_type_specification]
#[verifier::external_body]
pub struct ExStatusCode(hyper::StatusCode);

/// The three-digit number that an HTTP status code stands for.
pub uninterp spec fn status_code_number(code: hyper::StatusCode) -> u16;

/// `hyper::StatusCode::as_u16`: the number behind the status code.
pub assume_specification[ hyper::StatusCode::as_u16 ](code: &hyper::StatusCode) -> (n: u16)
    ensures
        n == status_code_number(*code),
;

/// `hyper::StatusCode::from_u16`: numbers from 100 up to 999 are accepted and
/// give the status code of that number; every other number is refused.
#[verifier::external_body]
fn http_status(number: u16) -> (code: Option<hyper::StatusCode>)
    ensures
        code.is_some() <==> 100 <= number < 1000,
        code matches Some(c) ==> status_code_number(c) == number,
{
    hyper::StatusCode::from_u16(number).ok()
}

/// The HTTP status code of a number that HTTP accepts.
pub(crate) fn http_status_of(number: u16) -> (code: hyper::StatusCode)
    requires
        100 <= number < 1000,
    ensures
        status_code_number(code) == number,
{
    match http_status(number) {
        Some(code) => code,
        None => {
            proof {
                assert(false);
            }
            vstd::pervasive::unreached()
        },
    }
}

/// A status class that any transport can render.
#[derive(Debug, Copy, Clone, PartialEq, Eq, Structural)]
pub enum GenericStatusCode {
    Success,
    NotFound,
    BadRequest,
    InternalError,
    Conflict,
    PreconditionFailed,
    Other(u16),
    Unknown,
}

/// The number sent for a status that has no HTTP form of its own.
pub const FALLBACK_HTTP_NUMBER: u16 = 418;

impl GenericStatusCode {
    /// The class that a numeric code denotes.
    pub open spec fn of_number(i: u16) -> Self {
        if i == 200 {
            Self::Success
        } else if i == 400 {
            Self::BadRequest
        } else if i == 404 {
            Self::NotFound
        } else if i == 409 {
            Self::Conflict
        } else if i == 412 {
            Self::PreconditionFailed
        } else if i == 500 {
            Self::InternalError
        } else if i == 0 {
            Self::Unknown
        } else {
            Self::Other(i)
        }
    }

    /// The numeric code of a class.
    pub open spec fn number(self) -> u16 {
        match self {
            Self::Success => 200,
            Self::NotFound => 404,
            Self::Conflict => 409,
            Self::PreconditionFailed => 412,
            Self::BadRequest => 400,
            Self::InternalError => 500,
            Self::Other(i) => i,
            Self::Unknown => 0,
        }
    }

    /// A class is canonical unless it is `Other` of a number that has a class of
    /// its own.
    pub open spec fn is_canonical(self) -> bool {
        Self::of_number(self.number()) == self
    }

    /// The number that goes on the wire for a class: its own number where HTTP
    /// has a status of that number, the fallback otherwise.
    pub open spec fn http_number(self) -> u16 {
        let n = self.number();
        if 100 <= n < 1000 {
            n
        } else {
            FALLBACK_HTTP_NUMBER
        }
    }

    /// The class that an HTTP status number is read back as.
    pub open spec fn of_http_number(n: u16) -> Self {
        if n == 200 {
            Self::Success
        } else if n == 404 {
            Self::NotFound
        } else if n == 400 {
            Self::BadRequest
        } else if n == 500 {
            Self::InternalError
        } else if n == 409 {
            Self::Conflict
        } else if n == 412 {
            Self::PreconditionFailed
        } else {
            Self::Other(n)
        }
    }

    #[must_use]
    pub fn from_u16(i: u16) -> (status: Self)
        ensures
            status == Self::of_number(i),
    {
        match i {
            200 => Self::Success,
            400 => Self::BadRequest,
            404 => Self::NotFound,
            409 => Self::Conflict,
            412 => Self::PreconditionFailed,
            500 => Self::InternalError,
            0 => Self::Unknown,
            _ => Self::Other(i),
        }
    }

    #[must_use]
    pub fn to_u16(self) -> (i: u16)
        ensures
            i == self.number(),
    {
        match self {
            Self::Success => 200,
            Self::NotFound => 404,
            Self::Conflict => 409,
            Self::PreconditionFailed => 412,
            Self::BadRequest => 400,
            Self::InternalError => 500,
            Self::Other(i) => i,
            Self::Unknown => 0,
        }
    }

    /// The HTTP status code of a class. A class without an HTTP number of its
    /// own is sent as the fallback.
    pub fn to_status_code(self) -> (code: hyper::StatusCode)
        ensures
            status_code_number(code) == self.http_number(),
    {
        let n = self.to_u16();
        let wire: u16 = if 100 <= n && n < 1000 {
            n
        } else {
            FALLBACK_HTTP_NUMBER
        };
        http_status_of(wire)
    }

    /// Reads an HTTP status code back as a class.
    pub fn from_status_code(code: hyper::StatusCode) -> (status: Self)
        ensures
            status == Self::of_http_number(status_code_number(code)),
    {
        let n = code.as_u16();
        match n {
            200 => Self::Success,
            404 => Self::NotFound,
            400 => Self::BadRequest,
            500 => Self::InternalError,
            409 => Self::Conflict,
            412 => Self::PreconditionFailed,
            _ => Self::Other(n),
        }
    }

    /// Whether a number is the numeric code of one of the six named classes.
    pub open spec fn is_named_number(n: u16) -> bool {
        n == 200 || n == 400 || n == 404 || n == 409 || n == 412 || n == 500
    }

    /// Whether a class comes back unchanged from its HTTP status code: the
    /// six named classes do, and so does `Other` of a number that HTTP
    /// accepts and that none of the six has.
    pub open spec fn survives_http(self) -> bool {
        match self {
            Self::Success
            | Self::NotFound
            | Self::BadRequest
            | Self::InternalError
            | Self::Conflict
            | Self::PreconditionFailed => true,
            Self::Other(n) => 100 <= n < 1000 && !Self::is_named_number(n),
            Self::Unknown => false,
        }
    }

    /// A class comes back unchanged from its HTTP status code exactly when
    /// it survives HTTP. Each of the six named classes does.
    pub proof fn lemma_http_round_trip(status: Self)
        ensures
            Self::of_http_number(status.http_number()) == status <==> status.survives_http(),
            status.is_canonical() && !(status is Other) && !(status is Unknown)
                ==> Self::of_http_number(status.http_number()) == status,
    {
    }

    /// Every number is the numeric code of the class it denotes.
    pub proof fn lemma_number_round_trip(i: u16)
        ensures
            Self::of_number(i).number() == i,
            Self::of_number(i).is_canonical(),
    {
    }

    /// A canonical class is read back unchanged from its numeric code, and any
    /// class is read back as a canonical class of the same number.
    pub proof fn lemma_class_round_trip(status: Self)
        ensures
            status.is_canonical() ==> Self::of_number(status.number()) == status,
            Self::of_number(status.number()).number() == status.number(),
            !status.is_canonical() ==> status is Other,
    {
    }
}

impl From<u16> for GenericStatusCode {
    fn from(code: u16) -> (status: Self) {
        Self::from_u16(code)
    }
}

impl vstd::std_specs::convert::FromSpecImpl<u16> for GenericStatusCode {
    open spec fn obeys_from_spec() -> bool {
        true
    }

    open spec fn from_spec(code: u16) -> Self {
        Self::of_number(code)
    }
}

impl From<hyper::StatusCode> for GenericStatusCode {
    fn from(code: hyper::StatusCode) -> (status: Self) {
        Self::from_status_code(code)
    }
}

impl vstd::std_specs::convert::FromSpecImpl<hyper::StatusCode> for GenericStatusCode {
    open spec fn obeys_from_spec() -> bool {
        true
    }

    open spec fn from_spec(code: hyper::StatusCode) -> Self {
        Self::of_http_number(status_code_number(code))
    }
}

} // verus!
