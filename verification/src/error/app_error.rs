//! The union of every failure the host reports, and its status class.
use vstd::prelude::*;
use vstd::string::StringExecFns;
use crate::error::bad_input::{BadInputError, BadInputErrorView};
use crate::error::bad_req::{BadRequestError, BadRequestErrorView};
use crate::error::loading::{LoadingError, LoadingErrorView};
use crate::error::unloading::{UnloadingError, UnloadingErrorView};
use crate::status::GenericStatusCode;
use crate::targets::TargetComputeFunc;

verus! {

pub type AppResult<T> = Result<T, AppError>;

/// What an error of the host is, as a mathematical value.
pub enum AppErrorView {
    BadInput(BadInputErrorView),
    BadRequest(BadRequestErrorView),
    TargetNotFound(Seq<char>),
    Loading(LoadingErrorView),
    Unloading(UnloadingErrorView),
    Other(Seq<char>),
    Unspecified,
}

/// Any failure of the host.
#[derive(Debug)]
pub enum AppError {
    BadInput(BadInputError),
    BadRequest(BadRequestError),
    TargetNotFound(TargetComputeFunc),
    Loading(LoadingError),
    Unloading(UnloadingError),
    Other(String),
    Unspecified,
}

impl View for AppError {
    type V = AppErrorView;

    open spec fn view(&self) -> AppErrorView {
        match self {
            Self::BadInput(e) => AppErrorView::BadInput(e@),
            Self::BadRequest(e) => AppErrorView::BadRequest(e@),
            Self::TargetNotFound(target) => AppErrorView::TargetNotFound(target@),
            Self::Loading(e) => AppErrorView::Loading(e@),
            Self::Unloading(e) => AppErrorView::Unloading(e@),
            Self::Other(msg) => AppErrorView::Other(msg@),
            Self::Unspecified => AppErrorView::Unspecified,
        }
    }
}

impl AppErrorView {
    /// The one status class of each kind of error.
    pub open spec fn status_class(self) -> GenericStatusCode {
        match self {
            Self::BadInput(_) | Self::BadRequest(_) => GenericStatusCode::BadRequest,
            Self::Unloading(UnloadingErrorView::TargetNotFound(_)) => GenericStatusCode::NotFound,
            Self::Unloading(UnloadingErrorView::UnableToUnload(_)) => {
                GenericStatusCode::InternalError
            },
            Self::Loading(LoadingErrorView::FunctionNameCollision(_)) => {
                GenericStatusCode::Conflict
            },
            Self::Loading(LoadingErrorView::BadPath(_)) => GenericStatusCode::PreconditionFailed,
            Self::Loading(LoadingErrorView::PathNotFound(_)) => GenericStatusCode::NotFound,
            Self::Loading(_) => GenericStatusCode::InternalError,
            Self::TargetNotFound(_) => GenericStatusCode::NotFound,
            Self::Other(_) | Self::Unspecified => GenericStatusCode::InternalError,
        }
    }

    /// The description of an error.
    pub open spec fn text(self) -> Seq<char> {
        match self {
            Self::BadInput(e) => e.text(),
            Self::BadRequest(e) => e.text(),
            Self::TargetNotFound(name) => "Target compute function '"@ + name + "' not found"@,
            Self::Loading(e) => "Error loading compute function: "@ + e.text(),
            Self::Unloading(e) => "Error unloading compute function: "@ + e.text(),
            Self::Other(msg) => "Unknown error occurred: "@ + msg,
            Self::Unspecified => "You should not be seeing this."@,
        }
    }
}

impl AppError {
    /// An error of no other kind, with the given message.
    #[must_use]
    pub fn other(msg: &str) -> (error: Self)
        ensures
            error@ == AppErrorView::Other(msg@),
    {
        Self::Other(String::from_str(msg))
    }

    /// The status class under which a transport reports this error.
    #[must_use]
    pub fn as_generic_status_code(&self) -> (status: GenericStatusCode)
        ensures
            status == self@.status_class(),
    {
        match self {
            Self::BadInput(_) | Self::BadRequest(_) => GenericStatusCode::BadRequest,
            Self::Unloading(un) => match un {
                UnloadingError::TargetNotFound(_) => GenericStatusCode::NotFound,
                UnloadingError::UnableToUnload(_) => GenericStatusCode::InternalError,
            },
            Self::Loading(load) => match load {
                LoadingError::FunctionNameCollision(_) => GenericStatusCode::Conflict,
                LoadingError::BadPath(_) => GenericStatusCode::PreconditionFailed,
                LoadingError::PathNotFound(_) => GenericStatusCode::NotFound,
                _ => GenericStatusCode::InternalError,
            },
            Self::TargetNotFound(_) => GenericStatusCode::NotFound,
            Self::Other(_) | Self::Unspecified => GenericStatusCode::InternalError,
        }
    }

    /// The description of this error for a reader.
    pub fn to_text(&self) -> (text: String)
        ensures
            text@ == self@.text(),
    {
        match self {
            Self::BadInput(e) => e.to_text(),
            Self::BadRequest(e) => e.to_text(),
            Self::TargetNotFound(target) => String::from_str("Target compute function '").concat(
                target.name(),
            ).concat("' not found"),
            Self::Loading(e) => {
                let inner = e.to_text();
                String::from_str("Error loading compute function: ").concat(inner.as_str())
            },
            Self::Unloading(e) => {
                let inner = e.to_text();
                String::from_str("Error unloading compute function: ").concat(inner.as_str())
            },
            Self::Other(msg) => String::from_str("Unknown error occurred: ").concat(msg.as_str()),
            Self::Unspecified => String::from_str("You should not be seeing this."),
        }
    }

    /// Every kind of error has a status class that a transport can send: the
    /// class is canonical, and it is one of the five failure classes.
    pub proof fn lemma_status_class_total(error: AppErrorView)
        ensures
            error.status_class().is_canonical(),
            error.status_class() == GenericStatusCode::BadRequest || error.status_class()
                == GenericStatusCode::NotFound || error.status_class()
                == GenericStatusCode::Conflict || error.status_class()
                == GenericStatusCode::PreconditionFailed || error.status_class()
                == GenericStatusCode::InternalError,
            GenericStatusCode::of_number(error.status_class().number()) == error.status_class(),
            error.status_class().http_number() == error.status_class().number(),
    {
    }
}

impl Clone for AppError {
    fn clone(&self) -> (copy: Self)
        ensures
            copy@ == self@,
    {
        match self {
            Self::BadInput(e) => Self::BadInput(e.clone()),
            Self::BadRequest(e) => Self::BadRequest(e.clone()),
            Self::TargetNotFound(target) => Self::TargetNotFound(target.clone()),
            Self::Loading(e) => Self::Loading(e.clone()),
            Self::Unloading(e) => Self::Unloading(e.clone()),
            Self::Other(msg) => Self::Other(msg.clone()),
            Self::Unspecified => Self::Unspecified,
        }
    }
}

impl From<BadRequestError> for AppError {
    fn from(e: BadRequestError) -> (error: Self) {
        Self::BadRequest(e)
    }
}

impl vstd::std_specs::convert::FromSpecImpl<BadRequestError> for AppError {
    open spec fn obeys_from_spec() -> bool {
        true
    }

    open spec fn from_spec(e: BadRequestError) -> Self {
        Self::BadRequest(e)
    }
}

impl From<BadInputError> for AppError {
    fn from(e: BadInputError) -> (error: Self) {
        Self::BadInput(e)
    }
}

impl vstd::std_specs::convert::FromSpecImpl<BadInputError> for AppError {
    open spec fn obeys_from_spec() -> bool {
        true
    }

    open spec fn from_spec(e: BadInputError) -> Self {
        Self::BadInput(e)
    }
}

impl From<LoadingError> for AppError {
    fn from(e: LoadingError) -> (error: Self) {
        Self::Loading(e)
    }
}

impl vstd::std_specs::convert::FromSpecImpl<LoadingError> for AppError {
    open spec fn obeys_from_spec() -> bool {
        true
    }

    open spec fn from_spec(e: LoadingError) -> Self {
        Self::Loading(e)
    }
}

impl From<UnloadingError> for AppError {
    fn from(e: UnloadingError) -> (error: Self) {
        Self::Unloading(e)
    }
}

impl vstd::std_specs::convert::FromSpecImpl<UnloadingError> for AppError {
    open spec fn obeys_from_spec() -> bool {
        true
    }

    open spec fn from_spec(e: UnloadingError) -> Self {
        Self::Unloading(e)
    }
}

impl From<String> for AppError {
    fn from(s: String) -> (error: Self) {
        Self::Other(s)
    }
}

impl vstd::std_specs::convert::FromSpecImpl<String> for AppError {
    open spec fn obeys_from_spec() -> bool {
        true
    }

    open spec fn from_spec(s: String) -> Self {
        Self::Other(s)
    }
}

impl From<AppError> for GenericStatusCode {
    fn from(error: AppError) -> (status: Self) {
        error.as_generic_status_code()
    }
}

impl vstd::std_specs::convert::FromSpecImpl<AppError> for GenericStatusCode {
    open spec fn obeys_from_spec() -> bool {
        true
    }

    open spec fn from_spec(error: AppError) -> Self {
        error@.status_class()
    }
}

} // verus!
