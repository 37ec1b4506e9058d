//! Why a load attempt failed.
use vstd::prelude::*;
use vstd::string::StringExecFns;

verus! {

/// What a loading error is, as a mathematical value.
pub enum LoadingErrorView {
    BadPath(Seq<char>),
    PathNotFound(Seq<char>),
    LibraryLoadFailure(Seq<char>),
    ConstructorLoadFailure(Seq<char>),
    ConstructorCallFailure,
    FunctionNameCollision(Seq<char>),
}

/// An error that ends one attempt to load a compute function.
#[derive(Debug)]
pub enum LoadingError {
    /// The path provided was invalid.
    BadPath(String),
    /// No library could be found, or it could not be reached.
    PathNotFound(String),
    /// The library file was found but could not be loaded.
    LibraryLoadFailure(String),
    /// The constructor could not be found in the library.
    ConstructorLoadFailure(String),
    /// The constructor returned no instance.
    ConstructorCallFailure,
    /// The registry already holds a function of that name.
    FunctionNameCollision(String),
}

impl View for LoadingError {
    type V = LoadingErrorView;

    open spec fn view(&self) -> LoadingErrorView {
        match self {
            Self::BadPath(s) => LoadingErrorView::BadPath(s@),
            Self::PathNotFound(s) => LoadingErrorView::PathNotFound(s@),
            Self::LibraryLoadFailure(s) => LoadingErrorView::LibraryLoadFailure(s@),
            Self::ConstructorLoadFailure(s) => LoadingErrorView::ConstructorLoadFailure(s@),
            Self::ConstructorCallFailure => LoadingErrorView::ConstructorCallFailure,
            Self::FunctionNameCollision(s) => LoadingErrorView::FunctionNameCollision(s@),
        }
    }
}

impl LoadingErrorView {
    /// The message an error carries; `ConstructorCallFailure` carries none.
    pub open spec fn msg(self) -> Option<Seq<char>> {
        match self {
            Self::LibraryLoadFailure(s)
            | Self::PathNotFound(s)
            | Self::ConstructorLoadFailure(s)
            | Self::FunctionNameCollision(s)
            | Self::BadPath(s) => Some(s),
            Self::ConstructorCallFailure => None,
        }
    }

    /// The words that introduce the message when the error is described.
    pub open spec fn heading(self) -> Seq<char> {
        match self {
            Self::LibraryLoadFailure(_) => "ComputeFunction Library was unable to be loaded: "@,
            Self::ConstructorLoadFailure(_) => "ComputeFunction ctor not found: "@,
            Self::FunctionNameCollision(_) => "ComputeFunction name collision: "@,
            Self::ConstructorCallFailure => "ComputeFunction construction failed (returned null ptr)"@,
            Self::PathNotFound(_) => "No library found at path: "@,
            Self::BadPath(_) => "Given path is badly formed (all paths must be absolute): "@,
        }
    }

    /// The description of an error: its heading, then its message if it has one.
    pub open spec fn text(self) -> Seq<char> {
        match self.msg() {
            Some(s) => self.heading() + s,
            None => self.heading(),
        }
    }
}

impl LoadingError {
    /// A `LibraryLoadFailure` with the given message.
    #[must_use]
    pub fn lib_load_failure(err: &str) -> (error: Self)
        ensures
            error@ == LoadingErrorView::LibraryLoadFailure(err@),
    {
        Self::LibraryLoadFailure(String::from_str(err))
    }

    /// A `ConstructorLoadFailure` with the given message.
    #[must_use]
    pub fn ctor_load_failure(err: &str) -> (error: Self)
        ensures
            error@ == LoadingErrorView::ConstructorLoadFailure(err@),
    {
        Self::ConstructorLoadFailure(String::from_str(err))
    }

    /// A `FunctionNameCollision` for the given name.
    #[must_use]
    pub fn name_collision(err: &str) -> (error: Self)
        ensures
            error@ == LoadingErrorView::FunctionNameCollision(err@),
    {
        Self::FunctionNameCollision(String::from_str(err))
    }

    /// A `BadPath` with the given message.
    #[must_use]
    pub fn bad_path(err: &str) -> (error: Self)
        ensures
            error@ == LoadingErrorView::BadPath(err@),
    {
        Self::BadPath(String::from_str(err))
    }

    /// A `PathNotFound` with the given message.
    #[must_use]
    pub fn path_not_found(err: &str) -> (error: Self)
        ensures
            error@ == LoadingErrorView::PathNotFound(err@),
    {
        Self::PathNotFound(String::from_str(err))
    }

    /// A `ConstructorCallFailure`.
    #[must_use]
    pub fn ctor_call_failure() -> (error: Self)
        ensures
            error@ == LoadingErrorView::ConstructorCallFailure,
    {
        Self::ConstructorCallFailure
    }

    /// The message in this error; `None` for a `ConstructorCallFailure`.
    #[must_use]
    pub fn inner_msg(&self) -> (msg: Option<&str>)
        ensures
            msg.is_some() == self@.msg().is_some(),
            msg matches Some(s) ==> self@.msg() == Some(s@),
    {
        match self {
            Self::LibraryLoadFailure(s)
            | Self::PathNotFound(s)
            | Self::ConstructorLoadFailure(s)
            | Self::FunctionNameCollision(s)
            | Self::BadPath(s) => Some(s.as_str()),
            Self::ConstructorCallFailure => None,
        }
    }

    /// Whether this error carries a message that is not empty.
    #[must_use]
    pub fn has_msg(&self) -> (yes: bool)
        ensures
            yes == (self@.msg() matches Some(s) && s.len() > 0),
    {
        match self {
            Self::LibraryLoadFailure(s)
            | Self::PathNotFound(s)
            | Self::ConstructorLoadFailure(s)
            | Self::FunctionNameCollision(s)
            | Self::BadPath(s) => !s.as_str().is_empty(),
            Self::ConstructorCallFailure => false,
        }
    }

    /// The description of this error for a reader.
    pub fn to_text(&self) -> (text: String)
        ensures
            text@ == self@.text(),
    {
        match self {
            Self::LibraryLoadFailure(msg) => String::from_str(
                "ComputeFunction Library was unable to be loaded: ",
            ).concat(msg.as_str()),
            Self::ConstructorLoadFailure(msg) => String::from_str(
                "ComputeFunction ctor not found: ",
            ).concat(msg.as_str()),
            Self::FunctionNameCollision(msg) => String::from_str(
                "ComputeFunction name collision: ",
            ).concat(msg.as_str()),
            Self::ConstructorCallFailure => String::from_str(
                "ComputeFunction construction failed (returned null ptr)",
            ),
            Self::PathNotFound(msg) => String::from_str("No library found at path: ").concat(
                msg.as_str(),
            ),
            Self::BadPath(msg) => String::from_str(
                "Given path is badly formed (all paths must be absolute): ",
            ).concat(msg.as_str()),
        }
    }
}

impl Clone for LoadingError {
    fn clone(&self) -> (copy: Self)
        ensures
            copy@ == self@,
    {
        match self {
            Self::BadPath(s) => Self::BadPath(s.clone()),
            Self::PathNotFound(s) => Self::PathNotFound(s.clone()),
            Self::LibraryLoadFailure(s) => Self::LibraryLoadFailure(s.clone()),
            Self::ConstructorLoadFailure(s) => Self::ConstructorLoadFailure(s.clone()),
            Self::ConstructorCallFailure => Self::ConstructorCallFailure,
            Self::FunctionNameCollision(s) => Self::FunctionNameCollision(s.clone()),
        }
    }
}

} // verus!
