//! Why an unload attempt failed.
use vstd::prelude::*;
use vstd::string::StringExecFns;
use crate::targets::TargetComputeFunc;

verus! {

/// What an unloading error is, as a mathematical value.
pub enum UnloadingErrorView {
    TargetNotFound(Seq<char>),
    UnableToUnload(Seq<char>),
}

/// An error that ends one attempt to unload a compute function.
#[derive(Debug)]
pub enum UnloadingError {
    /// No function of the target's name is registered.
    TargetNotFound(TargetComputeFunc),
    /// The function could not be unloaded.
    UnableToUnload(String),
}

impl View for UnloadingError {
    type V = UnloadingErrorView;

    open spec fn view(&self) -> UnloadingErrorView {
        match self {
            Self::TargetNotFound(target) => UnloadingErrorView::TargetNotFound(target@),
            Self::UnableToUnload(msg) => UnloadingErrorView::UnableToUnload(msg@),
        }
    }
}

impl UnloadingErrorView {
    /// The description of an error.
    pub open spec fn text(self) -> Seq<char> {
        match self {
            Self::TargetNotFound(name) => "Target '"@ + name + "' not found in loaded functions"@,
            Self::UnableToUnload(msg) => "Unable to unload target. Reason: "@ + msg,
        }
    }
}

impl UnloadingError {
    /// The description of this error for a reader.
    pub fn to_text(&self) -> (text: String)
        ensures
            text@ == self@.text(),
    {
        match self {
            UnloadingError::TargetNotFound(target) => String::from_str("Target '").concat(
                target.name(),
            ).concat("' not found in loaded functions"),
            UnloadingError::UnableToUnload(msg) => String::from_str(
                "Unable to unload target. Reason: ",
            ).concat(msg.as_str()),
        }
    }
}

impl Clone for UnloadingError {
    fn clone(&self) -> (copy: Self)
        ensures
            copy@ == self@,
    {
        match self {
            Self::TargetNotFound(target) => Self::TargetNotFound(target.clone()),
            Self::UnableToUnload(msg) => Self::UnableToUnload(msg.clone()),
        }
    }
}

} // verus!
