//! Everything a transport can ask of the registry.
use vstd::prelude::*;
use crate::req::{AddFunctionRequest, ComputeRequest, ComputeRequestView, RemoveFunctionRequest};

verus! {

/// What an input is, as a mathematical value.
pub enum AppInputView {
    AddComputeFunction(Seq<char>),
    RemoveComputeFunction(Seq<char>),
    Execute(ComputeRequestView),
}

/// One request to the host: load a function, unload one, or run one.
#[derive(Debug)]
pub enum AppInput {
    AddComputeFunction(AddFunctionRequest),
    RemoveComputeFunction(RemoveFunctionRequest),
    Execute(ComputeRequest),
}

impl View for AppInput {
    type V = AppInputView;

    open spec fn view(&self) -> AppInputView {
        match self {
            Self::AddComputeFunction(request) => AppInputView::AddComputeFunction(request@),
            Self::RemoveComputeFunction(request) => AppInputView::RemoveComputeFunction(request@),
            Self::Execute(request) => AppInputView::Execute(request@),
        }
    }
}

impl Clone for AppInput {
    fn clone(&self) -> (copy: Self)
        ensures
            copy@ == self@,
    {
        match self {
            Self::AddComputeFunction(request) => Self::AddComputeFunction(request.clone()),
            Self::RemoveComputeFunction(request) => Self::RemoveComputeFunction(request.clone()),
            Self::Execute(request) => Self::Execute(request.clone()),
        }
    }
}

} // verus!
