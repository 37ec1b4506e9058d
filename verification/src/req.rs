//! The values a transport hands to the registry.
use vstd::prelude::*;
use crate::json::json_clone;
use crate::targets::TargetComputeFunc;

verus! {

/// What a request is, as a mathematical value.
pub struct ComputeRequestView {
    pub target: Seq<char>,
    pub data: serde_json::Value,
}

/// A payload addressed to one compute function.
#[derive(Debug)]
pub struct ComputeRequest {
    target: TargetComputeFunc,
    data: serde_json::Value,
}

impl View for ComputeRequest {
    type V = ComputeRequestView;

    closed spec fn view(&self) -> ComputeRequestView {
        ComputeRequestView { target: self.target@, data: self.data }
    }
}

impl ComputeRequest {
    #[must_use]
    pub fn new(target: TargetComputeFunc, data: serde_json::Value) -> (request: Self)
        ensures
            request@.target == target@,
            request@.data == data,
    {
        Self { target, data }
    }

    #[must_use]
    pub fn target(&self) -> (target: &TargetComputeFunc)
        ensures
            target@ == self@.target,
    {
        &self.target
    }

    #[must_use]
    pub fn data(&self) -> (data: &serde_json::Value)
        ensures
            *data == self@.data,
    {
        &self.data
    }
}

impl Clone for ComputeRequest {
    fn clone(&self) -> (copy: Self)
        ensures
            copy@ == self@,
    {
        Self { target: self.target.clone(), data: json_clone(&self.data) }
    }
}

/// Asks the registry to load the library at a path.
#[derive(Debug)]
pub struct AddFunctionRequest(String);

impl View for AddFunctionRequest {
    type V = Seq<char>;

    closed spec fn view(&self) -> Seq<char> {
        self.0@
    }
}

impl AddFunctionRequest {
    #[must_use]
    pub fn new(library_path: String) -> (request: Self)
        ensures
            request@ == library_path@,
    {
        Self(library_path)
    }

    #[must_use]
    pub fn lib_path(&self) -> (path: &str)
        ensures
            path@ == self@,
    {
        self.0.as_str()
    }
}

impl Clone for AddFunctionRequest {
    fn clone(&self) -> (copy: Self)
        ensures
            copy@ == self@,
    {
        Self(self.0.clone())
    }
}

/// Asks the registry to unload the function of a name.
#[derive(Debug)]
pub struct RemoveFunctionRequest(TargetComputeFunc);

impl View for RemoveFunctionRequest {
    type V = Seq<char>;

    closed spec fn view(&self) -> Seq<char> {
        self.0@
    }
}

impl RemoveFunctionRequest {
    #[must_use]
    pub fn new(target: TargetComputeFunc) -> (request: Self)
        ensures
            request@ == target@,
    {
        Self(target)
    }

    #[must_use]
    pub fn target(&self) -> (target: &TargetComputeFunc)
        ensures
            target@ == self@,
    {
        &self.0
    }
}

impl Clone for RemoveFunctionRequest {
    fn clone(&self) -> (copy: Self)
        ensures
            copy@ == self@,
    {
        Self(self.0.clone())
    }
}

} // verus!
