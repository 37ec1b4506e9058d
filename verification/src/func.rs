//! The contract every compute function meets, built in or loaded.
use vstd::prelude::*;
use vstd::string::StringExecFns;
use crate::error::bad_req::{BadRequestError, BadRequestErrorView};
use crate::req::{ComputeRequest, ComputeRequestView};
use crate::resp::ComputeResponse;

verus! {

/// What a handler gave back, as a mathematical value.
pub type Outcome = Result<ComputeResponse, BadRequestErrorView>;

/// The mathematical value of a handler's result.
pub open spec fn outcome_of(result: Result<ComputeResponse, BadRequestError>) -> Outcome {
    match result {
        Ok(response) => Ok(response),
        Err(error) => Err(error@),
    }
}

/// A unit of logic that takes a structured payload and answers with a
/// response, or rejects the request.
pub trait ComputeFunction: Send + Sync {
    /// The name under which callers reach this function. It is a property of
    /// the function and never changes. A function that does not say what its
    /// name is has some name.
    open spec fn spec_name(&self) -> Seq<char> {
        arbitrary()
    }

    /// Whether `outcome` is an answer this function may give to `request`.
    /// A function that does not say which answers it gives may give any.
    open spec fn handles(&self, request: ComputeRequestView, outcome: Outcome) -> bool {
        true
    }

    /// The name of this function: callers reach it under this name. It is
    /// never empty, and every call gives the same name.
    fn name(&self) -> (name: &'static str)
        ensures
            name@ == self.spec_name(),
            name@.len() > 0,
    ;

    /// Called once, right before the function becomes reachable.
    fn on_plugin_load(&self) {
    }

    /// Called once, when the function is removed.
    fn on_plugin_unload(&self) {
    }

    /// Answers one request.
    fn receive_request(&self, request: &ComputeRequest) -> (result: Result<
        ComputeResponse,
        BadRequestError,
    >)
        ensures
            self.handles(request@, outcome_of(result)),
    ;
}

/// A compute function as the registry holds it, under its name. Built-in
/// and loaded functions are told apart by nothing but their names.
pub struct FunctionInstance<F: ?Sized = dyn ComputeFunction> {
    pub name: String,
    pub function: Box<F>,
}

impl FunctionInstance {
    /// The name under which callers reach the function.
    pub open spec fn spec_name(&self) -> Seq<char> {
        self.name@
    }

    /// Whether `outcome` is an answer the function may give to `request`.
    pub open spec fn handles(&self, request: ComputeRequestView, outcome: Outcome) -> bool {
        self.function.handles(request, outcome)
    }

    /// Takes a function in under its name.
    pub fn new(function: Box<dyn ComputeFunction>) -> (instance: Self)
        ensures
            instance.function == function,
            instance.spec_name() == function.spec_name(),
            instance.spec_name().len() > 0,
    {
        let name = String::from_str(function.name());
        let instance = FunctionInstance { name, function };
        instance
    }

    /// The name of the function.
    pub fn name(&self) -> (name: &str)
        ensures
            name@ == self.spec_name(),
    {
        self.name.as_str()
    }

    /// Tells the function that it is about to become reachable.
    pub fn on_plugin_load(&self) {
        self.function.on_plugin_load()
    }

    /// Tells the function that it has been removed.
    pub fn on_plugin_unload(&self) {
        self.function.on_plugin_unload()
    }

    /// Has the function answer one request.
    pub fn receive_request(&self, request: &ComputeRequest) -> (result: Result<
        ComputeResponse,
        BadRequestError,
    >)
        ensures
            self.handles(request@, outcome_of(result)),
    {
        self.function.receive_request(request)
    }
}

} // verus!
