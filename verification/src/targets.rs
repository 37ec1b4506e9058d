//! The identifier that names the compute function a request is meant for.
use vstd::prelude::*;

verus! {

/// Names a compute function. Names are opaque and compared for exact equality.
#[derive(Debug)]
pub struct TargetComputeFunc(pub(crate) String);

impl View for TargetComputeFunc {
    type V = Seq<char>;

    closed spec fn view(&self) -> Seq<char> {
        self.0@
    }
}

impl TargetComputeFunc {
    #[must_use]
    pub fn new(name: String) -> (target: Self)
        ensures
            target@ == name@,
    {
        Self(name)
    }

    #[must_use]
    pub fn name(&self) -> (name: &str)
        ensures
            name@ == self@,
    {
        self.0.as_str()
    }

    /// The name as text of its own, as `to_string` would give it.
    pub fn to_text(&self) -> (text: String)
        ensures
            text@ == self@,
    {
        self.0.clone()
    }
}

impl Clone for TargetComputeFunc {
    fn clone(&self) -> (copy: Self)
        ensures
            copy@ == self@,
    {
        Self(self.0.clone())
    }
}

} // verus!
