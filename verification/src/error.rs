//! Failures that a bridge reports about a call.

use vstd::prelude::*;

verus! {

/// One failure entry as a bridge reports it.
#[derive(Debug, PartialEq, Eq)]
pub struct ApiError {
    /// Numeric class of the failure, as assigned by the bridge.
    pub kind: u32,
    /// The resource that the failure is about.
    pub address: String,
    /// Human-readable explanation.
    pub description: String,
}

/// Mathematical content of an [`ApiError`].
pub struct ApiErrorView {
    pub kind: nat,
    pub address: Seq<char>,
    pub description: Seq<char>,
}

impl View for ApiError {
    type V = ApiErrorView;

    open spec fn view(&self) -> ApiErrorView {
        ApiErrorView {
            kind: self.kind as nat,
            address: self.address@,
            description: self.description@,
        }
    }
}

impl DeepView for ApiError {
    type V = ApiErrorView;

    open spec fn deep_view(&self) -> ApiErrorView {
        self@
    }
}

impl Clone for ApiError {
    fn clone(&self) -> (copy: Self)
        ensures
            copy@ == self@,
    {
        ApiError {
            kind: self.kind,
            address: self.address.clone(),
            description: self.description.clone(),
        }
    }
}

} // verus!
