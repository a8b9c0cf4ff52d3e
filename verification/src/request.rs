//! The arguments of one call, in the shape the provider takes them.
use crate::value::{Json, Value};
use vstd::prelude::*;

verus! {

/// What is handed to the provider's `request`: the method's name and its
/// parameters. The parameters are always an ordered sequence.
#[derive(Debug, PartialEq, Eq)]
pub struct Request {
    method: String,
    params: Value,
}

/// The mathematical model of a [`Request`].
pub struct RequestArgs {
    pub method: Seq<char>,
    /// The parameters, in order.
    pub params: Seq<Json>,
}

impl View for Request {
    type V = RequestArgs;

    closed spec fn view(&self) -> RequestArgs {
        RequestArgs { method: self.method@, params: self.params@.items() }
    }
}

impl Request {
    #[verifier::type_invariant]
    spec fn params_are_a_sequence(self) -> bool {
        self.params@ is Array
    }

    /// The request for `method` with `params`. Parameters that are a sequence
    /// are kept as they are; parameters of any other shape are replaced by the
    /// empty sequence, since the provider takes nothing else.
    pub fn new(method: String, params: Value) -> (request: Request)
        ensures
            request@ == (RequestArgs { method: method@, params: params@.items() }),
    {
        Request { method, params: params.into_sequence() }
    }

    /// The method's name.
    pub fn method(&self) -> (method: String)
        ensures
            method@ == self@.method,
    {
        self.method.clone()
    }

    /// The parameters, as the sequence that is sent.
    pub fn params(&self) -> (params: Value)
        ensures
            params@ == Json::Array(self@.params),
    {
        proof {
            use_type_invariant(self);
        }
        self.params.clone()
    }
}

} // verus!
