//! The transport: what it decides before the provider is asked, and what it
//! makes of the provider's answer.
use crate::error::{rejection_failure, Eip1193Error, Failure, Rejection, Thrown};
use crate::provider::{found, resolved, Ethereum};
use crate::request::{Request, RequestArgs};
use crate::value::{Json, Value};
use vstd::prelude::*;

verus! {

/// A transport that reaches the network through the provider of the host. It
/// holds nothing: the provider is looked up anew for every call, so that one
/// call never sees what another found.
#[derive(Debug, Clone, Copy)]
pub struct Eip1193 {}

/// A call that is ready to be made: hand `request` to `provider`.
#[derive(Debug)]
pub struct Call<H> {
    pub provider: Ethereum<H>,
    pub request: Request,
}

/// A listener that is ready to be registered: have `provider` call `callback`
/// whenever it announces `event`.
pub struct Listener<H, F> {
    pub provider: Ethereum<H>,
    pub event: String,
    pub callback: F,
}

/// The encoded parameters of a call, or the error of encoding them, by what
/// the parameters stand for.
pub open spec fn encoded(params: Result<Value, serde_json::Error>) -> Result<
    Json,
    serde_json::Error,
> {
    match params {
        Ok(value) => Ok(value@),
        Err(error) => Err(error),
    }
}

/// The provider's answer to a call, by what it stands for.
pub open spec fn settled(outcome: Result<Value, Rejection>) -> Result<Json, Thrown> {
    match outcome {
        Ok(value) => Ok(value@),
        Err(rejection) => Err(rejection@),
    }
}

/// What goes out to the provider. Without a provider the call fails as
/// unavailable, whatever else is wrong with it; with one, parameters that
/// could not be encoded fail the call; otherwise the method goes out with the
/// parameters as a sequence.
pub open spec fn outgoing(
    present: bool,
    method: Seq<char>,
    params: Result<Json, serde_json::Error>,
) -> Result<RequestArgs, Failure> {
    if !present {
        Err(Failure::Unavailable)
    } else {
        match params {
            Err(error) => Err(Failure::EncodeFailure(error)),
            Ok(value) => Ok(RequestArgs { method, params: value.items() }),
        }
    }
}

/// What the caller gets of the provider's answer: the value it resolved
/// with, or the failure that its rejection amounts to.
pub open spec fn incoming(outcome: Result<Json, Thrown>) -> Result<Json, Failure> {
    match outcome {
        Ok(value) => Ok(value),
        Err(thrown) => Err(rejection_failure(thrown)),
    }
}

/// What the caller gets of an answer that went through the decoder: what was
/// decoded, or the failure that it could not be.
pub open spec fn read<R>(decoded: Result<R, serde_json::Error>) -> Result<R, Failure> {
    match decoded {
        Ok(decoded) => Ok(decoded),
        Err(_) => Err(Failure::DecodeFailure),
    }
}

impl Eip1193 {
    /// Whether there is a provider to talk to, going by a lookup just made.
    pub fn is_available<H, E>(lookup: &Result<Option<H>, E>) -> (available: bool)
        ensures
            available == found(*lookup),
            available == (resolved(*lookup) is Ok),
    {
        match lookup {
            Ok(Some(_)) => true,
            _ => false,
        }
    }

    /// A transport. There is nothing to set up and nothing to tear down.
    pub fn new() -> (transport: Eip1193)
        ensures
            transport == (Eip1193 {  }),
    {
        Eip1193 {  }
    }

    /// Prepares the call of `method`. `lookup` is what looking for the
    /// provider gave, `params` what encoding the parameters gave.
    pub fn request<H, E>(
        &self,
        lookup: Result<Option<H>, E>,
        method: &str,
        params: Result<Value, serde_json::Error>,
    ) -> (next: Result<Call<H>, Eip1193Error>)
        ensures
            match next {
                Ok(call) => {
                    &&& lookup == Ok::<Option<H>, E>(Some(call.provider.handle))
                    &&& outgoing(found(lookup), method@, encoded(params)) == Ok::<
                        RequestArgs,
                        Failure,
                    >(call.request@)
                },
                Err(error) => outgoing(found(lookup), method@, encoded(params)) == Err::<
                    RequestArgs,
                    Failure,
                >(error@),
            },
    {
        let provider = match Ethereum::default(lookup) {
            Ok(provider) => provider,
            Err(error) => {
                return Err(error);
            },
        };
        let params = match params {
            Ok(params) => params,
            Err(error) => {
                return Err(Eip1193Error::from(error));
            },
        };
        Ok(Call { provider, request: Request::new(method.to_owned(), params) })
    }

    /// Makes of the provider's answer what the caller is to see. A value that
    /// the provider resolved with is handed on untouched, to be decoded; a
    /// rejection becomes the failure that it amounts to.
    pub fn settle(&self, outcome: Result<Value, Rejection>) -> (answer: Result<Value, Eip1193Error>)
        ensures
            match answer {
                Ok(value) => outcome == Ok::<Value, Rejection>(value),
                Err(error) => incoming(settled(outcome)) == Err::<Json, Failure>(error@),
            },
    {
        match outcome {
            Ok(value) => Ok(value),
            Err(rejection) => Err(Eip1193Error::from(rejection)),
        }
    }

    /// Closes a call with what decoding the answer gave: the decoded answer,
    /// or, whatever the decoder complained of, [`Eip1193Error::JsParseError`].
    pub fn decoded<R>(&self, answer: Result<R, serde_json::Error>) -> (result: Result<
        R,
        Eip1193Error,
    >)
        ensures
            match result {
                Ok(decoded) => read(answer) == Ok::<R, Failure>(decoded),
                Err(error) => read(answer) == Err::<R, Failure>(error@),
            },
    {
        match answer {
            Ok(decoded) => Ok(decoded),
            Err(_) => Err(Eip1193Error::JsParseError),
        }
    }

    /// Prepares a listener for `event`: the provider that `lookup` found is
    /// to call `callback` each time it announces the event. Nothing is asked
    /// of the event's name, and nothing is remembered: two listeners made
    /// alike are two listeners.
    pub fn on<H, E, F>(self, lookup: Result<Option<H>, E>, event: &str, callback: F) -> (listener:
        Result<Listener<H, F>, Eip1193Error>)
        ensures
            match listener {
                Ok(listener) => {
                    &&& lookup == Ok::<Option<H>, E>(Some(listener.provider.handle))
                    &&& listener.event@ == event@
                    &&& listener.callback == callback
                },
                Err(error) => !found(lookup) && error == Eip1193Error::JsNoEthereum,
            },
    {
        match Ethereum::default(lookup) {
            Ok(provider) => Ok(Listener { provider, event: event.to_owned(), callback }),
            Err(error) => Err(error),
        }
    }
}

impl<H, F> Listener<H, F> {
    /// Hands what the provider announced to the callback, as it came.
    pub fn deliver<P>(&self, payload: P) where F: Fn(P)
        requires
            call_requires(self.callback, (payload,)),
        ensures
            call_ensures(self.callback, (payload,), ()),
    {
        (self.callback)(payload)
    }
}

} // verus!
