//! A whole call against a provider, as one function, and what holds of it.
//!
//! The transport decides in three places: before the provider is asked
//! ([`Eip1193::request`](crate::transport::Eip1193::request)), after it
//! answered ([`Eip1193::settle`](crate::transport::Eip1193::settle)), and
//! after the answer was decoded
//! ([`Eip1193::decoded`](crate::transport::Eip1193::decoded)). Here they are
//! put end to end around a provider that is known only by what it answers,
//! and the theorems about calls are proved of the result.
use crate::error::{
    client_failure, rejection_failure, rpc_error, ClientFailure, Failure, RpcError, Thrown,
};
use crate::provider::found;
use crate::request::RequestArgs;
use crate::transport::{incoming, outgoing, read};
use crate::value::Json;
use vstd::prelude::*;

verus! {

/// The outcome of one call. `present` says whether the lookup made for this
/// call found a provider, `params` is what encoding the parameters gave, and
/// `host` is the provider: what it answers to each request.
pub open spec fn exchange(
    present: bool,
    method: Seq<char>,
    params: Result<Json, serde_json::Error>,
    host: spec_fn(RequestArgs) -> Result<Json, Thrown>,
) -> Result<Json, Failure> {
    match outgoing(present, method, params) {
        Ok(request) => incoming(host(request)),
        Err(failure) => Err(failure),
    }
}

/// The outcome of a call for a caller who wants the answer as an `R`, with
/// `decode` as the reading of a value as an `R`: a failed call stays failed, an
/// answer that can be read is read, and one that cannot fails the call.
pub open spec fn finished<R>(
    answer: Result<Json, Failure>,
    decode: spec_fn(Json) -> Result<R, serde_json::Error>,
) -> Result<R, Failure> {
    match answer {
        Ok(value) => read(decode(value)),
        Err(failure) => Err(failure),
    }
}

/// The provider that answers every request with the parameters it was sent.
pub open spec fn echo() -> spec_fn(RequestArgs) -> Result<Json, Thrown> {
    |request: RequestArgs| Ok(Json::Array(request.params))
}

/// Where the lookup finds no provider, the transport is not available, and
/// a call fails as unavailable whatever its method, its parameters and the
/// provider are.
pub proof fn lemma_absent_provider_fails_every_call<H, E>(
    lookup: Result<Option<H>, E>,
    method: Seq<char>,
    params: Result<Json, serde_json::Error>,
    host: spec_fn(RequestArgs) -> Result<Json, Thrown>,
)
    requires
        !(lookup matches Ok(Some(_))),
    ensures
        !found(lookup),
        outgoing(found(lookup), method, params) == Err::<RequestArgs, Failure>(
            Failure::Unavailable,
        ),
        exchange(found(lookup), method, params, host) == Err::<Json, Failure>(
            Failure::Unavailable,
        ),
{
}

/// What is sent as parameters: a sequence goes out unchanged and in order,
/// and in place of any other value the empty sequence goes out.
pub proof fn lemma_params_are_sent_as_a_sequence(method: Seq<char>, params: Json)
    ensures
        outgoing(true, method, Ok(params)) matches Ok(request) && request.method == method && (
        match params {
            Json::Array(items) => request.params == items,
            _ => request.params == Seq::<Json>::empty(),
        }),
{
}

/// A provider that echoes its parameters answers a call with the very
/// parameters of the call, provided they are a sequence.
pub proof fn lemma_echo_round_trip(method: Seq<char>, params: Json)
    requires
        params is Array,
    ensures
        exchange(true, method, Ok(params), echo()) == Ok::<Json, Failure>(params),
{
}

/// Through a provider that echoes its parameters a caller gets back what it
/// sent: parameters that are encoded as a sequence, and that the decoder reads
/// back from their encoding, are the result of the call.
pub proof fn lemma_echo_round_trip_decoded<P>(
    method: Seq<char>,
    params: P,
    encode: spec_fn(P) -> Result<Json, serde_json::Error>,
    decode: spec_fn(Json) -> Result<P, serde_json::Error>,
)
    requires
        encode(params) matches Ok(json) && json is Array && decode(json) == Ok::<
            P,
            serde_json::Error,
        >(params),
    ensures
        finished(exchange(true, method, encode(params), echo()), decode) == Ok::<P, Failure>(
            params,
        ),
{
}

/// A JSON-RPC error that the provider rejects a call with reaches the caller
/// with its code, its message and its data as they were thrown.
pub proof fn lemma_rpc_error_passes_through(
    method: Seq<char>,
    params: Json,
    host: spec_fn(RequestArgs) -> Result<Json, Thrown>,
    error: RpcError,
)
    requires
        host(RequestArgs { method, params: params.items() }) matches Err(thrown) && rpc_error(
            thrown.value,
        ) == Some(error),
    ensures
        exchange(true, method, Ok(params), host) == Err::<Json, Failure>(
            Failure::StructuredRpcError(error),
        ),
{
}

/// A JSON-RPC error that the provider threw is still that error, unchanged,
/// when the failure has left the transport for the caller of a client.
pub proof fn lemma_rpc_error_reaches_the_client_unchanged(thrown: Thrown, error: RpcError)
    requires
        rpc_error(thrown.value) == Some(error),
    ensures
        client_failure(rejection_failure(thrown)) == ClientFailure::Rpc(error),
{
}

/// A string that the provider rejects a call with reaches the caller as the
/// text of an opaque failure, letter for letter.
pub proof fn lemma_thrown_string_is_its_own_text(
    method: Seq<char>,
    params: Json,
    host: spec_fn(RequestArgs) -> Result<Json, Thrown>,
    raw: Seq<char>,
)
    requires
        host(RequestArgs { method, params: params.items() }) matches Err(thrown) && thrown.value
            == Json::String(raw),
    ensures
        exchange(true, method, Ok(params), host) == Err::<Json, Failure>(
            Failure::OpaqueHostFailure { raw },
        ),
{
}

/// Of two calls in a row, each goes by its own lookup alone. When the first
/// found a provider and the second does not, the first is answered as the
/// provider answered it and the second fails as unavailable; nothing of the
/// first call is left for the second to go by.
pub proof fn lemma_each_call_goes_by_its_own_lookup<H, E>(
    first: Result<Option<H>, E>,
    first_method: Seq<char>,
    first_params: Json,
    second: Result<Option<H>, E>,
    second_method: Seq<char>,
    second_params: Result<Json, serde_json::Error>,
    host: spec_fn(RequestArgs) -> Result<Json, Thrown>,
)
    requires
        found(first),
        !found(second),
    ensures
        exchange(found(first), first_method, Ok(first_params), host) == incoming(
            host(RequestArgs { method: first_method, params: first_params.items() }),
        ),
        exchange(found(second), second_method, second_params, host) == Err::<Json, Failure>(
            Failure::Unavailable,
        ),
{
}

} // verus!
