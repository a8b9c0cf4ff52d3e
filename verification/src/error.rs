//! What can go wrong with a call, and how it is told to the caller.
use crate::value::{Json, Value};
use vstd::prelude::*;
use vstd::std_specs::convert::FromSpecImpl;

verus! {

/// The error of `serde_json`, with which the encoding of a call's parameters
/// fails. Nothing is known of what it holds: it is carried to the caller as it
/// came.
#[verifier::external_type_specification]
#[verifier::external_body]
pub struct ExSerdeJsonError(serde_json::Error);

/// An error as JSON-RPC words it: a number, a sentence, and whatever else the
/// provider chose to add.
#[derive(Debug, PartialEq, Eq)]
pub struct JsonRpcError {
    pub code: i64,
    pub message: String,
    pub data: Option<Value>,
}

/// The mathematical model of a [`JsonRpcError`].
pub struct RpcError {
    pub code: int,
    pub message: Seq<char>,
    pub data: Option<Json>,
}

impl View for JsonRpcError {
    type V = RpcError;

    open spec fn view(&self) -> RpcError {
        RpcError {
            code: self.code as int,
            message: self.message@,
            data: match self.data {
                Some(data) => Some(data@),
                None => None,
            },
        }
    }
}

/// What the provider rejected a call with.
#[derive(Debug, PartialEq, Eq)]
pub struct Rejection {
    /// The value it threw.
    pub value: Value,
    /// That value as the host prints it.
    pub text: String,
}

/// The mathematical model of a [`Rejection`].
pub struct Thrown {
    pub value: Json,
    pub text: Seq<char>,
}

impl View for Rejection {
    type V = Thrown;

    open spec fn view(&self) -> Thrown {
        Thrown { value: self.value@, text: self.text@ }
    }
}

/// How a call through the provider fails.
#[derive(Debug)]
pub enum Eip1193Error {
    /// The provider rejected the call with a value that is no JSON-RPC error.
    JsValueError(String),
    /// The host has no provider.
    JsNoEthereum,
    /// The provider's answer could not be read as what the caller asked for.
    JsParseError,
    /// The provider rejected the call with a JSON-RPC error.
    JsonRpcError(JsonRpcError),
    /// The parameters could not be encoded.
    SerdeJson(serde_json::Error),
}

/// The mathematical model of an [`Eip1193Error`].
pub enum Failure {
    Unavailable,
    EncodeFailure(serde_json::Error),
    DecodeFailure,
    StructuredRpcError(RpcError),
    OpaqueHostFailure { raw: Seq<char> },
}

impl View for Eip1193Error {
    type V = Failure;

    open spec fn view(&self) -> Failure {
        match self {
            Eip1193Error::JsValueError(raw) => Failure::OpaqueHostFailure { raw: raw@ },
            Eip1193Error::JsNoEthereum => Failure::Unavailable,
            Eip1193Error::JsParseError => Failure::DecodeFailure,
            Eip1193Error::JsonRpcError(error) => Failure::StructuredRpcError(error@),
            Eip1193Error::SerdeJson(error) => Failure::EncodeFailure(*error),
        }
    }
}

impl From<serde_json::Error> for Eip1193Error {
    /// An encoding error is kept whole.
    fn from(source: serde_json::Error) -> (error: Eip1193Error)
        ensures
            error@ == Failure::EncodeFailure(source),
    {
        Eip1193Error::SerdeJson(source)
    }
}

impl FromSpecImpl<serde_json::Error> for Eip1193Error {
    open spec fn obeys_from_spec() -> bool {
        true
    }

    open spec fn from_spec(source: serde_json::Error) -> Eip1193Error {
        Eip1193Error::SerdeJson(source)
    }
}

/// The JSON-RPC error that a thrown value spells out, if it does: an object
/// with a whole number as its `code` and a string as its `message`. A member
/// `data` other than `null` is taken along; any other member is left behind.
pub open spec fn rpc_error(value: Json) -> Option<RpcError> {
    match (value.member("code"@), value.member("message"@)) {
        (Some(Json::Integer(code)), Some(Json::String(message))) => Some(
            RpcError {
                code,
                message,
                data: match value.member("data"@) {
                    Some(Json::Null) | None => None,
                    Some(data) => Some(data),
                },
            },
        ),
        _ => None,
    }
}

/// The failure that a rejection amounts to. A JSON-RPC error is passed on as
/// it is. Of anything else the text is kept: a thrown string is its own text,
/// any other value is told the way the host prints it.
pub open spec fn rejection_failure(thrown: Thrown) -> Failure {
    match rpc_error(thrown.value) {
        Some(error) => Failure::StructuredRpcError(error),
        None => match thrown.value {
            Json::String(raw) => Failure::OpaqueHostFailure { raw },
            _ => Failure::OpaqueHostFailure { raw: thrown.text },
        },
    }
}

impl JsonRpcError {
    /// Reads `value` as a JSON-RPC error.
    pub fn from_value(value: &Value) -> (read: Option<JsonRpcError>)
        ensures
            match read {
                Some(error) => rpc_error(value@) == Some(error@),
                None => rpc_error(value@) is None,
            },
    {
        let code = match value.member("code") {
            Some(Value::Integer(code)) => *code,
            _ => {
                return None;
            },
        };
        let message = match value.member("message") {
            Some(Value::String(message)) => message.clone(),
            _ => {
                return None;
            },
        };
        let data = match value.member("data") {
            Some(Value::Null) | None => None,
            Some(data) => Some(data.clone()),
        };
        Some(JsonRpcError { code, message, data })
    }
}

impl From<Rejection> for Eip1193Error {
    /// Tells a structured rejection from an opaque one.
    fn from(rejection: Rejection) -> (error: Eip1193Error)
        ensures
            error@ == rejection_failure(rejection@),
    {
        match JsonRpcError::from_value(&rejection.value) {
            Some(error) => Eip1193Error::JsonRpcError(error),
            None => match rejection.value {
                Value::String(raw) => Eip1193Error::JsValueError(raw),
                _ => Eip1193Error::JsValueError(rejection.text),
            },
        }
    }
}

/// The conversion copies what it keeps, and a copy is known to stand for the
/// same value, not to be the same value. So no value is singled out here:
/// what `from` returns is told by its own `ensures`, over views.
impl FromSpecImpl<Rejection> for Eip1193Error {
    open spec fn obeys_from_spec() -> bool {
        false
    }

    open spec fn from_spec(rejection: Rejection) -> Eip1193Error {
        arbitrary()
    }
}

/// The failure on the side of the caller of a client: what a transport's
/// failure is turned into when it leaves the transport.
#[derive(Debug)]
pub enum ProviderError {
    /// The provider's own JSON-RPC error, unchanged.
    JsonRpcError(JsonRpcError),
    /// The client failed otherwise; the transport's failure says how.
    JsonRpcClientError(Eip1193Error),
    /// A failure of which only a sentence is known.
    CustomError(String),
}

/// The mathematical model of a [`ProviderError`].
pub enum ClientFailure {
    Rpc(RpcError),
    Client(Failure),
    Custom(Seq<char>),
}

impl View for ProviderError {
    type V = ClientFailure;

    open spec fn view(&self) -> ClientFailure {
        match self {
            ProviderError::JsonRpcError(error) => ClientFailure::Rpc(error@),
            ProviderError::JsonRpcClientError(error) => ClientFailure::Client(error@),
            ProviderError::CustomError(message) => ClientFailure::Custom(message@),
        }
    }
}

/// What the caller of a client is told when there is no provider.
pub open spec fn no_provider_message() -> Seq<char> {
    "No ethereum found"@
}

/// How a transport's failure reaches the caller of a client: the want of a
/// provider as a sentence, a JSON-RPC error as itself, and every other failure
/// as a failure of the client that carries what the transport knew.
pub open spec fn client_failure(failure: Failure) -> ClientFailure {
    match failure {
        Failure::Unavailable => ClientFailure::Custom(no_provider_message()),
        Failure::StructuredRpcError(error) => ClientFailure::Rpc(error),
        _ => ClientFailure::Client(failure),
    }
}

impl From<Eip1193Error> for ProviderError {
    /// Hands a failure of the transport to the caller of a client.
    fn from(source: Eip1193Error) -> (error: ProviderError)
        ensures
            error@ == client_failure(source@),
    {
        match source {
            Eip1193Error::JsNoEthereum => ProviderError::CustomError(
                "No ethereum found".to_owned(),
            ),
            Eip1193Error::JsonRpcError(error) => ProviderError::JsonRpcError(error),
            _ => ProviderError::JsonRpcClientError(source),
        }
    }
}

/// The conversion writes a sentence of its own, and a string is known by its
/// text alone. So no value is singled out here: what `from` returns is told
/// by its own `ensures`, over views.
impl FromSpecImpl<Eip1193Error> for ProviderError {
    open spec fn obeys_from_spec() -> bool {
        false
    }

    open spec fn from_spec(source: Eip1193Error) -> ProviderError {
        arbitrary()
    }
}

} // verus!
