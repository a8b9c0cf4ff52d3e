use eip1193::{Call, Eip1193, Eip1193Error, Ethereum, JsonRpcError, Rejection, Value};

/// What the host hands out for its provider in these tests.
type Handle = u32;

/// What a lookup gives: a handle, nothing, or something thrown.
type Lookup = Result<Option<Handle>, String>;

fn text(s: &str) -> Value {
    Value::String(s.to_string())
}

fn encoding_error() -> serde_json::Error {
    match serde_json::from_str::<serde_json::Value>("[1,") {
        Err(error) => error,
        Ok(_) => panic!("an unfinished array was read"),
    }
}

/// One call from end to end against a provider that is a plain function.
fn call(
    lookup: Lookup,
    method: &str,
    params: Value,
    provider: fn(&Call<Handle>) -> Result<Value, Rejection>,
) -> Result<Value, Eip1193Error> {
    let transport = Eip1193::new();
    let call = transport.request(lookup, method, Ok(params))?;
    transport.settle(provider(&call))
}

fn echo(call: &Call<Handle>) -> Result<Value, Rejection> {
    Ok(call.request.params())
}

fn name_of_method(call: &Call<Handle>) -> Result<Value, Rejection> {
    Ok(Value::String(call.request.method()))
}

fn reject_as_user(_: &Call<Handle>) -> Result<Value, Rejection> {
    Err(Rejection {
        value: Value::Object(vec![
            ("code".to_string(), Value::Integer(4001)),
            ("message".to_string(), text("User rejected")),
        ]),
        text: "JsValue(Object({\"code\":4001,\"message\":\"User rejected\"}))".to_string(),
    })
}

fn reject_with_boom(_: &Call<Handle>) -> Result<Value, Rejection> {
    Err(Rejection { value: text("boom"), text: "JsValue(\"boom\")".to_string() })
}

#[test]
fn default_gives_the_provider_that_was_found() {
    let lookup: Lookup = Ok(Some(17));
    match Ethereum::default(lookup) {
        Ok(provider) => assert_eq!(provider.handle, 17),
        Err(error) => panic!("no provider: {:?}", error),
    }
}

#[test]
fn default_fails_where_the_host_has_none() {
    let lookup: Lookup = Ok(None);
    assert!(matches!(Ethereum::default(lookup), Err(Eip1193Error::JsNoEthereum)));
}

#[test]
fn default_fails_where_the_lookup_threw() {
    let lookup: Lookup = Err("window is not defined".to_string());
    assert!(matches!(Ethereum::default(lookup), Err(Eip1193Error::JsNoEthereum)));
}

#[test]
fn is_available_goes_by_the_lookup() {
    let present: Lookup = Ok(Some(1));
    let absent: Lookup = Ok(None);
    let thrown: Lookup = Err("no window".to_string());
    assert!(Eip1193::is_available(&present));
    assert!(!Eip1193::is_available(&absent));
    assert!(!Eip1193::is_available(&thrown));
}

#[test]
fn without_provider_every_call_is_unavailable() {
    let lookups: Vec<Lookup> = vec![Ok(None), Err("no window".to_string())];
    for lookup in lookups {
        assert!(!Eip1193::is_available(&lookup));
        for method in ["eth_accounts", "eth_chainId", ""] {
            for params in [Value::Null, Value::Array(vec![text("0x1")]), text("x")] {
                let result = call(lookup.clone(), method, params, echo);
                assert!(matches!(result, Err(Eip1193Error::JsNoEthereum)));
            }
        }
    }
}

#[test]
fn without_provider_an_encoding_error_is_not_looked_at() {
    let transport = Eip1193::new();
    let lookup: Lookup = Ok(None);
    let next = transport.request(lookup, "eth_call", Err(encoding_error()));
    assert!(matches!(next, Err(Eip1193Error::JsNoEthereum)));
}

#[test]
fn encoding_error_fails_the_call() {
    let transport = Eip1193::new();
    let lookup: Lookup = Ok(Some(1));
    let told = encoding_error().to_string();
    match transport.request(lookup, "eth_call", Err(encoding_error())) {
        Err(Eip1193Error::SerdeJson(error)) => assert_eq!(error.to_string(), told),
        other => panic!("not an encoding failure: {:?}", other),
    }
}

#[test]
fn request_goes_to_the_provider_that_was_found() {
    let transport = Eip1193::new();
    let lookup: Lookup = Ok(Some(42));
    let params = Value::Array(vec![text("0xabc"), text("latest")]);
    match transport.request(lookup, "eth_getBalance", Ok(params.clone())) {
        Ok(call) => {
            assert_eq!(call.provider.handle, 42);
            assert_eq!(call.request.method(), "eth_getBalance");
            assert_eq!(call.request.params(), params);
        }
        Err(error) => panic!("no call: {:?}", error),
    }
}

#[test]
fn request_sends_no_parameters_as_the_empty_sequence() {
    let transport = Eip1193::new();
    for params in [Value::Null, text("x"), Value::Integer(3), Value::Object(vec![])] {
        let lookup: Lookup = Ok(Some(1));
        match transport.request(lookup, "eth_accounts", Ok(params)) {
            Ok(call) => assert_eq!(call.request.params(), Value::Array(vec![])),
            Err(error) => panic!("no call: {:?}", error),
        }
    }
}

#[test]
fn echoing_provider_answers_with_the_parameters() {
    let params = Value::Array(vec![
        text("0xabc"),
        Value::Integer(-1),
        Value::Array(vec![Value::Bool(true), Value::Null]),
        Value::Object(vec![("k".to_string(), Value::Decimal("1.25".to_string()))]),
    ]);
    let answer = call(Ok(Some(1)), "echo", params.clone(), echo);
    match answer {
        Ok(value) => assert_eq!(value, params),
        Err(error) => panic!("the call failed: {:?}", error),
    }
}

#[test]
fn echoing_provider_answers_the_empty_sequence_with_itself() {
    let answer = call(Ok(Some(1)), "echo", Value::Array(vec![]), echo);
    assert!(matches!(answer, Ok(value) if value == Value::Array(vec![])));
}

#[test]
fn echoing_provider_answers_other_shapes_with_the_empty_sequence() {
    let answer = call(Ok(Some(1)), "echo", Value::Null, echo);
    assert!(matches!(answer, Ok(value) if value == Value::Array(vec![])));
}

#[test]
fn provider_sees_the_method() {
    let answer = call(Ok(Some(1)), "eth_chainId", Value::Null, name_of_method);
    assert!(matches!(answer, Ok(value) if value == text("eth_chainId")));
}

#[test]
fn structured_rejection_passes_through() {
    let answer = call(Ok(Some(1)), "eth_requestAccounts", Value::Null, reject_as_user);
    match answer {
        Err(Eip1193Error::JsonRpcError(error)) => assert_eq!(
            error,
            JsonRpcError { code: 4001, message: "User rejected".to_string(), data: None }
        ),
        other => panic!("not a JSON-RPC error: {:?}", other),
    }
}

#[test]
fn bare_string_rejection_is_opaque() {
    let answer = call(Ok(Some(1)), "eth_requestAccounts", Value::Null, reject_with_boom);
    match answer {
        Err(Eip1193Error::JsValueError(raw)) => assert_eq!(raw, "boom"),
        other => panic!("not an opaque rejection: {:?}", other),
    }
}

#[test]
fn settle_hands_on_what_the_provider_resolved_with() {
    let transport = Eip1193::new();
    let answer = Value::Object(vec![("result".to_string(), text("0x1"))]);
    assert!(matches!(transport.settle(Ok(answer.clone())), Ok(value) if value == answer));
    assert!(matches!(transport.settle(Ok(Value::Null)), Ok(Value::Null)));
}

#[test]
fn decoded_hands_on_what_was_decoded() {
    let transport = Eip1193::new();
    let answer: Result<Vec<String>, serde_json::Error> = Ok(vec!["0xabc".to_string()]);
    match transport.decoded(answer) {
        Ok(accounts) => assert_eq!(accounts, vec!["0xabc".to_string()]),
        Err(error) => panic!("not decoded: {:?}", error),
    }
}

#[test]
fn decoding_error_fails_the_call_as_unreadable() {
    let transport = Eip1193::new();
    let answer: Result<u64, serde_json::Error> = serde_json::from_str::<u64>("\"0x1\"");
    assert!(answer.is_err());
    assert!(matches!(transport.decoded(answer), Err(Eip1193Error::JsParseError)));
}

#[test]
fn second_call_sees_that_the_provider_is_gone() {
    let params = Value::Array(vec![text("0x1")]);
    let first = call(Ok(Some(1)), "echo", params.clone(), echo);
    assert!(matches!(first, Ok(value) if value == params));
    let second = call(Ok(None), "echo", params.clone(), echo);
    assert!(matches!(second, Err(Eip1193Error::JsNoEthereum)));
}

#[test]
fn second_call_sees_that_the_provider_is_back() {
    let params = Value::Array(vec![text("0x1")]);
    let first = call(Err("no window".to_string()), "echo", params.clone(), echo);
    assert!(matches!(first, Err(Eip1193Error::JsNoEthereum)));
    let second = call(Ok(Some(2)), "echo", params.clone(), echo);
    assert!(matches!(second, Ok(value) if value == params));
}

#[test]
fn one_transport_serves_calls_in_a_row() {
    let transport = Eip1193::new();
    let copy = transport.clone();
    let present: Lookup = Ok(Some(1));
    let absent: Lookup = Ok(None);
    assert!(transport.request(present, "a", Ok(Value::Null)).is_ok());
    assert!(matches!(
        transport.request(absent, "a", Ok(Value::Null)),
        Err(Eip1193Error::JsNoEthereum)
    ));
    let again: Lookup = Ok(Some(1));
    assert!(copy.request(again, "a", Ok(Value::Null)).is_ok());
}
