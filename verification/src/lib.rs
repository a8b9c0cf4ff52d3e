//! The deciding half of an EIP-1193 transport.
//!
//! An EIP-1193 provider is an object that the host (a browser wallet, most
//! often) injects at a well-known place. It answers `request({method, params})`
//! with a promise and announces events to listeners. Everything that touches
//! that object is the host's business; everything that has to be decided about
//! a call is in this crate, as functions from plain values to plain values,
//! each with a proved contract:
//!
//! - [`Ethereum::default`] and [`Eip1193::is_available`]: whether a lookup
//!   found a provider;
//! - [`Eip1193::request`]: what is sent, with the parameters made a sequence;
//! - [`Eip1193::settle`] and [`Eip1193::decoded`]: what the caller sees of the
//!   answer, a rejection told apart into a JSON-RPC error and anything else;
//! - [`Eip1193::on`] and [`Listener::deliver`]: listeners for the provider's
//!   events;
//! - `ProviderError::from`: how a failure leaves the transport.
//!
//! [`exchange`](mod@exchange) puts a whole call together and proves what
//! holds of it.
pub mod error;
pub mod exchange;
pub mod provider;
pub mod request;
pub mod transport;
pub mod value;

pub use error::{Eip1193Error, JsonRpcError, ProviderError, Rejection};
pub use provider::Ethereum;
pub use request::Request;
pub use transport::{Call, Eip1193, Listener};
pub use value::Value;
