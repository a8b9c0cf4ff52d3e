//! The provider, and the looking for it.
use crate::error::Eip1193Error;
use vstd::prelude::*;

verus! {

/// An EIP-1193 provider that was found. `H` is whatever the host hands out to
/// reach it; this crate never looks inside.
#[derive(Debug)]
pub struct Ethereum<H> {
    pub handle: H,
}

/// Whether a lookup came back with a provider. The host answers a lookup
/// with a handle, with nothing, or by throwing; only the first is a provider.
pub open spec fn found<H, E>(lookup: Result<Option<H>, E>) -> bool {
    lookup matches Ok(Some(_))
}

/// What a lookup amounts to: the provider, or the failure that there is none.
pub open spec fn resolved<H, E>(lookup: Result<Option<H>, E>) -> Result<Ethereum<H>, Eip1193Error> {
    match lookup {
        Ok(Some(handle)) => Ok(Ethereum { handle }),
        _ => Err(Eip1193Error::JsNoEthereum),
    }
}

impl<H> Ethereum<H> {
    /// The provider that `lookup` came back with; [`Eip1193Error::JsNoEthereum`]
    /// where it came back with none or did not come back at all.
    pub fn default<E>(lookup: Result<Option<H>, E>) -> (provider: Result<Ethereum<H>, Eip1193Error>)
        ensures
            provider == resolved(lookup),
            provider is Ok <==> found(lookup),
    {
        match lookup {
            Ok(Some(handle)) => Ok(Ethereum { handle }),
            _ => Err(Eip1193Error::JsNoEthereum),
        }
    }
}

} // verus!
