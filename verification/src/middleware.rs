//! Relay-endpoint configuration and the submission middleware that
//! prepares a signed transaction for dispatch to the primary relay.

use ethers::types::Bytes;
use url::Url;
use vstd::prelude::*;

use crate::share::{
    InternalFlashbotsPayload, InternalFlashbotsPayloadPreferences, ShareTransactionOptions,
    spec_payload_of,
};

verus! {

/// url's parsed URL type. A relay address is stored and handed back
/// unchanged; nothing here reads its parts.
#[verifier::external_type_specification]
#[verifier::external_body]
pub struct ExUrl(Url);

/// A network destination for submissions: an address plus an optional
/// signing identity used to authenticate requests. A configuration
/// holder only; the transport that speaks to it lives outside this crate.
pub struct RelayEndpoint<S> {
    pub url: Url,
    pub signer: Option<S>,
}

impl<S> RelayEndpoint<S> {
    pub fn new(url: Url, signer: Option<S>) -> (r: Self)
        ensures
            r == (RelayEndpoint { url, signer }),
    {
        RelayEndpoint { url, signer }
    }

    /// The configured address.
    pub fn url(&self) -> (r: &Url)
        ensures
            *r == self.url,
    {
        &self.url
    }

    /// Whether authenticated submission is possible: a signer is present.
    pub fn can_authenticate(&self) -> (r: bool)
        ensures
            r == (self.signer is Some),
    {
        self.signer.is_some()
    }
}

/// Routes privately shared transactions: holds the chain-access provider,
/// the fixed primary relay (with its signer), and an optional simulation
/// relay set after construction.
pub struct MevShareMiddleware<M, S> {
    inner: M,
    relay: RelayEndpoint<S>,
    simulation_relay: Option<RelayEndpoint<S>>,
}

impl<M, S> MevShareMiddleware<M, S> {
    /// The stored chain-access provider, unused by the routing logic.
    pub closed spec fn spec_inner(self) -> M {
        self.inner
    }

    /// The primary relay endpoint, fixed at construction.
    pub closed spec fn spec_relay(self) -> RelayEndpoint<S> {
        self.relay
    }

    /// The optional simulation relay endpoint.
    pub closed spec fn spec_simulation_relay(self) -> Option<RelayEndpoint<S>> {
        self.simulation_relay
    }

    /// Well-formedness: the primary relay carries a signer, so
    /// authenticated submission is always possible. Construction
    /// establishes it, and no method touches the primary relay after.
    pub open spec fn wf(self) -> bool {
        self.spec_relay().signer is Some
    }

    pub fn new(inner: M, relay_url: Url, relay_signer: S) -> (r: Self)
        ensures
            r.spec_inner() == inner,
            r.spec_relay() == (RelayEndpoint { url: relay_url, signer: Some(relay_signer) }),
            r.spec_simulation_relay() is None,
            r.wf(),
    {
        Self {
            inner,
            relay: RelayEndpoint::new(relay_url, Some(relay_signer)),
            simulation_relay: None,
        }
    }

    /// Get the relay endpoint used by the middleware.
    pub fn relay(&self) -> (r: &RelayEndpoint<S>)
        ensures
            *r == self.spec_relay(),
    {
        &self.relay
    }

    /// Get the relay endpoint used by the middleware to simulate
    /// bundles if set.
    pub fn simulation_relay(&self) -> (r: Option<&RelayEndpoint<S>>)
        ensures
            r is Some <==> self.spec_simulation_relay() is Some,
            r matches Some(e) ==> self.spec_simulation_relay() == Some(*e),
    {
        self.simulation_relay.as_ref()
    }

    /// Set a separate relay to use for simulating bundles, replacing any
    /// previous one. The installed endpoint carries no signer; the
    /// primary relay and the provider are untouched.
    pub fn set_simulation_relay(&mut self, relay_url: Url)
        ensures
            final(self).spec_simulation_relay() == Some(
                RelayEndpoint::<S> { url: relay_url, signer: None },
            ),
            final(self).spec_relay() == old(self).spec_relay(),
            final(self).spec_inner() == old(self).spec_inner(),
    {
        self.simulation_relay = Some(RelayEndpoint::new(relay_url, None));
    }

    /// Build the submission payload for one signed transaction: the exact
    /// value the transport must dispatch to the primary relay. The
    /// network call itself belongs to the transport collaborator outside
    /// this crate.
    pub fn send_share_tx(
        &self,
        signed_tx: Bytes,
        opts: ShareTransactionOptions,
    ) -> (r: InternalFlashbotsPayload)
        ensures
            r == spec_payload_of(signed_tx, opts),
    {
        let max_block_number = opts.max_block_number;
        InternalFlashbotsPayload {
            signed_tx,
            max_block_number,
            preferences: InternalFlashbotsPayloadPreferences::from(opts),
        }
    }
}

} // verus!
