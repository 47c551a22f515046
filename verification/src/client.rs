//! The client facade's verified core.
//!
//! Construction resolves the credential into its header value, builds the
//! HTTP transport, and starts with an empty intake buffer — all before any
//! background work exists, so a failed construction starts nothing. The host
//! wraps the core behind a lock shared with one flush-loop task: producers
//! call [`ApmClient::send_batch`], the task calls [`ApmClient::drain`] and drives a
//! [`crate::flush::FlushLoop`] with the core's delivery parameters.

use vstd::prelude::*;

use crate::auth::resolve_optional_authorization;
use crate::auth::resolved_header;
use crate::batch::Batch;
use crate::buffer::IntakeBuffer;
use crate::config::Authorization;
use crate::flush::FlushLoop;
use crate::transport::build_transport;
use crate::transport::BuildError;

verus! {

/// The client core: the resolved, immutable delivery parameters and the
/// shared intake buffer.
pub struct ApmClient {
    pub address: String,
    pub authorization: Option<String>,
    pub http: reqwest::Client,
    pub sleep_millis: u64,
    pub buffer: IntakeBuffer,
}

impl ApmClient {
    /// Builds a client core: resolves the credential once, builds the
    /// transport for the given trust posture, and starts with an empty
    /// buffer. Fails exactly when the transport cannot be built, and then no
    /// client — and so no flush loop — ever exists. `root_cert_pem` holds the
    /// PEM bytes of an extra root certificate, already read by the caller.
    pub fn new(
        apm_address: String,
        authorization: Option<Authorization>,
        allow_invalid_certs: bool,
        root_cert_pem: Option<&[u8]>,
        sleep_millis: u64,
    ) -> (r: Result<ApmClient, BuildError>)
        ensures
            r matches Ok(c) ==> {
                &&& c.address == apm_address
                &&& c.sleep_millis == sleep_millis
                &&& c.buffer@ == Seq::<Batch>::empty()
                &&& match authorization {
                    Some(a) => c.authorization matches Some(h) && h@ == resolved_header(a),
                    None => c.authorization is None,
                }
            },
            root_cert_pem is None ==> !(r matches Err(BuildError::InvalidCertificate(_))),
    {
        let resolved = resolve_optional_authorization(&authorization);
        let http = match build_transport(allow_invalid_certs, root_cert_pem) {
            Ok(client) => client,
            Err(e) => {
                return Err(e);
            },
        };
        Ok(
            ApmClient {
                address: apm_address,
                authorization: resolved,
                http,
                sleep_millis,
                buffer: IntakeBuffer::new(),
            },
        )
    }

    /// Enqueues one batch for delivery. Appends under the caller's lock and
    /// returns at once: no I/O, no failure, no visibility into delivery.
    pub fn send_batch(&mut self, batch: Batch)
        ensures
            final(self).buffer@ == old(self).buffer@.push(batch),
            final(self).address == old(self).address,
            final(self).authorization == old(self).authorization,
            final(self).http == old(self).http,
            final(self).sleep_millis == old(self).sleep_millis,
    {
        self.buffer.enqueue(batch);
    }

    /// Takes every pending batch, in enqueue order, leaving the buffer empty.
    /// Called by the flush-loop task on each drain.
    pub fn drain(&mut self) -> (r: Vec<Batch>)
        ensures
            r@ == old(self).buffer@,
            final(self).buffer@ == Seq::<Batch>::empty(),
            final(self).address == old(self).address,
            final(self).authorization == old(self).authorization,
            final(self).http == old(self).http,
            final(self).sleep_millis == old(self).sleep_millis,
    {
        self.buffer.drain()
    }

    /// The flush loop this client's background task runs: same address,
    /// credential and interval, starting idle.
    pub fn flush_loop(&self) -> (r: FlushLoop)
        ensures
            r.address == self.address,
            r.authorization == self.authorization,
            r.sleep_millis == self.sleep_millis,
            r.pending@ == Seq::<Batch>::empty(),
    {
        let authorization = match &self.authorization {
            Some(a) => Some(a.clone()),
            None => None,
        };
        FlushLoop::new(self.address.clone(), authorization, self.sleep_millis)
    }
}

} // verus!
