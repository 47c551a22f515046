//! The flush loop, as a verified state machine.
//!
//! The loop alternates two states: idle (nothing drained) and draining (a
//! drained snapshot still being delivered, oldest batch first). Because the
//! sleep, the drain and every HTTP send suspend on the outside world, the
//! loop itself is driven by its host: the host performs each returned
//! [`FlushCommand`], then hands the outcome back as the next [`FlushEvent`].
//! [`FlushLoop::next`] decides everything else, and is verified: an empty drain
//! sleeps the configured interval and sends nothing; a non-empty drain is
//! delivered one request per batch, strictly in drain order; a failed
//! delivery changes nothing about what is attempted next; the loop never
//! stops.

use vstd::prelude::*;
use vstd::string::StringExecFns;

use crate::batch::Batch;
use crate::batch::BatchView;

verus! {

/// One ready-to-perform HTTP delivery: POST `body` to `url` with the given
/// content type and, if configured, the Authorization header value.
pub struct DeliveryRequest {
    pub url: String,
    pub content_type: String,
    pub authorization: Option<String>,
    pub body: String,
}

/// The fixed intake path appended to the collector address.
pub open spec fn intake_url(address: Seq<char>) -> Seq<char> {
    address + "/intake/v2/events"@
}

/// What a delivery request for `batch` must hold, given the collector
/// address and the resolved credential of the client.
pub open spec fn request_for(
    req: DeliveryRequest,
    address: Seq<char>,
    authorization: Option<String>,
    batch: BatchView,
) -> bool {
    &&& req.url@ == intake_url(address)
    &&& req.content_type@ == "application/x-ndjson"@
    &&& req.authorization == authorization
    &&& req.body@ == batch.ndjson()
}

/// Builds the delivery request for one batch.
pub fn build_request(address: &str, authorization: &Option<String>, batch: &Batch) -> (r:
    DeliveryRequest)
    ensures
        request_for(r, address@, *authorization, batch@),
{
    let mut url = String::from_str(address);
    url.append("/intake/v2/events");
    let content_type = String::from_str("application/x-ndjson");
    let authorization = match authorization {
        Some(a) => Some(a.clone()),
        None => None,
    };
    let body = batch.to_ndjson();
    DeliveryRequest { url, content_type, authorization, body }
}

/// What the host must do next on the loop's behalf.
pub enum FlushCommand {
    /// Drain the intake buffer and report the snapshot back.
    Drain,
    /// Sleep this many milliseconds, then report back.
    Sleep(u64),
    /// Perform this delivery and report back whether it succeeded.
    Deliver(DeliveryRequest),
}

/// What the host reports back after performing a command.
pub enum FlushEvent {
    /// The buffer was drained; this is the snapshot, in enqueue order.
    Drained(Vec<Batch>),
    /// A delivery finished; true on success, false on any failure.
    Sent(bool),
    /// The idle sleep elapsed.
    Slept,
}

/// The spec-level shape of the command [`FlushLoop::next`] returns, without the
/// built request strings.
pub enum CommandKind {
    Drain,
    Sleep(u64),
    Deliver(Batch),
}

/// The loop's state: its fixed delivery parameters and the remainder of the
/// drained snapshot still awaiting delivery (empty exactly in the idle state).
pub struct FlushLoop {
    pub address: String,
    pub authorization: Option<String>,
    pub sleep_millis: u64,
    pub pending: Vec<Batch>,
}

/// The snapshot remainder after the loop reacts to `event` in state `s`.
pub open spec fn next_pending_spec(s: FlushLoop, event: FlushEvent) -> Seq<Batch> {
    match event {
        FlushEvent::Drained(snapshot) => {
            let queue = s.pending@ + snapshot@;
            if queue.len() == 0 {
                queue
            } else {
                queue.drop_first()
            }
        },
        FlushEvent::Sent(_) => {
            if s.pending@.len() == 0 {
                s.pending@
            } else {
                s.pending@.drop_first()
            }
        },
        FlushEvent::Slept => s.pending@,
    }
}

/// The command the loop returns on `event` in state `s`: an empty drain
/// sleeps, a non-empty one starts delivering in order; after a delivery —
/// whatever its outcome — the next pending batch is delivered, or the buffer
/// is drained again at once; after the sleep the buffer is drained again.
pub open spec fn next_command_spec(s: FlushLoop, event: FlushEvent) -> CommandKind {
    match event {
        FlushEvent::Drained(snapshot) => {
            let queue = s.pending@ + snapshot@;
            if queue.len() == 0 {
                CommandKind::Sleep(s.sleep_millis)
            } else {
                CommandKind::Deliver(queue[0])
            }
        },
        FlushEvent::Sent(_) => {
            if s.pending@.len() == 0 {
                CommandKind::Drain
            } else {
                CommandKind::Deliver(s.pending@[0])
            }
        },
        FlushEvent::Slept => CommandKind::Drain,
    }
}

/// Holds when the executable command `cmd` realises the spec-level `kind`
/// for a loop with the fixed parameters of `s`.
pub open spec fn command_matches(cmd: FlushCommand, kind: CommandKind, s: FlushLoop) -> bool {
    match kind {
        CommandKind::Drain => cmd == FlushCommand::Drain,
        CommandKind::Sleep(ms) => cmd == FlushCommand::Sleep(ms),
        CommandKind::Deliver(b) => (cmd matches FlushCommand::Deliver(req) && request_for(
            req,
            s.address@,
            s.authorization,
            b@,
        )),
    }
}

impl FlushLoop {
    /// A loop that has just started: idle, with nothing pending. Its first
    /// command is always a drain.
    pub fn new(address: String, authorization: Option<String>, sleep_millis: u64) -> (r: FlushLoop)
        ensures
            r.address == address,
            r.authorization == authorization,
            r.sleep_millis == sleep_millis,
            r.pending@ == Seq::<Batch>::empty(),
    {
        FlushLoop { address, authorization, sleep_millis, pending: Vec::new() }
    }

    /// Pops the oldest pending batch and builds its delivery.
    fn deliver_next(&mut self) -> (cmd: FlushCommand)
        requires
            old(self).pending@.len() > 0,
        ensures
            final(self).address == old(self).address,
            final(self).authorization == old(self).authorization,
            final(self).sleep_millis == old(self).sleep_millis,
            final(self).pending@ == old(self).pending@.drop_first(),
            (cmd matches FlushCommand::Deliver(req) && request_for(
                req,
                old(self).address@,
                old(self).authorization,
                old(self).pending@[0]@,
            )),
    {
        let batch = self.pending.remove(0);
        let req = build_request(self.address.as_str(), &self.authorization, &batch);
        proof {
            assert(final(self).pending@ =~= old(self).pending@.drop_first());
        }
        FlushCommand::Deliver(req)
    }

    /// One step of the loop: reacts to what the host reports and says what to
    /// do next. Total and loop-free: the loop as a whole never terminates and
    /// never gives up on a snapshot, whatever outcomes arrive.
    pub fn next(&mut self, event: FlushEvent) -> (cmd: FlushCommand)
        ensures
            final(self).address == old(self).address,
            final(self).authorization == old(self).authorization,
            final(self).sleep_millis == old(self).sleep_millis,
            final(self).pending@ == next_pending_spec(*old(self), event),
            command_matches(cmd, next_command_spec(*old(self), event), *old(self)),
    {
        match event {
            FlushEvent::Drained(snapshot) => {
                let mut snapshot = snapshot;
                self.pending.append(&mut snapshot);
                if self.pending.len() == 0 {
                    FlushCommand::Sleep(self.sleep_millis)
                } else {
                    self.deliver_next()
                }
            },
            FlushEvent::Sent(_) => {
                if self.pending.len() == 0 {
                    FlushCommand::Drain
                } else {
                    self.deliver_next()
                }
            },
            FlushEvent::Slept => FlushCommand::Drain,
        }
    }
}

/// Law: an empty check is only a wait. If nothing is pending and the drain
/// came back empty, the loop's one command is to sleep the configured
/// interval — no delivery is requested — nothing becomes pending, and once
/// the sleep has elapsed the loop checks the buffer again.
pub proof fn lemma_empty_drain_only_sleeps(s: FlushLoop, snapshot: Vec<Batch>)
    requires
        s.pending@.len() == 0,
        snapshot@.len() == 0,
    ensures
        next_command_spec(s, FlushEvent::Drained(snapshot)) == CommandKind::Sleep(s.sleep_millis),
        next_pending_spec(s, FlushEvent::Drained(snapshot)).len() == 0,
        next_command_spec(s, FlushEvent::Slept) == CommandKind::Drain,
        next_pending_spec(s, FlushEvent::Slept) == s.pending@,
{
}

/// Law: a delivery outcome changes nothing. The loop reacts to a failed
/// delivery exactly as to a successful one: the rest of the snapshot is still
/// delivered, and once the snapshot is exhausted the loop drains again
/// rather than terminating.
pub proof fn lemma_outcome_ignored(s: FlushLoop, ok: bool)
    ensures
        next_command_spec(s, FlushEvent::Sent(ok)) == next_command_spec(
            s,
            FlushEvent::Sent(!ok),
        ),
        next_pending_spec(s, FlushEvent::Sent(ok)) == next_pending_spec(s, FlushEvent::Sent(!ok)),
        s.pending@.len() > 0 ==> next_command_spec(s, FlushEvent::Sent(ok)) == CommandKind::Deliver(
            s.pending@[0],
        ),
        s.pending@.len() == 0 ==> next_command_spec(s, FlushEvent::Sent(ok)) == CommandKind::Drain,
{
}

} // verus!
