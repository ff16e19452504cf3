//! Server-side broadcast hub.
//!
//! The hub is the single authority for fan-out: it owns a publish log of
//! server-to-client events and one read cursor per subscribed session, over a
//! bounded per-subscriber queue capacity. Publishing appends to the log;
//! polling a subscription delivers the oldest unread event. A subscriber whose
//! backlog outgrows the capacity is fast-forwarded and told exactly how many
//! events it lost (a recoverable overflow indication, not an error); other
//! subscribers are unaffected. A subscription created at a moment sees every
//! event published from that moment on and none published before.

use crate::messages::{Address, C2s, ClientToServerMessage, S2c, ServerToClientMessage};
use vstd::prelude::*;

verus! {

/// Mathematical state of the hub: the full publish log, one optional cursor
/// per subscriber slot (`None` once withdrawn), the queue capacity, and
/// whether the hub is still accepting work.
#[verifier::ext_equal]
pub struct HubModel {
    pub capacity: nat,
    pub events: Seq<S2c>,
    pub cursors: Seq<Option<nat>>,
    pub accepting: bool,
}

/// A well-formed hub: positive capacity, every live cursor within the log.
pub open spec fn hub_wf(h: HubModel) -> bool {
    &&& h.capacity >= 1
    &&& forall|i: int|
        0 <= i < h.cursors.len() ==> ((#[trigger] h.cursors[i]) matches Some(c) ==> c
            <= h.events.len())
}

/// What one poll of a subscription yields, as a mathematical value.
pub enum RecvStep {
    /// The oldest unread event.
    Event(S2c),
    /// The subscriber's queue overflowed: this many events were dropped for
    /// it (and only it); reading resumes at the oldest retained event.
    Lagged(nat),
    /// Nothing unread yet; the hub is still running.
    Empty,
    /// No further event will ever arrive: the hub shut down and the backlog
    /// is drained, or the subscription was withdrawn.
    Closed,
}

/// What one poll of a subscription yields.
#[derive(Debug, PartialEq, Eq)]
pub enum RecvOutcome {
    Event(ServerToClientMessage),
    Lagged(u64),
    Empty,
    Closed,
}

impl View for RecvOutcome {
    type V = RecvStep;

    open spec fn view(&self) -> RecvStep {
        match self {
            RecvOutcome::Event(m) => RecvStep::Event(m@),
            RecvOutcome::Lagged(n) => RecvStep::Lagged(*n as nat),
            RecvOutcome::Empty => RecvStep::Empty,
            RecvOutcome::Closed => RecvStep::Closed,
        }
    }
}

/// An operator command on the server console.
#[derive(Clone, Copy, PartialEq, Eq, Structural, Debug)]
pub enum ServerCommand {
    /// Stop accepting connections and shut the hub down.
    Quit,
    /// Broadcast the server-wide heartbeat probe.
    Ping,
}

/// A new subscription, placed at the current end of the log.
pub open spec fn spec_subscribe(h: HubModel) -> (HubModel, int) {
    (
        HubModel { cursors: h.cursors.push(Some(h.events.len())), ..h },
        h.cursors.len() as int,
    )
}

/// One published event: appended to the log; no cursor moves.
pub open spec fn spec_publish(h: HubModel, e: S2c) -> HubModel {
    HubModel { events: h.events.push(e), ..h }
}

/// A withdrawn subscription: that cursor (and only that cursor) is cleared.
pub open spec fn spec_unsubscribe(h: HubModel, i: int) -> HubModel {
    HubModel { cursors: h.cursors.update(i, None), ..h }
}

/// The hub after shutdown: nothing more will be published or accepted.
pub open spec fn spec_shutdown(h: HubModel) -> HubModel {
    HubModel { accepting: false, ..h }
}

/// What polling subscription `i` yields in state `h`.
pub open spec fn spec_recv_outcome(h: HubModel, i: int) -> RecvStep
    recommends
        hub_wf(h),
        0 <= i < h.cursors.len(),
{
    match h.cursors[i] {
        Some(c) => {
            if h.events.len() - c > h.capacity {
                RecvStep::Lagged((h.events.len() - h.capacity - c) as nat)
            } else if c < h.events.len() {
                RecvStep::Event(h.events[c as int])
            } else if !h.accepting {
                RecvStep::Closed
            } else {
                RecvStep::Empty
            }
        },
        None => RecvStep::Closed,
    }
}

/// The hub state after polling subscription `i` in state `h`.
pub open spec fn spec_recv_state(h: HubModel, i: int) -> HubModel
    recommends
        hub_wf(h),
        0 <= i < h.cursors.len(),
{
    match h.cursors[i] {
        Some(c) => {
            if h.events.len() - c > h.capacity {
                HubModel {
                    cursors: h.cursors.update(i, Some((h.events.len() - h.capacity) as nat)),
                    ..h
                }
            } else if c < h.events.len() {
                HubModel { cursors: h.cursors.update(i, Some((c + 1) as nat)), ..h }
            } else {
                h
            }
        },
        None => h,
    }
}

/// The broadcast hub.
pub struct Hub {
    capacity: usize,
    events: Vec<ServerToClientMessage>,
    cursors: Vec<Option<usize>>,
    accepting: bool,
}

impl View for Hub {
    type V = HubModel;

    closed spec fn view(&self) -> HubModel {
        HubModel {
            capacity: self.capacity as nat,
            events: self.events@.map_values(|m: ServerToClientMessage| m@),
            cursors: self.cursors@.map_values(
                |c: Option<usize>|
                    match c {
                        Some(x) => Some(x as nat),
                        None => None,
                    },
            ),
            accepting: self.accepting,
        }
    }
}

impl Hub {
    pub open spec fn wf(&self) -> bool {
        hub_wf(self@)
    }

    /// A fresh hub with the given per-subscriber queue capacity, no events
    /// and no subscribers.
    pub fn new(capacity: usize) -> (r: Hub)
        requires
            capacity >= 1,
        ensures
            r.wf(),
            r@.capacity == capacity,
            r@.events.len() == 0,
            r@.cursors.len() == 0,
            r@.accepting,
    {
        Hub { capacity, events: Vec::new(), cursors: Vec::new(), accepting: true }
    }

    /// Registers a new subscriber and returns its handle. The subscription
    /// starts at the current end of the log: events published from now on
    /// will be delivered to it; events already published never will.
    pub fn subscribe(&mut self) -> (id: usize)
        requires
            old(self).wf(),
        ensures
            final(self).wf(),
            final(self)@ == spec_subscribe(old(self)@).0,
            id == spec_subscribe(old(self)@).1,
            id < final(self)@.cursors.len(),
            final(self)@.cursors[id as int] == Some(old(self)@.events.len()),
    {
        let id = self.cursors.len();
        let end = self.events.len();
        self.cursors.push(Some(end));
        proof {
            assert(self@ =~= spec_subscribe(old(self)@).0);
        }
        id
    }

    /// Fans one event out: appends it to the publish log, where every current
    /// subscriber will find it. With zero subscribers the event is simply
    /// never read — a no-op in effect, not an error. No cursor moves.
    pub fn publish(&mut self, e: ServerToClientMessage)
        requires
            old(self).wf(),
        ensures
            final(self).wf(),
            final(self)@ == spec_publish(old(self)@, e@),
    {
        self.events.push(e);
        proof {
            assert(self@ =~= spec_publish(old(self)@, e@));
        }
    }

    /// Withdraws subscription `id`. Every other subscription is untouched.
    pub fn unsubscribe(&mut self, id: usize)
        requires
            old(self).wf(),
            id < old(self)@.cursors.len(),
        ensures
            final(self).wf(),
            final(self)@ == spec_unsubscribe(old(self)@, id as int),
    {
        self.cursors[id] = None;
        proof {
            assert(self@ =~= spec_unsubscribe(old(self)@, id as int));
        }
    }

    /// Stops the hub: nothing further will be published. A subscriber that
    /// has drained its backlog then observes `Closed` and ends gracefully.
    pub fn shutdown(&mut self)
        requires
            old(self).wf(),
        ensures
            final(self).wf(),
            final(self)@ == spec_shutdown(old(self)@),
    {
        self.accepting = false;
        proof {
            assert(self@ =~= spec_shutdown(old(self)@));
        }
    }

    /// Polls subscription `id` once: the oldest unread event, or the exact
    /// count of events this subscriber lost to overflow (delivery resumes at
    /// the oldest retained event), or `Empty` / `Closed`. The log and every
    /// other subscriber's cursor are untouched.
    pub fn recv(&mut self, id: usize) -> (r: RecvOutcome)
        requires
            old(self).wf(),
            id < old(self)@.cursors.len(),
            old(self)@.cursors[id as int] is Some,
        ensures
            final(self).wf(),
            final(self)@ == spec_recv_state(old(self)@, id as int),
            r@ == spec_recv_outcome(old(self)@, id as int),
    {
        let c: usize = if let Some(c) = self.cursors[id] {
            c
        } else {
            proof {
                assert(false);
            }
            0
        };
        let len = self.events.len();
        proof {
            assert(self@.cursors[id as int] matches Some(cc) && cc == c as nat);
            assert(c <= len);
        }
        if len - c > self.capacity {
            let nc = len - self.capacity;
            let dropped = nc - c;
            self.cursors[id] = Some(nc);
            proof {
                assert(self@ =~= spec_recv_state(old(self)@, id as int));
            }
            RecvOutcome::Lagged(dropped as u64)
        } else if c < len {
            let m = self.events[c].clone();
            self.cursors[id] = Some(c + 1);
            proof {
                assert(self@ =~= spec_recv_state(old(self)@, id as int));
            }
            RecvOutcome::Event(m)
        } else if !self.accepting {
            RecvOutcome::Closed
        } else {
            RecvOutcome::Empty
        }
    }

    /// Accepts a new connection: announces `Joined(addr)` to the sessions
    /// already subscribed, then subscribes the new session, as one atomic
    /// call — nothing can be published between the announcement and the
    /// subscription, and the new session does not see its own join event.
    pub fn accept_session(&mut self, addr: Address) -> (id: usize)
        requires
            old(self).wf(),
        ensures
            final(self).wf(),
            final(self)@ == spec_subscribe(spec_publish(old(self)@, S2c::Joined(addr))).0,
            id == old(self)@.cursors.len(),
            final(self)@.cursors[id as int] == Some(old(self)@.events.len() + 1),
    {
        self.publish(ServerToClientMessage::Joined(addr));
        self.subscribe()
    }

    /// Serialized handling of one inbound client event: a chat line is
    /// republished to everyone as `Sent(text, addr)`; a leave is republished
    /// as `Left(addr)`; a ping changes nothing here (the caller logs it).
    pub fn handle_inbound(&mut self, m: &ClientToServerMessage, addr: Address)
        requires
            old(self).wf(),
        ensures
            final(self).wf(),
            match m@ {
                C2s::Ping => final(self)@ == old(self)@,
                C2s::Send(s) => final(self)@ == spec_publish(old(self)@, S2c::Sent(s, addr)),
                C2s::Leave => final(self)@ == spec_publish(old(self)@, S2c::Left(addr)),
            },
    {
        match m {
            ClientToServerMessage::Ping => {},
            ClientToServerMessage::Send(s) => {
                let line = s.clone();
                self.publish(ServerToClientMessage::Sent(line, addr));
            },
            ClientToServerMessage::Leave => {
                self.publish(ServerToClientMessage::Left(addr));
            },
        }
    }

    /// One operator command: `ping` broadcasts the server-wide heartbeat;
    /// `quit` shuts the hub down and tells the caller to stop accepting.
    pub fn operator_command(&mut self, cmd: ServerCommand) -> (stop: bool)
        requires
            old(self).wf(),
        ensures
            final(self).wf(),
            cmd is Quit ==> final(self)@ == spec_shutdown(old(self)@) && stop,
            cmd is Ping ==> final(self)@ == spec_publish(old(self)@, S2c::Ping) && !stop,
    {
        match cmd {
            ServerCommand::Quit => {
                self.shutdown();
                true
            },
            ServerCommand::Ping => {
                self.publish(ServerToClientMessage::Ping);
                false
            },
        }
    }

    /// A session ended — its peer left, its transport failed, or the server
    /// is closing it: announce `Left(addr)` to the remaining subscribers and
    /// withdraw the session's own subscription. Only that session's cursor is
    /// removed; every other session keeps its place in the log.
    pub fn session_ended(&mut self, id: usize, addr: Address)
        requires
            old(self).wf(),
            id < old(self)@.cursors.len(),
        ensures
            final(self).wf(),
            final(self)@ == spec_unsubscribe(
                spec_publish(old(self)@, S2c::Left(addr)),
                id as int,
            ),
    {
        self.publish(ServerToClientMessage::Left(addr));
        self.unsubscribe(id);
    }
}

/// Isolation at the hub: polling one subscription never moves another
/// subscriber's cursor, never changes the log, and never closes the hub.
pub proof fn lemma_recv_isolation(h: HubModel, i: int, j: int)
    requires
        0 <= i < h.cursors.len(),
        0 <= j < h.cursors.len(),
        i != j,
    ensures
        spec_recv_state(h, i).cursors[j] == h.cursors[j],
        spec_recv_state(h, i).events == h.events,
        spec_recv_state(h, i).accepting == h.accepting,
{
}

/// The overflow indication is exact: when a poll reports `Lagged(n)`, exactly
/// `n` events were dropped for that subscriber — its cursor jumps from `c`
/// over `n` events to the oldest retained position — and nothing else moved.
pub proof fn lemma_lag_count_exact(h: HubModel, i: int, c: nat)
    requires
        hub_wf(h),
        0 <= i < h.cursors.len(),
        h.cursors[i] == Some(c),
        h.events.len() - c > h.capacity,
    ensures
        spec_recv_outcome(h, i) == RecvStep::Lagged((h.events.len() - h.capacity - c) as nat),
        spec_recv_state(h, i).cursors[i] == Some((h.events.len() - h.capacity) as nat),
{
}

/// The hub state after subscriber `i` polls `steps` times, with no publish in
/// between.
pub open spec fn iter_recv(h: HubModel, i: int, steps: nat) -> HubModel
    decreases steps,
{
    if steps == 0 {
        h
    } else {
        spec_recv_state(iter_recv(h, i, (steps - 1) as nat), i)
    }
}

/// Repeated polling without overflow advances the cursor one event at a time
/// and touches nothing else.
pub proof fn lemma_iter_recv_cursor(h: HubModel, i: int, c: nat, steps: nat)
    requires
        hub_wf(h),
        0 <= i < h.cursors.len(),
        h.cursors[i] == Some(c),
        c + steps <= h.events.len(),
        h.events.len() - c <= h.capacity,
    ensures
        hub_wf(iter_recv(h, i, steps)),
        iter_recv(h, i, steps).events == h.events,
        iter_recv(h, i, steps).capacity == h.capacity,
        iter_recv(h, i, steps).accepting == h.accepting,
        iter_recv(h, i, steps).cursors.len() == h.cursors.len(),
        iter_recv(h, i, steps).cursors[i] == Some((c + steps) as nat),
        forall|j: int|
            0 <= j < h.cursors.len() && j != i ==> iter_recv(h, i, steps).cursors[j]
                == h.cursors[j],
    decreases steps,
{
    if steps > 0 {
        lemma_iter_recv_cursor(h, i, c, (steps - 1) as nat);
    }
}

/// Fan-out completeness, overflow-free case: a subscriber whose backlog fits
/// its queue observes every pending event exactly once and in publish order —
/// its `steps`-th poll yields precisely the event at log position `c + steps`.
/// (When the backlog does not fit, `lemma_lag_count_exact` accounts for every
/// dropped event instead.)
pub proof fn lemma_fanout_completeness(h: HubModel, i: int, c: nat, steps: nat)
    requires
        hub_wf(h),
        0 <= i < h.cursors.len(),
        h.cursors[i] == Some(c),
        h.events.len() - c <= h.capacity,
        c + steps < h.events.len(),
    ensures
        spec_recv_outcome(iter_recv(h, i, steps), i) == RecvStep::Event(
            h.events[(c + steps) as int],
        ),
{
    lemma_iter_recv_cursor(h, i, c, steps);
}

/// Isolation: when one session ends — on its peer's leave, a transport fault
/// or a framing fault — the hub publishes its departure exactly once and
/// withdraws exactly its subscription: every other subscriber keeps its
/// cursor and sees `Left(addr)` appended as one new event.
pub proof fn lemma_isolation(h: HubModel, id: int, addr: Address, j: int)
    requires
        0 <= id < h.cursors.len(),
        0 <= j < h.cursors.len(),
        j != id,
    ensures
        ({
            let h2 = spec_unsubscribe(spec_publish(h, S2c::Left(addr)), id);
            &&& h2.cursors[j] == h.cursors[j]
            &&& h2.events == h.events.push(S2c::Left(addr))
            &&& h2.events.len() == h.events.len() + 1
            &&& h2.cursors[id] is None
        }),
{
}

/// Join visibility, one-step form: whatever a poll delivers is the event at
/// the subscriber's own cursor, and the cursor never moves backwards. Since
/// `subscribe` places the cursor at the end of the log, no event whose
/// publish completed before the subscription can ever be delivered to it;
/// together with `lemma_fanout_completeness`, every event published after it
/// is delivered (or accounted for by an exact lag report).
pub proof fn lemma_join_visibility(h: HubModel, i: int, c: nat)
    requires
        hub_wf(h),
        0 <= i < h.cursors.len(),
        h.cursors[i] == Some(c),
    ensures
        spec_recv_outcome(h, i) matches RecvStep::Event(e) ==> e == h.events[c as int],
        spec_recv_state(h, i).cursors[i] matches Some(c2) && c2 >= c,
        spec_subscribe(h).0.cursors[spec_subscribe(h).1] == Some(h.events.len()),
{
}

} // verus!
