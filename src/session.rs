//! Decisions of a live tunnel: frame masking, websocket keep-alive, UDP
//! idle expiry and the per-flow datagram queue.

use vstd::prelude::*;

verus! {

/// Which end of the websocket a frame is sent from.
#[derive(Clone, Copy, Debug, PartialEq, Eq, Structural)]
pub enum Role {
    Client,
    Server,
}

/// A client masks every frame; a server masks only when told to.
pub open spec fn masks(role: Role, mask_frame: bool) -> bool {
    role == Role::Client || mask_frame
}

/// Whether frames sent from `role` carry the mask bit.
pub fn frame_masked(role: Role, mask_frame: bool) -> (r: bool)
    ensures
        r == masks(role, mask_frame),
{
    match role {
        Role::Client => true,
        Role::Server => mask_frame,
    }
}

/// What a keep-alive tick asks for.
#[derive(Clone, Copy, Debug, PartialEq, Eq, Structural)]
pub enum KeepaliveAction {
    SendPing,
    Timeout,
}

/// The number of unanswered pings after which the connection is lost.
pub const MAX_MISSED_PINGS: u8 = 3;

/// Keep-alive of one websocket: pings sent since any frame last arrived.
#[derive(Clone, Copy, Debug)]
pub struct Keepalive {
    pub missed: u8,
}

/// One tick: a ping while fewer than three are unanswered, else a timeout.
pub open spec fn tick_of(missed: u8) -> (u8, KeepaliveAction) {
    if missed >= MAX_MISSED_PINGS {
        (missed, KeepaliveAction::Timeout)
    } else {
        ((missed + 1) as u8, KeepaliveAction::SendPing)
    }
}

impl Keepalive {
    pub open spec fn wf(&self) -> bool {
        self.missed <= MAX_MISSED_PINGS
    }

    /// A keep-alive on a connection that has just been established.
    pub fn new() -> (r: Keepalive)
        ensures
            r.missed == 0,
            r.wf(),
    {
        Keepalive { missed: 0 }
    }

    /// A frame arrived: the peer is alive.
    pub fn on_frame(&mut self)
        ensures
            final(self).missed == 0,
            final(self).wf(),
    {
        self.missed = 0;
    }

    /// The ping period has elapsed.
    pub fn on_tick(&mut self) -> (r: KeepaliveAction)
        requires
            old(self).wf(),
        ensures
            (final(self).missed, r) == tick_of(old(self).missed),
            final(self).wf(),
    {
        if self.missed >= MAX_MISSED_PINGS {
            KeepaliveAction::Timeout
        } else {
            self.missed = self.missed + 1;
            KeepaliveAction::SendPing
        }
    }
}

/// A UDP flow with `timeout` whose last datagram came at `last` has expired
/// at `now` once `timeout` has passed; a flow without timeout never does.
pub open spec fn udp_expired(timeout: Option<u64>, last: u64, now: u64) -> bool {
    match timeout {
        Some(t) => now >= last + t,
        None => false,
    }
}

/// Whether a UDP flow has been idle for its whole timeout. Times are in
/// seconds.
pub fn udp_flow_expired(timeout: Option<u64>, last_activity: u64, now: u64) -> (r: bool)
    ensures
        r == udp_expired(timeout, last_activity, now),
{
    match timeout {
        Some(t) => now >= last_activity && now - last_activity >= t,
        None => false,
    }
}

/// The datagrams that wait in a queue of `capacity` after `d` is pushed:
/// when it is full, the oldest is dropped.
pub open spec fn pushed(s: Seq<Seq<u8>>, d: Seq<u8>, capacity: nat) -> Seq<Seq<u8>> {
    if s.len() < capacity {
        s.push(d)
    } else {
        s.drop_first().push(d)
    }
}

/// The bounded FIFO queue of datagrams of one UDP flow.
#[derive(Clone, Debug)]
pub struct DatagramQueue {
    items: Vec<Vec<u8>>,
    capacity: usize,
}

impl DatagramQueue {
    pub closed spec fn view(&self) -> Seq<Seq<u8>> {
        self.items@.map_values(|d: Vec<u8>| d@)
    }

    pub closed spec fn capacity_of(&self) -> nat {
        self.capacity as nat
    }

    pub closed spec fn wf(&self) -> bool {
        0 < self.capacity && self.items@.len() <= self.capacity
    }

    /// An empty queue that holds at most `capacity` datagrams.
    pub fn new(capacity: usize) -> (r: DatagramQueue)
        requires
            capacity > 0,
        ensures
            r.wf(),
            r.view() == Seq::<Seq<u8>>::empty(),
            r.capacity_of() == capacity,
    {
        let r = DatagramQueue { items: Vec::new(), capacity };
        assert(r.view() =~= Seq::<Seq<u8>>::empty());
        r
    }

    /// The number of waiting datagrams.
    pub fn len(&self) -> (r: usize)
        requires
            self.wf(),
        ensures
            r == self.view().len(),
            r <= self.capacity_of(),
    {
        self.items.len()
    }

    /// Queues a datagram, dropping the oldest when the queue is full.
    pub fn push(&mut self, d: Vec<u8>)
        requires
            old(self).wf(),
        ensures
            final(self).wf(),
            final(self).capacity_of() == old(self).capacity_of(),
            final(self).view() == pushed(old(self).view(), d@, old(self).capacity_of()),
    {
        let ghost s = self.view();
        if self.items.len() >= self.capacity {
            self.items.remove(0);
            assert(self.view() =~= s.drop_first());
        }
        self.items.push(d);
        assert(self.view() =~= pushed(s, d@, self.capacity as nat));
    }

    /// Takes the oldest datagram, whole.
    pub fn pop(&mut self) -> (r: Option<Vec<u8>>)
        requires
            old(self).wf(),
        ensures
            final(self).wf(),
            final(self).capacity_of() == old(self).capacity_of(),
            old(self).view().len() == 0 ==> r is None && final(self).view() == old(self).view(),
            old(self).view().len() > 0 ==> (r matches Some(d) && d@ == old(self).view()[0]
                && final(self).view() == old(self).view().drop_first()),
    {
        if self.items.len() == 0 {
            return None;
        }
        let ghost s = self.view();
        let d = self.items.remove(0);
        assert(self.view() =~= s.drop_first());
        Some(d)
    }
}

/// Every frame a client sends is masked; a server's frames are not, unless
/// masking is enabled on it.
pub proof fn lemma_masking(mask_frame: bool)
    ensures
        masks(Role::Client, mask_frame),
        masks(Role::Server, mask_frame) == mask_frame,
{
}

/// From the last frame received, the ticks at one, two and three periods
/// send pings, and the tick at four periods, the first after three missed
/// answers, declares the connection lost; a frame in between starts over.
pub proof fn lemma_ping_liveness()
    ensures
        tick_of(0) == (1u8, KeepaliveAction::SendPing),
        tick_of(1) == (2u8, KeepaliveAction::SendPing),
        tick_of(2) == (3u8, KeepaliveAction::SendPing),
        tick_of(3) == (3u8, KeepaliveAction::Timeout),
        forall|m: u8| m < MAX_MISSED_PINGS ==> (#[trigger] tick_of(m)).1 == KeepaliveAction::SendPing,
{
}

/// A UDP flow with timeout `t` expires exactly when `t` seconds have passed
/// since its last datagram; one without timeout never expires.
pub proof fn lemma_udp_idle_close(t: u64, last: u64, now: u64)
    ensures
        udp_expired(Some(t), last, now) <==> now >= last + t,
        !udp_expired(None, last, now),
{
}

/// A datagram queued below capacity comes out whole, after those queued
/// before it: no datagram is split or merged.
pub proof fn lemma_datagram_boundaries(s: Seq<Seq<u8>>, d: Seq<u8>, capacity: nat)
    requires
        s.len() < capacity,
    ensures
        pushed(s, d, capacity) == s.push(d),
        pushed(s, d, capacity).len() == s.len() + 1,
        pushed(s, d, capacity)[s.len() as int] == d,
        forall|i: int| 0 <= i < s.len() ==> #[trigger] pushed(s, d, capacity)[i] == s[i],
{
}

} // verus!
