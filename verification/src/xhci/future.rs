use vstd::prelude::*;
use crate::error::Error;
use crate::xhci::ring::EventRing;
use crate::xhci::trb::{GenericTrbEntry, TrbType};

verus! {

/// How long a waiter waits unless it is told otherwise, in milliseconds.
pub const DEFAULT_WAIT_MS: u64 = 100;

/// What an event must be like to fulfil a waiter.
#[derive(Debug, Copy, Clone, PartialEq, Eq, Structural)]
pub struct EventWaitCond {
    /// The kind of the event.
    pub trb_type: TrbType,
    /// The address of the block that the event is about, where that
    /// matters.
    pub trb_addr: Option<u64>,
    /// The device slot that the event is about, where that matters.
    pub slot: Option<u8>,
}

/// One who waits for an event.
#[derive(Debug, Copy, Clone, PartialEq, Eq, Structural)]
pub struct EventWaitInfo {
    /// The id under which the waiter was registered.
    pub id: u64,
    pub cond: EventWaitCond,
    /// Whether an event has fulfilled the waiter.
    pub fulfilled: bool,
    /// The event that fulfilled the waiter last.
    pub event_trb: GenericTrbEntry,
}

impl EventWaitInfo {
    /// Whether `trb` fulfils the waiter: it is of the kind waited for; it
    /// is about the slot waited for, if any; and it is about the block
    /// waited for, if any.
    pub open spec fn spec_matches(&self, trb: GenericTrbEntry) -> bool {
        &&& trb.spec_trb_type() == self.cond.trb_type.spec_code()
        &&& self.cond.slot matches Some(slot) ==> trb.spec_slot_id() == slot
        &&& self.cond.trb_addr matches Some(addr) ==> trb.data == addr
    }

    /// The waiter after `trb` fulfilled it.
    pub open spec fn resolved(self, trb: GenericTrbEntry) -> EventWaitInfo {
        EventWaitInfo { fulfilled: true, event_trb: trb, ..self }
    }

    /// Whether `trb` fulfils the waiter.
    pub fn matches(&self, trb: &GenericTrbEntry) -> (r: bool)
        ensures
            r == self.spec_matches(*trb),
    {
        if trb.trb_type() != self.cond.trb_type.code() {
            return false;
        }
        if let Some(slot) = self.cond.slot {
            if trb.slot_id() != slot {
                return false;
            }
        }
        if let Some(trb_addr) = self.cond.trb_addr {
            if trb.data() != trb_addr {
                return false;
            }
        }
        true
    }

    /// Fulfils the waiter with `trb`: it keeps a copy of the event. A
    /// waiter that was fulfilled before keeps the later event.
    pub fn resolve(&mut self, trb: &GenericTrbEntry) -> (r: Result<(), Error>)
        ensures
            r is Ok,
            *final(self) == old(self).resolved(*trb),
    {
        self.event_trb = *trb;
        self.fulfilled = true;
        Ok(())
    }
}

/// A waiter that names a kind, a slot and a block is fulfilled by exactly
/// the events of that kind about that slot and that block: an event that
/// differs in one of the three leaves it waiting.
pub proof fn lemma_exact_match(w: EventWaitInfo, trb: GenericTrbEntry, slot: u8, addr: u64)
    requires
        w.cond.slot == Some(slot),
        w.cond.trb_addr == Some(addr),
    ensures
        w.spec_matches(trb) <==> (trb.spec_trb_type() == w.cond.trb_type.spec_code()
            && trb.spec_slot_id() == slot && trb.data == addr),
{
}

/// The two things by which a waiter can tell its event from others of the
/// same kind.
#[derive(Debug, Copy, Clone, PartialEq, Eq, Structural)]
pub enum EventFutureWaitType {
    TrbAddr(u64),
    Slot(u8),
}

/// What polling a wait yields.
#[derive(Debug, Copy, Clone, PartialEq, Eq, Structural)]
pub enum EventPoll {
    /// Neither the event nor the deadline has come.
    Pending,
    /// The wait is over: with the event, or with `None` where the deadline
    /// passed first.
    Ready(Option<GenericTrbEntry>),
}

/// A wait for an event, with a deadline.
#[derive(Debug, Copy, Clone, PartialEq, Eq, Structural)]
pub struct EventFuture {
    /// The id of the waiter on the event ring.
    pub wait_on: u64,
    /// The counter value after which the wait is given up.
    pub time_out: u64,
}

/// The deadline of a wait of `wait_ms` milliseconds that starts at the
/// counter value `now`, where the counter runs at `freq` ticks a second.
pub open spec fn spec_deadline(now: u64, freq: u64, wait_ms: u64) -> int {
    now + freq / 1000 * wait_ms
}

impl EventFuture {
    /// Starts to wait on `event_ring` for an event that meets `cond`, for
    /// `wait_ms` milliseconds from the counter value `now`.
    pub fn new_with_timeout(
        event_ring: &mut EventRing,
        wait_ms: u64,
        cond: EventWaitCond,
        now: u64,
        freq: u64,
    ) -> (r: EventFuture)
        requires
            old(event_ring).wf(),
            old(event_ring).next_wait_id < u64::MAX,
            spec_deadline(now, freq, wait_ms) <= u64::MAX,
        ensures
            final(event_ring).wf(),
            r.wait_on == old(event_ring).next_wait_id,
            r.time_out == spec_deadline(now, freq, wait_ms),
            final(event_ring).next_wait_id == old(event_ring).next_wait_id + 1,
            final(event_ring).wait_list@ == old(event_ring).wait_list@.push(
                EventWaitInfo { id: r.wait_on, cond, fulfilled: false, event_trb: GenericTrbEntry {
                    data: 0,
                    status: 0,
                    control: 0,
                } },
            ),
            final(event_ring).ring == old(event_ring).ring,
            final(event_ring).erst == old(event_ring).erst,
            final(event_ring).erst_phys_addr == old(event_ring).erst_phys_addr,
            final(event_ring).cycle_state_ours == old(event_ring).cycle_state_ours,
            final(event_ring).erdp == old(event_ring).erdp,
    {
        assert(freq / 1000 * wait_ms >= 0) by (nonlinear_arith)
            requires
                freq / 1000 >= 0,
                wait_ms >= 0,
        ;
        let time_out = now + freq / 1000 * wait_ms;
        let wait_on = event_ring.register_waiter(cond);
        EventFuture { wait_on, time_out }
    }

    /// Starts to wait for an event of kind `trb_type` about the device slot
    /// `slot`, for `wait_ms` milliseconds.
    pub fn new_on_slot_with_timeout(
        event_ring: &mut EventRing,
        trb_type: TrbType,
        slot: u8,
        wait_ms: u64,
        now: u64,
        freq: u64,
    ) -> (r: EventFuture)
        requires
            old(event_ring).wf(),
            old(event_ring).next_wait_id < u64::MAX,
            spec_deadline(now, freq, wait_ms) <= u64::MAX,
        ensures
            final(event_ring).wf(),
            r.wait_on == old(event_ring).next_wait_id,
            r.time_out == spec_deadline(now, freq, wait_ms),
            final(event_ring).next_wait_id == old(event_ring).next_wait_id + 1,
            final(event_ring).wait_list@ == old(event_ring).wait_list@.push(
                EventWaitInfo {
                    id: r.wait_on,
                    cond: EventWaitCond { trb_type, trb_addr: None, slot: Some(slot) },
                    fulfilled: false,
                    event_trb: GenericTrbEntry { data: 0, status: 0, control: 0 },
                },
            ),
            final(event_ring).ring == old(event_ring).ring,
            final(event_ring).erst == old(event_ring).erst,
            final(event_ring).erst_phys_addr == old(event_ring).erst_phys_addr,
            final(event_ring).cycle_state_ours == old(event_ring).cycle_state_ours,
            final(event_ring).erdp == old(event_ring).erdp,
    {
        Self::new_with_timeout(
            event_ring,
            wait_ms,
            EventWaitCond { trb_type, trb_addr: None, slot: Some(slot) },
            now,
            freq,
        )
    }

    /// Starts to wait for an event of kind `trb_type` about the device slot
    /// `slot`, for the default time.
    pub fn new_on_slot(
        event_ring: &mut EventRing,
        trb_type: TrbType,
        slot: u8,
        now: u64,
        freq: u64,
    ) -> (r: EventFuture)
        requires
            old(event_ring).wf(),
            old(event_ring).next_wait_id < u64::MAX,
            spec_deadline(now, freq, DEFAULT_WAIT_MS) <= u64::MAX,
        ensures
            final(event_ring).wf(),
            r.wait_on == old(event_ring).next_wait_id,
            r.time_out == spec_deadline(now, freq, DEFAULT_WAIT_MS),
            final(event_ring).next_wait_id == old(event_ring).next_wait_id + 1,
            final(event_ring).wait_list@ == old(event_ring).wait_list@.push(
                EventWaitInfo {
                    id: r.wait_on,
                    cond: EventWaitCond { trb_type, trb_addr: None, slot: Some(slot) },
                    fulfilled: false,
                    event_trb: GenericTrbEntry { data: 0, status: 0, control: 0 },
                },
            ),
            final(event_ring).ring == old(event_ring).ring,
            final(event_ring).erst == old(event_ring).erst,
            final(event_ring).erst_phys_addr == old(event_ring).erst_phys_addr,
            final(event_ring).cycle_state_ours == old(event_ring).cycle_state_ours,
            final(event_ring).erdp == old(event_ring).erdp,
    {
        Self::new_on_slot_with_timeout(event_ring, trb_type, slot, DEFAULT_WAIT_MS, now, freq)
    }

    /// Starts to wait for an event of kind `trb_type` about the block at
    /// `trb_addr`, for `wait_ms` milliseconds.
    pub fn new_on_trb_with_timeout(
        event_ring: &mut EventRing,
        trb_type: TrbType,
        trb_addr: u64,
        wait_ms: u64,
        now: u64,
        freq: u64,
    ) -> (r: EventFuture)
        requires
            old(event_ring).wf(),
            old(event_ring).next_wait_id < u64::MAX,
            spec_deadline(now, freq, wait_ms) <= u64::MAX,
        ensures
            final(event_ring).wf(),
            r.wait_on == old(event_ring).next_wait_id,
            r.time_out == spec_deadline(now, freq, wait_ms),
            final(event_ring).next_wait_id == old(event_ring).next_wait_id + 1,
            final(event_ring).wait_list@ == old(event_ring).wait_list@.push(
                EventWaitInfo {
                    id: r.wait_on,
                    cond: EventWaitCond { trb_type, trb_addr: Some(trb_addr), slot: None },
                    fulfilled: false,
                    event_trb: GenericTrbEntry { data: 0, status: 0, control: 0 },
                },
            ),
            final(event_ring).ring == old(event_ring).ring,
            final(event_ring).erst == old(event_ring).erst,
            final(event_ring).erst_phys_addr == old(event_ring).erst_phys_addr,
            final(event_ring).cycle_state_ours == old(event_ring).cycle_state_ours,
            final(event_ring).erdp == old(event_ring).erdp,
    {
        Self::new_with_timeout(
            event_ring,
            wait_ms,
            EventWaitCond { trb_type, trb_addr: Some(trb_addr), slot: None },
            now,
            freq,
        )
    }

    /// Starts to wait for an event of kind `trb_type` about the block at
    /// `trb_addr`, for the default time.
    pub fn new_on_trb(
        event_ring: &mut EventRing,
        trb_type: TrbType,
        trb_addr: u64,
        now: u64,
        freq: u64,
    ) -> (r: EventFuture)
        requires
            old(event_ring).wf(),
            old(event_ring).next_wait_id < u64::MAX,
            spec_deadline(now, freq, DEFAULT_WAIT_MS) <= u64::MAX,
        ensures
            final(event_ring).wf(),
            r.wait_on == old(event_ring).next_wait_id,
            r.time_out == spec_deadline(now, freq, DEFAULT_WAIT_MS),
            final(event_ring).next_wait_id == old(event_ring).next_wait_id + 1,
            final(event_ring).wait_list@ == old(event_ring).wait_list@.push(
                EventWaitInfo {
                    id: r.wait_on,
                    cond: EventWaitCond { trb_type, trb_addr: Some(trb_addr), slot: None },
                    fulfilled: false,
                    event_trb: GenericTrbEntry { data: 0, status: 0, control: 0 },
                },
            ),
            final(event_ring).ring == old(event_ring).ring,
            final(event_ring).erst == old(event_ring).erst,
            final(event_ring).erst_phys_addr == old(event_ring).erst_phys_addr,
            final(event_ring).cycle_state_ours == old(event_ring).cycle_state_ours,
            final(event_ring).erdp == old(event_ring).erdp,
    {
        Self::new_on_trb_with_timeout(event_ring, trb_type, trb_addr, DEFAULT_WAIT_MS, now, freq)
    }

    /// The waiter of this wait among `waiters`, if it is still there.
    pub open spec fn spec_waiter(&self, waiters: Seq<EventWaitInfo>) -> Option<EventWaitInfo> {
        if exists|k: int| 0 <= k < waiters.len() && (#[trigger] waiters[k]).id == self.wait_on {
            Some(
                waiters[choose|k: int|
                    0 <= k < waiters.len() && (#[trigger] waiters[k]).id == self.wait_on],
            )
        } else {
            None
        }
    }

    /// What polling the wait at the counter value `now` yields: nothing
    /// where the deadline has passed; else the event, where one has
    /// fulfilled the waiter; else the wait goes on.
    pub open spec fn spec_poll(&self, waiters: Seq<EventWaitInfo>, now: u64) -> EventPoll {
        if self.time_out < now {
            EventPoll::Ready(None)
        } else {
            match self.spec_waiter(waiters) {
                Some(w) => if w.fulfilled {
                    EventPoll::Ready(Some(w.event_trb))
                } else {
                    EventPoll::Pending
                },
                None => EventPoll::Pending,
            }
        }
    }

    /// Polls the wait at the counter value `now`.
    pub fn poll(&self, event_ring: &EventRing, now: u64) -> (r: EventPoll)
        requires
            event_ring.wf(),
        ensures
            r == self.spec_poll(event_ring.wait_list@, now),
    {
        if self.time_out < now {
            return EventPoll::Ready(None);
        }
        match event_ring.find_waiter(self.wait_on) {
            Some(k) => {
                let w = event_ring.wait_list[k];
                proof {
                    let ws = event_ring.wait_list@;
                    let c = choose|c: int| 0 <= c < ws.len() && (#[trigger] ws[c]).id == self.wait_on;
                    assert(ws[k as int].id == self.wait_on);
                    if c < k {
                        assert(ws[c].id != ws[k as int].id);
                    } else if k < c {
                        assert(ws[k as int].id != ws[c].id);
                    }
                }
                if w.fulfilled {
                    EventPoll::Ready(Some(w.event_trb))
                } else {
                    EventPoll::Pending
                }
            },
            None => EventPoll::Pending,
        }
    }
}

} // verus!
