use vstd::prelude::*;
use crate::error::Error;
use crate::xhci::future::{EventWaitCond, EventWaitInfo};
use crate::xhci::trb::{lemma_with_cycle, GenericTrbEntry, TrbType};

verus! {

/// Number of blocks in a ring, the Link block included.
pub const NUM_TRB: usize = 16;

/// Size of a block in bytes.
pub const TRB_SIZE: u64 = 16;

/// Size of the memory that a ring occupies; a ring starts at a multiple of
/// it, so that it never crosses a 64 KiB boundary.
pub const RING_ALIGN: u64 = 4096;

/// Number of bytes that a Normal block of a transfer ring asks for.
pub const NORMAL_TRB_SIZE: u16 = 8;

/// A ring of transfer request blocks with the place of the next block to
/// handle.
pub struct TrbRing {
    pub trb: [GenericTrbEntry; 16],
    pub current_index: usize,
    /// Physical address of the first block.
    pub phys_addr: u64,
}

/// A ring as plain values.
pub struct TrbRingView {
    pub trbs: Seq<GenericTrbEntry>,
    pub current_index: int,
    pub phys_addr: u64,
}

impl TrbRingView {
    /// The block at the current index.
    pub open spec fn current(self) -> GenericTrbEntry {
        self.trbs[self.current_index]
    }

    /// The physical address of the block at `index`.
    pub open spec fn slot_addr(self, index: int) -> int {
        self.phys_addr + TRB_SIZE * index
    }

    /// The ring with `trb` in place of the block at `index`.
    pub open spec fn with_trb(self, index: int, trb: GenericTrbEntry) -> TrbRingView {
        TrbRingView { trbs: self.trbs.update(index, trb), ..self }
    }

    /// The ring after the current block was handed over with cycle bit
    /// `new_cycle` and the index moved to the next block, from the last
    /// block back to the first.
    pub open spec fn advance(self, new_cycle: bool) -> TrbRingView {
        TrbRingView {
            trbs: self.trbs.update(self.current_index, self.current().with_cycle(new_cycle)),
            current_index: (self.current_index + 1) % 16,
            ..self
        }
    }

    /// The ring with the index moved to the next block.
    pub open spec fn step(self) -> TrbRingView {
        TrbRingView { current_index: (self.current_index + 1) % 16, ..self }
    }
}

impl View for TrbRing {
    type V = TrbRingView;

    open spec fn view(&self) -> TrbRingView {
        TrbRingView {
            trbs: self.trb@,
            current_index: self.current_index as int,
            phys_addr: self.phys_addr,
        }
    }
}

/// The message of the error reported where a block already has the cycle
/// bit that advancing would give it.
pub open spec fn cycle_unchanged_message() -> Seq<char> {
    "cycle state does not change"@
}

/// The message of the error reported where the current block does not have
/// the expected cycle bit.
pub open spec fn cycle_mismatch_message() -> Seq<char> {
    "cycle state mismatch"@
}

/// The message of the error reported for an index past the ring.
pub open spec fn ring_range_message() -> Seq<char> {
    "TrbRing Out of Range"@
}

/// The message of the error reported where the command ring has no free
/// block.
pub open spec fn ring_full_message() -> Seq<char> {
    "Command Ring is Full"@
}

/// The message of the error reported where a transfer event names another
/// block than the one at the dequeue index.
pub open spec fn unexpected_ptr_message() -> Seq<char> {
    "unexpected trb ptr"@
}

/// Whether `r` is a failure with the fixed message `m`.
pub open spec fn fails_with<T>(r: Result<T, Error>, m: Seq<char>) -> bool {
    r matches Err(Error::Failed(s)) && s@ == m
}

impl TrbRing {
    /// Whether the index lies in the ring and the ring lies at an address
    /// it can have.
    pub open spec fn wf(&self) -> bool {
        &&& self.current_index < NUM_TRB
        &&& self.phys_addr % RING_ALIGN == 0
        &&& self.phys_addr + RING_ALIGN <= u64::MAX
    }

    /// A ring of zeroed blocks at `phys_addr`, with the index at its start.
    pub fn new(phys_addr: u64) -> (r: TrbRing)
        requires
            phys_addr % RING_ALIGN == 0,
            phys_addr + RING_ALIGN <= u64::MAX,
        ensures
            r.wf(),
            r@.phys_addr == phys_addr,
            r@.current_index == 0,
            r@.trbs == Seq::new(16, |i: int| GenericTrbEntry { data: 0, status: 0, control: 0 }),
    {
        let z = GenericTrbEntry::zero();
        let r = TrbRing { trb: [z, z, z, z, z, z, z, z, z, z, z, z, z, z, z, z], current_index: 0, phys_addr };
        assert(r@.trbs =~= Seq::new(
            16,
            |i: int| GenericTrbEntry { data: 0, status: 0, control: 0 },
        ));
        r
    }

    /// Physical address of the first block.
    pub fn phys_addr(&self) -> (r: u64)
        ensures
            r == self@.phys_addr,
    {
        self.phys_addr
    }

    /// Number of blocks in the ring.
    pub fn num_trbs(&self) -> (r: usize)
        ensures
            r == NUM_TRB,
    {
        NUM_TRB
    }

    /// Hands the current block over with cycle bit `new_cycle` and moves
    /// on. A block that has that cycle bit already is not handed over.
    pub fn advance_index(&mut self, new_cycle: bool) -> (r: Result<(), Error>)
        requires
            old(self).wf(),
        ensures
            final(self).wf(),
            old(self)@.current().spec_cycle_state() == new_cycle ==> fails_with(
                r,
                cycle_unchanged_message(),
            ) && final(self)@ == old(self)@,
            old(self)@.current().spec_cycle_state() != new_cycle ==> r is Ok && final(self)@ == old(
                self,
            )@.advance(new_cycle),
    {
        if self.current().cycle_state() == new_cycle {
            return Err(Error::Failed("cycle state does not change"));
        }
        let mut trb = self.trb[self.current_index];
        trb.set_cycle_state(new_cycle);
        self.trb[self.current_index] = trb;
        self.current_index = (self.current_index + 1) % NUM_TRB;
        Ok(())
    }

    /// Moves on from the current block, which must have the cycle bit
    /// `cycle_ours`, without changing it.
    pub fn advance_index_notoggle(&mut self, cycle_ours: bool) -> (r: Result<(), Error>)
        requires
            old(self).wf(),
        ensures
            final(self).wf(),
            old(self)@.current().spec_cycle_state() != cycle_ours ==> fails_with(
                r,
                cycle_mismatch_message(),
            ) && final(self)@ == old(self)@,
            old(self)@.current().spec_cycle_state() == cycle_ours ==> r is Ok && final(self)@ == old(
                self,
            )@.step(),
    {
        if self.current().cycle_state() != cycle_ours {
            return Err(Error::Failed("cycle state mismatch"));
        }
        self.current_index = (self.current_index + 1) % NUM_TRB;
        Ok(())
    }

    /// The block at the current index.
    pub fn current(&self) -> (r: GenericTrbEntry)
        requires
            self.wf(),
        ensures
            r == self@.current(),
    {
        self.trb[self.current_index]
    }

    /// The current index.
    pub fn current_index(&self) -> (r: usize)
        ensures
            r == self@.current_index,
    {
        self.current_index
    }

    /// Physical address of the block at the current index.
    pub fn current_ptr(&self) -> (r: u64)
        requires
            self.wf(),
        ensures
            r == self@.slot_addr(self@.current_index),
    {
        self.phys_addr + TRB_SIZE * (self.current_index as u64)
    }

    /// The block at `index`.
    pub fn trb(&self, index: usize) -> (r: GenericTrbEntry)
        requires
            index < NUM_TRB,
        ensures
            r == self@.trbs[index as int],
    {
        self.trb[index]
    }

    /// Physical address of the block at `index`.
    pub fn trb_ptr(&self, index: usize) -> (r: u64)
        requires
            self.wf(),
            index < NUM_TRB,
        ensures
            r == self@.slot_addr(index as int),
    {
        self.phys_addr + TRB_SIZE * (index as u64)
    }

    /// Puts `trb` in place of the block at `index`; an index past the ring
    /// is rejected.
    pub fn write(&mut self, index: usize, trb: GenericTrbEntry) -> (r: Result<(), Error>)
        ensures
            index < NUM_TRB ==> r is Ok && final(self)@ == old(self)@.with_trb(index as int, trb),
            index >= NUM_TRB ==> fails_with(r, ring_range_message()) && final(self)@ == old(self)@,
    {
        if index < NUM_TRB {
            self.trb[index] = trb;
            Ok(())
        } else {
            Err(Error::Failed("TrbRing Out of Range"))
        }
    }

    /// Puts `trb` in place of the block at the current index.
    pub fn write_current(&mut self, trb: GenericTrbEntry)
        requires
            old(self).wf(),
        ensures
            final(self)@ == old(self)@.with_trb(old(self)@.current_index, trb),
    {
        self.trb[self.current_index] = trb;
    }
}

/// A well-formed ring lies within one block of 64 KiB: its first and its
/// last byte share their address above the lowest sixteen bits.
pub proof fn lemma_ring_within_64k(ring: TrbRing)
    requires
        ring.wf(),
    ensures
        ring@.slot_addr(0) / 65536 == (ring@.slot_addr(15) + TRB_SIZE - 1) / 65536,
        forall|i: int| 0 <= i < 16 ==> ring@.slot_addr(0) / 4096 == #[trigger] ring@.slot_addr(i) / 4096,
{
    let a = ring.phys_addr as int;
    assert(a % 4096 == 0);
    assert(a / 65536 == (a + 255) / 65536) by {
        assert(a % 65536 <= 65536 - 4096) by {
            vstd::arithmetic::div_mod::lemma_fundamental_div_mod(a, 65536);
            vstd::arithmetic::div_mod::lemma_fundamental_div_mod(a, 4096);
        }
    }
}

/// How an attempt to put a block on the command ring ends.
pub enum PushOutcome {
    /// The block was written at this physical address.
    Pushed(u64),
    /// The current block is not ours to write.
    Full,
    /// The block was written, but the Link block behind it could not be
    /// handed over.
    LinkStuck,
}

/// The command ring: software writes commands, the controller reads them.
pub struct CommandRing {
    pub ring: TrbRing,
    /// The cycle bit of the blocks that are ours to write.
    pub cycle_state_ours: bool,
}

/// A command ring as plain values.
pub struct CommandRingView {
    pub ring: TrbRingView,
    pub cycle_state_ours: bool,
}

impl View for CommandRing {
    type V = CommandRingView;

    open spec fn view(&self) -> CommandRingView {
        CommandRingView { ring: self.ring@, cycle_state_ours: self.cycle_state_ours }
    }
}

impl CommandRingView {
    /// The ring after `src` was written at the current index and handed to
    /// the controller: it carries the cycle bit that is not ours.
    pub open spec fn written(self, src: GenericTrbEntry) -> TrbRingView {
        self.ring.with_trb(self.ring.current_index, src.with_cycle(self.cycle_state_ours)).advance(
            !self.cycle_state_ours,
        )
    }

    /// Whether the block behind the one about to be written is a Link
    /// block.
    pub open spec fn reaches_link(self, src: GenericTrbEntry) -> bool {
        self.written(src).current().spec_trb_type() == TrbType::Link.spec_code()
    }

    /// How pushing `src` ends.
    ///
    /// The ring is full where the current block does not carry our cycle
    /// bit. Else `src` is written and handed over. Where the next block is
    /// a Link block, it is handed over too and our cycle bit flips; a Link
    /// block that carries the controller's cycle bit already cannot be
    /// handed over.
    pub open spec fn push_outcome(self, src: GenericTrbEntry) -> PushOutcome {
        if self.ring.current().spec_cycle_state() != self.cycle_state_ours {
            PushOutcome::Full
        } else if self.reaches_link(src) && self.written(src).current().spec_cycle_state()
            != self.cycle_state_ours {
            PushOutcome::LinkStuck
        } else {
            PushOutcome::Pushed(self.ring.slot_addr(self.ring.current_index) as u64)
        }
    }

    /// The command ring after pushing `src`.
    pub open spec fn push(self, src: GenericTrbEntry) -> CommandRingView {
        match self.push_outcome(src) {
            PushOutcome::Full => self,
            PushOutcome::LinkStuck => CommandRingView { ring: self.written(src), ..self },
            PushOutcome::Pushed(_) => if self.reaches_link(src) {
                CommandRingView {
                    ring: self.written(src).advance(!self.cycle_state_ours),
                    cycle_state_ours: !self.cycle_state_ours,
                }
            } else {
                CommandRingView { ring: self.written(src), ..self }
            },
        }
    }

    /// Whether the ring is as software leaves it between pushes: the last
    /// block is the only Link block and the index never rests on it; every
    /// block from the index on, the Link block included, carries our cycle
    /// bit, and every block before the index carries the other.
    pub open spec fn settled(self) -> bool {
        &&& self.ring.trbs.len() == 16
        &&& 0 <= self.ring.current_index < 15
        &&& self.ring.trbs[15].spec_trb_type() == TrbType::Link.spec_code()
        &&& forall|i: int|
            0 <= i < 15 ==> (#[trigger] self.ring.trbs[i]).spec_trb_type()
                != TrbType::Link.spec_code()
        &&& forall|i: int|
            self.ring.current_index <= i < 16 ==> (#[trigger] self.ring.trbs[i]).spec_cycle_state()
                == self.cycle_state_ours
        &&& forall|i: int|
            0 <= i < self.ring.current_index ==> (#[trigger] self.ring.trbs[i]).spec_cycle_state()
                != self.cycle_state_ours
    }
}

impl CommandRing {
    /// Whether the ring is well formed.
    pub open spec fn wf(&self) -> bool {
        self.ring.wf()
    }

    /// An empty command ring at `phys_addr`: zeroed blocks, closed by a
    /// Link block that leads back to the start; our cycle bit is clear.
    pub fn new(phys_addr: u64) -> (r: CommandRing)
        requires
            phys_addr % RING_ALIGN == 0,
            phys_addr + RING_ALIGN <= u64::MAX,
        ensures
            r.wf(),
            r@.settled(),
            !r@.cycle_state_ours,
            r@.ring.current_index == 0,
            r@.ring.phys_addr == phys_addr,
            r@.ring.trbs == Seq::new(
                16,
                |i: int|
                    if i == 15 {
                        GenericTrbEntry::spec_trb_link(phys_addr)
                    } else {
                        GenericTrbEntry { data: 0, status: 0, control: 0 }
                    },
            ),
    {
        let mut ring = TrbRing::new(phys_addr);
        let link = GenericTrbEntry::trb_link(phys_addr);
        ring.trb[NUM_TRB - 1] = link;
        let r = CommandRing { ring, cycle_state_ours: false };
        proof {
            crate::xhci::trb::lemma_type_word(0, 0);
            assert(r@.ring.trbs =~= Seq::new(
                16,
                |i: int|
                    if i == 15 {
                        GenericTrbEntry::spec_trb_link(phys_addr)
                    } else {
                        GenericTrbEntry { data: 0, status: 0, control: 0 }
                    },
            ));
        }
        r
    }

    /// Physical address of the ring.
    pub fn ring_phys_addr(&self) -> (r: u64)
        ensures
            r == self@.ring.phys_addr,
    {
        self.ring.phys_addr()
    }

    /// Puts the command `src` on the ring and returns the physical address
    /// at which it stands, by which its completion event is recognised.
    pub fn push(&mut self, src: GenericTrbEntry) -> (r: Result<u64, Error>)
        requires
            old(self).wf(),
        ensures
            final(self).wf(),
            final(self)@ == old(self)@.push(src),
            match old(self)@.push_outcome(src) {
                PushOutcome::Pushed(addr) => r == Ok::<u64, Error>(addr),
                PushOutcome::Full => fails_with(r, ring_full_message()),
                PushOutcome::LinkStuck => fails_with(r, cycle_unchanged_message()),
            },
            old(self)@.settled() && src.spec_trb_type() != TrbType::Link.spec_code() ==> r is Ok
                && final(self)@.settled(),
    {
        if self.ring.current().cycle_state() != self.cycle_state_ours {
            return Err(Error::Failed("Command Ring is Full"));
        }
        let mut stamped = src;
        stamped.set_cycle_state(self.cycle_state_ours);
        let dst_ptr = self.ring.current_ptr();
        self.ring.write_current(stamped);
        proof {
            lemma_with_cycle(src.control, self.cycle_state_ours);
            lemma_with_cycle(stamped.control, !self.cycle_state_ours);
            lemma_with_cycle(old(self)@.ring.trbs[15].control, !self.cycle_state_ours);
        }
        match self.ring.advance_index(!self.cycle_state_ours) {
            Ok(_) => {},
            Err(e) => {
                return Err(e);
            },
        }
        if self.ring.current().trb_type() == TrbType::Link.code() {
            match self.ring.advance_index(!self.cycle_state_ours) {
                Ok(_) => {},
                Err(e) => {
                    return Err(e);
                },
            }
            self.cycle_state_ours = !self.cycle_state_ours;
        }
        Ok(dst_ptr)
    }
}

/// A transfer ring: software offers buffers, the controller fills them
/// and reports each with a transfer event.
pub struct TransferRing {
    pub ring: TrbRing,
    /// The cycle bit of the blocks that are ours.
    pub cycle_state_ours: bool,
    /// Index of the oldest block that the controller has not reported yet.
    pub dequeue_index: usize,
    /// Physical addresses of the buffers, one for each block before the
    /// Link block.
    pub buffers: [u64; 15],
}

/// A transfer ring as plain values.
pub struct TransferRingView {
    pub ring: TrbRingView,
    pub cycle_state_ours: bool,
    pub dequeue_index: int,
    pub buffers: Seq<u64>,
}

impl View for TransferRing {
    type V = TransferRingView;

    open spec fn view(&self) -> TransferRingView {
        TransferRingView {
            ring: self.ring@,
            cycle_state_ours: self.cycle_state_ours,
            dequeue_index: self.dequeue_index as int,
            buffers: self.buffers@,
        }
    }
}

impl TransferRingView {
    /// Whether the indices lie where they can.
    pub open spec fn in_range(self) -> bool {
        0 <= self.ring.current_index < 16 && 0 <= self.dequeue_index < 15
    }

    /// Whether the ring is full: moving the enqueue index on, over the
    /// blocks before the Link block, would make it equal to the dequeue
    /// index.
    pub open spec fn is_full(self) -> bool {
        (self.ring.current_index + 1) % 15 == self.dequeue_index
    }

    /// Whether the current block can be handed to the controller: it does
    /// not carry the controller's cycle bit yet.
    pub open spec fn can_advance(self) -> bool {
        self.ring.current().spec_cycle_state() == self.cycle_state_ours
    }

    /// The ring after the current block was handed to the controller.
    pub open spec fn advanced(self) -> TransferRingView {
        TransferRingView { ring: self.ring.advance(!self.cycle_state_ours), ..self }
    }

    /// Number of blocks between the enqueue index and the index at which
    /// the ring is full.
    pub open spec fn room(self) -> int {
        let stop = if self.dequeue_index == 0 {
            14
        } else {
            self.dequeue_index - 1
        };
        if stop >= self.ring.current_index {
            stop - self.ring.current_index
        } else {
            stop + 16 - self.ring.current_index
        }
    }

    /// The ring after it was filled: blocks are handed to the controller
    /// one by one until the ring is full, or a block is met that cannot be
    /// handed over.
    pub open spec fn fill(self) -> TransferRingView
        decreases self.room(),
        when self.in_range()
    {
        if self.is_full() || !self.can_advance() {
            self
        } else {
            self.advanced().fill()
        }
    }

    /// Whether pushing on from the dequeued block reaches the Link block.
    pub open spec fn dequeue_reaches_link(self) -> bool {
        self.advanced().ring.current().spec_trb_type() == TrbType::Link.spec_code()
    }

    /// The error with which reporting the block at `trb_ptr` as done ends,
    /// if any: it is not the block at the dequeue index, or a block that
    /// is to be handed over in its place carries the controller's cycle bit
    /// already.
    pub open spec fn dequeue_error(self, trb_ptr: u64) -> Option<Seq<char>> {
        if self.ring.slot_addr(self.dequeue_index) != trb_ptr {
            Some(unexpected_ptr_message())
        } else if !self.can_advance() {
            Some(cycle_unchanged_message())
        } else if self.dequeue_reaches_link() && !self.advanced().can_advance() {
            Some(cycle_unchanged_message())
        } else {
            None
        }
    }

    /// The ring after the block at `trb_ptr` was reported as done: the
    /// dequeue index moves on, over the blocks before the Link block; one
    /// more block is handed to the controller; and where the Link block is
    /// reached, it is handed over too and our cycle bit flips. Each step is
    /// taken only where none before it failed.
    pub open spec fn dequeue(self, trb_ptr: u64) -> TransferRingView {
        let moved = TransferRingView { dequeue_index: (self.dequeue_index + 1) % 15, ..self };
        if self.ring.slot_addr(self.dequeue_index) != trb_ptr {
            self
        } else if !self.can_advance() {
            moved
        } else if !self.dequeue_reaches_link() {
            moved.advanced()
        } else if !self.advanced().can_advance() {
            moved.advanced()
        } else {
            TransferRingView {
                cycle_state_ours: !self.cycle_state_ours,
                ..moved.advanced().advanced()
            }
        }
    }
}

impl TransferRing {
    /// Whether the ring is well formed.
    pub open spec fn wf(&self) -> bool {
        self.ring.wf() && self.dequeue_index < NUM_TRB - 1
    }

    /// A transfer ring at `phys_addr` over the buffers at `buffers`: each
    /// block before the Link block is a Normal block for one buffer, and
    /// all are still ours.
    pub fn new(phys_addr: u64, buffers: [u64; 15]) -> (r: TransferRing)
        requires
            phys_addr % RING_ALIGN == 0,
            phys_addr + RING_ALIGN <= u64::MAX,
        ensures
            r.wf(),
            r@.ring.phys_addr == phys_addr,
            r@.ring.current_index == 0,
            r@.dequeue_index == 0,
            !r@.cycle_state_ours,
            r@.buffers == buffers@,
            r@.ring.trbs.len() == 16,
            r@.ring.trbs[15] == GenericTrbEntry::spec_trb_link(phys_addr),
            forall|i: int|
                0 <= i < 15 ==> #[trigger] r@.ring.trbs[i] == GenericTrbEntry::spec_normal(
                    buffers@[i],
                    NORMAL_TRB_SIZE,
                ),
    {
        let mut ring = TrbRing::new(phys_addr);
        ring.trb[NUM_TRB - 1] = GenericTrbEntry::trb_link(phys_addr);
        let mut i: usize = 0;
        while i < NUM_TRB - 1
            invariant
                i <= 15,
                ring.wf(),
                ring@.phys_addr == phys_addr,
                ring@.current_index == 0,
                ring@.trbs.len() == 16,
                ring@.trbs[15] == GenericTrbEntry::spec_trb_link(phys_addr),
                forall|k: int|
                    0 <= k < i ==> #[trigger] ring@.trbs[k] == GenericTrbEntry::spec_normal(
                        buffers@[k],
                        NORMAL_TRB_SIZE,
                    ),
            decreases 15 - i,
        {
            ring.trb[i] = GenericTrbEntry::normal(buffers[i], NORMAL_TRB_SIZE);
            i = i + 1;
        }
        TransferRing { ring, cycle_state_ours: false, dequeue_index: 0, buffers }
    }

    /// Hands blocks to the controller until the ring is full.
    ///
    /// Fails where a block is met that carries the controller's cycle bit
    /// already; the blocks before it have been handed over.
    pub fn fill_ring(&mut self) -> (r: Result<(), Error>)
        requires
            old(self).wf(),
        ensures
            final(self).wf(),
            final(self)@ == old(self)@.fill(),
            r is Ok <==> final(self)@.is_full(),
            r is Err ==> fails_with(r, cycle_unchanged_message()),
    {
        loop
            invariant
                self.wf(),
                self@.fill() == old(self)@.fill(),
            ensures
                self.wf(),
                self@ == old(self)@.fill(),
                self@.is_full(),
            decreases self@.room(),
        {
            let next_enqueue_index = (self.ring.current_index() + 1) % (NUM_TRB - 1);
            if next_enqueue_index == self.dequeue_index {
                break ;
            }
            match self.ring.advance_index(!self.cycle_state_ours) {
                Ok(_) => {},
                Err(e) => {
                    return Err(e);
                },
            }
        }
        Ok(())
    }

    /// Takes note that the controller has reported the block at `trb_ptr`
    /// as done, and hands it one more block.
    pub fn dequeue_trb(&mut self, trb_ptr: u64) -> (r: Result<(), Error>)
        requires
            old(self).wf(),
        ensures
            final(self).wf(),
            final(self)@ == old(self)@.dequeue(trb_ptr),
            match old(self)@.dequeue_error(trb_ptr) {
                None => r is Ok,
                Some(m) => fails_with(r, m),
            },
    {
        if self.ring.trb_ptr(self.dequeue_index) != trb_ptr {
            return Err(Error::Failed("unexpected trb ptr"));
        }
        self.dequeue_index = (self.dequeue_index + 1) % (NUM_TRB - 1);
        match self.ring.advance_index(!self.cycle_state_ours) {
            Ok(_) => {},
            Err(e) => {
                return Err(e);
            },
        }
        if self.ring.current().trb_type() == TrbType::Link.code() {
            match self.ring.advance_index(!self.cycle_state_ours) {
                Ok(_) => {},
                Err(e) => {
                    return Err(e);
                },
            }
            self.cycle_state_ours = !self.cycle_state_ours;
        }
        Ok(())
    }

    /// Physical address of the ring.
    pub fn ring_phys_addr(&self) -> (r: u64)
        ensures
            r == self@.ring.phys_addr,
    {
        self.ring.phys_addr()
    }
}

/// The one entry of the segment table of an event ring.
#[derive(Debug, Copy, Clone, PartialEq, Eq, Structural)]
pub struct EventRingSegmentTableEntry {
    pub ring_segment_base_address: u64,
    pub ring_segment_size: u16,
}

/// An event taken off the event ring.
#[derive(Debug, Copy, Clone, PartialEq, Eq, Structural)]
pub struct PoppedEvent {
    /// The event.
    pub trb: GenericTrbEntry,
    /// The value to write to the dequeue pointer register.
    pub erdp: u64,
}

/// What became of an event that was taken off the event ring.
#[derive(Debug, Copy, Clone, PartialEq, Eq, Structural)]
pub struct HandledEvent {
    /// The event.
    pub trb: GenericTrbEntry,
    /// The value to write to the dequeue pointer register.
    pub erdp: u64,
    /// Whether somebody waited for the event.
    pub consumed: bool,
}

/// The event ring: the controller writes events, software reads them and
/// wakes those who wait for them.
pub struct EventRing {
    pub ring: TrbRing,
    pub erst: EventRingSegmentTableEntry,
    /// Physical address of the segment table.
    pub erst_phys_addr: u64,
    /// The cycle bit of the blocks that hold an event we have not read.
    pub cycle_state_ours: bool,
    /// Address of the dequeue pointer register, once it is known.
    pub erdp: Option<u64>,
    /// Those who wait for an event, oldest first.
    pub wait_list: Vec<EventWaitInfo>,
    /// The id that the next waiter gets.
    pub next_wait_id: u64,
}

/// The value for the dequeue pointer register after the event at `eptr`
/// was read: the address, with the four lowest bits of the register kept.
pub open spec fn spec_erdp_value(eptr: u64, erdp_now: u64) -> u64 {
    eptr | (erdp_now & 0xf)
}

/// The index of the oldest waiter in `waiters` that `trb` fulfils, if there
/// is one.
pub open spec fn first_match(waiters: Seq<EventWaitInfo>, trb: GenericTrbEntry) -> Option<int>
    decreases waiters.len(),
{
    if waiters.len() == 0 {
        None
    } else if waiters[0].spec_matches(trb) {
        Some(0)
    } else {
        match first_match(waiters.drop_first(), trb) {
            Some(k) => Some(k + 1),
            None => None,
        }
    }
}

/// The first match is a match, and no waiter before it is one; where there
/// is none, no waiter matches.
pub proof fn lemma_first_match(waiters: Seq<EventWaitInfo>, trb: GenericTrbEntry)
    ensures
        match first_match(waiters, trb) {
            Some(k) => 0 <= k < waiters.len() && waiters[k].spec_matches(trb) && forall|j: int|
                0 <= j < k ==> !(#[trigger] waiters[j]).spec_matches(trb),
            None => forall|j: int|
                0 <= j < waiters.len() ==> !(#[trigger] waiters[j]).spec_matches(trb),
        },
    decreases waiters.len(),
{
    if waiters.len() > 0 && !waiters[0].spec_matches(trb) {
        let rest = waiters.drop_first();
        lemma_first_match(rest, trb);
        match first_match(rest, trb) {
            Some(k) => {
                assert forall|j: int| 0 <= j < k + 1 implies !(#[trigger] waiters[j]).spec_matches(
                    trb,
                ) by {
                    if j > 0 {
                        assert(waiters[j] == rest[j - 1]);
                    }
                }
            },
            None => {
                assert forall|j: int| 0 <= j < waiters.len() implies !(
                #[trigger] waiters[j]).spec_matches(trb) by {
                    if j > 0 {
                        assert(waiters[j] == rest[j - 1]);
                    }
                }
            },
        }
    }
}

/// A match before which no waiter matches is the first match.
pub proof fn lemma_first_match_unique(waiters: Seq<EventWaitInfo>, trb: GenericTrbEntry, k: int)
    requires
        0 <= k <= waiters.len(),
        k < waiters.len() ==> waiters[k].spec_matches(trb),
        forall|j: int| 0 <= j < k ==> !(#[trigger] waiters[j]).spec_matches(trb),
    ensures
        first_match(waiters, trb) == (if k < waiters.len() {
            Some(k)
        } else {
            None::<int>
        }),
{
    lemma_first_match(waiters, trb);
}

impl EventRing {
    /// Whether the ring is well formed: the ring is, and the waiters carry
    /// ids that differ and that lie below the next id.
    pub open spec fn wf(&self) -> bool {
        &&& self.ring.wf()
        &&& forall|i: int|
            0 <= i < self.wait_list@.len() ==> (#[trigger] self.wait_list@[i]).id
                < self.next_wait_id
        &&& forall|i: int, j: int|
            0 <= i < j < self.wait_list@.len() ==> (#[trigger] self.wait_list@[i]).id != (
            #[trigger] self.wait_list@[j]).id
    }

    /// An event ring at `ring_phys_addr` whose segment table, with its one
    /// entry for the whole ring, lies at `erst_phys_addr`. The controller
    /// writes its first events with the cycle bit set; nobody waits yet.
    pub fn new(ring_phys_addr: u64, erst_phys_addr: u64) -> (r: EventRing)
        requires
            ring_phys_addr % RING_ALIGN == 0,
            ring_phys_addr + RING_ALIGN <= u64::MAX,
        ensures
            r.wf(),
            r.ring@.phys_addr == ring_phys_addr,
            r.ring@.current_index == 0,
            r.ring@.trbs == Seq::new(
                16,
                |i: int| GenericTrbEntry { data: 0, status: 0, control: 0 },
            ),
            r.erst == (EventRingSegmentTableEntry {
                ring_segment_base_address: ring_phys_addr,
                ring_segment_size: 16,
            }),
            r.erst_phys_addr == erst_phys_addr,
            r.cycle_state_ours,
            r.erdp is None,
            r.wait_list@.len() == 0,
            r.next_wait_id == 0,
    {
        EventRing {
            ring: TrbRing::new(ring_phys_addr),
            erst: EventRingSegmentTableEntry {
                ring_segment_base_address: ring_phys_addr,
                ring_segment_size: 16,
            },
            erst_phys_addr,
            cycle_state_ours: true,
            erdp: None,
            wait_list: Vec::new(),
            next_wait_id: 0,
        }
    }

    /// Notes the address of the dequeue pointer register.
    pub fn set_erdp(&mut self, erdp: u64)
        ensures
            *final(self) == (EventRing { erdp: Some(erdp), ..*old(self) }),
    {
        self.erdp = Some(erdp);
    }

    /// Physical address of the ring.
    pub fn ring_phys_addr(&self) -> (r: u64)
        ensures
            r == self.ring@.phys_addr,
    {
        self.ring.phys_addr()
    }

    /// Physical address of the segment table.
    pub fn erst_phys_addr(&self) -> (r: u64)
        ensures
            r == self.erst_phys_addr,
    {
        self.erst_phys_addr
    }

    /// Whether the block at the current index holds an event we have not
    /// read: it carries our cycle bit.
    pub open spec fn spec_has_next_event(&self) -> bool {
        self.ring@.current().spec_cycle_state() == self.cycle_state_ours
    }

    /// Whether an event waits to be read.
    pub fn has_next_event(&self) -> (r: bool)
        requires
            self.wf(),
        ensures
            r == self.spec_has_next_event(),
    {
        self.ring.current().cycle_state() == self.cycle_state_ours
    }

    /// Takes the next event off the ring, if there is one.
    ///
    /// `erdp_now` is what the dequeue pointer register holds. With the
    /// event comes the value to write to the register. The index moves on,
    /// and our cycle bit flips where the index has come round to the start
    /// of the ring. The address of the register must have been noted before
    /// an event is taken.
    pub fn pop(&mut self, erdp_now: u64) -> (r: Result<Option<PoppedEvent>, Error>)
        requires
            old(self).wf(),
            old(self).spec_has_next_event() ==> old(self).erdp is Some,
        ensures
            final(self).wf(),
            r is Ok,
            !old(self).spec_has_next_event() ==> r == Ok::<Option<PoppedEvent>, Error>(None)
                && *final(self) == *old(self),
            old(self).spec_has_next_event() ==> {
                &&& r == Ok::<Option<PoppedEvent>, Error>(
                    Some(
                        PoppedEvent {
                            trb: old(self).ring@.current(),
                            erdp: spec_erdp_value(
                                old(self).ring@.slot_addr(old(self).ring@.current_index) as u64,
                                erdp_now,
                            ),
                        },
                    ),
                )
                &&& final(self).ring@ == old(self).ring@.step()
                &&& final(self).cycle_state_ours == (if old(self).ring@.current_index == 15 {
                    !old(self).cycle_state_ours
                } else {
                    old(self).cycle_state_ours
                })
                &&& final(self).erst == old(self).erst
                &&& final(self).erst_phys_addr == old(self).erst_phys_addr
                &&& final(self).erdp == old(self).erdp
                &&& final(self).wait_list == old(self).wait_list
                &&& final(self).next_wait_id == old(self).next_wait_id
            },
    {
        if !self.has_next_event() {
            return Ok(None);
        }
        let e = self.ring.current();
        let eptr = self.ring.current_ptr();
        match self.ring.advance_index_notoggle(self.cycle_state_ours) {
            Ok(_) => {},
            Err(err) => {
                return Err(err);
            },
        }
        let erdp = eptr | (erdp_now & 0xf);
        if self.ring.current_index() == 0 {
            self.cycle_state_ours = !self.cycle_state_ours;
        }
        Ok(Some(PoppedEvent { trb: e, erdp }))
    }

    /// Adds a waiter for an event that meets `cond`, behind those who wait
    /// already, and returns the id by which it is found again.
    pub fn register_waiter(&mut self, cond: EventWaitCond) -> (r: u64)
        requires
            old(self).wf(),
            old(self).next_wait_id < u64::MAX,
        ensures
            final(self).wf(),
            r == old(self).next_wait_id,
            final(self).next_wait_id == r + 1,
            final(self).wait_list@ == old(self).wait_list@.push(
                EventWaitInfo { id: r, cond, fulfilled: false, event_trb: GenericTrbEntry {
                    data: 0,
                    status: 0,
                    control: 0,
                } },
            ),
            final(self).ring == old(self).ring,
            final(self).erst == old(self).erst,
            final(self).erst_phys_addr == old(self).erst_phys_addr,
            final(self).cycle_state_ours == old(self).cycle_state_ours,
            final(self).erdp == old(self).erdp,
    {
        let id = self.next_wait_id;
        self.wait_list.push(
            EventWaitInfo { id, cond, fulfilled: false, event_trb: GenericTrbEntry::zero() },
        );
        self.next_wait_id = id + 1;
        id
    }

    /// The index of the waiter with the id `id`, if it still waits.
    pub fn find_waiter(&self, id: u64) -> (r: Option<usize>)
        ensures
            match r {
                Some(k) => k < self.wait_list@.len() && self.wait_list@[k as int].id == id
                    && forall|j: int| 0 <= j < k ==> (#[trigger] self.wait_list@[j]).id != id,
                None => forall|j: int|
                    0 <= j < self.wait_list@.len() ==> (#[trigger] self.wait_list@[j]).id != id,
            },
    {
        let n = self.wait_list.len();
        let mut i: usize = 0;
        while i < n
            invariant
                i <= n,
                n == self.wait_list@.len(),
                forall|j: int| 0 <= j < i ==> (#[trigger] self.wait_list@[j]).id != id,
            decreases n - i,
        {
            if self.wait_list[i].id == id {
                return Some(i);
            }
            i = i + 1;
        }
        None
    }

    /// Hands the event `trb` to the oldest waiter that it fulfils: the
    /// waiter keeps a copy of the event and is marked as fulfilled. Returns
    /// whether there was such a waiter; an event for which nobody waits
    /// changes nothing.
    pub fn dispatch(&mut self, trb: &GenericTrbEntry) -> (r: bool)
        requires
            old(self).wf(),
        ensures
            final(self).wf(),
            r == first_match(old(self).wait_list@, *trb) is Some,
            match first_match(old(self).wait_list@, *trb) {
                Some(k) => final(self).wait_list@ == old(self).wait_list@.update(
                    k,
                    old(self).wait_list@[k].resolved(*trb),
                ),
                None => final(self).wait_list@ == old(self).wait_list@,
            },
            final(self).ring == old(self).ring,
            final(self).erst == old(self).erst,
            final(self).erst_phys_addr == old(self).erst_phys_addr,
            final(self).cycle_state_ours == old(self).cycle_state_ours,
            final(self).erdp == old(self).erdp,
            final(self).next_wait_id == old(self).next_wait_id,
    {
        let n = self.wait_list.len();
        let mut i: usize = 0;
        while i < n
            invariant
                i <= n,
                n == self.wait_list@.len(),
                *self == *old(self),
                old(self).wf(),
                forall|j: int| 0 <= j < i ==> !(#[trigger] self.wait_list@[j]).spec_matches(*trb),
            decreases n - i,
        {
            if self.wait_list[i].matches(trb) {
                proof {
                    lemma_first_match_unique(self.wait_list@, *trb, i as int);
                }
                let mut w = self.wait_list[i];
                let _ = w.resolve(trb);
                self.wait_list.set(i, w);
                proof {
                    assert forall|j: int| 0 <= j < self.wait_list@.len() implies (
                    #[trigger] self.wait_list@[j]).id == old(self).wait_list@[j].id by {}
                    assert forall|a: int, b: int| 0 <= a < b < self.wait_list@.len() implies (
                    #[trigger] self.wait_list@[a]).id != (#[trigger] self.wait_list@[b]).id by {
                        assert(old(self).wait_list@[a].id != old(self).wait_list@[b].id);
                    }
                    assert forall|j: int| 0 <= j < self.wait_list@.len() implies (
                    #[trigger] self.wait_list@[j]).id < self.next_wait_id by {
                        assert(old(self).wait_list@[j].id < old(self).next_wait_id);
                    }
                }
                return true;
            }
            i = i + 1;
        }
        proof {
            lemma_first_match_unique(self.wait_list@, *trb, n as int);
        }
        false
    }

    /// Takes the next event off the ring, if there is one, and hands it to
    /// the oldest waiter that it fulfils. An event for which nobody waits
    /// is dropped.
    pub fn poll(&mut self, erdp_now: u64) -> (r: Result<Option<HandledEvent>, Error>)
        requires
            old(self).wf(),
            old(self).spec_has_next_event() ==> old(self).erdp is Some,
        ensures
            final(self).wf(),
            r is Ok,
            !old(self).spec_has_next_event() ==> r == Ok::<Option<HandledEvent>, Error>(None)
                && *final(self) == *old(self),
            old(self).spec_has_next_event() ==> {
                let trb = old(self).ring@.current();
                &&& r == Ok::<Option<HandledEvent>, Error>(
                    Some(
                        HandledEvent {
                            trb,
                            erdp: spec_erdp_value(
                                old(self).ring@.slot_addr(old(self).ring@.current_index) as u64,
                                erdp_now,
                            ),
                            consumed: first_match(old(self).wait_list@, trb) is Some,
                        },
                    ),
                )
                &&& final(self).ring@ == old(self).ring@.step()
                &&& final(self).cycle_state_ours == (if old(self).ring@.current_index == 15 {
                    !old(self).cycle_state_ours
                } else {
                    old(self).cycle_state_ours
                })
                &&& match first_match(old(self).wait_list@, trb) {
                    Some(k) => final(self).wait_list@ == old(self).wait_list@.update(
                        k,
                        old(self).wait_list@[k].resolved(trb),
                    ),
                    None => final(self).wait_list@ == old(self).wait_list@,
                }
                &&& final(self).erst == old(self).erst
                &&& final(self).erst_phys_addr == old(self).erst_phys_addr
                &&& final(self).erdp == old(self).erdp
                &&& final(self).next_wait_id == old(self).next_wait_id
            },
    {
        match self.pop(erdp_now) {
            Ok(Some(event)) => {
                let consumed = self.dispatch(&event.trb);
                Ok(Some(HandledEvent { trb: event.trb, erdp: event.erdp, consumed }))
            },
            Ok(None) => Ok(None),
            Err(e) => Err(e),
        }
    }

    /// Forgets the waiter with the id `id`: whoever waited has seen its
    /// event or has given up. An id that no waiter carries changes nothing.
    pub fn release_waiter(&mut self, id: u64)
        requires
            old(self).wf(),
        ensures
            final(self).wf(),
            final(self).wait_list@ == old(self).wait_list@.filter(|w: EventWaitInfo| w.id != id),
            final(self).ring == old(self).ring,
            final(self).erst == old(self).erst,
            final(self).erst_phys_addr == old(self).erst_phys_addr,
            final(self).cycle_state_ours == old(self).cycle_state_ours,
            final(self).erdp == old(self).erdp,
            final(self).next_wait_id == old(self).next_wait_id,
    {
        match self.find_waiter(id) {
            None => {
                proof {
                    lemma_filter_none(self.wait_list@, id);
                }
            },
            Some(k) => {
                proof {
                    lemma_filter_one(self.wait_list@, id, k as int);
                }
                let _ = self.wait_list.remove(k);
            },
        }
    }
}

/// Filtering out an id that no waiter carries leaves the list as it is.
pub proof fn lemma_filter_none(ws: Seq<EventWaitInfo>, id: u64)
    requires
        forall|j: int| 0 <= j < ws.len() ==> (#[trigger] ws[j]).id != id,
    ensures
        ws.filter(|w: EventWaitInfo| w.id != id) == ws,
    decreases ws.len(),
{
    reveal(Seq::filter);
    if ws.len() > 0 {
        lemma_filter_none(ws.drop_last(), id);
        assert(ws.drop_last().push(ws.last()) =~= ws);
    }
}

/// Filtering out an id that exactly the waiter at `k` carries removes that
/// waiter.
pub proof fn lemma_filter_one(ws: Seq<EventWaitInfo>, id: u64, k: int)
    requires
        0 <= k < ws.len(),
        ws[k].id == id,
        forall|j: int| 0 <= j < ws.len() && j != k ==> (#[trigger] ws[j]).id != id,
    ensures
        ws.filter(|w: EventWaitInfo| w.id != id) == ws.remove(k),
    decreases ws.len(),
{
    reveal(Seq::filter);
    if k == ws.len() - 1 {
        lemma_filter_none(ws.drop_last(), id);
        assert(ws.remove(k) =~= ws.drop_last());
    } else {
        lemma_filter_one(ws.drop_last(), id, k);
        assert(ws.remove(k) =~= ws.drop_last().remove(k).push(ws.last()));
    }
}

} // verus!
