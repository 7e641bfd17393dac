use kernel_core::error::Error;
use kernel_core::xhci::device::UsbDeviceDriverContext;
use kernel_core::xhci::future::{EventFuture, EventPoll, EventWaitCond, EventWaitInfo};
use kernel_core::xhci::registers::{
    CapabilityRegisters, InterrupterRegisterSet, OperationalRegisters, PortLinkState,
    PortResetPhase, PortSc, PortScWrapper, PortState, RuntimeRegisters, UsbMode, XhcResetPhase,
    XhcStartPhase,
};
use kernel_core::xhci::ring::{CommandRing, EventRing, TransferRing, TrbRing};
use kernel_core::xhci::trb::{GenericTrbEntry, TrbType};

fn noop() -> GenericTrbEntry {
    GenericTrbEntry { data: 0, status: 0, control: TrbType::NoOpCommand.code() << 10 }
}

fn event(trb_type: TrbType, slot: u8, data: u64, cycle: bool) -> GenericTrbEntry {
    GenericTrbEntry {
        data,
        status: 1 << 24,
        control: (trb_type.code() << 10) | ((slot as u32) << 24) | (cycle as u32),
    }
}

#[test]
fn command_ring_cycle_protocol() {
    let mut ring = CommandRing::new(0x10000);
    assert_eq!(ring.ring_phys_addr(), 0x10000);
    assert!(!ring.cycle_state_ours);
    for i in 0..14u64 {
        assert_eq!(ring.push(noop()).ok(), Some(0x10000 + 16 * i));
        assert!(!ring.cycle_state_ours);
        assert_eq!(ring.ring.current_index(), (i + 1) as usize);
        assert!(ring.ring.trb(i as usize).cycle_state());
        assert_eq!(ring.ring.trb(i as usize).trb_type(), 23);
    }
    assert_eq!(ring.push(noop()).ok(), Some(0x10000 + 16 * 14));
    assert!(ring.cycle_state_ours);
    assert_eq!(ring.ring.current_index(), 0);
    assert!(ring.ring.trb(15).cycle_state());
    assert_eq!(ring.ring.trb(15).trb_type(), 6);
    assert_eq!(ring.ring.trb(15).data(), 0x10000);
    assert_eq!(ring.push(noop()).ok(), Some(0x10000));
    assert!(ring.cycle_state_ours);
    assert!(!ring.ring.trb(0).cycle_state());
    for _ in 0..40 {
        assert!(ring.push(noop()).is_ok());
    }
}

#[test]
fn command_ring_full_when_slot_is_not_ours() {
    let mut ring = CommandRing::new(0x10000);
    let mut taken = noop();
    taken.set_cycle_state(true);
    ring.ring.write_current(taken);
    match ring.push(noop()) {
        Err(Error::Failed(m)) => assert_eq!(m, "Command Ring is Full"),
        _ => panic!("expected the ring to be full"),
    }
    assert_eq!(ring.ring.current_index(), 0);
    assert_eq!(ring.ring.trb(0), taken);
}

#[test]
fn command_ring_link_that_cannot_toggle() {
    let mut ring = CommandRing::new(0x10000);
    for _ in 0..14 {
        ring.push(noop()).ok().unwrap();
    }
    let mut link = ring.ring.trb(15);
    link.set_cycle_state(true);
    ring.ring.write(15, link).ok().unwrap();
    match ring.push(noop()) {
        Err(Error::Failed(m)) => assert_eq!(m, "cycle state does not change"),
        _ => panic!("expected an error"),
    }
    assert_eq!(ring.ring.current_index(), 15);
    assert!(!ring.cycle_state_ours);
}

#[test]
fn trb_ring_basics() {
    let mut ring = TrbRing::new(0x2000);
    assert_eq!(ring.phys_addr(), 0x2000);
    assert_eq!(ring.num_trbs(), 16);
    assert_eq!(ring.current_ptr(), 0x2000);
    assert_eq!(ring.trb_ptr(3), 0x2030);
    match ring.write(16, noop()) {
        Err(Error::Failed(m)) => assert_eq!(m, "TrbRing Out of Range"),
        _ => panic!("expected an error"),
    }
    assert!(ring.write(15, noop()).is_ok());
    assert_eq!(ring.trb(15), noop());
    match ring.advance_index(false) {
        Err(Error::Failed(m)) => assert_eq!(m, "cycle state does not change"),
        _ => panic!("expected an error"),
    }
    assert!(ring.advance_index(true).is_ok());
    assert_eq!(ring.current_index(), 1);
    assert!(ring.trb(0).cycle_state());
    match ring.advance_index_notoggle(true) {
        Err(Error::Failed(m)) => assert_eq!(m, "cycle state mismatch"),
        _ => panic!("expected an error"),
    }
    assert!(ring.advance_index_notoggle(false).is_ok());
    assert_eq!(ring.current_index(), 2);
    assert_eq!(ring.current(), GenericTrbEntry::zero());
}

fn buffers() -> [u64; 15] {
    let mut b = [0u64; 15];
    for (i, v) in b.iter_mut().enumerate() {
        *v = 0x10_0000 + 4096 * i as u64;
    }
    b
}

#[test]
fn transfer_ring_fill_and_dequeue() {
    let mut ring = TransferRing::new(0x3000, buffers());
    assert_eq!(ring.ring_phys_addr(), 0x3000);
    for i in 0..15 {
        let t = ring.ring.trb(i);
        assert_eq!(t.trb_type(), 1);
        assert_eq!(t.data(), 0x10_0000 + 4096 * i as u64);
        assert_eq!(t.status, 8);
        assert_eq!(t.control & 0x24, 0x24);
        assert!(!t.cycle_state());
    }
    assert_eq!(ring.ring.trb(15).trb_type(), 6);
    assert!(ring.fill_ring().is_ok());
    assert_eq!(ring.ring.current_index(), 14);
    assert_eq!(ring.dequeue_index, 0);
    for i in 0..14 {
        assert!(ring.ring.trb(i).cycle_state());
    }
    assert!(!ring.ring.trb(14).cycle_state());
    assert!(ring.fill_ring().is_ok());
    assert_eq!(ring.ring.current_index(), 14);
    match ring.dequeue_trb(0x3010) {
        Err(Error::Failed(m)) => assert_eq!(m, "unexpected trb ptr"),
        _ => panic!("expected an error"),
    }
    assert!(ring.dequeue_trb(0x3000).is_ok());
    assert_eq!(ring.dequeue_index, 1);
    assert_eq!(ring.ring.current_index(), 0);
    assert!(ring.cycle_state_ours);
    assert!(ring.ring.trb(14).cycle_state());
    assert!(ring.ring.trb(15).cycle_state());
    assert!(ring.dequeue_trb(0x3010).is_ok());
    assert_eq!(ring.dequeue_index, 2);
    assert_eq!(ring.ring.current_index(), 1);
    assert!(!ring.ring.trb(0).cycle_state());
}

#[test]
fn event_ring_pop_and_wrap() {
    let mut ring = EventRing::new(0x4000, 0x5000);
    assert_eq!(ring.ring_phys_addr(), 0x4000);
    assert_eq!(ring.erst_phys_addr(), 0x5000);
    assert_eq!(ring.erst.ring_segment_base_address, 0x4000);
    assert_eq!(ring.erst.ring_segment_size, 16);
    assert!(!ring.has_next_event());
    assert_eq!(ring.pop(0).ok(), Some(None));
    ring.set_erdp(0xfee0_0038);
    assert_eq!(ring.erdp, Some(0xfee0_0038));
    for lap in 0..2 {
        let cycle = lap == 0;
        for i in 0..16u64 {
            let e = event(TrbType::PortStatusChangeEvent, 0, i, cycle);
            ring.ring.write(i as usize, e).ok().unwrap();
            assert!(ring.has_next_event());
            let popped = ring.pop(0xdead_beef_0000_000b).ok().unwrap().unwrap();
            assert_eq!(popped.trb, e);
            assert_eq!(popped.erdp, (0x4000 + 16 * i) | 0xb);
            assert!(!ring.has_next_event() || i == 15);
        }
        assert_eq!(ring.cycle_state_ours, !cycle);
        assert_eq!(ring.ring.current_index(), 0);
    }
}

fn cond(trb_type: TrbType, trb_addr: Option<u64>, slot: Option<u8>) -> EventWaitCond {
    EventWaitCond { trb_type, trb_addr, slot }
}

#[test]
fn waiter_matches_exactly_its_condition() {
    let w = EventWaitInfo {
        id: 0,
        cond: cond(TrbType::TransferEvent, Some(0xabc0), Some(5)),
        fulfilled: false,
        event_trb: GenericTrbEntry::zero(),
    };
    assert!(w.matches(&event(TrbType::TransferEvent, 5, 0xabc0, true)));
    assert!(w.matches(&event(TrbType::TransferEvent, 5, 0xabc0, false)));
    assert!(!w.matches(&event(TrbType::CommandCompletionEvent, 5, 0xabc0, true)));
    assert!(!w.matches(&event(TrbType::TransferEvent, 6, 0xabc0, true)));
    assert!(!w.matches(&event(TrbType::TransferEvent, 5, 0xabd0, true)));
    let any_slot = EventWaitInfo { cond: cond(TrbType::TransferEvent, Some(0xabc0), None), ..w };
    assert!(any_slot.matches(&event(TrbType::TransferEvent, 9, 0xabc0, true)));
    let any_addr = EventWaitInfo { cond: cond(TrbType::TransferEvent, None, Some(5)), ..w };
    assert!(any_addr.matches(&event(TrbType::TransferEvent, 5, 1, true)));
    let mut r = w;
    assert!(r.resolve(&event(TrbType::TransferEvent, 5, 0xabc0, true)).is_ok());
    assert!(r.fulfilled);
    assert_eq!(r.event_trb, event(TrbType::TransferEvent, 5, 0xabc0, true));
    assert_eq!(r.cond, w.cond);
}

#[test]
fn dispatch_resolves_the_oldest_match_only() {
    let mut ring = EventRing::new(0x4000, 0x5000);
    let a = EventFuture::new_on_slot(&mut ring, TrbType::TransferEvent, 5, 1000, 10_000_000);
    let b = EventFuture::new_on_slot_with_timeout(&mut ring, TrbType::TransferEvent, 5, 7, 1000, 10_000_000);
    let c = EventFuture::new_on_trb(&mut ring, TrbType::CommandCompletionEvent, 0x4440, 1000, 10_000_000);
    let d = EventFuture::new_on_trb_with_timeout(&mut ring, TrbType::CommandCompletionEvent, 0x4440, 3, 0, 999);
    assert_eq!((a.wait_on, b.wait_on, c.wait_on, d.wait_on), (0, 1, 2, 3));
    assert_eq!(a.time_out, 1000 + 10_000 * 100);
    assert_eq!(b.time_out, 1000 + 10_000 * 7);
    assert_eq!(d.time_out, 0);
    assert_eq!(a.poll(&ring, 1000), EventPoll::Pending);
    let e = event(TrbType::TransferEvent, 5, 0x9990, true);
    assert!(ring.dispatch(&e));
    assert_eq!(a.poll(&ring, 1001), EventPoll::Ready(Some(e)));
    assert_eq!(b.poll(&ring, 1001), EventPoll::Pending);
    assert_eq!(b.poll(&ring, b.time_out), EventPoll::Pending);
    assert_eq!(b.poll(&ring, b.time_out + 1), EventPoll::Ready(None));
    assert_eq!(a.poll(&ring, a.time_out + 1), EventPoll::Ready(None));
    assert!(!ring.dispatch(&event(TrbType::PortStatusChangeEvent, 5, 0, true)));
    ring.release_waiter(a.wait_on);
    assert_eq!(ring.wait_list.len(), 3);
    assert_eq!(a.poll(&ring, 1001), EventPoll::Pending);
    let e2 = event(TrbType::TransferEvent, 5, 0x9991, true);
    assert!(ring.dispatch(&e2));
    assert_eq!(b.poll(&ring, 1001), EventPoll::Ready(Some(e2)));
    let e3 = event(TrbType::CommandCompletionEvent, 1, 0x4440, true);
    assert!(ring.dispatch(&e3));
    assert_eq!(c.poll(&ring, 1001), EventPoll::Ready(Some(e3)));
    assert_eq!(d.poll(&ring, 0), EventPoll::Pending);
    ring.release_waiter(99);
    assert_eq!(ring.wait_list.len(), 3);
    assert_eq!(ring.find_waiter(3), Some(2));
    assert_eq!(ring.register_waiter(cond(TrbType::TransferEvent, None, None)), 4);
}

#[test]
fn event_ring_poll_pops_and_dispatches() {
    let mut ring = EventRing::new(0x4000, 0x5000);
    ring.set_erdp(0xfee0_0038);
    assert_eq!(ring.poll(0).ok(), Some(None));
    let w = EventFuture::new_on_slot(&mut ring, TrbType::TransferEvent, 5, 0, 1000);
    let e = event(TrbType::TransferEvent, 5, 0x77, true);
    ring.ring.write(0, e).ok().unwrap();
    let handled = ring.poll(0x3).ok().unwrap().unwrap();
    assert_eq!((handled.trb, handled.erdp, handled.consumed), (e, 0x4003, true));
    assert_eq!(w.poll(&ring, 0), EventPoll::Ready(Some(e)));
    let stray = event(TrbType::PortStatusChangeEvent, 0, 0, true);
    ring.ring.write(1, stray).ok().unwrap();
    let handled = ring.poll(0).ok().unwrap().unwrap();
    assert_eq!((handled.trb, handled.erdp, handled.consumed), (stray, 0x4010, false));
    assert_eq!(ring.poll(0).ok(), Some(None));
}

#[test]
fn portsc_bits_and_state() {
    let p = |value: u32| PortScWrapper { ptr: 0x1000, value };
    assert_eq!(p(0).state(), PortState::PoweredOff);
    assert_eq!(p(0x200).state(), PortState::Disconnected);
    assert_eq!(p(0x201).state(), PortState::Disabled);
    assert_eq!(p(0x211).state(), PortState::Reset);
    assert_eq!(p(0x203).state(), PortState::Enabled);
    assert_eq!(
        p(0x001).state(),
        PortState::Other { pp: false, ccs: true, ped: false, pr: false }
    );
    assert!(p(1).ccs() && p(2).ped() && p(0x10).pr() && p(0x200).pp());
    assert!(!p(!1).ccs() && !p(!2).ped() && !p(!0x10).pr() && !p(!0x200).pp());
    assert_eq!(p(0x203).value(), 0x203);
    assert_eq!(p(0x203).set_bits(0x10), 0x213);
    assert_eq!(p(1 << 10).port_speed(), UsbMode::FullSpeed);
    assert_eq!(p(2 << 10).port_speed(), UsbMode::LowSpeed);
    assert_eq!(p(3 << 10).port_speed(), UsbMode::HighSpeed);
    assert_eq!(p(4 << 10).port_speed(), UsbMode::SuperSpeed);
    assert_eq!(p(9 << 10).port_speed(), UsbMode::Unknown(9));
    assert_eq!(p(1 << 10).max_packet_size().ok(), Some(8));
    assert_eq!(p(2 << 10).max_packet_size().ok(), Some(8));
    assert_eq!(p(3 << 10).max_packet_size().ok(), Some(64));
    assert_eq!(p(4 << 10).max_packet_size().ok(), Some(512));
    match p(12 << 10).max_packet_size() {
        Err(Error::FailedString(m)) => assert_eq!(m, "Unknown Protocol Speeed ID: Unknown(12)"),
        _ => panic!("expected an error"),
    }
    assert_eq!(p(7 << 5).pls(), PortLinkState::Polling);
    assert_eq!(p(15 << 5).pls(), PortLinkState::Resume);
    assert_eq!(p(13 << 5).pls(), PortLinkState::Reserved(13));
    for m in [UsbMode::FullSpeed, UsbMode::LowSpeed, UsbMode::HighSpeed, UsbMode::SuperSpeed] {
        assert_eq!(p(m.psi() << 10).port_speed(), m);
    }
    assert_eq!(UsbMode::Unknown(7).psi(), 7);
}

#[test]
fn port_reset_steps() {
    let p = |value: u32| PortScWrapper { ptr: 0x1000, value };
    let s = p(0x1).reset(PortResetPhase::Start);
    assert_eq!((s.next, s.write), (PortResetPhase::AwaitPower, Some(0x201)));
    let s = p(0x1).reset(PortResetPhase::AwaitPower);
    assert_eq!((s.next, s.write), (PortResetPhase::AwaitPower, None));
    let s = p(0x201).reset(PortResetPhase::AwaitPower);
    assert_eq!((s.next, s.write), (PortResetPhase::AwaitReset, Some(0x211)));
    let s = p(0x211).reset(PortResetPhase::AwaitReset);
    assert_eq!((s.next, s.write), (PortResetPhase::AwaitReset, None));
    let s = p(0x203).reset(PortResetPhase::AwaitReset);
    assert_eq!((s.next, s.write), (PortResetPhase::Done, None));
    let s = p(0x203).reset(PortResetPhase::Done);
    assert_eq!((s.next, s.write), (PortResetPhase::Done, None));
}

fn caps(hcsparams1: u32, hcsparams2: u32, hccparams1: u32) -> CapabilityRegisters {
    CapabilityRegisters {
        length: 0x40,
        reserved: 0,
        version: 0x100,
        hcsparams1,
        hcsparams2,
        hcsparams3: 0,
        hccparams1,
        dboff: 0x2000,
        rtsoff: 0x1000,
        hccparams2: 0,
    }
}

#[test]
fn capability_registers_fields() {
    let c = caps(0x0800_0840, (3 << 21) | (5 << 27), 1);
    assert_eq!(c.length(), 0x40);
    assert_eq!(c.rtsoff(), 0x1000);
    assert_eq!(c.dboff(), 0x2000);
    assert_eq!(c.num_of_device_slots(), 0x40);
    assert_eq!(c.num_of_interrupters(), 8);
    assert_eq!(c.num_of_ports(), 8);
    assert_eq!(c.num_scratch_pad_bufs(), (3 << 5) | 5);
    assert!(c.assert_capabilities().is_ok());
    match caps(0, 0, 0).assert_capabilities() {
        Err(Error::Failed(m)) => {
            assert_eq!(m, "HCCPARAMS1.AC64 was 0 (No 64-bit addressing capability)")
        }
        _ => panic!("expected an error"),
    }
    match caps(0, 0, 5).assert_capabilities() {
        Err(Error::Failed(m)) => assert_eq!(m, "HCCPARAMS1.CSZ was 1 (Context size is 64, not 32)"),
        _ => panic!("expected an error"),
    }
}

#[test]
fn portsc_list_and_iterator() {
    let c = caps(3 << 24, 0, 1);
    let mut list = PortSc::new(0xf000_0000, &c);
    assert_eq!(list.base, 0xf000_0440);
    assert!(list.store(2, 0x203).is_ok());
    assert!(list.store(0, 1).is_err());
    assert!(list.store(4, 1).is_err());
    assert_eq!(list.get(2).ok(), Some(PortScWrapper { ptr: 0xf000_0450, value: 0x203 }));
    match list.get(0) {
        Err(Error::Failed(m)) => assert_eq!(m, "xHC: Port Number Out of Range"),
        _ => panic!("expected an error"),
    }
    assert!(list.get(4).is_err());
    let mut it = list.iter();
    let mut ports = Vec::new();
    while let Some(item) = it.next() {
        ports.push((item.port, item.portsc.ptr, item.portsc.value));
    }
    assert_eq!(ports, vec![(1, 0xf000_0440, 0), (2, 0xf000_0450, 0x203), (3, 0xf000_0460, 0)]);
}

fn op_regs() -> OperationalRegisters {
    OperationalRegisters {
        command: 0x5,
        status: 0,
        page_size: 1,
        notification_ctrl: 0,
        cmd_ring_ctrl: 0,
        device_ctx_base_addr_array_ptr: 0,
        config: 0xabcd,
    }
}

#[test]
fn operational_registers() {
    let mut r = op_regs();
    assert_eq!(r.page_size().ok(), Some(4096));
    r.page_size = 0xffff_0004;
    assert_eq!(r.page_size().ok(), Some(16384));
    r.page_size = 0x8000;
    assert_eq!(r.page_size().ok(), Some(4096 << 15));
    r.page_size = 3;
    match r.page_size() {
        Err(Error::Failed(m)) => assert_eq!(m, "PAGE_SIZE has multiple bits set"),
        _ => panic!("expected an error"),
    }
    r.page_size = 0x1_0000;
    assert!(r.page_size().is_err());
    assert!(r.set_num_device_slots(0x12).is_ok());
    assert_eq!(r.config, 0xab12);
    assert!(r.set_dcbaa_ptr(0x7000).is_ok());
    assert_eq!(r.device_ctx_base_addr_array_ptr, 0x7000);
    let ring = CommandRing::new(0x9000);
    r.set_cmd_ring_ctrl(&ring);
    assert_eq!(r.cmd_ring_ctrl, 0x9001);
}

#[test]
fn controller_reset_and_start_steps() {
    let mut r = op_regs();
    assert_eq!(r.reset_xhc(XhcResetPhase::Start), XhcResetPhase::AwaitHalt);
    assert_eq!(r.command, 0x4);
    assert_eq!(r.reset_xhc(XhcResetPhase::AwaitHalt), XhcResetPhase::AwaitHalt);
    assert_eq!(r.command, 0x4);
    r.status = 1;
    assert_eq!(r.reset_xhc(XhcResetPhase::AwaitHalt), XhcResetPhase::AwaitReset);
    assert_eq!(r.command, 0x6);
    assert_eq!(r.reset_xhc(XhcResetPhase::AwaitReset), XhcResetPhase::AwaitReset);
    r.command = 0x4;
    assert_eq!(r.reset_xhc(XhcResetPhase::AwaitReset), XhcResetPhase::Done);
    assert_eq!(r.reset_xhc(XhcResetPhase::Done), XhcResetPhase::Done);
    assert_eq!(r.start_xhc(XhcStartPhase::Start), XhcStartPhase::AwaitRun);
    assert_eq!(r.command, 0x5);
    assert_eq!(r.start_xhc(XhcStartPhase::AwaitRun), XhcStartPhase::AwaitRun);
    r.status = 0;
    assert_eq!(r.start_xhc(XhcStartPhase::AwaitRun), XhcStartPhase::Done);
    assert_eq!(r.start_xhc(XhcStartPhase::Done), XhcStartPhase::Done);
}

#[test]
fn runtime_registers_init_irs() {
    let irs = InterrupterRegisterSet {
        management: 3,
        moderation: 4000,
        erst_size: 0,
        rsvdp: 0,
        erst_base: 0,
        erdp: 0,
    };
    let mut rt = RuntimeRegisters { base: 0xf000_1000, irs: vec![irs; 2] };
    let mut ring = EventRing::new(0x4000, 0x5000);
    assert!(rt.init_irs(1, &mut ring).is_ok());
    assert_eq!(
        rt.irs[1],
        InterrupterRegisterSet {
            management: 0,
            moderation: 4000,
            erst_size: 1,
            rsvdp: 0,
            erst_base: 0x5000,
            erdp: 0x4000
        }
    );
    assert_eq!(rt.irs[0], irs);
    assert_eq!(ring.erdp, Some(0xf000_1000 + 0x20 + 0x20 + 0x18));
    match rt.init_irs(2, &mut ring) {
        Err(Error::Failed(m)) => assert_eq!(m, "Index out of range"),
        _ => panic!("expected an error"),
    }
}

#[test]
fn device_context_holds_what_it_was_given() {
    let ddc = UsbDeviceDriverContext::new(3, 7, Vec::new());
    assert_eq!(ddc.port(), 3);
    assert_eq!(ddc.slot(), 7);
    assert!(ddc.descriptors().is_empty());
}
