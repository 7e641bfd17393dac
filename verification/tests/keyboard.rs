use kernel_core::command::{parse_command, Command, PingTarget};
use kernel_core::error::Error;
use kernel_core::executor::{Executor, Poll, TimeoutFuture, Yield};
use kernel_core::input::{cursor_pixel, Console, ConsoleEcho, InputManager, MouseButtonState};
use kernel_core::net::ip::IpV4Addr;
use kernel_core::text::{append_decimal, append_hex_fixed};
use kernel_core::usb::{ConfigDescriptor, EndpointDescriptor, InterfaceDescriptor, UsbDescriptor};
use kernel_core::usb_hid_keyboard::{
    check_connected, init_usb_hid_keyboard, pick_config, process_report, usage_id_to_char,
    ControlRequest, KeyEvent, KeyboardInitStep, PressedKeys, UsbHidProtocol,
};
use kernel_core::xhci::trb::GenericTrbEntry;
use kernel_core::x86_64::context::{app_step, AppStep, CpuContext, ExecutionContext};
use kernel_core::x86_64::idt::{
    inthandler, Exception, GeneralRegisterContext, Idt, IdtAttr, IdtDescriptor, InterruptAction,
    InterruptContext, InterruptHandlers, InterruptInfo, PageFaultCause, TaskStateSegment64,
};
use kernel_core::xhci::registers::PortScWrapper;

fn config(value: u8) -> UsbDescriptor {
    UsbDescriptor::Config(ConfigDescriptor {
        desc_length: 9,
        desc_type: 2,
        total_length: 34,
        num_of_interfaces: 1,
        config_value: value,
        config_string_index: 0,
        attribute: 0,
        max_power: 0,
    })
}

fn interface(class: u8, subclass: u8, protocol: u8, number: u8) -> UsbDescriptor {
    UsbDescriptor::Interface(InterfaceDescriptor {
        desc_length: 9,
        desc_type: 4,
        interface_number: number,
        alt_setting: 0,
        num_of_endpoints: 1,
        interface_class: class,
        interface_subclass: subclass,
        interface_protocol: protocol,
        interface_index: 0,
    })
}

fn endpoint(address: u8) -> UsbDescriptor {
    UsbDescriptor::Endpoint(EndpointDescriptor {
        desc_length: 7,
        desc_type: 5,
        endpoint_address: address,
        attributes: 3,
        max_packet_size: 8,
        interval: 10,
    })
}

#[test]
fn pick_config_takes_last_config_with_boot_keyboard() {
    let descs = vec![
        config(1),
        interface(3, 0, 0, 0),
        endpoint(0x81),
        config(2),
        endpoint(0x82),
        interface(3, 1, 1, 1),
        endpoint(0x83),
        UsbDescriptor::Unknown { desc_len: 9, desc_type: 0x21 },
        interface(3, 1, 1, 2),
        endpoint(0x84),
        config(3),
        interface(3, 1, 1, 3),
        endpoint(0x85),
    ];
    let (c, i, eps) = pick_config(&descs).ok().unwrap();
    assert_eq!(c.config_value(), 3);
    assert_eq!(i.interface_number, 3);
    assert_eq!(i.triple(), (3, 1, 1));
    let addrs: Vec<u8> = eps.iter().map(|e| e.endpoint_address).collect();
    assert_eq!(addrs, vec![0x85]);
    assert_eq!(eps[0].dci(), 11);
}

#[test]
fn pick_config_passes_over_later_configs_without_boot_keyboard() {
    let descs = vec![
        interface(3, 1, 1, 9),
        endpoint(0x80),
        config(1),
        interface(3, 0, 0, 0),
        config(2),
        endpoint(0x82),
        interface(3, 1, 1, 1),
        endpoint(0x83),
        interface(3, 1, 1, 2),
        interface(8, 6, 80, 4),
        endpoint(0x04),
        config(3),
        interface(3, 1, 2, 3),
        endpoint(0x85),
        config(4),
    ];
    let (c, i, eps) = pick_config(&descs).ok().unwrap();
    assert_eq!(c.config_value(), 2);
    assert_eq!(i.interface_number, 2);
    let addrs: Vec<u8> = eps.iter().map(|e| e.endpoint_address).collect();
    assert_eq!(addrs, vec![0x82, 0x83, 0x04]);
    let (interface, eps) = kernel_core::usb_hid_keyboard::scan_config(&descs, 5, 11);
    assert_eq!(interface.map(|i| i.interface_number), Some(2));
    assert_eq!(eps.len(), 3);
    let (interface, eps) = kernel_core::usb_hid_keyboard::scan_config(&descs, 12, 14);
    assert_eq!(interface, None);
    assert_eq!(eps.len(), 1);
}

#[test]
fn keyboard_setup_selects_before_it_fills() {
    let descs = vec![config(4), interface(3, 1, 1, 1), endpoint(0x81), endpoint(0x02)];
    let steps = init_usb_hid_keyboard(&descs).ok().unwrap();
    let (i, e0, e1) = match (descs[1], descs[2], descs[3]) {
        (UsbDescriptor::Interface(i), UsbDescriptor::Endpoint(a), UsbDescriptor::Endpoint(b)) => {
            (i, a, b)
        }
        _ => panic!("unexpected descriptors"),
    };
    assert_eq!(
        steps,
        vec![
            KeyboardInitStep::SetConfig(4),
            KeyboardInitStep::SetInterface(i),
            KeyboardInitStep::SetProtocol(i, UsbHidProtocol::BootProtocol),
            KeyboardInitStep::FillRing(3),
            KeyboardInitStep::NotifyEndpoint(e0),
            KeyboardInitStep::FillRing(4),
            KeyboardInitStep::NotifyEndpoint(e1),
        ]
    );
    assert!(init_usb_hid_keyboard(&vec![config(4)]).is_err());
    let requests: Vec<Option<ControlRequest>> = steps.iter().map(|s| s.control_request()).collect();
    assert_eq!(
        requests,
        vec![
            Some(ControlRequest { request_type: 0, request: 9, value: 4, index: 0, length: 0 }),
            Some(ControlRequest { request_type: 1, request: 11, value: 0, index: 1, length: 0 }),
            Some(ControlRequest { request_type: 0x21, request: 0x0b, value: 0, index: 1, length: 0 }),
            None,
            None,
            None,
            None,
        ]
    );
    let setup = requests[2].unwrap().setup_stage();
    assert_eq!(setup.data, 0x0000_0001_0000_0b21);
    assert_eq!(setup.status, 8);
    assert_eq!(setup.control, (2 << 10) | (1 << 6));
    assert_eq!(setup.trb_type(), 2);
    let read = GenericTrbEntry::setup_stage(0x80, 6, 0x0100, 0, 18);
    assert_eq!(read.data, 0x0012_0000_0100_0680);
    assert_eq!(read.control, (3 << 16) | (2 << 10) | (1 << 6));
    assert_eq!(GenericTrbEntry::setup_stage(0, 9, 1, 0, 4).control, (2 << 16) | (2 << 10) | (1 << 6));
    let status = GenericTrbEntry::status_stage_in();
    assert_eq!((status.data, status.status), (0, 0));
    assert_eq!(status.control, (4 << 10) | (1 << 16) | (1 << 5));
    assert_eq!(status.trb_type(), 4);
}

#[test]
fn pick_config_errors() {
    match pick_config(&vec![interface(3, 1, 1, 0), endpoint(0x81)]) {
        Err(Error::Failed(m)) => assert_eq!(m, "No USB KBD Boot config found"),
        _ => panic!("expected an error"),
    }
    match pick_config(&vec![interface(3, 1, 1, 0), config(1)]) {
        Err(Error::Failed(m)) => assert_eq!(m, "No USB KBD Boot interface found"),
        _ => panic!("expected an error"),
    }
    match pick_config(&vec![endpoint(0x81), UsbDescriptor::Unknown { desc_len: 2, desc_type: 9 }]) {
        Err(Error::Failed(m)) => assert_eq!(m, "No USB KBD Boot config found"),
        _ => panic!("expected an error"),
    }
    match pick_config(&vec![config(1), interface(3, 1, 2, 0), endpoint(0x81)]) {
        Err(Error::Failed(m)) => assert_eq!(m, "No USB KBD Boot interface found"),
        _ => panic!("expected an error"),
    }
    assert!(pick_config(&Vec::new()).is_err());
}

#[test]
fn usage_ids_translate() {
    assert_eq!(usage_id_to_char(0).ok(), Some(KeyEvent::Nothing));
    assert_eq!(usage_id_to_char(4).ok(), Some(KeyEvent::Char('a')));
    assert_eq!(usage_id_to_char(29).ok(), Some(KeyEvent::Char('z')));
    assert_eq!(usage_id_to_char(30).ok(), Some(KeyEvent::Char('1')));
    assert_eq!(usage_id_to_char(38).ok(), Some(KeyEvent::Char('9')));
    assert_eq!(usage_id_to_char(39).ok(), Some(KeyEvent::Char('0')));
    assert_eq!(usage_id_to_char(40).ok(), Some(KeyEvent::Enter));
    for id in [1u8, 2, 3, 41, 100, 255] {
        match usage_id_to_char(id) {
            Err(Error::FailedString(m)) => {
                assert_eq!(m, format!("Unhandled USB HID Keyboard Usage ID {id:}"))
            }
            _ => panic!("expected an error"),
        }
    }
    assert_eq!(KeyEvent::Char('q').to_char(), Some('q'));
    assert_eq!(KeyEvent::Enter.to_char(), Some('\n'));
    assert_eq!(KeyEvent::Nothing.to_char(), None);
}

#[test]
fn report_gives_newly_pressed_keys_once() {
    let prev = PressedKeys::new();
    let (next, chars) = process_report(&prev, &[0x02, 0, 7, 4, 40, 0, 0, 0]);
    assert_eq!(chars, vec!['a', 'd', '\n']);
    assert!(next.get(4) && next.get(7) && next.get(40) && next.get(0));
    assert!(!next.get(2) && !next.get(5));
    let (next2, chars) = process_report(&next, &[0, 0, 4, 7, 5, 41, 0, 0]);
    assert_eq!(chars, vec!['b']);
    assert!(next2.get(41) && !next2.get(40));
    let (_, chars) = process_report(&next2, &[4, 5, 0, 0, 0, 0, 0, 0]);
    assert_eq!(chars, Vec::<char>::new());
    let (_, chars) = process_report(&prev, &[0, 0, 39, 39, 30, 29, 1, 0]);
    assert_eq!(chars, vec!['z', '1', '0']);
}

#[test]
fn disconnected_port_ends_the_driver() {
    assert!(check_connected(3, &PortScWrapper { ptr: 0, value: 0x203 }).is_ok());
    match check_connected(12, &PortScWrapper { ptr: 0, value: 0x202 }) {
        Err(Error::FailedString(m)) => assert_eq!(m, "port 12 disconnected"),
        _ => panic!("expected an error"),
    }
}

#[test]
fn idt_descriptor_splits_the_address() {
    let d = IdtDescriptor::new(8, 1, IdtAttr::IntGateDPL0, 0x1234_5678_9abc_def0);
    assert_eq!(d.offset_low, 0xdef0);
    assert_eq!(d.offset_mid, 0x9abc);
    assert_eq!(d.offset_high, 0x1234_5678);
    assert_eq!(d.segment_selector, 8);
    assert_eq!(d.ist_index, 1);
    assert_eq!(d.attr.bits(), 0x8e);
    assert_eq!(IdtAttr::NotPresent.bits(), 0);
    assert_eq!(d.handler(), 0x1234_5678_9abc_def0);
    assert_eq!(d.reserved, 0);
}

#[test]
fn idt_routes_known_vectors() {
    let h = InterruptHandlers {
        unimplemented: 0x100,
        breakpoint: 0x203,
        invalid_opcode: 0x206,
        general_protection: 0x20d,
        page_fault: 0x20e,
        timer: 0x220,
    };
    let idt = Idt::new(0x08, &h);
    for v in 0..256usize {
        let want = match v {
            3 => 0x203,
            6 => 0x206,
            13 => 0x20d,
            14 => 0x20e,
            32 => 0x220,
            _ => 0x100,
        };
        assert_eq!(idt.entries[v].handler(), want);
        assert_eq!(idt.entries[v].segment_selector, 8);
        assert_eq!(idt.entries[v].ist_index, 1);
        assert_eq!(idt.entries[v].attr, IdtAttr::IntGateDPL0);
    }
    assert_eq!(idt.limit(), 4095);
}

fn info(error_code: u64) -> InterruptInfo {
    InterruptInfo {
        greg: GeneralRegisterContext {
            rax: 1,
            rdx: 2,
            rbx: 3,
            rbp: 0xffff_8000_0000_1000,
            rsi: 5,
            rdi: 6,
            r8: 8,
            r9: 9,
            r10: 10,
            r11: 11,
            r12: 12,
            r13: 13,
            r14: 14,
            r15: u64::MAX,
            rcx: 0xc,
        },
        error_code,
        ctx: InterruptContext { rip: 0x10_0000, cs: 8, rflags: 0x202, rsp: 0x7fff_0000, ss: 0x12345 },
    }
}

#[test]
fn interrupts_are_answered_or_fatal() {
    assert_eq!(inthandler(&info(0), 32), InterruptAction::EndOfInterrupt);
    assert_eq!(inthandler(&info(0), 3), InterruptAction::Fatal(Exception::Breakpoint));
    assert_eq!(inthandler(&info(0), 6), InterruptAction::Fatal(Exception::InvalidOpcode));
    assert_eq!(inthandler(&info(0), 13), InterruptAction::Fatal(Exception::NotHandled));
    assert_eq!(inthandler(&info(0), 0), InterruptAction::Fatal(Exception::NotHandled));
    assert_eq!(
        inthandler(&info(0b110), 14),
        InterruptAction::Fatal(Exception::PageFault(PageFaultCause {
            user: true,
            write: true,
            present: false
        }))
    );
    assert_eq!(
        inthandler(&info(0b001), 14),
        InterruptAction::Fatal(Exception::PageFault(PageFaultCause {
            user: false,
            write: false,
            present: true
        }))
    );
}

#[test]
fn interrupt_report_lists_the_registers() {
    let i = info(0xb);
    let want = format!(
        "
        {{
            rip: {:#018X}, CS: {:#06X},
            rsp: {:#018X}, SS: {:#06X},
            rbp: {:#018X},

            rflags:     {:#018X},
            error_code: {:#018X},

            rax: {:#018X}, rcx: {:#018X},
            rdx: {:#018X}, rbx: {:#018X},
            rsi: {:#018X}, rdi: {:#018X},
            r8:  {:#018X}, r9:  {:#018X},
            r10: {:#018X}, r11: {:#018X},
            r12: {:#018X}, r13: {:#018X},
            r14: {:#018X}, r15: {:#018X},
        }}",
        i.ctx.rip,
        i.ctx.cs,
        i.ctx.rsp,
        i.ctx.ss,
        i.greg.rbp,
        i.ctx.rflags,
        i.error_code,
        i.greg.rax,
        i.greg.rcx,
        i.greg.rdx,
        i.greg.rbx,
        i.greg.rsi,
        i.greg.rdi,
        i.greg.r8,
        i.greg.r9,
        i.greg.r10,
        i.greg.r11,
        i.greg.r12,
        i.greg.r13,
        i.greg.r14,
        i.greg.r15,
    );
    assert_eq!(i.fmt(), want);
    assert!(want.contains("CS: 0x0008,"));
    assert!(want.contains("SS: 0x12345,"));
}

#[test]
fn tss_points_every_stack_at_the_top() {
    let tss = TaskStateSegment64::new(0x9000, 0x20_0000);
    assert_eq!(tss.phys_addr(), 0x9000);
    assert_eq!(tss.rsp, [0x21_0000, 0, 0]);
    assert_eq!(tss.ist, [0x21_0000; 8]);
    assert_eq!(tss.io_map_base_addr, 0);
}

#[test]
fn contexts_start_zeroed_and_keep_rsp_last() {
    let ctx = ExecutionContext::default();
    assert!(ctx.fpu.data.iter().all(|b| *b == 0));
    assert_eq!(ctx.cpu.frame(), [0u64; 18]);
    let mut cpu = CpuContext::default();
    cpu.rip = 1;
    cpu.rflags = 2;
    cpu.rsp = 18;
    cpu.r15 = 17;
    let f = cpu.frame();
    assert_eq!((f[0], f[1], f[16], f[17]), (1, 2, 17, 18));
    assert_eq!(app_step(0, 42), AppStep::Exit(42));
    assert_eq!(app_step(1, 42), AppStep::Yield);
    assert_eq!(app_step(-1, 0), AppStep::Yield);
}

fn chars(s: &str) -> Vec<char> {
    s.chars().collect()
}

#[test]
fn console_edits_and_runs_lines() {
    let mut c = Console::new();
    let mut shown = Vec::new();
    let mut ran = Vec::new();
    for ch in "ip\u{7f}\u{7f}\u{7f}ar!p X.9\n\rq\r".chars() {
        let step = c.input(ch);
        shown.push(step.echo);
        if let Some(line) = step.run {
            ran.push(line.into_iter().collect::<String>());
        }
    }
    assert_eq!(ran, vec!["arp X.9".to_string(), "".to_string(), "q".to_string()]);
    assert_eq!(shown[0], ConsoleEcho::Char('i'));
    assert_eq!(shown[2], ConsoleEcho::Erase);
    assert_eq!(shown[4], ConsoleEcho::Erase);
    assert_eq!(shown[7], ConsoleEcho::Nothing);
    assert_eq!(shown[13], ConsoleEcho::Nothing);
    assert_eq!(c.input('\u{17f}').echo, ConsoleEcho::Erase);
}

#[test]
fn commands_are_recognised() {
    assert_eq!(parse_command(&chars("panic")), Command::Panic);
    assert_eq!(parse_command(&chars("  ip  ")), Command::Ip);
    assert_eq!(parse_command(&chars("arp extra words")), Command::Arp);
    assert_eq!(parse_command(&chars("ping")), Command::Ping(PingTarget::Missing));
    assert_eq!(
        parse_command(&chars("ping 10.0.2.2")),
        Command::Ping(PingTarget::Addr(IpV4Addr::new([10, 0, 2, 2])))
    );
    assert_eq!(
        parse_command(&chars("ping +10.000.2.255 rest")),
        Command::Ping(PingTarget::Addr(IpV4Addr::new([10, 0, 2, 255])))
    );
    assert_eq!(parse_command(&chars("ping  10.0.2.2")), Command::Ping(PingTarget::Invalid));
    assert_eq!(parse_command(&chars("ping 10.0.2")), Command::Ping(PingTarget::Invalid));
    assert_eq!(parse_command(&chars("ping 10.0.2.256")), Command::Ping(PingTarget::Invalid));
    assert_eq!(parse_command(&chars("ping 10.0.2.2.1")), Command::Ping(PingTarget::Invalid));
    assert_eq!(parse_command(&chars("ping 10..2.2")), Command::Ping(PingTarget::Invalid));
    assert_eq!(parse_command(&chars("ping 10.0.2.+")), Command::Ping(PingTarget::Invalid));
    assert_eq!(parse_command(&chars("hello0 1 2")), Command::App(chars("hello0")));
    assert_eq!(parse_command(&chars("pin")), Command::App(chars("pin")));
    assert_eq!(parse_command(&chars("   ")), Command::App(Vec::new()));
    assert_eq!(parse_command(&chars("")), Command::App(Vec::new()));
    assert!(IpV4Addr::from_chars(&chars("1.2.3.4")).is_ok());
    match IpV4Addr::from_chars(&chars("1.2.3")) {
        Err(Error::Failed(m)) => assert_eq!(m, "Invalid IPv4 address"),
        _ => panic!("expected an error"),
    }
}

#[test]
fn input_queue_is_fifo() {
    let mut m = InputManager::new();
    assert_eq!(m.pop_input(), None);
    m.push_input('a');
    m.push_input('b');
    assert_eq!(m.pop_input(), Some('a'));
    m.push_input('c');
    assert_eq!(m.pop_input(), Some('b'));
    assert_eq!(m.pop_input(), Some('c'));
    assert_eq!(m.pop_input(), None);
}

#[test]
fn cursor_is_clamped_and_colored() {
    let up = MouseButtonState { l: false, c: false, r: false };
    let down = MouseButtonState { l: true, c: false, r: true };
    assert_eq!(cursor_pixel(5, 6, 10, 10, up), (5, 6, !0));
    assert_eq!(cursor_pixel(-5, 60, 10, 10, down), (0, 9, !0xff0000));
    assert_eq!(cursor_pixel(10, -1, 10, 1, up), (9, 0, 0xffffffff));
}

#[test]
fn executor_is_round_robin() {
    let mut e = Executor::new();
    e.spawn(1);
    e.spawn(2);
    e.spawn(3);
    let mut order = Vec::new();
    let mut turns = 0;
    while let Some(t) = e.next_task() {
        order.push(t);
        turns += 1;
        let result = if t == 2 || turns > 5 { Poll::Ready } else { Poll::Pending };
        e.polled(t, result);
    }
    assert_eq!(order, vec![1, 2, 3, 1, 3, 1, 3]);
    let mut y = Yield::new();
    assert_eq!(y.poll(), Poll::Pending);
    assert_eq!(y.poll(), Poll::Ready);
    assert_eq!(y.poll(), Poll::Ready);
    let mut t = TimeoutFuture::new_ms(100);
    assert_eq!(t.poll(1000, 10_000_000), Poll::Pending);
    assert_eq!(t.deadline, Some(1000 + 1_000_000));
    assert_eq!(t.poll(1_000_999, 10_000_000), Poll::Pending);
    assert_eq!(t.poll(1_001_000, 10_000_000), Poll::Ready);
    let mut z = TimeoutFuture::new_ms(0);
    assert_eq!(z.poll(77, 10_000_000), Poll::Ready);
    let mut far = TimeoutFuture::new_ms(u64::MAX);
    assert_eq!(far.poll(5, u64::MAX), Poll::Pending);
    assert_eq!(far.deadline, Some(u64::MAX));
}

#[test]
fn numbers_are_written_out() {
    let mut s = String::from("x=");
    append_decimal(&mut s, 0);
    s.push(' ');
    append_decimal(&mut s, 1234567890123);
    s.push(' ');
    append_decimal(&mut s, u64::MAX);
    assert_eq!(s, format!("x=0 1234567890123 {}", u64::MAX));
    let mut h = String::new();
    append_hex_fixed(&mut h, 0xabc, 4);
    append_hex_fixed(&mut h, 0x1f, 1);
    append_hex_fixed(&mut h, 9, 0);
    assert_eq!(h, "0ABCF");
    let mut p = String::new();
    kernel_core::text::append_hex_padded(&mut p, 0x1f, 4);
    p.push(' ');
    kernel_core::text::append_hex_padded(&mut p, 0x12345, 4);
    p.push(' ');
    kernel_core::text::append_hex_padded(&mut p, u64::MAX, 16);
    p.push(' ');
    kernel_core::text::append_hex_padded(&mut p, 7, 0);
    assert_eq!(p, "001F 12345 FFFFFFFFFFFFFFFF 7");
    let mut x = String::new();
    kernel_core::text::append_hex(&mut x, 0);
    x.push(' ');
    kernel_core::text::append_hex(&mut x, 0xdead_beef_0123);
    assert_eq!(x, format!("{:X} {:X}", 0, 0xdead_beef_0123u64));
}
