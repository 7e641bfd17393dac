use vstd::prelude::*;
use vstd::string::StringExecFns;
use crate::text::{append_hex_padded, hex_padded};

verus! {

/// Attribute bits of an interrupt gate.
pub const BIT_FLAGS_INTGATE: u8 = 0x0e;

/// Attribute bit of a descriptor that is present.
pub const BIT_FLAGS_PRESENT: u8 = 0x80;

/// Attribute byte of an interrupt gate that is present and can be entered
/// from ring 0 only.
pub const ATTR_INT_GATE_DPL0: u8 = 0x8e;

/// The attribute byte for ring 0 holds the type of an interrupt gate and
/// the present bit, and the privilege level zero.
pub proof fn lemma_gate_attr()
    ensures
        ATTR_INT_GATE_DPL0 == BIT_FLAGS_INTGATE | BIT_FLAGS_PRESENT,
        (ATTR_INT_GATE_DPL0 >> 5) & 0x3 == 0,
{
    assert(0x8eu8 == 0x0eu8 | 0x80u8 && (0x8eu8 >> 5) & 0x3 == 0) by (bit_vector);
}

/// Number of interrupt vectors.
pub const NUM_VECTORS: usize = 256;

/// Size of a descriptor in bytes.
pub const DESCRIPTOR_SIZE: usize = 16;

/// Vector of the breakpoint exception.
pub const VECTOR_BREAKPOINT: usize = 3;

/// Vector of the invalid opcode exception.
pub const VECTOR_INVALID_OPCODE: usize = 6;

/// Vector of the general protection exception.
pub const VECTOR_GENERAL_PROTECTION: usize = 13;

/// Vector of the page fault exception.
pub const VECTOR_PAGE_FAULT: usize = 14;

/// Vector of the timer interrupt.
pub const VECTOR_TIMER: usize = 32;

/// The index of the interrupt stack that every vector uses.
pub const IST_INDEX: u8 = 1;

/// The attributes of a descriptor.
#[derive(Debug, Copy, Clone, PartialEq, Eq, Structural)]
pub enum IdtAttr {
    /// The descriptor is not present.
    NotPresent,
    /// An interrupt gate that is present, entered from ring 0.
    IntGateDPL0,
}

impl IdtAttr {
    /// The attribute byte.
    pub fn bits(self) -> (r: u8)
        ensures
            r == (match self {
                IdtAttr::NotPresent => 0u8,
                IdtAttr::IntGateDPL0 => ATTR_INT_GATE_DPL0,
            }),
    {
        match self {
            IdtAttr::NotPresent => 0,
            IdtAttr::IntGateDPL0 => ATTR_INT_GATE_DPL0,
        }
    }
}

/// One entry of the interrupt descriptor table: where the handler of a
/// vector lies and how it is entered.
#[derive(Debug, Copy, Clone, PartialEq, Eq, Structural)]
pub struct IdtDescriptor {
    pub offset_low: u16,
    pub segment_selector: u16,
    pub ist_index: u8,
    pub attr: IdtAttr,
    pub offset_mid: u16,
    pub offset_high: u32,
    pub reserved: u32,
}

impl IdtDescriptor {
    /// The address of the handler, put together from its three parts.
    pub open spec fn spec_handler(&self) -> int {
        self.offset_low + self.offset_mid * 0x10000 + self.offset_high * 0x1_0000_0000
    }

    /// The descriptor of the handler at `handler_addr`: the address is
    /// split into its lowest sixteen bits, the next sixteen, and the
    /// highest thirty-two.
    pub fn new(segment_selector: u16, ist_index: u8, attr: IdtAttr, handler_addr: u64) -> (r: Self)
        ensures
            r.spec_handler() == handler_addr,
            r.segment_selector == segment_selector,
            r.ist_index == ist_index,
            r.attr == attr,
            r.reserved == 0,
    {
        Self {
            offset_low: (handler_addr % 0x10000) as u16,
            offset_mid: ((handler_addr / 0x10000) % 0x10000) as u16,
            offset_high: (handler_addr / 0x1_0000_0000) as u32,
            segment_selector,
            ist_index,
            attr,
            reserved: 0,
        }
    }

    /// The address of the handler.
    pub fn handler(&self) -> (r: u64)
        ensures
            r == self.spec_handler(),
    {
        (self.offset_low as u64) + (self.offset_mid as u64) * 0x10000 + (self.offset_high as u64)
            * 0x1_0000_0000
    }
}

/// The addresses of the entry points of the interrupt handlers.
#[derive(Debug, Copy, Clone, PartialEq, Eq, Structural)]
pub struct InterruptHandlers {
    /// The handler of every vector that has none of its own.
    pub unimplemented: u64,
    pub breakpoint: u64,
    pub invalid_opcode: u64,
    pub general_protection: u64,
    pub page_fault: u64,
    pub timer: u64,
}

impl InterruptHandlers {
    /// The handler of `vector`.
    pub open spec fn spec_handler_of(&self, vector: int) -> u64 {
        if vector == VECTOR_BREAKPOINT {
            self.breakpoint
        } else if vector == VECTOR_INVALID_OPCODE {
            self.invalid_opcode
        } else if vector == VECTOR_GENERAL_PROTECTION {
            self.general_protection
        } else if vector == VECTOR_PAGE_FAULT {
            self.page_fault
        } else if vector == VECTOR_TIMER {
            self.timer
        } else {
            self.unimplemented
        }
    }
}

/// The interrupt descriptor table.
pub struct Idt {
    pub entries: [IdtDescriptor; 256],
}

impl Idt {
    /// The table whose vectors 3, 6, 13, 14 and 32 lead to their handlers
    /// and all others to the handler for the unexpected. Every entry is an
    /// interrupt gate in the segment `segment_selector`, on the first
    /// interrupt stack.
    pub fn new(segment_selector: u16, handlers: &InterruptHandlers) -> (r: Idt)
        ensures
            forall|v: int|
                0 <= v < 256 ==> {
                    &&& (#[trigger] r.entries@[v]).spec_handler() == handlers.spec_handler_of(v)
                    &&& r.entries@[v].segment_selector == segment_selector
                    &&& r.entries@[v].ist_index == IST_INDEX
                    &&& r.entries@[v].attr == IdtAttr::IntGateDPL0
                    &&& r.entries@[v].reserved == 0
                },
    {
        let mut idt = Idt {
            entries: [IdtDescriptor::new(
                segment_selector,
                IST_INDEX,
                IdtAttr::IntGateDPL0,
                handlers.unimplemented,
            );256],
        };
        idt.entries[VECTOR_BREAKPOINT] = IdtDescriptor::new(
            segment_selector,
            IST_INDEX,
            IdtAttr::IntGateDPL0,
            handlers.breakpoint,
        );
        idt.entries[VECTOR_INVALID_OPCODE] = IdtDescriptor::new(
            segment_selector,
            IST_INDEX,
            IdtAttr::IntGateDPL0,
            handlers.invalid_opcode,
        );
        idt.entries[VECTOR_GENERAL_PROTECTION] = IdtDescriptor::new(
            segment_selector,
            IST_INDEX,
            IdtAttr::IntGateDPL0,
            handlers.general_protection,
        );
        idt.entries[VECTOR_PAGE_FAULT] = IdtDescriptor::new(
            segment_selector,
            IST_INDEX,
            IdtAttr::IntGateDPL0,
            handlers.page_fault,
        );
        idt.entries[VECTOR_TIMER] = IdtDescriptor::new(
            segment_selector,
            IST_INDEX,
            IdtAttr::IntGateDPL0,
            handlers.timer,
        );
        idt
    }

    /// The limit of the table for the processor: its size in bytes, less
    /// one.
    pub fn limit(&self) -> (r: u16)
        ensures
            r == NUM_VECTORS * DESCRIPTOR_SIZE - 1,
    {
        (NUM_VECTORS * DESCRIPTOR_SIZE - 1) as u16
    }
}

/// The general registers that an interrupt entry saves, in the order in
/// which they lie on the stack.
#[derive(Debug, Copy, Clone, PartialEq, Eq, Structural)]
pub struct GeneralRegisterContext {
    pub rax: u64,
    pub rdx: u64,
    pub rbx: u64,
    pub rbp: u64,
    pub rsi: u64,
    pub rdi: u64,
    pub r8: u64,
    pub r9: u64,
    pub r10: u64,
    pub r11: u64,
    pub r12: u64,
    pub r13: u64,
    pub r14: u64,
    pub r15: u64,
    pub rcx: u64,
}

/// What the processor pushes when it takes an interrupt.
#[derive(Debug, Copy, Clone, PartialEq, Eq, Structural)]
pub struct InterruptContext {
    pub rip: u64,
    pub cs: u64,
    pub rflags: u64,
    pub rsp: u64,
    pub ss: u64,
}

/// The state that an interrupt handler is handed.
#[derive(Debug, Copy, Clone, PartialEq, Eq, Structural)]
pub struct InterruptInfo {
    pub greg: GeneralRegisterContext,
    pub error_code: u64,
    pub ctx: InterruptContext,
}

/// A register of sixty-four bits in the report of an exception: `0x` and
/// sixteen hexadecimal digits.
pub open spec fn reg_text(v: u64) -> Seq<char> {
    "0x"@ + hex_padded(v as nat, 16)
}

/// A segment selector in the report of an exception: `0x` and four
/// hexadecimal digits, or more where it needs more.
pub open spec fn selector_text(v: u64) -> Seq<char> {
    "0x"@ + hex_padded(v as nat, 4)
}

impl InterruptInfo {
    /// The report of the state: the place of the exception and the stack,
    /// the flags and the error code, then the general registers by two.
    pub open spec fn spec_text(&self) -> Seq<char> {
        "\n        {\n            rip: "@ + reg_text(self.ctx.rip) + ", CS: "@ + selector_text(
            self.ctx.cs,
        ) + ",\n            rsp: "@ + reg_text(self.ctx.rsp) + ", SS: "@ + selector_text(
            self.ctx.ss,
        ) + ",\n            rbp: "@ + reg_text(self.greg.rbp)
            + ",\n\n            rflags:     "@ + reg_text(self.ctx.rflags)
            + ",\n            error_code: "@ + reg_text(self.error_code)
            + ",\n\n            rax: "@ + reg_text(self.greg.rax) + ", rcx: "@ + reg_text(
            self.greg.rcx,
        ) + ",\n            rdx: "@ + reg_text(self.greg.rdx) + ", rbx: "@ + reg_text(
            self.greg.rbx,
        ) + ",\n            rsi: "@ + reg_text(self.greg.rsi) + ", rdi: "@ + reg_text(
            self.greg.rdi,
        ) + ",\n            r8:  "@ + reg_text(self.greg.r8) + ", r9:  "@ + reg_text(
            self.greg.r9,
        ) + ",\n            r10: "@ + reg_text(self.greg.r10) + ", r11: "@ + reg_text(
            self.greg.r11,
        ) + ",\n            r12: "@ + reg_text(self.greg.r12) + ", r13: "@ + reg_text(
            self.greg.r13,
        ) + ",\n            r14: "@ + reg_text(self.greg.r14) + ", r15: "@ + reg_text(
            self.greg.r15,
        ) + ",\n        }"@
    }

    /// Writes the report of the state.
    pub fn fmt(&self) -> (r: String)
        ensures
            r@ == self.spec_text(),
    {
        let mut m = String::from_str("\n        {\n            rip: ");
        append_reg(&mut m, self.ctx.rip);
        m.append(", CS: ");
        append_selector(&mut m, self.ctx.cs);
        m.append(",\n            rsp: ");
        append_reg(&mut m, self.ctx.rsp);
        m.append(", SS: ");
        append_selector(&mut m, self.ctx.ss);
        m.append(",\n            rbp: ");
        append_reg(&mut m, self.greg.rbp);
        m.append(",\n\n            rflags:     ");
        append_reg(&mut m, self.ctx.rflags);
        m.append(",\n            error_code: ");
        append_reg(&mut m, self.error_code);
        m.append(",\n\n            rax: ");
        append_reg(&mut m, self.greg.rax);
        m.append(", rcx: ");
        append_reg(&mut m, self.greg.rcx);
        m.append(",\n            rdx: ");
        append_reg(&mut m, self.greg.rdx);
        m.append(", rbx: ");
        append_reg(&mut m, self.greg.rbx);
        m.append(",\n            rsi: ");
        append_reg(&mut m, self.greg.rsi);
        m.append(", rdi: ");
        append_reg(&mut m, self.greg.rdi);
        m.append(",\n            r8:  ");
        append_reg(&mut m, self.greg.r8);
        m.append(", r9:  ");
        append_reg(&mut m, self.greg.r9);
        m.append(",\n            r10: ");
        append_reg(&mut m, self.greg.r10);
        m.append(", r11: ");
        append_reg(&mut m, self.greg.r11);
        m.append(",\n            r12: ");
        append_reg(&mut m, self.greg.r12);
        m.append(", r13: ");
        append_reg(&mut m, self.greg.r13);
        m.append(",\n            r14: ");
        append_reg(&mut m, self.greg.r14);
        m.append(", r15: ");
        append_reg(&mut m, self.greg.r15);
        m.append(",\n        }");
        assert(m@ =~= self.spec_text());
        m
    }
}

/// Appends a register of sixty-four bits.
fn append_reg(s: &mut String, v: u64)
    ensures
        final(s)@ == old(s)@ + reg_text(v),
{
    s.append("0x");
    append_hex_padded(s, v, 16);
    assert(s@ =~= old(s)@ + reg_text(v));
}

/// Appends a segment selector.
fn append_selector(s: &mut String, v: u64)
    ensures
        final(s)@ == old(s)@ + selector_text(v),
{
    s.append("0x");
    append_hex_padded(s, v, 4);
    assert(s@ =~= old(s)@ + selector_text(v));
}

/// Why a page fault happened, as its error code says.
#[derive(Debug, Copy, Clone, PartialEq, Eq, Structural)]
pub struct PageFaultCause {
    /// In user mode, else in supervisor mode.
    pub user: bool,
    /// By a write, else by a read.
    pub write: bool,
    /// On a page that is present, else on one that is not.
    pub present: bool,
}

/// The exceptions that the kernel tells apart.
#[derive(Debug, Copy, Clone, PartialEq, Eq, Structural)]
pub enum Exception {
    Breakpoint,
    InvalidOpcode,
    PageFault(PageFaultCause),
    NotHandled,
}

/// What the kernel does about an interrupt.
#[derive(Debug, Copy, Clone, PartialEq, Eq, Structural)]
pub enum InterruptAction {
    /// Tell the interrupt controller that the interrupt is handled, and
    /// go on.
    EndOfInterrupt,
    /// Report the exception and stop: an exception is fatal.
    Fatal(Exception),
}

/// The cause of the page fault with the error code `error_code`.
pub open spec fn spec_page_fault_cause(error_code: u64) -> PageFaultCause {
    PageFaultCause {
        user: error_code & 0b0100 != 0,
        write: error_code & 0b0010 != 0,
        present: error_code & 0b0001 != 0,
    }
}

/// What the kernel does about the interrupt on vector `index`.
pub open spec fn spec_inthandler(error_code: u64, index: usize) -> InterruptAction {
    if index == VECTOR_TIMER {
        InterruptAction::EndOfInterrupt
    } else if index == VECTOR_BREAKPOINT {
        InterruptAction::Fatal(Exception::Breakpoint)
    } else if index == VECTOR_INVALID_OPCODE {
        InterruptAction::Fatal(Exception::InvalidOpcode)
    } else if index == VECTOR_PAGE_FAULT {
        InterruptAction::Fatal(Exception::PageFault(spec_page_fault_cause(error_code)))
    } else {
        InterruptAction::Fatal(Exception::NotHandled)
    }
}

/// Decides what to do about the interrupt on vector `index` that came
/// with the state `info`: the timer is answered and the kernel goes on;
/// every exception is fatal.
pub fn inthandler(info: &InterruptInfo, index: usize) -> (r: InterruptAction)
    ensures
        r == spec_inthandler(info.error_code, index),
{
    let error_code = info.error_code;
    if index == VECTOR_TIMER {
        return InterruptAction::EndOfInterrupt;
    }
    if index == VECTOR_BREAKPOINT {
        InterruptAction::Fatal(Exception::Breakpoint)
    } else if index == VECTOR_INVALID_OPCODE {
        InterruptAction::Fatal(Exception::InvalidOpcode)
    } else if index == VECTOR_PAGE_FAULT {
        InterruptAction::Fatal(
            Exception::PageFault(
                PageFaultCause {
                    user: error_code & 0b0100 != 0,
                    write: error_code & 0b0010 != 0,
                    present: error_code & 0b0001 != 0,
                },
            ),
        )
    } else {
        InterruptAction::Fatal(Exception::NotHandled)
    }
}

/// Size of the stack for ring 0 in bytes.
pub const RING0_STACK_SIZE: u64 = 65536;

/// The task state segment: the stacks that the processor switches to.
#[derive(Debug, Copy, Clone, PartialEq, Eq)]
pub struct TaskStateSegment64 {
    /// The stack pointers for entry into rings 0 to 2.
    pub rsp: [u64; 3],
    /// The interrupt stacks.
    pub ist: [u64; 8],
    pub io_map_base_addr: u16,
    /// Physical address of the segment.
    pub phys_addr: u64,
}

impl TaskStateSegment64 {
    /// The segment at `phys_addr` whose stack for ring 0, and each of whose
    /// interrupt stacks, is the stack of sixteen pages at `stack_addr`:
    /// they start at its top.
    pub fn new(phys_addr: u64, stack_addr: u64) -> (r: Self)
        requires
            stack_addr + RING0_STACK_SIZE <= u64::MAX,
        ensures
            r.phys_addr == phys_addr,
            r.rsp@ == seq![(stack_addr + RING0_STACK_SIZE) as u64, 0u64, 0u64],
            r.ist@ == Seq::new(8, |i: int| (stack_addr + RING0_STACK_SIZE) as u64),
            r.io_map_base_addr == 0,
    {
        let rsp0 = stack_addr + RING0_STACK_SIZE;
        let r = Self { rsp: [rsp0, 0, 0], ist: [rsp0;8], io_map_base_addr: 0, phys_addr };
        assert(r.rsp@ =~= seq![rsp0, 0u64, 0u64]);
        assert(r.ist@ =~= Seq::new(8, |i: int| rsp0));
        r
    }

    /// Physical address of the segment.
    pub fn phys_addr(&self) -> (r: u64)
        ensures
            r == self.phys_addr,
    {
        self.phys_addr
    }
}

} // verus!
