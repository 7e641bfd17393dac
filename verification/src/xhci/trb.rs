use vstd::prelude::*;

verus! {

/// The kinds of transfer request block that the driver names.
#[derive(Debug, Copy, Clone, PartialEq, Eq, Structural)]
pub enum TrbType {
    Normal,
    SetupStage,
    DataStage,
    StatusStage,
    Link,
    EnableSlotCommand,
    AddressDeviceCommand,
    ConfigureEndpointCommand,
    EvaluateContextCommand,
    NoOpCommand,
    TransferEvent,
    CommandCompletionEvent,
    PortStatusChangeEvent,
    HostControllerEvent,
}

impl TrbType {
    /// The number that stands for the kind in the type field of a block.
    pub open spec fn spec_code(self) -> u32 {
        match self {
            TrbType::Normal => 1,
            TrbType::SetupStage => 2,
            TrbType::DataStage => 3,
            TrbType::StatusStage => 4,
            TrbType::Link => 6,
            TrbType::EnableSlotCommand => 9,
            TrbType::AddressDeviceCommand => 11,
            TrbType::ConfigureEndpointCommand => 12,
            TrbType::EvaluateContextCommand => 13,
            TrbType::NoOpCommand => 23,
            TrbType::TransferEvent => 32,
            TrbType::CommandCompletionEvent => 33,
            TrbType::PortStatusChangeEvent => 34,
            TrbType::HostControllerEvent => 37,
        }
    }

    /// The number that stands for the kind in the type field of a block.
    pub fn code(self) -> (r: u32)
        ensures
            r == self.spec_code(),
            r < 64,
    {
        match self {
            TrbType::Normal => 1,
            TrbType::SetupStage => 2,
            TrbType::DataStage => 3,
            TrbType::StatusStage => 4,
            TrbType::Link => 6,
            TrbType::EnableSlotCommand => 9,
            TrbType::AddressDeviceCommand => 11,
            TrbType::ConfigureEndpointCommand => 12,
            TrbType::EvaluateContextCommand => 13,
            TrbType::NoOpCommand => 23,
            TrbType::TransferEvent => 32,
            TrbType::CommandCompletionEvent => 33,
            TrbType::PortStatusChangeEvent => 34,
            TrbType::HostControllerEvent => 37,
        }
    }
}

/// The control bits of a Normal block of a transfer ring: interrupt on
/// completion and on a short packet.
pub const CTRL_BITS_NORMAL: u32 = 0x24;

/// Control bit: the data of the block is the data itself, not its address.
pub const CTRL_BIT_IMMEDIATE_DATA: u32 = 0x40;

/// The control bits of a Status stage block in which the device answers:
/// interrupt on completion, and the direction from the device.
pub const CTRL_BITS_STATUS_IN: u32 = 0x1_0020;

/// Number of bytes of the request in a Setup stage block.
pub const SETUP_PACKET_LEN: u32 = 8;

/// Transfer type of a control transfer without a data stage.
pub const TRT_NO_DATA_STAGE: u32 = 0;

/// Transfer type of a control transfer with a data stage to the device.
pub const TRT_OUT_DATA_STAGE: u32 = 2;

/// Transfer type of a control transfer with a data stage from the device.
pub const TRT_IN_DATA_STAGE: u32 = 3;

/// Bit of a request type: the data stage goes from the device to the host.
pub const REQ_TYPE_DIR_DEVICE_TO_HOST: u8 = 0x80;

/// The transfer type of a control transfer with the given request type and
/// length of its data stage.
pub open spec fn spec_transfer_type(request_type: u8, length: u16) -> u32 {
    if length == 0 {
        TRT_NO_DATA_STAGE
    } else if request_type >= REQ_TYPE_DIR_DEVICE_TO_HOST {
        TRT_IN_DATA_STAGE
    } else {
        TRT_OUT_DATA_STAGE
    }
}

/// Control bit of a Link block: the controller toggles its cycle state
/// when it follows the link.
pub const CTRL_BIT_TOGGLE_CYCLE: u32 = 0x2;

/// The cycle bit of a control word.
pub open spec fn spec_cycle(control: u32) -> bool {
    control & 1 == 1
}

/// The control word with its cycle bit set to `cycle`.
pub open spec fn spec_with_cycle(control: u32, cycle: bool) -> u32 {
    if cycle {
        control | 1
    } else {
        control & 0xffff_fffe
    }
}

/// The type field of a control word: bits 10 to 15.
pub open spec fn spec_type(control: u32) -> u32 {
    (control >> 10) & 0x3f
}

/// The slot field of a control word: bits 24 to 31.
pub open spec fn spec_slot(control: u32) -> u8 {
    (control >> 24) as u8
}

/// The endpoint field of a control word: bits 16 to 20.
pub open spec fn spec_dci(control: u32) -> u32 {
    (control >> 16) & 0x1f
}

/// The control word of a block of type `code` with no other bit set.
pub open spec fn spec_type_word(code: u32) -> u32 {
    code << 10
}

/// Setting the cycle bit sets it, and leaves the type, the slot and the
/// endpoint fields as they were.
pub proof fn lemma_with_cycle(control: u32, cycle: bool)
    ensures
        spec_cycle(spec_with_cycle(control, cycle)) == cycle,
        spec_type(spec_with_cycle(control, cycle)) == spec_type(control),
        spec_slot(spec_with_cycle(control, cycle)) == spec_slot(control),
        spec_dci(spec_with_cycle(control, cycle)) == spec_dci(control),
        spec_cycle(control) == cycle ==> spec_with_cycle(control, cycle) == control,
{
    assert((control | 1) & 1 == 1 && (control & 0xffff_fffe) & 1 == 0 && ((control | 1) >> 10)
        & 0x3f == (control >> 10) & 0x3f && ((control & 0xffff_fffe) >> 10) & 0x3f == (control
        >> 10) & 0x3f && ((control | 1) >> 24) == (control >> 24) && ((control & 0xffff_fffe)
        >> 24) == (control >> 24) && ((control | 1) >> 16) & 0x1f == (control >> 16) & 0x1f && ((
    control & 0xffff_fffe) >> 16) & 0x1f == (control >> 16) & 0x1f && (control & 1 == 1 ==> control
        | 1 == control) && (control & 1 != 1 ==> control & 0xffff_fffe == control))
        by (bit_vector);
}

/// A control word made of a type and flags below bit 10 has that type,
/// and its cycle bit is the lowest flag.
pub proof fn lemma_type_word(code: u32, flags: u32)
    requires
        code < 64,
        flags < 1024,
    ensures
        spec_type(spec_type_word(code) | flags) == code,
        spec_cycle(spec_type_word(code) | flags) == (flags & 1 == 1),
        spec_type(0) == 0,
        !spec_cycle(0),
{
    assert((((code << 10) | flags) >> 10) & 0x3f == code && (((code << 10) | flags) & 1 == 1) == (
    flags & 1 == 1)) by (bit_vector)
        requires
            code < 64,
            flags < 1024,
    ;
    assert((0u32 >> 10) & 0x3f == 0 && 0u32 & 1 != 1) by (bit_vector);
}

/// A transfer request block: the sixteen bytes that software and
/// controller hand each other through a ring.
#[derive(Debug, Copy, Clone, PartialEq, Eq, Structural)]
pub struct GenericTrbEntry {
    pub data: u64,
    pub status: u32,
    pub control: u32,
}

impl GenericTrbEntry {
    /// The block with every bit zero.
    pub fn zero() -> (r: GenericTrbEntry)
        ensures
            r == (GenericTrbEntry { data: 0, status: 0, control: 0 }),
    {
        GenericTrbEntry { data: 0, status: 0, control: 0 }
    }

    /// The Link block that leads back to the start of the ring at
    /// `ring_phys_addr`, with the toggle-cycle flag set and the cycle bit
    /// clear.
    pub open spec fn spec_trb_link(ring_phys_addr: u64) -> GenericTrbEntry {
        GenericTrbEntry {
            data: ring_phys_addr,
            status: 0,
            control: spec_type_word(TrbType::Link.spec_code()) | CTRL_BIT_TOGGLE_CYCLE,
        }
    }

    /// Builds the Link block that leads back to the start of the ring at
    /// `ring_phys_addr`.
    pub fn trb_link(ring_phys_addr: u64) -> (r: GenericTrbEntry)
        ensures
            r == Self::spec_trb_link(ring_phys_addr),
            r.spec_trb_type() == TrbType::Link.spec_code(),
            !r.spec_cycle_state(),
    {
        proof {
            lemma_type_word(6, 2);
            assert(2u32 & 1 != 1) by (bit_vector);
        }
        GenericTrbEntry {
            data: ring_phys_addr,
            status: 0,
            control: (TrbType::Link.code() << 10) | CTRL_BIT_TOGGLE_CYCLE,
        }
    }

    /// The Normal block that asks for `size` bytes into the buffer at
    /// `buf`, with an interrupt on completion and on a short packet.
    pub open spec fn spec_normal(buf: u64, size: u16) -> GenericTrbEntry {
        GenericTrbEntry {
            data: buf,
            status: size as u32,
            control: spec_type_word(TrbType::Normal.spec_code()) | CTRL_BITS_NORMAL,
        }
    }

    /// Builds the Normal block that asks for `size` bytes into the buffer
    /// at `buf`.
    pub fn normal(buf: u64, size: u16) -> (r: GenericTrbEntry)
        ensures
            r == Self::spec_normal(buf, size),
            r.spec_trb_type() == TrbType::Normal.spec_code(),
            !r.spec_cycle_state(),
    {
        proof {
            lemma_type_word(1, 0x24);
            assert(0x24u32 & 1 != 1) by (bit_vector);
        }
        GenericTrbEntry {
            data: buf,
            status: size as u32,
            control: (TrbType::Normal.code() << 10) | CTRL_BITS_NORMAL,
        }
    }

    /// The Setup stage block of a control transfer with the given request:
    /// the eight bytes of the request stand in the block itself, lowest
    /// byte first, and the block says whether a data stage follows and in
    /// which direction.
    pub open spec fn spec_setup_stage(
        request_type: u8,
        request: u8,
        value: u16,
        index: u16,
        length: u16,
    ) -> GenericTrbEntry {
        GenericTrbEntry {
            data: (request_type as int + request as int * 0x100 + value as int * 0x1_0000
                + index as int * 0x1_0000_0000 + length as int * 0x1_0000_0000_0000) as u64,
            status: SETUP_PACKET_LEN,
            control: spec_type_word(TrbType::SetupStage.spec_code()) | CTRL_BIT_IMMEDIATE_DATA | (
            spec_transfer_type(request_type, length) << 16),
        }
    }

    /// Builds the Setup stage block of a control transfer.
    pub fn setup_stage(request_type: u8, request: u8, value: u16, index: u16, length: u16) -> (r:
        GenericTrbEntry)
        ensures
            r == Self::spec_setup_stage(request_type, request, value, index, length),
            r.spec_trb_type() == TrbType::SetupStage.spec_code(),
            !r.spec_cycle_state(),
    {
        let trt: u32 = if length == 0 {
            TRT_NO_DATA_STAGE
        } else if request_type >= REQ_TYPE_DIR_DEVICE_TO_HOST {
            TRT_IN_DATA_STAGE
        } else {
            TRT_OUT_DATA_STAGE
        };
        assert((((2u32 << 10) | 0x40 | (trt << 16)) >> 10) & 0x3f == 2 && ((2u32 << 10) | 0x40 | (
        trt << 16)) & 1 != 1) by (bit_vector)
            requires
                trt < 4,
        ;
        GenericTrbEntry {
            data: (request_type as u64) + (request as u64) * 0x100 + (value as u64) * 0x1_0000 + (
            index as u64) * 0x1_0000_0000 + (length as u64) * 0x1_0000_0000_0000,
            status: SETUP_PACKET_LEN,
            control: (TrbType::SetupStage.code() << 10) | CTRL_BIT_IMMEDIATE_DATA | (trt << 16),
        }
    }

    /// The Status stage block that closes a control transfer without a data
    /// stage from the device: the device answers, and the controller
    /// interrupts when it has.
    pub open spec fn spec_status_stage_in() -> GenericTrbEntry {
        GenericTrbEntry {
            data: 0,
            status: 0,
            control: spec_type_word(TrbType::StatusStage.spec_code()) | CTRL_BITS_STATUS_IN,
        }
    }

    /// Builds the Status stage block in which the device answers.
    pub fn status_stage_in() -> (r: GenericTrbEntry)
        ensures
            r == Self::spec_status_stage_in(),
            r.spec_trb_type() == TrbType::StatusStage.spec_code(),
            !r.spec_cycle_state(),
    {
        assert((((4u32 << 10) | 0x1_0020) >> 10) & 0x3f == 4 && ((4u32 << 10) | 0x1_0020) & 1 != 1)
            by (bit_vector);
        GenericTrbEntry {
            data: 0,
            status: 0,
            control: (TrbType::StatusStage.code() << 10) | CTRL_BITS_STATUS_IN,
        }
    }

    /// The cycle bit.
    pub open spec fn spec_cycle_state(&self) -> bool {
        spec_cycle(self.control)
    }

    /// The number in the type field.
    pub open spec fn spec_trb_type(&self) -> u32 {
        spec_type(self.control)
    }

    /// The number in the slot field.
    pub open spec fn spec_slot_id(&self) -> u8 {
        spec_slot(self.control)
    }

    /// The block with its cycle bit set to `cycle`.
    pub open spec fn with_cycle(self, cycle: bool) -> GenericTrbEntry {
        GenericTrbEntry { control: spec_with_cycle(self.control, cycle), ..self }
    }

    /// The cycle bit.
    pub fn cycle_state(&self) -> (r: bool)
        ensures
            r == self.spec_cycle_state(),
    {
        self.control & 1 == 1
    }

    /// Sets the cycle bit.
    pub fn set_cycle_state(&mut self, cycle: bool)
        ensures
            *final(self) == old(self).with_cycle(cycle),
    {
        if cycle {
            self.control = self.control | 1;
        } else {
            self.control = self.control & 0xffff_fffe;
        }
    }

    /// The parameter of the block: for an event, the address of the block
    /// that the event is about.
    pub fn data(&self) -> (r: u64)
        ensures
            r == self.data,
    {
        self.data
    }

    /// The number in the type field.
    pub fn trb_type(&self) -> (r: u32)
        ensures
            r == self.spec_trb_type(),
    {
        (self.control >> 10) & 0x3f
    }

    /// The device slot that an event is about.
    pub fn slot_id(&self) -> (r: u8)
        ensures
            r == self.spec_slot_id(),
    {
        (self.control >> 24) as u8
    }

    /// The endpoint that a transfer event is about.
    pub fn dci(&self) -> (r: usize)
        ensures
            r == spec_dci(self.control),
    {
        ((self.control >> 16) & 0x1f) as usize
    }

    /// The completion code of an event: the highest byte of its status.
    pub fn completion_code(&self) -> (r: u32)
        ensures
            r == self.status >> 24,
    {
        self.status >> 24
    }
}

} // verus!
