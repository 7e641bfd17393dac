use vstd::prelude::*;
use vstd::string::StringExecFns;
use crate::error::Error;
use crate::text::{append_decimal, decimal};
use crate::util::{extract_bits, is_pow2, lemma_pow2_double, lemma_pow2_gap, spec_extract_bits};
use crate::xhci::ring::{fails_with, CommandRing, EventRing};

verus! {

/// The speed at which a port runs, by its protocol speed id.
#[derive(PartialEq, Eq, Debug, Copy, Clone, Structural)]
pub enum UsbMode {
    Unknown(u32),
    FullSpeed,
    LowSpeed,
    HighSpeed,
    SuperSpeed,
}

impl UsbMode {
    /// The speed that the protocol speed id `psi` stands for by default.
    pub open spec fn from_psi(psi: u32) -> UsbMode {
        if psi == 1 {
            UsbMode::FullSpeed
        } else if psi == 2 {
            UsbMode::LowSpeed
        } else if psi == 3 {
            UsbMode::HighSpeed
        } else if psi == 4 {
            UsbMode::SuperSpeed
        } else {
            UsbMode::Unknown(psi)
        }
    }

    /// The protocol speed id of the speed.
    pub open spec fn spec_psi(&self) -> u32 {
        match *self {
            UsbMode::FullSpeed => 1,
            UsbMode::LowSpeed => 2,
            UsbMode::HighSpeed => 3,
            UsbMode::SuperSpeed => 4,
            UsbMode::Unknown(psi) => psi,
        }
    }

    /// The protocol speed id of the speed.
    pub fn psi(&self) -> (r: u32)
        ensures
            r == self.spec_psi(),
    {
        match *self {
            UsbMode::FullSpeed => 1,
            UsbMode::LowSpeed => 2,
            UsbMode::HighSpeed => 3,
            UsbMode::SuperSpeed => 4,
            UsbMode::Unknown(psi) => psi,
        }
    }
}

/// The state of the link of a port.
#[derive(Debug, Copy, Clone, PartialEq, Eq, Structural)]
#[non_exhaustive]
pub enum PortLinkState {
    U0,
    U1,
    U2,
    U3,
    Disabled,
    RxDetect,
    Inactive,
    Polling,
    Recovery,
    HotReset,
    ComplianceMode,
    TestMode,
    Resume,
    /// A value to which the controller gives no meaning.
    Reserved(u32),
}

impl PortLinkState {
    /// The state that the value `v` of the link state field stands for.
    pub open spec fn from_bits(v: u32) -> PortLinkState {
        if v == 0 {
            PortLinkState::U0
        } else if v == 1 {
            PortLinkState::U1
        } else if v == 2 {
            PortLinkState::U2
        } else if v == 3 {
            PortLinkState::U3
        } else if v == 4 {
            PortLinkState::Disabled
        } else if v == 5 {
            PortLinkState::RxDetect
        } else if v == 6 {
            PortLinkState::Inactive
        } else if v == 7 {
            PortLinkState::Polling
        } else if v == 8 {
            PortLinkState::Recovery
        } else if v == 9 {
            PortLinkState::HotReset
        } else if v == 10 {
            PortLinkState::ComplianceMode
        } else if v == 11 {
            PortLinkState::TestMode
        } else if v == 15 {
            PortLinkState::Resume
        } else {
            PortLinkState::Reserved(v)
        }
    }
}

/// The status and control register of a port: its address, and the value
/// that was read from it.
#[derive(Debug, Copy, Clone, PartialEq, Eq, Structural)]
pub struct PortScWrapper {
    pub ptr: u64,
    pub value: u32,
}

/// The state of a USB2 root hub port.
#[derive(Debug, Copy, Clone, PartialEq, Eq, Structural)]
pub enum PortState {
    PoweredOff,
    Disconnected,
    Reset,
    Disabled,
    Enabled,
    Other { pp: bool, ccs: bool, ped: bool, pr: bool },
}

/// Where the reset of a port stands.
#[derive(Debug, Copy, Clone, PartialEq, Eq, Structural)]
pub enum PortResetPhase {
    /// Nothing was done yet.
    Start,
    /// Power was asked for; the port has not reported it yet.
    AwaitPower,
    /// Reset was asked for; the port has not finished it yet.
    AwaitReset,
    /// The port is reset.
    Done,
}

/// One step of the reset of a port.
#[derive(Debug, Copy, Clone, PartialEq, Eq, Structural)]
pub struct PortResetStep {
    /// Where the reset stands after the step.
    pub next: PortResetPhase,
    /// The value to write to the register, if the step writes.
    pub write: Option<u32>,
}

/// Register bit: a device is connected.
pub const BIT_CURRENT_CONNECT_STATUS: u32 = 0x1;

/// Register bit: the port is enabled.
pub const BIT_PORT_ENABLED_DISABLED: u32 = 0x2;

/// Register bit: the port is in reset.
pub const BIT_PORT_RESET: u32 = 0x10;

/// Register bit: the port has power.
pub const BIT_PORT_POWER: u32 = 0x200;

/// The message of the error reported for a port number that the
/// controller does not have.
pub open spec fn port_range_message() -> Seq<char> {
    "xHC: Port Number Out of Range"@
}

/// The text before the speed in the error reported for a speed without a
/// packet size.
pub open spec fn unknown_speed_prefix() -> Seq<char> {
    "Unknown Protocol Speeed ID: Unknown("@
}

/// The text behind the speed in that error.
pub open spec fn unknown_speed_suffix() -> Seq<char> {
    ")"@
}

impl PortScWrapper {
    /// Whether a device is connected.
    pub open spec fn spec_ccs(&self) -> bool {
        self.value & BIT_CURRENT_CONNECT_STATUS != 0
    }

    /// Whether the port is enabled.
    pub open spec fn spec_ped(&self) -> bool {
        self.value & BIT_PORT_ENABLED_DISABLED != 0
    }

    /// Whether the port is in reset.
    pub open spec fn spec_pr(&self) -> bool {
        self.value & BIT_PORT_RESET != 0
    }

    /// Whether the port has power.
    pub open spec fn spec_pp(&self) -> bool {
        self.value & BIT_PORT_POWER != 0
    }

    /// The speed of the port.
    pub open spec fn spec_port_speed(&self) -> UsbMode {
        UsbMode::from_psi(spec_extract_bits(self.value, 10, 4))
    }

    /// The state of the port, by its power, connection, enable and reset
    /// bits.
    pub open spec fn spec_state(&self) -> PortState {
        let pp = self.spec_pp();
        let ccs = self.spec_ccs();
        let ped = self.spec_ped();
        let pr = self.spec_pr();
        if !pp && !ccs && !ped && !pr {
            PortState::PoweredOff
        } else if pp && !ccs && !ped && !pr {
            PortState::Disconnected
        } else if pp && ccs && !ped && !pr {
            PortState::Disabled
        } else if pp && ccs && !ped && pr {
            PortState::Reset
        } else if pp && ccs && ped && !pr {
            PortState::Enabled
        } else {
            PortState::Other { pp, ccs, ped, pr }
        }
    }

    /// The value that was read from the register.
    pub fn value(&self) -> (r: u32)
        ensures
            r == self.value,
    {
        self.value
    }

    /// The value to write to the register to set `bits` and keep the
    /// others.
    pub fn set_bits(&self, bits: u32) -> (r: u32)
        ensures
            r == self.value | bits,
    {
        self.value | bits
    }

    /// The next step of the reset of the port, given where the reset
    /// stands and what the register holds now.
    ///
    /// First power is asked for. Once the port reports power, reset is
    /// asked for. Once the port reports that reset is over, the reset is
    /// done.
    pub fn reset(&self, phase: PortResetPhase) -> (r: PortResetStep)
        ensures
            r == (match phase {
                PortResetPhase::Start => PortResetStep {
                    next: PortResetPhase::AwaitPower,
                    write: Some(self.value | BIT_PORT_POWER),
                },
                PortResetPhase::AwaitPower => if self.spec_pp() {
                    PortResetStep {
                        next: PortResetPhase::AwaitReset,
                        write: Some(self.value | BIT_PORT_RESET),
                    }
                } else {
                    PortResetStep { next: PortResetPhase::AwaitPower, write: None }
                },
                PortResetPhase::AwaitReset => if self.spec_pr() {
                    PortResetStep { next: PortResetPhase::AwaitReset, write: None }
                } else {
                    PortResetStep { next: PortResetPhase::Done, write: None }
                },
                PortResetPhase::Done => PortResetStep { next: PortResetPhase::Done, write: None },
            }),
    {
        match phase {
            PortResetPhase::Start => PortResetStep {
                next: PortResetPhase::AwaitPower,
                write: Some(self.set_bits(BIT_PORT_POWER)),
            },
            PortResetPhase::AwaitPower => if self.pp() {
                PortResetStep {
                    next: PortResetPhase::AwaitReset,
                    write: Some(self.set_bits(BIT_PORT_RESET)),
                }
            } else {
                PortResetStep { next: PortResetPhase::AwaitPower, write: None }
            },
            PortResetPhase::AwaitReset => if self.pr() {
                PortResetStep { next: PortResetPhase::AwaitReset, write: None }
            } else {
                PortResetStep { next: PortResetPhase::Done, write: None }
            },
            PortResetPhase::Done => PortResetStep { next: PortResetPhase::Done, write: None },
        }
    }

    /// Whether a device is connected.
    pub fn ccs(&self) -> (r: bool)
        ensures
            r == self.spec_ccs(),
    {
        self.value & BIT_CURRENT_CONNECT_STATUS != 0
    }

    /// Whether the port is enabled.
    pub fn ped(&self) -> (r: bool)
        ensures
            r == self.spec_ped(),
    {
        self.value & BIT_PORT_ENABLED_DISABLED != 0
    }

    /// Whether the port is in reset.
    pub fn pr(&self) -> (r: bool)
        ensures
            r == self.spec_pr(),
    {
        self.value & BIT_PORT_RESET != 0
    }

    /// The state of the link.
    pub fn pls(&self) -> (r: PortLinkState)
        ensures
            r == PortLinkState::from_bits(spec_extract_bits(self.value, 5, 4)),
    {
        let v = extract_bits(self.value, 5, 4);
        if v == 0 {
            PortLinkState::U0
        } else if v == 1 {
            PortLinkState::U1
        } else if v == 2 {
            PortLinkState::U2
        } else if v == 3 {
            PortLinkState::U3
        } else if v == 4 {
            PortLinkState::Disabled
        } else if v == 5 {
            PortLinkState::RxDetect
        } else if v == 6 {
            PortLinkState::Inactive
        } else if v == 7 {
            PortLinkState::Polling
        } else if v == 8 {
            PortLinkState::Recovery
        } else if v == 9 {
            PortLinkState::HotReset
        } else if v == 10 {
            PortLinkState::ComplianceMode
        } else if v == 11 {
            PortLinkState::TestMode
        } else if v == 15 {
            PortLinkState::Resume
        } else {
            PortLinkState::Reserved(v)
        }
    }

    /// Whether the port has power.
    pub fn pp(&self) -> (r: bool)
        ensures
            r == self.spec_pp(),
    {
        self.value & BIT_PORT_POWER != 0
    }

    /// The speed of the port.
    pub fn port_speed(&self) -> (r: UsbMode)
        ensures
            r == self.spec_port_speed(),
    {
        let v = extract_bits(self.value, 10, 4);
        if v == 1 {
            UsbMode::FullSpeed
        } else if v == 2 {
            UsbMode::LowSpeed
        } else if v == 3 {
            UsbMode::HighSpeed
        } else if v == 4 {
            UsbMode::SuperSpeed
        } else {
            UsbMode::Unknown(v)
        }
    }

    /// The largest packet that the control endpoint of a device at the
    /// speed of the port takes. A speed that the driver does not know has
    /// none.
    pub fn max_packet_size(&self) -> (r: Result<u16, Error>)
        ensures
            match self.spec_port_speed() {
                UsbMode::FullSpeed => r == Ok::<u16, Error>(8),
                UsbMode::LowSpeed => r == Ok::<u16, Error>(8),
                UsbMode::HighSpeed => r == Ok::<u16, Error>(64),
                UsbMode::SuperSpeed => r == Ok::<u16, Error>(512),
                UsbMode::Unknown(psi) => r matches Err(Error::FailedString(m)) && m@
                    == unknown_speed_prefix() + decimal(psi as nat) + unknown_speed_suffix(),
            },
    {
        match self.port_speed() {
            UsbMode::FullSpeed => Ok(8),
            UsbMode::LowSpeed => Ok(8),
            UsbMode::HighSpeed => Ok(64),
            UsbMode::SuperSpeed => Ok(512),
            UsbMode::Unknown(psi) => {
                let mut m = String::from_str("Unknown Protocol Speeed ID: Unknown(");
                append_decimal(&mut m, psi as u64);
                m.append(")");
                Err(Error::FailedString(m))
            },
        }
    }

    /// The state of the port.
    pub fn state(&self) -> (r: PortState)
        ensures
            r == self.spec_state(),
    {
        let pp = self.pp();
        let ccs = self.ccs();
        let ped = self.ped();
        let pr = self.pr();
        if !pp && !ccs && !ped && !pr {
            PortState::PoweredOff
        } else if pp && !ccs && !ped && !pr {
            PortState::Disconnected
        } else if pp && ccs && !ped && !pr {
            PortState::Disabled
        } else if pp && ccs && !ped && pr {
            PortState::Reset
        } else if pp && ccs && ped && !pr {
            PortState::Enabled
        } else {
            PortState::Other { pp, ccs, ped, pr }
        }
    }
}

/// A port with its number, as the walk over the ports yields it.
#[derive(Debug, Copy, Clone, PartialEq, Eq, Structural)]
pub struct PortScIteratorItem {
    pub port: usize,
    pub portsc: PortScWrapper,
}

/// A walk over the ports of a controller, from port 1 on.
pub struct PortScIterator<'a> {
    pub list: &'a PortSc,
    pub next_index: usize,
}

/// Offset of the port registers from the operational registers.
pub const PORTSC_OFFSET: u64 = 0x400;

/// Distance between the registers of two neighbouring ports.
pub const PORTSC_STRIDE: u64 = 0x10;

/// Largest number of ports that a controller can have.
pub const MAX_PORTS: usize = 255;

/// The status and control registers of the ports of a controller: where
/// they lie, and what was read from each.
pub struct PortSc {
    /// Address of the register of port 1.
    pub base: u64,
    /// What was read from the register of each port; port `n` is at
    /// `n - 1`.
    pub values: Vec<u32>,
}

impl PortSc {
    /// Whether the registers lie where registers can lie.
    pub open spec fn wf(&self) -> bool {
        &&& self.values@.len() <= MAX_PORTS
        &&& self.base + PORTSC_STRIDE * MAX_PORTS <= u64::MAX
    }

    /// Number of ports.
    pub open spec fn spec_num_ports(&self) -> nat {
        self.values@.len()
    }

    /// The registers of the ports of the controller whose registers start
    /// at `bar_addr` and whose capability registers read `cap_regs`. Every
    /// value is zero until it is stored.
    pub fn new(bar_addr: u64, cap_regs: &CapabilityRegisters) -> (r: PortSc)
        requires
            bar_addr + cap_regs.length + PORTSC_OFFSET + PORTSC_STRIDE * MAX_PORTS <= u64::MAX,
        ensures
            r.wf(),
            r.base == bar_addr + cap_regs.length + PORTSC_OFFSET,
            r.spec_num_ports() == cap_regs.spec_num_of_ports(),
            forall|i: int| 0 <= i < r.values@.len() ==> r.values@[i] == 0,
    {
        let base = bar_addr + (cap_regs.length as u64) + PORTSC_OFFSET;
        let n = cap_regs.num_of_ports();
        let mut values: Vec<u32> = Vec::new();
        let mut i: usize = 0;
        while i < n
            invariant
                i <= n,
                values@.len() == i,
                forall|k: int| 0 <= k < i ==> values@[k] == 0,
            decreases n - i,
        {
            values.push(0);
            i = i + 1;
        }
        PortSc { base, values }
    }

    /// Stores `value` as what was read from the register of `port`; a port
    /// that the controller does not have is rejected.
    pub fn store(&mut self, port: usize, value: u32) -> (r: Result<(), Error>)
        ensures
            final(self).base == old(self).base,
            1 <= port <= old(self).spec_num_ports() ==> r is Ok && final(self).values@ == old(
                self,
            ).values@.update(port - 1, value),
            !(1 <= port <= old(self).spec_num_ports()) ==> fails_with(r, port_range_message())
                && final(self).values@ == old(self).values@,
    {
        if 1 <= port && port <= self.values.len() {
            self.values.set(port - 1, value);
            Ok(())
        } else {
            Err(Error::Failed("xHC: Port Number Out of Range"))
        }
    }

    /// The register of `port`, where ports are counted from 1; a port that
    /// the controller does not have is rejected.
    pub fn get(&self, port: usize) -> (r: Result<PortScWrapper, Error>)
        requires
            self.wf(),
        ensures
            1 <= port <= self.spec_num_ports() ==> r == Ok::<PortScWrapper, Error>(
                PortScWrapper {
                    ptr: (self.base + PORTSC_STRIDE * (port - 1)) as u64,
                    value: self.values@[port - 1],
                },
            ),
            !(1 <= port <= self.spec_num_ports()) ==> fails_with(r, port_range_message()),
    {
        if 1 <= port && port <= self.values.len() {
            Ok(
                PortScWrapper {
                    ptr: self.base + PORTSC_STRIDE * ((port - 1) as u64),
                    value: self.values[port - 1],
                },
            )
        } else {
            Err(Error::Failed("xHC: Port Number Out of Range"))
        }
    }

    /// A walk over the ports, from port 1 on.
    pub fn iter(&self) -> (r: PortScIterator<'_>)
        ensures
            r.list == self,
            r.next_index == 0,
    {
        PortScIterator { list: self, next_index: 0 }
    }
}

impl<'a> PortScIterator<'a> {
    /// The next port of the walk, or `None` behind the last.
    pub fn next(&mut self) -> (r: Option<PortScIteratorItem>)
        requires
            old(self).list.wf(),
        ensures
            final(self).list == old(self).list,
            old(self).next_index < old(self).list.spec_num_ports() ==> r == Some(
                PortScIteratorItem {
                    port: (old(self).next_index + 1) as usize,
                    portsc: PortScWrapper {
                        ptr: (old(self).list.base + PORTSC_STRIDE * old(self).next_index) as u64,
                        value: old(self).list.values@[old(self).next_index as int],
                    },
                },
            ) && final(self).next_index == old(self).next_index + 1,
            old(self).next_index >= old(self).list.spec_num_ports() ==> r is None && final(self).next_index == old(self).next_index,
    {
        if self.next_index >= self.list.values.len() {
            return None;
        }
        let port = self.next_index + 1;
        match self.list.get(port) {
            Ok(portsc) => {
                self.next_index = self.next_index + 1;
                Some(PortScIteratorItem { port, portsc })
            },
            Err(_) => None,
        }
    }
}

/// The capability registers of a controller, as read.
#[derive(Debug, Copy, Clone, PartialEq, Eq, Structural)]
pub struct CapabilityRegisters {
    pub length: u8,
    pub reserved: u8,
    pub version: u16,
    pub hcsparams1: u32,
    pub hcsparams2: u32,
    pub hcsparams3: u32,
    pub hccparams1: u32,
    pub dboff: u32,
    pub rtsoff: u32,
    pub hccparams2: u32,
}

/// The message of the error reported for a controller without 64-bit
/// addressing.
pub open spec fn no_ac64_message() -> Seq<char> {
    "HCCPARAMS1.AC64 was 0 (No 64-bit addressing capability)"@
}

/// The message of the error reported for a controller with contexts of 64
/// bytes.
pub open spec fn csz_message() -> Seq<char> {
    "HCCPARAMS1.CSZ was 1 (Context size is 64, not 32)"@
}

impl CapabilityRegisters {
    /// Number of ports.
    pub open spec fn spec_num_of_ports(&self) -> nat {
        spec_extract_bits(self.hcsparams1, 24, 8) as nat
    }

    /// Length of the capability registers: the operational registers
    /// follow them.
    pub fn length(&self) -> (r: usize)
        ensures
            r == self.length,
    {
        self.length as usize
    }

    /// Offset of the runtime registers.
    pub fn rtsoff(&self) -> (r: usize)
        ensures
            r == self.rtsoff,
    {
        self.rtsoff as usize
    }

    /// Offset of the doorbell registers.
    pub fn dboff(&self) -> (r: usize)
        ensures
            r == self.dboff,
    {
        self.dboff as usize
    }

    /// Number of device slots.
    pub fn num_of_device_slots(&self) -> (r: usize)
        ensures
            r == spec_extract_bits(self.hcsparams1, 0, 8),
            r < 256,
    {
        proof {
            lemma_small_fields();
        }
        extract_bits(self.hcsparams1, 0, 8) as usize
    }

    /// Number of interrupters.
    pub fn num_of_interrupters(&self) -> (r: usize)
        ensures
            r == spec_extract_bits(self.hcsparams1, 8, 11),
            r < 2048,
    {
        proof {
            lemma_small_fields();
        }
        extract_bits(self.hcsparams1, 8, 11) as usize
    }

    /// Number of ports.
    pub fn num_of_ports(&self) -> (r: usize)
        ensures
            r == self.spec_num_of_ports(),
            r <= MAX_PORTS,
    {
        proof {
            lemma_small_fields();
        }
        extract_bits(self.hcsparams1, 24, 8) as usize
    }

    /// Number of scratchpad buffers: a number of ten bits whose high half
    /// and low half lie apart in the register.
    pub fn num_scratch_pad_bufs(&self) -> (r: usize)
        ensures
            r == (spec_extract_bits(self.hcsparams2, 21, 5) << 5) | spec_extract_bits(
                self.hcsparams2,
                27,
                5,
            ),
    {
        ((extract_bits(self.hcsparams2, 21, 5) << 5) | extract_bits(self.hcsparams2, 27, 5)) as usize
    }

    /// Whether the controller has 64-bit addressing.
    pub open spec fn spec_ac64(&self) -> bool {
        self.hccparams1 & 1 != 0
    }

    /// Whether the controller uses contexts of 64 bytes.
    pub open spec fn spec_csz(&self) -> bool {
        self.hccparams1 & 4 != 0
    }

    /// Checks that the controller has what the driver needs: 64-bit
    /// addressing, and contexts of 32 bytes.
    pub fn assert_capabilities(&self) -> (r: Result<(), Error>)
        ensures
            !self.spec_ac64() ==> fails_with(r, no_ac64_message()),
            self.spec_ac64() && self.spec_csz() ==> fails_with(r, csz_message()),
            self.spec_ac64() && !self.spec_csz() ==> r is Ok,
    {
        if self.hccparams1 & 1 == 0 {
            return Err(Error::Failed("HCCPARAMS1.AC64 was 0 (No 64-bit addressing capability)"));
        }
        if self.hccparams1 & 4 != 0 {
            return Err(Error::Failed("HCCPARAMS1.CSZ was 1 (Context size is 64, not 32)"));
        }
        Ok(())
    }
}

/// The widths of the fields of the structural parameters.
pub proof fn lemma_small_fields()
    ensures
        crate::util::pow2_u32(8) == 256,
        crate::util::pow2_u32(11) == 2048,
{
    assert(1u32 << 8 == 256 && 1u32 << 11 == 2048) by (bit_vector);
}

/// Where stopping and resetting the controller stands.
#[derive(Debug, Copy, Clone, PartialEq, Eq, Structural)]
pub enum XhcResetPhase {
    /// Nothing was done yet.
    Start,
    /// The controller was told to stop and has not halted yet.
    AwaitHalt,
    /// The controller was told to reset and has not finished yet.
    AwaitReset,
    /// The controller is reset.
    Done,
}

/// Where starting the controller stands.
#[derive(Debug, Copy, Clone, PartialEq, Eq, Structural)]
pub enum XhcStartPhase {
    /// Nothing was done yet.
    Start,
    /// The controller was told to run and is still halted.
    AwaitRun,
    /// The controller runs.
    Done,
}

/// The operational registers of a controller, as read.
#[derive(Debug, Copy, Clone, PartialEq, Eq, Structural)]
pub struct OperationalRegisters {
    pub command: u32,
    pub status: u32,
    pub page_size: u32,
    pub notification_ctrl: u32,
    pub cmd_ring_ctrl: u64,
    pub device_ctx_base_addr_array_ptr: u64,
    pub config: u64,
}

/// Command bit: run.
pub const CMD_RUN_STOP: u32 = 0x1;

/// Command bit: reset.
pub const CMD_HC_RESET: u32 = 0x2;

/// Status bit: halted.
pub const STATUS_HC_HALTED: u32 = 0x1;

/// The message of the error reported for a page size register that does
/// not name one size.
pub open spec fn page_size_message() -> Seq<char> {
    "PAGE_SIZE has multiple bits set"@
}

impl OperationalRegisters {
    /// The page size field of the register: its lowest sixteen bits, of
    /// which bit `n` stands for pages of two to the power `n + 12` bytes.
    pub open spec fn spec_page_size_bits(&self) -> u32 {
        self.page_size & 0xFFFF
    }

    /// The page size of the controller in bytes; a register that does not
    /// name exactly one size is rejected.
    pub fn page_size(&self) -> (r: Result<usize, Error>)
        ensures
            is_pow2(self.spec_page_size_bits() as int) ==> r == Ok::<usize, Error>(
                (self.spec_page_size_bits() * 4096) as usize,
            ),
            !is_pow2(self.spec_page_size_bits() as int) ==> fails_with(r, page_size_message()),
    {
        let raw: u32 = self.page_size;
        let bits: u32 = raw & 0xFFFF;
        assert(raw & 0xFFFF < 65536) by (bit_vector);
        proof {
            crate::util::lemma_pow2_65536();
        }
        let mut p: u32 = 1;
        while p < 65536
            invariant
                bits == self.spec_page_size_bits(),
                bits < 65536,
                is_pow2(p as int),
                p <= 65536,
                is_pow2(65536),
                forall|q: int| is_pow2(q) && q < p ==> q != bits,
            decreases 65536 - p,
        {
            if bits == p {
                return Ok((p as usize) * 4096);
            }
            proof {
                lemma_pow2_double(p as int);
                lemma_pow2_gap(p as int, 65536);
                assert forall|q: int| is_pow2(q) && q < 2 * p implies q != bits by {
                    if q > p {
                        lemma_pow2_gap(p as int, q);
                    }
                }
            }
            p = p * 2;
        }
        Err(Error::Failed("PAGE_SIZE has multiple bits set"))
    }

    /// Sets the number of device slots that the controller uses: the
    /// lowest byte of the configuration register gives way to `num`.
    pub fn set_num_device_slots(&mut self, num: usize) -> (r: Result<(), Error>)
        ensures
            r is Ok,
            *final(self) == (OperationalRegisters {
                config: (old(self).config & !0xFFu64) | (num as u64),
                ..*old(self)
            }),
    {
        self.config = (self.config & !0xFFu64) | (num as u64);
        Ok(())
    }

    /// Sets the address of the device context base address array.
    pub fn set_dcbaa_ptr(&mut self, dcbaa: u64) -> (r: Result<(), Error>)
        ensures
            r is Ok,
            *final(self) == (OperationalRegisters {
                device_ctx_base_addr_array_ptr: dcbaa,
                ..*old(self)
            }),
    {
        self.device_ctx_base_addr_array_ptr = dcbaa;
        Ok(())
    }

    /// Points the controller at the command ring `ring`, with the
    /// controller's cycle state set.
    pub fn set_cmd_ring_ctrl(&mut self, ring: &CommandRing)
        ensures
            *final(self) == (OperationalRegisters {
                cmd_ring_ctrl: ring@.ring.phys_addr | 1,
                ..*old(self)
            }),
    {
        self.cmd_ring_ctrl = ring.ring_phys_addr() | 1;
    }

    /// The next step of stopping and resetting the controller, given where
    /// that stands and what the registers hold now. Where the step writes,
    /// the command is changed in `self` and is to be written to the
    /// register.
    ///
    /// First the controller is told to stop. Once it has halted, it is told
    /// to reset. Once it has cleared the reset bit, it is reset.
    pub fn reset_xhc(&mut self, phase: XhcResetPhase) -> (r: XhcResetPhase)
        ensures
            final(self).status == old(self).status,
            match phase {
                XhcResetPhase::Start => r == XhcResetPhase::AwaitHalt && *final(self) == (
                OperationalRegisters { command: old(self).command & !CMD_RUN_STOP, ..*old(self) }),
                XhcResetPhase::AwaitHalt => if old(self).status & STATUS_HC_HALTED == 0 {
                    r == XhcResetPhase::AwaitHalt && *final(self) == *old(self)
                } else {
                    r == XhcResetPhase::AwaitReset && *final(self) == (OperationalRegisters {
                        command: old(self).command | CMD_HC_RESET,
                        ..*old(self)
                    })
                },
                XhcResetPhase::AwaitReset => *final(self) == *old(self) && r == (if old(
                    self,
                ).command & CMD_HC_RESET != 0 {
                    XhcResetPhase::AwaitReset
                } else {
                    XhcResetPhase::Done
                }),
                XhcResetPhase::Done => r == XhcResetPhase::Done && *final(self) == *old(self),
            },
    {
        match phase {
            XhcResetPhase::Start => {
                self.command = self.command & !CMD_RUN_STOP;
                XhcResetPhase::AwaitHalt
            },
            XhcResetPhase::AwaitHalt => {
                if self.status & STATUS_HC_HALTED == 0 {
                    XhcResetPhase::AwaitHalt
                } else {
                    self.command = self.command | CMD_HC_RESET;
                    XhcResetPhase::AwaitReset
                }
            },
            XhcResetPhase::AwaitReset => {
                if self.command & CMD_HC_RESET != 0 {
                    XhcResetPhase::AwaitReset
                } else {
                    XhcResetPhase::Done
                }
            },
            XhcResetPhase::Done => XhcResetPhase::Done,
        }
    }

    /// The next step of starting the controller, given where that stands
    /// and what the registers hold now. Where the step writes, the command
    /// is changed in `self` and is to be written to the register.
    ///
    /// First the controller is told to run. Once it is no longer halted, it
    /// runs.
    pub fn start_xhc(&mut self, phase: XhcStartPhase) -> (r: XhcStartPhase)
        ensures
            match phase {
                XhcStartPhase::Start => r == XhcStartPhase::AwaitRun && *final(self) == (
                OperationalRegisters { command: old(self).command | CMD_RUN_STOP, ..*old(self) }),
                XhcStartPhase::AwaitRun => *final(self) == *old(self) && r == (if old(self).status
                    & STATUS_HC_HALTED != 0 {
                    XhcStartPhase::AwaitRun
                } else {
                    XhcStartPhase::Done
                }),
                XhcStartPhase::Done => r == XhcStartPhase::Done && *final(self) == *old(self),
            },
    {
        match phase {
            XhcStartPhase::Start => {
                self.command = self.command | CMD_RUN_STOP;
                XhcStartPhase::AwaitRun
            },
            XhcStartPhase::AwaitRun => {
                if self.status & STATUS_HC_HALTED != 0 {
                    XhcStartPhase::AwaitRun
                } else {
                    XhcStartPhase::Done
                }
            },
            XhcStartPhase::Done => XhcStartPhase::Done,
        }
    }
}

/// The registers of one interrupter.
#[derive(Debug, Copy, Clone, PartialEq, Eq, Structural)]
pub struct InterrupterRegisterSet {
    pub management: u32,
    pub moderation: u32,
    pub erst_size: u32,
    pub rsvdp: u32,
    pub erst_base: u64,
    pub erdp: u64,
}

/// Largest number of interrupters that a controller can have.
pub const MAX_INTERRUPTERS: usize = 1024;

/// Offset of the registers of the first interrupter from the runtime
/// registers.
pub const IRS_OFFSET: u64 = 0x20;

/// Size of the registers of one interrupter.
pub const IRS_SIZE: u64 = 0x20;

/// Offset of the dequeue pointer register among the registers of an
/// interrupter.
pub const IRS_ERDP_OFFSET: u64 = 0x18;

/// The runtime registers of a controller: where they lie, and the
/// registers of its interrupters.
pub struct RuntimeRegisters {
    /// Address of the runtime registers.
    pub base: u64,
    pub irs: Vec<InterrupterRegisterSet>,
}

/// The message of the error reported for an interrupter that the
/// controller does not have.
pub open spec fn index_range_message() -> Seq<char> {
    "Index out of range"@
}

impl RuntimeRegisters {
    /// Whether the registers lie where registers can lie.
    pub open spec fn wf(&self) -> bool {
        &&& self.irs@.len() <= MAX_INTERRUPTERS
        &&& self.base + IRS_OFFSET + IRS_SIZE * MAX_INTERRUPTERS <= u64::MAX
    }

    /// The address of the dequeue pointer register of interrupter `index`.
    pub open spec fn spec_erdp_addr(&self, index: int) -> int {
        self.base + IRS_OFFSET + IRS_SIZE * index + IRS_ERDP_OFFSET
    }

    /// Sets interrupter `index` up for the event ring `ring`: its segment
    /// table has one entry, its dequeue pointer is at the start of the
    /// ring, and it is not enabled. The ring takes note of the address of
    /// the dequeue pointer register. An interrupter that the controller
    /// does not have is rejected.
    pub fn init_irs(&mut self, index: usize, ring: &mut EventRing) -> (r: Result<(), Error>)
        requires
            old(self).wf(),
        ensures
            final(self).wf(),
            final(self).base == old(self).base,
            index >= old(self).irs@.len() ==> fails_with(r, index_range_message()) && final(self).irs@ == old(self).irs@ && *final(ring) == *old(ring),
            index < old(self).irs@.len() ==> {
                &&& r is Ok
                &&& final(self).irs@ == old(self).irs@.update(
                    index as int,
                    InterrupterRegisterSet {
                        management: 0,
                        erst_size: 1,
                        erst_base: old(ring).erst_phys_addr,
                        erdp: old(ring).ring@.phys_addr,
                        ..old(self).irs@[index as int]
                    },
                )
                &&& *final(ring) == (EventRing {
                    erdp: Some(old(self).spec_erdp_addr(index as int) as u64),
                    ..*old(ring)
                })
            },
    {
        if index >= self.irs.len() {
            return Err(Error::Failed("Index out of range"));
        }
        let mut irs = self.irs[index];
        irs.erst_size = 1;
        irs.erdp = ring.ring_phys_addr();
        irs.erst_base = ring.erst_phys_addr();
        irs.management = 0;
        self.irs.set(index, irs);
        ring.set_erdp(self.base + IRS_OFFSET + IRS_SIZE * (index as u64) + IRS_ERDP_OFFSET);
        Ok(())
    }
}

} // verus!
