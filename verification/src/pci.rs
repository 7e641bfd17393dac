use vstd::prelude::*;
use vstd::string::StringExecFns;
use std::collections::BTreeMap;
use crate::acpi::Mcfg;
use crate::error::Error;
use crate::text::{append_hex_fixed, hex_fixed};

verus! {

/// The vendor and the device of a PCI function.
#[derive(Copy, Clone, Debug, PartialEq, Eq, Structural)]
pub struct VendorDeviceId {
    pub vendor: u16,
    pub device: u16,
}

impl VendorDeviceId {
    /// The text of the two ids, each as four hexadecimal digits.
    pub open spec fn spec_text(&self) -> Seq<char> {
        "(vendor: 0x"@ + hex_fixed(self.vendor as nat, 4) + ", device: 0x"@ + hex_fixed(
            self.device as nat,
            4,
        ) + ")"@
    }

    /// Writes the two ids out.
    pub fn fmt_common(&self) -> (r: String)
        ensures
            r@ == self.spec_text(),
    {
        let mut m = String::from_str("(vendor: 0x");
        append_hex_fixed(&mut m, self.vendor as u64, 4);
        m.append(", device: 0x");
        append_hex_fixed(&mut m, self.device as u64, 4);
        m.append(")");
        m
    }
}

/// The place of a PCI function: its bus, its device on the bus, and its
/// number in the device.
#[derive(Copy, Clone, Debug, PartialEq, Eq, PartialOrd, Ord, Structural)]
pub struct BusDeviceFunction {
    id: u16,
}

/// Number of buses.
pub const NUM_BUSES: usize = 256;

/// Number of devices on a bus.
pub const NUM_DEVICES: usize = 32;

/// Number of functions of a device.
pub const NUM_FUNCTIONS: usize = 8;

/// Number of places for a function.
pub const NUM_BDF: usize = 65536;

/// The number that stands for function `function` of device `device` on
/// bus `bus`: the bus in its highest eight bits, the function in its
/// lowest three.
pub open spec fn spec_bdf_id(bus: int, device: int, function: int) -> int {
    bus * 256 + device * 8 + function
}

/// Packing a place into sixteen bits is adding its parts, each at its
/// weight.
pub proof fn lemma_pack(bus: u32, device: u32, function: u32)
    requires
        bus < 256,
        device < 32,
        function < 8,
    ensures
        (bus << 8) | (device << 3) | function == bus * 256 + device * 8 + function,
        bus * 256 + device * 8 + function < 65536,
{
    assert((bus << 8) | (device << 3) | function == bus * 256 + device * 8 + function) by (bit_vector)
        requires
            bus < 256,
            device < 32,
            function < 8,
    ;
}

/// Taking a field out of the sixteen bits is dividing by its weight and
/// dropping what lies above it.
pub proof fn lemma_unpack(id: u32)
    requires
        id < 65536,
    ensures
        (id & 0xff00) >> 8 == id / 256,
        (id & 0xf8) >> 3 == (id / 8) % 32,
        id & 0x7 == id % 8,
{
    assert((id & 0xff00) >> 8 == id / 256 && (id & 0xf8) >> 3 == (id / 8) % 32 && id & 0x7 == id
        % 8) by (bit_vector)
        requires
            id < 65536,
    ;
}

impl BusDeviceFunction {
    /// The number that stands for the place.
    pub closed spec fn spec_id(&self) -> u16 {
        self.id
    }

    /// The bus.
    pub open spec fn spec_bus(&self) -> int {
        self.spec_id() as int / 256
    }

    /// The device on the bus.
    pub open spec fn spec_device(&self) -> int {
        (self.spec_id() as int / 8) % 32
    }

    /// The function of the device.
    pub open spec fn spec_function(&self) -> int {
        self.spec_id() as int % 8
    }

    /// The place of function `function` of device `device` on bus `bus`. A
    /// bus past 255, a device past 31 or a function past 7 is rejected.
    pub fn new(bus: usize, device: usize, function: usize) -> (r: Result<Self, Error>)
        ensures
            (bus < NUM_BUSES && device < NUM_DEVICES && function < NUM_FUNCTIONS) <==> r is Ok,
            r matches Ok(bdf) ==> bdf.spec_id() == spec_bdf_id(
                bus as int,
                device as int,
                function as int,
            ) && bdf.spec_bus() == bus && bdf.spec_device() == device && bdf.spec_function()
                == function,
            r matches Err(e) ==> e is PciBusDeviceFunctionOutOfRange,
    {
        if bus >= NUM_BUSES || device >= NUM_DEVICES || function >= NUM_FUNCTIONS {
            Err(Error::PciBusDeviceFunctionOutOfRange)
        } else {
            let b: u32 = bus as u32;
            let d: u32 = device as u32;
            let f: u32 = function as u32;
            proof {
                lemma_pack(b, d, f);
            }
            let id: u32 = (b << 8) | (d << 3) | f;
            Ok(Self { id: id as u16 })
        }
    }

    /// The bus.
    pub fn bus(&self) -> (r: usize)
        ensures
            r == self.spec_bus(),
            r < NUM_BUSES,
    {
        let id: u32 = self.id as u32;
        proof {
            lemma_unpack(id);
        }
        ((id & 0xff00) >> 8) as usize
    }

    /// The device on the bus.
    pub fn device(&self) -> (r: usize)
        ensures
            r == self.spec_device(),
            r < NUM_DEVICES,
    {
        let id: u32 = self.id as u32;
        proof {
            lemma_unpack(id);
        }
        ((id & 0xf8) >> 3) as usize
    }

    /// The function of the device.
    pub fn function(&self) -> (r: usize)
        ensures
            r == self.spec_function(),
            r < NUM_FUNCTIONS,
    {
        let id: u32 = self.id as u32;
        proof {
            lemma_unpack(id);
        }
        (id & 0x7) as usize
    }

    /// A walk over every place, from bus 0, device 0, function 0 on.
    pub fn iter() -> (r: BusDeviceFunctionIterator)
        ensures
            r.next_id == 0,
    {
        BusDeviceFunctionIterator { next_id: 0 }
    }

    /// The text of the place: the bus and the device as two hexadecimal
    /// digits each, the function as one.
    pub open spec fn spec_text(&self) -> Seq<char> {
        "(bus: 0x"@ + hex_fixed(self.spec_bus() as nat, 2) + ", device: 0x"@ + hex_fixed(
            self.spec_device() as nat,
            2,
        ) + ", function: 0x"@ + hex_fixed(self.spec_function() as nat, 1) + ")"@
    }

    /// Writes the place out.
    pub fn fmt_common(&self) -> (r: String)
        ensures
            r@ == self.spec_text(),
    {
        let mut m = String::from_str("(bus: 0x");
        append_hex_fixed(&mut m, self.bus() as u64, 2);
        m.append(", device: 0x");
        append_hex_fixed(&mut m, self.device() as u64, 2);
        m.append(", function: 0x");
        append_hex_fixed(&mut m, self.function() as u64, 1);
        m.append(")");
        m
    }
}

/// The number of a place fixes the place: two places with the same number
/// are the same place.
pub proof fn lemma_bdf_same_id(a: BusDeviceFunction, b: BusDeviceFunction)
    requires
        a.spec_id() == b.spec_id(),
    ensures
        a == b,
{
}

/// Two places are the same exactly where their buses, their devices and
/// their functions are the same.
pub proof fn lemma_bdf_same_triple(a: BusDeviceFunction, b: BusDeviceFunction)
    ensures
        a == b <==> (a.spec_bus() == b.spec_bus() && a.spec_device() == b.spec_device()
            && a.spec_function() == b.spec_function()),
{
    lemma_bdf_onto(a.spec_id() as int);
    lemma_bdf_onto(b.spec_id() as int);
    if a.spec_bus() == b.spec_bus() && a.spec_device() == b.spec_device() && a.spec_function()
        == b.spec_function() {
        lemma_bdf_same_id(a, b);
    }
}

/// A place made of a bus, a device and a function names them again.
pub proof fn lemma_bdf_round_trip(bus: int, device: int, function: int)
    requires
        0 <= bus < 256,
        0 <= device < 32,
        0 <= function < 8,
    ensures
        spec_bdf_id(bus, device, function) / 256 == bus,
        (spec_bdf_id(bus, device, function) / 8) % 32 == device,
        spec_bdf_id(bus, device, function) % 8 == function,
        0 <= spec_bdf_id(bus, device, function) < 65536,
{
}

/// Every sixteen-bit number is the number of the place that its fields
/// name.
pub proof fn lemma_bdf_onto(id: int)
    requires
        0 <= id < 65536,
    ensures
        spec_bdf_id(id / 256, (id / 8) % 32, id % 8) == id,
        0 <= id / 256 < 256,
{
}

/// A walk over every place of a PCI function.
#[derive(Copy, Clone, Debug, PartialEq, Eq, Structural)]
pub struct BusDeviceFunctionIterator {
    pub next_id: usize,
}

impl BusDeviceFunctionIterator {
    /// The next place, or `None` behind the last: the walk yields each of
    /// the 65536 places once, by its number.
    pub fn next(&mut self) -> (r: Option<BusDeviceFunction>)
        ensures
            old(self).next_id < NUM_BDF ==> final(self).next_id == old(self).next_id + 1 && (
            r matches Some(bdf) && bdf.spec_id() == old(self).next_id),
            old(self).next_id >= NUM_BDF ==> r is None && final(self).next_id == old(self).next_id,
    {
        let id = self.next_id;
        if id > 0xffff {
            None
        } else {
            self.next_id = self.next_id + 1;
            Some(BusDeviceFunction { id: id as u16 })
        }
    }

    /// The places that the walk still has to yield.
    pub fn collect(&mut self) -> (r: Vec<BusDeviceFunction>)
        ensures
            final(self).next_id >= NUM_BDF,
            old(self).next_id <= NUM_BDF ==> r@.len() == NUM_BDF - old(self).next_id,
            old(self).next_id > NUM_BDF ==> r@.len() == 0,
            forall|i: int|
                0 <= i < r@.len() ==> (#[trigger] r@[i]).spec_id() == old(self).next_id + i,
    {
        let mut out: Vec<BusDeviceFunction> = Vec::new();
        loop
            invariant
                self.next_id >= old(self).next_id,
                out@.len() == self.next_id - old(self).next_id,
                self.next_id <= NUM_BDF || out@.len() == 0,
                forall|i: int|
                    0 <= i < out@.len() ==> (#[trigger] out@[i]).spec_id() == old(self).next_id
                        + i,
            ensures
                self.next_id >= NUM_BDF,
                old(self).next_id <= NUM_BDF ==> out@.len() == NUM_BDF - old(self).next_id,
                old(self).next_id > NUM_BDF ==> out@.len() == 0,
                forall|i: int|
                    0 <= i < out@.len() ==> (#[trigger] out@[i]).spec_id() == old(self).next_id
                        + i,
            decreases NUM_BDF - self.next_id,
        {
            match self.next() {
                Some(bdf) => {
                    out.push(bdf);
                },
                None => {
                    break ;
                },
            }
        }
        out
    }
}

/// Size of the configuration space of one function.
pub const CONFIG_SPACE_LEN: u64 = 4096;

/// Size of the range that is reported as the configuration space.
pub const ECM_LEN: u64 = 0x1000000;

/// Size of the configuration spaces of all functions together.
pub const ECM_SPAN: u64 = 0x10000000;

/// Number of bytes of a configuration space that are registers.
pub const NUM_REGISTER_BYTES: usize = 256;

/// Where the configuration spaces of the PCI functions are mapped, and
/// which functions have a driver.
pub struct Pci {
    pub ecm_start: u64,
    pub ecm_end: u64,
    /// The driver of each function that has one: the number of the place
    /// of the function leads to the index of its driver.
    pub devices: BTreeMap<u16, usize>,
}

impl Pci {
    /// Whether the range starts where the configuration spaces of all
    /// functions fit below the end of the address space.
    pub open spec fn wf(&self) -> bool {
        self.ecm_end == self.ecm_start + ECM_LEN && self.ecm_start + ECM_SPAN <= u64::MAX
    }

    /// The configuration spaces that the table `mcfg` maps. The table must
    /// have exactly one entry, which maps all of them, and they must end
    /// within the address space.
    pub fn new(mcfg: &Mcfg) -> (r: Pci)
        requires
            mcfg.inv(),
            mcfg.spec_entries().len() == 1,
            mcfg.spec_entries()[0].ecm_base_addr + ECM_SPAN <= u64::MAX,
        ensures
            r.wf(),
            r.ecm_start == mcfg.spec_entries()[0].ecm_base_addr,
            r.devices@ == Map::<u16, usize>::empty(),
    {
        let base = match mcfg.entry(0) {
            Some(e) => e.base_address(),
            None => 0,
        };
        Pci { ecm_start: base, ecm_end: base + ECM_LEN, devices: BTreeMap::new() }
    }

    /// Address of the configuration space of the function at `id`.
    pub fn ecm_base(&self, id: BusDeviceFunction) -> (r: u64)
        requires
            self.wf(),
        ensures
            r == self.ecm_start + id.spec_id() * CONFIG_SPACE_LEN,
            r + CONFIG_SPACE_LEN <= self.ecm_start + ECM_SPAN,
    {
        self.ecm_start + (id.id as u64) * CONFIG_SPACE_LEN
    }

    /// Address of the register at `byte_offset` of the function at `id`.
    /// Registers lie in the first 256 bytes of a configuration space.
    pub fn register_addr(&self, id: BusDeviceFunction, byte_offset: usize) -> (r: u64)
        requires
            self.wf(),
            byte_offset < NUM_REGISTER_BYTES,
        ensures
            r == self.ecm_start + id.spec_id() * CONFIG_SPACE_LEN + byte_offset,
    {
        self.ecm_base(id) + (byte_offset as u64)
    }

    /// Address of the 16-bit register at `byte_offset` of the function at
    /// `id`, which must be a multiple of two.
    pub fn register_addr_u16(&self, id: BusDeviceFunction, byte_offset: usize) -> (r: u64)
        requires
            self.wf(),
            byte_offset < NUM_REGISTER_BYTES,
            byte_offset % 2 == 0,
        ensures
            r == self.ecm_start + id.spec_id() * CONFIG_SPACE_LEN + byte_offset,
    {
        self.register_addr(id, byte_offset)
    }

    /// Address of the 32-bit register at `byte_offset` of the function at
    /// `id`, which must be a multiple of four.
    pub fn register_addr_u32(&self, id: BusDeviceFunction, byte_offset: usize) -> (r: u64)
        requires
            self.wf(),
            byte_offset < NUM_REGISTER_BYTES,
            byte_offset % 4 == 0,
        ensures
            r == self.ecm_start + id.spec_id() * CONFIG_SPACE_LEN + byte_offset,
    {
        self.register_addr(id, byte_offset)
    }

    /// The ids of a function, from what its first two registers read: a
    /// register that reads as all ones belongs to no function.
    pub fn read_vendor_id_and_device_id(&self, vendor: u16, device: u16) -> (r: Option<
        VendorDeviceId,
    >)
        ensures
            (vendor == 0xFFFF || device == 0xFFFF) ==> r is None,
            !(vendor == 0xFFFF || device == 0xFFFF) ==> r == Some(VendorDeviceId { vendor, device }),
    {
        if vendor == 0xFFFF || device == 0xFFFF {
            None
        } else {
            Some(VendorDeviceId { vendor, device })
        }
    }

    /// Looks for a driver for the function at `bdf`, from what its
    /// registers read: its ids, if it has any, and its header type.
    ///
    /// Nothing is done for a place without a function, for a function with
    /// another header type than zero, and for a function that has a driver.
    /// Else every driver that supports the ids is asked to attach, in the
    /// order of `drivers`, and the last that does becomes the driver of the
    /// function: `record_answers` says which that is. Returns the index of
    /// the driver that the function has got, or `None` where it has got
    /// none.
    pub fn probe_device<D: PciDeviceDriver>(
        &mut self,
        drivers: &Vec<D>,
        bdf: BusDeviceFunction,
        vd: Option<VendorDeviceId>,
        header_type: u8,
    ) -> (r: Option<usize>)
        ensures
            final(self).ecm_start == old(self).ecm_start,
            final(self).ecm_end == old(self).ecm_end,
            (vd is None || header_type != 0 || old(self).devices@.contains_key(bdf.spec_id())
                || drivers@.len() == 0) ==> r is None,
            match r {
                Some(k) => k < drivers@.len() && final(self).devices@ == old(self).devices@.insert(
                    bdf.spec_id(),
                    k,
                ),
                None => final(self).devices@ == old(self).devices@,
            },
    {
        broadcast use vstd::laws_cmp::group_laws_cmp;
        broadcast use vstd::std_specs::btree::group_btree_axioms;

        let id: u16 = bdf.id;
        match vd {
            None => None,
            Some(vd) => {
                if header_type != 0 {
                    return None;
                }
                if self.devices.contains_key(&id) {
                    return None;
                }
                let n = drivers.len();
                let mut answers: Vec<bool> = Vec::new();
                let mut k: usize = 0;
                while k < n
                    invariant
                        k <= n,
                        n == drivers@.len(),
                        answers@.len() == k,
                    decreases n - k,
                {
                    let willing = if drivers[k].supports(vd) {
                        match drivers[k].attach(bdf) {
                            Ok(_) => true,
                            Err(_) => false,
                        }
                    } else {
                        false
                    };
                    answers.push(willing);
                    k = k + 1;
                }
                self.record_answers(bdf, &answers)
            },
        }
    }

    /// Takes note of what the drivers answered when they were asked to
    /// attach to the function at `bdf`: `answers` holds, for each driver by
    /// its index, whether it supports the function and has attached. The
    /// last driver that has becomes the driver of the function, and its
    /// index is returned; where none has, nothing changes.
    pub fn record_answers(&mut self, bdf: BusDeviceFunction, answers: &Vec<bool>) -> (r: Option<
        usize,
    >)
        ensures
            final(self).ecm_start == old(self).ecm_start,
            final(self).ecm_end == old(self).ecm_end,
            r == spec_last_willing(answers@),
            r matches Some(k) ==> k < answers@.len() && answers@[k as int],
            match r {
                Some(k) => final(self).devices@ == old(self).devices@.insert(bdf.spec_id(), k),
                None => final(self).devices@ == old(self).devices@,
            },
    {
        let r = find_last_willing(answers);
        match r {
            Some(k) => {
                self.put_driver(bdf, k);
            },
            None => {},
        }
        r
    }

    /// Makes the driver with the index `driver` the driver of the function
    /// at `bdf`.
    pub fn put_driver(&mut self, bdf: BusDeviceFunction, driver: usize)
        ensures
            final(self).ecm_start == old(self).ecm_start,
            final(self).ecm_end == old(self).ecm_end,
            final(self).devices@ == old(self).devices@.insert(bdf.spec_id(), driver),
    {
        broadcast use vstd::laws_cmp::group_laws_cmp;

        self.devices.insert(bdf.id, driver);
    }
}

/// The index of the last of the first `n` of `answers` that is true, if one
/// is.
pub open spec fn last_willing(answers: Seq<bool>, n: int) -> Option<usize>
    decreases n,
{
    if n <= 0 {
        None
    } else if answers[n - 1] {
        Some((n - 1) as usize)
    } else {
        last_willing(answers, n - 1)
    }
}

/// The index of the last of `answers` that is true, if one is.
pub open spec fn spec_last_willing(answers: Seq<bool>) -> Option<usize> {
    last_willing(answers, answers.len() as int)
}

/// Finds the last of `answers` that is true.
pub fn find_last_willing(answers: &Vec<bool>) -> (r: Option<usize>)
    ensures
        r == spec_last_willing(answers@),
        r matches Some(k) ==> k < answers@.len() && answers@[k as int],
        r is None ==> forall|j: int| 0 <= j < answers@.len() ==> !answers@[j],
{
    let n = answers.len();
    let mut last: Option<usize> = None;
    let mut i: usize = 0;
    while i < n
        invariant
            i <= n,
            n == answers@.len(),
            last == last_willing(answers@, i as int),
            last matches Some(k) ==> k < i && answers@[k as int],
            last is None ==> forall|j: int| 0 <= j < i ==> !answers@[j],
        decreases n - i,
    {
        if answers[i] {
            last = Some(i);
        }
        i = i + 1;
    }
    last
}

/// A driver for PCI devices.
pub trait PciDeviceDriver {
    /// Whether the driver drives the device with the ids `vp`.
    fn supports(&self, vp: VendorDeviceId) -> bool;

    /// Attaches the driver to the function at `bdf`.
    fn attach(&self, bdf: BusDeviceFunction) -> Result<Box<dyn PciDeviceDriverInstance>, Error>;

    /// The name of the driver.
    fn name(&self) -> &str;
}

/// A driver attached to a device.
pub trait PciDeviceDriverInstance {
    /// The name of the driver.
    fn name(&self) -> &str;
}

} // verus!
