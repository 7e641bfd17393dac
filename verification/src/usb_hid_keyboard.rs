use vstd::prelude::*;
use vstd::string::StringExecFns;
use crate::error::Error;
use crate::text::{append_decimal, decimal};
use crate::usb::{ConfigDescriptor, EndpointDescriptor, InterfaceDescriptor, UsbDescriptor};
use crate::xhci::registers::PortScWrapper;
use crate::xhci::trb::GenericTrbEntry;

verus! {

/// Whether the interface is a HID boot keyboard: class 3, subclass 1,
/// protocol 1.
pub open spec fn is_boot_keyboard(e: InterfaceDescriptor) -> bool {
    e.interface_class == 3 && e.interface_subclass == 1 && e.interface_protocol == 1
}

/// Whether the descriptor at `j` is a boot keyboard interface.
pub open spec fn is_boot_at(descriptors: Seq<UsbDescriptor>, j: int) -> bool {
    descriptors[j] matches UsbDescriptor::Interface(e) && is_boot_keyboard(e)
}

/// The configuration that the descriptor `d` holds.
pub open spec fn config_of(d: UsbDescriptor) -> ConfigDescriptor {
    match d {
        UsbDescriptor::Config(e) => e,
        _ => arbitrary(),
    }
}

/// The interface that the descriptor `d` holds.
pub open spec fn interface_of(d: UsbDescriptor) -> InterfaceDescriptor {
    match d {
        UsbDescriptor::Interface(e) => e,
        _ => arbitrary(),
    }
}

/// The first index from `from` on at which a configuration stands, or the
/// number of descriptors where none follows: a configuration reaches from
/// its descriptor up to there.
pub open spec fn next_config(descriptors: Seq<UsbDescriptor>, from: int) -> int
    decreases descriptors.len() - from,
{
    if from >= descriptors.len() {
        descriptors.len() as int
    } else if descriptors[from] is Config {
        from
    } else {
        next_config(descriptors, from + 1)
    }
}

/// The index of the last boot keyboard interface among the descriptors from
/// `from` up to `to`, if there is one.
pub open spec fn last_boot(descriptors: Seq<UsbDescriptor>, from: int, to: int) -> Option<int>
    decreases to - from,
{
    if to <= from {
        None
    } else if is_boot_at(descriptors, to - 1) {
        Some(to - 1)
    } else {
        last_boot(descriptors, from, to - 1)
    }
}

/// The endpoints among the descriptors from `from` up to `to`, in their
/// order.
pub open spec fn endpoints_in(descriptors: Seq<UsbDescriptor>, from: int, to: int) -> Seq<
    EndpointDescriptor,
>
    decreases to - from,
{
    if to <= from {
        Seq::empty()
    } else {
        match descriptors[to - 1] {
            UsbDescriptor::Endpoint(e) => endpoints_in(descriptors, from, to - 1).push(e),
            _ => endpoints_in(descriptors, from, to - 1),
        }
    }
}

/// Whether the descriptor at `k` is a configuration under which the device
/// is a boot keyboard: a boot keyboard interface follows it before the next
/// configuration.
pub open spec fn is_boot_config(descriptors: Seq<UsbDescriptor>, k: int) -> bool {
    &&& 0 <= k < descriptors.len()
    &&& descriptors[k] is Config
    &&& last_boot(descriptors, k + 1, next_config(descriptors, k + 1)) is Some
}

/// The index of the last of the first `n` descriptors that is a
/// configuration under which the device is a boot keyboard, if there is
/// one.
pub open spec fn last_boot_config(descriptors: Seq<UsbDescriptor>, n: int) -> Option<int>
    decreases n,
{
    if n <= 0 {
        None
    } else if is_boot_config(descriptors, n - 1) {
        Some(n - 1)
    } else {
        last_boot_config(descriptors, n - 1)
    }
}

/// What is picked of the descriptors of a boot keyboard.
pub struct Picked {
    pub config: ConfigDescriptor,
    pub interface: InterfaceDescriptor,
    pub endpoints: Seq<EndpointDescriptor>,
}

/// What is picked of `descriptors`: the last configuration under which the
/// device is a boot keyboard, the last boot keyboard interface of that
/// configuration, and the endpoints of that configuration in their order.
/// Nothing is picked where no configuration has a boot keyboard interface.
pub open spec fn spec_pick(descriptors: Seq<UsbDescriptor>) -> Option<Picked> {
    match last_boot_config(descriptors, descriptors.len() as int) {
        Some(k) => {
            let end = next_config(descriptors, k + 1);
            Some(
                Picked {
                    config: config_of(descriptors[k]),
                    interface: interface_of(descriptors[last_boot(descriptors, k + 1, end)->0]),
                    endpoints: endpoints_in(descriptors, k + 1, end),
                },
            )
        },
        None => None,
    }
}

/// The message of the error reported for a device without a configuration.
pub open spec fn no_config_message() -> Seq<char> {
    "No USB KBD Boot config found"@
}

/// The message of the error reported for a device without a boot keyboard
/// interface.
pub open spec fn no_interface_message() -> Seq<char> {
    "No USB KBD Boot interface found"@
}

/// The message of the error with which a device is rejected of whose
/// descriptors nothing is picked: it has no configuration at all, or none
/// of its configurations has a boot keyboard interface.
pub open spec fn pick_error(descriptors: Seq<UsbDescriptor>) -> Seq<char> {
    if next_config(descriptors, 0) >= descriptors.len() {
        no_config_message()
    } else {
        no_interface_message()
    }
}

/// Picks the configuration under which a device is a boot keyboard: the
/// last configuration that has a boot keyboard interface, with the last
/// such interface in it and with its endpoints. A configuration reaches
/// from its descriptor up to the next configuration. A device without such
/// a configuration is rejected.
pub fn pick_config(descriptors: &Vec<UsbDescriptor>) -> (r: Result<
    (ConfigDescriptor, InterfaceDescriptor, Vec<EndpointDescriptor>),
    Error,
>)
    ensures
        match spec_pick(descriptors@) {
            Some(p) => r matches Ok((c, i, eps)) && c == p.config && i == p.interface && eps@
                == p.endpoints,
            None => r matches Err(Error::Failed(m)) && m@ == pick_error(descriptors@),
        },
{
    let n = descriptors.len();
    let mut end: usize = n;
    let mut k: usize = n;
    while k > 0
        invariant
            k <= end <= n,
            n == descriptors@.len(),
            end == next_config(descriptors@, k as int),
            last_boot_config(descriptors@, n as int) == last_boot_config(descriptors@, k as int),
        decreases k,
    {
        k = k - 1;
        match descriptors[k] {
            UsbDescriptor::Config(c) => {
                let (interface, eps) = scan_config(descriptors, k + 1, end);
                match interface {
                    Some(i) => {
                        return Ok((c, i, eps));
                    },
                    None => {},
                }
                end = k;
            },
            _ => {},
        }
    }
    if end < n {
        Err(Error::Failed("No USB KBD Boot interface found"))
    } else {
        Err(Error::Failed("No USB KBD Boot config found"))
    }
}

/// Reads the descriptors of one configuration, from `from` up to `to`:
/// returns its last boot keyboard interface, if it has one, and its
/// endpoints in their order.
pub fn scan_config(descriptors: &Vec<UsbDescriptor>, from: usize, to: usize) -> (r: (
    Option<InterfaceDescriptor>,
    Vec<EndpointDescriptor>,
))
    requires
        from <= to <= descriptors@.len(),
    ensures
        r.1@ == endpoints_in(descriptors@, from as int, to as int),
        match last_boot(descriptors@, from as int, to as int) {
            Some(j) => r.0 == Some(interface_of(descriptors@[j])),
            None => r.0 is None,
        },
{
    let mut interface: Option<InterfaceDescriptor> = None;
    let mut eps: Vec<EndpointDescriptor> = Vec::new();
    let mut j: usize = from;
    while j < to
        invariant
            from <= j <= to <= descriptors@.len(),
            eps@ == endpoints_in(descriptors@, from as int, j as int),
            match last_boot(descriptors@, from as int, j as int) {
                Some(x) => interface == Some(interface_of(descriptors@[x])),
                None => interface is None,
            },
        decreases to - j,
    {
        match descriptors[j] {
            UsbDescriptor::Interface(e) => {
                let (class, subclass, protocol) = e.triple();
                if class == 3 && subclass == 1 && protocol == 1 {
                    interface = Some(e);
                }
            },
            UsbDescriptor::Endpoint(e) => {
                eps.push(e);
            },
            _ => {},
        }
        j = j + 1;
    }
    (interface, eps)
}

/// The protocols of a HID device.
#[derive(Debug, Copy, Clone, PartialEq, Eq, Structural)]
pub enum UsbHidProtocol {
    BootProtocol,
}

/// One step of setting a boot keyboard up.
#[derive(Debug, Copy, Clone, PartialEq, Eq, Structural)]
pub enum KeyboardInitStep {
    /// Select the configuration with this value.
    SetConfig(u8),
    /// Select the interface.
    SetInterface(InterfaceDescriptor),
    /// Select the protocol of the interface.
    SetProtocol(InterfaceDescriptor, UsbHidProtocol),
    /// Hand the blocks of the transfer ring of the endpoint with this index
    /// to the controller.
    FillRing(usize),
    /// Ring the doorbell for the endpoint.
    NotifyEndpoint(EndpointDescriptor),
}

/// A request to a device on its control endpoint.
#[derive(Debug, Copy, Clone, PartialEq, Eq, Structural)]
pub struct ControlRequest {
    pub request_type: u8,
    pub request: u8,
    pub value: u16,
    pub index: u16,
    pub length: u16,
}

/// Request: select a configuration.
pub const REQ_SET_CONFIGURATION: u8 = 9;

/// Request: select the alternate setting of an interface.
pub const REQ_SET_INTERFACE: u8 = 11;

/// Request of the HID class: select the protocol of an interface.
pub const REQ_SET_PROTOCOL: u8 = 0x0b;

/// Request type: a standard request to the device.
pub const REQ_TYPE_TO_DEVICE: u8 = 0x00;

/// Request type: a standard request to an interface.
pub const REQ_TYPE_TO_INTERFACE: u8 = 0x01;

/// Request type: a request of the class to an interface.
pub const REQ_TYPE_CLASS_TO_INTERFACE: u8 = 0x21;

/// The number that stands for the boot protocol in a request.
pub const HID_BOOT_PROTOCOL: u16 = 0;

impl KeyboardInitStep {
    /// The request that the step sends to the device, where it sends one:
    /// the configuration is selected by its value, the interface by its
    /// number and alternate setting, and the boot protocol for the
    /// interface by its number. None of them has a data stage.
    pub open spec fn spec_control_request(self) -> Option<ControlRequest> {
        match self {
            KeyboardInitStep::SetConfig(value) => Some(
                ControlRequest {
                    request_type: REQ_TYPE_TO_DEVICE,
                    request: REQ_SET_CONFIGURATION,
                    value: value as u16,
                    index: 0,
                    length: 0,
                },
            ),
            KeyboardInitStep::SetInterface(i) => Some(
                ControlRequest {
                    request_type: REQ_TYPE_TO_INTERFACE,
                    request: REQ_SET_INTERFACE,
                    value: i.alt_setting as u16,
                    index: i.interface_number as u16,
                    length: 0,
                },
            ),
            KeyboardInitStep::SetProtocol(i, UsbHidProtocol::BootProtocol) => Some(
                ControlRequest {
                    request_type: REQ_TYPE_CLASS_TO_INTERFACE,
                    request: REQ_SET_PROTOCOL,
                    value: HID_BOOT_PROTOCOL,
                    index: i.interface_number as u16,
                    length: 0,
                },
            ),
            KeyboardInitStep::FillRing(_) => None,
            KeyboardInitStep::NotifyEndpoint(_) => None,
        }
    }

    /// The request that the step sends to the device, where it sends one.
    pub fn control_request(&self) -> (r: Option<ControlRequest>)
        ensures
            r == self.spec_control_request(),
    {
        match *self {
            KeyboardInitStep::SetConfig(value) => Some(
                ControlRequest {
                    request_type: REQ_TYPE_TO_DEVICE,
                    request: REQ_SET_CONFIGURATION,
                    value: value as u16,
                    index: 0,
                    length: 0,
                },
            ),
            KeyboardInitStep::SetInterface(i) => Some(
                ControlRequest {
                    request_type: REQ_TYPE_TO_INTERFACE,
                    request: REQ_SET_INTERFACE,
                    value: i.alt_setting as u16,
                    index: i.interface_number as u16,
                    length: 0,
                },
            ),
            KeyboardInitStep::SetProtocol(i, UsbHidProtocol::BootProtocol) => Some(
                ControlRequest {
                    request_type: REQ_TYPE_CLASS_TO_INTERFACE,
                    request: REQ_SET_PROTOCOL,
                    value: HID_BOOT_PROTOCOL,
                    index: i.interface_number as u16,
                    length: 0,
                },
            ),
            KeyboardInitStep::FillRing(_) => None,
            KeyboardInitStep::NotifyEndpoint(_) => None,
        }
    }
}

impl ControlRequest {
    /// The Setup stage block that carries the request.
    pub fn setup_stage(&self) -> (r: GenericTrbEntry)
        ensures
            r == GenericTrbEntry::spec_setup_stage(
                self.request_type,
                self.request,
                self.value,
                self.index,
                self.length,
            ),
    {
        GenericTrbEntry::setup_stage(
            self.request_type,
            self.request,
            self.value,
            self.index,
            self.length,
        )
    }
}

/// The index of the endpoint in a device context.
pub open spec fn spec_dci(e: EndpointDescriptor) -> usize {
    ((e.endpoint_address % 16) * 2 + e.endpoint_address / 128) as usize
}

/// The steps for the first `n` of the endpoints `eps`: for each, its ring
/// is filled and its doorbell is rung.
pub open spec fn endpoint_steps(eps: Seq<EndpointDescriptor>, n: int) -> Seq<KeyboardInitStep>
    decreases n,
{
    if n <= 0 {
        Seq::empty()
    } else {
        endpoint_steps(eps, n - 1).push(KeyboardInitStep::FillRing(spec_dci(eps[n - 1]))).push(
            KeyboardInitStep::NotifyEndpoint(eps[n - 1]),
        )
    }
}

/// The steps that set a boot keyboard up: the configuration, the
/// interface and the boot protocol are selected, in this order; only then
/// is each endpoint made ready.
pub open spec fn init_steps(
    config: ConfigDescriptor,
    interface: InterfaceDescriptor,
    eps: Seq<EndpointDescriptor>,
) -> Seq<KeyboardInitStep> {
    seq![
        KeyboardInitStep::SetConfig(config.config_value),
        KeyboardInitStep::SetInterface(interface),
        KeyboardInitStep::SetProtocol(interface, UsbHidProtocol::BootProtocol),
    ] + endpoint_steps(eps, eps.len() as int)
}

/// Plans how the device with the descriptors `descriptors` is set up as a
/// boot keyboard, for what `pick_config` picks of them. A device that
/// `pick_config` rejects is rejected.
pub fn init_usb_hid_keyboard(descriptors: &Vec<UsbDescriptor>) -> (r: Result<
    Vec<KeyboardInitStep>,
    Error,
>)
    ensures
        match spec_pick(descriptors@) {
            Some(p) => r matches Ok(steps) && steps@ == init_steps(
                p.config,
                p.interface,
                p.endpoints,
            ),
            None => r matches Err(Error::Failed(m)) && m@ == pick_error(descriptors@),
        },
{
    let (config, interface, eps) = match pick_config(descriptors) {
        Ok(picked) => picked,
        Err(e) => {
            return Err(e);
        },
    };
    let mut steps: Vec<KeyboardInitStep> = Vec::new();
    steps.push(KeyboardInitStep::SetConfig(config.config_value()));
    steps.push(KeyboardInitStep::SetInterface(interface));
    steps.push(KeyboardInitStep::SetProtocol(interface, UsbHidProtocol::BootProtocol));
    let ghost head = steps@;
    let n = eps.len();
    let mut k: usize = 0;
    while k < n
        invariant
            k <= n,
            n == eps@.len(),
            steps@ == head + endpoint_steps(eps@, k as int),
        decreases n - k,
    {
        steps.push(KeyboardInitStep::FillRing(eps[k].dci()));
        steps.push(KeyboardInitStep::NotifyEndpoint(eps[k]));
        k = k + 1;
        assert(steps@ =~= head + endpoint_steps(eps@, k as int));
    }
    assert(head =~= seq![
        KeyboardInitStep::SetConfig(config.config_value),
        KeyboardInitStep::SetInterface(interface),
        KeyboardInitStep::SetProtocol(interface, UsbHidProtocol::BootProtocol),
    ]);
    Ok(steps)
}

/// What pressing a key means.
#[derive(Debug, Copy, Clone, PartialEq, Eq, Structural)]
pub enum KeyEvent {
    /// No key.
    Nothing,
    Char(char),
    Enter,
}

impl KeyEvent {
    /// The character that the key stands for, if any.
    pub open spec fn spec_to_char(&self) -> Option<char> {
        match self {
            KeyEvent::Char(c) => Some(*c),
            KeyEvent::Enter => Some('\n'),
            KeyEvent::Nothing => None,
        }
    }

    /// The character that the key stands for, if any.
    pub fn to_char(&self) -> (r: Option<char>)
        ensures
            r == self.spec_to_char(),
    {
        match self {
            KeyEvent::Char(c) => Some(*c),
            KeyEvent::Enter => Some('\n'),
            _ => None,
        }
    }
}

/// What the key with the usage id `usage_id` means, where the driver
/// handles it: no key, a letter, a digit, or Enter.
pub open spec fn spec_usage(usage_id: u8) -> Option<KeyEvent> {
    if usage_id == 0 {
        Some(KeyEvent::Nothing)
    } else if 4 <= usage_id <= 29 {
        Some(KeyEvent::Char((97 + usage_id - 4) as u8 as char))
    } else if 30 <= usage_id <= 39 {
        Some(KeyEvent::Char((48 + (usage_id + 1) % 10) as u8 as char))
    } else if usage_id == 40 {
        Some(KeyEvent::Enter)
    } else {
        None
    }
}

/// The text before the usage id in the error reported for a key that the
/// driver does not handle.
pub open spec fn unhandled_usage_prefix() -> Seq<char> {
    "Unhandled USB HID Keyboard Usage ID "@
}

/// Reads what the key with the usage id `usage_id` of a boot keyboard
/// means.
pub fn usage_id_to_char(usage_id: u8) -> (r: Result<KeyEvent, Error>)
    ensures
        match spec_usage(usage_id) {
            Some(k) => r == Ok::<KeyEvent, Error>(k),
            None => r matches Err(Error::FailedString(m)) && m@ == unhandled_usage_prefix()
                + decimal(usage_id as nat),
        },
{
    if usage_id == 0 {
        Ok(KeyEvent::Nothing)
    } else if 4 <= usage_id && usage_id <= 29 {
        Ok(KeyEvent::Char((97 + usage_id - 4) as char))
    } else if 30 <= usage_id && usage_id <= 39 {
        Ok(KeyEvent::Char((48 + (usage_id + 1) % 10) as char))
    } else if usage_id == 40 {
        Ok(KeyEvent::Enter)
    } else {
        let mut m = String::from_str("Unhandled USB HID Keyboard Usage ID ");
        append_decimal(&mut m, usage_id as u64);
        Err(Error::FailedString(m))
    }
}

/// Number of usage ids.
pub const NUM_USAGE_IDS: usize = 256;

/// Length of a boot keyboard report.
pub const REPORT_LEN: usize = 8;

/// The keys that are pressed, by usage id.
pub struct PressedKeys {
    pub keys: [bool; 256],
}

impl PressedKeys {
    /// Whether the key with the usage id `id` is pressed.
    pub open spec fn has(&self, id: int) -> bool {
        self.keys@[id]
    }

    /// No key pressed.
    pub fn new() -> (r: PressedKeys)
        ensures
            forall|id: int| 0 <= id < 256 ==> !r.has(id),
    {
        PressedKeys { keys: [false;256] }
    }

    /// Whether the key with the usage id `id` is pressed.
    pub fn get(&self, id: u8) -> (r: bool)
        ensures
            r == self.has(id as int),
    {
        self.keys[id as usize]
    }
}

/// Whether the boot keyboard report `report` names the usage id `id` among
/// its six keys, which follow the modifiers and a reserved byte.
pub open spec fn report_has(report: Seq<u8>, id: int) -> bool {
    exists|k: int| 2 <= k < 8 && #[trigger] report[k] == id
}

/// The character that the newly pressed key `id` gives, if it gives one.
pub open spec fn key_char(id: int) -> Option<char> {
    match spec_usage(id as u8) {
        Some(k) => k.spec_to_char(),
        None => None,
    }
}

/// The characters of the keys with a usage id below `n` that are pressed
/// in `next` and were not in `prev`, by usage id.
pub open spec fn new_chars(prev: PressedKeys, next: PressedKeys, n: int) -> Seq<char>
    decreases n,
{
    if n <= 0 {
        Seq::empty()
    } else {
        let rest = new_chars(prev, next, n - 1);
        if next.has(n - 1) && !prev.has(n - 1) && key_char(n - 1) is Some {
            rest.push(key_char(n - 1)->0)
        } else {
            rest
        }
    }
}

/// The keys that the boot keyboard report `report` names as pressed.
pub fn report_keys(report: &[u8; 8]) -> (r: PressedKeys)
    ensures
        forall|id: int| 0 <= id < 256 ==> r.has(id) == report_has(report@, id),
{
    let mut r = PressedKeys::new();
    let mut k: usize = 2;
    while k < REPORT_LEN
        invariant
            2 <= k <= 8,
            forall|id: int|
                0 <= id < 256 ==> r.has(id) == (exists|j: int|
                    2 <= j < k && #[trigger] report@[j] == id),
        decreases 8 - k,
    {
        let ghost before = r;
        r.keys[report[k] as usize] = true;
        k = k + 1;
        assert forall|id: int| 0 <= id < 256 implies r.has(id) == (exists|j: int|
            2 <= j < k && #[trigger] report@[j] == id) by {
            if id == report@[k - 1] {
                assert(report@[k - 1] == id);
            } else {
                assert(r.has(id) == before.has(id));
                if exists|j: int| 2 <= j < k && #[trigger] report@[j] == id {
                    let j = choose|j: int| 2 <= j < k && #[trigger] report@[j] == id;
                    assert(j < k - 1);
                }
            }
        }
    }
    r
}

/// Takes a boot keyboard report: returns the keys that are pressed now,
/// and the characters of those that were not pressed in `prev`, by usage
/// id. A key without a character gives none.
pub fn process_report(prev: &PressedKeys, report: &[u8; 8]) -> (r: (PressedKeys, Vec<char>))
    ensures
        forall|id: int| 0 <= id < 256 ==> r.0.has(id) == report_has(report@, id),
        r.1@ == new_chars(*prev, r.0, 256),
{
    let next = report_keys(report);
    let mut out: Vec<char> = Vec::new();
    let mut id: usize = 0;
    while id < NUM_USAGE_IDS
        invariant
            id <= 256,
            out@ == new_chars(*prev, next, id as int),
        decreases 256 - id,
    {
        if next.keys[id] != prev.keys[id] {
            match usage_id_to_char(id as u8) {
                Ok(c) => {
                    if !prev.keys[id] {
                        match c.to_char() {
                            Some(ch) => {
                                out.push(ch);
                            },
                            None => {},
                        }
                    }
                },
                Err(_) => {},
            }
        }
        id = id + 1;
    }
    (next, out)
}

/// The text before the port in the error reported for a device that is
/// gone.
pub open spec fn disconnected_prefix() -> Seq<char> {
    "port "@
}

/// The text behind the port in that error.
pub open spec fn disconnected_suffix() -> Seq<char> {
    " disconnected"@
}

/// Checks that the keyboard on `port` is still there, by the register of
/// the port: the driver of a keyboard that is gone ends with an error.
pub fn check_connected(port: usize, portsc: &PortScWrapper) -> (r: Result<(), Error>)
    ensures
        portsc.spec_ccs() ==> r is Ok,
        !portsc.spec_ccs() ==> (r matches Err(Error::FailedString(m)) && m@ == disconnected_prefix()
            + decimal(port as nat) + disconnected_suffix()),
{
    if !portsc.ccs() {
        let mut m = String::from_str("port ");
        append_decimal(&mut m, port as u64);
        m.append(" disconnected");
        return Err(Error::FailedString(m));
    }
    Ok(())
}

} // verus!
