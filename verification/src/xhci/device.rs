use vstd::prelude::*;
use crate::usb::UsbDescriptor;

verus! {

/// What a class driver is handed for a device: the port it sits on, its
/// slot, and what it reported of itself.
pub struct UsbDeviceDriverContext {
    port: usize,
    slot: u8,
    descriptors: Vec<UsbDescriptor>,
}

impl UsbDeviceDriverContext {
    /// The port.
    pub closed spec fn spec_port(&self) -> usize {
        self.port
    }

    /// The slot.
    pub closed spec fn spec_slot(&self) -> u8 {
        self.slot
    }

    /// The descriptors.
    pub closed spec fn spec_descriptors(&self) -> Seq<UsbDescriptor> {
        self.descriptors@
    }

    /// The context of the device on `port` in `slot` with the given
    /// descriptors.
    pub fn new(port: usize, slot: u8, descriptors: Vec<UsbDescriptor>) -> (r: Self)
        ensures
            r.spec_port() == port,
            r.spec_slot() == slot,
            r.spec_descriptors() == descriptors@,
    {
        Self { port, slot, descriptors }
    }

    /// The port that the device sits on.
    pub fn port(&self) -> (r: usize)
        ensures
            r == self.spec_port(),
    {
        self.port
    }

    /// The slot of the device.
    pub fn slot(&self) -> (r: u8)
        ensures
            r == self.spec_slot(),
    {
        self.slot
    }

    /// The descriptors that the device reported.
    pub fn descriptors(&self) -> (r: &Vec<UsbDescriptor>)
        ensures
            r@ == self.spec_descriptors(),
    {
        &self.descriptors
    }
}

} // verus!
