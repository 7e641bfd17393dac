use vstd::prelude::*;

verus! {

/// A USB configuration descriptor.
#[derive(Debug, Copy, Clone, PartialEq, Eq, Structural)]
pub struct ConfigDescriptor {
    pub desc_length: u8,
    pub desc_type: u8,
    pub total_length: u16,
    pub num_of_interfaces: u8,
    pub config_value: u8,
    pub config_string_index: u8,
    pub attribute: u8,
    pub max_power: u8,
}

impl ConfigDescriptor {
    /// The value by which the configuration is selected.
    pub fn config_value(&self) -> (r: u8)
        ensures
            r == self.config_value,
    {
        self.config_value
    }
}

/// A USB interface descriptor.
#[derive(Debug, Copy, Clone, PartialEq, Eq, Structural)]
pub struct InterfaceDescriptor {
    pub desc_length: u8,
    pub desc_type: u8,
    pub interface_number: u8,
    pub alt_setting: u8,
    pub num_of_endpoints: u8,
    pub interface_class: u8,
    pub interface_subclass: u8,
    pub interface_protocol: u8,
    pub interface_index: u8,
}

impl InterfaceDescriptor {
    /// Class, subclass and protocol of the interface.
    pub fn triple(&self) -> (r: (u8, u8, u8))
        ensures
            r == (self.interface_class, self.interface_subclass, self.interface_protocol),
    {
        (self.interface_class, self.interface_subclass, self.interface_protocol)
    }
}

/// A USB endpoint descriptor.
#[derive(Debug, Copy, Clone, PartialEq, Eq, Structural)]
pub struct EndpointDescriptor {
    pub desc_length: u8,
    pub desc_type: u8,
    pub endpoint_address: u8,
    pub attributes: u8,
    pub max_packet_size: u16,
    pub interval: u8,
}

impl EndpointDescriptor {
    /// The index of the endpoint in a device context: twice the endpoint
    /// number, plus one for an endpoint from device to host.
    pub fn dci(&self) -> (r: usize)
        ensures
            r == (self.endpoint_address % 16) * 2 + self.endpoint_address / 128,
            r < 32,
    {
        let number: usize = (self.endpoint_address % 16) as usize;
        let dir_in: usize = (self.endpoint_address / 128) as usize;
        number * 2 + dir_in
    }
}

/// One of the descriptors that a device reports.
#[derive(Debug, Copy, Clone, PartialEq, Eq, Structural)]
pub enum UsbDescriptor {
    Config(ConfigDescriptor),
    Interface(InterfaceDescriptor),
    Endpoint(EndpointDescriptor),
    Unknown { desc_len: u8, desc_type: u8 },
}

} // verus!
