use vstd::prelude::*;

verus! {

/// The failures that kernel operations report.
#[derive(Debug)]
pub enum Error {
    /// A failure described by a fixed message.
    Failed(&'static str),
    /// A failure described by a message built at run time.
    FailedString(String),
    /// A bus, device or function number outside the range PCI allows.
    PciBusDeviceFunctionOutOfRange,
}

} // verus!
