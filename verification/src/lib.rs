//! Verified core logic of a small x86_64 kernel: heap bookkeeping, TRB rings,
//! event matching, wire-format parsing and the decisions of its drivers, all
//! stated over plain values.

pub mod acpi;
pub mod allocator;
pub mod command;
pub mod error;
pub mod executor;
pub mod graphics;
pub mod input;
pub mod loader;
pub mod net;
pub mod pci;
pub mod text;
pub mod usb;
pub mod usb_hid_keyboard;
pub mod util;
pub mod x86_64;
pub mod xhci;
