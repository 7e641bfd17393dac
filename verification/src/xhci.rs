//! The xHCI host controller driver: transfer request blocks, the three
//! rings, event waiters and the register files.

pub mod device;
pub mod future;
pub mod registers;
pub mod ring;
pub mod trb;
