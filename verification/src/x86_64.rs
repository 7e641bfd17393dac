//! What the kernel decides about the processor: the interrupt descriptor
//! table, the task state segment, the saved execution contexts and the
//! answer to an interrupt.

pub mod context;
pub mod idt;
