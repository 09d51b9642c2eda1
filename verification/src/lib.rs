//! Device-independent logic of a small Raspberry Pi 3 kernel: the register
//! map, the PL011 UART driver, the interrupt dispatcher, the bump heap
//! allocator and the echo shell. Every routine that touches hardware is
//! written as a plan of register operations (`regs::RegOp`) or as a step
//! function that is fed the values read from the device; the code that
//! performs the memory-mapped accesses lives outside the verified library.
pub mod interrupt;
pub mod mem;
pub mod regs;
pub mod shell;
pub mod uart;

use vstd::prelude::*;

verus! {

} // verus!
