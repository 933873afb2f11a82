//! Per-hart execution state, thread control blocks and the signal
//! bookkeeping syscalls of a multi-hart RISC-V kernel.

pub mod config;
pub mod console;
pub mod hart;
pub mod memory;
pub mod signal;
pub mod syscall;
pub mod thread;
pub mod trap_context;

