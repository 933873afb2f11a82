//! Layout constants shared by the kernel.
use vstd::prelude::*;

verus! {

/// Number of harts the kernel supports.
pub const HART_NUM: usize = 4;

/// Size of a page of virtual memory, in bytes.
pub const PAGE_SIZE: u64 = 4096;

/// Size of each thread's user stack, in bytes.
pub const USER_STACK_SIZE: u64 = 0x8000;

/// One past the last address of the low (user) half of the address space.
pub const LOW_ADDRESS_END: u64 = 0x40_0000_0000;

/// The largest thread id whose user stack still lies above address zero.
pub const MAX_TID: usize = 7456539;

} // verus!
