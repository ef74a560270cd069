//! A minimal two-instruction processor and the composite routines that a
//! richer machine would provide as single instructions.
//!
//! The processor owns two signed 32-bit registers and a fixed 512-word
//! memory, and exposes exactly two mutators: `mov` (register to memory) and
//! `sub` (wrapping subtraction of a memory word from a register). The
//! `routines` module derives zeroing, loading and a full memory swap from
//! those two primitives alone. The crate also carries two small standalone
//! utilities: an in-place "compact the non-zero elements to the front" array
//! transform (in two variants) and a multiply-by-constant helper.

pub mod cpu;
pub mod filter;
pub mod mult;
pub mod routines;

pub use cpu::Address;
pub use cpu::GearBoxCpu;
pub use cpu::Register;
pub use cpu::MEMORY_SIZE;
pub use filter::fast_filter_array;
pub use filter::simple_filter_array;
pub use mult::multiply_by_321;
pub use routines::load;
pub use routines::mem1;
pub use routines::mem2;
pub use routines::store_and_clear;
pub use routines::swap_memory;
pub use routines::temp;
