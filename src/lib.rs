//! Core of a small RISC-V multitasking kernel: task and trap records, the
//! loader's address plan, trap and syscall decoding, the timer arithmetic and
//! the round-robin scheduler, each with its contract.
pub mod config;
pub mod context;
pub mod loader;
pub mod sync;
pub mod syscall;
pub mod task;
pub mod timer;
pub mod trap;
