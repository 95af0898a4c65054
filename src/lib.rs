//! An AArch64 user-mode emulator core: instruction decoder, lifter to a
//! small typed IR, and an interpreter for that IR over a virtual CPU.
pub mod ir;
pub mod inst;
pub mod decode;
pub mod cpu;
pub mod interp;
pub mod lift;
pub mod vm;
pub mod syscall;
pub mod image;
pub mod instruction;
pub mod bits;
pub mod effects;
