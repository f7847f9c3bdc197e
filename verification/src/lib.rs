//! Earliest-boot execution core of a supervisor-mode RISC-V program, as a
//! verified machine model.
//!
//! The hardware edges of the real system — the `ecall` trapping instruction,
//! control-register reads and writes, and raw register save/restore — are
//! modelled as explicit state: a [`hart::Hart`] carries the register file,
//! stack words, static storage bytes and control registers, and a
//! [`sbi::Firmware`] carries the scripted firmware replies together with the
//! log of calls made to it. Every transition on that state is an ordinary
//! verified function with an exact contract.

pub mod console;
pub mod dispatch;
pub mod frame;
pub mod hart;
pub mod mem;
pub mod render;
pub mod sbi;
