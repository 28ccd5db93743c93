//! A minimal runtime for supervisor software that runs on RISC-V under an
//! SBI firmware: the firmware call layer, the boot protocol of the harts,
//! and the dispatch of traps, each stated over plain values and proved.

pub mod boot;
pub mod entry;
pub mod io;
pub mod runtime;
pub mod sbi;
pub mod trap;
