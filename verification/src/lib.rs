//! Earliest-boot diagnostic runtime of a bare-metal kernel image, plus a small
//! line-searching facility: firmware console output, leveled logging, the boot
//! sequence that zeroes uninitialized data and reports the memory layout, and
//! the fatal-error handler that formats a diagnostic and halts the machine.

pub mod boot;
pub mod console;
pub mod grep;
pub mod lang_items;
pub mod log;
pub mod sbi;
