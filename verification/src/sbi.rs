//! Firmware call layer: the narrow waist between the kernel and the
//! supervisor firmware beneath it. The firmware offers two services during
//! boot: writing one character to the diagnostic channel, and an irreversible
//! power-state transition. `Firmware` models the observable state of that
//! boundary — the sequence of characters emitted so far and whether a halt has
//! been requested — while the real service calls go through `sbi_rt`.

use vstd::prelude::*;

verus! {

/// Relies on sbi_rt::console_write_byte: places the debug-console
/// extension's identifying codes and the byte in the fixed argument
/// registers and traps into the firmware, which writes one byte to the
/// diagnostic output channel. The output is fire-and-forget during boot, so
/// the status result is discarded. Intended to run under RISC-V supervisor
/// firmware; on other architectures sbi_rt replaces the trap with a panic,
/// so nothing may call this off the target machine.
#[verifier::external_body]
fn sbi_console_write_byte(b: u8) {
    let _ = sbi_rt::console_write_byte(b);
}

/// Relies on sbi_rt::system_reset with the Shutdown reset type and the
/// NoReason reset reason: asks the firmware to power the machine off as a
/// clean stop. On real firmware the request does not return; the result is
/// discarded. Intended to run under RISC-V supervisor firmware.
#[verifier::external_body]
fn sbi_shutdown_clean() {
    let _ = sbi_rt::system_reset(sbi_rt::Shutdown, sbi_rt::NoReason);
}

/// Relies on sbi_rt::system_reset with the Shutdown reset type and the
/// SystemFailure reset reason: asks the firmware to power the machine off as
/// a failure stop. On real firmware the request does not return; the result
/// is discarded. Intended to run under RISC-V supervisor firmware.
#[verifier::external_body]
fn sbi_shutdown_failure() {
    let _ = sbi_rt::system_reset(sbi_rt::Shutdown, sbi_rt::SystemFailure);
}

/// The kernel's view of the firmware boundary. `output()` is the sequence of
/// characters emitted on the diagnostic channel since reset; `halt_state()`
/// records whether a power-off has been requested and with which status.
/// When `transmit` is set the characters are really forwarded to the
/// firmware; a test harness leaves it unset and only records them.
pub struct Firmware {
    out: Vec<char>,
    halted: Option<bool>,
    transmit: bool,
}

impl Firmware {
    /// The characters observed on the diagnostic output channel, in the order
    /// they were emitted.
    pub closed spec fn output(&self) -> Seq<char> {
        self.out@
    }

    /// `None` while the machine is running; `Some(failure)` once a halt has
    /// been requested with the given failure status.
    pub closed spec fn halt_state(&self) -> Option<bool> {
        self.halted
    }

    /// A freshly reset machine: nothing emitted, no halt requested.
    pub fn new(transmit: bool) -> (fw: Firmware)
        ensures
            fw.output() == Seq::<char>::empty(),
            fw.halt_state() is None,
    {
        Firmware { out: Vec::new(), halted: None, transmit }
    }

    /// Requests that one character be written to the diagnostic output
    /// channel. Fire-and-forget: the channel is assumed always available
    /// during boot, so exactly this character is appended to the output.
    pub fn console_putchar(&mut self, c: char)
        requires
            old(self).halt_state() is None,
        ensures
            final(self).output() == old(self).output().push(c),
            final(self).halt_state() is None,
    {
        self.out.push(c);
        if self.transmit {
            let code = c as u32;
            if code < 128 {
                sbi_console_write_byte(code as u8);
            }
        }
    }

    /// Requests an irreversible power-state transition, distinguishing a
    /// clean stop from a failure stop. Terminal: nothing can be emitted
    /// afterwards, and the output is left exactly as it was.
    pub fn shutdown(&mut self, failure: bool)
        requires
            old(self).halt_state() is None,
        ensures
            final(self).output() == old(self).output(),
            final(self).halt_state() == Some(failure),
    {
        if self.transmit {
            if !failure {
                sbi_shutdown_clean();
            } else {
                sbi_shutdown_failure();
            }
        }
        self.halted = Some(failure);
    }

    /// The recorded diagnostic output, for an observer outside the kernel.
    pub fn output_chars(&self) -> (r: &Vec<char>)
        ensures
            r@ == self.output(),
    {
        &self.out
    }

    /// Whether a halt has been requested, and with which failure status.
    pub fn halt_requested(&self) -> (r: Option<bool>)
        ensures
            r == self.halt_state(),
    {
        self.halted
    }
}

} // verus!
