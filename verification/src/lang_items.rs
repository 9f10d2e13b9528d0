//! Fatal-error handler: the single terminal sink for every unrecoverable
//! condition. It formats a location-tagged diagnostic through the output
//! sink, then hands control to the firmware call layer to halt the machine
//! with a failure status. There is no other exit path and no retry.

use vstd::prelude::*;
use crate::sbi::Firmware;
use crate::console::{write_chars, push_str, push_dec, dec_of};

verus! {

/// The diagnostic line a fatal error with the given optional source
/// location (file path and line number) and message turns into.
pub open spec fn panic_line(loc: Option<(Seq<char>, u32)>, msg: Seq<char>) -> Seq<char> {
    match loc {
        Some(fl) => "Panicked at "@ + fl.0 + ":"@ + dec_of(fl.1 as nat) + " "@ + msg + "\n"@,
        None => "Panicked: "@ + msg + "\n"@,
    }
}

/// The mathematical value of an optional source location.
pub open spec fn loc_view(loc: Option<(&str, u32)>) -> Option<(Seq<char>, u32)> {
    match loc {
        Some(fl) => Some((fl.0@, fl.1)),
        None => None,
    }
}

/// Handles an unrecoverable condition: writes `Panicked at <file>:<line>
/// <message>` when a source location is known, `Panicked: <message>`
/// otherwise, each on its own line, then requests a failure halt. Nothing
/// further is emitted: the handler leaves the machine halted.
pub fn handle_panic(fw: &mut Firmware, location: Option<(&str, u32)>, msg: &str)
    requires
        old(fw).halt_state() is None,
    ensures
        final(fw).output() == old(fw).output() + panic_line(loc_view(location), msg@),
        final(fw).halt_state() == Some(true),
{
    let mut line: Vec<char> = Vec::new();
    match location {
        Some((file, line_no)) => {
            push_str(&mut line, "Panicked at ");
            push_str(&mut line, file);
            push_str(&mut line, ":");
            push_dec(&mut line, line_no);
            push_str(&mut line, " ");
            push_str(&mut line, msg);
            push_str(&mut line, "\n");
        },
        None => {
            push_str(&mut line, "Panicked: ");
            push_str(&mut line, msg);
            push_str(&mut line, "\n");
        },
    }
    proof {
        assert(line@ =~= panic_line(loc_view(location), msg@));
    }
    write_chars(fw, &line);
    fw.shutdown(true);
}

} // verus!
