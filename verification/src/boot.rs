//! Boot sequence: the one transition from a freshly reset core to a ready
//! runtime. It first zeroes every byte of the uninitialized-data segment —
//! later code is entitled to read zero there — then reports the boundaries
//! of each memory segment through the logging facade, and deliberately ends
//! in the fatal-error handler: in this minimal stage there is no scheduler
//! to hand off to, and a bare-metal image must never run off the end of its
//! own logic.

use vstd::prelude::*;
use crate::sbi::Firmware;
use crate::console::{push_str, push_hex, hex_of};
use crate::log::{Level, LogConfig, gated_line, log_chars};
use crate::lang_items::{handle_panic, panic_line};

verus! {

/// A half-open address range `[start, end)` of the kernel image, produced
/// once at link time and consumed only for reporting.
#[derive(Clone, Copy, PartialEq, Eq, Structural)]
pub struct Segment {
    pub start: usize,
    pub end: usize,
}

/// The linker-provided memory map: the code, read-only data, initialized
/// data and uninitialized data segments.
#[derive(Clone, Copy, PartialEq, Eq, Structural)]
pub struct MemoryLayout {
    pub text: Segment,
    pub rodata: Segment,
    pub data: Segment,
    pub bss: Segment,
}

/// Zeroes every byte in `[start, end)`, address by address. Bytes outside
/// the range are untouched.
pub fn clear_bss(mem: &mut Vec<u8>, start: usize, end: usize)
    requires
        start <= end <= old(mem)@.len(),
    ensures
        final(mem)@.len() == old(mem)@.len(),
        forall|i: int| start <= i < end ==> final(mem)@[i] == 0,
        forall|i: int| 0 <= i < old(mem)@.len() && !(start <= i < end)
            ==> final(mem)@[i] == old(mem)@[i],
{
    let mut a: usize = start;
    while a < end
        invariant
            start <= a <= end <= mem@.len(),
            mem@.len() == old(mem)@.len(),
            forall|i: int| start <= i < a ==> mem@[i] == 0,
            forall|i: int| 0 <= i < mem@.len() && !(start <= i < a)
                ==> mem@[i] == old(mem)@[i],
        decreases end - a,
    {
        mem.set(a, 0);
        a = a + 1;
    }
}

/// The message reporting one segment: its name, then its half-open address
/// range with both bounds in hexadecimal.
pub open spec fn segment_msg(name: Seq<char>, seg: Segment) -> Seq<char> {
    name + " ["@ + hex_of(seg.start as nat) + ", "@ + hex_of(seg.end as nat) + ")"@
}

/// Everything the boot sequence logs about the memory map under the given
/// build options: one record per segment, in the fixed order text, rodata,
/// data, bss, each at its demonstration severity.
pub open spec fn layout_report(cfg: LogConfig, lay: MemoryLayout) -> Seq<char> {
    gated_line(cfg, Level::Info, segment_msg(".text"@, lay.text))
        + gated_line(cfg, Level::Debug, segment_msg(".rodata"@, lay.rodata))
        + gated_line(cfg, Level::Error, segment_msg(".data"@, lay.data))
        + gated_line(cfg, Level::Info, segment_msg(".bss"@, lay.bss))
}

/// The whole diagnostic output of one boot: the layout report followed by
/// the deliberate final diagnostic.
pub open spec fn boot_transcript(cfg: LogConfig, lay: MemoryLayout) -> Seq<char> {
    layout_report(cfg, lay) + panic_line(None, "Shutdown machine!"@)
}

fn report_segment(fw: &mut Firmware, cfg: LogConfig, level: Level, name: &str, seg: Segment)
    requires
        old(fw).halt_state() is None,
    ensures
        final(fw).output() == old(fw).output() + gated_line(cfg, level, segment_msg(name@, seg)),
        final(fw).halt_state() is None,
{
    let mut m: Vec<char> = Vec::new();
    push_str(&mut m, name);
    push_str(&mut m, " [");
    push_hex(&mut m, seg.start);
    push_str(&mut m, ", ");
    push_hex(&mut m, seg.end);
    push_str(&mut m, ")");
    proof {
        assert(m@ =~= segment_msg(name@, seg));
    }
    log_chars(fw, cfg, level, &m);
}

/// The boot sequence. `bss_mem` holds the bytes of the uninitialized-data
/// segment as loaded: on return every one of them is zero, the segment
/// boundaries have been reported in order, and the machine has been handed
/// to the fatal-error handler, which leaves it halted with a failure
/// status.
pub fn rust_main(fw: &mut Firmware, cfg: LogConfig, layout: &MemoryLayout, bss_mem: &mut Vec<u8>)
    requires
        old(fw).halt_state() is None,
    ensures
        final(bss_mem)@.len() == old(bss_mem)@.len(),
        forall|i: int| 0 <= i < final(bss_mem)@.len() ==> final(bss_mem)@[i] == 0,
        final(fw).output() == old(fw).output() + boot_transcript(cfg, *layout),
        final(fw).halt_state() == Some(true),
{
    let bss_len = bss_mem.len();
    clear_bss(bss_mem, 0, bss_len);
    report_segment(fw, cfg, Level::Info, ".text", layout.text);
    report_segment(fw, cfg, Level::Debug, ".rodata", layout.rodata);
    report_segment(fw, cfg, Level::Error, ".data", layout.data);
    report_segment(fw, cfg, Level::Info, ".bss", layout.bss);
    handle_panic(fw, None, "Shutdown machine!");
    proof {
        assert(final(fw).output() =~= old(fw).output() + boot_transcript(cfg, *layout));
    }
}

} // verus!
