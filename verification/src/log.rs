//! Leveled logging facade. Five severities — ERROR, WARN, INFO, DEBUG,
//! TRACE — each independently switched by a build option. An enabled call
//! emits exactly one line: the ANSI color escape for its level, a bracketed
//! level tag, the message, and a color reset followed by a newline, handed
//! to the output sink as one uninterrupted write. A disabled call emits
//! nothing at all.

use vstd::prelude::*;
use crate::sbi::Firmware;
use crate::console::{write_chars, push_str, push_chars};

verus! {

/// Severity of one log record, highest first.
#[derive(Clone, Copy, PartialEq, Eq, Structural)]
pub enum Level {
    Error,
    Warn,
    Info,
    Debug,
    Trace,
}

/// The build options: which levels are present in the image. Each level is
/// toggled independently.
#[derive(Clone, Copy, PartialEq, Eq, Structural)]
pub struct LogConfig {
    pub error: bool,
    pub warn: bool,
    pub info: bool,
    pub debug: bool,
    pub trace: bool,
}

impl LogConfig {
    /// Whether records of the given level are present in this build.
    pub open spec fn spec_enables(self, level: Level) -> bool {
        match level {
            Level::Error => self.error,
            Level::Warn => self.warn,
            Level::Info => self.info,
            Level::Debug => self.debug,
            Level::Trace => self.trace,
        }
    }

    /// Runtime test of the same build option.
    pub fn enables(&self, level: Level) -> (r: bool)
        ensures
            r == self.spec_enables(level),
    {
        match level {
            Level::Error => self.error,
            Level::Warn => self.warn,
            Level::Info => self.info,
            Level::Debug => self.debug,
            Level::Trace => self.trace,
        }
    }
}

/// The fixed opening of a line of the given level: the ANSI color escape
/// mapped to the level (red, bright yellow, blue, green, gray) followed by
/// the bracketed level tag.
pub open spec fn level_prefix(level: Level) -> Seq<char> {
    match level {
        Level::Error => "\x1b[31m[ERROR] "@,
        Level::Warn => "\x1b[93m[WARN ] "@,
        Level::Info => "\x1b[34m[INFO ] "@,
        Level::Debug => "\x1b[32m[DEBUG] "@,
        Level::Trace => "\x1b[90m[TRACE] "@,
    }
}

/// The whole line a log record of the given level and message turns into:
/// color escape and tag, the message, then a color reset and a newline.
pub open spec fn line_of(level: Level, msg: Seq<char>) -> Seq<char> {
    level_prefix(level) + msg + "\x1b[0m\n"@
}

/// What a call at the given level adds to the diagnostic output under the
/// given build options: the whole line when the level is enabled, nothing
/// when it is disabled.
pub open spec fn gated_line(cfg: LogConfig, level: Level, msg: Seq<char>) -> Seq<char> {
    if cfg.spec_enables(level) {
        line_of(level, msg)
    } else {
        Seq::empty()
    }
}

fn level_prefix_str(level: Level) -> (r: &'static str)
    ensures
        r@ == level_prefix(level),
{
    match level {
        Level::Error => "\x1b[31m[ERROR] ",
        Level::Warn => "\x1b[93m[WARN ] ",
        Level::Info => "\x1b[34m[INFO ] ",
        Level::Debug => "\x1b[32m[DEBUG] ",
        Level::Trace => "\x1b[90m[TRACE] ",
    }
}

/// Emits one log record whose message is a line under construction. When
/// the record's level is enabled, exactly its line appears on the output;
/// when it is disabled, the output is untouched.
pub fn log_chars(fw: &mut Firmware, cfg: LogConfig, level: Level, msg: &Vec<char>)
    requires
        old(fw).halt_state() is None,
    ensures
        final(fw).output() == old(fw).output() + gated_line(cfg, level, msg@),
        final(fw).halt_state() is None,
{
    if cfg.enables(level) {
        let mut line: Vec<char> = Vec::new();
        push_str(&mut line, level_prefix_str(level));
        push_chars(&mut line, msg);
        push_str(&mut line, "\x1b[0m\n");
        proof {
            assert(line@ =~= gated_line(cfg, level, msg@));
        }
        write_chars(fw, &line);
    } else {
        proof {
            assert(old(fw).output() + gated_line(cfg, level, msg@) =~= old(fw).output());
        }
    }
}

/// Emits one log record with a pre-formatted message.
pub fn log(fw: &mut Firmware, cfg: LogConfig, level: Level, msg: &str)
    requires
        old(fw).halt_state() is None,
    ensures
        final(fw).output() == old(fw).output() + gated_line(cfg, level, msg@),
        final(fw).halt_state() is None,
{
    let mut m: Vec<char> = Vec::new();
    push_str(&mut m, msg);
    proof {
        assert(m@ =~= msg@);
    }
    log_chars(fw, cfg, level, &m);
}

/// An ERROR record: red, always meant for severe errors.
pub fn error(fw: &mut Firmware, cfg: LogConfig, msg: &str)
    requires
        old(fw).halt_state() is None,
    ensures
        final(fw).output() == old(fw).output() + gated_line(cfg, Level::Error, msg@),
        final(fw).halt_state() is None,
{
    log(fw, cfg, Level::Error, msg);
}

/// A WARN record: bright yellow.
pub fn warn(fw: &mut Firmware, cfg: LogConfig, msg: &str)
    requires
        old(fw).halt_state() is None,
    ensures
        final(fw).output() == old(fw).output() + gated_line(cfg, Level::Warn, msg@),
        final(fw).halt_state() is None,
{
    log(fw, cfg, Level::Warn, msg);
}

/// An INFO record: blue.
pub fn info(fw: &mut Firmware, cfg: LogConfig, msg: &str)
    requires
        old(fw).halt_state() is None,
    ensures
        final(fw).output() == old(fw).output() + gated_line(cfg, Level::Info, msg@),
        final(fw).halt_state() is None,
{
    log(fw, cfg, Level::Info, msg);
}

/// A DEBUG record: green.
pub fn debug(fw: &mut Firmware, cfg: LogConfig, msg: &str)
    requires
        old(fw).halt_state() is None,
    ensures
        final(fw).output() == old(fw).output() + gated_line(cfg, Level::Debug, msg@),
        final(fw).halt_state() is None,
{
    log(fw, cfg, Level::Debug, msg);
}

/// A TRACE record: gray.
pub fn trace(fw: &mut Firmware, cfg: LogConfig, msg: &str)
    requires
        old(fw).halt_state() is None,
    ensures
        final(fw).output() == old(fw).output() + gated_line(cfg, Level::Trace, msg@),
        final(fw).halt_state() is None,
{
    log(fw, cfg, Level::Trace, msg);
}

/// Log-level gating: a disabled level contributes nothing to the output for
/// any message, and an enabled level contributes exactly one line that
/// opens with its color escape and tag and closes with the color reset and
/// a newline.
pub proof fn lemma_level_gating(cfg: LogConfig, level: Level, msg: Seq<char>)
    ensures
        !cfg.spec_enables(level) ==> gated_line(cfg, level, msg) == Seq::<char>::empty(),
        cfg.spec_enables(level) ==> gated_line(cfg, level, msg) == line_of(level, msg),
        line_of(level, msg).len() == level_prefix(level).len() + msg.len() + 5,
        line_of(level, msg).first() == '\x1b',
        line_of(level, msg).last() == '\n',
{
    reveal_strlit("\x1b[31m[ERROR] ");
    reveal_strlit("\x1b[93m[WARN ] ");
    reveal_strlit("\x1b[34m[INFO ] ");
    reveal_strlit("\x1b[32m[DEBUG] ");
    reveal_strlit("\x1b[90m[TRACE] ");
    reveal_strlit("\x1b[0m\n");
}

} // verus!
