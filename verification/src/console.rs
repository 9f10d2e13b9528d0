//! Formatted output sink: turns pre-formatted text into a sequence of
//! firmware output calls, one character at a time, preserving order. Also
//! holds the small text-assembly helpers the rest of the runtime formats
//! with: appending a literal piece, a hexadecimal address, or a decimal
//! number to a line under construction.

use vstd::prelude::*;
use crate::sbi::Firmware;

verus! {

/// Writes every character of `s` through the firmware call layer, in order.
/// Every character submitted is forwarded before the call returns: the
/// output grows by exactly `s`, with nothing reordered, lost, or added.
pub fn write_str(fw: &mut Firmware, s: &str)
    requires
        old(fw).halt_state() is None,
    ensures
        final(fw).output() == old(fw).output() + s@,
        final(fw).halt_state() is None,
{
    let ghost base = old(fw).output();
    let n = s.unicode_len();
    let mut i: usize = 0;
    while i < n
        invariant
            n == s@.len(),
            i <= n,
            fw.output() == base + s@.take(i as int),
            fw.halt_state() is None,
        decreases n - i,
    {
        let c = s.get_char(i);
        fw.console_putchar(c);
        i = i + 1;
        proof {
            assert(s@.take(i as int) =~= s@.take(i as int - 1).push(s@[i as int - 1]));
        }
    }
    proof {
        assert(base + s@.take(n as int) =~= base + s@);
    }
}

/// Writes one assembled line, held as a vector of characters, through the
/// firmware call layer in order, as a single uninterrupted operation.
pub fn write_chars(fw: &mut Firmware, line: &Vec<char>)
    requires
        old(fw).halt_state() is None,
    ensures
        final(fw).output() == old(fw).output() + line@,
        final(fw).halt_state() is None,
{
    let ghost base = old(fw).output();
    let mut i: usize = 0;
    while i < line.len()
        invariant
            i <= line@.len(),
            fw.output() == base + line@.take(i as int),
            fw.halt_state() is None,
        decreases line@.len() - i,
    {
        let c = line[i];
        fw.console_putchar(c);
        i = i + 1;
        proof {
            assert(line@.take(i as int) =~= line@.take(i as int - 1).push(line@[i as int - 1]));
        }
    }
    proof {
        assert(base + line@.take(line@.len() as int) =~= base + line@);
    }
}

/// Accepts one piece of pre-formatted text (arguments already substituted)
/// and forwards the whole of it to the diagnostic channel.
pub fn print(fw: &mut Firmware, s: &str)
    requires
        old(fw).halt_state() is None,
    ensures
        final(fw).output() == old(fw).output() + s@,
        final(fw).halt_state() is None,
{
    write_str(fw, s);
}

/// The channel contents after a sequence of write calls, issued in order,
/// starting from `base`: each call appends its whole piece before the next
/// begins, as `write_str` and `write_chars` ensure.
pub open spec fn written_in_order(base: Seq<char>, msgs: Seq<Seq<char>>) -> Seq<char>
    decreases msgs.len(),
{
    if msgs.len() == 0 {
        base
    } else {
        written_in_order(base + msgs.first(), msgs.drop_first())
    }
}

/// Output ordering: a sequence of write calls issued in order leaves on the
/// diagnostic channel exactly the concatenation of the written pieces, in
/// call order — no interleaving, reordering, or loss.
pub proof fn lemma_output_ordering(base: Seq<char>, msgs: Seq<Seq<char>>)
    ensures
        written_in_order(base, msgs) == base + msgs.flatten(),
    decreases msgs.len(),
{
    if msgs.len() == 0 {
        assert(base + msgs.flatten() =~= base);
    } else {
        lemma_output_ordering(base + msgs.first(), msgs.drop_first());
        assert((base + msgs.first()) + msgs.drop_first().flatten() =~= base + (msgs.first()
            + msgs.drop_first().flatten()));
    }
}

/// Appends every character of `s` to a line under construction.
pub fn push_str(line: &mut Vec<char>, s: &str)
    ensures
        final(line)@ == old(line)@ + s@,
{
    let n = s.unicode_len();
    let mut i: usize = 0;
    while i < n
        invariant
            n == s@.len(),
            i <= n,
            line@ == old(line)@ + s@.take(i as int),
        decreases n - i,
    {
        let c = s.get_char(i);
        line.push(c);
        i = i + 1;
        proof {
            assert(s@.take(i as int) =~= s@.take(i as int - 1).push(s@[i as int - 1]));
        }
    }
    proof {
        assert(old(line)@ + s@.take(n as int) =~= old(line)@ + s@);
    }
}

/// Appends every character of `extra` to a line under construction.
pub fn push_chars(line: &mut Vec<char>, extra: &Vec<char>)
    ensures
        final(line)@ == old(line)@ + extra@,
{
    let mut i: usize = 0;
    while i < extra.len()
        invariant
            i <= extra@.len(),
            line@ == old(line)@ + extra@.take(i as int),
        decreases extra@.len() - i,
    {
        let c = extra[i];
        line.push(c);
        i = i + 1;
        proof {
            assert(extra@.take(i as int) =~= extra@.take(i as int - 1).push(extra@[i as int - 1]));
        }
    }
    proof {
        assert(old(line)@ + extra@.take(extra@.len() as int) =~= old(line)@ + extra@);
    }
}

/// The character for one digit value, `0` to `f`.
pub open spec fn digit_char(d: nat) -> char {
    if d == 0 { '0' } else if d == 1 { '1' } else if d == 2 { '2' } else if d == 3 { '3' }
    else if d == 4 { '4' } else if d == 5 { '5' } else if d == 6 { '6' } else if d == 7 { '7' }
    else if d == 8 { '8' } else if d == 9 { '9' } else if d == 10 { 'a' } else if d == 11 { 'b' }
    else if d == 12 { 'c' } else if d == 13 { 'd' } else if d == 14 { 'e' } else { 'f' }
}

/// The digits of `n` written in the given base, most significant first,
/// with no leading zeros (`0` itself is one digit).
pub open spec fn digits_in_base(base: nat, n: nat) -> Seq<char>
    recommends 2 <= base <= 16,
    decreases n,
    via digits_in_base_decreases
{
    if n < base || base < 2 {
        seq![digit_char(n % base)]
    } else {
        digits_in_base(base, n / base).push(digit_char(n % base))
    }
}

#[via_fn]
proof fn digits_in_base_decreases(base: nat, n: nat) {
    if !(n < base || base < 2) {
        assert(n / base < n) by (nonlinear_arith)
            requires n >= base >= 2;
    }
}

/// `n` in hexadecimal with the customary `0x` prefix, as `{:#x}` writes it.
pub open spec fn hex_of(n: nat) -> Seq<char> {
    "0x"@ + digits_in_base(16, n)
}

/// `n` in decimal.
pub open spec fn dec_of(n: nat) -> Seq<char> {
    digits_in_base(10, n)
}

fn digit_to_char(d: usize) -> (c: char)
    requires
        d < 16,
    ensures
        c == digit_char(d as nat),
{
    if d == 0 { '0' } else if d == 1 { '1' } else if d == 2 { '2' } else if d == 3 { '3' }
    else if d == 4 { '4' } else if d == 5 { '5' } else if d == 6 { '6' } else if d == 7 { '7' }
    else if d == 8 { '8' } else if d == 9 { '9' } else if d == 10 { 'a' } else if d == 11 { 'b' }
    else if d == 12 { 'c' } else if d == 13 { 'd' } else if d == 14 { 'e' } else { 'f' }
}

fn push_digits(line: &mut Vec<char>, base: usize, n: usize)
    requires
        2 <= base <= 16,
    ensures
        final(line)@ == old(line)@ + digits_in_base(base as nat, n as nat),
    decreases n,
{
    if n < base {
        let c = digit_to_char(n % base);
        line.push(c);
        proof {
            assert(old(line)@.push(c) =~= old(line)@ + digits_in_base(base as nat, n as nat));
        }
    } else {
        proof {
            assert(n / base < n) by (nonlinear_arith)
                requires n >= base >= 2;
        }
        push_digits(line, base, n / base);
        let c = digit_to_char(n % base);
        line.push(c);
        proof {
            assert(old(line)@ + digits_in_base(base as nat, (n / base) as nat).push(c)
                =~= old(line)@ + digits_in_base(base as nat, n as nat));
        }
    }
}

/// Appends `n` in `{:#x}` form — `0x` then lowercase hex digits — to a line
/// under construction.
pub fn push_hex(line: &mut Vec<char>, n: usize)
    ensures
        final(line)@ == old(line)@ + hex_of(n as nat),
{
    push_str(line, "0x");
    push_digits(line, 16, n);
    proof {
        assert(old(line)@ + "0x"@ + digits_in_base(16, n as nat)
            =~= old(line)@ + hex_of(n as nat));
    }
}

/// Appends `n` in decimal to a line under construction.
pub fn push_dec(line: &mut Vec<char>, n: u32)
    ensures
        final(line)@ == old(line)@ + dec_of(n as nat),
{
    push_digits(line, 10, n as usize);
}

} // verus!

