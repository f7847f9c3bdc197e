//! The trap dispatcher and the panic reporter. The dispatcher reads the
//! cause, faulting value and faulting program counter latched at trap time,
//! classifies the trap — under the current policy every trap is fatal — and
//! escalates to the panic reporter, which writes one diagnostic line through
//! the console writer and moves the hart into its terminal halted state.

use vstd::prelude::*;
use crate::console::{wrote_exactly, ConsoleWriter};
use crate::hart::{frame_fits, spec_trap_save, Hart, HartView, Mode};
use crate::render::{
    chars_of, push_chars, push_str_chars, spec_dec_chars, spec_hex_chars, u32_to_dec,
};
use crate::sbi::{Firmware, SbiError};

verus! {

/// The dispatcher's diagnostic text for one trap: the cause, faulting value
/// and faulting program counter, each rendered in fixed-width hexadecimal.
pub open spec fn trap_message(scause: u32, stval: u32, sepc: u32) -> Seq<char> {
    "unexpected trap scause="@ + spec_hex_chars(scause) + " stval="@ + spec_hex_chars(stval)
        + " sepc="@ + spec_hex_chars(sepc)
}

/// The reporter's whole diagnostic line: the message, prefixed with the
/// panic marker and the source location when one is given, and terminated
/// with a newline.
pub open spec fn diagnostic(loc: Option<(Seq<char>, u32)>, msg: Seq<char>) -> Seq<char> {
    match loc {
        Some(l) => "PANIC: "@ + l.0 + ":"@ + spec_dec_chars(l.1 as nat) + ": "@ + msg + "\n"@,
        None => "PANIC: "@ + msg + "\n"@,
    }
}

/// The location argument of the reporter, as the mathematical value the
/// diagnostic is stated over.
pub open spec fn loc_view(loc: Option<(&str, u32)>) -> Option<(Seq<char>, u32)> {
    match loc {
        Some(l) => Some((l.0@, l.1)),
        None => None,
    }
}

/// Builds the dispatcher's diagnostic text for one trap.
pub fn build_trap_message(scause: u32, stval: u32, sepc: u32) -> (r: Vec<char>)
    ensures
        r@ == trap_message(scause, stval, sepc),
{
    let mut r = chars_of("unexpected trap scause=");
    let h0 = crate::render::hex32(scause);
    push_chars(&mut r, &h0);
    push_str_chars(&mut r, " stval=");
    let h1 = crate::render::hex32(stval);
    push_chars(&mut r, &h1);
    push_str_chars(&mut r, " sepc=");
    let h2 = crate::render::hex32(sepc);
    push_chars(&mut r, &h2);
    r
}

/// The disposition switch over trap cause codes. Under the current policy
/// there is no recoverable cause: every arm of a future per-cause policy
/// defaults to fatal, so the switch always answers `Mode::Fatal`.
pub fn classify_trap(scause: u32) -> (m: Mode)
    ensures
        m == Mode::Fatal,
{
    match scause {
        _ => Mode::Fatal,
    }
}

/// The panic reporter: writes the diagnostic line for `loc` and `msg`
/// through the console writer — one firmware call per character, stopping
/// at the first firmware error — then moves the hart into the terminal
/// halted state. Nothing of the hart but its mode changes, and the halt
/// happens whether or not the write succeeded.
pub fn panic_report(
    h: &mut Hart,
    fw: &mut Firmware,
    loc: Option<(&str, u32)>,
    msg: &Vec<char>,
) -> (r: Result<(), SbiError>)
    requires
        old(fw).next + diagnostic(loc_view(loc), msg@).len() <= old(fw).replies@.len(),
    ensures
        wrote_exactly(*old(fw), *final(fw), diagnostic(loc_view(loc), msg@), r),
        final(h)@ == (HartView { mode: Mode::Halted, ..old(h)@ }),
{
    let mut d = chars_of("PANIC: ");
    match loc {
        Some((file, line)) => {
            push_str_chars(&mut d, file);
            push_str_chars(&mut d, ":");
            let ld = u32_to_dec(line);
            push_chars(&mut d, &ld);
            push_str_chars(&mut d, ": ");
        },
        None => {},
    }
    push_chars(&mut d, msg);
    push_str_chars(&mut d, "\n");
    proof {
        assert(d@ =~= diagnostic(loc_view(loc), msg@));
    }
    let mut w = ConsoleWriter;
    let r = w.write_chars(fw, &d);
    h.mode = Mode::Halted;
    proof {
        assert(h@ =~= (HartView { mode: Mode::Halted, ..old(h)@ }));
    }
    r
}

/// The trap dispatcher: reads the latched cause, faulting value and
/// faulting program counter, classifies the trap (always fatal under the
/// current policy), and escalates to the panic reporter. The register frame
/// on the stack is read-only to the dispatcher: the stack, the registers
/// and every control register are left exactly as they were, and the hart
/// ends halted after the diagnostic — no firmware call follows it.
pub fn handle_trap(h: &mut Hart, fw: &mut Firmware) -> (r: Result<(), SbiError>)
    requires
        old(h)@.mode == Mode::Trapped,
        old(fw).next + diagnostic(
            None,
            trap_message(old(h)@.scause, old(h)@.stval, old(h)@.sepc),
        ).len() <= old(fw).replies@.len(),
    ensures
        wrote_exactly(
            *old(fw),
            *final(fw),
            diagnostic(None, trap_message(old(h)@.scause, old(h)@.stval, old(h)@.sepc)),
            r,
        ),
        final(h)@ == (HartView { mode: Mode::Halted, ..old(h)@ }),
{
    let scause = h.scause;
    let stval = h.stval;
    let sepc = h.sepc;
    let disposition = classify_trap(scause);
    h.mode = disposition;
    let msg = build_trap_message(scause, stval, sepc);
    let r = panic_report(h, fw, None, &msg);
    proof {
        assert(h@ =~= (HartView { mode: Mode::Halted, ..old(h)@ }));
    }
    r
}

/// The whole trap entry/exit sequence the hardware jumps to: save the full
/// register frame, hand the frame to the dispatcher, and — on any future
/// non-fatal disposition — restore the frame and return from the trap.
/// Under the current always-fatal policy the dispatcher never returns
/// control to the restore half, so the hart ends halted, with the frame
/// still intact on the stack.
pub fn kernel_entry(h: &mut Hart, fw: &mut Firmware) -> (r: Result<(), SbiError>)
    requires
        old(h)@.mode == Mode::Trapped,
        frame_fits(old(h)@),
        old(fw).next + diagnostic(
            None,
            trap_message(old(h)@.scause, old(h)@.stval, old(h)@.sepc),
        ).len() <= old(fw).replies@.len(),
    ensures
        wrote_exactly(
            *old(fw),
            *final(fw),
            diagnostic(None, trap_message(old(h)@.scause, old(h)@.stval, old(h)@.sepc)),
            r,
        ),
        final(h)@ == (HartView { mode: Mode::Halted, ..spec_trap_save(old(h)@) }),
{
    crate::hart::trap_save(h);
    let r = handle_trap(h, fw);
    match h.mode {
        Mode::Trapped => {
            crate::hart::trap_restore(h);
        },
        _ => {},
    }
    proof {
        assert(h@ =~= (HartView { mode: Mode::Halted, ..spec_trap_save(old(h)@) }));
    }
    r
}

/// The diagnostic the dispatcher emits for a trap carries the literal
/// hexadecimal renderings of the cause, the faulting value and the faulting
/// program counter, at fixed places in the line.
pub proof fn lemma_diagnostic_contains_renderings(scause: u32, stval: u32, sepc: u32)
    ensures
        ({
            let d = diagnostic(None, trap_message(scause, stval, sepc));
            &&& d.len() == 74
            &&& d.subrange(30, 40) == spec_hex_chars(scause)
            &&& d.subrange(47, 57) == spec_hex_chars(stval)
            &&& d.subrange(63, 73) == spec_hex_chars(sepc)
        }),
{
    reveal_strlit("PANIC: ");
    reveal_strlit("unexpected trap scause=");
    reveal_strlit(" stval=");
    reveal_strlit(" sepc=");
    reveal_strlit("\n");
    let d = diagnostic(None, trap_message(scause, stval, sepc));
    assert(d.subrange(30, 40) =~= spec_hex_chars(scause));
    assert(d.subrange(47, 57) =~= spec_hex_chars(stval));
    assert(d.subrange(63, 73) =~= spec_hex_chars(sepc));
}

} // verus!
