//! The hart model: one hardware execution context, with its register file,
//! control registers, stack words, static storage bytes and execution mode.
//! The hardware-forced parts of a trap (the control transfer) and the
//! software save/restore protocol are explicit transitions with exact
//! contracts, so the ordering-sensitive register protocol is checked rather
//! than inspected.

use vstd::prelude::*;
use crate::frame::{frame_words, regs_of_words, TrapFrame, FRAME_WORDS};
use crate::mem::zero_bss;

verus! {

/// Execution mode of the hart. `Running` is normal execution; `Trapped`
/// means a trap was taken and traps are disabled; `Fatal` means the
/// dispatcher has classified the trap as unrecoverable; `Halted` is the
/// terminal idle state that nothing leaves.
#[derive(Clone, Copy, Debug, PartialEq, Eq, Structural)]
pub enum Mode {
    Running,
    Trapped,
    Fatal,
    Halted,
}

/// One hart: register file, program counter, trap control registers, stack
/// memory (word-addressed, the stack pointer is a word index and the stack
/// grows downward), static storage bytes, and execution mode.
pub struct Hart {
    pub regs: TrapFrame,
    pub pc: u32,
    pub stvec: u32,
    pub sscratch: u32,
    pub scause: u32,
    pub stval: u32,
    pub sepc: u32,
    pub stack: Vec<u32>,
    pub bss: Vec<u8>,
    pub mode: Mode,
}

/// The mathematical state of a hart.
#[verifier::ext_equal]
pub struct HartView {
    pub regs: TrapFrame,
    pub pc: u32,
    pub stvec: u32,
    pub sscratch: u32,
    pub scause: u32,
    pub stval: u32,
    pub sepc: u32,
    pub stack: Seq<u32>,
    pub bss: Seq<u8>,
    pub mode: Mode,
}

impl View for Hart {
    type V = HartView;

    open spec fn view(&self) -> HartView {
        HartView {
            regs: self.regs,
            pc: self.pc,
            stvec: self.stvec,
            sscratch: self.sscratch,
            scause: self.scause,
            stval: self.stval,
            sepc: self.sepc,
            stack: self.stack@,
            bss: self.bss@,
            mode: self.mode,
        }
    }
}

/// `s` with the words `ws` written at positions `[base, base + ws.len())`
/// and every other position unchanged.
pub open spec fn store_words(s: Seq<u32>, base: int, ws: Seq<u32>) -> Seq<u32> {
    Seq::new(
        s.len(),
        |i: int| if base <= i < base + ws.len() { ws[i - base] } else { s[i] },
    )
}

/// The hardware half of trap entry: traps are disabled, the interrupted
/// program counter is preserved in `sepc`, the interrupted stack pointer is
/// left intact in the scratch slot, the cause and faulting value are
/// latched, and control transfers to the installed trap vector.
pub open spec fn spec_take_trap(h: HartView, cause: u32, tval: u32) -> HartView {
    HartView {
        sscratch: h.regs.sp,
        scause: cause,
        stval: tval,
        sepc: h.pc,
        pc: h.stvec,
        mode: Mode::Trapped,
        ..h
    }
}

/// The software save half of the entry protocol: allocate a frame by moving
/// the stack pointer down [`FRAME_WORDS`] words, store all 31 registers at
/// their fixed offsets — the preserved interrupted stack pointer, taken from
/// the scratch slot, in the designated last slot — and pass the frame's
/// address (the new stack top) to the dispatcher in `a0`.
pub open spec fn spec_trap_save(h: HartView) -> HartView {
    let base = h.regs.sp - FRAME_WORDS;
    let saved = TrapFrame { sp: h.sscratch, ..h.regs };
    HartView {
        regs: TrapFrame { sp: base as u32, a0: base as u32, ..h.regs },
        stack: store_words(h.stack, base, frame_words(saved)),
        ..h
    }
}

/// The restore half of the exit protocol: reload every register from its
/// fixed offset in the frame at the current stack top — the stack pointer
/// last, from the designated slot — then return from the trap: control goes
/// back to the preserved program counter and traps are re-enabled.
pub open spec fn spec_trap_restore(h: HartView) -> HartView {
    let base = h.regs.sp as int;
    let r = regs_of_words(h.stack.subrange(base, base + FRAME_WORDS));
    HartView { regs: r, pc: h.sepc, mode: Mode::Running, ..h }
}

/// A full trap round trip in which the dispatcher mutates nothing: hardware
/// entry, register save, register restore, return from trap.
pub open spec fn spec_trap_round_trip(h: HartView, cause: u32, tval: u32) -> HartView {
    spec_trap_restore(spec_trap_save(spec_take_trap(h, cause, tval)))
}

/// `h` with its register file replaced.
pub open spec fn with_regs(h: HartView, r: TrapFrame) -> HartView {
    HartView { regs: r, ..h }
}

/// The save sequence has room for one frame below the current stack top.
pub open spec fn frame_fits(h: HartView) -> bool {
    &&& FRAME_WORDS <= h.regs.sp
    &&& h.regs.sp as int <= h.stack.len()
}

/// Save-then-restore is the identity on the register set and the program
/// counter: for arbitrary live register values at the moment of a trap, a
/// round trip through the entry/exit protocol — with no intervening mutation
/// by the dispatcher — restores every register and resumes at the
/// interrupted instruction, with the stack no longer holding live state.
pub proof fn lemma_trap_round_trip(h: HartView, cause: u32, tval: u32)
    requires
        h.mode == Mode::Running,
        frame_fits(h),
    ensures
        spec_trap_round_trip(h, cause, tval).regs == h.regs,
        spec_trap_round_trip(h, cause, tval).pc == h.pc,
        spec_trap_round_trip(h, cause, tval).mode == Mode::Running,
        spec_trap_round_trip(h, cause, tval).stack.len() == h.stack.len(),
{
    let taken = spec_take_trap(h, cause, tval);
    let saved_regs = TrapFrame { sp: h.regs.sp, ..h.regs };
    let after_save = spec_trap_save(taken);
    let base = h.regs.sp - FRAME_WORDS;
    assert(saved_regs == h.regs);
    assert(after_save.stack.subrange(base, base + FRAME_WORDS) =~= frame_words(saved_regs));
    crate::frame::lemma_frame_round_trip(saved_regs);
}

/// Two trap round trips in succession, with two different pre-trap register
/// sets, do not leak state from the first into the second: each round trip
/// restores exactly its own register set, and each frame is allocated just
/// below its own then-current stack top.
pub proof fn lemma_reentry_no_leak(
    h: HartView,
    r1: TrapFrame,
    r2: TrapFrame,
    c1: u32,
    t1: u32,
    c2: u32,
    t2: u32,
)
    requires
        h.mode == Mode::Running,
        frame_fits(with_regs(h, r1)),
        FRAME_WORDS <= r2.sp,
        r2.sp as int <= h.stack.len(),
    ensures
        spec_trap_round_trip(with_regs(h, r1), c1, t1).regs == r1,
        ({
            let h1 = spec_trap_round_trip(with_regs(h, r1), c1, t1);
            spec_trap_round_trip(with_regs(h1, r2), c2, t2).regs == r2
        }),
        spec_trap_save(spec_take_trap(with_regs(h, r1), c1, t1)).regs.sp == r1.sp - FRAME_WORDS,
        ({
            let h1 = spec_trap_round_trip(with_regs(h, r1), c1, t1);
            spec_trap_save(spec_take_trap(with_regs(h1, r2), c2, t2)).regs.sp == r2.sp
                - FRAME_WORDS
        }),
{
    lemma_trap_round_trip(with_regs(h, r1), c1, t1);
    let h1 = spec_trap_round_trip(with_regs(h, r1), c1, t1);
    lemma_trap_round_trip(with_regs(h1, r2), c2, t2);
}

/// Hardware trap transfer: latches cause, faulting value and interrupted
/// program counter, preserves the interrupted stack pointer in the scratch
/// slot, disables traps and jumps to the installed vector.
pub fn take_trap(h: &mut Hart, cause: u32, tval: u32)
    requires
        old(h)@.mode == Mode::Running,
    ensures
        final(h)@ == spec_take_trap(old(h)@, cause, tval),
{
    h.sscratch = h.regs.sp;
    h.scause = cause;
    h.stval = tval;
    h.sepc = h.pc;
    h.pc = h.stvec;
    h.mode = Mode::Trapped;
    proof {
        assert(h@ =~= spec_take_trap(old(h)@, cause, tval));
    }
}

/// The entry save sequence: allocates the frame below the interrupted stack
/// top, stores each of the 31 registers at its fixed offset — the preserved
/// interrupted stack pointer from the scratch slot in slot 30 — and leaves
/// the frame's address in the stack pointer and in `a0`, the dispatcher's
/// sole argument. Returns the frame's base.
pub fn trap_save(h: &mut Hart) -> (base: usize)
    requires
        old(h)@.mode == Mode::Trapped,
        frame_fits(old(h)@),
    ensures
        final(h)@ == spec_trap_save(old(h)@),
        base == old(h)@.regs.sp - FRAME_WORDS,
{
    let sp = h.regs.sp;
    proof {
        // the frame's slots lie within the stack vector, whose length fits usize
        assert(sp as int <= h.stack.len());
    }
    let base = (sp as usize) - FRAME_WORDS;
    h.stack.set(base + 0, h.regs.ra);
    h.stack.set(base + 1, h.regs.gp);
    h.stack.set(base + 2, h.regs.tp);
    h.stack.set(base + 3, h.regs.t0);
    h.stack.set(base + 4, h.regs.t1);
    h.stack.set(base + 5, h.regs.t2);
    h.stack.set(base + 6, h.regs.t3);
    h.stack.set(base + 7, h.regs.t4);
    h.stack.set(base + 8, h.regs.t5);
    h.stack.set(base + 9, h.regs.t6);
    h.stack.set(base + 10, h.regs.a0);
    h.stack.set(base + 11, h.regs.a1);
    h.stack.set(base + 12, h.regs.a2);
    h.stack.set(base + 13, h.regs.a3);
    h.stack.set(base + 14, h.regs.a4);
    h.stack.set(base + 15, h.regs.a5);
    h.stack.set(base + 16, h.regs.a6);
    h.stack.set(base + 17, h.regs.a7);
    h.stack.set(base + 18, h.regs.s0);
    h.stack.set(base + 19, h.regs.s1);
    h.stack.set(base + 20, h.regs.s2);
    h.stack.set(base + 21, h.regs.s3);
    h.stack.set(base + 22, h.regs.s4);
    h.stack.set(base + 23, h.regs.s5);
    h.stack.set(base + 24, h.regs.s6);
    h.stack.set(base + 25, h.regs.s7);
    h.stack.set(base + 26, h.regs.s8);
    h.stack.set(base + 27, h.regs.s9);
    h.stack.set(base + 28, h.regs.s10);
    h.stack.set(base + 29, h.regs.s11);
    h.stack.set(base + 30, h.sscratch);
    h.regs.sp = sp - FRAME_WORDS as u32;
    h.regs.a0 = sp - FRAME_WORDS as u32;
    proof {
        let saved = TrapFrame { sp: old(h)@.sscratch, ..old(h)@.regs };
        assert(h.stack@ =~= store_words(old(h)@.stack, base as int, frame_words(saved)));
        assert(h@ =~= spec_trap_save(old(h)@));
    }
    base
}

/// The exit restore sequence: reloads every register from its fixed offset
/// in the frame at the current stack top, the stack pointer last, then
/// returns from the trap — execution resumes at the preserved program
/// counter with traps re-enabled.
pub fn trap_restore(h: &mut Hart)
    requires
        old(h)@.mode == Mode::Trapped,
        old(h)@.regs.sp as int + FRAME_WORDS <= old(h)@.stack.len(),
    ensures
        final(h)@ == spec_trap_restore(old(h)@),
{
    proof {
        // the frame's slots lie within the stack vector, whose length fits usize
        assert(h.regs.sp as int + FRAME_WORDS <= h.stack.len());
    }
    let base = h.regs.sp as usize;
    let r = TrapFrame {
        ra: h.stack[base + 0],
        gp: h.stack[base + 1],
        tp: h.stack[base + 2],
        t0: h.stack[base + 3],
        t1: h.stack[base + 4],
        t2: h.stack[base + 5],
        t3: h.stack[base + 6],
        t4: h.stack[base + 7],
        t5: h.stack[base + 8],
        t6: h.stack[base + 9],
        a0: h.stack[base + 10],
        a1: h.stack[base + 11],
        a2: h.stack[base + 12],
        a3: h.stack[base + 13],
        a4: h.stack[base + 14],
        a5: h.stack[base + 15],
        a6: h.stack[base + 16],
        a7: h.stack[base + 17],
        s0: h.stack[base + 18],
        s1: h.stack[base + 19],
        s2: h.stack[base + 20],
        s3: h.stack[base + 21],
        s4: h.stack[base + 22],
        s5: h.stack[base + 23],
        s6: h.stack[base + 24],
        s7: h.stack[base + 25],
        s8: h.stack[base + 26],
        s9: h.stack[base + 27],
        s10: h.stack[base + 28],
        s11: h.stack[base + 29],
        sp: h.stack[base + 30],
    };
    h.regs = r;
    h.pc = h.sepc;
    h.mode = Mode::Running;
    proof {
        assert(h@.regs == regs_of_words(
            old(h)@.stack.subrange(base as int, base as int + FRAME_WORDS),
        ));
        assert(h@ =~= spec_trap_restore(old(h)@));
    }
}

/// The trap vector installer: writes the entry address into the trap vector
/// control register and changes nothing else. Must run before any trap this
/// handler is meant to catch.
pub fn install_trap_vector(h: &mut Hart, addr: u32)
    ensures
        final(h)@ == (HartView { stvec: addr, ..old(h)@ }),
{
    h.stvec = addr;
    proof {
        assert(h@ =~= (HartView { stvec: addr, ..old(h)@ }));
    }
}

/// The boot trampoline: points the stack pointer at the externally supplied
/// top of stack. Everything that follows runs on this one stack; control
/// then moves on to the main entry sequence and never returns here.
pub fn boot(h: &mut Hart, stack_top: u32)
    requires
        old(h)@.mode == Mode::Running,
        stack_top as int <= old(h)@.stack.len(),
    ensures
        final(h)@ == with_regs(old(h)@, TrapFrame { sp: stack_top, ..old(h)@.regs }),
{
    h.regs.sp = stack_top;
    proof {
        assert(h@ =~= with_regs(old(h)@, TrapFrame { sp: stack_top, ..old(h)@.regs }));
    }
}

/// The main entry sequence: zeroes the static storage region `[bss_start,
/// bss_end)` before any global state is read, then installs the trap vector.
/// Registers, stack, program counter and mode are untouched.
pub fn kernel_main(h: &mut Hart, bss_start: usize, bss_end: usize, trap_vector: u32)
    requires
        old(h)@.mode == Mode::Running,
        bss_start <= bss_end <= old(h)@.bss.len(),
    ensures
        final(h)@.bss.len() == old(h)@.bss.len(),
        forall|i: int| bss_start <= i < bss_end ==> final(h)@.bss[i] == 0,
        forall|i: int|
            0 <= i < old(h)@.bss.len() && !(bss_start <= i < bss_end) ==> final(h)@.bss[i] == old(
                h,
            )@.bss[i],
        final(h)@.stvec == trap_vector,
        final(h)@ == (HartView { bss: final(h)@.bss, stvec: trap_vector, ..old(h)@ }),
{
    zero_bss(&mut h.bss, bss_start, bss_end);
    install_trap_vector(h, trap_vector);
    proof {
        assert(h@ =~= (HartView { bss: h@.bss, stvec: trap_vector, ..old(h)@ }));
    }
}

/// One step of the terminal idle loop. A halted hart makes no firmware call
/// and changes no state, ever: the halt is observable as a self-loop.
pub fn halted_step(h: &mut Hart, fw: &mut crate::sbi::Firmware)
    requires
        old(h)@.mode == Mode::Halted,
    ensures
        final(h)@ == old(h)@,
        final(fw).replies == old(fw).replies,
        final(fw).next == old(fw).next,
        final(fw).calls@ == old(fw).calls@,
{
    proof {
        assert(h@ =~= old(h)@);
    }
}

} // verus!
