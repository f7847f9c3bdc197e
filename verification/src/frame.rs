//! The register frame: a fixed-layout snapshot of the 31 general-purpose
//! registers saved at trap entry (every register except the program counter;
//! the interrupted stack pointer sits in the designated last slot). The
//! layout is given once, as [`frame_words`], and the restore direction
//! [`regs_of_words`] reads exactly the same offsets, so the two directions
//! cannot drift apart.

use vstd::prelude::*;

verus! {

/// The 31 general-purpose registers of the interrupted context. `sp` is the
/// interrupted stack pointer, preserved through the hardware scratch slot at
/// trap entry; in this model register values are 32-bit integers and stack
/// addresses are word indices.
#[derive(Clone, Copy, Debug, PartialEq, Eq, Structural)]
pub struct TrapFrame {
    pub ra: u32,
    pub gp: u32,
    pub tp: u32,
    pub t0: u32,
    pub t1: u32,
    pub t2: u32,
    pub t3: u32,
    pub t4: u32,
    pub t5: u32,
    pub t6: u32,
    pub a0: u32,
    pub a1: u32,
    pub a2: u32,
    pub a3: u32,
    pub a4: u32,
    pub a5: u32,
    pub a6: u32,
    pub a7: u32,
    pub s0: u32,
    pub s1: u32,
    pub s2: u32,
    pub s3: u32,
    pub s4: u32,
    pub s5: u32,
    pub s6: u32,
    pub s7: u32,
    pub s8: u32,
    pub s9: u32,
    pub s10: u32,
    pub s11: u32,
    pub sp: u32,
}

/// Number of words in one register frame.
pub const FRAME_WORDS: usize = 31;

/// The save layout: each register at its fixed word offset within the frame,
/// `ra` at offset 0 through `s11` at offset 29, with the preserved
/// interrupted stack pointer in the designated slot 30.
pub open spec fn frame_words(r: TrapFrame) -> Seq<u32> {
    seq![
        r.ra, r.gp, r.tp, r.t0, r.t1, r.t2, r.t3, r.t4, r.t5, r.t6, r.a0, r.a1, r.a2, r.a3, r.a4,
        r.a5, r.a6, r.a7, r.s0, r.s1, r.s2, r.s3, r.s4, r.s5, r.s6, r.s7, r.s8, r.s9, r.s10,
        r.s11, r.sp,
    ]
}

/// The restore layout: reads each register back from the same fixed offset
/// the save direction wrote it to.
pub open spec fn regs_of_words(w: Seq<u32>) -> TrapFrame {
    TrapFrame {
        ra: w[0],
        gp: w[1],
        tp: w[2],
        t0: w[3],
        t1: w[4],
        t2: w[5],
        t3: w[6],
        t4: w[7],
        t5: w[8],
        t6: w[9],
        a0: w[10],
        a1: w[11],
        a2: w[12],
        a3: w[13],
        a4: w[14],
        a5: w[15],
        a6: w[16],
        a7: w[17],
        s0: w[18],
        s1: w[19],
        s2: w[20],
        s3: w[21],
        s4: w[22],
        s5: w[23],
        s6: w[24],
        s7: w[25],
        s8: w[26],
        s9: w[27],
        s10: w[28],
        s11: w[29],
        sp: w[30],
    }
}

/// Saving a register set into its frame layout and reading it back is the
/// identity on the register set: the restore sequence recovers every
/// register, with no omission and no mix-up of offsets.
pub proof fn lemma_frame_round_trip(r: TrapFrame)
    ensures
        regs_of_words(frame_words(r)) == r,
{
}

} // verus!
