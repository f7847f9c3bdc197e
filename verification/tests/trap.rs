use boot_core::dispatch::{handle_trap, kernel_entry, panic_report};
use boot_core::frame::{TrapFrame, FRAME_WORDS};
use boot_core::hart::{
    boot, halted_step, install_trap_vector, kernel_main, take_trap, trap_restore, trap_save, Hart,
    Mode,
};
use boot_core::sbi::Firmware;

fn regs_with(seed: u32, sp: u32) -> TrapFrame {
    TrapFrame {
        ra: seed,
        gp: seed + 1,
        tp: seed + 2,
        t0: seed + 3,
        t1: seed + 4,
        t2: seed + 5,
        t3: seed + 6,
        t4: seed + 7,
        t5: seed + 8,
        t6: seed + 9,
        a0: seed + 10,
        a1: seed + 11,
        a2: seed + 12,
        a3: seed + 13,
        a4: seed + 14,
        a5: seed + 15,
        a6: seed + 16,
        a7: seed + 17,
        s0: seed + 18,
        s1: seed + 19,
        s2: seed + 20,
        s3: seed + 21,
        s4: seed + 22,
        s5: seed + 23,
        s6: seed + 24,
        s7: seed + 25,
        s8: seed + 26,
        s9: seed + 27,
        s10: seed + 28,
        s11: seed + 29,
        sp,
    }
}

fn hart_with(regs: TrapFrame, stack_words: usize) -> Hart {
    Hart {
        regs,
        pc: 0x4000,
        stvec: 0x1000,
        sscratch: 0,
        scause: 0,
        stval: 0,
        sepc: 0,
        stack: vec![0xaaaa_aaaa; stack_words],
        bss: vec![0xff; 32],
        mode: Mode::Running,
    }
}

fn console_text(fw: &Firmware) -> String {
    fw.calls
        .iter()
        .map(|c| char::from_u32(c.arg0 as u32).unwrap())
        .collect()
}

#[test]
fn save_then_restore_is_the_identity_on_the_register_set() {
    let pre = regs_with(1000, 40);
    let mut h = hart_with(pre, 64);
    let pre_pc = h.pc;
    take_trap(&mut h, 2, 0x77);
    assert_eq!(h.mode, Mode::Trapped);
    assert_eq!(h.sscratch, 40);
    let base = trap_save(&mut h);
    assert_eq!(base, 40 - FRAME_WORDS);
    assert_eq!(h.regs.sp, (40 - FRAME_WORDS) as u32);
    // the dispatcher reads the frame but never writes it; skip straight
    // to the simulated return from trap
    trap_restore(&mut h);
    assert_eq!(h.regs, pre, "a register was not restored to its pre-trap value");
    assert_eq!(h.pc, pre_pc, "execution did not resume at the interrupted instruction");
    assert_eq!(h.mode, Mode::Running);
}

#[test]
fn frame_slots_hold_the_fixed_layout() {
    let pre = regs_with(2000, 36);
    let mut h = hart_with(pre, 64);
    take_trap(&mut h, 5, 0);
    let base = trap_save(&mut h);
    assert_eq!(h.stack[base], pre.ra);
    assert_eq!(h.stack[base + 1], pre.gp);
    assert_eq!(h.stack[base + 2], pre.tp);
    assert_eq!(h.stack[base + 10], pre.a0);
    assert_eq!(h.stack[base + 29], pre.s11);
    assert_eq!(h.stack[base + 30], pre.sp, "the designated slot must hold the interrupted sp");
}

#[test]
fn two_round_trips_do_not_leak_state_between_invocations() {
    let r1 = regs_with(5000, 62);
    let r2 = regs_with(9000, 45);
    let mut h = hart_with(r1, 64);
    take_trap(&mut h, 1, 0);
    trap_save(&mut h);
    trap_restore(&mut h);
    assert_eq!(h.regs, r1);
    // second trap with a completely different pre-trap register set
    h.regs = r2;
    take_trap(&mut h, 3, 9);
    let base2 = trap_save(&mut h);
    assert_eq!(base2, 45 - FRAME_WORDS, "frame must sit below the then-current stack top");
    trap_restore(&mut h);
    assert_eq!(h.regs, r2, "state leaked from the first trap into the second");
}

#[test]
fn dispatcher_diagnostic_and_halt() {
    let mut h = hart_with(regs_with(100, 60), 64);
    let mut fw = Firmware::new(vec![(0, 0); 100]);
    take_trap(&mut h, 2, 0xdead_beef);
    h.sepc = 0x8020_0046;
    let stack_before = h.stack.clone();
    let regs_before = h.regs;
    let r = handle_trap(&mut h, &mut fw);
    assert_eq!(r, Ok(()));
    assert_eq!(h.mode, Mode::Halted);
    assert_eq!(h.stack, stack_before, "the dispatcher must not write the stack");
    assert_eq!(h.regs, regs_before);
    assert_eq!(
        console_text(&fw),
        "PANIC: unexpected trap scause=0x00000002 stval=0xdeadbeef sepc=0x80200046\n"
    );
    // an infinite halt follows: no further firmware call, ever
    let calls_after_diag = fw.calls.len();
    halted_step(&mut h, &mut fw);
    halted_step(&mut h, &mut fw);
    assert_eq!(fw.calls.len(), calls_after_diag);
    assert_eq!(h.mode, Mode::Halted);
}

#[test]
fn kernel_entry_saves_the_frame_then_halts_fatally() {
    let pre = regs_with(4242, 50);
    let mut h = hart_with(pre, 64);
    let mut fw = Firmware::new(vec![(0, 0); 100]);
    take_trap(&mut h, 12, 0x10);
    let r = kernel_entry(&mut h, &mut fw);
    assert_eq!(r, Ok(()));
    assert_eq!(h.mode, Mode::Halted);
    let base = (50 - FRAME_WORDS) as usize;
    assert_eq!(h.stack[base], pre.ra);
    assert_eq!(h.stack[base + 30], pre.sp);
    let text = console_text(&fw);
    assert!(text.contains("0x0000000c"), "cause rendering missing: {text}");
}

#[test]
fn panic_reporter_formats_the_location() {
    let mut h = hart_with(regs_with(0, 60), 64);
    let mut fw = Firmware::new(vec![(0, 0); 100]);
    let msg: Vec<char> = "boom".chars().collect();
    let r = panic_report(&mut h, &mut fw, Some(("main.rs", 42)), &msg);
    assert_eq!(r, Ok(()));
    assert_eq!(console_text(&fw), "PANIC: main.rs:42: boom\n");
    assert_eq!(h.mode, Mode::Halted);
}

#[test]
fn panic_reporter_without_location() {
    let mut h = hart_with(regs_with(0, 60), 64);
    let mut fw = Firmware::new(vec![(0, 0); 100]);
    let msg: Vec<char> = "oops".chars().collect();
    let _ = panic_report(&mut h, &mut fw, None, &msg);
    assert_eq!(console_text(&fw), "PANIC: oops\n");
}

#[test]
fn boot_and_kernel_main_initialize_the_hart() {
    let mut h = hart_with(regs_with(0, 0), 64);
    boot(&mut h, 64);
    assert_eq!(h.regs.sp, 64);
    kernel_main(&mut h, 8, 24, 0x2000);
    for i in 8..24 {
        assert_eq!(h.bss[i], 0, "static storage byte not zeroed");
    }
    for i in (0..8).chain(24..32) {
        assert_eq!(h.bss[i], 0xff, "byte outside the region changed");
    }
    assert_eq!(h.stvec, 0x2000);
    assert_eq!(h.mode, Mode::Running);
}

#[test]
fn install_trap_vector_writes_only_the_vector_register() {
    let mut h = hart_with(regs_with(77, 10), 16);
    let pc = h.pc;
    install_trap_vector(&mut h, 0xbeef);
    assert_eq!(h.stvec, 0xbeef);
    assert_eq!(h.pc, pc);
}
