use chap8::{
    classify, unimplemented_panic, Computer, Countdown, Effect, Fault, KeyEvent, Opcode,
    PROGRAM_START, SCREEN_START,
};

fn blank() -> Computer {
    Computer::load_program(&[]).unwrap()
}

fn display(c: &Computer) -> Vec<u8> {
    c.ram[SCREEN_START..].to_vec()
}

#[test]
fn add_immediate_wraps_without_flag() {
    let mut c = blank();
    c.cpu.v[3] = 0x01;
    c.cpu.v[0xf] = 0x55;
    c.add_vx_byte(&[0x7, 0x3, 0xF, 0xF]);
    assert_eq!(c.cpu.v[3], 0x00);
    assert_eq!(c.cpu.v[0xf], 0x55);
}

#[test]
fn add_registers_sets_carry() {
    let mut c = blank();
    c.cpu.v[1] = 0xFF;
    c.cpu.v[2] = 0x02;
    c.add_vx_vy(&[0x8, 0x1, 0x2, 0x4]);
    assert_eq!(c.cpu.v[1], 0x01);
    assert_eq!(c.cpu.v[0xf], 1);
}

#[test]
fn add_registers_without_carry_clears_flag() {
    let mut c = blank();
    c.cpu.v[1] = 0x10;
    c.cpu.v[2] = 0x02;
    c.cpu.v[0xf] = 1;
    c.add_vx_vy(&[0x8, 0x1, 0x2, 0x4]);
    assert_eq!(c.cpu.v[1], 0x12);
    assert_eq!(c.cpu.v[0xf], 0);
}

#[test]
fn subtract_sets_not_borrow() {
    let mut c = blank();
    c.cpu.v[1] = 0x02;
    c.cpu.v[2] = 0x05;
    c.sub_vx_vy(&[0x8, 0x1, 0x2, 0x5]);
    assert_eq!(c.cpu.v[1], 0xFD);
    assert_eq!(c.cpu.v[0xf], 0);

    c.cpu.v[1] = 0x05;
    c.cpu.v[2] = 0x02;
    c.sub_vx_vy(&[0x8, 0x1, 0x2, 0x5]);
    assert_eq!(c.cpu.v[1], 0x03);
    assert_eq!(c.cpu.v[0xf], 1);
}

#[test]
fn subtract_negated() {
    let mut c = blank();
    c.cpu.v[1] = 0x05;
    c.cpu.v[2] = 0x02;
    c.subn_vx_vy(&[0x8, 0x1, 0x2, 0x7]);
    assert_eq!(c.cpu.v[1], 0xFD);
    assert_eq!(c.cpu.v[0xf], 0);
}

#[test]
fn shifts_set_raw_flag_bits() {
    let mut c = blank();
    c.cpu.v[4] = 0x81;
    c.shr_vx(&[0x8, 0x4, 0x0, 0x6]);
    assert_eq!(c.cpu.v[4], 0x40);
    assert_eq!(c.cpu.v[0xf], 1);

    c.cpu.v[4] = 0x81;
    c.shl_vx(&[0x8, 0x4, 0x0, 0xE]);
    assert_eq!(c.cpu.v[4], 0x02);
    assert_eq!(c.cpu.v[0xf], 0x80);
}

#[test]
fn logic_operations() {
    let mut c = blank();
    c.cpu.v[1] = 0b1100;
    c.cpu.v[2] = 0b1010;
    c.or_vx_vy(&[0x8, 0x1, 0x2, 0x1]);
    assert_eq!(c.cpu.v[1], 0b1110);
    c.and_vx_vy(&[0x8, 0x1, 0x2, 0x2]);
    assert_eq!(c.cpu.v[1], 0b1010);
    c.xor_vx_vy(&[0x8, 0x1, 0x2, 0x3]);
    assert_eq!(c.cpu.v[1], 0);
    c.ld_vx_vy(&[0x8, 0x1, 0x2, 0x0]);
    assert_eq!(c.cpu.v[1], 0b1010);
}

#[test]
fn draw_twice_collides_and_clears() {
    let mut c = blank();
    c.cpu.i = 0x300;
    c.ram[0x300] = 0xFF;
    c.drw_vx_vy_nibble(&[0xD, 0x0, 0x1, 0x1]);
    assert_eq!(c.cpu.v[0xf], 0);
    assert_eq!(c.ram[SCREEN_START], 0xFF);
    c.drw_vx_vy_nibble(&[0xD, 0x0, 0x1, 0x1]);
    assert_eq!(c.cpu.v[0xf], 1);
    assert!(display(&c).iter().all(|b| *b == 0));
}

#[test]
fn draw_splits_unaligned_row_and_wraps_column() {
    let mut c = blank();
    c.cpu.i = 0x300;
    c.ram[0x300] = 0xFF;
    c.cpu.v[0] = 60;
    c.cpu.v[1] = 2;
    c.drw_vx_vy_nibble(&[0xD, 0x0, 0x1, 0x1]);
    assert_eq!(c.ram[SCREEN_START + 16 + 7], 0x0F);
    assert_eq!(c.ram[SCREEN_START + 16], 0xF0);
}

#[test]
fn clear_display() {
    let mut c = blank();
    c.ram[SCREEN_START] = 0xAA;
    c.ram[4095] = 0x11;
    c.ram[SCREEN_START - 1] = 0x77;
    c.cls();
    assert!(display(&c).iter().all(|b| *b == 0));
    assert_eq!(c.ram[SCREEN_START - 1], 0x77);
}

#[test]
fn call_then_return_restores() {
    let mut c = blank();
    c.cpu.pc = 0x234;
    c.call_addr(&[0x2, 0x4, 0x5, 0x6]);
    assert_eq!(c.cpu.pc, 0x456);
    assert_eq!(c.cpu.sp, 1);
    assert_eq!(c.cpu.stack[0], 0x234);
    c.ret();
    assert_eq!(c.cpu.pc, 0x234);
    assert_eq!(c.cpu.sp, 0);
}

#[test]
fn call_and_return_through_step() {
    let mut c = Computer::load_program(&[0x22, 0x04, 0x00, 0x00, 0x00, 0xEE]).unwrap();
    assert_eq!(c.step(0), Ok(Effect::Continue));
    assert_eq!(c.cpu.pc, 0x204);
    assert_eq!(c.step(0), Ok(Effect::Continue));
    assert_eq!(c.cpu.pc, 0x202);
    assert_eq!(c.cpu.sp, 0);
}

#[test]
fn countdown_stays_at_zero() {
    let mut t = Countdown::new();
    for _ in 0..300 {
        t.tick();
    }
    assert_eq!(t.delay, 0);
    assert_eq!(t.sound, 0);
}

#[test]
fn countdown_counts_down() {
    let mut t = Countdown { delay: 2, sound: 1 };
    t.tick();
    assert_eq!((t.delay, t.sound), (1, 0));
    t.tick();
    assert_eq!((t.delay, t.sound), (0, 0));
}

#[test]
fn end_to_end_two_cycles() {
    let mut c = Computer::load_program(&[0xA2, 0x2A, 0x00, 0xE0]).unwrap();
    assert_eq!(c.cycle(), Ok(Effect::Continue));
    assert_eq!(c.cycle(), Ok(Effect::Continue));
    assert_eq!(c.cpu.i, 0x22A);
    assert!(display(&c).iter().all(|b| *b == 0));
    assert_eq!(c.cpu.pc, 0x204);
}

#[test]
fn load_places_glyphs_and_image() {
    let c = Computer::load_program(&[0x12, 0x34]).unwrap();
    assert_eq!(c.cpu.pc, PROGRAM_START);
    assert_eq!(&c.ram[0..5], &[0xF0, 0x90, 0x90, 0x90, 0xF0]);
    assert_eq!(&c.ram[75..80], &[0xF0, 0x80, 0xF0, 0x80, 0x80]);
    assert_eq!(c.ram[0x200], 0x12);
    assert_eq!(c.ram[0x201], 0x34);
    assert_eq!(c.ram[0x202], 0);
}

#[test]
fn load_refuses_oversized_image() {
    let fits = vec![0u8; SCREEN_START - 0x200];
    assert!(Computer::load_program(&fits).is_ok());
    let too_big = vec![0u8; SCREEN_START - 0x200 + 1];
    assert!(matches!(Computer::load_program(&too_big), Err(Fault::ImageTooLarge(n)) if n == too_big.len()));
}

#[test]
fn skips_advance_by_four() {
    let mut c = Computer::load_program(&[0x30, 0x00]).unwrap();
    assert_eq!(c.step(0), Ok(Effect::Continue));
    assert_eq!(c.cpu.pc, 0x204);

    let mut c = Computer::load_program(&[0x40, 0x00]).unwrap();
    assert_eq!(c.step(0), Ok(Effect::Continue));
    assert_eq!(c.cpu.pc, 0x202);
}

#[test]
fn register_skips() {
    let mut c = blank();
    c.cpu.v[1] = 7;
    c.cpu.v[2] = 7;
    c.se_vx_vy(&[0x5, 0x1, 0x2, 0x0]);
    assert_eq!(c.cpu.pc, 0x202);
    c.sne_vx_vy(&[0x9, 0x1, 0x2, 0x0]);
    assert_eq!(c.cpu.pc, 0x202);
    c.se_vx_byte(&[0x3, 0x1, 0x0, 0x7]);
    assert_eq!(c.cpu.pc, 0x204);
    c.sne_vx_byte(&[0x4, 0x1, 0x0, 0x8]);
    assert_eq!(c.cpu.pc, 0x206);
}

#[test]
fn jumps() {
    let mut c = blank();
    c.jmp_addr(&[0x1, 0xA, 0xB, 0xC]);
    assert_eq!(c.cpu.pc, 0xABC);
    c.cpu.v[0] = 0x10;
    c.jp_v0_addr(&[0xB, 0x3, 0x0, 0x0]);
    assert_eq!(c.cpu.pc, 0x310);
}

#[test]
fn address_register_operations() {
    let mut c = blank();
    c.ld_i_addr(&[0xA, 0x2, 0x2, 0xA]);
    assert_eq!(c.cpu.i, 0x22A);
    c.cpu.i = 0xFFFF;
    c.cpu.v[2] = 2;
    c.add_i_vx(&[0xF, 0x2, 0x1, 0xE]);
    assert_eq!(c.cpu.i, 1);
    c.cpu.v[2] = 0xA;
    c.lf_f_vx(&[0xF, 0x2, 0x2, 0x9]);
    assert_eq!(c.cpu.i, 50);
}

#[test]
fn decimal_digits() {
    let mut c = blank();
    c.cpu.i = 0x300;
    c.cpu.v[5] = 234;
    c.ls_b_vx(&[0xF, 0x5, 0x3, 0x3]);
    assert_eq!(&c.ram[0x300..0x303], &[2, 3, 4]);
}

#[test]
fn register_block_copies() {
    let mut c = blank();
    c.cpu.i = 0x300;
    c.cpu.v[0] = 9;
    c.cpu.v[1] = 8;
    c.cpu.v[2] = 7;
    c.ld_i_vx(&[0xF, 0x1, 0x5, 0x5]);
    assert_eq!(&c.ram[0x300..0x303], &[9, 8, 0]);
    c.ram[0x302] = 5;
    c.cpu.v[0] = 0;
    c.cpu.v[1] = 0;
    c.ld_vx_i(&[0xF, 0x2, 0x6, 0x5]);
    assert_eq!(&c.cpu.v[0..4], &[9, 8, 5, 0]);
}

#[test]
fn timer_registers() {
    let mut c = blank();
    c.cpu.v[3] = 42;
    c.ld_dt_vx(&[0xF, 0x3, 0x1, 0x5]);
    assert_eq!(c.cpu.dt, 42);
    c.ld_st_vx(&[0xF, 0x3, 0x1, 0x8]);
    assert_eq!(c.cpu.st, 42);
    assert!(c.tone_active());
    c.cpu.dt = 17;
    c.ld_vx_dt(&[0xF, 0x4, 0x0, 0x7]);
    assert_eq!(c.cpu.v[4], 17);
}

#[test]
fn step_reports_timer_and_draw_effects() {
    let mut c = Computer::load_program(&[0x63, 0x2A, 0xF3, 0x15, 0xF3, 0x18, 0xD0, 0x01]).unwrap();
    assert_eq!(c.step(0), Ok(Effect::Continue));
    assert_eq!(c.step(0), Ok(Effect::DelaySet(0x2A)));
    assert_eq!(c.step(0), Ok(Effect::SoundSet(0x2A)));
    assert_eq!(c.step(0), Ok(Effect::Redraw));
    assert_eq!(c.cpu.pc, 0x208);
}

#[test]
fn wait_for_key() {
    let mut c = Computer::load_program(&[0xF7, 0x0A]).unwrap();
    assert_eq!(c.step(0), Ok(Effect::AwaitKey(7)));
    assert_eq!(c.cpu.pc, 0x202);
    c.ld_vx_k(7, 0xC);
    assert_eq!(c.cpu.v[7], 0xC);
}

#[test]
fn key_events() {
    let mut c = blank();
    assert_eq!(c.handle_key_event(KeyEvent::Down(5)), Some(5));
    assert!(c.keyboard[5]);
    c.cpu.v[1] = 5;
    c.skp_vx(&[0xE, 0x1, 0x9, 0xE]);
    assert_eq!(c.cpu.pc, 0x202);
    assert_eq!(c.handle_key_event(KeyEvent::Up(5)), Some(5));
    assert!(!c.keyboard[5]);
    c.sknp_vx(&[0xE, 0x1, 0xA, 0x1]);
    assert_eq!(c.cpu.pc, 0x204);
    assert_eq!(c.handle_key_event(KeyEvent::Down(16)), None);
    assert_eq!(c.handle_key_event(KeyEvent::Quit), None);
    assert_eq!(c.handle_key_event(KeyEvent::Other), None);
}

#[test]
fn random_load_is_masked() {
    let mut c = blank();
    c.rnd_vx_byte_with(&[0xC, 0x2, 0x0, 0xF], 0xAB);
    assert_eq!(c.cpu.v[2], 0x0B);
    c.cpu.v[3] = 0x77;
    c.rnd_vx_byte(&[0xC, 0x3, 0x0, 0x0]);
    assert_eq!(c.cpu.v[3], 0);
    c.rnd_vx_byte(&[0xC, 0x3, 0x0, 0xF]);
    assert!(c.cpu.v[3] <= 0x0F);
}

#[test]
fn unknown_instruction_faults() {
    let mut c = Computer::load_program(&[0x81, 0x2F]).unwrap();
    assert_eq!(c.step(0), Err(Fault::Unimplemented(0x812F)));
    assert_eq!(c.cpu.pc, 0x200);
    assert_eq!(classify(&[0x0, 0x1, 0x2, 0x3]), Opcode::Unknown);
    assert_eq!(classify(&[0x5, 0x1, 0x2, 0x1]), Opcode::Unknown);
    assert_eq!(classify(&[0x9, 0x1, 0x2, 0x0]), Opcode::SneVxVy);
}

#[test]
fn stack_faults() {
    let mut c = Computer::load_program(&[0x00, 0xEE]).unwrap();
    assert_eq!(c.step(0), Err(Fault::StackUnderflow(0x00EE)));

    let mut c = Computer::load_program(&[0x22, 0x00]).unwrap();
    for _ in 0..15 {
        assert_eq!(c.step(0), Ok(Effect::Continue));
    }
    assert_eq!(c.cpu.sp, 15);
    assert_eq!(c.step(0), Err(Fault::StackOverflow(0x2200)));
}

#[test]
fn out_of_bounds_faults() {
    let mut c = Computer::load_program(&[0xD0, 0x11]).unwrap();
    c.cpu.v[1] = 40;
    assert_eq!(c.step(0), Err(Fault::OutOfBounds(0xD011)));

    let mut c = Computer::load_program(&[0xE1, 0x9E]).unwrap();
    c.cpu.v[1] = 16;
    assert_eq!(c.step(0), Err(Fault::OutOfBounds(0xE19E)));

    let mut c = Computer::load_program(&[0xF2, 0x55]).unwrap();
    c.cpu.i = 4094;
    assert_eq!(c.step(0), Err(Fault::OutOfBounds(0xF255)));

    let mut c = Computer::load_program(&[0xF2, 0x33]).unwrap();
    c.cpu.i = 4094;
    assert_eq!(c.step(0), Err(Fault::OutOfBounds(0xF233)));

    let mut c = blank();
    c.cpu.pc = 4095;
    assert_eq!(c.step(0), Err(Fault::PcOutOfRange(4095)));
}

#[test]
fn fault_messages() {
    assert_eq!(unimplemented_panic(&[0x8, 0x1, 0x2, 0xF]), "unimplemented instruction: 812f");
    assert_eq!(Fault::Unimplemented(0x812F).message(), "unimplemented instruction: 812f");
    assert_eq!(Fault::StackOverflow(0x2200).message(), "call with a full stack: 2200");
    assert_eq!(Fault::PcOutOfRange(0xFFF).message(), "program counter outside memory: 0fff");
    assert_eq!(Fault::ImageTooLarge(5000).message(), "program image too large");
}

#[test]
fn default_is_all_zero() {
    let c = Computer::default();
    assert_eq!(c.cpu.pc, 0);
    assert!(c.ram.iter().all(|b| *b == 0));
    assert!(!c.tone_active());
}
