//! Behavior of the fetch-decode-execute cycle, the opcode handlers and
//! the error conditions, exercised on concrete machines.
use chip8::chip8::{Chip8, Chip8Error};

fn exec(c: &mut Chip8, op: u16) {
    c.decode_execute(op).expect("instruction should succeed");
}

#[test]
fn boot_state_is_zeroed() {
    let c = Chip8::new();
    assert_eq!(c.pc, 0x200);
    assert_eq!(c.i_register, 0);
    assert_eq!(c.stack.len(), 0);
    assert_eq!(c.delay_timer, 0);
    assert_eq!(c.sound_timer, 0);
    assert!(c.v_registers.iter().all(|&v| v == 0));
    assert!(c.screen.iter().all(|&p| !p));
    assert!(!c.needs_redraw);
    assert!(c.keyboard.iter().all(|&k| !k));
    assert_eq!(c.awaiting_key, None);
}

#[test]
fn boot_state_holds_font_table() {
    let c = Chip8::new();
    // Glyph 0 starts at the conventional font base address.
    assert_eq!(&c.ram[0x50..0x55], &[0xF0, 0x90, 0x90, 0x90, 0xF0]);
    // Glyph F is the last one.
    assert_eq!(&c.ram[0x9B..0xA0], &[0xF0, 0x80, 0xF0, 0x80, 0x80]);
    // Outside the font table the memory is zero.
    assert!(c.ram[..0x50].iter().all(|&b| b == 0));
    assert!(c.ram[0xA0..].iter().all(|&b| b == 0));
}

#[test]
fn start_copies_rom_into_program_region() {
    let rom = vec![0x60, 0x2A, 0x61, 0x0B];
    let c = Chip8::start(rom.clone());
    assert_eq!(&c.ram[0x200..0x204], rom.as_slice());
    assert_eq!(c.pc, 0x200);
}

#[test]
fn fetch_combines_big_endian_and_advances_pc() {
    let mut c = Chip8::start(vec![0x6A, 0xBC]);
    let word = c.fetch().expect("fetch inside memory succeeds");
    assert_eq!(word, 0x6ABC);
    assert_eq!(c.pc, 0x202);
}

#[test]
fn fetch_out_of_bounds_is_an_error() {
    let mut c = Chip8::new();
    c.pc = 4095;
    assert_eq!(c.fetch(), Err(Chip8Error::FetchOutOfBounds));
    assert_eq!(c.pc, 4095);
}

#[test]
fn tick_out_of_bounds_pc_is_an_error() {
    let mut c = Chip8::new();
    c.pc = 4095;
    assert_eq!(c.tick(), Err(Chip8Error::FetchOutOfBounds));
}

#[test]
fn load_and_add_immediates() {
    let mut c = Chip8::new();
    exec(&mut c, 0x6105);
    assert_eq!(c.v_registers[1], 5);
    exec(&mut c, 0x7103);
    assert_eq!(c.v_registers[1], 8);
    // 7xkk wraps without touching VF.
    exec(&mut c, 0x71FF);
    assert_eq!(c.v_registers[1], 7);
    assert_eq!(c.v_registers[0xF], 0);
}

#[test]
fn add_vx_vy_sets_carry_on_overflow() {
    // ADD Vx,Vy with Vx=250, Vy=10 yields Vx=4 and VF=1.
    let mut c = Chip8::new();
    c.v_registers[0xA] = 250;
    c.v_registers[0xB] = 10;
    exec(&mut c, 0x8AB4);
    assert_eq!(c.v_registers[0xA], 4);
    assert_eq!(c.v_registers[0xF], 1);
}

#[test]
fn add_vx_vy_clears_carry_without_overflow() {
    // Vx=10, Vy=10 yields Vx=20 and VF=0.
    let mut c = Chip8::new();
    c.v_registers[0xA] = 10;
    c.v_registers[0xB] = 10;
    c.v_registers[0xF] = 1;
    exec(&mut c, 0x8AB4);
    assert_eq!(c.v_registers[0xA], 20);
    assert_eq!(c.v_registers[0xF], 0);
}

#[test]
fn bitwise_group_or_and_xor_move() {
    let mut c = Chip8::new();
    c.v_registers[2] = 0b1100;
    c.v_registers[3] = 0b1010;
    exec(&mut c, 0x8230);
    assert_eq!(c.v_registers[2], 0b1010);
    c.v_registers[2] = 0b1100;
    exec(&mut c, 0x8231);
    assert_eq!(c.v_registers[2], 0b1110);
    c.v_registers[2] = 0b1100;
    exec(&mut c, 0x8232);
    assert_eq!(c.v_registers[2], 0b1000);
    c.v_registers[2] = 0b1100;
    exec(&mut c, 0x8233);
    assert_eq!(c.v_registers[2], 0b0110);
}

#[test]
fn subtract_sets_not_borrow_flag() {
    let mut c = Chip8::new();
    c.v_registers[4] = 7;
    c.v_registers[5] = 3;
    exec(&mut c, 0x8455);
    assert_eq!(c.v_registers[4], 4);
    assert_eq!(c.v_registers[0xF], 1);
    c.v_registers[4] = 3;
    c.v_registers[5] = 7;
    exec(&mut c, 0x8455);
    assert_eq!(c.v_registers[4], 252);
    assert_eq!(c.v_registers[0xF], 0);
}

#[test]
fn subtract_reversed_sets_not_borrow_flag() {
    let mut c = Chip8::new();
    c.v_registers[4] = 3;
    c.v_registers[5] = 7;
    exec(&mut c, 0x8457);
    assert_eq!(c.v_registers[4], 4);
    assert_eq!(c.v_registers[0xF], 1);
    c.v_registers[4] = 7;
    c.v_registers[5] = 3;
    exec(&mut c, 0x8457);
    assert_eq!(c.v_registers[4], 252);
    assert_eq!(c.v_registers[0xF], 0);
}

#[test]
fn shifts_act_on_vx_and_report_the_shifted_bit() {
    let mut c = Chip8::new();
    c.v_registers[6] = 0b1000_0101;
    exec(&mut c, 0x8676);
    assert_eq!(c.v_registers[6], 0b0100_0010);
    assert_eq!(c.v_registers[0xF], 1);
    exec(&mut c, 0x867E);
    assert_eq!(c.v_registers[6], 0b1000_0100);
    assert_eq!(c.v_registers[0xF], 0);
    c.v_registers[6] = 0b1000_0000;
    exec(&mut c, 0x867E);
    assert_eq!(c.v_registers[6], 0);
    assert_eq!(c.v_registers[0xF], 1);
}

#[test]
fn conditional_skips_advance_pc_by_two_more() {
    let mut c = Chip8::new();
    c.v_registers[1] = 0x42;
    exec(&mut c, 0x3142);
    assert_eq!(c.pc, 0x202);
    exec(&mut c, 0x3141);
    assert_eq!(c.pc, 0x202);
    exec(&mut c, 0x4141);
    assert_eq!(c.pc, 0x204);
    c.v_registers[2] = 0x42;
    exec(&mut c, 0x5120);
    assert_eq!(c.pc, 0x206);
    exec(&mut c, 0x9120);
    assert_eq!(c.pc, 0x206);
    c.v_registers[2] = 0;
    exec(&mut c, 0x9120);
    assert_eq!(c.pc, 0x208);
}

#[test]
fn jumps_set_pc() {
    let mut c = Chip8::new();
    exec(&mut c, 0x1ABC);
    assert_eq!(c.pc, 0xABC);
    c.v_registers[0] = 5;
    exec(&mut c, 0xB300);
    assert_eq!(c.pc, 0x305);
}

#[test]
fn call_then_return_restores_post_fetch_pc() {
    // CALL at PC=0x200 to 0x300, then RETURN, lands back at 0x202.
    let mut c = Chip8::start(vec![0x23, 0x00]);
    c.tick().expect("call executes");
    assert_eq!(c.pc, 0x300);
    assert_eq!(c.stack, vec![0x202]);
    exec(&mut c, 0x00EE);
    assert_eq!(c.pc, 0x202);
    assert_eq!(c.stack.len(), 0);
}

#[test]
fn seventeenth_call_overflows_the_stack() {
    let mut c = Chip8::new();
    for _ in 0..16 {
        c.decode_execute(0x2300).expect("first sixteen calls fit");
    }
    assert_eq!(c.stack.len(), 16);
    assert_eq!(c.decode_execute(0x2300), Err(Chip8Error::StackOverflow));
    assert_eq!(c.stack.len(), 16);
}

#[test]
fn return_on_empty_stack_underflows() {
    let mut c = Chip8::new();
    assert_eq!(c.decode_execute(0x00EE), Err(Chip8Error::StackUnderflow));
    assert_eq!(c.pc, 0x200);
}

#[test]
fn unknown_opcodes_are_no_ops() {
    let mut c = Chip8::new();
    let before_v = c.v_registers.clone();
    exec(&mut c, 0x5121); // 5xy with low nibble != 0 matches nothing
    exec(&mut c, 0x8ABF);
    exec(&mut c, 0xFFFF);
    exec(&mut c, 0x0ABC); // legacy SYS call is ignored
    assert_eq!(c.v_registers, before_v);
    assert_eq!(c.pc, 0x200);
}

#[test]
fn load_i_and_add_i() {
    let mut c = Chip8::new();
    exec(&mut c, 0xA123);
    assert_eq!(c.i_register, 0x123);
    c.v_registers[3] = 0x10;
    exec(&mut c, 0xF31E);
    assert_eq!(c.i_register, 0x133);
    // Fx1E wraps on 16-bit overflow.
    c.i_register = 0xFFFF;
    c.v_registers[3] = 2;
    exec(&mut c, 0xF31E);
    assert_eq!(c.i_register, 1);
}

#[test]
fn font_lookup_points_into_the_glyph_table() {
    let mut c = Chip8::new();
    c.v_registers[0] = 0x0A;
    exec(&mut c, 0xF029);
    assert_eq!(c.i_register, 0x50 + 5 * 0xA);
    // Only the low nibble of Vx selects the glyph.
    c.v_registers[0] = 0xF3;
    exec(&mut c, 0xF029);
    assert_eq!(c.i_register, 0x50 + 5 * 3);
    // The glyph bytes for 0 are resident at the base address.
    c.v_registers[0] = 0;
    exec(&mut c, 0xF029);
    let at = c.i_register as usize;
    assert_eq!(&c.ram[at..at + 5], &[0xF0, 0x90, 0x90, 0x90, 0xF0]);
}

#[test]
fn bcd_store_writes_three_digits() {
    // BCD(0) = [0,0,0]; BCD(255) = [2,5,5]; BCD(9) = [0,0,9].
    let cases: [(u8, [u8; 3]); 4] = [
        (0, [0, 0, 0]),
        (255, [2, 5, 5]),
        (9, [0, 0, 9]),
        (153, [1, 5, 3]),
    ];
    for (value, digits) in cases {
        let mut c = Chip8::new();
        c.v_registers[7] = value;
        c.i_register = 0x300;
        c.decode_execute(0xF733).expect("bcd store fits in memory");
        assert_eq!(&c.ram[0x300..0x303], &digits);
    }
}

#[test]
fn bcd_store_past_memory_end_is_an_error() {
    let mut c = Chip8::new();
    c.i_register = 4094;
    assert_eq!(c.decode_execute(0xF733), Err(Chip8Error::MemoryOutOfBounds));
}

#[test]
fn extract_digits_orders_most_significant_first() {
    assert_eq!(Chip8::extract_digits(153), vec![1, 5, 3]);
    assert_eq!(Chip8::extract_digits(0), vec![0]);
    assert_eq!(Chip8::extract_digits(9), vec![9]);
    assert_eq!(Chip8::extract_digits(40), vec![4, 0]);
    assert_eq!(Chip8::extract_digits(255), vec![2, 5, 5]);
}

#[test]
fn store_and_load_register_ranges() {
    let mut c = Chip8::new();
    for k in 0..16u8 {
        c.v_registers[k as usize] = 10 + k;
    }
    c.i_register = 0x400;
    exec(&mut c, 0xF355); // store V0..=V3
    assert_eq!(&c.ram[0x400..0x404], &[10, 11, 12, 13]);
    assert_eq!(c.ram[0x404], 0);
    assert_eq!(c.i_register, 0x404);

    let mut d = Chip8::new();
    d.ram[0x400..0x404].copy_from_slice(&[7, 8, 9, 10]);
    d.i_register = 0x400;
    d.decode_execute(0xF265).expect("load fits");
    assert_eq!(&d.v_registers[0..3], &[7, 8, 9]);
    assert_eq!(d.v_registers[3], 0);
    assert_eq!(d.i_register, 0x403);
}

#[test]
fn register_fill_past_memory_end_is_an_error() {
    let mut c = Chip8::new();
    c.i_register = 4090;
    assert_eq!(c.decode_execute(0xFF55), Err(Chip8Error::MemoryOutOfBounds));
    assert_eq!(c.decode_execute(0xFF65), Err(Chip8Error::MemoryOutOfBounds));
}

#[test]
fn random_byte_is_masked_by_kk() {
    // The AND-masking property is all that may be asserted: with kk = 0
    // the result must be 0, and in general no bit outside kk may be set.
    let mut c = Chip8::new();
    c.v_registers[5] = 0xAA;
    exec(&mut c, 0xC500);
    assert_eq!(c.v_registers[5], 0);
    for _ in 0..50 {
        exec(&mut c, 0xC50F);
        assert_eq!(c.v_registers[5] & !0x0F, 0);
    }
}

#[test]
fn delay_timer_round_trip_through_registers() {
    let mut c = Chip8::new();
    c.v_registers[2] = 77;
    exec(&mut c, 0xF215); // delay = V2
    assert_eq!(c.delay_timer, 77);
    exec(&mut c, 0xF307); // V3 = delay
    assert_eq!(c.v_registers[3], 77);
    c.v_registers[4] = 9;
    exec(&mut c, 0xF418); // sound = V4
    assert_eq!(c.sound_timer, 9);
}

#[test]
fn timers_clamp_at_zero() {
    // However many times advance-timers runs, neither timer drops below 0.
    let mut c = Chip8::new();
    c.delay_timer = 3;
    c.sound_timer = 1;
    for _ in 0..100 {
        c.update_timers();
    }
    assert_eq!(c.delay_timer, 0);
    assert_eq!(c.sound_timer, 0);
}

#[test]
fn timers_decrement_by_one_per_advance() {
    let mut c = Chip8::new();
    c.delay_timer = 5;
    c.update_timers();
    assert_eq!(c.delay_timer, 4);
    c.update_timers();
    assert_eq!(c.delay_timer, 3);
}

#[test]
fn skip_if_key_pressed_reads_the_snapshot() {
    let mut c = Chip8::new();
    c.v_registers[1] = 0x4;
    exec(&mut c, 0xE19E);
    assert_eq!(c.pc, 0x200);
    c.set_key(0x4, true);
    exec(&mut c, 0xE19E);
    assert_eq!(c.pc, 0x202);
    exec(&mut c, 0xE1A1);
    assert_eq!(c.pc, 0x202);
    c.set_key(0x4, false);
    exec(&mut c, 0xE1A1);
    assert_eq!(c.pc, 0x204);
}

#[test]
fn wait_key_blocks_until_a_key_is_observed() {
    // Fx0A stops stepping: PC stays put and no instruction executes
    // until a key-down is observed, then the key code lands in Vx.
    let rom = vec![0xF5, 0x0A, 0x61, 0x07];
    let mut c = Chip8::start(rom);
    c.tick().expect("wait-key instruction executes");
    assert_eq!(c.awaiting_key, Some(5));
    assert_eq!(c.pc, 0x202);
    for _ in 0..3 {
        c.tick().expect("waiting tick");
        assert_eq!(c.pc, 0x202);
        assert_eq!(c.v_registers[1], 0);
    }
    c.set_key(0xB, true);
    c.tick().expect("key observed");
    assert_eq!(c.v_registers[5], 0xB);
    assert_eq!(c.awaiting_key, None);
    assert_eq!(c.pc, 0x202);
    c.tick().expect("execution resumes");
    assert_eq!(c.v_registers[1], 7);
    assert_eq!(c.pc, 0x204);
}

#[test]
fn set_key_state_replaces_the_snapshot() {
    let mut c = Chip8::new();
    let mut keys = [false; 16];
    keys[3] = true;
    keys[9] = true;
    c.set_key_state(&keys);
    assert_eq!(c.keyboard, keys.to_vec());
    c.reset_keyboard();
    assert!(c.keyboard.iter().all(|&k| !k));
}

#[test]
fn tick_consumes_the_dirty_flag() {
    let mut c = Chip8::start(vec![0x60, 0x00, 0x00, 0xE0]);
    c.tick().expect("load executes");
    assert!(!c.needs_redraw);
    c.tick().expect("clear executes");
    assert!(c.needs_redraw);
}

#[test]
fn debug_mode_counts_executed_instructions() {
    let mut c = Chip8::start(vec![0x60, 0x01, 0x61, 0x02, 0x62, 0x03]);
    c.tick().expect("untraced tick");
    assert_eq!(c.instructions_executed, 0);
    c.enable_debug_mode(20);
    assert!(c.debug_mode);
    c.tick().expect("traced tick");
    c.tick().expect("traced tick");
    assert_eq!(c.instructions_executed, 22);
}
