use chip8::chip8::Chip8;
use chip8::platform::Platform;

/// A machine with the tables installed and `program` loaded at 0x200.
fn machine_with(program: &[u8]) -> Chip8 {
    let mut c = Chip8::new();
    c.init_tables();
    c.load_rom_bytes(program);
    c
}

fn run(c: &mut Chip8, cycles: usize) {
    for _ in 0..cycles {
        c.cycle();
    }
}

#[test]
fn new_machine_has_font_and_start_address() {
    let c = Chip8::new();
    assert_eq!(c.pc(), 0x200);
    assert_eq!(c.index(), 0);
    assert_eq!(c.sp(), 0);
    assert_eq!(c.opcode(), 0);
    assert_eq!(c.delay_timer(), 0);
    assert_eq!(c.sound_timer(), 0);
    for i in 0..16 {
        assert_eq!(c.register(i), 0);
        assert_eq!(c.key(i), 0);
        assert_eq!(c.stack_at(i), 0);
    }
    assert_eq!(c.memory_at(0x4F), 0);
    assert_eq!(c.memory_at(0x50), 0xF0);
    assert_eq!(c.memory_at(0x51), 0x90);
    assert_eq!(c.memory_at(0x55), 0x20);
    assert_eq!(c.memory_at(0x9F), 0x80);
    assert_eq!(c.memory_at(0xA0), 0);
    assert_eq!(c.memory_at(0x200), 0);
    for i in 0..2048 {
        assert_eq!(c.pixel(i), 0);
    }
}

#[test]
fn fresh_tables_do_nothing_but_advance() {
    let mut c = Chip8::new();
    c.load_rom_bytes(&[0x60, 0x2A]);
    c.cycle();
    assert_eq!(c.opcode(), 0x602A);
    assert_eq!(c.pc(), 0x202);
    assert_eq!(c.register(0), 0);
}

#[test]
fn load_rom_bytes_places_program() {
    let mut c = Chip8::new();
    c.load_rom_bytes(&[1, 2, 3]);
    assert_eq!(c.memory_at(0x1FF), 0);
    assert_eq!(c.memory_at(0x200), 1);
    assert_eq!(c.memory_at(0x201), 2);
    assert_eq!(c.memory_at(0x202), 3);
    assert_eq!(c.memory_at(0x203), 0);
    assert_eq!(c.memory_at(0x50), 0xF0);
}

#[test]
fn load_and_add() {
    // V3 = 0x2A; V3 += 0x10
    let mut c = machine_with(&[0x63, 0x2A, 0x73, 0x10]);
    c.cycle();
    assert_eq!(c.register(3), 0x2A);
    assert_eq!(c.pc(), 0x202);
    c.cycle();
    assert_eq!(c.register(3), 0x3A);
    assert_eq!(c.pc(), 0x204);
}

#[test]
fn jump() {
    let mut c = machine_with(&[0x13, 0x45]);
    c.cycle();
    assert_eq!(c.pc(), 0x345);
}

#[test]
fn call_then_return() {
    // 0x200: call 0x206; 0x206: return
    let mut c = machine_with(&[0x22, 0x06, 0x00, 0x00, 0x00, 0x00, 0x00, 0xEE]);
    c.cycle();
    assert_eq!(c.pc(), 0x206);
    assert_eq!(c.sp(), 1);
    assert_eq!(c.stack_at(0), 0x202);
    c.cycle();
    assert_eq!(c.pc(), 0x202);
    assert_eq!(c.sp(), 0);
}

#[test]
fn skip_if_equal_to_byte() {
    let mut c = machine_with(&[0x61, 0x05, 0x31, 0x05]);
    run(&mut c, 2);
    assert_eq!(c.pc(), 0x206);
    let mut c = machine_with(&[0x61, 0x05, 0x31, 0x06]);
    run(&mut c, 2);
    assert_eq!(c.pc(), 0x204);
}

#[test]
fn skip_if_not_equal_to_byte() {
    let mut c = machine_with(&[0x61, 0x05, 0x41, 0x06]);
    run(&mut c, 2);
    assert_eq!(c.pc(), 0x206);
    let mut c = machine_with(&[0x61, 0x05, 0x41, 0x05]);
    run(&mut c, 2);
    assert_eq!(c.pc(), 0x204);
}

#[test]
fn skip_5xy0_when_registers_differ() {
    let mut c = machine_with(&[0x61, 0x05, 0x62, 0x06, 0x51, 0x20]);
    run(&mut c, 3);
    assert_eq!(c.pc(), 0x208);
    let mut c = machine_with(&[0x61, 0x05, 0x62, 0x05, 0x51, 0x20]);
    run(&mut c, 3);
    assert_eq!(c.pc(), 0x206);
}

#[test]
fn skip_9xy0_when_registers_differ() {
    let mut c = machine_with(&[0x61, 0x05, 0x62, 0x06, 0x91, 0x20]);
    run(&mut c, 3);
    assert_eq!(c.pc(), 0x208);
    let mut c = machine_with(&[0x61, 0x05, 0x62, 0x05, 0x91, 0x20]);
    run(&mut c, 3);
    assert_eq!(c.pc(), 0x206);
}

#[test]
fn copy_register() {
    let mut c = machine_with(&[0x62, 0x77, 0x81, 0x20]);
    run(&mut c, 2);
    assert_eq!(c.register(1), 0x77);
    assert_eq!(c.register(2), 0x77);
}

#[test]
fn or_and_wiring_of_table_8() {
    // V1 = 0b1100, V2 = 0b1010
    let setup = [0x61u8, 0x0C, 0x62, 0x0A];
    let run_with = |last: u8| {
        let mut prog = setup.to_vec();
        prog.push(0x81);
        prog.push(0x20 | last);
        let mut c = machine_with(&prog);
        run(&mut c, 3);
        c.register(1)
    };
    assert_eq!(run_with(0x1), 0x0E); // 8xy1: or
    assert_eq!(run_with(0x2), 0x08); // 8xy2: and
    assert_eq!(run_with(0x3), 0x0E); // entry 3 holds the `or` handler
    assert_eq!(run_with(0x4), 0x08); // entry 4 holds the `and` handler
    assert_eq!(run_with(0x5), 0x06); // entry 5 holds the `xor` handler
}

#[test]
fn add_with_carry() {
    // entry 6 of table 8 holds the add-with-carry handler
    let mut c = machine_with(&[0x61, 0xFF, 0x62, 0x02, 0x81, 0x26]);
    run(&mut c, 3);
    assert_eq!(c.register(1), 0x01);
    assert_eq!(c.register(0xF), 1);
    let mut c = machine_with(&[0x61, 0x10, 0x62, 0x02, 0x81, 0x26]);
    run(&mut c, 3);
    assert_eq!(c.register(1), 0x12);
    assert_eq!(c.register(0xF), 0);
}

#[test]
fn subtract_with_flag() {
    // entry 7 of table 8 holds the `Vx - Vy` handler
    let mut c = machine_with(&[0x61, 0x09, 0x62, 0x02, 0x81, 0x27]);
    run(&mut c, 3);
    assert_eq!(c.register(1), 0x07);
    assert_eq!(c.register(0xF), 1);
    let mut c = machine_with(&[0x61, 0x05, 0x62, 0x05, 0x81, 0x27]);
    run(&mut c, 3);
    assert_eq!(c.register(1), 0x00);
    assert_eq!(c.register(0xF), 0);
}

#[test]
fn shift_left() {
    let mut c = machine_with(&[0x61, 0x81, 0x6F, 0x07, 0x81, 0x0E]);
    run(&mut c, 3);
    assert_eq!(c.register(1), 0x02);
    assert_eq!(c.register(0xF), 0);
}

#[test]
fn unwired_table_8_entry_does_nothing() {
    let mut c = machine_with(&[0x61, 0x81, 0x81, 0x08]);
    run(&mut c, 2);
    assert_eq!(c.register(1), 0x81);
    assert_eq!(c.pc(), 0x204);
}

#[test]
fn set_index_and_jump_with_offset() {
    let mut c = machine_with(&[0xA1, 0x23]);
    c.cycle();
    assert_eq!(c.index(), 0x123);
    let mut c = machine_with(&[0x60, 0x10, 0xB3, 0x00]);
    run(&mut c, 2);
    assert_eq!(c.pc(), 0x310);
    assert_eq!(c.index(), 0x300);
}

#[test]
fn random_masked_by_byte() {
    let mut c = machine_with(&[0xC1, 0x00]);
    c.cycle();
    assert_eq!(c.register(1), 0);
    for _ in 0..20 {
        let mut c = machine_with(&[0xC1, 0x0F]);
        c.cycle();
        assert_eq!(c.register(1) & 0xF0, 0);
    }
}

#[test]
fn apply_random_byte() {
    let mut c = machine_with(&[0xC2, 0x3C]);
    c.cycle();
    c.apply_cxkk(0xAB);
    assert_eq!(c.register(2), 0x28);
    assert_eq!(c.pc(), 0x202);
}

#[test]
fn draw_font_glyph_and_collide() {
    // I = glyph 0 at 0x50; draw 5 rows at (0, 0) twice
    let mut c = machine_with(&[0xA0, 0x50, 0xD0, 0x05, 0xD0, 0x05]);
    run(&mut c, 2);
    assert_eq!(c.register(0xF), 0);
    // row 0 is 0xF0: four lit cells then dark
    for col in 0..4 {
        assert_eq!(c.pixel(col), 0xFFFF_FFFF);
    }
    assert_eq!(c.pixel(4), 0);
    // row 1 is 0x90
    assert_eq!(c.pixel(64), 0xFFFF_FFFF);
    assert_eq!(c.pixel(65), 0);
    assert_eq!(c.pixel(67), 0xFFFF_FFFF);
    c.cycle();
    assert_eq!(c.register(0xF), 1);
    for i in 0..2048 {
        assert_eq!(c.pixel(i), 0);
    }
}

#[test]
fn draw_wraps_coordinates() {
    // V1 = 66 -> column 2, V2 = 33 -> row 1
    let mut c = machine_with(&[0x61, 66, 0x62, 33, 0xA0, 0x50, 0xD1, 0x21]);
    run(&mut c, 4);
    assert_eq!(c.pixel(64 + 2), 0xFFFF_FFFF);
    assert_eq!(c.pixel(64 + 5), 0xFFFF_FFFF);
    assert_eq!(c.pixel(64 + 6), 0);
}

#[test]
fn clear_screen() {
    let mut c = machine_with(&[0xA0, 0x50, 0xD0, 0x05, 0x00, 0xE0]);
    run(&mut c, 2);
    assert_eq!(c.pixel(0), 0xFFFF_FFFF);
    c.cycle();
    for i in 0..2048 {
        assert_eq!(c.pixel(i), 0);
    }
}

#[test]
fn skip_on_key() {
    let prog = [0x61, 0x05, 0xE1, 0x9E];
    let mut c = machine_with(&prog);
    let mut keys = [0u8; 16];
    keys[5] = 1;
    c.set_keypad(keys);
    run(&mut c, 2);
    assert_eq!(c.pc(), 0x206);
    let mut c = machine_with(&prog);
    run(&mut c, 2);
    assert_eq!(c.pc(), 0x204);
}

#[test]
fn skip_on_no_key() {
    let prog = [0x61, 0x05, 0xE1, 0xA1];
    let mut c = machine_with(&prog);
    run(&mut c, 2);
    assert_eq!(c.pc(), 0x206);
    let mut c = machine_with(&prog);
    let mut keys = [0u8; 16];
    keys[5] = 1;
    c.set_keypad(keys);
    run(&mut c, 2);
    assert_eq!(c.pc(), 0x204);
}

#[test]
fn wait_for_key() {
    let mut c = machine_with(&[0xF3, 0x0A]);
    c.cycle();
    assert_eq!(c.pc(), 0x200);
    let mut keys = [0u8; 16];
    keys[9] = 1;
    keys[5] = 1;
    c.set_keypad(keys);
    c.cycle();
    assert_eq!(c.register(3), 5);
    assert_eq!(c.pc(), 0x202);
}

#[test]
fn timers() {
    // V1 = 5; DT = V1; ST = V1; V2 = DT
    let mut c = machine_with(&[0x61, 0x05, 0xF1, 0x15, 0xF1, 0x18, 0xF2, 0x07]);
    run(&mut c, 2);
    assert_eq!(c.delay_timer(), 4);
    c.cycle();
    assert_eq!(c.delay_timer(), 3);
    assert_eq!(c.sound_timer(), 4);
    c.cycle();
    assert_eq!(c.register(2), 3);
    assert_eq!(c.delay_timer(), 2);
    assert_eq!(c.sound_timer(), 3);
}

#[test]
fn timers_stop_at_zero() {
    let mut c = machine_with(&[0x00, 0x00, 0x00, 0x00]);
    run(&mut c, 2);
    assert_eq!(c.delay_timer(), 0);
    assert_eq!(c.sound_timer(), 0);
}

#[test]
fn index_from_register() {
    let mut c = machine_with(&[0x61, 0x30, 0xA1, 0x00, 0xF1, 0x1E]);
    run(&mut c, 3);
    assert_eq!(c.index(), 0x30);
}

#[test]
fn font_address() {
    let mut c = machine_with(&[0x61, 0x0A, 0xF1, 0x29]);
    run(&mut c, 2);
    assert_eq!(c.index(), 0x50 + 50);
    assert_eq!(c.memory_at(0x50 + 50), 0xF0);
}

#[test]
fn bcd() {
    let mut c = machine_with(&[0x61, 254, 0xA3, 0x00, 0xF1, 0x33]);
    run(&mut c, 3);
    assert_eq!(c.memory_at(0x300), 2);
    assert_eq!(c.memory_at(0x301), 5);
    assert_eq!(c.memory_at(0x302), 4);
    let mut c = machine_with(&[0x61, 7, 0xA3, 0x00, 0xF1, 0x33]);
    run(&mut c, 3);
    assert_eq!(c.memory_at(0x300), 0);
    assert_eq!(c.memory_at(0x301), 0);
    assert_eq!(c.memory_at(0x302), 7);
}

#[test]
fn store_and_load_registers() {
    // V0..V2 = 1, 2, 3; I = 0x300; store V0..V2; clear them; load them back
    let prog = [
        0x60, 1, 0x61, 2, 0x62, 3, 0xA3, 0x00, 0xF2, 0x55, 0x60, 0, 0x61, 0, 0x62, 0, 0xF1, 0x65,
    ];
    let mut c = machine_with(&prog);
    run(&mut c, 5);
    assert_eq!(c.memory_at(0x300), 1);
    assert_eq!(c.memory_at(0x301), 2);
    assert_eq!(c.memory_at(0x302), 3);
    assert_eq!(c.memory_at(0x303), 0);
    assert_eq!(c.index(), 0x300);
    run(&mut c, 4);
    assert_eq!(c.register(0), 1);
    assert_eq!(c.register(1), 2);
    assert_eq!(c.register(2), 0);
}

#[test]
fn unwired_table_f_entry_does_nothing() {
    let mut c = machine_with(&[0x61, 0x09, 0xF1, 0x01]);
    run(&mut c, 2);
    assert_eq!(c.register(1), 9);
    assert_eq!(c.pc(), 0x204);
}

#[test]
fn process_input_leaves_keys() {
    let p = Platform {};
    let mut keys = [0u8; 16];
    keys[3] = 1;
    p.process_input(&mut keys);
    assert_eq!(keys[3], 1);
    assert_eq!(keys[0], 0);
}
