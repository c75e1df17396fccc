use rust_chip8::Cpu;

#[test]
fn clear_screen() {
    let mut cpu = Cpu::new();
    cpu.display.pixels[0] = 0xFF;
    cpu.execute(0x00E0).unwrap();
    assert_eq!(cpu.display.pixels[0], 0);
}

#[test]
fn ins_jmp() {
    let mut cpu = Cpu::new();
    cpu.execute(0x1234).unwrap();
    assert_eq!(cpu.prog_counter, 0x0234);
}

#[test]
fn ins_call() {
    let mut cpu = Cpu::new();
    let pc = 0x0200;
    cpu.prog_counter = pc;
    cpu.execute(0x2456).unwrap();
    assert_eq!(cpu.stack_pointer, 1);
    // The stack pointer counts occupied slots: the first call fills slot 0.
    assert_eq!(cpu.stack[0], pc);
    assert_eq!(cpu.prog_counter, 0x0456);
}

#[test]
fn ins_se_and_sne() {
    let mut cpu = Cpu::new();
    cpu.prog_counter = 0x0200;
    cpu.v_reg[0x2] = 0x34;
    cpu.execute(0x3235).unwrap();
    assert_eq!(cpu.prog_counter, 0x0200);
    cpu.execute(0x3234).unwrap();
    assert_eq!(cpu.prog_counter, 0x0202);
    cpu.execute(0x3F34).unwrap(); // Choosing wrong register
    assert_eq!(cpu.prog_counter, 0x0202);
    // sne
    cpu.execute(0x4234).unwrap();
    assert_eq!(cpu.prog_counter, 0x0202);
    cpu.execute(0x4200).unwrap();
    assert_eq!(cpu.prog_counter, 0x0204);
    // se Vx Vy
    cpu.execute(0x5230).unwrap();
    assert_eq!(cpu.prog_counter, 0x0204);
    cpu.v_reg[0x3] = 0x34;
    cpu.execute(0x5230).unwrap();
    assert_eq!(cpu.prog_counter, 0x0206);
    // sne Vx Vy
    cpu.execute(0x9230).unwrap();
    assert_eq!(cpu.prog_counter, 0x0206);
    cpu.v_reg[0x3] = 0x33;
    cpu.execute(0x9230).unwrap();
    assert_eq!(cpu.prog_counter, 0x0208);
}

#[test]
fn ins_ld() {
    let mut cpu = Cpu::new();
    cpu.execute(0x6234).unwrap();
    assert_eq!(cpu.v_reg[0x2], 0x34);
    cpu.execute(0xA123).unwrap();
    assert_eq!(cpu.i_reg, 0x123);
}

#[test]
fn ins_add() {
    let mut cpu = Cpu::new();
    cpu.execute(0x7123).unwrap();
    assert_eq!(cpu.v_reg[0x1], 0x23);
    cpu.execute(0x7123).unwrap();
    assert_eq!(cpu.v_reg[0x1], 0x46);
    cpu.execute(0x71FF).unwrap();
    assert_eq!(cpu.v_reg[0x1], 0x45);
}

#[test]
fn ins_vx_vy() {
    let mut cpu = Cpu::new();
    cpu.execute(0x6234).unwrap();
    cpu.execute(0x8420).unwrap();
    assert_eq!(cpu.v_reg[0x2], cpu.v_reg[0x4]);
    assert_eq!(cpu.v_reg[0x2], 0x34);
}

#[test]
fn ins_or_and_xor() {
    let mut cpu = Cpu::new();
    cpu.execute(0x6234).unwrap();
    cpu.execute(0x6356).unwrap();
    cpu.execute(0x8231).unwrap();
    assert_eq!(cpu.v_reg[0x2], 0x34 | 0x56);
    cpu.execute(0x6478).unwrap();
    cpu.execute(0x8242).unwrap();
    assert_eq!(cpu.v_reg[0x2], (0x34 | 0x56) & 0x78);
    cpu.execute(0x6523).unwrap();
    cpu.execute(0x8253).unwrap();
    assert_eq!(cpu.v_reg[0x2], (0x34 | 0x56) & 0x78 ^ 0x23);
}

#[test]
fn ins_add_vx_vy() {
    let mut cpu = Cpu::new();
    cpu.execute(0x6234).unwrap();
    cpu.execute(0x6356).unwrap();
    cpu.execute(0x8234).unwrap();
    assert_eq!(cpu.v_reg[0x2], 0x34 + 0x56);
    assert_eq!(cpu.v_reg[0xF], 0);
    cpu.execute(0x63FF).unwrap();
    cpu.execute(0x8234).unwrap();
    assert_eq!(cpu.v_reg[0x2], (0x34 + 0x56 as u8).wrapping_add(0xFF));
    assert_eq!(cpu.v_reg[0xF], 1);
}

#[test]
fn ins_add_i_vx() {
    let mut cpu = Cpu::new();
    cpu.execute(0x6210).unwrap();
    cpu.execute(0xF21E).unwrap();
    assert_eq!(cpu.i_reg, 0x10);
    cpu.execute(0xF21E).unwrap();
    assert_eq!(cpu.i_reg, 0x20);
}

#[test]
fn ins_sub_vx_vy() {
    let mut cpu = Cpu::new();
    cpu.execute(0x6234).unwrap();
    cpu.execute(0x6356).unwrap();
    cpu.execute(0x8325).unwrap();
    assert_eq!(cpu.v_reg[0x3], 0x56 - 0x34);
    assert_eq!(cpu.v_reg[0xF], 1);
    cpu.execute(0x62FF).unwrap();
    cpu.execute(0x8325).unwrap();
    assert_eq!(cpu.v_reg[0x3], (0x56 - 0x34 as u8).wrapping_sub(0xFF));
    assert_eq!(cpu.v_reg[0xF], 0);
}

#[test]
fn ins_shr() {
    let mut cpu = Cpu::new();
    cpu.execute(0x620E).unwrap();
    cpu.execute(0x8206).unwrap();
    assert_eq!(cpu.v_reg[0x2], 0x7);
    assert_eq!(cpu.v_reg[0xF], 0);
    cpu.execute(0x620F).unwrap();
    cpu.execute(0x8206).unwrap();
    assert_eq!(cpu.v_reg[0x2], 0x7);
    assert_eq!(cpu.v_reg[0xF], 1);
}

#[test]
fn ins_sub_vy_vx() {
    let mut cpu = Cpu::new();
    cpu.execute(0x6256).unwrap();
    cpu.execute(0x6334).unwrap();
    cpu.execute(0x8327).unwrap();
    assert_eq!(cpu.v_reg[0x3], 0x56 - 0x34);
    assert_eq!(cpu.v_reg[0xF], 1);
    cpu.execute(0x6200).unwrap();
    cpu.execute(0x8327).unwrap();
    assert_eq!(cpu.v_reg[0x3], (0 as u8).wrapping_sub(0x56 - 0x34));
    assert_eq!(cpu.v_reg[0xF], 0);
}

#[test]
fn ins_shl() {
    let mut cpu = Cpu::new();
    cpu.execute(0x627F).unwrap();
    cpu.execute(0x820E).unwrap();
    assert_eq!(cpu.v_reg[0x2], 0xFE);
    assert_eq!(cpu.v_reg[0xF], 0);
    cpu.execute(0x62FF).unwrap();
    cpu.execute(0x820E).unwrap();
    assert_eq!(cpu.v_reg[0x2], 0xFE);
    assert_eq!(cpu.v_reg[0xF], 1);
}

#[test]
fn ins_jp() {
    let mut cpu = Cpu::new();
    cpu.execute(0x6034).unwrap();
    cpu.execute(0xB123).unwrap();
    assert_eq!(cpu.prog_counter, 0x34 + 0x123);
}

#[test]
fn ins_draw() {
    let sprite = &[0b0101_1110, 0b0101_1001, 0b0000_0001];

    let mut cpu = Cpu::new();
    cpu.write_bytes(0x234, sprite);
    cpu.execute(0xA234).unwrap();

    let x = 6;
    let y = 10;
    cpu.execute(0x6000 + x).unwrap();
    cpu.execute(0x6100 + y).unwrap();
    cpu.execute(0xD013).unwrap();

    assert_eq!(cpu.v_reg[0xF], 0);
    for i in 0..3 {
        println!("{:b}", cpu.display.pixels[y as usize + i]);
        assert_eq!(cpu.display.pixels[y as usize + i], (sprite[i] as u64) << (64 - 8 - x));
    }

    // Overwriting current pixels
    cpu.execute(0xD013).unwrap();
    assert_eq!(cpu.v_reg[0xF], 1);
    for i in 0..3 {
        assert_eq!(cpu.display.pixels[y as usize + i], 0);
    }

    // Wrapping around edge of screen
    let x = 60;
    let x_to_edge = 64 - x;
    cpu.execute(0x6000 + x).unwrap();
    cpu.execute(0xD013).unwrap();
    for i in 0..3 {
        assert_eq!(
            cpu.display.pixels[y as usize + i],
            (sprite[i] as u64) >> (8 - x_to_edge) | (sprite[i] as u64) << (64 - 8 + x_to_edge)
        );
    }
    assert_eq!(cpu.v_reg[0xF], 0);

    // Overwriting current pixels
    cpu.execute(0xD013).unwrap();
    assert_eq!(cpu.v_reg[0xF], 1);
    for i in 0..3 {
        assert_eq!(cpu.display.pixels[y as usize + i], 0);
    }
}

#[test]
fn ins_skp() {
    let mut cpu = Cpu::new();
    cpu.execute(0x6504).unwrap();
    cpu.execute(0xE59E).unwrap();
    assert_eq!(cpu.prog_counter, 0);
    cpu.keys = 0b0000_0000_0001_0100;
    cpu.execute(0xE59E).unwrap();
    assert_eq!(cpu.prog_counter, 2);
    cpu.execute(0x6304).unwrap();
    cpu.execute(0xE3A1).unwrap();
    assert_eq!(cpu.prog_counter, 2);
    cpu.execute(0x6303).unwrap();
    cpu.execute(0xE3A1).unwrap();
    assert_eq!(cpu.prog_counter, 4);
}

#[test]
fn ins_wait_for_keypress() {
    let mut cpu = Cpu::new();
    cpu.execute(0xF30A).unwrap();
    assert!(!cpu.running);
    assert_eq!(cpu.key_pause_register_to_set, 0x3);
    cpu.press_key(0xA);
    assert_eq!(cpu.v_reg[0x3], 0xA);
    assert!(cpu.running);
}

#[test]
fn ins_ld_dt_st() {
    let mut cpu = Cpu::new();
    cpu.execute(0x6304).unwrap();
    cpu.execute(0xF315).unwrap();
    assert_eq!(cpu.delay_timer, 0x4);
    cpu.execute(0xF318).unwrap();
    assert_eq!(cpu.sound_timer, 0x4);
}

#[test]
fn ins_ld_font_sprite() {
    let mut cpu = Cpu::new();
    cpu.execute(0x6504).unwrap();
    cpu.execute(0xF529).unwrap();
    assert_eq!(cpu.i_reg, 4 * 5);
}

#[test]
fn ins_ld_bcd() {
    let mut cpu = Cpu::new();
    cpu.execute(0x65FF).unwrap();
    cpu.execute(0xA200).unwrap();
    cpu.execute(0xF533).unwrap();
    assert_eq!(cpu.memory[0x200], 2);
    assert_eq!(cpu.memory[0x201], 5);
    assert_eq!(cpu.memory[0x202], 5);
}

#[test]
fn ins_ld_registers() {
    let mut cpu = Cpu::new();
    cpu.execute(0x6012).unwrap();
    cpu.execute(0x6113).unwrap();
    cpu.execute(0x6214).unwrap();
    cpu.execute(0xA200).unwrap();
    cpu.execute(0xF255).unwrap();
    assert_eq!(cpu.memory[0x200], 0x12);
    assert_eq!(cpu.memory[0x201], 0x13);
    assert_eq!(cpu.memory[0x202], 0x14);
    assert_eq!(cpu.memory[0x203], 0);
    cpu.execute(0x6000).unwrap();
    cpu.execute(0x6100).unwrap();
    cpu.execute(0x6200).unwrap();
    cpu.execute(0xF265).unwrap();
    assert_eq!(cpu.v_reg[0], 0x12);
    assert_eq!(cpu.v_reg[1], 0x13);
    assert_eq!(cpu.v_reg[2], 0x14);
    assert_eq!(cpu.v_reg[3], 0);
}

#[test]
fn writing_bytes() {
    let bytes = &[0x33, 0x45, 0x70, 0x33, 0x87, 0x29];
    let mut cpu = Cpu::new();
    assert!(cpu.write_bytes(0x200, bytes));

    for i in 0..3 {
        assert_eq!(cpu.memory[0x200 + i], bytes[i])
    }

    assert!(!cpu.write_bytes(0xFFC, bytes));
}

#[test]
fn press_key() {
    let mut cpu = Cpu::new();
    assert!(cpu.press_key(0x3));
    // Keys are indexed 0..=15: pressing key 3 sets bit 3, and key 0 is valid.
    assert_eq!(cpu.keys, 0b0000_0000_0000_1000);
    assert!(cpu.press_key(0x0));
    assert_eq!(cpu.keys, 0b0000_0000_0000_1001);
    assert!(!cpu.press_key(0x10));
}

#[test]
fn tick() {
    let mut cpu = Cpu::new();
    cpu.prog_counter = 0x200;
    cpu.memory[0x200] = 0x63;
    cpu.memory[0x201] = 0x12;
    cpu.tick().unwrap();
    assert_eq!(cpu.prog_counter, 0x202);
    assert_eq!(cpu.v_reg[3], 0x12);
    cpu.running = false;
    cpu.tick().unwrap();
    assert_eq!(cpu.prog_counter, 0x202);
}
