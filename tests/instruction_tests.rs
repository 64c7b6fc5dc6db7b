use chip8::Emulator;

#[test]
fn lib_new() {
    let chip8 = Emulator::new();

    // Program counter
    assert_eq!(
        chip8.program_counter, 0x200,
        "Program counter should be set to 0x200 rather than 0x{:X}",
        chip8.program_counter
    );
    // Memory
    assert_eq!(chip8.memory.len(), 4096);
    assert_eq!(chip8.bitmap.len(), 32);
    assert_eq!(chip8.bitmap[0].len(), 64);
    // I
    assert_eq!(chip8.i, 0);
    // V
    assert_eq!(chip8.v.len(), 16);
    for index in 0..16 {
        assert_eq!(chip8.v[index], 0);
    }
    // Stack
    assert_eq!(chip8.stack_pointer, 0);
    assert_eq!(chip8.stack.len(), 16);
    for index in 0..16 {
        assert_eq!(chip8.stack[index], 0);
    }
    // Display
    for x in 0..64 {
        for y in 0..32 {
            assert_eq!(chip8.pixel_at(x, y), false);
        }
    }
}

#[test]
fn lib_cls() {
    let mut chip8 = Emulator::new();
    for row in chip8.bitmap.iter_mut() {
        for pixel in row.iter_mut() {
            *pixel = true;
        }
    }

    chip8.cls();

    assert!(chip8
        .bitmap
        .iter()
        .all(|&row| row.iter().all(|&pixel| !pixel)));
}

#[test]
fn lib_ret() {
    let mut chip8 = Emulator::new();
    // Simulate entering a subroutine
    chip8.stack[chip8.stack_pointer as usize] = chip8.program_counter;
    let old_address: u16 = chip8.stack[chip8.stack_pointer as usize];
    chip8.stack_pointer += 1;
    // Set program counter to a different address
    chip8.program_counter = 0xF03D;

    chip8.ret();

    assert_eq!(chip8.stack_pointer, 0);
    assert_eq!(chip8.program_counter, old_address);
}

#[test]
fn lib_jp_addr() {
    let mut chip8 = Emulator::new();
    let nnn: u16 = 0xFD0;

    chip8.jp_addr(nnn);

    assert_eq!(chip8.program_counter, nnn);
}

#[test]
fn lib_call_addr() {
    let mut chip8 = Emulator::new();
    let nnn: u16 = 0x2E6;

    chip8.call_addr(nnn);

    assert_eq!(chip8.program_counter, nnn);
    assert_eq!(chip8.stack_pointer, 1);
    assert_eq!(chip8.stack[(chip8.stack_pointer - 1) as usize], 0x200);
}

#[test]
fn lib_se_vx_byte_skip() {
    let mut chip8 = Emulator::new();
    let x: usize = 0x0;
    let kk: u8 = 0x00;

    assert_eq!(chip8.v[x], kk);

    chip8.se_vx_byte(x, kk);

    assert_eq!(chip8.program_counter, 0x202);
}

#[test]
fn lib_se_vx_byte_no_skip() {
    let mut chip8 = Emulator::new();
    let x: usize = 0x0;
    let kk: u8 = 0x04;

    assert_ne!(chip8.v[x], kk);

    chip8.se_vx_byte(x, kk);

    assert_eq!(chip8.program_counter, 0x200);
}

#[test]
fn lib_sne_vx_byte_skip() {
    let mut chip8 = Emulator::new();
    let x: usize = 0x0;
    let kk: u8 = 0x04;

    assert_ne!(chip8.v[x], kk);

    chip8.sne_vx_byte(x, kk);

    assert_eq!(chip8.program_counter, 0x202);
}

#[test]
fn lib_sne_vx_byte_no_skip() {
    let mut chip8 = Emulator::new();
    let x: usize = 0x0;
    let kk: u8 = 0x00;

    assert_eq!(chip8.v[x], kk);

    chip8.sne_vx_byte(x, kk);

    assert_eq!(chip8.program_counter, 0x200);
}

#[test]
fn lib_se_vx_vy_skip() {
    let mut chip8 = Emulator::new();
    let x: usize = 0x0;
    let y: usize = 0x1;

    assert_eq!(chip8.v[x], chip8.v[y]);

    chip8.se_vx_vy(x, y);

    assert_eq!(chip8.program_counter, 0x202);
}

#[test]
fn lib_se_vx_vy_no_skip() {
    let mut chip8 = Emulator::new();
    let x: usize = 0x0;
    let y: usize = 0x1;
    chip8.v[y] = 1;

    assert_ne!(chip8.v[x], chip8.v[y]);

    chip8.se_vx_vy(x, y);

    assert_eq!(chip8.program_counter, 0x200);
}

#[test]
fn lib_ld_vx_byte() {
    let mut chip8 = Emulator::new();
    let x: usize = 1;
    let kk: u8 = 4;

    assert_ne!(chip8.v[x], kk);

    chip8.ld_vx_byte(x, kk);

    assert_eq!(chip8.v[x], kk);
}

#[test]
fn lib_add_vx_byte() {
    let mut chip8 = Emulator::new();
    let x: usize = 4;
    let kk: u8 = 2;
    chip8.v[x] = 5;

    chip8.add_vx_byte(x, kk);

    assert_eq!(chip8.v[x], 5 + kk);
}

#[test]
fn lib_ld_vx_vy() {
    let mut chip8 = Emulator::new();
    let x: usize = 1;
    let y: usize = 5;
    chip8.v[x] = 2;
    chip8.v[y] = 4;

    assert_ne!(chip8.v[x], chip8.v[y]);

    chip8.ld_vx_vy(x, y);

    assert_eq!(chip8.v[x], chip8.v[y]);
}

#[test]
fn lib_or_vx_vy() {
    let mut chip8 = Emulator::new();
    let x: usize = 1;
    let y: usize = 2;
    chip8.v[x] = 0b1100_0100;
    chip8.v[y] = 0b0111_0000;

    chip8.or_vx_vy(x, y);

    assert_eq!(chip8.v[x], 0b1111_0100);
}

#[test]
fn lib_and_vx_vy() {
    let mut chip8 = Emulator::new();
    let x: usize = 2;
    let y: usize = 0;
    chip8.v[x] = 0b1101_1001;
    chip8.v[y] = 0b0101_0010;

    chip8.and_vx_vy(x, y);

    assert_eq!(chip8.v[x], 0b0101_0000);
}

#[test]
fn lib_xor_vx_vy() {
    let mut chip8 = Emulator::new();
    let x: usize = 2;
    let y: usize = 8;
    chip8.v[x] = 0b1101_1001;
    chip8.v[y] = 0b0101_0010;

    chip8.xor_vx_vy(x, y);

    assert_eq!(chip8.v[x], 0b1000_1011);
}

#[test]
fn lib_add_vx_vy_carry() {
    let mut chip8 = Emulator::new();
    let x: usize = 1;
    let y: usize = 0;
    chip8.v[x] = 255;
    chip8.v[y] = 127;

    chip8.add_vx_vy(x, y);

    assert_eq!(chip8.v[x], 126);
    assert_eq!(chip8.v[0xF], 0x01);
}

#[test]
fn lib_add_vx_vy_no_carry() {
    let mut chip8 = Emulator::new();
    let x: usize = 5;
    let y: usize = 1;
    chip8.v[x] = 128;
    chip8.v[y] = 127;

    chip8.add_vx_vy(x, y);

    assert_eq!(chip8.v[x], 255);
    assert_eq!(chip8.v[0xF], 0x00);
}

#[test]
fn lib_sub_vx_vy_borrow() {
    let mut chip8 = Emulator::new();
    let x: usize = 1;
    let y: usize = 6;
    chip8.v[x] = 55;
    chip8.v[y] = 100;

    chip8.sub_vx_vy(x, y);

    assert_eq!(chip8.v[x], 211);
    assert_eq!(chip8.v[0xF], 0x00);
}

#[test]
fn lib_sub_vx_vy_no_borrow() {
    let mut chip8 = Emulator::new();
    let x: usize = 2;
    let y: usize = 0;
    chip8.v[x] = 100;
    chip8.v[y] = 55;

    chip8.sub_vx_vy(x, y);

    assert_eq!(chip8.v[x], 45);
    assert_eq!(chip8.v[0xF], 0x01);
}

#[test]
fn lib_shr_vx_lsb_is_set() {
    let mut chip8 = Emulator::new();
    let x: usize = 0;
    chip8.v[x] = 0b1011_0101;

    chip8.shr_vx(x);

    assert_eq!(chip8.v[x], 0b0101_1010);
    assert_eq!(chip8.v[0xF], 0x01);
}

#[test]
fn lib_shr_vx_lsb_is_not_set() {
    let mut chip8 = Emulator::new();
    let x: usize = 0;
    chip8.v[x] = 0b0110_0100;

    chip8.shr_vx(x);

    assert_eq!(chip8.v[x], 0b0011_0010);
    assert_eq!(chip8.v[0xF], 0x00);
}

#[test]
fn lib_subn_vx_vy_borrow() {
    let mut chip8 = Emulator::new();
    let x: usize = 1;
    let y: usize = 6;
    chip8.v[x] = 100;
    chip8.v[y] = 55;

    chip8.subn_vx_vy(x, y);

    assert_eq!(chip8.v[x], 211);
    assert_eq!(chip8.v[0xF], 0x00);
}

#[test]
fn lib_subn_vx_vy_no_borrow() {
    let mut chip8 = Emulator::new();
    let x: usize = 2;
    let y: usize = 0;
    chip8.v[x] = 20;
    chip8.v[y] = 55;

    chip8.subn_vx_vy(x, y);

    assert_eq!(chip8.v[x], 35);
    assert_eq!(chip8.v[0xF], 0x01);
}

#[test]
fn lib_shl_vx_msb_is_set() {
    let mut chip8 = Emulator::new();
    let x: usize = 0;
    chip8.v[x] = 0b1011_0101;

    chip8.shl_vx(x);

    assert_eq!(chip8.v[x], 0b0110_1010);
    assert_eq!(chip8.v[0xF], 0x01);
}

#[test]
fn lib_shl_vx_msb_is_not_set() {
    let mut chip8 = Emulator::new();
    let x: usize = 0;
    chip8.v[x] = 0b0110_0100;

    chip8.shl_vx(x);

    assert_eq!(chip8.v[x], 0b1100_1000);
    assert_eq!(chip8.v[0xF], 0x00);
}

#[test]
fn lib_sne_vx_vy_skip() {
    let mut chip8 = Emulator::new();
    let x: usize = 3;
    let y: usize = 4;
    chip8.v[x] = 2;
    chip8.v[y] = 0;

    chip8.sne_vx_vy(x, y);

    assert_eq!(chip8.program_counter, 0x202);
}

#[test]
fn lib_sne_vx_vy_no_skip() {
    let mut chip8 = Emulator::new();
    let x: usize = 0;
    let y: usize = 8;
    chip8.v[x] = 0;
    chip8.v[y] = 0;

    chip8.sne_vx_vy(x, y);

    assert_eq!(chip8.program_counter, 0x200);
}

#[test]
fn lib_ld_i_addr() {
    let mut chip8 = Emulator::new();
    let nnn: u16 = 0xF3B;

    chip8.ld_i_addr(nnn);

    assert_eq!(chip8.i, 0xF3B);
}

#[test]
fn lib_jp_v0_addr() {
    let mut chip8 = Emulator::new();
    chip8.v[0x0] = 0x0F0;
    let nnn: u16 = 0x203;

    chip8.jp_v0_addr(nnn);

    assert_eq!(chip8.program_counter, 0x2F3);
}

#[test]
fn lib_ld_vx_dt() {
    let mut chip8 = Emulator::new();
    let x: usize = 7;
    chip8.delay_timer = 0x3C;

    chip8.ld_vx_dt(x);

    assert_eq!(chip8.v[x], 0x3C);
}

#[test]
fn lib_ld_dt_vx() {
    let mut chip8 = Emulator::new();
    let x: usize = 2;
    chip8.v[x] = 0x2A;

    chip8.ld_dt_vx(x);

    assert_eq!(chip8.delay_timer, 0x2A);
    assert_eq!(chip8.sound_timer, 0);
}

#[test]
fn lib_ld_st_vx() {
    let mut chip8 = Emulator::new();
    let x: usize = 9;
    chip8.v[x] = 0x11;

    chip8.ld_st_vx(x);

    assert_eq!(chip8.sound_timer, 0x11);
    assert_eq!(chip8.delay_timer, 0);
}

#[test]
fn lib_add_i_vx() {
    let mut chip8 = Emulator::new();
    let x: usize = 3;
    chip8.v[x] = 10;
    chip8.i = 1 as u16;

    chip8.add_i_vx(x);

    assert_eq!(chip8.i, 11);
}

#[test]
fn lib_ld_f_vx() {
    let mut chip8 = Emulator::new();
    let x: usize = 5;
    chip8.v[x] = 0xA;

    chip8.ld_f_vx(x);

    assert_eq!(chip8.i, 50);
    assert_eq!(chip8.memory[chip8.i as usize], 0xF0);
    assert_eq!(chip8.memory[chip8.i as usize + 4], 0x90);
}

#[test]
fn lib_ld_b_vx() {
    let mut chip8 = Emulator::new();
    let x: usize = 4;
    chip8.v[x] = 241;
    chip8.i = 4;

    chip8.ld_b_vx(x);

    assert_eq!(chip8.memory[chip8.i as usize], 2);
    assert_eq!(chip8.memory[(chip8.i + 1) as usize], 4);
    assert_eq!(chip8.memory[(chip8.i + 2) as usize], 1);
}

#[test]
fn lib_ld_i_vx() {
    let mut chip8 = Emulator::new();
    let x: usize = 3;
    chip8.i = 0x300;
    chip8.v[0] = 10;
    chip8.v[1] = 20;
    chip8.v[2] = 30;
    chip8.v[3] = 40;
    chip8.v[4] = 50;

    chip8.ld_i_vx(x);

    assert_eq!(chip8.memory[0x300], 10);
    assert_eq!(chip8.memory[0x301], 20);
    assert_eq!(chip8.memory[0x302], 30);
    assert_eq!(chip8.memory[0x303], 40);
    assert_eq!(chip8.memory[0x304], 0);
    assert_eq!(chip8.i, 0x300);
}

#[test]
fn lib_ld_vx_i() {
    let mut chip8 = Emulator::new();
    let x: usize = 2;
    chip8.i = 0x400;
    chip8.memory[0x400] = 7;
    chip8.memory[0x401] = 8;
    chip8.memory[0x402] = 9;
    chip8.memory[0x403] = 10;
    chip8.v[3] = 99;

    chip8.ld_vx_i(x);

    assert_eq!(chip8.v[0], 7);
    assert_eq!(chip8.v[1], 8);
    assert_eq!(chip8.v[2], 9);
    assert_eq!(chip8.v[3], 99);
}
