//! The executable machine: every instruction as a method whose contract is
//! the instruction's meaning on the model in `state`.
use vstd::prelude::*;

use crate::rng::random_byte;
use crate::state::{
    blank_display, first_pressed, font, lemma_fields_bounded, lemma_wrap_col, lemma_wrap_row,
    sprite_col, sprite_row, word_at, Chip8State, Fault, KEY_COUNT, MEMORY_SIZE, ROM_CAPACITY, STACK_SIZE, VF,
};

verus! {

/// A CHIP-8 machine: memory, registers, call stack, display, timers and
/// keypad, with the generator that `Cxkk` draws from.
pub struct Emulator {
    pub program_counter: u16,
    pub memory: [u8; 4096],
    pub v: [u8; 16],
    pub i: u16,
    pub stack_pointer: u8,
    pub stack: [u16; 16],
    pub keyboard: [bool; 16],
    /// `bitmap[y][x]` is the pixel in row `y`, column `x`.
    pub bitmap: [[bool; 64]; 32],
    pub sound_timer: u8,
    pub delay_timer: u8,
    /// The generator that `Cxkk` draws from.
    pub rng: rand::rngs::ThreadRng,
}

impl View for Emulator {
    type V = Chip8State;

    open spec fn view(&self) -> Chip8State {
        Chip8State {
            pc: self.program_counter,
            memory: self.memory@,
            v: self.v@,
            i: self.i,
            sp: self.stack_pointer,
            stack: self.stack@,
            keys: self.keyboard@,
            display: Seq::new(32, |y: int| self.bitmap[y]@),
            delay: self.delay_timer,
            sound: self.sound_timer,
        }
    }
}

/// The built-in font as bytes.
fn font_bytes() -> (r: [u8; 80])
    ensures
        r@ == font(),
{
    let glyphs: [u8; 80] = [
        0xF0, 0x90, 0x90, 0x90, 0xF0, 0x20, 0x60, 0x20, 0x20, 0x70,
        0xF0, 0x10, 0xF0, 0x80, 0xF0, 0xF0, 0x10, 0xF0, 0x10, 0xF0,
        0x90, 0x90, 0xF0, 0x10, 0x10, 0xF0, 0x80, 0xF0, 0x10, 0xF0,
        0xF0, 0x80, 0xF0, 0x90, 0xF0, 0xF0, 0x10, 0x20, 0x40, 0x40,
        0xF0, 0x90, 0xF0, 0x90, 0xF0, 0xF0, 0x90, 0xF0, 0x10, 0xF0,
        0xF0, 0x90, 0xF0, 0x90, 0x90, 0xE0, 0x90, 0xE0, 0x90, 0xE0,
        0xF0, 0x80, 0x80, 0x80, 0xF0, 0xE0, 0x90, 0x90, 0x90, 0xE0,
        0xF0, 0x80, 0xF0, 0x80, 0xF0, 0xF0, 0x80, 0xF0, 0x80, 0x80,
    ];
    assert(glyphs@ =~= font());
    glyphs
}

impl Emulator {
    /// A machine with the font at address 0, everything else cleared, and
    /// the program counter at `0x200`.
    pub fn new() -> (r: Emulator)
        ensures
            r@.initial(),
    {
        let glyphs = font_bytes();
        let mut memory = [0u8; 4096];
        let mut a: usize = 0;
        while a < 80
            invariant
                a <= 80,
                glyphs@ == font(),
                forall|b: int| 0 <= b < 4096 ==> #[trigger] memory[b] == if b < a { font()[b] } else { 0 },
            decreases 80 - a,
        {
            memory[a] = glyphs[a];
            a += 1;
        }
        let r = Emulator {
            program_counter: 0x200,
            memory,
            v: [0u8; 16],
            i: 0,
            stack_pointer: 0,
            stack: [0u16; 16],
            keyboard: [false; 16],
            bitmap: [[false; 64]; 32],
            sound_timer: 0,
            delay_timer: 0,
            rng: rand::thread_rng(),
        };
        assert(r@.display =~~= blank_display());
        r
    }

    /// Whether the pixel at column `x`, row `y` is on.
    pub fn pixel_at(&self, x: usize, y: usize) -> (r: bool)
        requires
            x < 64,
            y < 32,
        ensures
            r == self@.pixel(x as int, y as int),
    {
        self.bitmap[y][x]
    }

    /// Copies a program image into memory from address `0x200` on.
    pub fn load(&mut self, rom: &[u8; ROM_CAPACITY])
        ensures
            final(self)@ == old(self)@.load(rom@),
    {
        let mut memory = self.memory;
        let mut a: usize = 0;
        while a < 0xE00
            invariant
                a <= 0xE00,
                forall|b: int|
                    0 <= b < 4096 ==> #[trigger] memory[b] == if 0x200 <= b < 0x200 + a {
                        rom[b - 0x200]
                    } else {
                        self.memory[b]
                    },
            decreases 0xE00 - a,
        {
            memory[0x200 + a] = rom[a];
            a += 1;
        }
        assert(memory@ =~= old(self)@.load(rom@).memory);
        self.memory = memory;
    }

    /// Sets key `key` down; pressing a key that is down changes nothing.
    pub fn key_press(&mut self, key: usize)
        requires
            key < 16,
        ensures
            final(self)@ == old(self)@.with_key(key as int, true),
    {
        self.keyboard[key] = true;
    }

    /// Sets key `key` up; only a key that is down can be released.
    pub fn key_release(&mut self, key: usize)
        requires
            key < 16,
            old(self).keyboard[key as int],
        ensures
            final(self)@ == old(self)@.with_key(key as int, false),
    {
        self.keyboard[key] = false;
    }

    /// One 60 Hz tick of the delay and sound timers.
    pub fn tick(&mut self)
        ensures
            final(self)@ == old(self)@.tick(),
    {
        if self.delay_timer > 0 {
            self.delay_timer = self.delay_timer - 1;
        }
        if self.sound_timer > 0 {
            self.sound_timer = self.sound_timer - 1;
        }
    }

    /// The big-endian word at `program_counter`.
    pub fn fetch(&self, program_counter: u16) -> (r: u16)
        requires
            program_counter + 1 < 4096,
        ensures
            r == word_at(self.memory@, program_counter as int),
    {
        let pc = program_counter as usize;
        let first_byte = self.memory[pc];
        let second_byte = self.memory[pc + 1];
        (first_byte as u16) * 256 + second_byte as u16
    }

    /// One instruction cycle with `random` as the byte that a `Cxkk`
    /// instruction uses: fetch the word at the program counter, step past
    /// it, and execute it. On a fault the machine is left as it was.
    pub fn instruction_cycle_with(&mut self, random: u8) -> (r: Result<(), Fault>)
        ensures
            match old(self)@.cycle(random) {
                Ok(s) => r == Ok::<(), Fault>(()) && final(self)@ == s,
                Err(e) => r == Err::<(), Fault>(e) && final(self)@ == old(self)@,
            },
    {
        let pc = self.program_counter;
        if pc as usize + 1 >= MEMORY_SIZE {
            return Err(Fault::PcOutOfBounds);
        }
        let opcode = self.fetch(pc);
        self.program_counter = pc + 2;
        let r = self.decode_and_execute(opcode, random);
        if r.is_err() {
            self.program_counter = pc;
        }
        r
    }

    /// The CHIP-8's fetch, decode, and execute instruction cycle, drawing
    /// the byte for a `Cxkk` instruction from the machine's generator.
    pub fn instruction_cycle(&mut self) -> (r: Result<(), Fault>)
        ensures
            exists|random: u8|
                match #[trigger] old(self)@.cycle(random) {
                    Ok(s) => r == Ok::<(), Fault>(()) && final(self)@ == s,
                    Err(e) => r == Err::<(), Fault>(e) && final(self)@ == old(self)@,
                },
    {
        let random = random_byte(&mut self.rng);
        assert(self@ == old(self)@);
        self.instruction_cycle_with(random)
    }

    /// Executes instruction word `opcode`, the program counter being past
    /// it already; `random` is the byte that a `Cxkk` instruction
    /// uses. On a fault nothing changes.
    pub fn decode_and_execute(&mut self, opcode: u16, random: u8) -> (r: Result<(), Fault>)
        ensures
            match old(self)@.execute(opcode, random) {
                Ok(s) => r == Ok::<(), Fault>(()) && final(self)@ == s,
                Err(e) => r == Err::<(), Fault>(e) && final(self)@ == old(self)@,
            },
    {
        proof {
            lemma_fields_bounded(opcode);
        }
        let family = opcode >> 12u16;
        let x = ((opcode >> 8u16) & 0xF) as usize;
        let y = ((opcode >> 4u16) & 0xF) as usize;
        let n = opcode & 0xF;
        let kk = (opcode & 0xFF) as u8;
        let nnn = opcode & 0xFFF;
        let unknown = Fault::UnknownOpcode { opcode, address: self.program_counter.wrapping_sub(2) };
        match family {
            0x0 => {
                if opcode == 0x00E0 {
                    self.cls();
                } else if opcode == 0x00EE {
                    if self.stack_pointer == 0 {
                        return Err(Fault::StackUnderflow);
                    } else if self.stack_pointer as usize > STACK_SIZE {
                        return Err(Fault::StackOverflow);
                    }
                    self.ret();
                } else {
                    return Err(unknown);
                }
            },
            0x1 => self.jp_addr(nnn),
            0x2 => {
                if self.stack_pointer as usize >= STACK_SIZE {
                    return Err(Fault::StackOverflow);
                }
                self.call_addr(nnn);
            },
            0x3 => self.se_vx_byte(x, kk),
            0x4 => self.sne_vx_byte(x, kk),
            0x5 => {
                if n != 0 {
                    return Err(unknown);
                }
                self.se_vx_vy(x, y);
            },
            0x6 => self.ld_vx_byte(x, kk),
            0x7 => self.add_vx_byte(x, kk),
            0x8 => match n {
                0x0 => self.ld_vx_vy(x, y),
                0x1 => self.or_vx_vy(x, y),
                0x2 => self.and_vx_vy(x, y),
                0x3 => self.xor_vx_vy(x, y),
                0x4 => self.add_vx_vy(x, y),
                0x5 => self.sub_vx_vy(x, y),
                0x6 => self.shr_vx(x),
                0x7 => self.subn_vx_vy(x, y),
                0xE => self.shl_vx(x),
                _ => return Err(unknown),
            },
            0x9 => {
                if n != 0 {
                    return Err(unknown);
                }
                self.sne_vx_vy(x, y);
            },
            0xA => self.ld_i_addr(nnn),
            0xB => self.jp_v0_addr(nnn),
            0xC => self.rnd_vx_byte_from(x, kk, random),
            0xD => {
                if self.i as usize + n as usize > MEMORY_SIZE {
                    return Err(Fault::MemoryOutOfBounds);
                }
                self.drw_vx_vy_nibble(x, y, n as u8);
            },
            0xE => {
                if kk != 0x9E && kk != 0xA1 {
                    return Err(unknown);
                }
                let key = self.v[x];
                if key as usize >= KEY_COUNT {
                    return Err(Fault::InvalidKey(key));
                }
                if kk == 0x9E {
                    self.skp_vx(x);
                } else {
                    self.sknp_vx(x);
                }
            },
            _ => match kk {
                0x07 => self.ld_vx_dt(x),
                0x0A => self.ld_vx_k(x),
                0x15 => self.ld_dt_vx(x),
                0x18 => self.ld_st_vx(x),
                0x1E => self.add_i_vx(x),
                0x29 => self.ld_f_vx(x),
                0x33 => {
                    if self.i as usize + 3 > MEMORY_SIZE {
                        return Err(Fault::MemoryOutOfBounds);
                    }
                    self.ld_b_vx(x);
                },
                0x55 => {
                    if self.i as usize + x + 1 > MEMORY_SIZE {
                        return Err(Fault::MemoryOutOfBounds);
                    }
                    self.ld_i_vx(x);
                },
                0x65 => {
                    if self.i as usize + x + 1 > MEMORY_SIZE {
                        return Err(Fault::MemoryOutOfBounds);
                    }
                    self.ld_vx_i(x);
                },
                _ => return Err(unknown),
            },
        }
        Ok(())
    }

    /// Skips the next instruction when `cond` holds.
    fn skip_if(&mut self, cond: bool)
        ensures
            final(self)@ == old(self)@.skip_if(cond),
    {
        if cond {
            self.program_counter = self.program_counter.wrapping_add(2);
        }
    }

    /// `00E0 - CLS`.
    pub fn cls(&mut self)
        ensures
            final(self)@ == old(self)@.cls(),
    {
        self.bitmap = [[false; 64]; 32];
        assert(self@.display =~~= blank_display());
    }

    /// `00EE - RET`.
    pub fn ret(&mut self)
        requires
            0 < old(self).stack_pointer <= 16,
        ensures
            final(self)@ == old(self)@.ret(),
    {
        self.stack_pointer = self.stack_pointer - 1;
        self.program_counter = self.stack[self.stack_pointer as usize];
    }

    /// `1nnn - JP addr`.
    pub fn jp_addr(&mut self, nnn: u16)
        ensures
            final(self)@ == old(self)@.jp_addr(nnn),
    {
        self.program_counter = nnn;
    }

    /// `2nnn - CALL addr`.
    pub fn call_addr(&mut self, nnn: u16)
        requires
            old(self).stack_pointer < 16,
        ensures
            final(self)@ == old(self)@.call_addr(nnn),
    {
        self.stack[self.stack_pointer as usize] = self.program_counter;
        self.stack_pointer = self.stack_pointer + 1;
        self.program_counter = nnn;
    }

    /// `3xkk - SE Vx, byte`.
    pub fn se_vx_byte(&mut self, x: usize, kk: u8)
        requires
            x < 16,
        ensures
            final(self)@ == old(self)@.se_vx_byte(x as int, kk),
    {
        let equal = self.v[x] == kk;
        self.skip_if(equal);
    }

    /// `4xkk - SNE Vx, byte`.
    pub fn sne_vx_byte(&mut self, x: usize, kk: u8)
        requires
            x < 16,
        ensures
            final(self)@ == old(self)@.sne_vx_byte(x as int, kk),
    {
        let differ = self.v[x] != kk;
        self.skip_if(differ);
    }

    /// `5xy0 - SE Vx, Vy`.
    pub fn se_vx_vy(&mut self, x: usize, y: usize)
        requires
            x < 16,
            y < 16,
        ensures
            final(self)@ == old(self)@.se_vx_vy(x as int, y as int),
    {
        let equal = self.v[x] == self.v[y];
        self.skip_if(equal);
    }

    /// `6xkk - LD Vx, byte`.
    pub fn ld_vx_byte(&mut self, x: usize, kk: u8)
        requires
            x < 16,
        ensures
            final(self)@ == old(self)@.ld_vx_byte(x as int, kk),
    {
        self.v[x] = kk;
    }

    /// `7xkk - ADD Vx, byte`.
    pub fn add_vx_byte(&mut self, x: usize, kk: u8)
        requires
            x < 16,
        ensures
            final(self)@ == old(self)@.add_vx_byte(x as int, kk),
    {
        self.v[x] = self.v[x].wrapping_add(kk);
    }

    /// `8xy0 - LD Vx, Vy`.
    pub fn ld_vx_vy(&mut self, x: usize, y: usize)
        requires
            x < 16,
            y < 16,
        ensures
            final(self)@ == old(self)@.ld_vx_vy(x as int, y as int),
    {
        self.v[x] = self.v[y];
    }

    /// `8xy1 - OR Vx, Vy`.
    pub fn or_vx_vy(&mut self, x: usize, y: usize)
        requires
            x < 16,
            y < 16,
        ensures
            final(self)@ == old(self)@.or_vx_vy(x as int, y as int),
    {
        self.v[x] = self.v[x] | self.v[y];
    }

    /// `8xy2 - AND Vx, Vy`.
    pub fn and_vx_vy(&mut self, x: usize, y: usize)
        requires
            x < 16,
            y < 16,
        ensures
            final(self)@ == old(self)@.and_vx_vy(x as int, y as int),
    {
        self.v[x] = self.v[x] & self.v[y];
    }

    /// `8xy3 - XOR Vx, Vy`.
    pub fn xor_vx_vy(&mut self, x: usize, y: usize)
        requires
            x < 16,
            y < 16,
        ensures
            final(self)@ == old(self)@.xor_vx_vy(x as int, y as int),
    {
        self.v[x] = self.v[x] ^ self.v[y];
    }

    /// `8xy4 - ADD Vx, Vy`.
    pub fn add_vx_vy(&mut self, x: usize, y: usize)
        requires
            x < 16,
            y < 16,
        ensures
            final(self)@ == old(self)@.add_vx_vy(x as int, y as int),
    {
        let sum: u16 = self.v[x] as u16 + self.v[y] as u16;
        self.v[x] = (sum % 256) as u8;
        self.v[VF] = if sum > 255 { 1 } else { 0 };
    }

    /// `8xy5 - SUB Vx, Vy`.
    pub fn sub_vx_vy(&mut self, x: usize, y: usize)
        requires
            x < 16,
            y < 16,
        ensures
            final(self)@ == old(self)@.sub_vx_vy(x as int, y as int),
    {
        let no_borrow = self.v[x] >= self.v[y];
        self.v[x] = self.v[x].wrapping_sub(self.v[y]);
        self.v[VF] = if no_borrow { 1 } else { 0 };
    }

    /// `8xy6 - SHR Vx`.
    pub fn shr_vx(&mut self, x: usize)
        requires
            x < 16,
        ensures
            final(self)@ == old(self)@.shr_vx(x as int),
    {
        self.v[VF] = self.v[x] % 2;
        self.v[x] = self.v[x] / 2;
    }

    /// `8xy7 - SUBN Vx, Vy`.
    pub fn subn_vx_vy(&mut self, x: usize, y: usize)
        requires
            x < 16,
            y < 16,
        ensures
            final(self)@ == old(self)@.subn_vx_vy(x as int, y as int),
    {
        let no_borrow = self.v[y] >= self.v[x];
        self.v[x] = self.v[y].wrapping_sub(self.v[x]);
        self.v[VF] = if no_borrow { 1 } else { 0 };
    }

    /// `8xyE - SHL Vx`.
    pub fn shl_vx(&mut self, x: usize)
        requires
            x < 16,
        ensures
            final(self)@ == old(self)@.shl_vx(x as int),
    {
        self.v[VF] = self.v[x] / 128;
        self.v[x] = ((self.v[x] as u16 * 2) % 256) as u8;
    }

    /// `9xy0 - SNE Vx, Vy`.
    pub fn sne_vx_vy(&mut self, x: usize, y: usize)
        requires
            x < 16,
            y < 16,
        ensures
            final(self)@ == old(self)@.sne_vx_vy(x as int, y as int),
    {
        let differ = self.v[x] != self.v[y];
        self.skip_if(differ);
    }

    /// `Annn - LD I, addr`.
    pub fn ld_i_addr(&mut self, nnn: u16)
        ensures
            final(self)@ == old(self)@.ld_i_addr(nnn),
    {
        self.i = nnn;
    }

    /// `Bnnn - JP V0, addr`.
    pub fn jp_v0_addr(&mut self, nnn: u16)
        ensures
            final(self)@ == old(self)@.jp_v0_addr(nnn),
    {
        self.program_counter = nnn.wrapping_add(self.v[0] as u16);
    }

    /// `Cxkk - RND Vx, byte` with the byte `random` in place of a draw.
    pub fn rnd_vx_byte_from(&mut self, x: usize, kk: u8, random: u8)
        requires
            x < 16,
        ensures
            final(self)@ == old(self)@.rnd_vx_byte(x as int, kk, random),
    {
        self.v[x] = kk & random;
    }

    /// `Cxkk - RND Vx, byte`, drawing the byte from the machine's generator.
    pub fn rnd_vx_byte(&mut self, x: usize, kk: u8)
        requires
            x < 16,
        ensures
            exists|random: u8| final(self)@ == old(self)@.rnd_vx_byte(x as int, kk, random),
    {
        let random = random_byte(&mut self.rng);
        self.rnd_vx_byte_from(x, kk, random);
        assert(self@ == old(self)@.rnd_vx_byte(x as int, kk, random));
    }

    /// `Dxyn - DRW Vx, Vy, nibble`.
    pub fn drw_vx_vy_nibble(&mut self, x: usize, y: usize, nibble: u8)
        requires
            x < 16,
            y < 16,
            nibble < 16,
            old(self).i + nibble <= 4096,
        ensures
            final(self)@ == old(self)@.drw_vx_vy_nibble(x as int, y as int, nibble),
    {
        let vx = self.v[x];
        let vy = self.v[y];
        let base = self.i as usize;
        let mut bitmap = self.bitmap;
        let mut collision = false;
        let mut row: u8 = 0;
        while row < nibble
            invariant
                x < 16,
                y < 16,
                row <= nibble < 16,
                vx == self.v[x as int],
                vy == self.v[y as int],
                base == self.i,
                base + nibble <= 4096,
                forall|r: int, c: int|
                    0 <= r < 32 && 0 <= c < 64 ==> #[trigger] bitmap[r][c] == (self.bitmap[r][c]
                        != (self@.covers(vx, vy, nibble, c, r) && sprite_row(vy, r) < row)),
                collision == exists|r: int, c: int|
                    0 <= r < 32 && 0 <= c < 64 && #[trigger] self.bitmap[r][c] && self@.covers(
                        vx,
                        vy,
                        nibble,
                        c,
                        r,
                    ) && sprite_row(vy, r) < row,
            decreases nibble - row,
        {
            let byte = self.memory[base + row as usize];
            let r = (vy as usize + row as usize) % 32;
            proof {
                lemma_wrap_row(vy, row as int);
            }
            let ghost collision_before = collision;
            let mut line = bitmap[r];
            let mut col: u8 = 0;
            while col < 8
                invariant
                    row < nibble < 16,
                    base + nibble <= 4096,
                    col <= 8,
                    r == (vy + row) % 32,
                    sprite_row(vy, r as int) == row,
                    byte == self.memory[base + row],
                    base == self.i,
                    forall|c: int|
                        0 <= c < 64 ==> #[trigger] line[c] == (self.bitmap[r as int][c] != (self@.covers(
                            vx,
                            vy,
                            nibble,
                            c,
                            r as int,
                        ) && sprite_col(vx, c) < col)),
                    collision == (collision_before || exists|c: int|
                        0 <= c < 64 && #[trigger] self.bitmap[r as int][c] && self@.covers(
                            vx,
                            vy,
                            nibble,
                            c,
                            r as int,
                        ) && sprite_col(vx, c) < col),
                decreases 8 - col,
            {
                let c = (vx as usize + col as usize) % 64;
                proof {
                    lemma_wrap_col(vx, col as int);
                }
                let bit = (byte >> (7 - col)) & 1 == 1;
                assert(bit == self@.covers(vx, vy, nibble, c as int, r as int));
                if line[c] && bit {
                    collision = true;
                }
                line[c] = line[c] != bit;
                col += 1;
            }
            bitmap[r] = line;
            row += 1;
        }
        proof {
            let s = old(self)@;
            if collision {
                let (r, c) = choose|r: int, c: int|
                    0 <= r < 32 && 0 <= c < 64 && #[trigger] self.bitmap[r][c] && self@.covers(
                        vx,
                        vy,
                        nibble,
                        c,
                        r,
                    ) && sprite_row(vy, r) < row;
                assert(s.pixel(c, r));
            }
            if s.collides(vx, vy, nibble) {
                let (c, r) = choose|c: int, r: int|
                    0 <= c < 64 && 0 <= r < 32 && #[trigger] s.pixel(c, r) && s.covers(
                        vx,
                        vy,
                        nibble,
                        c,
                        r,
                    );
                assert(self.bitmap[r][c]);
            }
        }
        self.bitmap = bitmap;
        self.v[VF] = if collision { 1 } else { 0 };
        assert(self@.display =~~= old(self)@.drw_vx_vy_nibble(x as int, y as int, nibble).display);
    }

    /// `Ex9E - SKP Vx`.
    pub fn skp_vx(&mut self, x: usize)
        requires
            x < 16,
            old(self).v[x as int] < 16,
        ensures
            final(self)@ == old(self)@.skp_vx(x as int),
    {
        let down = self.keyboard[self.v[x] as usize];
        self.skip_if(down);
    }

    /// `ExA1 - SKNP Vx`.
    pub fn sknp_vx(&mut self, x: usize)
        requires
            x < 16,
            old(self).v[x as int] < 16,
        ensures
            final(self)@ == old(self)@.sknp_vx(x as int),
    {
        let up = !self.keyboard[self.v[x] as usize];
        self.skip_if(up);
    }

    /// `Fx07 - LD Vx, DT`.
    pub fn ld_vx_dt(&mut self, x: usize)
        requires
            x < 16,
        ensures
            final(self)@ == old(self)@.ld_vx_dt(x as int),
    {
        self.v[x] = self.delay_timer;
    }

    /// `Fx0A - LD Vx, K`.
    pub fn ld_vx_k(&mut self, x: usize)
        requires
            x < 16,
        ensures
            final(self)@ == old(self)@.ld_vx_k(x as int),
    {
        let mut key: usize = 0;
        while key < 16 && !self.keyboard[key]
            invariant
                key <= 16,
                first_pressed(self.keyboard@, 0) == first_pressed(self.keyboard@, key as int),
            decreases 16 - key,
        {
            key += 1;
        }
        if key < 16 {
            self.v[x] = key as u8;
        } else {
            self.program_counter = self.program_counter.wrapping_sub(2);
        }
    }

    /// `Fx15 - LD DT, Vx`.
    pub fn ld_dt_vx(&mut self, x: usize)
        requires
            x < 16,
        ensures
            final(self)@ == old(self)@.ld_dt_vx(x as int),
    {
        self.delay_timer = self.v[x];
    }

    /// `Fx18 - LD ST, Vx`.
    pub fn ld_st_vx(&mut self, x: usize)
        requires
            x < 16,
        ensures
            final(self)@ == old(self)@.ld_st_vx(x as int),
    {
        self.sound_timer = self.v[x];
    }

    /// `Fx1E - ADD I, Vx`.
    pub fn add_i_vx(&mut self, x: usize)
        requires
            x < 16,
        ensures
            final(self)@ == old(self)@.add_i_vx(x as int),
    {
        self.i = self.i.wrapping_add(self.v[x] as u16);
    }

    /// `Fx29 - LD F, Vx`.
    pub fn ld_f_vx(&mut self, x: usize)
        requires
            x < 16,
        ensures
            final(self)@ == old(self)@.ld_f_vx(x as int),
    {
        self.i = 5 * (self.v[x] as u16);
    }

    /// `Fx33 - LD B, Vx`.
    pub fn ld_b_vx(&mut self, x: usize)
        requires
            x < 16,
            old(self).i + 3 <= 4096,
        ensures
            final(self)@ == old(self)@.ld_b_vx(x as int),
    {
        let i = self.i as usize;
        let val = self.v[x];
        self.memory[i] = val / 100;
        self.memory[i + 1] = (val / 10) % 10;
        self.memory[i + 2] = val % 10;
    }

    /// `Fx55 - LD [I], Vx`.
    pub fn ld_i_vx(&mut self, x: usize)
        requires
            x < 16,
            old(self).i + x + 1 <= 4096,
        ensures
            final(self)@ == old(self)@.ld_i_vx(x as int),
    {
        let base = self.i as usize;
        let mut memory = self.memory;
        let mut k: usize = 0;
        while k <= x
            invariant
                x < 16,
                base == self.i,
                base + x + 1 <= 4096,
                k <= x + 1,
                forall|a: int|
                    0 <= a < 4096 ==> #[trigger] memory[a] == if base <= a < base + k {
                        self.v[a - base]
                    } else {
                        self.memory[a]
                    },
            decreases x + 1 - k,
        {
            memory[base + k] = self.v[k];
            k += 1;
        }
        assert(memory@ =~= old(self)@.ld_i_vx(x as int).memory);
        self.memory = memory;
    }

    /// `Fx65 - LD Vx, [I]`.
    pub fn ld_vx_i(&mut self, x: usize)
        requires
            x < 16,
            old(self).i + x + 1 <= 4096,
        ensures
            final(self)@ == old(self)@.ld_vx_i(x as int),
    {
        let base = self.i as usize;
        let mut v = self.v;
        let mut k: usize = 0;
        while k <= x
            invariant
                x < 16,
                base == self.i,
                base + x + 1 <= 4096,
                k <= x + 1,
                forall|j: int|
                    0 <= j < 16 ==> #[trigger] v[j] == if j < k {
                        self.memory[base + j]
                    } else {
                        self.v[j]
                    },
            decreases x + 1 - k,
        {
            v[k] = self.memory[base + k];
            k += 1;
        }
        assert(v@ =~= old(self)@.ld_vx_i(x as int).v);
        self.v = v;
    }
}

} // verus!
