//! The mathematical model of a CHIP-8 machine, and the meaning of every
//! instruction as a function on that model.
use vstd::prelude::*;

verus! {

/// Width of the display, in pixels.
pub const DISPLAY_WIDTH: usize = 64;

/// Height of the display, in pixels.
pub const DISPLAY_HEIGHT: usize = 32;

/// Number of bytes of memory.
pub const MEMORY_SIZE: usize = 4096;

/// Number of return addresses the call stack holds.
pub const STACK_SIZE: usize = 16;

/// Number of keys on the keypad.
pub const KEY_COUNT: usize = 16;

/// Index of the flag register `VF`.
pub const VF: usize = 15;

/// Address at which a program is loaded and execution starts.
pub const PROGRAM_START: u16 = 0x200;

/// Largest program that fits in memory after `PROGRAM_START`.
pub const ROM_CAPACITY: usize = 0xE00;

/// Why the machine could not execute an instruction. The machine is left
/// exactly as it was before the failed instruction cycle.
#[derive(Clone, Copy, Debug, PartialEq, Eq, Structural)]
pub enum Fault {
    /// The word `opcode` at `address` is no CHIP-8 instruction; `0nnn`
    /// (SYS) is among these.
    UnknownOpcode { opcode: u16, address: u16 },
    /// `CALL` with all stack slots in use, or `RET` with a depth beyond
    /// the stack's capacity.
    StackOverflow,
    /// `RET` with an empty stack.
    StackUnderflow,
    /// The program counter leaves no room to fetch a two-byte word.
    PcOutOfBounds,
    /// The instruction reads or writes memory past its end through `I`.
    MemoryOutOfBounds,
    /// A key instruction names, through `Vx`, a key above `0xF`.
    InvalidKey(u8),
}

/// The 16 glyphs of the built-in hexadecimal font, five bytes each.
pub open spec fn font() -> Seq<u8> {
    seq![
        0xF0u8, 0x90, 0x90, 0x90, 0xF0, 0x20, 0x60, 0x20, 0x20, 0x70,
        0xF0, 0x10, 0xF0, 0x80, 0xF0, 0xF0, 0x10, 0xF0, 0x10, 0xF0,
        0x90, 0x90, 0xF0, 0x10, 0x10, 0xF0, 0x80, 0xF0, 0x10, 0xF0,
        0xF0, 0x80, 0xF0, 0x90, 0xF0, 0xF0, 0x10, 0x20, 0x40, 0x40,
        0xF0, 0x90, 0xF0, 0x90, 0xF0, 0xF0, 0x90, 0xF0, 0x10, 0xF0,
        0xF0, 0x90, 0xF0, 0x90, 0x90, 0xE0, 0x90, 0xE0, 0x90, 0xE0,
        0xF0, 0x80, 0x80, 0x80, 0xF0, 0xE0, 0x90, 0x90, 0x90, 0xE0,
        0xF0, 0x80, 0xF0, 0x80, 0xF0, 0xF0, 0x80, 0xF0, 0x80, 0x80,
    ]
}

/// A blank display: every pixel off.
pub open spec fn blank_display() -> Seq<Seq<bool>> {
    Seq::new(DISPLAY_HEIGHT as nat, |y: int| Seq::new(DISPLAY_WIDTH as nat, |x: int| false))
}

/// Bit `col` of a sprite row, counting from the most significant bit.
pub open spec fn sprite_bit(byte: u8, col: u8) -> bool {
    (byte >> (7 - col) as u8) & 1 == 1
}

/// Which row of a sprite drawn from row `vy` lands on display row `r`.
pub open spec fn sprite_row(vy: u8, r: int) -> int {
    (r + 32 - vy % 32) % 32
}

/// Which column of a sprite drawn from column `vx` lands on display
/// column `c`.
pub open spec fn sprite_col(vx: u8, c: int) -> int {
    (c + 64 - vx % 64) % 64
}

/// Sprite row `row` lands on display row `(vy + row) % 32`, and on no other.
pub proof fn lemma_wrap_row(vy: u8, row: int)
    requires
        0 <= row < 32,
    ensures
        sprite_row(vy, (vy + row) % 32) == row,
        forall|r: int| 0 <= r < 32 && #[trigger] sprite_row(vy, r) == row ==> r == (vy + row) % 32,
{
}

/// Sprite column `col` lands on display column `(vx + col) % 64`, and on no
/// other.
pub proof fn lemma_wrap_col(vx: u8, col: int)
    requires
        0 <= col < 64,
    ensures
        sprite_col(vx, (vx + col) % 64) == col,
        forall|c: int| 0 <= c < 64 && #[trigger] sprite_col(vx, c) == col ==> c == (vx + col) % 64,
{
}

/// The lowest key at or above `k` that is down, or 16 if there is none.
pub open spec fn first_pressed(keys: Seq<bool>, k: int) -> int
    decreases 16 - k,
{
    if k >= 16 {
        16
    } else if keys[k] {
        k
    } else {
        first_pressed(keys, k + 1)
    }
}

/// The word stored big-endian at `addr`, `addr + 1`.
pub open spec fn word_at(memory: Seq<u8>, addr: int) -> u16 {
    (memory[addr] * 256 + memory[addr + 1]) as u16
}

/// Register operand `x` of an instruction word (bits 8 to 11).
pub open spec fn x_of(op: u16) -> u16 {
    (op >> 8u16) & 0xF
}

/// Register operand `y` of an instruction word (bits 4 to 7).
pub open spec fn y_of(op: u16) -> u16 {
    (op >> 4u16) & 0xF
}

/// The 4-bit immediate `n` of an instruction word (bits 0 to 3).
pub open spec fn n_of(op: u16) -> u16 {
    op & 0xF
}

/// The byte immediate `kk` of an instruction word (bits 0 to 7).
pub open spec fn kk_of(op: u16) -> u16 {
    op & 0xFF
}

/// The 12-bit address `nnn` of an instruction word (bits 0 to 11).
pub open spec fn nnn_of(op: u16) -> u16 {
    op & 0xFFF
}

/// Every operand field of an instruction word is within its width.
pub proof fn lemma_fields_bounded(op: u16)
    ensures
        op >> 12u16 < 16,
        x_of(op) < 16,
        y_of(op) < 16,
        n_of(op) < 16,
        kk_of(op) < 256,
        nnn_of(op) < 4096,
{
    assert(op >> 12u16 < 16) by (bit_vector);
    assert((op >> 8u16) & 0xF < 16) by (bit_vector);
    assert((op >> 4u16) & 0xF < 16) by (bit_vector);
    assert(op & 0xF < 16) by (bit_vector);
    assert(op & 0xFF < 256) by (bit_vector);
    assert(op & 0xFFF < 4096) by (bit_vector);
}

/// What the machine is, seen as values: the view of an `Emulator`.
pub struct Chip8State {
    pub pc: u16,
    pub memory: Seq<u8>,
    pub v: Seq<u8>,
    pub i: u16,
    pub sp: u8,
    pub stack: Seq<u16>,
    pub keys: Seq<bool>,
    /// `display[y][x]` is the pixel in row `y`, column `x`.
    pub display: Seq<Seq<bool>>,
    pub delay: u8,
    pub sound: u8,
}

impl Chip8State {
    /// Every part has the size the machine gives it.
    pub open spec fn wf(self) -> bool {
        &&& self.memory.len() == MEMORY_SIZE
        &&& self.v.len() == 16
        &&& self.stack.len() == STACK_SIZE
        &&& self.keys.len() == KEY_COUNT
        &&& self.display.len() == DISPLAY_HEIGHT
        &&& forall|y: int| 0 <= y < DISPLAY_HEIGHT ==> #[trigger] self.display[y].len() == DISPLAY_WIDTH
    }

    /// The machine as it is constructed: the font at address 0, the rest of
    /// memory, the registers, stack, keys, timers and display cleared, and
    /// the program counter at `PROGRAM_START`.
    pub open spec fn initial(self) -> bool {
        &&& self.wf()
        &&& self.pc == PROGRAM_START
        &&& forall|a: int| 0 <= a < MEMORY_SIZE ==> #[trigger] self.memory[a] == if a < 80 { font()[a] } else { 0 }
        &&& forall|k: int| 0 <= k < 16 ==> #[trigger] self.v[k] == 0
        &&& self.i == 0
        &&& self.sp == 0
        &&& forall|k: int| 0 <= k < STACK_SIZE ==> #[trigger] self.stack[k] == 0
        &&& forall|k: int| 0 <= k < KEY_COUNT ==> !#[trigger] self.keys[k]
        &&& self.display == blank_display()
        &&& self.delay == 0
        &&& self.sound == 0
    }

    /// The same machine with register `Vx` set to `val`.
    pub open spec fn with_v(self, x: int, val: u8) -> Chip8State {
        Chip8State { v: self.v.update(x, val), ..self }
    }

    /// The same machine with the next instruction skipped when `cond` holds.
    pub open spec fn skip_if(self, cond: bool) -> Chip8State {
        if cond {
            Chip8State { pc: ((self.pc + 2) % 0x10000) as u16, ..self }
        } else {
            self
        }
    }

    /// The pixel at column `x`, row `y`.
    pub open spec fn pixel(self, x: int, y: int) -> bool {
        self.display[y][x]
    }

    /// The word that the next instruction cycle fetches.
    pub open spec fn next_word(self) -> u16 {
        word_at(self.memory, self.pc as int)
    }

    /// `00E0 - CLS`: every pixel off.
    pub open spec fn cls(self) -> Chip8State {
        Chip8State { display: blank_display(), ..self }
    }

    /// `00EE - RET`: pop the program counter from the stack.
    pub open spec fn ret(self) -> Chip8State {
        Chip8State { pc: self.stack[self.sp - 1], sp: (self.sp - 1) as u8, ..self }
    }

    /// `1nnn - JP addr`.
    pub open spec fn jp_addr(self, nnn: u16) -> Chip8State {
        Chip8State { pc: nnn, ..self }
    }

    /// `2nnn - CALL addr`: push the program counter, then jump.
    pub open spec fn call_addr(self, nnn: u16) -> Chip8State {
        Chip8State {
            stack: self.stack.update(self.sp as int, self.pc),
            sp: (self.sp + 1) as u8,
            pc: nnn,
            ..self
        }
    }

    /// `3xkk - SE Vx, byte`.
    pub open spec fn se_vx_byte(self, x: int, kk: u8) -> Chip8State {
        self.skip_if(self.v[x] == kk)
    }

    /// `4xkk - SNE Vx, byte`.
    pub open spec fn sne_vx_byte(self, x: int, kk: u8) -> Chip8State {
        self.skip_if(self.v[x] != kk)
    }

    /// `5xy0 - SE Vx, Vy`.
    pub open spec fn se_vx_vy(self, x: int, y: int) -> Chip8State {
        self.skip_if(self.v[x] == self.v[y])
    }

    /// `6xkk - LD Vx, byte`.
    pub open spec fn ld_vx_byte(self, x: int, kk: u8) -> Chip8State {
        self.with_v(x, kk)
    }

    /// `7xkk - ADD Vx, byte`: modulo 256, `VF` untouched.
    pub open spec fn add_vx_byte(self, x: int, kk: u8) -> Chip8State {
        self.with_v(x, ((self.v[x] + kk) % 256) as u8)
    }

    /// `8xy0 - LD Vx, Vy`.
    pub open spec fn ld_vx_vy(self, x: int, y: int) -> Chip8State {
        self.with_v(x, self.v[y])
    }

    /// `8xy1 - OR Vx, Vy`.
    pub open spec fn or_vx_vy(self, x: int, y: int) -> Chip8State {
        self.with_v(x, self.v[x] | self.v[y])
    }

    /// `8xy2 - AND Vx, Vy`.
    pub open spec fn and_vx_vy(self, x: int, y: int) -> Chip8State {
        self.with_v(x, self.v[x] & self.v[y])
    }

    /// `8xy3 - XOR Vx, Vy`.
    pub open spec fn xor_vx_vy(self, x: int, y: int) -> Chip8State {
        self.with_v(x, self.v[x] ^ self.v[y])
    }

    /// `8xy4 - ADD Vx, Vy`: `Vx = Vx + Vy` modulo 256, then `VF` = 1 on a
    /// carry, else 0.
    pub open spec fn add_vx_vy(self, x: int, y: int) -> Chip8State {
        let sum = self.v[x] + self.v[y];
        self.with_v(x, (sum % 256) as u8).with_v(VF as int, if sum > 255 { 1u8 } else { 0u8 })
    }

    /// `8xy5 - SUB Vx, Vy`: `Vx = Vx - Vy` modulo 256, then `VF` = 1 when
    /// there was no borrow (`Vx >= Vy`), else 0.
    pub open spec fn sub_vx_vy(self, x: int, y: int) -> Chip8State {
        let diff = self.v[x] - self.v[y];
        self.with_v(x, ((diff + 256) % 256) as u8).with_v(
            VF as int,
            if self.v[x] >= self.v[y] { 1u8 } else { 0u8 },
        )
    }

    /// `8xy6 - SHR Vx`: `VF` = the low bit of `Vx`, then `Vx` shifted right.
    pub open spec fn shr_vx(self, x: int) -> Chip8State {
        let flagged = self.with_v(VF as int, self.v[x] % 2);
        flagged.with_v(x, flagged.v[x] / 2)
    }

    /// `8xy7 - SUBN Vx, Vy`: `Vx = Vy - Vx` modulo 256, then `VF` = 1 when
    /// there was no borrow (`Vy >= Vx`), else 0.
    pub open spec fn subn_vx_vy(self, x: int, y: int) -> Chip8State {
        let diff = self.v[y] - self.v[x];
        self.with_v(x, ((diff + 256) % 256) as u8).with_v(
            VF as int,
            if self.v[y] >= self.v[x] { 1u8 } else { 0u8 },
        )
    }

    /// `8xyE - SHL Vx`: `VF` = the high bit of `Vx`, then `Vx` shifted left
    /// modulo 256.
    pub open spec fn shl_vx(self, x: int) -> Chip8State {
        let flagged = self.with_v(VF as int, self.v[x] / 128);
        flagged.with_v(x, ((flagged.v[x] * 2) % 256) as u8)
    }

    /// `9xy0 - SNE Vx, Vy`.
    pub open spec fn sne_vx_vy(self, x: int, y: int) -> Chip8State {
        self.skip_if(self.v[x] != self.v[y])
    }

    /// `Annn - LD I, addr`.
    pub open spec fn ld_i_addr(self, nnn: u16) -> Chip8State {
        Chip8State { i: nnn, ..self }
    }

    /// `Bnnn - JP V0, addr`: modulo 2^16.
    pub open spec fn jp_v0_addr(self, nnn: u16) -> Chip8State {
        Chip8State { pc: ((nnn + self.v[0]) % 0x10000) as u16, ..self }
    }

    /// `Cxkk - RND Vx, byte`, where `random` is the byte drawn.
    pub open spec fn rnd_vx_byte(self, x: int, kk: u8, random: u8) -> Chip8State {
        self.with_v(x, kk & random)
    }

    /// Whether the sprite of `n` rows at `I`, drawn with its top left
    /// corner at column `vx`, row `vy`, has a set bit on pixel `(c, r)`.
    pub open spec fn covers(self, vx: u8, vy: u8, n: u8, c: int, r: int) -> bool {
        let row = sprite_row(vy, r);
        let col = sprite_col(vx, c);
        &&& row < n
        &&& col < 8
        &&& sprite_bit(self.memory[self.i + row], col as u8)
    }

    /// Whether that sprite covers a pixel that is on: a collision.
    pub open spec fn collides(self, vx: u8, vy: u8, n: u8) -> bool {
        exists|c: int, r: int|
            0 <= c < DISPLAY_WIDTH && 0 <= r < DISPLAY_HEIGHT && #[trigger] self.pixel(c, r)
                && self.covers(vx, vy, n, c, r)
    }

    /// `Dxyn - DRW Vx, Vy, nibble`: every pixel that the sprite covers is
    /// flipped, coordinates wrapping round the display's edges; `VF` = 1 when
    /// a pixel went from on to off, else 0.
    pub open spec fn drw_vx_vy_nibble(self, x: int, y: int, n: u8) -> Chip8State {
        let vx = self.v[x];
        let vy = self.v[y];
        Chip8State {
            display: Seq::new(
                DISPLAY_HEIGHT as nat,
                |r: int|
                    Seq::new(
                        DISPLAY_WIDTH as nat,
                        |c: int| self.display[r][c] != self.covers(vx, vy, n, c, r),
                    ),
            ),
            ..self.with_v(VF as int, if self.collides(vx, vy, n) { 1u8 } else { 0u8 })
        }
    }

    /// `Ex9E - SKP Vx`: skip when key `Vx` is down.
    pub open spec fn skp_vx(self, x: int) -> Chip8State {
        self.skip_if(self.keys[self.v[x] as int])
    }

    /// `ExA1 - SKNP Vx`: skip when key `Vx` is up.
    pub open spec fn sknp_vx(self, x: int) -> Chip8State {
        self.skip_if(!self.keys[self.v[x] as int])
    }

    /// `Fx07 - LD Vx, DT`.
    pub open spec fn ld_vx_dt(self, x: int) -> Chip8State {
        self.with_v(x, self.delay)
    }

    /// `Fx0A - LD Vx, K`: with a key down, `Vx` = the lowest such key; with
    /// none, the program counter steps back so that the same word is
    /// fetched again.
    pub open spec fn ld_vx_k(self, x: int) -> Chip8State {
        let k = first_pressed(self.keys, 0);
        if k < 16 {
            self.with_v(x, k as u8)
        } else {
            Chip8State { pc: ((self.pc + 0x10000 - 2) % 0x10000) as u16, ..self }
        }
    }

    /// `Fx15 - LD DT, Vx`.
    pub open spec fn ld_dt_vx(self, x: int) -> Chip8State {
        Chip8State { delay: self.v[x], ..self }
    }

    /// `Fx18 - LD ST, Vx`.
    pub open spec fn ld_st_vx(self, x: int) -> Chip8State {
        Chip8State { sound: self.v[x], ..self }
    }

    /// `Fx1E - ADD I, Vx`: modulo 2^16.
    pub open spec fn add_i_vx(self, x: int) -> Chip8State {
        Chip8State { i: ((self.i + self.v[x]) % 0x10000) as u16, ..self }
    }

    /// `Fx29 - LD F, Vx`: `I` = the address of the glyph of digit `Vx`.
    pub open spec fn ld_f_vx(self, x: int) -> Chip8State {
        Chip8State { i: (5 * self.v[x]) as u16, ..self }
    }

    /// `Fx33 - LD B, Vx`: hundreds, tens and ones of `Vx` at `I`, `I+1`,
    /// `I+2`.
    pub open spec fn ld_b_vx(self, x: int) -> Chip8State {
        let val = self.v[x];
        Chip8State {
            memory: self.memory.update(self.i as int, val / 100).update(
                self.i + 1,
                (val / 10) % 10,
            ).update(self.i + 2, val % 10),
            ..self
        }
    }

    /// `Fx55 - LD [I], Vx`: `V0..=Vx` to memory from `I` on.
    pub open spec fn ld_i_vx(self, x: int) -> Chip8State {
        Chip8State {
            memory: Seq::new(
                self.memory.len(),
                |a: int|
                    if self.i <= a <= self.i + x {
                        self.v[a - self.i]
                    } else {
                        self.memory[a]
                    },
            ),
            ..self
        }
    }

    /// `Fx65 - LD Vx, [I]`: memory from `I` on to `V0..=Vx`.
    pub open spec fn ld_vx_i(self, x: int) -> Chip8State {
        Chip8State {
            v: Seq::new(
                self.v.len(),
                |k: int|
                    if k <= x {
                        self.memory[self.i + k]
                    } else {
                        self.v[k]
                    },
            ),
            ..self
        }
    }

    /// One 60 Hz tick: each timer that is above zero goes down by one.
    pub open spec fn tick(self) -> Chip8State {
        Chip8State {
            delay: if self.delay > 0 { (self.delay - 1) as u8 } else { 0 },
            sound: if self.sound > 0 { (self.sound - 1) as u8 } else { 0 },
            ..self
        }
    }

    /// Key `key` set down (`true`) or up (`false`).
    pub open spec fn with_key(self, key: int, down: bool) -> Chip8State {
        Chip8State { keys: self.keys.update(key, down), ..self }
    }

    /// `rom` copied into memory from `PROGRAM_START` on.
    pub open spec fn load(self, rom: Seq<u8>) -> Chip8State {
        Chip8State {
            memory: Seq::new(
                self.memory.len(),
                |a: int|
                    if PROGRAM_START <= a < PROGRAM_START + rom.len() {
                        rom[a - PROGRAM_START]
                    } else {
                        self.memory[a]
                    },
            ),
            ..self
        }
    }

    /// The outcome of executing instruction word `op`, with the program
    /// counter already past it; `random` is the byte that `Cxkk` uses.
    pub open spec fn execute(self, op: u16, random: u8) -> Result<Chip8State, Fault> {
        let unknown = Fault::UnknownOpcode { opcode: op, address: ((self.pc + 0x10000 - 2) % 0x10000) as u16 };
        let x = x_of(op) as int;
        let y = y_of(op) as int;
        let n = n_of(op);
        let kk = kk_of(op) as u8;
        let nnn = nnn_of(op);
        let family = op >> 12u16;
        if family == 0x0 {
            if op == 0x00E0 {
                Ok(self.cls())
            } else if op == 0x00EE {
                if self.sp == 0 {
                    Err(Fault::StackUnderflow)
                } else if self.sp > STACK_SIZE {
                    Err(Fault::StackOverflow)
                } else {
                    Ok(self.ret())
                }
            } else {
                Err(unknown)
            }
        } else if family == 0x1 {
            Ok(self.jp_addr(nnn))
        } else if family == 0x2 {
            if self.sp >= STACK_SIZE {
                Err(Fault::StackOverflow)
            } else {
                Ok(self.call_addr(nnn))
            }
        } else if family == 0x3 {
            Ok(self.se_vx_byte(x, kk))
        } else if family == 0x4 {
            Ok(self.sne_vx_byte(x, kk))
        } else if family == 0x5 {
            if n == 0 {
                Ok(self.se_vx_vy(x, y))
            } else {
                Err(unknown)
            }
        } else if family == 0x6 {
            Ok(self.ld_vx_byte(x, kk))
        } else if family == 0x7 {
            Ok(self.add_vx_byte(x, kk))
        } else if family == 0x8 {
            if n == 0x0 {
                Ok(self.ld_vx_vy(x, y))
            } else if n == 0x1 {
                Ok(self.or_vx_vy(x, y))
            } else if n == 0x2 {
                Ok(self.and_vx_vy(x, y))
            } else if n == 0x3 {
                Ok(self.xor_vx_vy(x, y))
            } else if n == 0x4 {
                Ok(self.add_vx_vy(x, y))
            } else if n == 0x5 {
                Ok(self.sub_vx_vy(x, y))
            } else if n == 0x6 {
                Ok(self.shr_vx(x))
            } else if n == 0x7 {
                Ok(self.subn_vx_vy(x, y))
            } else if n == 0xE {
                Ok(self.shl_vx(x))
            } else {
                Err(unknown)
            }
        } else if family == 0x9 {
            if n == 0 {
                Ok(self.sne_vx_vy(x, y))
            } else {
                Err(unknown)
            }
        } else if family == 0xA {
            Ok(self.ld_i_addr(nnn))
        } else if family == 0xB {
            Ok(self.jp_v0_addr(nnn))
        } else if family == 0xC {
            Ok(self.rnd_vx_byte(x, kk, random))
        } else if family == 0xD {
            if self.i + n > MEMORY_SIZE {
                Err(Fault::MemoryOutOfBounds)
            } else {
                Ok(self.drw_vx_vy_nibble(x, y, n as u8))
            }
        } else if family == 0xE {
            if kk != 0x9E && kk != 0xA1 {
                Err(unknown)
            } else if self.v[x] >= KEY_COUNT {
                Err(Fault::InvalidKey(self.v[x]))
            } else if kk == 0x9E {
                Ok(self.skp_vx(x))
            } else {
                Ok(self.sknp_vx(x))
            }
        } else {
            if kk == 0x07 {
                Ok(self.ld_vx_dt(x))
            } else if kk == 0x0A {
                Ok(self.ld_vx_k(x))
            } else if kk == 0x15 {
                Ok(self.ld_dt_vx(x))
            } else if kk == 0x18 {
                Ok(self.ld_st_vx(x))
            } else if kk == 0x1E {
                Ok(self.add_i_vx(x))
            } else if kk == 0x29 {
                Ok(self.ld_f_vx(x))
            } else if kk == 0x33 {
                if self.i + 3 > MEMORY_SIZE {
                    Err(Fault::MemoryOutOfBounds)
                } else {
                    Ok(self.ld_b_vx(x))
                }
            } else if kk == 0x55 {
                if self.i + x + 1 > MEMORY_SIZE {
                    Err(Fault::MemoryOutOfBounds)
                } else {
                    Ok(self.ld_i_vx(x))
                }
            } else if kk == 0x65 {
                if self.i + x + 1 > MEMORY_SIZE {
                    Err(Fault::MemoryOutOfBounds)
                } else {
                    Ok(self.ld_vx_i(x))
                }
            } else {
                Err(unknown)
            }
        }
    }

    /// The outcome of one instruction cycle: fetch the word at the program
    /// counter, step past it, execute it.
    pub open spec fn cycle(self, random: u8) -> Result<Chip8State, Fault> {
        if self.pc + 1 >= MEMORY_SIZE {
            Err(Fault::PcOutOfBounds)
        } else {
            Chip8State { pc: (self.pc + 2) as u16, ..self }.execute(self.next_word(), random)
        }
    }
}

} // verus!
