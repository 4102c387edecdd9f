use vstd::prelude::*;
use crate::machine::{
    Machine, Op, Handler, shaped, fontset, initial_machine, lemma_fields, skip_ok,
    STARTING_ADDRESS, FONTSET_STARTING_ADDRESS, FONTSET_SIZE, MEMORY_SIZE, spec_00e0, ok_00ee,
    spec_00ee, spec_1nnn, ok_2nnn, spec_2nnn, cond_3xkk, spec_3xkk, cond_4xkk, spec_4xkk,
    cond_5xy0, spec_5xy0, spec_6xkk, ok_7xkk, spec_7xkk, spec_8xy0, spec_8xy1, spec_8xy2,
    spec_8xy3, spec_8xy4, ok_8xy5, spec_8xy5, spec_8xy6, ok_8xy7, spec_8xy7, spec_8xye, cond_9xy0,
    spec_9xy0, spec_annn, spec_bnnn, spec_cxkk, ok_ex9e, spec_ex9e, ok_exa1, spec_exa1, spec_fx07,
    spec_fx15, spec_fx18, spec_fx1e, spec_fx29, ok_fx0a, spec_fx0a, lemma_first_key_skip, ok_fx33,
    spec_fx33, ok_fx55, spec_fx55, spec_fx65, field_x, ok_dxyn, spec_dxyn, sprite_covers,
    sprite_base, sprite_x, sprite_y, sprite_height, sprite_row, sprite_collides, VIDEO_SIZE,
    VIDEO_WIDTH, VIDEO_HEIGHT, op_ok, op_spec, handler_ok, handler_spec, fetch, tick_timers,
    cycle_ok, spec_cycle, spec_init_tables, main_table, table_f_init, NIBBLE_TABLE_SIZE,
    BYTE_TABLE_SIZE, spec_load_rom, NUM_REGISTERS, tables_wf,
};
use vstd::arithmetic::div_mod::{lemma_fundamental_div_mod, lemma_fundamental_div_mod_converse};
use crate::random::random_byte;

verus! {

/// The interpreter: registers, memory, stack, timers, keypad, screen and the
/// dispatch tables that map an opcode to its handler.
pub struct Chip8 {
    registers: [u8; 16],
    memory: [u8; 4096],
    index: u16,
    pc: u16,
    stack: [u16; 16],
    sp: u8,
    delay_timer: u8,
    sound_timer: u8,
    keypad: [u8; 16],
    video: [u32; 2048],
    opcode: u16,
    table: [Handler; 16],
    table_0: [Op; 15],
    table_8: [Op; 15],
    table_e: [Op; 15],
    table_f: [Op; 102],
}

impl View for Chip8 {
    type V = Machine;

    closed spec fn view(&self) -> Machine {
        Machine {
            registers: self.registers@,
            memory: self.memory@,
            index: self.index,
            pc: self.pc,
            stack: self.stack@,
            sp: self.sp,
            delay_timer: self.delay_timer,
            sound_timer: self.sound_timer,
            keypad: self.keypad@,
            video: self.video@,
            opcode: self.opcode,
            table: self.table@,
            table_0: self.table_0@,
            table_8: self.table_8@,
            table_e: self.table_e@,
            table_f: self.table_f@,
        }
    }
}

/// Every state of a `Chip8` has the sizes of its arrays.
pub proof fn lemma_shaped(c: &Chip8)
    ensures
        shaped(c@),
{
}

/// The font as an array.
fn fontset_bytes() -> (f: [u8; 80])
    ensures
        f@ == fontset(),
{
    let f: [u8; 80] = [
        0xF0, 0x90, 0x90, 0x90, 0xF0,
        0x20, 0x60, 0x20, 0x20, 0x70,
        0xF0, 0x10, 0xF0, 0x80, 0xF0,
        0xF0, 0x10, 0xF0, 0x10, 0xF0,
        0x90, 0x90, 0xF0, 0x10, 0x10,
        0xF0, 0x80, 0xF0, 0x10, 0xF0,
        0xF0, 0x80, 0xF0, 0x90, 0xF0,
        0xF0, 0x10, 0x20, 0x40, 0x40,
        0xF0, 0x90, 0xF0, 0x90, 0xF0,
        0xF0, 0x90, 0xF0, 0x10, 0xF0,
        0xF0, 0x90, 0xF0, 0x90, 0x90,
        0xE0, 0x90, 0xE0, 0x90, 0xE0,
        0xF0, 0x80, 0x80, 0x80, 0xF0,
        0xE0, 0x90, 0x90, 0x90, 0xE0,
        0xF0, 0x80, 0xF0, 0x80, 0xF0,
        0xF0, 0x80, 0xF0, 0x80, 0x80,
    ];
    assert(f@ =~= fontset());
    f
}

/// The screen after the sprite cells at offsets below `n` from the sprite's
/// corner have been drawn.
spec fn drawn_upto(s: Machine, n: int) -> Seq<u32> {
    Seq::new(
        VIDEO_SIZE as nat,
        |i: int|
            if sprite_covers(s, i) && i - sprite_base(s) < n {
                s.video[i] ^ 0xFFFF_FFFFu32
            } else {
                s.video[i]
            },
    )
}

/// Whether drawing the cells at offsets below `n` turned off a lit cell.
spec fn collides_upto(s: Machine, n: int) -> bool {
    exists|i: int|
        0 <= i < VIDEO_SIZE && #[trigger] sprite_covers(s, i) && i - sprite_base(s) < n
            && s.video[i] == 0xFFFF_FFFFu32
}

/// The state part way through drawing.
spec fn drawing(s: Machine, n: int) -> Machine {
    Machine {
        video: drawn_upto(s, n),
        registers: s.registers.update(15, if collides_upto(s, n) { 1u8 } else { 0u8 }),
        ..s
    }
}

/// Offset `64 * row + col` lies in sprite row `row`, column `col`.
proof fn lemma_offset(row: int, col: int)
    requires
        0 <= row,
        0 <= col < 64,
    ensures
        (64 * row + col) / 64 == row,
        (64 * row + col) % 64 == col,
{
    lemma_fundamental_div_mod_converse(64 * row + col, 64, row, col);
}

/// A covered cell lies below offset `64 * height`.
proof fn lemma_covered_below(s: Machine, i: int)
    requires
        sprite_covers(s, i),
    ensures
        i - sprite_base(s) < 64 * sprite_height(s),
{
    let d = i - sprite_base(s);
    lemma_fundamental_div_mod(d, 64);
}

/// Cells at offsets `64 * row + 8` up to `64 * (row + 1)` are never covered.
proof fn lemma_row_gap(s: Machine, row: int)
    requires
        0 <= row,
    ensures
        drawn_upto(s, 64 * row + 8) == drawn_upto(s, 64 * (row + 1)),
        collides_upto(s, 64 * row + 8) == collides_upto(s, 64 * (row + 1)),
{
    assert forall|i: int| sprite_covers(s, i) implies !(64 * row + 8 <= i - sprite_base(s) < 64 * (
    row + 1)) by {
        let d = i - sprite_base(s);
        if 64 * row + 8 <= d < 64 * (row + 1) {
            lemma_offset(row, d - 64 * row);
        }
    }
    assert(drawn_upto(s, 64 * row + 8) =~= drawn_upto(s, 64 * (row + 1)));
    if collides_upto(s, 64 * (row + 1)) {
        let j = choose|j: int|
            0 <= j < VIDEO_SIZE && #[trigger] sprite_covers(s, j) && j - sprite_base(s) < 64 * (row
                + 1) && s.video[j] == 0xFFFF_FFFFu32;
        assert(sprite_covers(s, j) && j - sprite_base(s) < 64 * row + 8);
    }
}

/// Drawing one more cell, at offset `n`.
proof fn lemma_draw_step(s: Machine, n: int, p: int)
    requires
        0 <= p < VIDEO_SIZE,
        p - sprite_base(s) == n,
    ensures
        drawn_upto(s, n + 1) == drawn_upto(s, n).update(
            p,
            if sprite_covers(s, p) {
                s.video[p] ^ 0xFFFF_FFFFu32
            } else {
                s.video[p]
            },
        ),
        drawn_upto(s, n)[p] == s.video[p],
        collides_upto(s, n + 1) == (collides_upto(s, n) || (sprite_covers(s, p) && s.video[p]
            == 0xFFFF_FFFFu32)),
{
    assert(drawn_upto(s, n + 1) =~= drawn_upto(s, n).update(
        p,
        if sprite_covers(s, p) {
            s.video[p] ^ 0xFFFF_FFFFu32
        } else {
            s.video[p]
        },
    ));
    if collides_upto(s, n + 1) {
        let j = choose|j: int|
            0 <= j < VIDEO_SIZE && #[trigger] sprite_covers(s, j) && j - sprite_base(s) < n + 1
                && s.video[j] == 0xFFFF_FFFFu32;
        if j != p {
            assert(collides_upto(s, n));
        }
    }
    if collides_upto(s, n) {
        let j = choose|j: int|
            0 <= j < VIDEO_SIZE && #[trigger] sprite_covers(s, j) && j - sprite_base(s) < n
                && s.video[j] == 0xFFFF_FFFFu32;
        assert(sprite_covers(s, j) && j - sprite_base(s) < n + 1);
    }
    if sprite_covers(s, p) && s.video[p] == 0xFFFF_FFFFu32 {
        assert(sprite_covers(s, p) && p - sprite_base(s) < n + 1);
    }
}

/// Once every row is drawn the screen is the one that `Dxyn` specifies.
proof fn lemma_draw_done(s: Machine)
    requires
        s.video.len() == VIDEO_SIZE,
    ensures
        drawing(s, 64 * sprite_height(s)) == spec_dxyn(s),
{
    assert forall|i: int| sprite_covers(s, i) implies i - sprite_base(s) < 64 * sprite_height(s) by {
        lemma_covered_below(s, i);
    }
    assert(drawn_upto(s, 64 * sprite_height(s)) =~= spec_dxyn(s).video);
    if sprite_collides(s) {
        let j = choose|j: int|
            0 <= j < VIDEO_SIZE && #[trigger] sprite_covers(s, j) && s.video[j] == 0xFFFF_FFFFu32;
        lemma_covered_below(s, j);
        assert(sprite_covers(s, j) && j - sprite_base(s) < 64 * sprite_height(s));
    }
    if collides_upto(s, 64 * sprite_height(s)) {
        let j = choose|j: int|
            0 <= j < VIDEO_SIZE && #[trigger] sprite_covers(s, j) && j - sprite_base(s) < 64
                * sprite_height(s) && s.video[j] == 0xFFFF_FFFFu32;
        assert(sprite_covers(s, j));
    }
    assert(drawing(s, 64 * sprite_height(s)).registers =~= spec_dxyn(s).registers);
}

impl Chip8 {
    /// A machine with the font loaded at `0x50`, `pc` at `0x200`, everything
    /// else zero and every table entry the empty handler.
    pub fn new() -> (chip8: Chip8)
        ensures
            chip8@ == initial_machine(),
            tables_wf(chip8@),
    {
        let mut chip8 = Chip8 {
            registers: [0u8; 16],
            memory: [0u8; 4096],
            index: 0,
            pc: STARTING_ADDRESS as u16,
            stack: [0u16; 16],
            sp: 0,
            delay_timer: 0,
            sound_timer: 0,
            keypad: [0u8; 16],
            video: [0u32; 2048],
            opcode: 0,
            table: [Handler::Run(Op::Null); 16],
            table_0: [Op::Null; 15],
            table_8: [Op::Null; 15],
            table_e: [Op::Null; 15],
            table_f: [Op::Null; 102],
        };
        let font = fontset_bytes();
        let mut i: usize = 0;
        while i < FONTSET_SIZE
            invariant
                0 <= i <= FONTSET_SIZE,
                font@ == fontset(),
                chip8@ == (Machine {
                    memory: Seq::new(
                        MEMORY_SIZE as nat,
                        |a: int|
                            if FONTSET_STARTING_ADDRESS <= a < FONTSET_STARTING_ADDRESS + i {
                                fontset()[a - FONTSET_STARTING_ADDRESS]
                            } else {
                                0u8
                            },
                    ),
                    ..initial_machine()
                }),
            decreases FONTSET_SIZE - i,
        {
            chip8.memory[FONTSET_STARTING_ADDRESS + i] = font[i];
            i = i + 1;
        }
        chip8
    }

    /// The empty handler: changes nothing.
    pub fn op_null(&mut self)
        ensures
            final(self)@ == old(self)@,
    {
    }

    /// `00E0`: clears the screen.
    pub fn op_00e0(&mut self)
        ensures
            final(self)@ == spec_00e0(old(self)@),
    {
        self.video = [0u32; 2048];
        assert(self.video@ =~= spec_00e0(old(self)@).video);
    }

    /// `00EE`: returns from a subroutine.
    pub fn op_00ee(&mut self)
        requires
            ok_00ee(old(self)@),
        ensures
            final(self)@ == spec_00ee(old(self)@),
    {
        self.sp -= 1;
        self.pc = self.stack[self.sp as usize];
    }

    /// `1nnn`: jumps to `nnn`.
    pub fn op_1nnn(&mut self)
        ensures
            final(self)@ == spec_1nnn(old(self)@),
    {
        let address: u16 = self.opcode & 0x0FFF;
        self.pc = address;
    }

    /// `2nnn`: pushes `pc` and jumps to `nnn`.
    pub fn op_2nnn(&mut self)
        requires
            ok_2nnn(old(self)@),
        ensures
            final(self)@ == spec_2nnn(old(self)@),
    {
        let address: u16 = self.opcode & 0x0FFF;
        self.stack[self.sp as usize] = self.pc;
        self.sp += 1;
        self.pc = address;
    }

    /// `3xkk`: skips the next instruction when `Vx == kk`.
    pub fn op_3xkk(&mut self)
        requires
            skip_ok(old(self)@, cond_3xkk(old(self)@)),
        ensures
            final(self)@ == spec_3xkk(old(self)@),
    {
        proof {
            lemma_fields(self.opcode);
        }
        let vx: u16 = (self.opcode & 0x0F00) >> 8;
        let byte: u16 = self.opcode & 0x00FF;
        if self.registers[vx as usize] == byte as u8 {
            self.pc += 2;
        }
    }

    /// `4xkk`: skips the next instruction when `Vx != kk`.
    pub fn op_4xkk(&mut self)
        requires
            skip_ok(old(self)@, cond_4xkk(old(self)@)),
        ensures
            final(self)@ == spec_4xkk(old(self)@),
    {
        proof {
            lemma_fields(self.opcode);
        }
        let vx: u16 = (self.opcode & 0x0F00) >> 8;
        let byte: u16 = self.opcode & 0x00FF;
        if self.registers[vx as usize] != byte as u8 {
            self.pc += 2;
        }
    }

    /// `5xy0`: skips the next instruction when `Vx != Vy`.
    pub fn op_5xy0(&mut self)
        requires
            skip_ok(old(self)@, cond_5xy0(old(self)@)),
        ensures
            final(self)@ == spec_5xy0(old(self)@),
    {
        proof {
            lemma_fields(self.opcode);
        }
        let vx: u16 = (self.opcode & 0x0F00) >> 8;
        let vy: u16 = (self.opcode & 0x00F0) >> 4;
        if self.registers[vx as usize] != self.registers[vy as usize] {
            self.pc += 2;
        }
    }

    /// `6xkk`: `Vx = kk`.
    pub fn op_6xkk(&mut self)
        ensures
            final(self)@ == spec_6xkk(old(self)@),
    {
        proof {
            lemma_fields(self.opcode);
        }
        let vx: u16 = (self.opcode & 0x0F00) >> 8;
        let byte: u16 = self.opcode & 0x00FF;
        self.registers[vx as usize] = byte as u8;
    }

    /// `7xkk`: `Vx = Vx + kk`.
    pub fn op_7xkk(&mut self)
        requires
            ok_7xkk(old(self)@),
        ensures
            final(self)@ == spec_7xkk(old(self)@),
    {
        proof {
            lemma_fields(self.opcode);
        }
        let vx: u16 = (self.opcode & 0x0F00) >> 8;
        let byte: u16 = self.opcode & 0x00FF;
        self.registers[vx as usize] = self.registers[vx as usize] + byte as u8;
    }

    /// `8xy0`: `Vx = Vy`.
    pub fn op_8xy0(&mut self)
        ensures
            final(self)@ == spec_8xy0(old(self)@),
    {
        proof {
            lemma_fields(self.opcode);
        }
        let vx: u16 = (self.opcode & 0x0F00) >> 8;
        let vy: u16 = (self.opcode & 0x00F0) >> 4;
        self.registers[vx as usize] = self.registers[vy as usize];
    }

    /// `8xy1`: `Vx = Vx | Vy`.
    pub fn op_8xy1(&mut self)
        ensures
            final(self)@ == spec_8xy1(old(self)@),
    {
        proof {
            lemma_fields(self.opcode);
        }
        let vx: u16 = (self.opcode & 0x0F00) >> 8;
        let vy: u16 = (self.opcode & 0x00F0) >> 4;
        self.registers[vx as usize] = self.registers[vx as usize] | self.registers[vy as usize];
    }

    /// `8xy2`: `Vx = Vx & Vy`.
    pub fn op_8xy2(&mut self)
        ensures
            final(self)@ == spec_8xy2(old(self)@),
    {
        proof {
            lemma_fields(self.opcode);
        }
        let vx: u16 = (self.opcode & 0x0F00) >> 8;
        let vy: u16 = (self.opcode & 0x00F0) >> 4;
        self.registers[vx as usize] = self.registers[vx as usize] & self.registers[vy as usize];
    }

    /// `8xy3`: `Vx = Vx ^ Vy`.
    pub fn op_8xy3(&mut self)
        ensures
            final(self)@ == spec_8xy3(old(self)@),
    {
        proof {
            lemma_fields(self.opcode);
        }
        let vx: u16 = (self.opcode & 0x0F00) >> 8;
        let vy: u16 = (self.opcode & 0x00F0) >> 4;
        self.registers[vx as usize] = self.registers[vx as usize] ^ self.registers[vy as usize];
    }

    /// `8xy4`: `VF` is the carry of `Vx + Vy`; `Vx` is the sum modulo 256.
    pub fn op_8xy4(&mut self)
        ensures
            final(self)@ == spec_8xy4(old(self)@),
    {
        proof {
            lemma_fields(self.opcode);
        }
        let vx: u16 = (self.opcode & 0x0F00) >> 8;
        let vy: u16 = (self.opcode & 0x00F0) >> 4;
        let sum: u16 = self.registers[vx as usize] as u16 + self.registers[vy as usize] as u16;
        if sum > 255 {
            self.registers[0xF] = 1;
        } else {
            self.registers[0xF] = 0;
        }
        assert(sum & 0xFFu16 == sum % 256) by (bit_vector);
        self.registers[vx as usize] = (sum & 0xFF) as u8;
    }

    /// `8xy5`: `VF = Vx > Vy`, then `Vx = Vx - Vy`.
    pub fn op_8xy5(&mut self)
        requires
            ok_8xy5(old(self)@),
        ensures
            final(self)@ == spec_8xy5(old(self)@),
    {
        proof {
            lemma_fields(self.opcode);
        }
        let vx: u16 = (self.opcode & 0x0F00) >> 8;
        let vy: u16 = (self.opcode & 0x00F0) >> 4;
        if self.registers[vx as usize] > self.registers[vy as usize] {
            self.registers[0xF] = 1;
        } else {
            self.registers[0xF] = 0;
        }
        self.registers[vx as usize] = self.registers[vx as usize] - self.registers[vy as usize];
    }

    /// `8xy6`: `VF` is the low bit of `Vx`, then `Vx` is shifted right.
    pub fn op_8xy6(&mut self)
        ensures
            final(self)@ == spec_8xy6(old(self)@),
    {
        proof {
            lemma_fields(self.opcode);
        }
        let vx: u16 = (self.opcode & 0x0F00) >> 8;
        let v: u8 = self.registers[vx as usize];
        assert(v & 0x1u8 == v % 2) by (bit_vector);
        self.registers[0xF] = self.registers[vx as usize] & 0x1;
        let w: u8 = self.registers[vx as usize];
        assert(w >> 1u8 == w / 2) by (bit_vector);
        self.registers[vx as usize] = self.registers[vx as usize] >> 1;
    }

    /// `8xy7`: `VF = Vy > Vx`, then `Vx = Vy - Vx`.
    pub fn op_8xy7(&mut self)
        requires
            ok_8xy7(old(self)@),
        ensures
            final(self)@ == spec_8xy7(old(self)@),
    {
        proof {
            lemma_fields(self.opcode);
        }
        let vx: u16 = (self.opcode & 0x0F00) >> 8;
        let vy: u16 = (self.opcode & 0x00F0) >> 4;
        if self.registers[vy as usize] > self.registers[vx as usize] {
            self.registers[0xF] = 1;
        } else {
            self.registers[0xF] = 0;
        }
        self.registers[vx as usize] = self.registers[vy as usize] - self.registers[vx as usize];
    }

    /// `8xyE`: `VF = (Vx & 8) >> 7`, then `Vx` is shifted left.
    pub fn op_8xye(&mut self)
        ensures
            final(self)@ == spec_8xye(old(self)@),
    {
        proof {
            lemma_fields(self.opcode);
        }
        let vx: u16 = (self.opcode & 0x0F00) >> 8;
        let v: u8 = self.registers[vx as usize];
        assert((v & 8u8) >> 7u8 == 0u8) by (bit_vector);
        self.registers[0xF] = (self.registers[vx as usize] & 8) >> 7;
        let w: u8 = self.registers[vx as usize];
        assert(w << 1u8 == ((w * 2) % 256) as u8) by (bit_vector);
        self.registers[vx as usize] = self.registers[vx as usize] << 1;
    }

    /// `9xy0`: skips the next instruction when `Vx != Vy`.
    pub fn op_9xy0(&mut self)
        requires
            skip_ok(old(self)@, cond_9xy0(old(self)@)),
        ensures
            final(self)@ == spec_9xy0(old(self)@),
    {
        proof {
            lemma_fields(self.opcode);
        }
        let vx: u16 = (self.opcode & 0x0F00) >> 8;
        let vy: u16 = (self.opcode & 0x00F0) >> 4;
        if self.registers[vx as usize] != self.registers[vy as usize] {
            self.pc += 2;
        }
    }

    /// `Annn`: `I = nnn`.
    pub fn op_annn(&mut self)
        ensures
            final(self)@ == spec_annn(old(self)@),
    {
        let address: u16 = self.opcode & 0x0FFF;
        self.index = address;
    }

    /// `Bnnn`: `I = nnn`, and jumps to `V0 + nnn`.
    pub fn op_bnnn(&mut self)
        ensures
            final(self)@ == spec_bnnn(old(self)@),
    {
        proof {
            lemma_fields(self.opcode);
        }
        let address: u16 = self.opcode & 0x0FFF;
        self.index = address;
        self.pc = self.registers[0] as u16 + address;
    }

    /// `Cxkk`: `Vx` is a random byte masked by `kk`.
    pub fn op_cxkk(&mut self)
        ensures
            exists|r: u8| final(self)@ == spec_cxkk(old(self)@, r),
    {
        let x: u8 = random_byte();
        self.apply_cxkk(x);
    }

    /// `Cxkk` with the drawn byte `random`: `Vx = random & kk`.
    pub fn apply_cxkk(&mut self, random: u8)
        ensures
            final(self)@ == spec_cxkk(old(self)@, random),
    {
        proof {
            lemma_fields(self.opcode);
        }
        let vx: u16 = (self.opcode & 0x0F00) >> 8;
        let byte: u16 = self.opcode & 0x00FF;
        self.registers[vx as usize] = random & byte as u8;
    }

    /// `Ex9E`: skips the next instruction when key `Vx` is pressed.
    pub fn op_ex9e(&mut self)
        requires
            ok_ex9e(old(self)@),
        ensures
            final(self)@ == spec_ex9e(old(self)@),
    {
        proof {
            lemma_fields(self.opcode);
        }
        let vx: u16 = (self.opcode & 0x0F00) >> 8;
        let key: u8 = self.registers[vx as usize];
        if self.keypad[key as usize] != 0 {
            self.pc += 2;
        }
    }

    /// `ExA1`: skips the next instruction when key `Vx` is not pressed.
    pub fn op_exa1(&mut self)
        requires
            ok_exa1(old(self)@),
        ensures
            final(self)@ == spec_exa1(old(self)@),
    {
        proof {
            lemma_fields(self.opcode);
        }
        let vx: u16 = (self.opcode & 0x0F00) >> 8;
        let key: u8 = self.registers[vx as usize];
        if self.keypad[key as usize] == 0 {
            self.pc += 2;
        }
    }

    /// `Fx07`: `Vx = DT`.
    pub fn op_fx07(&mut self)
        ensures
            final(self)@ == spec_fx07(old(self)@),
    {
        proof {
            lemma_fields(self.opcode);
        }
        let vx: u16 = (self.opcode & 0x0F00) >> 8;
        self.registers[vx as usize] = self.delay_timer;
    }

    /// `Fx15`: `DT = Vx`.
    pub fn op_fx15(&mut self)
        ensures
            final(self)@ == spec_fx15(old(self)@),
    {
        proof {
            lemma_fields(self.opcode);
        }
        let vx: u16 = (self.opcode & 0x0F00) >> 8;
        self.delay_timer = self.registers[vx as usize];
    }

    /// `Fx18`: `ST = Vx`.
    pub fn op_fx18(&mut self)
        ensures
            final(self)@ == spec_fx18(old(self)@),
    {
        proof {
            lemma_fields(self.opcode);
        }
        let vx: u16 = (self.opcode & 0x0F00) >> 8;
        self.sound_timer = self.registers[vx as usize];
    }

    /// `Fx1E`: `I = Vx`.
    pub fn op_fx1e(&mut self)
        ensures
            final(self)@ == spec_fx1e(old(self)@),
    {
        proof {
            lemma_fields(self.opcode);
        }
        let vx: u16 = (self.opcode & 0x0F00) >> 8;
        self.index = self.registers[vx as usize] as u16;
    }

    /// `Fx29`: `I` is the address of the glyph of digit `Vx`.
    pub fn op_fx29(&mut self)
        ensures
            final(self)@ == spec_fx29(old(self)@),
    {
        proof {
            lemma_fields(self.opcode);
        }
        let vx: u16 = (self.opcode & 0x0F00) >> 8;
        let digit: u16 = self.registers[vx as usize] as u16;
        self.index = (FONTSET_STARTING_ADDRESS + (5 * digit) as usize) as u16;
    }

    /// `Fx0A`: `Vx` is the lowest pressed key; with no key pressed, `pc`
    /// steps back so that the instruction runs again.
    pub fn op_fx0a(&mut self)
        requires
            ok_fx0a(old(self)@),
        ensures
            final(self)@ == spec_fx0a(old(self)@),
    {
        proof {
            lemma_fields(self.opcode);
        }
        let vx: u16 = (self.opcode & 0x0F00) >> 8;
        let mut k: usize = 0;
        while k < 16 && self.keypad[k] == 0
            invariant
                k <= 16,
                forall|j: int| 0 <= j < k ==> self.keypad[j] == 0,
            decreases 16 - k,
        {
            k += 1;
        }
        proof {
            lemma_first_key_skip(self.keypad@, 0, k as int);
        }
        if k < 16 {
            self.registers[vx as usize] = k as u8;
        } else {
            self.pc -= 2;
        }
    }

    /// `Fx33`: stores the hundreds, tens and ones digits of `Vx` at `I`,
    /// `I + 1` and `I + 2`.
    pub fn op_fx33(&mut self)
        requires
            ok_fx33(old(self)@),
        ensures
            final(self)@ == spec_fx33(old(self)@),
    {
        proof {
            lemma_fields(self.opcode);
        }
        let vx: u16 = (self.opcode & 0x0F00) >> 8;
        let mut value: u16 = self.registers[vx as usize] as u16;
        let ghost v = value;
        self.memory[(self.index + 2) as usize] = (value % 10) as u8;
        value /= 10;
        self.memory[(self.index + 1) as usize] = (value % 10) as u8;
        value /= 10;
        assert((v / 10) / 10 == v / 100) by (nonlinear_arith)
            requires
                v < 256,
        ;
        self.memory[self.index as usize] = (value % 10) as u8;
        assert(self.memory@ =~= spec_fx33(old(self)@).memory);
    }

    /// `Fx55`: stores `V0..=Vx` at `I..=I + x`.
    pub fn op_fx55(&mut self)
        requires
            ok_fx55(old(self)@),
        ensures
            final(self)@ == spec_fx55(old(self)@),
    {
        proof {
            lemma_fields(self.opcode);
        }
        let ghost s0 = self@;
        let vx: u16 = (self.opcode & 0x0F00) >> 8;
        let mut i: u16 = 0;
        while i < vx + 1
            invariant
                vx == field_x(s0.opcode),
                vx < 16,
                i <= vx + 1,
                ok_fx55(s0),
                self@ == (Machine {
                    memory: Seq::new(
                        MEMORY_SIZE as nat,
                        |a: int|
                            if s0.index <= a < s0.index + i {
                                s0.registers[a - s0.index]
                            } else {
                                s0.memory[a]
                            },
                    ),
                    ..s0
                }),
            decreases vx + 1 - i,
        {
            self.memory[(self.index + i) as usize] = self.registers[i as usize];
            i += 1;
        }
    }

    /// `Fx65`: loads `V0..=Vx` from `I..=I + x`.
    pub fn op_fx65(&mut self)
        requires
            ok_fx55(old(self)@),
        ensures
            final(self)@ == spec_fx65(old(self)@),
    {
        proof {
            lemma_fields(self.opcode);
        }
        let ghost s0 = self@;
        let vx: u16 = (self.opcode & 0x0F00) >> 8;
        let mut i: u16 = 0;
        while i < vx + 1
            invariant
                vx == field_x(s0.opcode),
                vx < 16,
                i <= vx + 1,
                ok_fx55(s0),
                self@ == (Machine {
                    registers: Seq::new(
                        16,
                        |r: int|
                            if r < i {
                                s0.memory[s0.index + r]
                            } else {
                                s0.registers[r]
                            },
                    ),
                    ..s0
                }),
            decreases vx + 1 - i,
        {
            self.registers[i as usize] = self.memory[(self.index + i) as usize];
            i += 1;
        }
    }

    /// `Dxyn`: XORs the `n`-byte sprite at `I` onto the screen at
    /// `(Vx mod 64, Vy mod 32)`; `VF` is 1 when a lit cell was turned off.
    pub fn op_dxyn(&mut self)
        requires
            ok_dxyn(old(self)@),
        ensures
            final(self)@ == spec_dxyn(old(self)@),
    {
        proof {
            lemma_fields(self.opcode);
        }
        let ghost s0 = self@;
        let vx: u8 = ((self.opcode & 0x0F00) >> 8) as u8;
        let vy: u8 = ((self.opcode & 0x00F0) >> 4) as u8;
        let height: u8 = (self.opcode & 0x000F) as u8;
        let posx: u8 = self.registers[vx as usize] % VIDEO_WIDTH as u8;
        let posy: u8 = self.registers[vy as usize] % VIDEO_HEIGHT as u8;
        self.registers[0xF] = 0;
        proof {
            assert(collides_upto(s0, 0) == false);
            assert(drawn_upto(s0, 0) =~= s0.video);
            assert(self@ =~= drawing(s0, 0));
        }
        let mut row: u8 = 0;
        while row < height
            invariant
                row <= height,
                height == sprite_height(s0),
                posx == sprite_x(s0),
                posy == sprite_y(s0),
                ok_dxyn(s0),
                s0.video.len() == VIDEO_SIZE,
                s0.memory.len() == MEMORY_SIZE,
                s0.registers.len() == 16,
                self@ == drawing(s0, 64 * row),
            decreases height - row,
        {
            let sprite_byte: u8 = self.memory[(self.index + row as u16) as usize];
            let mut col: u8 = 0;
            while col < 8
                invariant
                    row < height,
                    col <= 8,
                    height == sprite_height(s0),
                    posx == sprite_x(s0),
                    posy == sprite_y(s0),
                    ok_dxyn(s0),
                    s0.video.len() == VIDEO_SIZE,
                    s0.registers.len() == 16,
                    sprite_byte == sprite_row(s0, row as int),
                    self@ == drawing(s0, 64 * row + col),
                decreases 8 - col,
            {
                let sprite_pixel: u8 = sprite_byte & (0x80u8 >> col);
                let p: usize = (posy as usize + row as usize) * VIDEO_WIDTH + (posx as usize
                    + col as usize);
                proof {
                    let n = 64 * row + col;
                    lemma_offset(row as int, col as int);
                    assert(p - sprite_base(s0) == n);
                    assert(sprite_covers(s0, p as int) == (sprite_pixel != 0));
                    lemma_draw_step(s0, n, p as int);
                }
                if sprite_pixel != 0 {
                    if self.video[p] == 0xFFFF_FFFF {
                        self.registers[0xF] = 1;
                    }
                    self.video[p] = self.video[p] ^ 0xFFFF_FFFF;
                }
                proof {
                    let n = 64 * row + col;
                    assert(self.registers@ =~= drawing(s0, n + 1).registers);
                    assert(self.video@ =~= drawing(s0, n + 1).video);
                }
                col += 1;
            }
            proof {
                lemma_row_gap(s0, row as int);
            }
            row += 1;
        }
        proof {
            lemma_draw_done(s0);
        }
    }

    /// Runs the leaf handler `op`.
    fn execute(&mut self, op: Op)
        requires
            op_ok(old(self)@, op),
        ensures
            exists|r: u8| final(self)@ == op_spec(old(self)@, op, r),
    {
        match op {
            Op::Null => self.op_null(),
            Op::Op00e0 => self.op_00e0(),
            Op::Op00ee => self.op_00ee(),
            Op::Op1nnn => self.op_1nnn(),
            Op::Op2nnn => self.op_2nnn(),
            Op::Op3xkk => self.op_3xkk(),
            Op::Op4xkk => self.op_4xkk(),
            Op::Op5xy0 => self.op_5xy0(),
            Op::Op6xkk => self.op_6xkk(),
            Op::Op7xkk => self.op_7xkk(),
            Op::Op8xy0 => self.op_8xy0(),
            Op::Op8xy1 => self.op_8xy1(),
            Op::Op8xy2 => self.op_8xy2(),
            Op::Op8xy3 => self.op_8xy3(),
            Op::Op8xy4 => self.op_8xy4(),
            Op::Op8xy5 => self.op_8xy5(),
            Op::Op8xy6 => self.op_8xy6(),
            Op::Op8xy7 => self.op_8xy7(),
            Op::Op8xye => self.op_8xye(),
            Op::Op9xy0 => self.op_9xy0(),
            Op::OpAnnn => self.op_annn(),
            Op::OpBnnn => self.op_bnnn(),
            Op::OpCxkk => {
                self.op_cxkk();
                proof {
                    let r = choose|r: u8| self@ == spec_cxkk(old(self)@, r);
                    assert(self@ == op_spec(old(self)@, op, r));
                }
            },
            Op::OpDxyn => self.op_dxyn(),
            Op::OpEx9e => self.op_ex9e(),
            Op::OpExa1 => self.op_exa1(),
            Op::OpFx07 => self.op_fx07(),
            Op::OpFx0a => self.op_fx0a(),
            Op::OpFx15 => self.op_fx15(),
            Op::OpFx18 => self.op_fx18(),
            Op::OpFx1e => self.op_fx1e(),
            Op::OpFx29 => self.op_fx29(),
            Op::OpFx33 => self.op_fx33(),
            Op::OpFx55 => self.op_fx55(),
            Op::OpFx65 => self.op_fx65(),
        }
        proof {
            if !(op is OpCxkk) {
                assert(self@ == op_spec(old(self)@, op, 0u8));
            }
        }
    }

    /// Runs the entry of table `0` that the low nibble of the opcode selects.
    pub fn table_0(&mut self)
        requires
            handler_ok(old(self)@, Handler::Table0),
        ensures
            exists|r: u8| final(self)@ == handler_spec(old(self)@, Handler::Table0, r),
    {
        let ghost s0 = self@;
        let op: Op = self.table_0[(self.opcode & 0x000F) as usize];
        self.execute(op);
        proof {
            let r = choose|r: u8| self@ == op_spec(s0, op, r);
            assert(self@ == handler_spec(s0, Handler::Table0, r));
        }
    }

    /// Runs the entry of table `8` that the low nibble of the opcode selects.
    pub fn table_8(&mut self)
        requires
            handler_ok(old(self)@, Handler::Table8),
        ensures
            exists|r: u8| final(self)@ == handler_spec(old(self)@, Handler::Table8, r),
    {
        let ghost s0 = self@;
        let op: Op = self.table_8[(self.opcode & 0x000F) as usize];
        self.execute(op);
        proof {
            let r = choose|r: u8| self@ == op_spec(s0, op, r);
            assert(self@ == handler_spec(s0, Handler::Table8, r));
        }
    }

    /// Runs the entry of table `E` that the low nibble of the opcode selects.
    pub fn table_e(&mut self)
        requires
            handler_ok(old(self)@, Handler::TableE),
        ensures
            exists|r: u8| final(self)@ == handler_spec(old(self)@, Handler::TableE, r),
    {
        let ghost s0 = self@;
        let op: Op = self.table_e[(self.opcode & 0x000F) as usize];
        self.execute(op);
        proof {
            let r = choose|r: u8| self@ == op_spec(s0, op, r);
            assert(self@ == handler_spec(s0, Handler::TableE, r));
        }
    }

    /// Runs the entry of table `F` that the low byte of the opcode selects.
    pub fn table_f(&mut self)
        requires
            handler_ok(old(self)@, Handler::TableF),
        ensures
            exists|r: u8| final(self)@ == handler_spec(old(self)@, Handler::TableF, r),
    {
        let ghost s0 = self@;
        let op: Op = self.table_f[(self.opcode & 0x00FF) as usize];
        self.execute(op);
        proof {
            let r = choose|r: u8| self@ == op_spec(s0, op, r);
            assert(self@ == handler_spec(s0, Handler::TableF, r));
        }
    }

    /// Runs an entry of the primary table.
    fn call(&mut self, h: Handler)
        requires
            handler_ok(old(self)@, h),
        ensures
            exists|r: u8| final(self)@ == handler_spec(old(self)@, h, r),
    {
        match h {
            Handler::Table0 => self.table_0(),
            Handler::Table8 => self.table_8(),
            Handler::TableE => self.table_e(),
            Handler::TableF => self.table_f(),
            Handler::Run(op) => {
                self.execute(op);
                proof {
                    let r = choose|r: u8| self@ == op_spec(old(self)@, op, r);
                    assert(self@ == handler_spec(old(self)@, h, r));
                }
            },
        }
    }

    /// One cycle: fetches the opcode at `pc`, advances `pc` by two, runs the
    /// handler that the tables select, and counts both timers down.
    pub fn cycle(&mut self)
        requires
            cycle_ok(old(self)@),
        ensures
            exists|r: u8| final(self)@ == spec_cycle(old(self)@, r),
            tables_wf(old(self)@) ==> tables_wf(final(self)@),
    {
        let hi: u8 = self.memory[self.pc as usize];
        assert((hi as u16) << 8u16 == (hi as u16) * 256) by (bit_vector);
        self.opcode = 0;
        self.opcode = self.memory[self.pc as usize] as u16;
        self.opcode = self.opcode << 8;
        self.opcode = self.opcode + self.memory[(self.pc + 1) as usize] as u16;
        self.pc += 2;
        proof {
            lemma_fields(self.opcode);
            assert(self@ == fetch(old(self)@));
        }
        let ghost f = self@;
        let h: Handler = self.table[((self.opcode & 0xF000) >> 12) as usize];
        self.call(h);
        let ghost mid = self@;
        let ghost r = choose|r: u8| mid == handler_spec(f, h, r);
        if self.delay_timer > 0 {
            self.delay_timer -= 1;
        }
        if self.sound_timer > 0 {
            self.sound_timer -= 1;
        }
        proof {
            assert(self@ == tick_timers(mid));
            assert(self@ == spec_cycle(old(self)@, r));
        }
    }

    /// Installs the dispatch tables.
    pub fn init_tables(&mut self)
        ensures
            final(self)@ == spec_init_tables(old(self)@),
            tables_wf(final(self)@),
    {
        self.table[0x0] = Handler::Table0;
        self.table[0x1] = Handler::Run(Op::Op1nnn);
        self.table[0x2] = Handler::Run(Op::Op2nnn);
        self.table[0x3] = Handler::Run(Op::Op3xkk);
        self.table[0x4] = Handler::Run(Op::Op4xkk);
        self.table[0x5] = Handler::Run(Op::Op5xy0);
        self.table[0x6] = Handler::Run(Op::Op6xkk);
        self.table[0x7] = Handler::Run(Op::Op7xkk);
        self.table[0x8] = Handler::Table8;
        self.table[0x9] = Handler::Run(Op::Op9xy0);
        self.table[0xA] = Handler::Run(Op::OpAnnn);
        self.table[0xB] = Handler::Run(Op::OpBnnn);
        self.table[0xC] = Handler::Run(Op::OpCxkk);
        self.table[0xD] = Handler::Run(Op::OpDxyn);
        self.table[0xE] = Handler::TableE;
        self.table[0xF] = Handler::TableF;

        let mut i: usize = 0;
        while i < NIBBLE_TABLE_SIZE
            invariant
                i <= NIBBLE_TABLE_SIZE,
                forall|j: int| 0 <= j < i ==> self.table_0@[j] == Op::Null,
                forall|j: int| 0 <= j < i ==> self.table_8@[j] == Op::Null,
                forall|j: int| 0 <= j < i ==> self.table_e@[j] == Op::Null,
                self@ == (Machine {
                    table: self.table@,
                    table_0: self.table_0@,
                    table_8: self.table_8@,
                    table_e: self.table_e@,
                    ..old(self)@
                }),
                self.table@ =~= main_table(),
            decreases NIBBLE_TABLE_SIZE - i,
        {
            self.table_0[i] = Op::Null;
            self.table_8[i] = Op::Null;
            self.table_e[i] = Op::Null;
            i += 1;
        }

        self.table_0[0x0] = Op::Op00e0;
        self.table_0[0xE] = Op::Op00ee;

        self.table_8[0x0] = Op::Op8xy0;
        self.table_8[0x1] = Op::Op8xy1;
        self.table_8[0x2] = Op::Op8xy2;
        self.table_8[0x3] = Op::Op8xy1;
        self.table_8[0x4] = Op::Op8xy2;
        self.table_8[0x5] = Op::Op8xy3;
        self.table_8[0x6] = Op::Op8xy4;
        self.table_8[0x7] = Op::Op8xy5;
        self.table_8[0xE] = Op::Op8xye;

        self.table_e[0x1] = Op::OpExa1;
        self.table_e[0xE] = Op::OpEx9e;

        let mut k: usize = 0;
        while k < BYTE_TABLE_SIZE
            invariant
                k <= BYTE_TABLE_SIZE,
                forall|j: int| 0 <= j < k ==> self.table_f@[j] == Op::Null,
                self@ == (Machine { table_f: self.table_f@, ..spec_init_tables(old(self)@) }),
            decreases BYTE_TABLE_SIZE - k,
        {
            self.table_f[k] = Op::Null;
            k += 1;
        }

        self.table_f[0x07] = Op::OpFx07;
        self.table_f[0x0A] = Op::OpFx0a;
        self.table_f[0x15] = Op::OpFx15;
        self.table_f[0x18] = Op::OpFx18;
        self.table_f[0x1E] = Op::OpFx1e;
        self.table_f[0x29] = Op::OpFx29;
        self.table_f[0x33] = Op::OpFx33;
        self.table_f[0x55] = Op::OpFx55;
        self.table_f[0x65] = Op::OpFx65;
        assert(self.table_f@ =~= table_f_init());
    }

    /// Copies a program into memory from `0x200` on; the rest of the state is
    /// unchanged.
    pub fn load_rom_bytes(&mut self, rom: &[u8])
        requires
            rom@.len() <= MEMORY_SIZE - STARTING_ADDRESS,
        ensures
            final(self)@ == spec_load_rom(old(self)@, rom@),
    {
        let mut i: usize = 0;
        while i < rom.len()
            invariant
                i <= rom@.len(),
                rom@.len() <= MEMORY_SIZE - STARTING_ADDRESS,
                self@ == (Machine {
                    memory: Seq::new(
                        MEMORY_SIZE as nat,
                        |a: int|
                            if STARTING_ADDRESS <= a < STARTING_ADDRESS + i {
                                rom@[a - STARTING_ADDRESS]
                            } else {
                                old(self)@.memory[a]
                            },
                    ),
                    ..old(self)@
                }),
            decreases rom@.len() - i,
        {
            self.memory[STARTING_ADDRESS + i] = rom[i];
            i += 1;
        }
    }

    /// Sets the state of the sixteen keys (non-zero is pressed).
    pub fn set_keypad(&mut self, keys: [u8; 16])
        ensures
            final(self)@ == (Machine { keypad: keys@, ..old(self)@ }),
    {
        self.keypad = keys;
    }

    /// Register `V[i]`.
    pub fn register(&self, i: usize) -> (v: u8)
        requires
            i < NUM_REGISTERS,
        ensures
            v == self@.registers[i as int],
    {
        self.registers[i]
    }

    /// The byte at address `addr`.
    pub fn memory_at(&self, addr: usize) -> (v: u8)
        requires
            addr < MEMORY_SIZE,
        ensures
            v == self@.memory[addr as int],
    {
        self.memory[addr]
    }

    /// Screen cell `i` (row `i / 64`, column `i % 64`).
    pub fn pixel(&self, i: usize) -> (v: u32)
        requires
            i < VIDEO_SIZE,
        ensures
            v == self@.video[i as int],
    {
        self.video[i]
    }

    /// Stack slot `i`.
    pub fn stack_at(&self, i: usize) -> (v: u16)
        requires
            i < NUM_REGISTERS,
        ensures
            v == self@.stack[i as int],
    {
        self.stack[i]
    }

    /// The state of key `i`.
    pub fn key(&self, i: usize) -> (v: u8)
        requires
            i < NUM_REGISTERS,
        ensures
            v == self@.keypad[i as int],
    {
        self.keypad[i]
    }

    /// The program counter.
    pub fn pc(&self) -> (v: u16)
        ensures
            v == self@.pc,
    {
        self.pc
    }

    /// The index register `I`.
    pub fn index(&self) -> (v: u16)
        ensures
            v == self@.index,
    {
        self.index
    }

    /// The stack pointer.
    pub fn sp(&self) -> (v: u8)
        ensures
            v == self@.sp,
    {
        self.sp
    }

    /// The opcode of the last fetched instruction.
    pub fn opcode(&self) -> (v: u16)
        ensures
            v == self@.opcode,
    {
        self.opcode
    }

    /// The delay timer.
    pub fn delay_timer(&self) -> (v: u8)
        ensures
            v == self@.delay_timer,
    {
        self.delay_timer
    }

    /// The sound timer.
    pub fn sound_timer(&self) -> (v: u8)
        ensures
            v == self@.sound_timer,
    {
        self.sound_timer
    }
}

} // verus!
