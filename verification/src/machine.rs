use vstd::prelude::*;

verus! {

/// Address at which programs are loaded and execution starts.
pub const STARTING_ADDRESS: usize = 0x200;

/// Address of the built-in hexadecimal font.
pub const FONTSET_STARTING_ADDRESS: usize = 0x50;

/// Number of bytes of the built-in font (16 glyphs of 5 rows).
pub const FONTSET_SIZE: usize = 80;

pub const VIDEO_WIDTH: usize = 64;

pub const VIDEO_HEIGHT: usize = 32;

pub const VIDEO_SIZE: usize = 2048;

pub const MEMORY_SIZE: usize = 4096;

/// Number of general purpose registers, of stack slots and of keys.
pub const NUM_REGISTERS: usize = 16;

/// Size of the secondary tables indexed by the low nibble (`0`, `8`, `E`).
pub const NIBBLE_TABLE_SIZE: usize = 15;

/// Size of the secondary table indexed by the low byte (`F`).
pub const BYTE_TABLE_SIZE: usize = 102;

/// A leaf instruction handler; each variant names the method of `Chip8` it runs.
#[derive(Clone, Copy, Debug)]
pub enum Op {
    Null,
    Op00e0,
    Op00ee,
    Op1nnn,
    Op2nnn,
    Op3xkk,
    Op4xkk,
    Op5xy0,
    Op6xkk,
    Op7xkk,
    Op8xy0,
    Op8xy1,
    Op8xy2,
    Op8xy3,
    Op8xy4,
    Op8xy5,
    Op8xy6,
    Op8xy7,
    Op8xye,
    Op9xy0,
    OpAnnn,
    OpBnnn,
    OpCxkk,
    OpDxyn,
    OpEx9e,
    OpExa1,
    OpFx07,
    OpFx0a,
    OpFx15,
    OpFx18,
    OpFx1e,
    OpFx29,
    OpFx33,
    OpFx55,
    OpFx65,
}

/// An entry of the primary table: either a secondary table, looked up by the
/// rest of the opcode, or a leaf handler.
#[derive(Clone, Copy, Debug)]
pub enum Handler {
    Table0,
    Table8,
    TableE,
    TableF,
    Run(Op),
}

/// The abstract state of the interpreter.
#[verifier::ext_equal]
pub struct Machine {
    pub registers: Seq<u8>,
    pub memory: Seq<u8>,
    pub index: u16,
    pub pc: u16,
    pub stack: Seq<u16>,
    pub sp: u8,
    pub delay_timer: u8,
    pub sound_timer: u8,
    pub keypad: Seq<u8>,
    pub video: Seq<u32>,
    pub opcode: u16,
    pub table: Seq<Handler>,
    pub table_0: Seq<Op>,
    pub table_8: Seq<Op>,
    pub table_e: Seq<Op>,
    pub table_f: Seq<Op>,
}

// ---------------------------------------------------------------------------
// Instruction fields
// ---------------------------------------------------------------------------

/// The register operand `x` of `_x__`.
pub open spec fn field_x(opcode: u16) -> u16 {
    (opcode & 0x0F00u16) >> 8u16
}

/// The register operand `y` of `__y_`.
pub open spec fn field_y(opcode: u16) -> u16 {
    (opcode & 0x00F0u16) >> 4u16
}

/// The low nibble `n` of `___n`.
pub open spec fn field_n(opcode: u16) -> u16 {
    opcode & 0x000Fu16
}

/// The byte operand `kk` of `__kk`.
pub open spec fn field_kk(opcode: u16) -> u16 {
    opcode & 0x00FFu16
}

/// The address operand `nnn` of `_nnn`.
pub open spec fn field_nnn(opcode: u16) -> u16 {
    opcode & 0x0FFFu16
}

/// The high nibble, which selects the entry of the primary table.
pub open spec fn field_group(opcode: u16) -> u16 {
    (opcode & 0xF000u16) >> 12u16
}

pub proof fn lemma_fields(opcode: u16)
    ensures
        field_x(opcode) < 16,
        field_y(opcode) < 16,
        field_n(opcode) < 16,
        field_kk(opcode) < 256,
        field_nnn(opcode) < 4096,
        field_group(opcode) < 16,
{
    assert((opcode & 0x0F00u16) >> 8u16 < 16u16) by (bit_vector);
    assert((opcode & 0x00F0u16) >> 4u16 < 16u16) by (bit_vector);
    assert(opcode & 0x000Fu16 < 16u16) by (bit_vector);
    assert(opcode & 0x00FFu16 < 256u16) by (bit_vector);
    assert(opcode & 0x0FFFu16 < 4096u16) by (bit_vector);
    assert((opcode & 0xF000u16) >> 12u16 < 16u16) by (bit_vector);
}

// ---------------------------------------------------------------------------
// Small helpers on states
// ---------------------------------------------------------------------------

/// The value of register `x` of the current instruction.
pub open spec fn reg_x(s: Machine) -> u8 {
    s.registers[field_x(s.opcode) as int]
}

/// The value of register `y` of the current instruction.
pub open spec fn reg_y(s: Machine) -> u8 {
    s.registers[field_y(s.opcode) as int]
}

pub open spec fn with_registers(s: Machine, registers: Seq<u8>) -> Machine {
    Machine { registers, ..s }
}

pub open spec fn with_pc(s: Machine, pc: u16) -> Machine {
    Machine { pc, ..s }
}

/// Sets register `x` of the current instruction.
pub open spec fn set_vx(s: Machine, v: u8) -> Machine {
    with_registers(s, s.registers.update(field_x(s.opcode) as int, v))
}

/// Skips the next instruction when `cond` holds.
pub open spec fn skip_if(s: Machine, cond: bool) -> Machine {
    if cond {
        with_pc(s, (s.pc + 2) as u16)
    } else {
        s
    }
}

/// A skip does not overflow the program counter.
pub open spec fn skip_ok(s: Machine, cond: bool) -> bool {
    cond ==> s.pc + 2 <= u16::MAX
}

// ---------------------------------------------------------------------------
// Instructions
// ---------------------------------------------------------------------------

/// `00E0`: clears the screen.
pub open spec fn spec_00e0(s: Machine) -> Machine {
    Machine { video: Seq::new(VIDEO_SIZE as nat, |i: int| 0u32), ..s }
}

/// `00EE` needs a non-empty stack.
pub open spec fn ok_00ee(s: Machine) -> bool {
    1 <= s.sp <= 16
}

/// `00EE`: returns from a subroutine.
pub open spec fn spec_00ee(s: Machine) -> Machine {
    Machine { sp: (s.sp - 1) as u8, pc: s.stack[s.sp - 1], ..s }
}

/// `1nnn`: jumps to `nnn`.
pub open spec fn spec_1nnn(s: Machine) -> Machine {
    with_pc(s, field_nnn(s.opcode))
}

/// `2nnn` needs a free stack slot.
pub open spec fn ok_2nnn(s: Machine) -> bool {
    s.sp < 16
}

/// `2nnn`: calls the subroutine at `nnn`.
pub open spec fn spec_2nnn(s: Machine) -> Machine {
    Machine {
        stack: s.stack.update(s.sp as int, s.pc),
        sp: (s.sp + 1) as u8,
        pc: field_nnn(s.opcode),
        ..s
    }
}

pub open spec fn cond_3xkk(s: Machine) -> bool {
    reg_x(s) == field_kk(s.opcode)
}

/// `3xkk`: skips when `Vx == kk`.
pub open spec fn spec_3xkk(s: Machine) -> Machine {
    skip_if(s, cond_3xkk(s))
}

pub open spec fn cond_4xkk(s: Machine) -> bool {
    reg_x(s) != field_kk(s.opcode)
}

/// `4xkk`: skips when `Vx != kk`.
pub open spec fn spec_4xkk(s: Machine) -> Machine {
    skip_if(s, cond_4xkk(s))
}

/// The condition this interpreter tests for `5xy0`: the registers differ.
pub open spec fn cond_5xy0(s: Machine) -> bool {
    reg_x(s) != reg_y(s)
}

/// `5xy0`: skips when `Vx != Vy`.
pub open spec fn spec_5xy0(s: Machine) -> Machine {
    skip_if(s, cond_5xy0(s))
}

/// `6xkk`: `Vx = kk`.
pub open spec fn spec_6xkk(s: Machine) -> Machine {
    set_vx(s, field_kk(s.opcode) as u8)
}

/// `7xkk` is only defined when the sum fits in a byte.
pub open spec fn ok_7xkk(s: Machine) -> bool {
    reg_x(s) + field_kk(s.opcode) <= 255
}

/// `7xkk`: `Vx = Vx + kk`.
pub open spec fn spec_7xkk(s: Machine) -> Machine {
    set_vx(s, (reg_x(s) + field_kk(s.opcode)) as u8)
}

/// `8xy0`: `Vx = Vy`.
pub open spec fn spec_8xy0(s: Machine) -> Machine {
    set_vx(s, reg_y(s))
}

/// `8xy1`: `Vx = Vx | Vy`.
pub open spec fn spec_8xy1(s: Machine) -> Machine {
    set_vx(s, reg_x(s) | reg_y(s))
}

/// `8xy2`: `Vx = Vx & Vy`.
pub open spec fn spec_8xy2(s: Machine) -> Machine {
    set_vx(s, reg_x(s) & reg_y(s))
}

/// `8xy3`: `Vx = Vx ^ Vy`.
pub open spec fn spec_8xy3(s: Machine) -> Machine {
    set_vx(s, reg_x(s) ^ reg_y(s))
}

/// Sets the flag register `VF`.
pub open spec fn set_vf(s: Machine, v: u8) -> Machine {
    with_registers(s, s.registers.update(15, v))
}

/// `8xy4`: `VF` is the carry of `Vx + Vy`, then `Vx` is the sum modulo 256.
pub open spec fn spec_8xy4(s: Machine) -> Machine {
    let sum = reg_x(s) + reg_y(s);
    set_vx(set_vf(s, if sum > 255 { 1u8 } else { 0u8 }), (sum % 256) as u8)
}

/// `8xy5` first sets `VF` to `Vx > Vy`.
pub open spec fn pre_8xy5(s: Machine) -> Machine {
    set_vf(s, if reg_x(s) > reg_y(s) { 1u8 } else { 0u8 })
}

/// `8xy5` is only defined when the subtraction, made after `VF` was set,
/// does not go below zero.
pub open spec fn ok_8xy5(s: Machine) -> bool {
    reg_y(pre_8xy5(s)) <= reg_x(pre_8xy5(s))
}

/// `8xy5`: `VF = Vx > Vy`, then `Vx = Vx - Vy`.
pub open spec fn spec_8xy5(s: Machine) -> Machine {
    let t = pre_8xy5(s);
    set_vx(t, (reg_x(t) - reg_y(t)) as u8)
}

/// `8xy6`: `VF` is the low bit of `Vx`, then `Vx` is halved.
pub open spec fn spec_8xy6(s: Machine) -> Machine {
    let t = set_vf(s, reg_x(s) % 2);
    set_vx(t, reg_x(t) / 2)
}

/// `8xy7` first sets `VF` to `Vy > Vx`.
pub open spec fn pre_8xy7(s: Machine) -> Machine {
    set_vf(s, if reg_y(s) > reg_x(s) { 1u8 } else { 0u8 })
}

/// `8xy7` is only defined when `Vy - Vx`, made after `VF` was set, does not
/// go below zero.
pub open spec fn ok_8xy7(s: Machine) -> bool {
    reg_x(pre_8xy7(s)) <= reg_y(pre_8xy7(s))
}

/// `8xy7`: `VF = Vy > Vx`, then `Vx = Vy - Vx`.
pub open spec fn spec_8xy7(s: Machine) -> Machine {
    let t = pre_8xy7(s);
    set_vx(t, (reg_y(t) - reg_x(t)) as u8)
}

/// `8xyE`: this interpreter takes `VF` from `(Vx & 8) >> 7`, which is always
/// zero, then doubles `Vx` modulo 256.
pub open spec fn spec_8xye(s: Machine) -> Machine {
    let t = set_vf(s, 0u8);
    set_vx(t, ((reg_x(t) * 2) % 256) as u8)
}

pub open spec fn cond_9xy0(s: Machine) -> bool {
    reg_x(s) != reg_y(s)
}

/// `9xy0`: skips when `Vx != Vy`.
pub open spec fn spec_9xy0(s: Machine) -> Machine {
    skip_if(s, cond_9xy0(s))
}

/// `Annn`: `I = nnn`.
pub open spec fn spec_annn(s: Machine) -> Machine {
    Machine { index: field_nnn(s.opcode), ..s }
}

/// `Bnnn`: `I = nnn` and jumps to `V0 + nnn`.
pub open spec fn spec_bnnn(s: Machine) -> Machine {
    Machine {
        index: field_nnn(s.opcode),
        pc: (s.registers[0] + field_nnn(s.opcode)) as u16,
        ..s
    }
}

/// `Cxkk` with the random byte `r`: `Vx = r & kk`.
pub open spec fn spec_cxkk(s: Machine, r: u8) -> Machine {
    set_vx(s, r & (field_kk(s.opcode) as u8))
}

/// Column of the top-left corner of the sprite drawn by `Dxyn`.
pub open spec fn sprite_x(s: Machine) -> int {
    (reg_x(s) % 64) as int
}

/// Row of the top-left corner of the sprite drawn by `Dxyn`.
pub open spec fn sprite_y(s: Machine) -> int {
    (reg_y(s) % 32) as int
}

/// Screen cell of the top-left corner of the sprite.
pub open spec fn sprite_base(s: Machine) -> int {
    sprite_y(s) * 64 + sprite_x(s)
}

/// Number of rows of the sprite.
pub open spec fn sprite_height(s: Machine) -> int {
    field_n(s.opcode) as int
}

/// Byte `row` of the sprite, read at `I + row`.
pub open spec fn sprite_row(s: Machine, row: int) -> u8 {
    s.memory[s.index + row]
}

/// Whether bit `col` (counted from the most significant) of a sprite byte is set.
pub open spec fn sprite_bit(byte: u8, col: int) -> bool {
    byte & (0x80u8 >> (col as u8)) != 0
}

/// Whether the sprite of the current `Dxyn` flips screen cell `i`. Cell
/// `base + 64 * row + col` is flipped by bit `col` of sprite row `row`; a row
/// that runs past the right edge continues on the next screen line.
pub open spec fn sprite_covers(s: Machine, i: int) -> bool {
    let d = i - sprite_base(s);
    &&& 0 <= d
    &&& d % 64 < 8
    &&& d / 64 < sprite_height(s)
    &&& sprite_bit(sprite_row(s, d / 64), d % 64)
}

/// Whether drawing turns off a lit cell.
pub open spec fn sprite_collides(s: Machine) -> bool {
    exists|i: int| 0 <= i < VIDEO_SIZE && #[trigger] sprite_covers(s, i) && s.video[i] == 0xFFFF_FFFFu32
}

/// `Dxyn` reads the sprite inside memory and draws it inside the screen:
/// every cell it touches, `base + 64 * row + col` for `row < n` and `col < 8`,
/// is below the screen size.
pub open spec fn ok_dxyn(s: Machine) -> bool {
    sprite_height(s) > 0 ==> {
        &&& s.index + sprite_height(s) - 1 < MEMORY_SIZE
        &&& sprite_base(s) + 64 * (sprite_height(s) - 1) + 7 < VIDEO_SIZE
    }
}

/// `Dxyn`: XORs the `n`-row sprite at `I` onto the screen at `(Vx mod 64, Vy mod 32)`;
/// `VF` tells whether a lit cell was turned off.
pub open spec fn spec_dxyn(s: Machine) -> Machine {
    Machine {
        video: Seq::new(
            VIDEO_SIZE as nat,
            |i: int|
                if sprite_covers(s, i) {
                    s.video[i] ^ 0xFFFF_FFFFu32
                } else {
                    s.video[i]
                },
        ),
        registers: s.registers.update(15, if sprite_collides(s) { 1u8 } else { 0u8 }),
        ..s
    }
}

pub open spec fn cond_ex9e(s: Machine) -> bool {
    s.keypad[reg_x(s) as int] != 0
}

/// `Ex9E` reads the key named by `Vx`, which must exist.
pub open spec fn ok_ex9e(s: Machine) -> bool {
    reg_x(s) < 16 && skip_ok(s, cond_ex9e(s))
}

/// `Ex9E`: skips when key `Vx` is pressed.
pub open spec fn spec_ex9e(s: Machine) -> Machine {
    skip_if(s, cond_ex9e(s))
}

pub open spec fn cond_exa1(s: Machine) -> bool {
    s.keypad[reg_x(s) as int] == 0
}

/// `ExA1` reads the key named by `Vx`, which must exist.
pub open spec fn ok_exa1(s: Machine) -> bool {
    reg_x(s) < 16 && skip_ok(s, cond_exa1(s))
}

/// `ExA1`: skips when key `Vx` is not pressed.
pub open spec fn spec_exa1(s: Machine) -> Machine {
    skip_if(s, cond_exa1(s))
}

/// `Fx07`: `Vx = DT`.
pub open spec fn spec_fx07(s: Machine) -> Machine {
    set_vx(s, s.delay_timer)
}

/// The lowest pressed key at or after `i`, or 16 when there is none.
pub open spec fn first_key_from(keys: Seq<u8>, i: int) -> int
    decreases 16 - i,
{
    if i >= 16 {
        16
    } else if keys[i] != 0 {
        i
    } else {
        first_key_from(keys, i + 1)
    }
}

/// The lowest pressed key, or 16 when no key is pressed.
pub open spec fn first_key(keys: Seq<u8>) -> int {
    first_key_from(keys, 0)
}

/// `Fx0A` waits by stepping back, which needs `pc >= 2`, when no key is pressed.
pub open spec fn ok_fx0a(s: Machine) -> bool {
    first_key(s.keypad) < 16 || s.pc >= 2
}

/// `Fx0A`: `Vx` is the lowest pressed key; with no key pressed the
/// instruction is repeated.
pub open spec fn spec_fx0a(s: Machine) -> Machine {
    let k = first_key(s.keypad);
    if k < 16 {
        set_vx(s, k as u8)
    } else {
        with_pc(s, (s.pc - 2) as u16)
    }
}

/// `Fx15`: `DT = Vx`.
pub open spec fn spec_fx15(s: Machine) -> Machine {
    Machine { delay_timer: reg_x(s), ..s }
}

/// `Fx18`: `ST = Vx`.
pub open spec fn spec_fx18(s: Machine) -> Machine {
    Machine { sound_timer: reg_x(s), ..s }
}

/// `Fx1E`: this interpreter sets `I = Vx`.
pub open spec fn spec_fx1e(s: Machine) -> Machine {
    Machine { index: reg_x(s) as u16, ..s }
}

/// `Fx29`: `I` is the address of the glyph of digit `Vx`.
pub open spec fn spec_fx29(s: Machine) -> Machine {
    Machine { index: (FONTSET_STARTING_ADDRESS + 5 * reg_x(s)) as u16, ..s }
}

/// `Fx33` writes three bytes from `I`.
pub open spec fn ok_fx33(s: Machine) -> bool {
    s.index + 2 < MEMORY_SIZE
}

/// `Fx33`: stores the decimal digits of `Vx` at `I`, `I + 1` and `I + 2`.
pub open spec fn spec_fx33(s: Machine) -> Machine {
    let v = reg_x(s);
    Machine {
        memory: s.memory.update(s.index as int, v / 100).update(s.index + 1, (v / 10) % 10).update(
            s.index + 2,
            v % 10,
        ),
        ..s
    }
}

/// `Fx55` and `Fx65` touch `x + 1` bytes from `I`.
pub open spec fn ok_fx55(s: Machine) -> bool {
    s.index + field_x(s.opcode) < MEMORY_SIZE
}

/// `Fx55`: stores `V0..=Vx` at `I..=I + x`.
pub open spec fn spec_fx55(s: Machine) -> Machine {
    let x = field_x(s.opcode) as int;
    Machine {
        memory: Seq::new(
            MEMORY_SIZE as nat,
            |a: int|
                if s.index <= a <= s.index + x {
                    s.registers[a - s.index]
                } else {
                    s.memory[a]
                },
        ),
        ..s
    }
}

/// `Fx65`: loads `V0..=Vx` from `I..=I + x`.
pub open spec fn spec_fx65(s: Machine) -> Machine {
    let x = field_x(s.opcode) as int;
    with_registers(
        s,
        Seq::new(
            NUM_REGISTERS as nat,
            |i: int|
                if i <= x {
                    s.memory[s.index + i]
                } else {
                    s.registers[i]
                },
        ),
    )
}

// ---------------------------------------------------------------------------
// Dispatch
// ---------------------------------------------------------------------------

/// The inputs on which a leaf handler runs without a fault.
pub open spec fn op_ok(s: Machine, op: Op) -> bool {
    match op {
        Op::Op00ee => ok_00ee(s),
        Op::Op2nnn => ok_2nnn(s),
        Op::Op3xkk => skip_ok(s, cond_3xkk(s)),
        Op::Op4xkk => skip_ok(s, cond_4xkk(s)),
        Op::Op5xy0 => skip_ok(s, cond_5xy0(s)),
        Op::Op7xkk => ok_7xkk(s),
        Op::Op8xy5 => ok_8xy5(s),
        Op::Op8xy7 => ok_8xy7(s),
        Op::Op9xy0 => skip_ok(s, cond_9xy0(s)),
        Op::OpDxyn => ok_dxyn(s),
        Op::OpEx9e => ok_ex9e(s),
        Op::OpExa1 => ok_exa1(s),
        Op::OpFx0a => ok_fx0a(s),
        Op::OpFx33 => ok_fx33(s),
        Op::OpFx55 => ok_fx55(s),
        Op::OpFx65 => ok_fx55(s),
        _ => true,
    }
}

/// The effect of a leaf handler; `r` is the random byte that `Cxkk` draws.
pub open spec fn op_spec(s: Machine, op: Op, r: u8) -> Machine {
    match op {
        Op::Null => s,
        Op::Op00e0 => spec_00e0(s),
        Op::Op00ee => spec_00ee(s),
        Op::Op1nnn => spec_1nnn(s),
        Op::Op2nnn => spec_2nnn(s),
        Op::Op3xkk => spec_3xkk(s),
        Op::Op4xkk => spec_4xkk(s),
        Op::Op5xy0 => spec_5xy0(s),
        Op::Op6xkk => spec_6xkk(s),
        Op::Op7xkk => spec_7xkk(s),
        Op::Op8xy0 => spec_8xy0(s),
        Op::Op8xy1 => spec_8xy1(s),
        Op::Op8xy2 => spec_8xy2(s),
        Op::Op8xy3 => spec_8xy3(s),
        Op::Op8xy4 => spec_8xy4(s),
        Op::Op8xy5 => spec_8xy5(s),
        Op::Op8xy6 => spec_8xy6(s),
        Op::Op8xy7 => spec_8xy7(s),
        Op::Op8xye => spec_8xye(s),
        Op::Op9xy0 => spec_9xy0(s),
        Op::OpAnnn => spec_annn(s),
        Op::OpBnnn => spec_bnnn(s),
        Op::OpCxkk => spec_cxkk(s, r),
        Op::OpDxyn => spec_dxyn(s),
        Op::OpEx9e => spec_ex9e(s),
        Op::OpExa1 => spec_exa1(s),
        Op::OpFx07 => spec_fx07(s),
        Op::OpFx0a => spec_fx0a(s),
        Op::OpFx15 => spec_fx15(s),
        Op::OpFx18 => spec_fx18(s),
        Op::OpFx1e => spec_fx1e(s),
        Op::OpFx29 => spec_fx29(s),
        Op::OpFx33 => spec_fx33(s),
        Op::OpFx55 => spec_fx55(s),
        Op::OpFx65 => spec_fx65(s),
    }
}

/// Entry of table `0` selected by the current opcode.
pub open spec fn sub_entry_0(s: Machine) -> Op {
    s.table_0[field_n(s.opcode) as int]
}

/// Entry of table `8` selected by the current opcode.
pub open spec fn sub_entry_8(s: Machine) -> Op {
    s.table_8[field_n(s.opcode) as int]
}

/// Entry of table `E` selected by the current opcode.
pub open spec fn sub_entry_e(s: Machine) -> Op {
    s.table_e[field_n(s.opcode) as int]
}

/// Entry of table `F` selected by the current opcode.
pub open spec fn sub_entry_f(s: Machine) -> Op {
    s.table_f[field_kk(s.opcode) as int]
}

/// The inputs on which a primary-table entry runs without a fault: the
/// secondary tables must have an entry for the opcode.
pub open spec fn handler_ok(s: Machine, h: Handler) -> bool {
    match h {
        Handler::Table0 => field_n(s.opcode) < NIBBLE_TABLE_SIZE && op_ok(s, sub_entry_0(s)),
        Handler::Table8 => field_n(s.opcode) < NIBBLE_TABLE_SIZE && op_ok(s, sub_entry_8(s)),
        Handler::TableE => field_n(s.opcode) < NIBBLE_TABLE_SIZE && op_ok(s, sub_entry_e(s)),
        Handler::TableF => field_kk(s.opcode) < BYTE_TABLE_SIZE && op_ok(s, sub_entry_f(s)),
        Handler::Run(op) => op_ok(s, op),
    }
}

/// The effect of a primary-table entry.
pub open spec fn handler_spec(s: Machine, h: Handler, r: u8) -> Machine {
    match h {
        Handler::Table0 => op_spec(s, sub_entry_0(s), r),
        Handler::Table8 => op_spec(s, sub_entry_8(s), r),
        Handler::TableE => op_spec(s, sub_entry_e(s), r),
        Handler::TableF => op_spec(s, sub_entry_f(s), r),
        Handler::Run(op) => op_spec(s, op, r),
    }
}

/// The leaf handler that a primary-table entry runs on state `s`.
pub open spec fn resolved_op(s: Machine, h: Handler) -> Op {
    match h {
        Handler::Table0 => sub_entry_0(s),
        Handler::Table8 => sub_entry_8(s),
        Handler::TableE => sub_entry_e(s),
        Handler::TableF => sub_entry_f(s),
        Handler::Run(op) => op,
    }
}

/// Fetching reads the big-endian opcode at `pc` and advances `pc` by two.
pub open spec fn fetch(s: Machine) -> Machine {
    Machine {
        opcode: (s.memory[s.pc as int] * 256 + s.memory[s.pc + 1]) as u16,
        pc: (s.pc + 2) as u16,
        ..s
    }
}

/// Each timer counts down by one while it is positive.
pub open spec fn tick_timers(s: Machine) -> Machine {
    Machine {
        delay_timer: if s.delay_timer > 0 { (s.delay_timer - 1) as u8 } else { 0u8 },
        sound_timer: if s.sound_timer > 0 { (s.sound_timer - 1) as u8 } else { 0u8 },
        ..s
    }
}

/// The primary-table entry that the fetched opcode selects.
pub open spec fn selected_handler(f: Machine) -> Handler {
    f.table[field_group(f.opcode) as int]
}

/// A cycle runs without a fault: the opcode lies inside memory and its
/// handler runs without a fault.
pub open spec fn cycle_ok(s: Machine) -> bool {
    &&& s.pc + 1 < MEMORY_SIZE
    &&& handler_ok(fetch(s), selected_handler(fetch(s)))
}

/// One cycle: fetch, execute through the tables, count the timers down.
pub open spec fn spec_cycle(s: Machine, r: u8) -> Machine {
    let f = fetch(s);
    tick_timers(handler_spec(f, selected_handler(f), r))
}

// ---------------------------------------------------------------------------
// Tables and the initial state
// ---------------------------------------------------------------------------

/// The primary table that `init_tables` installs.
pub open spec fn main_table() -> Seq<Handler> {
    seq![
        Handler::Table0,
        Handler::Run(Op::Op1nnn),
        Handler::Run(Op::Op2nnn),
        Handler::Run(Op::Op3xkk),
        Handler::Run(Op::Op4xkk),
        Handler::Run(Op::Op5xy0),
        Handler::Run(Op::Op6xkk),
        Handler::Run(Op::Op7xkk),
        Handler::Table8,
        Handler::Run(Op::Op9xy0),
        Handler::Run(Op::OpAnnn),
        Handler::Run(Op::OpBnnn),
        Handler::Run(Op::OpCxkk),
        Handler::Run(Op::OpDxyn),
        Handler::TableE,
        Handler::TableF,
    ]
}

/// Table `0` as `init_tables` installs it.
pub open spec fn table_0_init() -> Seq<Op> {
    Seq::new(
        NIBBLE_TABLE_SIZE as nat,
        |i: int|
            if i == 0x0 {
                Op::Op00e0
            } else if i == 0xE {
                Op::Op00ee
            } else {
                Op::Null
            },
    )
}

/// Table `8` as `init_tables` installs it; entries `3` to `7` hold the
/// handlers that this interpreter wires there.
pub open spec fn table_8_init() -> Seq<Op> {
    seq![
        Op::Op8xy0,
        Op::Op8xy1,
        Op::Op8xy2,
        Op::Op8xy1,
        Op::Op8xy2,
        Op::Op8xy3,
        Op::Op8xy4,
        Op::Op8xy5,
        Op::Null,
        Op::Null,
        Op::Null,
        Op::Null,
        Op::Null,
        Op::Null,
        Op::Op8xye,
    ]
}

/// Table `E` as `init_tables` installs it.
pub open spec fn table_e_init() -> Seq<Op> {
    Seq::new(
        NIBBLE_TABLE_SIZE as nat,
        |i: int|
            if i == 0x1 {
                Op::OpExa1
            } else if i == 0xE {
                Op::OpEx9e
            } else {
                Op::Null
            },
    )
}

/// Table `F` as `init_tables` installs it.
pub open spec fn table_f_init() -> Seq<Op> {
    Seq::new(
        BYTE_TABLE_SIZE as nat,
        |i: int|
            if i == 0x07 {
                Op::OpFx07
            } else if i == 0x0A {
                Op::OpFx0a
            } else if i == 0x15 {
                Op::OpFx15
            } else if i == 0x18 {
                Op::OpFx18
            } else if i == 0x1E {
                Op::OpFx1e
            } else if i == 0x29 {
                Op::OpFx29
            } else if i == 0x33 {
                Op::OpFx33
            } else if i == 0x55 {
                Op::OpFx55
            } else if i == 0x65 {
                Op::OpFx65
            } else {
                Op::Null
            },
    )
}

/// `init_tables`: installs the dispatch tables and changes nothing else.
pub open spec fn spec_init_tables(s: Machine) -> Machine {
    Machine {
        table: main_table(),
        table_0: table_0_init(),
        table_8: table_8_init(),
        table_e: table_e_init(),
        table_f: table_f_init(),
        ..s
    }
}

/// The built-in font: glyphs `0` to `F`, five bytes each.
pub open spec fn fontset() -> Seq<u8> {
    seq![
        0xF0u8, 0x90, 0x90, 0x90, 0xF0,
        0x20, 0x60, 0x20, 0x20, 0x70,
        0xF0, 0x10, 0xF0, 0x80, 0xF0,
        0xF0, 0x10, 0xF0, 0x10, 0xF0,
        0x90, 0x90, 0xF0, 0x10, 0x10,
        0xF0, 0x80, 0xF0, 0x10, 0xF0,
        0xF0, 0x80, 0xF0, 0x90, 0xF0,
        0xF0, 0x10, 0x20, 0x40, 0x40,
        0xF0, 0x90, 0xF0, 0x90, 0xF0,
        0xF0, 0x90, 0xF0, 0x10, 0xF0,
        0xF0, 0x90, 0xF0, 0x90, 0x90,
        0xE0, 0x90, 0xE0, 0x90, 0xE0,
        0xF0, 0x80, 0x80, 0x80, 0xF0,
        0xE0, 0x90, 0x90, 0x90, 0xE0,
        0xF0, 0x80, 0xF0, 0x80, 0xF0,
        0xF0, 0x80, 0xF0, 0x80, 0x80,
    ]
}

/// The state that `Chip8::new` builds: the font at `0x50`, everything else
/// zero, `pc` at `0x200`, and every table entry the empty handler.
pub open spec fn initial_machine() -> Machine {
    Machine {
        registers: Seq::new(NUM_REGISTERS as nat, |i: int| 0u8),
        memory: Seq::new(
            MEMORY_SIZE as nat,
            |a: int|
                if FONTSET_STARTING_ADDRESS <= a < FONTSET_STARTING_ADDRESS + FONTSET_SIZE {
                    fontset()[a - FONTSET_STARTING_ADDRESS]
                } else {
                    0u8
                },
        ),
        index: 0,
        pc: STARTING_ADDRESS as u16,
        stack: Seq::new(NUM_REGISTERS as nat, |i: int| 0u16),
        sp: 0,
        delay_timer: 0,
        sound_timer: 0,
        keypad: Seq::new(NUM_REGISTERS as nat, |i: int| 0u8),
        video: Seq::new(VIDEO_SIZE as nat, |i: int| 0u32),
        opcode: 0,
        table: Seq::new(NUM_REGISTERS as nat, |i: int| Handler::Run(Op::Null)),
        table_0: Seq::new(NIBBLE_TABLE_SIZE as nat, |i: int| Op::Null),
        table_8: Seq::new(NIBBLE_TABLE_SIZE as nat, |i: int| Op::Null),
        table_e: Seq::new(NIBBLE_TABLE_SIZE as nat, |i: int| Op::Null),
        table_f: Seq::new(BYTE_TABLE_SIZE as nat, |i: int| Op::Null),
    }
}

/// Every dispatch table holds only the empty handler, as `Chip8::new` leaves them.
pub open spec fn tables_empty(s: Machine) -> bool {
    &&& s.table == Seq::new(NUM_REGISTERS as nat, |i: int| Handler::Run(Op::Null))
    &&& s.table_0 == Seq::new(NIBBLE_TABLE_SIZE as nat, |i: int| Op::Null)
    &&& s.table_8 == Seq::new(NIBBLE_TABLE_SIZE as nat, |i: int| Op::Null)
    &&& s.table_e == Seq::new(NIBBLE_TABLE_SIZE as nat, |i: int| Op::Null)
    &&& s.table_f == Seq::new(BYTE_TABLE_SIZE as nat, |i: int| Op::Null)
}

/// The dispatch tables are those that `init_tables` installs.
pub open spec fn tables_installed(s: Machine) -> bool {
    &&& s.table == main_table()
    &&& s.table_0 == table_0_init()
    &&& s.table_8 == table_8_init()
    &&& s.table_e == table_e_init()
    &&& s.table_f == table_f_init()
}

/// The dispatch tables are in one of the two states that `new` and
/// `init_tables` produce; every other operation leaves them as they are.
pub open spec fn tables_wf(s: Machine) -> bool {
    tables_empty(s) || tables_installed(s)
}

/// The shape that every state of a `Chip8` has.
pub open spec fn shaped(s: Machine) -> bool {
    &&& s.registers.len() == NUM_REGISTERS
    &&& s.memory.len() == MEMORY_SIZE
    &&& s.stack.len() == NUM_REGISTERS
    &&& s.keypad.len() == NUM_REGISTERS
    &&& s.video.len() == VIDEO_SIZE
    &&& s.table.len() == NUM_REGISTERS
    &&& s.table_0.len() == NIBBLE_TABLE_SIZE
    &&& s.table_8.len() == NIBBLE_TABLE_SIZE
    &&& s.table_e.len() == NIBBLE_TABLE_SIZE
    &&& s.table_f.len() == BYTE_TABLE_SIZE
}

/// Skipping over released keys does not change the first pressed key.
pub proof fn lemma_first_key_skip(keys: Seq<u8>, i: int, k: int)
    requires
        0 <= i <= k <= 16,
        forall|j: int| i <= j < k ==> keys[j] == 0,
    ensures
        first_key_from(keys, i) == first_key_from(keys, k),
    decreases k - i,
{
    if i < k {
        lemma_first_key_skip(keys, i + 1, k);
    }
}

/// Loading a program: its bytes go to memory from `0x200` on.
pub open spec fn spec_load_rom(s: Machine, rom: Seq<u8>) -> Machine {
    Machine {
        memory: Seq::new(
            MEMORY_SIZE as nat,
            |a: int|
                if STARTING_ADDRESS <= a < STARTING_ADDRESS + rom.len() {
                    rom[a - STARTING_ADDRESS]
                } else {
                    s.memory[a]
                },
        ),
        ..s
    }
}

} // verus!
