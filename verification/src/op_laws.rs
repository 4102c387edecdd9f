//! What each instruction does, stated over the raw opcode bits and the state
//! it starts from.

use vstd::prelude::*;
use crate::machine::{
    Machine, shaped, field_x, field_y, field_n, field_kk, field_nnn, lemma_fields, spec_00e0,
    spec_00ee, spec_1nnn, spec_2nnn, spec_3xkk, spec_4xkk, spec_5xy0, spec_6xkk, spec_7xkk,
    spec_8xy0, spec_8xy1, spec_8xy2, spec_8xy3, spec_8xy4, spec_8xy5, spec_8xy6, spec_8xy7,
    spec_8xye, spec_9xy0, spec_annn, spec_bnnn, spec_cxkk, spec_ex9e, spec_exa1, spec_fx07,
    spec_fx15, spec_fx18, spec_fx1e, spec_fx29, spec_dxyn, sprite_covers, sprite_base,
    sprite_collides, spec_fx0a, spec_fx33, spec_fx55, spec_fx65, spec_load_rom,
    fetch, resolved_op, selected_handler, tables_installed, Op, initial_machine, fontset,
    spec_cycle, op_spec,
};
use vstd::arithmetic::div_mod::{lemma_fundamental_div_mod, lemma_fundamental_div_mod_converse};

verus! {

/// The register named by the second nibble of `op`.
pub open spec fn nx(op: u16) -> int {
    ((op >> 8u16) & 0xFu16) as int
}

/// The register named by the third nibble of `op`.
pub open spec fn ny(op: u16) -> int {
    ((op >> 4u16) & 0xFu16) as int
}

/// The low byte of `op`.
pub open spec fn low_byte(op: u16) -> int {
    (op & 0xFFu16) as int
}

/// The low twelve bits of `op`.
pub open spec fn low_addr(op: u16) -> int {
    (op & 0xFFFu16) as int
}

/// The low nibble of `op`.
pub open spec fn low_nibble(op: u16) -> int {
    (op & 0xFu16) as int
}

/// `a` and `b` agree on every register other than `i` and `j`.
pub open spec fn regs_agree_except(a: Seq<u8>, b: Seq<u8>, i: int, j: int) -> bool {
    forall|k: int| 0 <= k < 16 && k != i && k != j ==> #[trigger] a[k] == b[k]
}

/// `t` differs from `s` at most in its registers.
pub open spec fn only_registers(s: Machine, t: Machine) -> bool {
    t == (Machine { registers: t.registers, ..s })
}

/// `t` differs from `s` at most in `pc`.
pub open spec fn only_pc(s: Machine, t: Machine) -> bool {
    t == (Machine { pc: t.pc, ..s })
}

proof fn lemma_decode(op: u16)
    ensures
        nx(op) == field_x(op),
        ny(op) == field_y(op),
        low_byte(op) == field_kk(op),
        low_addr(op) == field_nnn(op),
        low_nibble(op) == field_n(op),
        0 <= nx(op) < 16,
        0 <= ny(op) < 16,
        0 <= low_byte(op) < 256,
        0 <= low_addr(op) < 4096,
{
    lemma_fields(op);
    assert((op >> 8u16) & 0xFu16 == (op & 0x0F00u16) >> 8u16) by (bit_vector);
    assert((op >> 4u16) & 0xFu16 == (op & 0x00F0u16) >> 4u16) by (bit_vector);
}

/// `00E0` turns every cell off and changes nothing else.
pub proof fn law_op_00e0(s: Machine)
    requires
        shaped(s),
    ensures
        ({
            let t = spec_00e0(s);
            &&& t.video.len() == 2048
            &&& forall|i: int| 0 <= i < 2048 ==> #[trigger] t.video[i] == 0
            &&& t == (Machine { video: t.video, ..s })
        }),
{
}

/// `00EE` pops the return address into `pc`.
pub proof fn law_op_00ee(s: Machine)
    requires
        shaped(s),
        1 <= s.sp <= 16,
    ensures
        ({
            let t = spec_00ee(s);
            &&& t.sp == s.sp - 1
            &&& t.pc == s.stack[s.sp - 1]
            &&& t == (Machine { sp: t.sp, pc: t.pc, ..s })
        }),
{
}

/// `1nnn` sets `pc` to the low twelve bits of the opcode.
pub proof fn law_op_1nnn(s: Machine)
    requires
        shaped(s),
    ensures
        spec_1nnn(s).pc == low_addr(s.opcode),
        only_pc(s, spec_1nnn(s)),
{
}

/// `2nnn` pushes the current `pc` and jumps to the low twelve bits.
pub proof fn law_op_2nnn(s: Machine)
    requires
        shaped(s),
        s.sp < 16,
    ensures
        ({
            let t = spec_2nnn(s);
            &&& t.stack[s.sp as int] == s.pc
            &&& forall|i: int| 0 <= i < 16 && i != s.sp ==> #[trigger] t.stack[i] == s.stack[i]
            &&& t.stack.len() == 16
            &&& t.sp == s.sp + 1
            &&& t.pc == low_addr(s.opcode)
            &&& t == (Machine { stack: t.stack, sp: t.sp, pc: t.pc, ..s })
        }),
{
}

/// `3xkk` skips exactly when `Vx` equals the low byte.
pub proof fn law_op_3xkk(s: Machine)
    requires
        shaped(s),
        s.pc + 2 <= 0xFFFF,
    ensures
        spec_3xkk(s).pc == (if s.registers[nx(s.opcode)] == low_byte(s.opcode) {
            s.pc + 2
        } else {
            s.pc as int
        }),
        only_pc(s, spec_3xkk(s)),
{
    lemma_decode(s.opcode);
}

/// `4xkk` skips exactly when `Vx` differs from the low byte.
pub proof fn law_op_4xkk(s: Machine)
    requires
        shaped(s),
        s.pc + 2 <= 0xFFFF,
    ensures
        spec_4xkk(s).pc == (if s.registers[nx(s.opcode)] != low_byte(s.opcode) {
            s.pc + 2
        } else {
            s.pc as int
        }),
        only_pc(s, spec_4xkk(s)),
{
    lemma_decode(s.opcode);
}

/// `5xy0` skips exactly when `Vx` and `Vy` differ.
pub proof fn law_op_5xy0(s: Machine)
    requires
        shaped(s),
        s.pc + 2 <= 0xFFFF,
    ensures
        spec_5xy0(s).pc == (if s.registers[nx(s.opcode)] != s.registers[ny(s.opcode)] {
            s.pc + 2
        } else {
            s.pc as int
        }),
        only_pc(s, spec_5xy0(s)),
{
    lemma_decode(s.opcode);
}

/// `9xy0` skips exactly when `Vx` and `Vy` differ.
pub proof fn law_op_9xy0(s: Machine)
    requires
        shaped(s),
        s.pc + 2 <= 0xFFFF,
    ensures
        spec_9xy0(s).pc == (if s.registers[nx(s.opcode)] != s.registers[ny(s.opcode)] {
            s.pc + 2
        } else {
            s.pc as int
        }),
        only_pc(s, spec_9xy0(s)),
{
    lemma_decode(s.opcode);
}

/// `Ex9E` skips exactly when the key named by `Vx` is pressed.
pub proof fn law_op_ex9e(s: Machine)
    requires
        shaped(s),
        s.pc + 2 <= 0xFFFF,
        s.registers[nx(s.opcode)] < 16,
    ensures
        spec_ex9e(s).pc == (if s.keypad[s.registers[nx(s.opcode)] as int] != 0 {
            s.pc + 2
        } else {
            s.pc as int
        }),
        only_pc(s, spec_ex9e(s)),
{
    lemma_decode(s.opcode);
}

/// `ExA1` skips exactly when the key named by `Vx` is released.
pub proof fn law_op_exa1(s: Machine)
    requires
        shaped(s),
        s.pc + 2 <= 0xFFFF,
        s.registers[nx(s.opcode)] < 16,
    ensures
        spec_exa1(s).pc == (if s.keypad[s.registers[nx(s.opcode)] as int] == 0 {
            s.pc + 2
        } else {
            s.pc as int
        }),
        only_pc(s, spec_exa1(s)),
{
    lemma_decode(s.opcode);
}

/// `6xkk` puts the low byte in `Vx`, whatever `Vx` held.
pub proof fn law_op_6xkk(s: Machine)
    requires
        shaped(s),
    ensures
        ({
            let t = spec_6xkk(s);
            let x = nx(s.opcode);
            &&& t.registers[x] == low_byte(s.opcode)
            &&& regs_agree_except(t.registers, s.registers, x, x)
            &&& t.registers.len() == 16
            &&& only_registers(s, t)
        }),
{
    lemma_decode(s.opcode);
}

/// `7xkk` adds the low byte to `Vx`.
pub proof fn law_op_7xkk(s: Machine)
    requires
        shaped(s),
        s.registers[nx(s.opcode)] + low_byte(s.opcode) <= 255,
    ensures
        ({
            let t = spec_7xkk(s);
            let x = nx(s.opcode);
            &&& t.registers[x] == s.registers[x] + low_byte(s.opcode)
            &&& regs_agree_except(t.registers, s.registers, x, x)
            &&& t.registers.len() == 16
            &&& only_registers(s, t)
        }),
{
    lemma_decode(s.opcode);
}

/// `8xy0` copies `Vy` into `Vx`, whatever `Vx` held.
pub proof fn law_op_8xy0(s: Machine)
    requires
        shaped(s),
    ensures
        ({
            let t = spec_8xy0(s);
            let x = nx(s.opcode);
            &&& t.registers[x] == s.registers[ny(s.opcode)]
            &&& regs_agree_except(t.registers, s.registers, x, x)
            &&& t.registers.len() == 16
            &&& only_registers(s, t)
        }),
{
    lemma_decode(s.opcode);
}

/// `8xy1` puts `Vx | Vy` in `Vx`.
pub proof fn law_op_8xy1(s: Machine)
    requires
        shaped(s),
    ensures
        ({
            let t = spec_8xy1(s);
            let x = nx(s.opcode);
            &&& t.registers[x] == s.registers[x] | s.registers[ny(s.opcode)]
            &&& regs_agree_except(t.registers, s.registers, x, x)
            &&& t.registers.len() == 16
            &&& only_registers(s, t)
        }),
{
    lemma_decode(s.opcode);
}

/// `8xy2` puts `Vx & Vy` in `Vx`.
pub proof fn law_op_8xy2(s: Machine)
    requires
        shaped(s),
    ensures
        ({
            let t = spec_8xy2(s);
            let x = nx(s.opcode);
            &&& t.registers[x] == s.registers[x] & s.registers[ny(s.opcode)]
            &&& regs_agree_except(t.registers, s.registers, x, x)
            &&& t.registers.len() == 16
            &&& only_registers(s, t)
        }),
{
    lemma_decode(s.opcode);
}

/// `8xy3` puts `Vx ^ Vy` in `Vx`.
pub proof fn law_op_8xy3(s: Machine)
    requires
        shaped(s),
    ensures
        ({
            let t = spec_8xy3(s);
            let x = nx(s.opcode);
            &&& t.registers[x] == s.registers[x] ^ s.registers[ny(s.opcode)]
            &&& regs_agree_except(t.registers, s.registers, x, x)
            &&& t.registers.len() == 16
            &&& only_registers(s, t)
        }),
{
    lemma_decode(s.opcode);
}

/// `8xy4` puts the sum modulo 256 in `Vx` and the carry in `VF`; when `x` is
/// `F` the sum wins.
pub proof fn law_op_8xy4(s: Machine)
    requires
        shaped(s),
    ensures
        ({
            let t = spec_8xy4(s);
            let x = nx(s.opcode);
            let sum = s.registers[x] + s.registers[ny(s.opcode)];
            &&& t.registers[x] == sum % 256
            &&& x != 15 ==> t.registers[15] == (if sum > 255 { 1int } else { 0int })
            &&& regs_agree_except(t.registers, s.registers, x, 15)
            &&& t.registers.len() == 16
            &&& only_registers(s, t)
        }),
{
    lemma_decode(s.opcode);
}

/// `8xy5` with `x` and `y` other than `F`: `Vx - Vy` in `Vx`, `Vx > Vy` in `VF`.
pub proof fn law_op_8xy5(s: Machine)
    requires
        shaped(s),
        nx(s.opcode) != 15,
        ny(s.opcode) != 15,
        s.registers[ny(s.opcode)] <= s.registers[nx(s.opcode)],
    ensures
        ({
            let t = spec_8xy5(s);
            let x = nx(s.opcode);
            let y = ny(s.opcode);
            &&& t.registers[x] == s.registers[x] - s.registers[y]
            &&& t.registers[15] == (if s.registers[x] > s.registers[y] { 1int } else { 0int })
            &&& regs_agree_except(t.registers, s.registers, x, 15)
            &&& t.registers.len() == 16
            &&& only_registers(s, t)
        }),
{
    lemma_decode(s.opcode);
}

/// `8xy7` with `x` and `y` other than `F`: `Vy - Vx` in `Vx`, `Vy > Vx` in `VF`.
pub proof fn law_op_8xy7(s: Machine)
    requires
        shaped(s),
        nx(s.opcode) != 15,
        ny(s.opcode) != 15,
        s.registers[nx(s.opcode)] <= s.registers[ny(s.opcode)],
    ensures
        ({
            let t = spec_8xy7(s);
            let x = nx(s.opcode);
            let y = ny(s.opcode);
            &&& t.registers[x] == s.registers[y] - s.registers[x]
            &&& t.registers[15] == (if s.registers[y] > s.registers[x] { 1int } else { 0int })
            &&& regs_agree_except(t.registers, s.registers, x, 15)
            &&& t.registers.len() == 16
            &&& only_registers(s, t)
        }),
{
    lemma_decode(s.opcode);
}

/// `8xy6`: `Vx` halved; `VF` is the bit shifted out (when `x` is not `F`).
pub proof fn law_op_8xy6(s: Machine)
    requires
        shaped(s),
    ensures
        ({
            let t = spec_8xy6(s);
            let x = nx(s.opcode);
            &&& x != 15 ==> t.registers[x] == s.registers[x] / 2
            &&& x != 15 ==> t.registers[15] == s.registers[x] % 2
            &&& x == 15 ==> t.registers[15] == 0
            &&& regs_agree_except(t.registers, s.registers, x, 15)
            &&& t.registers.len() == 16
            &&& only_registers(s, t)
        }),
{
    lemma_decode(s.opcode);
}

/// `8xyE`: `Vx` doubled modulo 256; `VF` ends up 0 here.
pub proof fn law_op_8xye(s: Machine)
    requires
        shaped(s),
    ensures
        ({
            let t = spec_8xye(s);
            let x = nx(s.opcode);
            &&& x != 15 ==> t.registers[x] == (2 * s.registers[x]) % 256
            &&& t.registers[15] == 0
            &&& regs_agree_except(t.registers, s.registers, x, 15)
            &&& t.registers.len() == 16
            &&& only_registers(s, t)
        }),
{
    lemma_decode(s.opcode);
}

/// `Annn` sets `I` to the low twelve bits.
pub proof fn law_op_annn(s: Machine)
    requires
        shaped(s),
    ensures
        spec_annn(s).index == low_addr(s.opcode),
        spec_annn(s) == (Machine { index: spec_annn(s).index, ..s }),
{
}

/// `Bnnn` sets `I` to the low twelve bits and jumps to `V0` plus them.
pub proof fn law_op_bnnn(s: Machine)
    requires
        shaped(s),
    ensures
        spec_bnnn(s).index == low_addr(s.opcode),
        spec_bnnn(s).pc == s.registers[0] + low_addr(s.opcode),
        spec_bnnn(s) == (Machine { index: spec_bnnn(s).index, pc: spec_bnnn(s).pc, ..s }),
{
    lemma_decode(s.opcode);
}

/// `Cxkk` with drawn byte `r` puts `r & kk` in `Vx`.
pub proof fn law_op_cxkk(s: Machine, r: u8)
    requires
        shaped(s),
    ensures
        ({
            let t = spec_cxkk(s, r);
            let x = nx(s.opcode);
            &&& t.registers[x] == r & ((s.opcode & 0xFFu16) as u8)
            &&& regs_agree_except(t.registers, s.registers, x, x)
            &&& t.registers.len() == 16
            &&& only_registers(s, t)
        }),
{
    lemma_decode(s.opcode);
}

/// `Fx07` copies the delay timer into `Vx`.
pub proof fn law_op_fx07(s: Machine)
    requires
        shaped(s),
    ensures
        ({
            let t = spec_fx07(s);
            let x = nx(s.opcode);
            &&& t.registers[x] == s.delay_timer
            &&& regs_agree_except(t.registers, s.registers, x, x)
            &&& t.registers.len() == 16
            &&& only_registers(s, t)
        }),
{
    lemma_decode(s.opcode);
}

/// `Fx15` sets the delay timer from `Vx`.
pub proof fn law_op_fx15(s: Machine)
    requires
        shaped(s),
    ensures
        spec_fx15(s).delay_timer == s.registers[nx(s.opcode)],
        spec_fx15(s) == (Machine { delay_timer: spec_fx15(s).delay_timer, ..s }),
{
    lemma_decode(s.opcode);
}

/// `Fx18` sets the sound timer from `Vx`.
pub proof fn law_op_fx18(s: Machine)
    requires
        shaped(s),
    ensures
        spec_fx18(s).sound_timer == s.registers[nx(s.opcode)],
        spec_fx18(s) == (Machine { sound_timer: spec_fx18(s).sound_timer, ..s }),
{
    lemma_decode(s.opcode);
}

/// `Fx1E` sets `I` from the register named by the second nibble.
pub proof fn law_op_fx1e(s: Machine)
    requires
        shaped(s),
    ensures
        spec_fx1e(s).index == s.registers[nx(s.opcode)],
        spec_fx1e(s) == (Machine { index: spec_fx1e(s).index, ..s }),
{
    lemma_decode(s.opcode);
}

/// `Fx29` sets `I` to `0x50 + 5 * Vx`.
pub proof fn law_op_fx29(s: Machine)
    requires
        shaped(s),
    ensures
        spec_fx29(s).index == 0x50 + 5 * s.registers[nx(s.opcode)],
        spec_fx29(s) == (Machine { index: spec_fx29(s).index, ..s }),
{
    lemma_decode(s.opcode);
}

/// The screen cell of the top-left corner of the sprite that `Dxyn` draws:
/// row `Vy mod 32`, column `Vx mod 64`.
pub open spec fn draw_corner(s: Machine) -> int {
    64 * (s.registers[ny(s.opcode)] % 32) + s.registers[nx(s.opcode)] % 64
}

/// `Dxyn` reads its `n` sprite bytes inside memory and every cell it visits,
/// `corner + 64 * row + col` for `row < n` and `col < 8`, is on the screen.
pub open spec fn draw_fits(s: Machine) -> bool {
    low_nibble(s.opcode) > 0 ==> {
        &&& s.index + low_nibble(s.opcode) - 1 < 4096
        &&& draw_corner(s) + 64 * (low_nibble(s.opcode) - 1) + 7 < 2048
    }
}

/// Whether bit `col` (from the left) of sprite byte `row` is set.
pub open spec fn draw_bit(s: Machine, row: int, col: int) -> bool {
    (s.memory[s.index + row] & (0x80u8 >> (col as u8))) != 0
}

proof fn lemma_corner(s: Machine)
    requires
        shaped(s),
    ensures
        draw_corner(s) == sprite_base(s),
{
    lemma_decode(s.opcode);
}

/// The cell at `corner + 64 * row + col` of the sprite, `row < n`, `col < 8`,
/// is flipped exactly when bit `col` of sprite byte `row` is set.
pub proof fn law_op_dxyn_cell(s: Machine, row: int, col: int)
    requires
        shaped(s),
        draw_fits(s),
        0 <= row < low_nibble(s.opcode),
        0 <= col < 8,
    ensures
        ({
            let c = draw_corner(s) + 64 * row + col;
            spec_dxyn(s).video[c] == if draw_bit(s, row, col) {
                s.video[c] ^ 0xFFFF_FFFFu32
            } else {
                s.video[c]
            }
        }),
{
    lemma_decode(s.opcode);
    lemma_corner(s);
    lemma_fundamental_div_mod_converse(64 * row + col, 64, row, col);
    let c = draw_corner(s) + 64 * row + col;
    assert(sprite_covers(s, c) == draw_bit(s, row, col));
}

/// Cells before the corner, after the last visited cell, or in a column of a
/// line that no sprite row reaches, are left as they were.
pub proof fn law_op_dxyn_outside(s: Machine, i: int)
    requires
        shaped(s),
        draw_fits(s),
        0 <= i < 2048,
        i < draw_corner(s) || i > draw_corner(s) + 64 * (low_nibble(s.opcode) - 1) + 7 || (i
            - draw_corner(s)) % 64 >= 8,
    ensures
        spec_dxyn(s).video[i] == s.video[i],
{
    lemma_decode(s.opcode);
    lemma_corner(s);
    let d = i - draw_corner(s);
    lemma_fundamental_div_mod(d, 64);
    assert(!sprite_covers(s, i));
}

/// Whether some set sprite bit lands on a lit cell.
pub open spec fn draw_hits_lit(s: Machine) -> bool {
    exists|row: int, col: int|
        0 <= row < low_nibble(s.opcode) && 0 <= col < 8 && #[trigger] draw_bit(s, row, col)
            && s.video[draw_corner(s) + 64 * row + col] == 0xFFFF_FFFFu32
}

/// `VF` is 1 exactly when a set sprite bit lands on a lit cell, else 0; no
/// other register and nothing but the screen changes.
pub proof fn law_op_dxyn_flag(s: Machine)
    requires
        shaped(s),
        draw_fits(s),
    ensures
        ({
            let t = spec_dxyn(s);
            &&& t.registers[15] == (if draw_hits_lit(s) { 1int } else { 0int })
            &&& regs_agree_except(t.registers, s.registers, 15, 15)
            &&& t.registers.len() == 16
            &&& t == (Machine { video: t.video, registers: t.registers, ..s })
        }),
{
    lemma_decode(s.opcode);
    lemma_corner(s);
    if sprite_collides(s) {
        let i = choose|i: int|
            0 <= i < 2048 && #[trigger] sprite_covers(s, i) && s.video[i] == 0xFFFF_FFFFu32;
        let d = i - draw_corner(s);
        lemma_fundamental_div_mod(d, 64);
        let row = d / 64;
        let col = d % 64;
        assert(draw_bit(s, row, col));
        assert(draw_hits_lit(s));
    }
    if draw_hits_lit(s) {
        let (row, col) = choose|row: int, col: int|
            0 <= row < low_nibble(s.opcode) && 0 <= col < 8 && #[trigger] draw_bit(s, row, col)
                && s.video[draw_corner(s) + 64 * row + col] == 0xFFFF_FFFFu32;
        lemma_fundamental_div_mod_converse(64 * row + col, 64, row, col);
        let c = draw_corner(s) + 64 * row + col;
        assert(sprite_covers(s, c));
        assert(sprite_collides(s));
    }
}

/// `Fx0A` with a key pressed puts in `Vx` the lowest pressed key; with none
/// pressed it steps `pc` back by two so that it runs again.
pub proof fn law_op_fx0a(s: Machine)
    requires
        shaped(s),
        s.pc >= 2,
    ensures
        ({
            let t = spec_fx0a(s);
            let x = nx(s.opcode);
            &&& (exists|k: int| 0 <= k < 16 && s.keypad[k] != 0) ==> {
                let v = t.registers[x] as int;
                &&& v < 16
                &&& s.keypad[v] != 0
                &&& forall|j: int| 0 <= j < v ==> s.keypad[j] == 0
                &&& regs_agree_except(t.registers, s.registers, x, x)
                &&& t.registers.len() == 16
                &&& only_registers(s, t)
            }
            &&& (forall|k: int| 0 <= k < 16 ==> s.keypad[k] == 0) ==> t == (Machine {
                pc: (s.pc - 2) as u16,
                ..s
            })
        }),
{
    lemma_decode(s.opcode);
    crate::laws::lemma_first_key_facts(s.keypad, 0);
}

/// `Fx33` writes the hundreds, tens and ones of `Vx` at `I`, `I + 1`, `I + 2`
/// and leaves every other byte.
pub proof fn law_op_fx33(s: Machine)
    requires
        shaped(s),
        s.index + 2 < 4096,
    ensures
        ({
            let t = spec_fx33(s);
            let v = s.registers[nx(s.opcode)] as int;
            let i = s.index as int;
            &&& t.memory[i] == v / 100
            &&& t.memory[i + 1] == (v / 10) % 10
            &&& t.memory[i + 2] == v % 10
            &&& forall|a: int| 0 <= a < 4096 && !(i <= a <= i + 2) ==> #[trigger] t.memory[a] == s.memory[a]
            &&& t.memory.len() == 4096
            &&& t == (Machine { memory: t.memory, ..s })
        }),
{
    lemma_decode(s.opcode);
}

/// `Fx55` writes `V0..=Vx` to `I..=I + x` and leaves every other byte.
pub proof fn law_op_fx55(s: Machine)
    requires
        shaped(s),
        s.index + nx(s.opcode) < 4096,
    ensures
        ({
            let t = spec_fx55(s);
            let x = nx(s.opcode);
            &&& forall|i: int| 0 <= i <= x ==> #[trigger] t.memory[s.index + i] == s.registers[i]
            &&& forall|a: int|
                0 <= a < 4096 && !(s.index <= a <= s.index + x) ==> #[trigger] t.memory[a]
                    == s.memory[a]
            &&& t.memory.len() == 4096
            &&& t == (Machine { memory: t.memory, ..s })
        }),
{
    lemma_decode(s.opcode);
}

/// `Fx65` loads each `V[i]`, `i <= x`, from `I + i`, whatever it held, and
/// leaves the other registers.
pub proof fn law_op_fx65(s: Machine)
    requires
        shaped(s),
        s.index + nx(s.opcode) < 4096,
    ensures
        ({
            let t = spec_fx65(s);
            let x = nx(s.opcode);
            &&& forall|i: int| 0 <= i <= x ==> #[trigger] t.registers[i] == s.memory[s.index + i]
            &&& forall|i: int| x < i < 16 ==> #[trigger] t.registers[i] == s.registers[i]
            &&& t.registers.len() == 16
            &&& only_registers(s, t)
        }),
{
    lemma_decode(s.opcode);
}

/// Loading a program puts byte `i` of it at `0x200 + i` and leaves every other
/// byte and everything else.
pub proof fn law_load_rom(s: Machine, rom: Seq<u8>)
    requires
        shaped(s),
        rom.len() <= 4096 - 0x200,
    ensures
        ({
            let t = spec_load_rom(s, rom);
            &&& forall|i: int| 0 <= i < rom.len() ==> #[trigger] t.memory[0x200 + i] == rom[i]
            &&& forall|a: int|
                0 <= a < 4096 && !(0x200 <= a < 0x200 + rom.len()) ==> #[trigger] t.memory[a]
                    == s.memory[a]
            &&& t.memory.len() == 4096
            &&& t == (Machine { memory: t.memory, ..s })
        }),
{
}

/// Fetching reads the opcode big-endian from `pc` and `pc + 1` and moves `pc`
/// on by two.
pub proof fn law_fetch(s: Machine)
    requires
        shaped(s),
        s.pc + 1 < 4096,
    ensures
        fetch(s).opcode == s.memory[s.pc as int] * 256 + s.memory[s.pc + 1],
        fetch(s).pc == s.pc + 2,
        fetch(s) == (Machine { opcode: fetch(s).opcode, pc: fetch(s).pc, ..s }),
{
}

/// With the tables that `init_tables` installs, the handler an opcode runs is
/// chosen by its high nibble and, for groups `0`, `8` and `E`, its low
/// nibble, and for group `F` its low byte.
pub proof fn law_installed_dispatch(f: Machine)
    requires
        tables_installed(f),
    ensures
        ({
            let o = f.opcode;
            let g = o >> 12u16;
            let n = o & 0xFu16;
            let b = o & 0xFFu16;
            let op = resolved_op(f, selected_handler(f));
            &&& g == 0 && n == 0x0 ==> op == Op::Op00e0
            &&& g == 0 && n == 0xE ==> op == Op::Op00ee
            &&& g == 0 && n != 0x0 && n != 0xE && n != 0xF ==> op == Op::Null
            &&& g == 1 ==> op == Op::Op1nnn
            &&& g == 2 ==> op == Op::Op2nnn
            &&& g == 3 ==> op == Op::Op3xkk
            &&& g == 4 ==> op == Op::Op4xkk
            &&& g == 5 ==> op == Op::Op5xy0
            &&& g == 6 ==> op == Op::Op6xkk
            &&& g == 7 ==> op == Op::Op7xkk
            &&& g == 8 && n == 0x0 ==> op == Op::Op8xy0
            &&& g == 8 && n == 0x1 ==> op == Op::Op8xy1
            &&& g == 8 && n == 0x2 ==> op == Op::Op8xy2
            &&& g == 8 && n == 0x3 ==> op == Op::Op8xy1
            &&& g == 8 && n == 0x4 ==> op == Op::Op8xy2
            &&& g == 8 && n == 0x5 ==> op == Op::Op8xy3
            &&& g == 8 && n == 0x6 ==> op == Op::Op8xy4
            &&& g == 8 && n == 0x7 ==> op == Op::Op8xy5
            &&& g == 8 && 0x8 <= n <= 0xD ==> op == Op::Null
            &&& g == 8 && n == 0xE ==> op == Op::Op8xye
            &&& g == 9 ==> op == Op::Op9xy0
            &&& g == 0xA ==> op == Op::OpAnnn
            &&& g == 0xB ==> op == Op::OpBnnn
            &&& g == 0xC ==> op == Op::OpCxkk
            &&& g == 0xD ==> op == Op::OpDxyn
            &&& g == 0xE && n == 0x1 ==> op == Op::OpExa1
            &&& g == 0xE && n == 0xE ==> op == Op::OpEx9e
            &&& g == 0xE && n != 0x1 && n != 0xE && n != 0xF ==> op == Op::Null
            &&& g == 0xF && b == 0x07 ==> op == Op::OpFx07
            &&& g == 0xF && b == 0x0A ==> op == Op::OpFx0a
            &&& g == 0xF && b == 0x15 ==> op == Op::OpFx15
            &&& g == 0xF && b == 0x18 ==> op == Op::OpFx18
            &&& g == 0xF && b == 0x1E ==> op == Op::OpFx1e
            &&& g == 0xF && b == 0x29 ==> op == Op::OpFx29
            &&& g == 0xF && b == 0x33 ==> op == Op::OpFx33
            &&& g == 0xF && b == 0x55 ==> op == Op::OpFx55
            &&& g == 0xF && b == 0x65 ==> op == Op::OpFx65
            &&& g == 0xF && b < 0x66 && b != 0x07 && b != 0x0A && b != 0x15 && b != 0x18 && b != 0x1E
                && b != 0x29 && b != 0x33 && b != 0x55 && b != 0x65 ==> op == Op::Null
        }),
{
    let o = f.opcode;
    lemma_fields(o);
    assert((o & 0xF000u16) >> 12u16 == o >> 12u16) by (bit_vector);
}

/// `Chip8::new` starts at `0x200` with the sixteen glyphs at `0x50`, and every
/// register, timer, key, stack slot, cell and other byte zero.
pub proof fn law_initial_state()
    ensures
        ({
            let s = initial_machine();
            &&& s.pc == 0x200
            &&& s.index == 0
            &&& s.sp == 0
            &&& s.opcode == 0
            &&& s.delay_timer == 0
            &&& s.sound_timer == 0
            &&& forall|i: int| 0 <= i < 16 ==> #[trigger] s.registers[i] == 0
            &&& forall|i: int| 0 <= i < 16 ==> #[trigger] s.keypad[i] == 0
            &&& forall|i: int| 0 <= i < 16 ==> #[trigger] s.stack[i] == 0
            &&& forall|i: int| 0 <= i < 2048 ==> #[trigger] s.video[i] == 0
            &&& forall|a: int| 0 <= a < 4096 && !(0x50 <= a < 0xA0) ==> #[trigger] s.memory[a] == 0
            &&& s.memory.subrange(0x50, 0xA0) == seq![
                0xF0u8, 0x90, 0x90, 0x90, 0xF0, 0x20, 0x60, 0x20, 0x20, 0x70,
                0xF0, 0x10, 0xF0, 0x80, 0xF0, 0xF0, 0x10, 0xF0, 0x10, 0xF0,
                0x90, 0x90, 0xF0, 0x10, 0x10, 0xF0, 0x80, 0xF0, 0x10, 0xF0,
                0xF0, 0x80, 0xF0, 0x90, 0xF0, 0xF0, 0x10, 0x20, 0x40, 0x40,
                0xF0, 0x90, 0xF0, 0x90, 0xF0, 0xF0, 0x90, 0xF0, 0x10, 0xF0,
                0xF0, 0x90, 0xF0, 0x90, 0x90, 0xE0, 0x90, 0xE0, 0x90, 0xE0,
                0xF0, 0x80, 0x80, 0x80, 0xF0, 0xE0, 0x90, 0x90, 0x90, 0xE0,
                0xF0, 0x80, 0xF0, 0x80, 0xF0, 0xF0, 0x80, 0xF0, 0x80, 0x80,
            ]
        }),
{
    let s = initial_machine();
    assert(s.memory.subrange(0x50, 0xA0) =~= fontset());
}

/// A cycle runs the fetched instruction on the state after the fetch, so
/// with `pc` already moved on, and counts both timers down afterwards.
pub proof fn law_cycle_runs_fetched(s: Machine, r: u8)
    ensures
        ({
            let f = fetch(s);
            let u = op_spec(f, resolved_op(f, selected_handler(f)), r);
            spec_cycle(s, r) == (Machine {
                delay_timer: if u.delay_timer > 0 { (u.delay_timer - 1) as u8 } else { 0u8 },
                sound_timer: if u.sound_timer > 0 { (u.sound_timer - 1) as u8 } else { 0u8 },
                ..u
            })
        }),
{
}

/// With the installed tables, a cycle on `Fx07` loads the delay timer as it
/// was before this cycle's countdown, then counts it down.
pub proof fn law_cycle_fx07(s: Machine, r: u8)
    requires
        shaped(s),
        s.pc + 1 < 4096,
        tables_installed(s),
        fetch(s).opcode >> 12u16 == 0xF,
        fetch(s).opcode & 0xFFu16 == 0x07,
    ensures
        ({
            let t = spec_cycle(s, r);
            &&& t.registers[nx(fetch(s).opcode)] == s.delay_timer
            &&& t.delay_timer == (if s.delay_timer > 0 { s.delay_timer - 1 } else { 0 })
            &&& t.pc == s.pc + 2
        }),
{
    law_installed_dispatch(fetch(s));
    lemma_decode(fetch(s).opcode);
}

/// With the installed tables, a cycle on `3xkk` moves `pc` on by four when
/// `Vx` equals the low byte and by two otherwise.
pub proof fn law_cycle_3xkk(s: Machine, r: u8)
    requires
        shaped(s),
        s.pc + 4 <= 0xFFFF,
        s.pc + 1 < 4096,
        tables_installed(s),
        fetch(s).opcode >> 12u16 == 3,
    ensures
        spec_cycle(s, r).pc == (if s.registers[nx(fetch(s).opcode)] == low_byte(fetch(s).opcode) {
            s.pc + 4
        } else {
            s.pc + 2
        }),
{
    law_installed_dispatch(fetch(s));
    lemma_decode(fetch(s).opcode);
}

} // verus!
