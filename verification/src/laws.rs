use vstd::prelude::*;
use crate::machine::{
    Machine, shaped, field_x, field_y, field_kk, reg_x, reg_y, ok_2nnn, spec_2nnn, ok_00ee,
    spec_00ee, ok_dxyn, spec_dxyn, sprite_covers, ok_fx33, spec_fx33, ok_fx55, spec_fx55,
    spec_fx65, spec_8xy4, ok_8xy5, spec_8xy5, spec_8xy6, spec_cxkk, spec_fx29, spec_fx0a,
    first_key_from, fontset, spec_00e0, FONTSET_STARTING_ADDRESS, VIDEO_SIZE, fetch,
    selected_handler, resolved_op, spec_cycle, op_spec, tables_wf, cycle_ok, field_group, Op,
};

verus! {

/// A call followed by a return comes back to the instruction after the call
/// with the stack pointer restored; the only trace left is the return address
/// in the slot just above the stack top.
pub proof fn law_call_then_return(s: Machine)
    requires
        shaped(s),
        ok_2nnn(s),
    ensures
        ok_00ee(spec_2nnn(s)),
        spec_00ee(spec_2nnn(s)) == (Machine { stack: s.stack.update(s.sp as int, s.pc), ..s }),
        spec_00ee(spec_2nnn(s)).pc == s.pc,
        spec_00ee(spec_2nnn(s)).sp == s.sp,
{
    assert(spec_00ee(spec_2nnn(s)) =~= (Machine { stack: s.stack.update(s.sp as int, s.pc), ..s }));
}

/// Drawing the same sprite twice in a row leaves the screen as it was, when
/// neither coordinate register is the flag register `VF`.
pub proof fn law_draw_twice_restores(s: Machine)
    requires
        shaped(s),
        ok_dxyn(s),
        field_x(s.opcode) != 15,
        field_y(s.opcode) != 15,
    ensures
        ok_dxyn(spec_dxyn(s)),
        spec_dxyn(spec_dxyn(s)).video == s.video,
{
    crate::machine::lemma_fields(s.opcode);
    let t = spec_dxyn(s);
    assert(reg_x(t) == reg_x(s));
    assert(reg_y(t) == reg_y(s));
    assert forall|i: int| 0 <= i < VIDEO_SIZE implies spec_dxyn(t).video[i] == s.video[i] by {
        assert(sprite_covers(t, i) == sprite_covers(s, i));
        let v = s.video[i];
        assert((v ^ 0xFFFF_FFFFu32) ^ 0xFFFF_FFFFu32 == v) by (bit_vector);
    }
    assert(spec_dxyn(t).video =~= s.video);
}

/// Clearing the screen turns every cell off.
pub proof fn law_clear_screen(s: Machine)
    ensures
        forall|i: int| 0 <= i < VIDEO_SIZE ==> #[trigger] spec_00e0(s).video[i] == 0,
        spec_00e0(s).video.len() == VIDEO_SIZE,
{
}

/// `Fx33` writes the decimal digits of `Vx`: each is below ten and together
/// they spell `Vx`.
pub proof fn law_bcd_digits(s: Machine)
    requires
        shaped(s),
        ok_fx33(s),
    ensures
        ({
            let m = spec_fx33(s).memory;
            let i = s.index as int;
            &&& m[i] < 10
            &&& m[i + 1] < 10
            &&& m[i + 2] < 10
            &&& m[i] * 100 + m[i + 1] * 10 + m[i + 2] == reg_x(s)
        }),
{
    let v = reg_x(s);
    assert((v / 100) * 100 + ((v / 10) % 10) * 10 + v % 10 == v) by (nonlinear_arith)
        requires
            v < 256,
    ;
    assert(v / 100 < 10) by (nonlinear_arith)
        requires
            v < 256,
    ;
}

/// Storing `V0..=Vx` with `Fx55` and loading them back with `Fx65` (same `I`
/// and `x`) gives back the registers.
pub proof fn law_store_then_load(s: Machine)
    requires
        shaped(s),
        ok_fx55(s),
    ensures
        ok_fx55(spec_fx55(s)),
        spec_fx65(spec_fx55(s)).registers == s.registers,
{
    crate::machine::lemma_fields(s.opcode);
    assert(spec_fx65(spec_fx55(s)).registers =~= s.registers);
}

/// `8xy4` adds with carry: the new `Vx` plus 256 times `VF` is the sum of the
/// old `Vx` and `Vy`, when `x` is not `VF`.
pub proof fn law_add_carry(s: Machine)
    requires
        shaped(s),
        field_x(s.opcode) != 15,
    ensures
        ({
            let t = spec_8xy4(s);
            &&& t.registers[15] <= 1
            &&& t.registers[field_x(s.opcode) as int] + 256 * t.registers[15] == reg_x(s) + reg_y(s)
        }),
{
    crate::machine::lemma_fields(s.opcode);
}

/// `8xy5` subtracts: with `x` and `y` other than `VF`, the new `Vx` plus `Vy`
/// is the old `Vx`, and `VF` tells whether `Vx` was greater.
pub proof fn law_sub(s: Machine)
    requires
        shaped(s),
        ok_8xy5(s),
        field_x(s.opcode) != 15,
        field_y(s.opcode) != 15,
    ensures
        ({
            let t = spec_8xy5(s);
            &&& t.registers[field_x(s.opcode) as int] + reg_y(s) == reg_x(s)
            &&& t.registers[15] == (if reg_x(s) > reg_y(s) { 1u8 } else { 0u8 })
        }),
{
    crate::machine::lemma_fields(s.opcode);
}

/// `8xy6` shifts right: twice the new `Vx` plus `VF` is the old `Vx`, when `x`
/// is not `VF`.
pub proof fn law_shift_right(s: Machine)
    requires
        shaped(s),
        field_x(s.opcode) != 15,
    ensures
        ({
            let t = spec_8xy6(s);
            2 * t.registers[field_x(s.opcode) as int] + t.registers[15] == reg_x(s)
        }),
{
    crate::machine::lemma_fields(s.opcode);
}

/// Whatever byte `Cxkk` draws, `Vx` only has bits that `kk` has.
pub proof fn law_random_masked(s: Machine, r: u8)
    requires
        shaped(s),
    ensures
        ({
            let v = spec_cxkk(s, r).registers[field_x(s.opcode) as int];
            let kk = field_kk(s.opcode) as u8;
            v & kk == v
        }),
{
    crate::machine::lemma_fields(s.opcode);
    let kk = field_kk(s.opcode) as u8;
    assert((r & kk) & kk == r & kk) by (bit_vector);
}

/// With the font in place, `Fx29` points `I` at the five bytes of the glyph
/// of digit `Vx`, for `Vx < 16`.
pub proof fn law_font_glyph(s: Machine)
    requires
        shaped(s),
        reg_x(s) < 16,
        forall|j: int|
            0 <= j < 80 ==> s.memory[FONTSET_STARTING_ADDRESS + j] == #[trigger] fontset()[j],
    ensures
        ({
            let i = spec_fx29(s).index as int;
            &&& i == FONTSET_STARTING_ADDRESS + 5 * reg_x(s)
            &&& forall|k: int|
                0 <= k < 5 ==> #[trigger] s.memory[i + k] == fontset()[5 * reg_x(s) + k]
        }),
{
    let i = spec_fx29(s).index as int;
    assert forall|k: int| 0 <= k < 5 implies #[trigger] s.memory[i + k] == fontset()[5 * reg_x(s)
        + k] by {
        assert(s.memory[FONTSET_STARTING_ADDRESS + (5 * reg_x(s) + k)] == fontset()[5 * reg_x(s)
            + k]);
    }
}

/// `Fx0A` with a key pressed puts in `Vx` a pressed key with no pressed key
/// below it.
pub proof fn law_wait_key_lowest(s: Machine)
    requires
        shaped(s),
        exists|k: int| 0 <= k < 16 && s.keypad[k] != 0,
    ensures
        ({
            let v = spec_fx0a(s).registers[field_x(s.opcode) as int] as int;
            &&& v < 16
            &&& s.keypad[v] != 0
            &&& forall|j: int| 0 <= j < v ==> s.keypad[j] == 0
        }),
{
    crate::machine::lemma_fields(s.opcode);
    lemma_first_key_facts(s.keypad, 0);
}

/// The first pressed key at or after `i` is pressed and has none pressed
/// between `i` and it; it is 16 only when none is pressed from `i` on.
pub(crate) proof fn lemma_first_key_facts(keys: Seq<u8>, i: int)
    requires
        0 <= i <= 16,
    ensures
        i <= first_key_from(keys, i) <= 16,
        first_key_from(keys, i) < 16 ==> keys[first_key_from(keys, i)] != 0,
        forall|j: int| i <= j < first_key_from(keys, i) ==> keys[j] == 0,
        first_key_from(keys, i) == 16 ==> forall|j: int| i <= j < 16 ==> keys[j] == 0,
    decreases 16 - i,
{
    if i < 16 && keys[i] == 0 {
        lemma_first_key_facts(keys, i + 1);
    }
}

/// A cycle is determined by the state alone unless the instruction it runs
/// is `Cxkk`: the random byte matters nowhere else.
pub proof fn law_cycle_deterministic(s: Machine, r1: u8, r2: u8)
    requires
        !(resolved_op(fetch(s), selected_handler(fetch(s))) is OpCxkk),
    ensures
        spec_cycle(s, r1) == spec_cycle(s, r2),
{
}

/// No instruction changes the dispatch tables.
pub proof fn law_ops_keep_tables(s: Machine, op: Op, r: u8)
    ensures
        ({
            let t = op_spec(s, op, r);
            &&& t.table == s.table
            &&& t.table_0 == s.table_0
            &&& t.table_8 == s.table_8
            &&& t.table_e == s.table_e
            &&& t.table_f == s.table_f
        }),
{
}

/// A cycle keeps the dispatch tables in a state that `new` or `init_tables`
/// produces.
pub proof fn law_cycle_keeps_tables(s: Machine, r: u8)
    requires
        tables_wf(s),
    ensures
        tables_wf(spec_cycle(s, r)),
{
    let f = fetch(s);
    law_ops_keep_tables(f, resolved_op(f, selected_handler(f)), r);
}

/// On a machine whose tables are as `new` or `init_tables` leave them, each
/// cycle counts the delay timer down (stopping at zero) unless the fetched
/// instruction is `Fx15`, and the sound timer unless it is `Fx18`.
pub proof fn law_cycle_timers(s: Machine, r: u8)
    requires
        tables_wf(s),
        cycle_ok(s),
    ensures
        ({
            let o = fetch(s).opcode;
            let t = spec_cycle(s, r);
            &&& !(field_group(o) == 0xF && field_kk(o) == 0x15) ==> t.delay_timer == (if s.delay_timer
                > 0 {
                (s.delay_timer - 1) as u8
            } else {
                0u8
            })
            &&& !(field_group(o) == 0xF && field_kk(o) == 0x18) ==> t.sound_timer == (if s.sound_timer
                > 0 {
                (s.sound_timer - 1) as u8
            } else {
                0u8
            })
        }),
{
    let f = fetch(s);
    crate::machine::lemma_fields(f.opcode);
    let g = field_group(f.opcode) as int;
    let h = selected_handler(f);
    if field_group(f.opcode) == 0xF {
        assert(h == crate::machine::Handler::TableF || h == crate::machine::Handler::Run(Op::Null));
    } else {
        assert(g < 15);
    }
}

} // verus!
