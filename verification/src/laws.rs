//! The machine's general guarantees, proved as laws over the relations that
//! the executor's contracts establish.

use crate::cpu::{
    execute_rel, key_held, load_regs, next_pc, spec_fetch, sprite_rows, store_regs, tick_rel,
    Chip8Error, Cpu,
};
use crate::decode::{lemma_decode_fields, spec_decode, spec_n, spec_nnn, spec_x, spec_y, Opcode};
use crate::display::lemma_draw_rows_involution;
use vstd::arithmetic::div_mod::{
    lemma_add_mod_noop, lemma_mod_bound, lemma_mod_multiples_vanish, lemma_small_mod,
};
use vstd::prelude::*;

verus! {

broadcast use vstd::array::group_array_axioms;

/// `v % 4096` for a value within two wraps of the boundary.
proof fn lemma_mod4096_shift(v: int)
    requires
        0 <= v < 8192,
    ensures
        v % 4096 == (if v < 4096 {
            v
        } else {
            v - 4096
        }),
{
    if v < 4096 {
        lemma_small_mod(v as nat, 4096nat);
    } else {
        lemma_mod_multiples_vanish(1, v - 4096, 4096);
        lemma_small_mod((v - 4096) as nat, 4096nat);
    }
}

/// Two distinct offsets below 16 from one base address land on distinct
/// memory cells, address arithmetic wrapping at the 4 KiB boundary.
proof fn lemma_wrapped_addr_distinct(base: int, j: int, t: int)
    requires
        0 <= base < 0x10000,
        0 <= j < t,
        t < 16,
    ensures
        (base + j) % 4096 != (base + t) % 4096,
{
    let b0 = base % 4096;
    lemma_mod_bound(base, 4096);
    lemma_add_mod_noop(base, j, 4096);
    lemma_add_mod_noop(base, t, 4096);
    lemma_small_mod(j as nat, 4096nat);
    lemma_small_mod(t as nat, 4096nat);
    lemma_mod4096_shift(b0 + j);
    lemma_mod4096_shift(b0 + t);
}

/// Storing registers never changes the size of memory.
proof fn lemma_store_regs_len(mem: Seq<u8>, v: Seq<u8>, base: int, k: int)
    requires
        mem.len() == 4096,
        0 <= base < 0x10000,
        0 <= k <= 16,
    ensures
        store_regs(mem, v, base, k).len() == mem.len(),
    decreases k,
{
    if k > 0 {
        lemma_store_regs_len(mem, v, base, k - 1);
        lemma_mod_bound(base + (k - 1), 4096);
    }
}

/// After `Fx55`, the cell that register `j` was stored to holds `v[j]`.
proof fn lemma_store_regs_at(mem: Seq<u8>, v: Seq<u8>, base: int, k: int, j: int)
    requires
        mem.len() == 4096,
        0 <= base < 0x10000,
        0 <= j < k <= 16,
    ensures
        store_regs(mem, v, base, k)[(base + j) % 4096] == v[j],
    decreases k,
{
    lemma_store_regs_len(mem, v, base, k - 1);
    lemma_mod_bound(base + j, 4096);
    if j < k - 1 {
        lemma_store_regs_at(mem, v, base, k - 1, j);
        lemma_wrapped_addr_distinct(base, j, k - 1);
    }
}

/// `Fx65` fills registers `0..k` from memory and leaves the rest alone.
proof fn lemma_load_regs_at(v: Seq<u8>, mem: Seq<u8>, base: int, k: int, j: int)
    requires
        v.len() == 16,
        0 <= k <= 16,
        0 <= j < 16,
    ensures
        load_regs(v, mem, base, k).len() == 16,
        j < k ==> load_regs(v, mem, base, k)[j] == mem[(base + j) % 4096],
        j >= k ==> load_regs(v, mem, base, k)[j] == v[j],
    decreases k,
{
    if k > 0 {
        lemma_load_regs_at(v, mem, base, k - 1, j);
    }
}

/// Round trip through memory: storing registers `0..k` and loading them back
/// with the same base address restores the register file exactly.
pub proof fn lemma_store_then_load(v: Seq<u8>, mem: Seq<u8>, base: int, k: int)
    requires
        v.len() == 16,
        mem.len() == 4096,
        0 <= base < 0x10000,
        0 <= k <= 16,
    ensures
        load_regs(v, store_regs(mem, v, base, k), base, k) =~= v,
{
    let stored = store_regs(mem, v, base, k);
    lemma_store_regs_len(mem, v, base, k);
    assert forall|j: int| 0 <= j < 16 implies load_regs(v, stored, base, k)[j] == v[j] by {
        lemma_load_regs_at(v, stored, base, k, j);
        if j < k {
            lemma_store_regs_at(mem, v, base, k, j);
        }
    }
    lemma_load_regs_at(v, stored, base, k, 0);
}

/// Executing `Fx55` and then `Fx65` with the same `x` and no step between
/// them leaves every register as it was: `Fx55` touches only memory, and the
/// loaded bytes are exactly the stored ones. With the load quirk off, both
/// transfers use the same `I`, which the round trip depends on.
pub proof fn lemma_store_load_round_trip(
    pre: Cpu,
    mid: Cpu,
    post: Cpu,
    w1: u16,
    w2: u16,
    r1: Result<(), Chip8Error>,
    r2: Result<(), Chip8Error>,
)
    requires
        execute_rel(pre, mid, w1, r1),
        execute_rel(mid, post, w2, r2),
        spec_decode(w1) matches Opcode::StoreRegs { .. },
        spec_decode(w2) matches Opcode::LoadRegs { .. },
        spec_x(w1) == spec_x(w2),
        !pre.quirk_load_bump_i,
    ensures
        post.v_reg@ =~= pre.v_reg@,
{
    lemma_decode_fields(w1);
    let k = spec_x(w1) + 1;
    lemma_store_then_load(pre.v_reg@, pre.memory@, pre.i_reg as int, k as int);
}

/// The three bytes that `Fx33` writes are decimal digits, and they read back
/// as the value of `Vx`: `memory[I]*100 + memory[I+1]*10 + memory[I+2] == Vx`.
pub proof fn lemma_bcd_digits(pre: Cpu, post: Cpu, w: u16, r: Result<(), Chip8Error>)
    requires
        execute_rel(pre, post, w, r),
        spec_decode(w) matches Opcode::Bcd { .. },
    ensures
        ({
            let vx = pre.v_reg@[spec_x(w) as int];
            let a0 = (pre.i_reg as int) % 4096;
            let a1 = (pre.i_reg + 1) % 4096;
            let a2 = (pre.i_reg + 2) % 4096;
            &&& post.memory@[a0] == vx / 100
            &&& post.memory@[a1] == (vx / 10) % 10
            &&& post.memory@[a2] == vx % 10
            &&& post.memory@[a0] <= 9
            &&& post.memory@[a1] <= 9
            &&& post.memory@[a2] <= 9
            &&& post.memory@[a0] * 100 + post.memory@[a1] * 10 + post.memory@[a2] == vx
        }),
{
    let vx = pre.v_reg@[spec_x(w) as int];
    lemma_wrapped_addr_distinct(pre.i_reg as int, 0, 1);
    lemma_wrapped_addr_distinct(pre.i_reg as int, 0, 2);
    lemma_wrapped_addr_distinct(pre.i_reg as int, 1, 2);
    lemma_mod_bound(pre.i_reg as int, 4096);
    lemma_mod_bound(pre.i_reg + 1, 4096);
    lemma_mod_bound(pre.i_reg + 2, 4096);
    assert(vx / 100 <= 9 && (vx / 10) % 10 <= 9 && vx % 10 <= 9 && vx / 100 * 100 + ((vx / 10)
        % 10) * 10 + vx % 10 == vx) by (bit_vector);
}

/// After any of the flag-producing register opcodes (`8xy4`, `8xy5`, `8xy6`,
/// `8xy7`, `8xyE`), `VF` holds 0 or 1 — even when `x` is `F` itself, since
/// the flag is written after the main result.
pub proof fn lemma_arith_flag_binary(pre: Cpu, post: Cpu, w: u16, r: Result<(), Chip8Error>)
    requires
        execute_rel(pre, post, w, r),
        (spec_decode(w) matches Opcode::AddReg { .. }) || (spec_decode(w) matches Opcode::Sub {
            ..
        }) || (spec_decode(w) matches Opcode::Shr { .. }) || (spec_decode(
            w,
        ) matches Opcode::Subn { .. }) || (spec_decode(w) matches Opcode::Shl { .. }),
    ensures
        post.v_reg@[15] == 0 || post.v_reg@[15] == 1,
{
    lemma_decode_fields(w);
}

/// Drawing the same sprite twice in a row restores the framebuffer: the
/// blit is an XOR involution. Stated for origin registers other than `VF`,
/// which the first draw overwrites with the collision flag.
pub proof fn lemma_draw_twice_restores(
    pre: Cpu,
    mid: Cpu,
    post: Cpu,
    w: u16,
    r1: Result<(), Chip8Error>,
    r2: Result<(), Chip8Error>,
)
    requires
        execute_rel(pre, mid, w, r1),
        execute_rel(mid, post, w, r2),
        spec_decode(w) matches Opcode::Drw { .. },
        spec_x(w) != 15,
        spec_y(w) != 15,
    ensures
        post.display.pixels@ =~= pre.display.pixels@,
{
    lemma_decode_fields(w);
    let n = spec_n(w);
    let vx = pre.v_reg@[spec_x(w) as int];
    let vy = pre.v_reg@[spec_y(w) as int];
    let sprite = sprite_rows(pre.memory@, pre.i_reg as int, n as int);
    assert(mid.memory@ == pre.memory@);
    assert(mid.v_reg@[spec_x(w) as int] == vx);
    assert(mid.v_reg@[spec_y(w) as int] == vy);
    assert(sprite_rows(mid.memory@, mid.i_reg as int, n as int) == sprite);
    lemma_draw_rows_involution(
        pre.display.pixels@,
        sprite,
        (vx % 64) as u8,
        (vy % 32) as u8,
        n as int,
    );
}

/// Pressing a key makes it readable as held at once, and releasing it makes
/// it readable as up: the keypad mask updates of [`Cpu::press_key`] and
/// [`Cpu::release_key`] agree with [`key_held`].
pub proof fn lemma_key_mask(keys: u16, k: u8)
    requires
        k < 16,
    ensures
        key_held(keys | (1u16 << (k as u16)), k),
        !key_held(keys & !(1u16 << (k as u16)), k),
{
    let kw = k as u16;
    assert(((keys | (1u16 << kw)) >> kw) & 1 == 1 && ((keys & !(1u16 << kw)) >> kw) & 1 == 0)
        by (bit_vector)
        requires
            kw < 16,
    ;
}

/// Whether the instruction about to be fetched can only transfer control to
/// an even address: jumps and calls name an even target, a return pops an
/// even address, and the computed jump lands on an even address. Every other
/// opcode keeps the two-byte instruction alignment by itself.
pub open spec fn even_transfer(pre: Cpu) -> bool {
    match spec_decode(spec_fetch(pre)) {
        Opcode::Jp { nnn } => nnn % 2 == 0,
        Opcode::Call { nnn } => nnn % 2 == 0,
        Opcode::Ret => pre.stack_pointer > 0 ==> pre.stack@[pre.stack_pointer - 1] % 2 == 0,
        Opcode::JpV0 { nnn } => ((nnn + pre.v_reg@[0]) % 0x1000) % 2 == 0,
        _ => true,
    }
}

/// Advancing the program counter keeps it a 12-bit address and keeps it
/// even.
proof fn lemma_next_pc_even(pc: u16)
    requires
        pc <= 0xFFF,
    ensures
        next_pc(pc) <= 0xFFF,
        pc % 2 == 0 ==> next_pc(pc) % 2 == 0,
{
    lemma_mod4096_shift(pc + 2);
}

/// After any step from a well-formed state whose program counter is even,
/// the program counter is still a 12-bit address; and it is still even
/// provided the executed instruction could only transfer control to an even
/// address. (A jump to an odd target, such as `0x1201`, leaves the counter
/// odd — evenness is a property of well-aligned programs, not of the
/// machine alone.)
pub proof fn lemma_tick_pc_invariant(pre: Cpu, post: Cpu, r: Result<(), Chip8Error>)
    requires
        pre.wf(),
        tick_rel(pre, post, r),
        pre.prog_counter % 2 == 0,
        even_transfer(pre),
    ensures
        post.prog_counter <= 0xFFF,
        post.prog_counter % 2 == 0,
{
    if pre.running {
        let w = spec_fetch(pre);
        let mid = Cpu { prog_counter: next_pc(pre.prog_counter), ..pre };
        lemma_decode_fields(w);
        lemma_next_pc_even(pre.prog_counter);
        lemma_next_pc_even(mid.prog_counter);
        lemma_mod_bound((spec_nnn(w) + pre.v_reg@[0]) as int, 4096);
    }
}

} // verus!
