//! Laws of the instruction set, each stated over the effect predicates and
//! proved for every machine state they admit.
use vstd::prelude::*;

use crate::cpu::add_reg_effect;
use crate::cpu::bcd_effect;
use crate::cpu::bit_of;
use crate::cpu::call_effect;
use crate::cpu::cls_effect;
use crate::cpu::draw_cell;
use crate::cpu::draw_collides;
use crate::cpu::draw_collides_upto;
use crate::cpu::draw_covers;
use crate::cpu::drw_effect;
use crate::cpu::dump_effect;
use crate::cpu::first_key;
use crate::cpu::lemma_first_key_from;
use crate::cpu::lemma_xor_undo;
use crate::cpu::load_regs_effect;
use crate::cpu::ret_effect;
use crate::cpu::step_effect;
use crate::cpu::sub_effect;
use crate::cpu::wrap_sub8;
use crate::cpu::Cpu;
use crate::cpu::VmError;
use crate::CHIP8_FRAMEBUFFER_SIZE;

verus! {

/// Add-registers: for all 8-bit values in Vx and Vy, the carry flag is set
/// exactly when the true sum exceeds 255, and Vx becomes the wrapped sum.
/// The destination must not be the flag register itself, which the carry
/// overwrites.
pub proof fn lemma_add_registers_carry(pre: Cpu, post: Cpu, x: int, y: int)
    requires
        0 <= x < 16,
        0 <= y < 16,
        x != 15,
        add_reg_effect(pre, post, x, y),
    ensures
        post.registers@[x] == (pre.registers@[x] + pre.registers@[y]) % 256,
        post.registers@[15] == 1 <==> pre.registers@[x] + pre.registers@[y] > 255,
{
}

/// Subtract-registers: for all 8-bit values in Vx and Vy, the flag is set
/// exactly when the minuend is at least the subtrahend, judged before the
/// subtraction, and Vx becomes the wrapped difference regardless. Neither
/// operand may be the flag register, whose value the flag write replaces.
pub proof fn lemma_sub_registers_flag(pre: Cpu, post: Cpu, x: int, y: int)
    requires
        0 <= x < 16,
        0 <= y < 16,
        x != 15,
        y != 15,
        sub_effect(pre, post, x, y),
    ensures
        post.registers@[x] == wrap_sub8(pre.registers@[x], pre.registers@[y]),
        post.registers@[15] == 1 <==> pre.registers@[x] >= pre.registers@[y],
{
}

/// Clear-screen zeroes every framebuffer cell and reports a change even
/// when the framebuffer was already blank.
pub proof fn lemma_clear_screen(pre: Cpu, post: Cpu)
    requires
        cls_effect(pre, post),
    ensures
        forall|p: int| 0 <= p < CHIP8_FRAMEBUFFER_SIZE ==> post.graphics@[p] == 0,
        post.graphics_changed,
{
}

/// A call followed immediately by a return is a no-op on every register,
/// on memory, on the framebuffer and on the stack pointer, and leaves the
/// cursor at the address immediately after the call instruction.
pub proof fn lemma_call_then_return(s0: Cpu, s1: Cpu, s2: Cpu, nnn: int)
    requires
        s0.wf(),
        call_effect(s0, s1, nnn, Result::<(), VmError>::Ok(())),
        ret_effect(s1, s2, Result::<(), VmError>::Ok(())),
    ensures
        s2.registers@ == s0.registers@,
        s2.memory@ == s0.memory@,
        s2.graphics@ == s0.graphics@,
        s2.sp == s0.sp,
        s2.program_counter.counter == s0.program_counter.counter + 2,
{
}

/// One draw's collision flag, exactly: it reads 0 precisely when no set
/// sprite bit landed on an already-set cell. In particular a draw over an
/// entirely clear target region reports no collision.
pub proof fn lemma_draw_collision_flag(pre: Cpu, post: Cpu, x: int, y: int, n: int)
    requires
        0 <= x < 16,
        0 <= y < 16,
        0 <= n < 16,
        drw_effect(pre, post, x, y, n, Result::<(), VmError>::Ok(())),
    ensures
        post.registers@[15] == 0 <==> !draw_collides(
            pre,
            pre.registers@[x] as int,
            pre.registers@[y] as int,
            n,
        ),
{
}

/// Drawing the same sprite twice at the same coordinates, with no other
/// draw in between, restores every framebuffer cell to its value before
/// the first draw. The operand registers must not be the flag register,
/// which the first draw's collision report would move.
pub proof fn lemma_draw_twice_restores(s0: Cpu, s1: Cpu, s2: Cpu, x: int, y: int, n: int)
    requires
        0 <= x < 16,
        0 <= y < 16,
        x != 15,
        y != 15,
        0 <= n < 16,
        drw_effect(s0, s1, x, y, n, Result::<(), VmError>::Ok(())),
        drw_effect(s1, s2, x, y, n, Result::<(), VmError>::Ok(())),
    ensures
        forall|p: int| 0 <= p < CHIP8_FRAMEBUFFER_SIZE ==> s2.graphics@[p] == s0.graphics@[p],
{
    let vx = s0.registers@[x] as int;
    let vy = s0.registers@[y] as int;
    assert(s1.registers@[x] == s0.registers@[x]);
    assert(s1.registers@[y] == s0.registers@[y]);
    assert(s1.memory@ == s0.memory@);
    assert(s1.index == s0.index);
    assert forall|p: int| 0 <= p < CHIP8_FRAMEBUFFER_SIZE implies s2.graphics@[p]
        == s0.graphics@[p] by {
        if draw_covers(vx, vy, n, p) {
            let (i, j) = choose|i: int, j: int|
                0 <= i < n && 0 <= j < 8 && draw_cell(vx, vy, i, j) == p;
            assert(draw_cell(vx, vy, i, j) == p);
            assert(s1.graphics@[p] == s0.graphics@[p] ^ bit_of(s0.memory@[s0.index + i], j));
            assert(s2.graphics@[p] == s1.graphics@[p] ^ bit_of(s1.memory@[s1.index + i], j));
            lemma_xor_undo(s0.graphics@[p], bit_of(s0.memory@[s0.index + i], j));
        }
    }
}

/// With the whole target region clear beforehand, the first draw reports
/// no collision and the second draw reports one exactly when the sprite
/// has any set bit.
pub proof fn lemma_draw_twice_collision(s0: Cpu, s1: Cpu, s2: Cpu, x: int, y: int, n: int)
    requires
        s0.wf(),
        0 <= x < 16,
        0 <= y < 16,
        x != 15,
        y != 15,
        0 <= n < 16,
        drw_effect(s0, s1, x, y, n, Result::<(), VmError>::Ok(())),
        drw_effect(s1, s2, x, y, n, Result::<(), VmError>::Ok(())),
        forall|i: int, j: int|
            0 <= i < n && 0 <= j < 8 ==> s0.graphics@[draw_cell(
                s0.registers@[x] as int,
                s0.registers@[y] as int,
                i,
                j,
            )] == 0,
    ensures
        s1.registers@[15] == 0,
        s2.registers@[15] == 1 <==> exists|i: int, j: int|
            0 <= i < n && 0 <= j < 8 && #[trigger] bit_of(s0.memory@[s0.index + i], j) == 1,
{
    let vx = s0.registers@[x] as int;
    let vy = s0.registers@[y] as int;
    assert(s1.registers@[x] == s0.registers@[x]);
    assert(s1.registers@[y] == s0.registers@[y]);
    assert(s1.memory@ == s0.memory@);
    assert(s1.index == s0.index);
    // The first draw finds nothing set under the sprite.
    if draw_collides(s0, vx, vy, n) {
        let (i, j) = choose|i: int, j: int|
            0 <= i && 0 <= j < 8 && 8 * i + j < 8 * n && bit_of(s0.memory@[s0.index + i], j) == 1
                && s0.graphics@[draw_cell(vx, vy, i, j)] == 1;
        assert(0 <= i < n);
        assert(false);
    }
    assert(s1.registers@[15] == 0);
    // After the first draw each covered cell holds exactly its sprite bit.
    assert forall|i: int, j: int| 0 <= i < n && 0 <= j < 8 implies s1.graphics@[draw_cell(
        vx,
        vy,
        i,
        j,
    )] == bit_of(s0.memory@[s0.index + i], j) by {
        crate::cpu::lemma_bit_of_bounded(s0.memory@[s0.index + i], j);
        crate::cpu::lemma_bits01(s0.graphics@[draw_cell(vx, vy, i, j)], bit_of(
            s0.memory@[s0.index + i],
            j,
        ));
    }
    if s2.registers@[15] == 1 {
        assert(draw_collides(s1, vx, vy, n));
        let (i, j) = choose|i: int, j: int|
            0 <= i && 0 <= j < 8 && 8 * i + j < 8 * n && bit_of(s1.memory@[s1.index + i], j) == 1
                && s1.graphics@[draw_cell(vx, vy, i, j)] == 1;
        assert(0 <= i < n);
        assert(bit_of(s0.memory@[s0.index + i], j) == 1);
    }
    if exists|i: int, j: int|
        0 <= i < n && 0 <= j < 8 && #[trigger] bit_of(s0.memory@[s0.index + i], j) == 1 {
        let (i, j) = choose|i: int, j: int|
            0 <= i < n && 0 <= j < 8 && #[trigger] bit_of(s0.memory@[s0.index + i], j) == 1;
        assert(s1.graphics@[draw_cell(vx, vy, i, j)] == 1);
        assert(8 * i + j < 8 * n);
        assert(bit_of(s1.memory@[s1.index + i], j) == 1);
        assert(draw_collides_upto(s1, vx, vy, 8 * n));
        assert(s2.registers@[15] == 1);
    }
}

/// Decimal store: for every register value, the three bytes written are
/// the hundreds, tens and ones digits.
pub proof fn lemma_bcd_digits(pre: Cpu, post: Cpu, x: int)
    requires
        0 <= x < 16,
        bcd_effect(pre, post, x, Result::<(), VmError>::Ok(())),
    ensures
        post.memory@[pre.index as int] == pre.registers@[x] / 100,
        post.memory@[pre.index + 1] == (pre.registers@[x] / 10) % 10,
        post.memory@[pre.index + 2] == pre.registers@[x] % 10,
{
}

/// A register dump followed by a register load at the same index register
/// value, into a machine whose register file was meanwhile zeroed,
/// reproduces registers 0 through x and leaves every higher register as
/// the load found it: zero.
pub proof fn lemma_dump_then_load(s0: Cpu, s1: Cpu, s2: Cpu, s3: Cpu, x: int)
    requires
        0 <= x < 16,
        dump_effect(s0, s1, x, Result::<(), VmError>::Ok(())),
        s2.memory@ == s1.memory@,
        s2.index == s1.index,
        forall|i: int| 0 <= i < 16 ==> s2.registers@[i] == 0,
        load_regs_effect(s2, s3, x, Result::<(), VmError>::Ok(())),
    ensures
        forall|i: int| 0 <= i <= x ==> s3.registers@[i] == s0.registers@[i],
        forall|i: int| x < i < 16 ==> s3.registers@[i] == 0,
{
    assert(s1.index == s0.index);
    assert forall|i: int| 0 <= i <= x implies s3.registers@[i] == s0.registers@[i] by {
        assert(s3.registers@[i] == s2.memory@[s2.index + i]);
        assert(s1.memory@[s0.index + i] == s0.registers@[i]);
    }
}

/// Keypad wait with no key pressed: a tick consumes only the key snapshot.
/// Registers, cursor, timers, memory and framebuffer all stay put, the
/// machine keeps waiting, and no change is reported.
pub proof fn lemma_wait_no_key(pre: Cpu, post: Cpu, keys: [bool; 16], r: Result<bool, VmError>)
    requires
        pre.keypad_waiting,
        step_effect(pre, post, keys, r),
        forall|j: int| 0 <= j < 16 ==> !keys@[j],
    ensures
        r == Result::<bool, VmError>::Ok(false),
        post.registers@ == pre.registers@,
        post.program_counter.counter == pre.program_counter.counter,
        post.delay_timer == pre.delay_timer,
        post.sound_timer == pre.sound_timer,
        post.memory@ == pre.memory@,
        post.graphics@ == pre.graphics@,
        post.keypad_waiting,
{
    lemma_first_key_from(keys, 16);
}

/// Keypad wait resolving: on the first tick that sees a pressed key, the
/// lowest pressed index lands in the latched target register, the machine
/// resumes running, and nothing else moves.
pub proof fn lemma_wait_key_pressed(
    pre: Cpu,
    post: Cpu,
    keys: [bool; 16],
    r: Result<bool, VmError>,
    k: int,
)
    requires
        pre.keypad_waiting,
        step_effect(pre, post, keys, r),
        first_key(keys) == Option::Some(k),
    ensures
        r == Result::<bool, VmError>::Ok(false),
        !post.keypad_waiting,
        post.registers@ == pre.registers@.update(pre.keypad_register as int, k as u8),
        post.program_counter.counter == pre.program_counter.counter,
        post.delay_timer == pre.delay_timer,
        post.sound_timer == pre.sound_timer,
{
}

} // verus!
