//! The machine state and the semantics of every instruction.
//!
//! Each instruction handler carries a full functional contract, stated
//! through an effect predicate that pins down every field of the state
//! after the call in terms of the state before it.
use rand::Rng;
use vstd::prelude::*;

use crate::decode::spec_decode;
use crate::decode::decode;
use crate::decode::Instr;
use crate::CHIP8_DEFAULT_HEIGHT;
use crate::CHIP8_DEFAULT_WIDTH;
use crate::CHIP8_FRAMEBUFFER_SIZE;
use crate::CHIP8_MEMORY_SIZE;
use crate::CHIP8_PROGRAM_START;

verus! {

/// The built-in sprite font: 16 glyphs (digits 0 through F), 5 bytes each,
/// placed at the bottom of memory when the machine is created.
pub const FONTSET: [u8; 80] = [
    0xF0, 0x90, 0x90, 0x90, 0xF0, // 0
    0x20, 0x60, 0x20, 0x20, 0x70, // 1
    0xF0, 0x10, 0xF0, 0x80, 0xF0, // 2
    0xF0, 0x10, 0xF0, 0x10, 0xF0, // 3
    0x90, 0x90, 0xF0, 0x10, 0x10, // 4
    0xF0, 0x80, 0xF0, 0x10, 0xF0, // 5
    0xF0, 0x80, 0xF0, 0x90, 0xF0, // 6
    0xF0, 0x10, 0x20, 0x40, 0x40, // 7
    0xF0, 0x90, 0xF0, 0x90, 0xF0, // 8
    0xF0, 0x90, 0xF0, 0x10, 0xF0, // 9
    0xF0, 0x90, 0xF0, 0x90, 0x90, // A
    0xE0, 0x90, 0xE0, 0x90, 0xE0, // B
    0xF0, 0x80, 0x80, 0x80, 0xF0, // C
    0xE0, 0x90, 0x90, 0x90, 0xE0, // D
    0xF0, 0x80, 0xF0, 0x80, 0xF0, // E
    0xF0, 0x80, 0xF0, 0x80, 0x80, // F
];

/// The faults the machine reports instead of leaving them undefined: a
/// call with the stack already full, a return with the stack empty, and
/// any fetch, jump or memory access outside the 4096 addressable bytes.
#[derive(Clone, Copy, Debug, PartialEq, Eq, Structural)]
pub enum VmError {
    StackOverflow,
    StackUnderflow,
    OutOfRange,
}

/// The fetch address. It moves by 2 (one instruction), by 4 (a taken skip),
/// or jumps absolutely.
pub struct ProgramCounter {
    pub counter: usize,
}

impl ProgramCounter {
    pub fn new(counter: usize) -> (r: Self)
        ensures
            r.counter == counter,
    {
        Self { counter }
    }

    /// Step over the next instruction as well: a taken skip.
    pub fn skip(&mut self)
        requires
            old(self).counter + 4 <= usize::MAX,
        ensures
            final(self).counter == old(self).counter + 4,
    {
        self.counter += 4;
    }

    /// Move to the next instruction.
    pub fn increment(&mut self)
        requires
            old(self).counter + 2 <= usize::MAX,
        ensures
            final(self).counter == old(self).counter + 2,
    {
        self.counter += 2;
    }

    /// Skip when the condition holds, otherwise just advance.
    pub fn skip_if(&mut self, condition: bool)
        requires
            old(self).counter + 4 <= usize::MAX,
        ensures
            final(self).counter == old(self).counter + (if condition { 4int } else { 2int }),
    {
        if condition {
            self.skip();
        } else {
            self.increment();
        }
    }

    /// Set the fetch address absolutely. Callers establish the bound, so an
    /// address outside memory can never be stored.
    pub fn jump(&mut self, addr: usize)
        requires
            addr < CHIP8_MEMORY_SIZE,
        ensures
            final(self).counter == addr,
    {
        self.counter = addr;
    }
}

/// All the mutable machine state: memory, registers, index register, call
/// stack, timers, keypad state, framebuffer and the key-wait latch.
#[verifier::ext_equal]
pub struct Cpu {
    pub program_counter: ProgramCounter,
    pub index: usize,
    pub sp: usize,
    pub delay_timer: u8,
    pub sound_timer: u8,
    /// Row-major framebuffer: cell (row, col) is at `row * 64 + col`,
    /// and every cell holds 0 or 1.
    pub graphics: [u8; CHIP8_FRAMEBUFFER_SIZE],
    pub memory: [u8; CHIP8_MEMORY_SIZE],
    pub registers: [u8; 16],
    pub stack: [usize; 16],
    pub keys: [bool; 16],
    pub keypad_waiting: bool,
    pub keypad_register: usize,
    pub graphics_changed: bool,
}

impl Cpu {
    /// Well-formedness: the stack pointer stays within the 16 slots, the
    /// key-wait latch names a real register, the index register points into
    /// memory, the cursor never drifts past one taken skip beyond the end of
    /// memory, and every framebuffer cell is a single bit.
    pub open spec fn wf(self) -> bool {
        &&& self.sp <= 16
        &&& self.keypad_register < 16
        &&& self.index < CHIP8_MEMORY_SIZE
        &&& self.program_counter.counter <= CHIP8_MEMORY_SIZE + 2
        &&& forall|p: int|
            0 <= p < CHIP8_FRAMEBUFFER_SIZE ==> self.graphics@[p] < 2
    }

    /// The cursor can fetch a whole 16-bit word.
    pub open spec fn can_fetch(self) -> bool {
        self.program_counter.counter + 1 < CHIP8_MEMORY_SIZE
    }

    /// The 16-bit word at the cursor: high byte first.
    pub open spec fn opcode_at(self) -> u16 {
        (self.memory@[self.program_counter.counter as int] * 256
            + self.memory@[self.program_counter.counter + 1]) as u16
    }

    /// A fresh machine: cursor at the program start, font in the bottom of
    /// memory, and everything else zeroed.
    pub fn new() -> (r: Self)
        ensures
            r.wf(),
            r.program_counter.counter == CHIP8_PROGRAM_START,
            r.index == 0,
            r.sp == 0,
            r.delay_timer == 0,
            r.sound_timer == 0,
            forall|p: int| 0 <= p < CHIP8_FRAMEBUFFER_SIZE ==> r.graphics@[p] == 0,
            forall|i: int| 0 <= i < 80 ==> r.memory@[i] == FONTSET@[i],
            forall|i: int| 80 <= i < CHIP8_MEMORY_SIZE ==> r.memory@[i] == 0,
            forall|i: int| 0 <= i < 16 ==> r.registers@[i] == 0,
            forall|i: int| 0 <= i < 16 ==> r.stack@[i] == 0,
            forall|i: int| 0 <= i < 16 ==> r.keys@[i] == false,
            !r.keypad_waiting,
            r.keypad_register == 0,
            !r.graphics_changed,
    {
        let program_counter = ProgramCounter::new(CHIP8_PROGRAM_START);
        let graphics: [u8; CHIP8_FRAMEBUFFER_SIZE] = [0; CHIP8_FRAMEBUFFER_SIZE];
        let mut memory: [u8; CHIP8_MEMORY_SIZE] = [0; CHIP8_MEMORY_SIZE];
        let registers: [u8; 16] = [0; 16];
        let stack: [usize; 16] = [0; 16];
        let keys: [bool; 16] = [false; 16];
        let mut idx: usize = 0;
        while idx < 80
            invariant
                idx <= 80,
                forall|i: int| 0 <= i < idx ==> memory@[i] == FONTSET@[i],
                forall|i: int| idx <= i < CHIP8_MEMORY_SIZE ==> memory@[i] == 0,
            decreases 80 - idx,
        {
            memory[idx] = FONTSET[idx];
            idx += 1;
        }
        Self {
            program_counter,
            index: 0,
            sp: 0,
            delay_timer: 0,
            sound_timer: 0,
            graphics,
            memory,
            registers,
            stack,
            keys,
            keypad_waiting: false,
            keypad_register: 0,
            graphics_changed: false,
        }
    }

    /// Copy a program image into memory starting at the program start
    /// address. Bytes past the end of memory are silently dropped: that
    /// truncation is specified behaviour, not an error.
    pub fn load(&mut self, data: &[u8])
        ensures
            forall|i: int|
                0 <= i < data@.len() && CHIP8_PROGRAM_START + i < CHIP8_MEMORY_SIZE
                    ==> final(self).memory@[CHIP8_PROGRAM_START + i] == data@[i],
            forall|p: int|
                0 <= p < CHIP8_MEMORY_SIZE
                    && !(CHIP8_PROGRAM_START <= p < CHIP8_PROGRAM_START + data@.len())
                    ==> final(self).memory@[p] == old(self).memory@[p],
            final(self).program_counter == old(self).program_counter,
            final(self).index == old(self).index,
            final(self).sp == old(self).sp,
            final(self).delay_timer == old(self).delay_timer,
            final(self).sound_timer == old(self).sound_timer,
            final(self).graphics == old(self).graphics,
            final(self).registers == old(self).registers,
            final(self).stack == old(self).stack,
            final(self).keys == old(self).keys,
            final(self).keypad_waiting == old(self).keypad_waiting,
            final(self).keypad_register == old(self).keypad_register,
            final(self).graphics_changed == old(self).graphics_changed,
            old(self).wf() ==> final(self).wf(),
    {
        let mut i: usize = 0;
        while i < data.len() && i < CHIP8_MEMORY_SIZE - CHIP8_PROGRAM_START
            invariant
                i <= data@.len(),
                forall|j: int|
                    0 <= j < i && CHIP8_PROGRAM_START + j < CHIP8_MEMORY_SIZE
                        ==> self.memory@[CHIP8_PROGRAM_START + j] == data@[j],
                forall|p: int|
                    0 <= p < CHIP8_MEMORY_SIZE
                        && !(CHIP8_PROGRAM_START <= p < CHIP8_PROGRAM_START + i)
                        ==> self.memory@[p] == old(self).memory@[p],
                self.program_counter == old(self).program_counter,
                self.index == old(self).index,
                self.sp == old(self).sp,
                self.delay_timer == old(self).delay_timer,
                self.sound_timer == old(self).sound_timer,
                self.graphics == old(self).graphics,
                self.registers == old(self).registers,
                self.stack == old(self).stack,
                self.keys == old(self).keys,
                self.keypad_waiting == old(self).keypad_waiting,
                self.keypad_register == old(self).keypad_register,
                self.graphics_changed == old(self).graphics_changed,
            decreases data@.len() - i,
        {
            self.memory[CHIP8_PROGRAM_START + i] = data[i];
            i += 1;
        }
    }

    /// Fetch the 16-bit word at the cursor, high byte first.
    pub fn get_opcode(&self) -> (r: u16)
        requires
            self.can_fetch(),
        ensures
            r == self.opcode_at(),
    {
        let hi = self.memory[self.program_counter.counter];
        let lo = self.memory[self.program_counter.counter + 1];
        (hi as u16) * 256 + (lo as u16)
    }
}

// ---------------------------------------------------------------------------
// Frame helpers: which parts of the state a step leaves alone.
// ---------------------------------------------------------------------------

/// Memory is unchanged.
pub open spec fn mem_same(pre: Cpu, post: Cpu) -> bool {
    post.memory@ == pre.memory@
}

/// The framebuffer and its dirty flag are unchanged.
pub open spec fn gfx_same(pre: Cpu, post: Cpu) -> bool {
    post.graphics@ == pre.graphics@ && post.graphics_changed == pre.graphics_changed
}

/// The register file is unchanged.
pub open spec fn regs_same(pre: Cpu, post: Cpu) -> bool {
    post.registers@ == pre.registers@
}

/// The call stack and its pointer are unchanged.
pub open spec fn stack_same(pre: Cpu, post: Cpu) -> bool {
    post.stack@ == pre.stack@ && post.sp == pre.sp
}

/// The index register is unchanged.
pub open spec fn index_same(pre: Cpu, post: Cpu) -> bool {
    post.index == pre.index
}

/// Both countdown timers are unchanged.
pub open spec fn timers_same(pre: Cpu, post: Cpu) -> bool {
    post.delay_timer == pre.delay_timer && post.sound_timer == pre.sound_timer
}

/// The key snapshot and the key-wait latch are unchanged.
pub open spec fn input_same(pre: Cpu, post: Cpu) -> bool {
    post.keys@ == pre.keys@ && post.keypad_waiting == pre.keypad_waiting
        && post.keypad_register == pre.keypad_register
}

/// The cursor is unchanged.
pub open spec fn pc_same(pre: Cpu, post: Cpu) -> bool {
    post.program_counter.counter == pre.program_counter.counter
}

/// Everything except the register file and the cursor is unchanged.
pub open spec fn base_same(pre: Cpu, post: Cpu) -> bool {
    mem_same(pre, post) && gfx_same(pre, post) && stack_same(pre, post) && index_same(pre, post)
        && timers_same(pre, post) && input_same(pre, post)
}

/// The whole state is unchanged: how every failing instruction leaves the
/// machine.
pub open spec fn all_same(pre: Cpu, post: Cpu) -> bool {
    base_same(pre, post) && regs_same(pre, post) && pc_same(pre, post)
}

/// The cursor advanced by one instruction.
pub open spec fn pc_adv(pre: Cpu, post: Cpu) -> bool {
    post.program_counter.counter == pre.program_counter.counter + 2
}

/// The cursor advanced by two instructions when the condition held, else by
/// one.
pub open spec fn pc_skip_if(pre: Cpu, post: Cpu, c: bool) -> bool {
    post.program_counter.counter == pre.program_counter.counter + (
    if c {
        4int
    } else {
        2int
    })
}

// ---------------------------------------------------------------------------
// Small arithmetic helpers used by the effect predicates.
// ---------------------------------------------------------------------------

/// 8-bit wrapping addition.
pub open spec fn wrap_add8(a: u8, b: u8) -> u8 {
    ((a + b) % 256) as u8
}

/// 8-bit wrapping subtraction.
pub open spec fn wrap_sub8(a: u8, b: u8) -> u8 {
    (((a - b) % 256) + if (a - b) % 256 < 0 {
        256int
    } else {
        0int
    }) as u8
}

// ---------------------------------------------------------------------------
// Effect predicates: one per instruction, each pinning down the whole state
// after the instruction in terms of the state before it.
// ---------------------------------------------------------------------------

/// Clear screen: every framebuffer cell zeroed, the change reported even if
/// the framebuffer was already blank.
pub open spec fn cls_effect(pre: Cpu, post: Cpu) -> bool {
    &&& mem_same(pre, post)
    &&& forall|p: int| 0 <= p < CHIP8_FRAMEBUFFER_SIZE ==> post.graphics@[p] == 0
    &&& post.graphics_changed == true
    &&& stack_same(pre, post)
    &&& index_same(pre, post)
    &&& timers_same(pre, post)
    &&& input_same(pre, post)
    &&& regs_same(pre, post)
    &&& pc_adv(pre, post)
}

/// Return: pop the stack into the cursor. Fails on an empty stack, and on a
/// stored address outside memory (which a call at the last fetchable address
/// can produce); failure leaves the state untouched.
pub open spec fn ret_effect(pre: Cpu, post: Cpu, r: Result<(), VmError>) -> bool {
    if pre.sp == 0 {
        r == Result::<(), VmError>::Err(VmError::StackUnderflow) && all_same(pre, post)
    } else if pre.stack@[pre.sp - 1] >= CHIP8_MEMORY_SIZE {
        r == Result::<(), VmError>::Err(VmError::OutOfRange) && all_same(pre, post)
    } else {
        &&& r == Result::<(), VmError>::Ok(())
        &&& mem_same(pre, post)
        &&& gfx_same(pre, post)
        &&& post.stack@ == pre.stack@
        &&& post.sp == pre.sp - 1
        &&& index_same(pre, post)
        &&& timers_same(pre, post)
        &&& input_same(pre, post)
        &&& regs_same(pre, post)
        &&& post.program_counter.counter == pre.stack@[pre.sp - 1]
    }
}

/// Absolute jump.
pub open spec fn jp_effect(pre: Cpu, post: Cpu, nnn: int) -> bool {
    &&& base_same(pre, post)
    &&& regs_same(pre, post)
    &&& post.program_counter.counter == nnn
}

/// Call: push the address of the following instruction, then jump. Fails
/// when the stack is already full; failure leaves the state untouched.
pub open spec fn call_effect(pre: Cpu, post: Cpu, nnn: int, r: Result<(), VmError>) -> bool {
    if pre.sp == 16 {
        r == Result::<(), VmError>::Err(VmError::StackOverflow) && all_same(pre, post)
    } else {
        &&& r == Result::<(), VmError>::Ok(())
        &&& mem_same(pre, post)
        &&& gfx_same(pre, post)
        &&& post.stack@ == pre.stack@.update(
            pre.sp as int,
            (pre.program_counter.counter + 2) as usize,
        )
        &&& post.sp == pre.sp + 1
        &&& index_same(pre, post)
        &&& timers_same(pre, post)
        &&& input_same(pre, post)
        &&& regs_same(pre, post)
        &&& post.program_counter.counter == nnn
    }
}

/// Skip if the register equals the immediate.
pub open spec fn se_byte_effect(pre: Cpu, post: Cpu, x: int, kk: u8) -> bool {
    &&& base_same(pre, post)
    &&& regs_same(pre, post)
    &&& pc_skip_if(pre, post, pre.registers@[x] == kk)
}

/// Skip if the register differs from the immediate.
pub open spec fn sne_byte_effect(pre: Cpu, post: Cpu, x: int, kk: u8) -> bool {
    &&& base_same(pre, post)
    &&& regs_same(pre, post)
    &&& pc_skip_if(pre, post, pre.registers@[x] != kk)
}

/// Skip if the two registers are equal.
pub open spec fn se_reg_effect(pre: Cpu, post: Cpu, x: int, y: int) -> bool {
    &&& base_same(pre, post)
    &&& regs_same(pre, post)
    &&& pc_skip_if(pre, post, pre.registers@[x] == pre.registers@[y])
}

/// Skip if the two registers differ.
pub open spec fn sne_reg_effect(pre: Cpu, post: Cpu, x: int, y: int) -> bool {
    &&& base_same(pre, post)
    &&& regs_same(pre, post)
    &&& pc_skip_if(pre, post, pre.registers@[x] != pre.registers@[y])
}

/// Load an immediate into a register.
pub open spec fn ld_byte_effect(pre: Cpu, post: Cpu, x: int, kk: u8) -> bool {
    &&& base_same(pre, post)
    &&& post.registers@ == pre.registers@.update(x, kk)
    &&& pc_adv(pre, post)
}

/// Add an immediate, wrapping, with no carry flag on this form.
pub open spec fn add_byte_effect(pre: Cpu, post: Cpu, x: int, kk: u8) -> bool {
    &&& base_same(pre, post)
    &&& post.registers@ == pre.registers@.update(x, wrap_add8(pre.registers@[x], kk))
    &&& pc_adv(pre, post)
}

/// Copy one register into another.
pub open spec fn ld_reg_effect(pre: Cpu, post: Cpu, x: int, y: int) -> bool {
    &&& base_same(pre, post)
    &&& post.registers@ == pre.registers@.update(x, pre.registers@[y])
    &&& pc_adv(pre, post)
}

/// Bitwise OR of two registers.
pub open spec fn or_effect(pre: Cpu, post: Cpu, x: int, y: int) -> bool {
    &&& base_same(pre, post)
    &&& post.registers@ == pre.registers@.update(x, pre.registers@[x] | pre.registers@[y])
    &&& pc_adv(pre, post)
}

/// Bitwise AND of two registers.
pub open spec fn and_effect(pre: Cpu, post: Cpu, x: int, y: int) -> bool {
    &&& base_same(pre, post)
    &&& post.registers@ == pre.registers@.update(x, pre.registers@[x] & pre.registers@[y])
    &&& pc_adv(pre, post)
}

/// Bitwise XOR of two registers.
pub open spec fn xor_effect(pre: Cpu, post: Cpu, x: int, y: int) -> bool {
    &&& base_same(pre, post)
    &&& post.registers@ == pre.registers@.update(x, pre.registers@[x] ^ pre.registers@[y])
    &&& pc_adv(pre, post)
}

/// Add two registers, wrapping; the flag register records the carry, and
/// wins over the sum when the destination is the flag register itself.
pub open spec fn add_reg_effect(pre: Cpu, post: Cpu, x: int, y: int) -> bool {
    let sum = pre.registers@[x] + pre.registers@[y];
    let carry: u8 = if sum > 255 {
        1u8
    } else {
        0u8
    };
    &&& base_same(pre, post)
    &&& post.registers@ == pre.registers@.update(x, (sum % 256) as u8).update(15, carry)
    &&& pc_adv(pre, post)
}

/// Subtract Vy from Vx, wrapping. The flag register is written first: 1
/// exactly when the minuend is at least the subtrahend (no borrow), judged
/// on the values before the subtraction.
pub open spec fn sub_effect(pre: Cpu, post: Cpu, x: int, y: int) -> bool {
    let flag: u8 = if pre.registers@[x] >= pre.registers@[y] {
        1u8
    } else {
        0u8
    };
    let mid = pre.registers@.update(15, flag);
    &&& base_same(pre, post)
    &&& post.registers@ == mid.update(x, wrap_sub8(mid[x], mid[y]))
    &&& pc_adv(pre, post)
}

/// Subtract Vx from Vy into Vx, wrapping, with the mirrored no-borrow flag
/// written first.
pub open spec fn subn_effect(pre: Cpu, post: Cpu, x: int, y: int) -> bool {
    let flag: u8 = if pre.registers@[y] >= pre.registers@[x] {
        1u8
    } else {
        0u8
    };
    let mid = pre.registers@.update(15, flag);
    &&& base_same(pre, post)
    &&& post.registers@ == mid.update(x, wrap_sub8(mid[y], mid[x]))
    &&& pc_adv(pre, post)
}

/// Shift right by one; the flag register first records the bit shifted out.
pub open spec fn shr_effect(pre: Cpu, post: Cpu, x: int) -> bool {
    let mid = pre.registers@.update(15, (pre.registers@[x] % 2) as u8);
    &&& base_same(pre, post)
    &&& post.registers@ == mid.update(x, (mid[x] / 2) as u8)
    &&& pc_adv(pre, post)
}

/// Shift left by one, wrapping; the flag register first records the bit
/// shifted out.
pub open spec fn shl_effect(pre: Cpu, post: Cpu, x: int) -> bool {
    let mid = pre.registers@.update(15, (pre.registers@[x] / 128) as u8);
    &&& base_same(pre, post)
    &&& post.registers@ == mid.update(x, ((mid[x] * 2) % 256) as u8)
    &&& pc_adv(pre, post)
}

/// Load the index register with an address.
pub open spec fn ld_i_effect(pre: Cpu, post: Cpu, nnn: int) -> bool {
    &&& mem_same(pre, post)
    &&& gfx_same(pre, post)
    &&& stack_same(pre, post)
    &&& post.index == nnn
    &&& timers_same(pre, post)
    &&& input_same(pre, post)
    &&& regs_same(pre, post)
    &&& pc_adv(pre, post)
}

/// Jump to the address plus register 0. Fails, leaving the state untouched,
/// when the target lies outside memory.
pub open spec fn jp_v0_effect(pre: Cpu, post: Cpu, nnn: int, r: Result<(), VmError>) -> bool {
    let target = pre.registers@[0] + nnn;
    if target >= CHIP8_MEMORY_SIZE {
        r == Result::<(), VmError>::Err(VmError::OutOfRange) && all_same(pre, post)
    } else {
        &&& r == Result::<(), VmError>::Ok(())
        &&& base_same(pre, post)
        &&& regs_same(pre, post)
        &&& post.program_counter.counter == target
    }
}

/// Skip if the key named by the register is pressed. A register value
/// outside the 16 keys fails, leaving the state untouched.
pub open spec fn skp_effect(pre: Cpu, post: Cpu, x: int, r: Result<(), VmError>) -> bool {
    if pre.registers@[x] >= 16 {
        r == Result::<(), VmError>::Err(VmError::OutOfRange) && all_same(pre, post)
    } else {
        &&& r == Result::<(), VmError>::Ok(())
        &&& base_same(pre, post)
        &&& regs_same(pre, post)
        &&& pc_skip_if(pre, post, pre.keys@[pre.registers@[x] as int])
    }
}

/// Skip if the key named by the register is not pressed. A register value
/// outside the 16 keys fails, leaving the state untouched.
pub open spec fn sknp_effect(pre: Cpu, post: Cpu, x: int, r: Result<(), VmError>) -> bool {
    if pre.registers@[x] >= 16 {
        r == Result::<(), VmError>::Err(VmError::OutOfRange) && all_same(pre, post)
    } else {
        &&& r == Result::<(), VmError>::Ok(())
        &&& base_same(pre, post)
        &&& regs_same(pre, post)
        &&& pc_skip_if(pre, post, !pre.keys@[pre.registers@[x] as int])
    }
}

/// Read the delay timer into a register.
pub open spec fn ld_from_dt_effect(pre: Cpu, post: Cpu, x: int) -> bool {
    &&& base_same(pre, post)
    &&& post.registers@ == pre.registers@.update(x, pre.delay_timer)
    &&& pc_adv(pre, post)
}

/// Enter the key-wait state targeting the register; the cursor has already
/// moved past the instruction when the wait begins.
pub open spec fn wait_key_effect(pre: Cpu, post: Cpu, x: int) -> bool {
    &&& mem_same(pre, post)
    &&& gfx_same(pre, post)
    &&& stack_same(pre, post)
    &&& index_same(pre, post)
    &&& timers_same(pre, post)
    &&& post.keys@ == pre.keys@
    &&& post.keypad_waiting == true
    &&& post.keypad_register == x
    &&& regs_same(pre, post)
    &&& pc_adv(pre, post)
}

/// Write a register into the delay timer.
pub open spec fn ld_dt_effect(pre: Cpu, post: Cpu, x: int) -> bool {
    &&& mem_same(pre, post)
    &&& gfx_same(pre, post)
    &&& stack_same(pre, post)
    &&& index_same(pre, post)
    &&& post.delay_timer == pre.registers@[x]
    &&& post.sound_timer == pre.sound_timer
    &&& input_same(pre, post)
    &&& regs_same(pre, post)
    &&& pc_adv(pre, post)
}

/// Write a register into the sound timer.
pub open spec fn ld_st_effect(pre: Cpu, post: Cpu, x: int) -> bool {
    &&& mem_same(pre, post)
    &&& gfx_same(pre, post)
    &&& stack_same(pre, post)
    &&& index_same(pre, post)
    &&& post.delay_timer == pre.delay_timer
    &&& post.sound_timer == pre.registers@[x]
    &&& input_same(pre, post)
    &&& regs_same(pre, post)
    &&& pc_adv(pre, post)
}

/// Add a register to the index register. The flag register records an
/// overflow heuristic: 1 exactly when the index exceeded 0x0F00 before the
/// add. A sum outside memory fails, leaving the state untouched;
/// this keeps the index register inside memory at all times.
pub open spec fn add_i_effect(pre: Cpu, post: Cpu, x: int, r: Result<(), VmError>) -> bool {
    let target = pre.index + pre.registers@[x];
    if target >= CHIP8_MEMORY_SIZE {
        r == Result::<(), VmError>::Err(VmError::OutOfRange) && all_same(pre, post)
    } else {
        &&& r == Result::<(), VmError>::Ok(())
        &&& mem_same(pre, post)
        &&& gfx_same(pre, post)
        &&& stack_same(pre, post)
        &&& post.index == target
        &&& timers_same(pre, post)
        &&& input_same(pre, post)
        &&& post.registers@ == pre.registers@.update(
            15,
            if pre.index > 0x0F00 {
                1u8
            } else {
                0u8
            },
        )
        &&& pc_adv(pre, post)
    }
}

/// Point the index register at the built-in glyph for the register's value:
/// five bytes per glyph from the bottom of memory.
pub open spec fn ld_font_effect(pre: Cpu, post: Cpu, x: int) -> bool {
    &&& mem_same(pre, post)
    &&& gfx_same(pre, post)
    &&& stack_same(pre, post)
    &&& post.index == pre.registers@[x] * 5
    &&& timers_same(pre, post)
    &&& input_same(pre, post)
    &&& regs_same(pre, post)
    &&& pc_adv(pre, post)
}

/// Store the register's value in decimal: hundreds, tens and ones digits at
/// the index register and the two bytes after it. Fails, leaving the state
/// untouched, when those three bytes do not all lie inside memory.
pub open spec fn bcd_effect(pre: Cpu, post: Cpu, x: int, r: Result<(), VmError>) -> bool {
    let v = pre.registers@[x];
    if pre.index + 2 >= CHIP8_MEMORY_SIZE {
        r == Result::<(), VmError>::Err(VmError::OutOfRange) && all_same(pre, post)
    } else {
        &&& r == Result::<(), VmError>::Ok(())
        &&& post.memory@ == pre.memory@.update(pre.index as int, (v / 100) as u8).update(
            pre.index + 1,
            ((v / 10) % 10) as u8,
        ).update(pre.index + 2, (v % 10) as u8)
        &&& gfx_same(pre, post)
        &&& stack_same(pre, post)
        &&& index_same(pre, post)
        &&& timers_same(pre, post)
        &&& input_same(pre, post)
        &&& regs_same(pre, post)
        &&& pc_adv(pre, post)
    }
}

/// Copy registers 0 through x inclusive into memory at the index register.
/// Fails, leaving the state untouched, when the destination range does not
/// lie inside memory.
pub open spec fn dump_effect(pre: Cpu, post: Cpu, x: int, r: Result<(), VmError>) -> bool {
    if pre.index + x >= CHIP8_MEMORY_SIZE {
        r == Result::<(), VmError>::Err(VmError::OutOfRange) && all_same(pre, post)
    } else {
        &&& r == Result::<(), VmError>::Ok(())
        &&& forall|i: int| 0 <= i <= x ==> post.memory@[pre.index + i] == pre.registers@[i]
        &&& forall|p: int|
            0 <= p < CHIP8_MEMORY_SIZE && !(pre.index <= p <= pre.index + x)
                ==> post.memory@[p] == pre.memory@[p]
        &&& gfx_same(pre, post)
        &&& stack_same(pre, post)
        &&& index_same(pre, post)
        &&& timers_same(pre, post)
        &&& input_same(pre, post)
        &&& regs_same(pre, post)
        &&& pc_adv(pre, post)
    }
}

/// Copy memory at the index register into registers 0 through x inclusive,
/// leaving the registers above x alone. Fails, leaving the state untouched,
/// when the source range does not lie inside memory.
pub open spec fn load_regs_effect(pre: Cpu, post: Cpu, x: int, r: Result<(), VmError>) -> bool {
    if pre.index + x >= CHIP8_MEMORY_SIZE {
        r == Result::<(), VmError>::Err(VmError::OutOfRange) && all_same(pre, post)
    } else {
        &&& r == Result::<(), VmError>::Ok(())
        &&& forall|i: int| 0 <= i <= x ==> post.registers@[i] == pre.memory@[pre.index + i]
        &&& forall|i: int| x < i < 16 ==> post.registers@[i] == pre.registers@[i]
        &&& mem_same(pre, post)
        &&& gfx_same(pre, post)
        &&& stack_same(pre, post)
        &&& index_same(pre, post)
        &&& timers_same(pre, post)
        &&& input_same(pre, post)
        &&& pc_adv(pre, post)
    }
}

/// An unrecognised word: a deliberate best-effort degrade that just moves
/// past the word.
pub open spec fn unknown_effect(pre: Cpu, post: Cpu) -> bool {
    &&& base_same(pre, post)
    &&& regs_same(pre, post)
    &&& pc_adv(pre, post)
}

// ---------------------------------------------------------------------------
// Sprite drawing.
// ---------------------------------------------------------------------------

/// Bit `j` of a sprite byte, most significant bit first.
pub open spec fn bit_of(b: u8, j: int) -> u8 {
    (b >> ((7 - j) as u8)) & 1
}

/// The framebuffer cell that sprite row `i`, bit `j` lands on when the
/// sprite is drawn at column `vx`, row `vy`: rows wrap modulo the screen
/// height and columns modulo the screen width, independently.
pub open spec fn draw_cell(vx: int, vy: int, i: int, j: int) -> int {
    ((vy + i) % (CHIP8_DEFAULT_HEIGHT as int)) * (CHIP8_DEFAULT_WIDTH as int) + ((vx + j) % (
    CHIP8_DEFAULT_WIDTH as int))
}

/// Whether any sprite position of an `n`-row draw lands on cell `p`.
pub open spec fn draw_covers(vx: int, vy: int, n: int, p: int) -> bool {
    exists|i: int, j: int| 0 <= i < n && 0 <= j < 8 && draw_cell(vx, vy, i, j) == p
}

/// Whether any set sprite bit of the first positions of the draw (those
/// with `8 * i + j < t`) lands on an already-set cell of `pre`.
pub open spec fn draw_collides_upto(pre: Cpu, vx: int, vy: int, t: int) -> bool {
    exists|i: int, j: int|
        0 <= i && 0 <= j < 8 && 8 * i + j < t && bit_of(pre.memory@[pre.index + i], j) == 1
            && pre.graphics@[draw_cell(vx, vy, i, j)] == 1
}

/// Whether any set sprite bit of the whole `n`-row draw lands on an
/// already-set cell of `pre`: the collision the flag register reports.
pub open spec fn draw_collides(pre: Cpu, vx: int, vy: int, n: int) -> bool {
    draw_collides_upto(pre, vx, vy, 8 * n)
}

/// Draw an `n`-row sprite read from memory at the index register onto the
/// framebuffer at (Vx mod width, Vy mod height), by XOR, wrapping rows and
/// columns independently. Every covered cell is toggled by its sprite bit;
/// every other cell is untouched; the flag register reports whether any set
/// sprite bit hit an already-set cell. Fails, leaving the state untouched,
/// when the sprite bytes do not all lie inside memory.
pub open spec fn drw_effect(pre: Cpu, post: Cpu, x: int, y: int, n: int, r: Result<
    (),
    VmError,
>) -> bool {
    let vx = pre.registers@[x] as int;
    let vy = pre.registers@[y] as int;
    if pre.index + n > CHIP8_MEMORY_SIZE {
        r == Result::<(), VmError>::Err(VmError::OutOfRange) && all_same(pre, post)
    } else {
        &&& r == Result::<(), VmError>::Ok(())
        &&& mem_same(pre, post)
        &&& forall|i: int, j: int|
            0 <= i < n && 0 <= j < 8 ==> post.graphics@[draw_cell(vx, vy, i, j)]
                == pre.graphics@[draw_cell(vx, vy, i, j)] ^ bit_of(
                pre.memory@[pre.index + i],
                j,
            )
        &&& forall|p: int|
            0 <= p < CHIP8_FRAMEBUFFER_SIZE && !draw_covers(vx, vy, n, p)
                ==> post.graphics@[p] == pre.graphics@[p]
        &&& post.graphics_changed == true
        &&& stack_same(pre, post)
        &&& index_same(pre, post)
        &&& timers_same(pre, post)
        &&& input_same(pre, post)
        &&& post.registers@ == pre.registers@.update(
            15,
            if draw_collides(pre, vx, vy, n) {
                1u8
            } else {
                0u8
            },
        )
        &&& pc_adv(pre, post)
    }
}

/// Two positions with the same row and bit index coincide: distinct sprite
/// positions of one draw always land on distinct cells, because a sprite is
/// at most 16 rows tall and 8 columns wide while the screen wraps at 32
/// rows and 64 columns.
pub proof fn lemma_draw_cell_inj(vx: int, vy: int, i1: int, j1: int, i2: int, j2: int)
    requires
        vx >= 0,
        vy >= 0,
        0 <= i1 < 16,
        0 <= j1 < 8,
        0 <= i2 < 16,
        0 <= j2 < 8,
        draw_cell(vx, vy, i1, j1) == draw_cell(vx, vy, i2, j2),
    ensures
        i1 == i2,
        j1 == j2,
{
    let r1 = (vy + i1) % 32;
    let r2 = (vy + i2) % 32;
    let c1 = (vx + j1) % 64;
    let c2 = (vx + j2) % 64;
    assert(0 <= r1 < 32 && 0 <= r2 < 32 && 0 <= c1 < 64 && 0 <= c2 < 64);
    assert(r1 == r2 && c1 == c2);
    lemma_mod_inj(vy + i1, vy + i2, 32);
    lemma_mod_inj(vx + j1, vx + j2, 64);
}

/// Two numbers less than one modulus apart with the same remainder are
/// equal.
pub proof fn lemma_mod_inj(a: int, b: int, m: int)
    requires
        m > 0,
        a % m == b % m,
        a - b < m,
        b - a < m,
    ensures
        a == b,
{
    vstd::arithmetic::div_mod::lemma_fundamental_div_mod(a, m);
    vstd::arithmetic::div_mod::lemma_fundamental_div_mod(b, m);
    let qa = a / m;
    let qb = b / m;
    assert(m * qa - m * qb == m * (qa - qb)) by (nonlinear_arith);
    if qa > qb {
        assert(m * (qa - qb) >= m) by (nonlinear_arith)
            requires
                m > 0,
                qa - qb >= 1,
        ;
    }
    if qa < qb {
        assert(m * (qa - qb) <= -m) by (nonlinear_arith)
            requires
                m > 0,
                qa - qb <= -1,
        ;
    }
}

/// The three bitwise operators on single-bit bytes, read as logic.
pub proof fn lemma_bits01(a: u8, b: u8)
    requires
        a < 2,
        b < 2,
    ensures
        (a | b) < 2,
        (a & b) < 2,
        (a ^ b) < 2,
        (a | b) == 1 <==> (a == 1 || b == 1),
        (a & b) == 1 <==> (a == 1 && b == 1),
        (a ^ b) == 1 <==> a != b,
{
    assert(a < 2 && b < 2 ==> (a | b) < 2 && (a & b) < 2 && (a ^ b) < 2 && ((a | b) == 1 <==> (a
        == 1 || b == 1)) && ((a & b) == 1 <==> (a == 1 && b == 1)) && ((a ^ b) == 1 <==> a != b))
        by (bit_vector);
}

/// A single extracted sprite bit is 0 or 1.
pub proof fn lemma_bit_of_bounded(b: u8, j: int)
    requires
        0 <= j < 8,
    ensures
        bit_of(b, j) < 2,
{
    let s = (7 - j) as u8;
    assert((b >> s) & 1 < 2) by (bit_vector);
}

/// XOR with the same byte twice restores the original byte.
pub proof fn lemma_xor_undo(a: u8, b: u8)
    ensures
        (a ^ b) ^ b == a,
{
    assert((a ^ b) ^ b == a) by (bit_vector);
}

impl Cpu {
    /// Draw a sprite by XOR, with wraparound and collision reporting.
    pub fn op_dxyn(&mut self, x: usize, y: usize, n: usize) -> (r: Result<(), VmError>)
        requires
            old(self).wf(),
            old(self).can_fetch(),
            x < 16,
            y < 16,
            n < 16,
        ensures
            final(self).wf(),
            drw_effect(*old(self), *final(self), x as int, y as int, n as int, r),
    {
        if self.index + n > CHIP8_MEMORY_SIZE {
            return Err(VmError::OutOfRange);
        }
        let vx = self.registers[x] as usize;
        let vy = self.registers[y] as usize;
        self.registers[15] = 0;
        proof {
            assert(self.registers@ == old(self).registers@.update(15, 0u8));
        }
        let total = n * 8;
        let mut t: usize = 0;
        while t < total
            invariant
                t <= total,
                total == n * 8,
                n < 16,
                x < 16,
                y < 16,
                old(self).wf(),
                old(self).can_fetch(),
                old(self).index + n <= CHIP8_MEMORY_SIZE,
                vx == old(self).registers@[x as int],
                vy == old(self).registers@[y as int],
                mem_same(*old(self), *self),
                stack_same(*old(self), *self),
                index_same(*old(self), *self),
                timers_same(*old(self), *self),
                input_same(*old(self), *self),
                pc_same(*old(self), *self),
                self.graphics_changed == old(self).graphics_changed,
                self.sp == old(self).sp,
                self.keypad_register == old(self).keypad_register,
                self.index == old(self).index,
                forall|p: int| 0 <= p < CHIP8_FRAMEBUFFER_SIZE ==> self.graphics@[p] < 2,
                forall|i: int, j: int|
                    0 <= i && 0 <= j < 8 && 8 * i + j < t ==> self.graphics@[draw_cell(
                        vx as int,
                        vy as int,
                        i,
                        j,
                    )] == old(self).graphics@[draw_cell(vx as int, vy as int, i, j)] ^ bit_of(
                        old(self).memory@[old(self).index + i],
                        j,
                    ),
                forall|p: int|
                    0 <= p < CHIP8_FRAMEBUFFER_SIZE && !(exists|i: int, j: int|
                        0 <= i && 0 <= j < 8 && 8 * i + j < t && draw_cell(vx as int, vy as int, i, j)
                            == p) ==> self.graphics@[p] == old(self).graphics@[p],
                self.registers@ == old(self).registers@.update(
                    15,
                    if draw_collides_upto(*old(self), vx as int, vy as int, t as int) {
                        1u8
                    } else {
                        0u8
                    },
                ),
            decreases total - t,
        {
            let i = t / 8;
            let j = t % 8;
            let row = (vy + i) % CHIP8_DEFAULT_HEIGHT;
            let col = (vx + j) % CHIP8_DEFAULT_WIDTH;
            let p = row * CHIP8_DEFAULT_WIDTH + col;
            let sh = (7 - j) as u8;
            let byte = self.memory[self.index + i];
            let color = (byte >> sh) & 1;
            let ghost pre = *old(self);
            let ghost ii = i as int;
            let ghost jj = j as int;
            let ghost vxi = vx as int;
            let ghost vyi = vy as int;
            proof {
                assert(8 * ii + jj == t);
                assert(draw_cell(vxi, vyi, ii, jj) == p);
                assert(color == bit_of(pre.memory@[pre.index + ii], jj));
                lemma_bit_of_bounded(pre.memory@[pre.index + ii], jj);
                // No earlier sprite position lands on this cell.
                assert forall|i2: int, j2: int|
                    0 <= i2 && 0 <= j2 < 8 && 8 * i2 + j2 < t implies draw_cell(
                    vxi,
                    vyi,
                    i2,
                    j2,
                ) != p by {
                    if draw_cell(vxi, vyi, i2, j2) == p {
                        lemma_draw_cell_inj(vxi, vyi, i2, j2, ii, jj);
                    }
                }
                assert(self.graphics@[p as int] == pre.graphics@[p as int]);
            }
            let cur = self.graphics[p];
            let flag = self.registers[15];
            proof {
                lemma_bits01(color, cur);
                lemma_bits01(cur, color);
                lemma_bits01(flag, color & cur);
            }
            self.registers[15] = flag | (color & cur);
            self.graphics[p] = cur ^ color;
            proof {
                let told = t as int;
                // The collision accumulator matches the one-step-larger
                // prefix.
                if color == 1 && cur == 1 {
                    assert(bit_of(pre.memory@[pre.index + ii], jj) == 1 && pre.graphics@[draw_cell(
                        vxi,
                        vyi,
                        ii,
                        jj,
                    )] == 1 && 8 * ii + jj < told + 1);
                    assert(draw_collides_upto(pre, vxi, vyi, told + 1));
                } else {
                    assert(!(color == 1 && cur == 1));
                    if draw_collides_upto(pre, vxi, vyi, told + 1) {
                        let (i2, j2) = choose|i2: int, j2: int|
                            0 <= i2 && 0 <= j2 < 8 && 8 * i2 + j2 < told + 1 && bit_of(
                                pre.memory@[pre.index + i2],
                                j2,
                            ) == 1 && pre.graphics@[draw_cell(vxi, vyi, i2, j2)] == 1;
                        if 8 * i2 + j2 == told {
                            assert(i2 == ii && j2 == jj);
                            assert(false);
                        }
                        assert(draw_collides_upto(pre, vxi, vyi, told));
                    }
                    if draw_collides_upto(pre, vxi, vyi, told) {
                        let (i2, j2) = choose|i2: int, j2: int|
                            0 <= i2 && 0 <= j2 < 8 && 8 * i2 + j2 < told && bit_of(
                                pre.memory@[pre.index + i2],
                                j2,
                            ) == 1 && pre.graphics@[draw_cell(vxi, vyi, i2, j2)] == 1;
                        assert(draw_collides_upto(pre, vxi, vyi, told + 1));
                    }
                }
                assert(self.registers@ =~= pre.registers@.update(
                    15,
                    if draw_collides_upto(pre, vxi, vyi, told + 1) {
                        1u8
                    } else {
                        0u8
                    },
                ));
            }
            t += 1;
        }
        self.graphics_changed = true;
        self.program_counter.increment();
        proof {
            let pre = *old(self);
            let vxi = vx as int;
            let vyi = vy as int;
            let ni = n as int;
            // The full prefix is the whole draw.
            assert forall|p: int|
                0 <= p < CHIP8_FRAMEBUFFER_SIZE && !draw_covers(vxi, vyi, ni, p) implies self
                .graphics@[p] == pre.graphics@[p] by {
                if exists|i: int, j: int|
                    0 <= i && 0 <= j < 8 && 8 * i + j < 8 * ni && draw_cell(vxi, vyi, i, j) == p {
                    let (i, j) = choose|i: int, j: int|
                        0 <= i && 0 <= j < 8 && 8 * i + j < 8 * ni && draw_cell(vxi, vyi, i, j)
                            == p;
                    assert(0 <= i < ni && 0 <= j < 8 && draw_cell(vxi, vyi, i, j) == p);
                    assert(draw_covers(vxi, vyi, ni, p));
                }
            }
        }
        Ok(())
    }
}

impl Cpu {
    /// Clear screen.
    pub fn op_00e0(&mut self)
        requires
            old(self).wf(),
            old(self).can_fetch(),
        ensures
            final(self).wf(),
            cls_effect(*old(self), *final(self)),
    {
        let mut p: usize = 0;
        while p < CHIP8_FRAMEBUFFER_SIZE
            invariant
                p <= CHIP8_FRAMEBUFFER_SIZE,
                forall|q: int| 0 <= q < p ==> self.graphics@[q] == 0,
                mem_same(*old(self), *self),
                self.graphics_changed == old(self).graphics_changed,
                stack_same(*old(self), *self),
                index_same(*old(self), *self),
                timers_same(*old(self), *self),
                input_same(*old(self), *self),
                regs_same(*old(self), *self),
                pc_same(*old(self), *self),
                old(self).wf(),
                old(self).can_fetch(),
                self.sp == old(self).sp,
                self.keypad_register == old(self).keypad_register,
                self.index == old(self).index,
            decreases CHIP8_FRAMEBUFFER_SIZE - p,
        {
            self.graphics[p] = 0;
            p += 1;
        }
        self.graphics_changed = true;
        self.program_counter.increment();
    }

    /// Return from a call.
    pub fn op_00ee(&mut self) -> (r: Result<(), VmError>)
        requires
            old(self).wf(),
            old(self).can_fetch(),
        ensures
            final(self).wf(),
            ret_effect(*old(self), *final(self), r),
    {
        if self.sp == 0 {
            return Err(VmError::StackUnderflow);
        }
        let addr = self.stack[self.sp - 1];
        if addr >= CHIP8_MEMORY_SIZE {
            return Err(VmError::OutOfRange);
        }
        self.sp -= 1;
        self.program_counter.jump(addr);
        Ok(())
    }

    /// Absolute jump.
    pub fn op_1nnn(&mut self, addr: usize)
        requires
            old(self).wf(),
            old(self).can_fetch(),
            addr < CHIP8_MEMORY_SIZE,
        ensures
            final(self).wf(),
            jp_effect(*old(self), *final(self), addr as int),
    {
        self.program_counter.jump(addr);
    }

    /// Call a subroutine.
    pub fn op_2nnn(&mut self, addr: usize) -> (r: Result<(), VmError>)
        requires
            old(self).wf(),
            old(self).can_fetch(),
            addr < CHIP8_MEMORY_SIZE,
        ensures
            final(self).wf(),
            call_effect(*old(self), *final(self), addr as int, r),
    {
        if self.sp == 16 {
            return Err(VmError::StackOverflow);
        }
        self.stack[self.sp] = self.program_counter.counter + 2;
        self.sp += 1;
        self.program_counter.jump(addr);
        Ok(())
    }

    /// Skip if equal to an immediate.
    pub fn op_3xkk(&mut self, x: usize, kk: u8)
        requires
            old(self).wf(),
            old(self).can_fetch(),
            x < 16,
        ensures
            final(self).wf(),
            se_byte_effect(*old(self), *final(self), x as int, kk),
    {
        let c = self.registers[x] == kk;
        self.program_counter.skip_if(c);
    }

    /// Skip if not equal to an immediate.
    pub fn op_4xkk(&mut self, x: usize, kk: u8)
        requires
            old(self).wf(),
            old(self).can_fetch(),
            x < 16,
        ensures
            final(self).wf(),
            sne_byte_effect(*old(self), *final(self), x as int, kk),
    {
        let c = self.registers[x] != kk;
        self.program_counter.skip_if(c);
    }

    /// Skip if two registers are equal.
    pub fn op_5xy0(&mut self, x: usize, y: usize)
        requires
            old(self).wf(),
            old(self).can_fetch(),
            x < 16,
            y < 16,
        ensures
            final(self).wf(),
            se_reg_effect(*old(self), *final(self), x as int, y as int),
    {
        let c = self.registers[x] == self.registers[y];
        self.program_counter.skip_if(c);
    }

    /// Load an immediate.
    pub fn op_6xkk(&mut self, x: usize, kk: u8)
        requires
            old(self).wf(),
            old(self).can_fetch(),
            x < 16,
        ensures
            final(self).wf(),
            ld_byte_effect(*old(self), *final(self), x as int, kk),
    {
        self.registers[x] = kk;
        self.program_counter.increment();
    }

    /// Add an immediate, wrapping, without touching the flag register.
    pub fn op_7xkk(&mut self, x: usize, kk: u8)
        requires
            old(self).wf(),
            old(self).can_fetch(),
            x < 16,
        ensures
            final(self).wf(),
            add_byte_effect(*old(self), *final(self), x as int, kk),
    {
        let vx = self.registers[x] as u16;
        let val = kk as u16;
        let result = vx + val;
        self.registers[x] = (result % 256) as u8;
        self.program_counter.increment();
    }

    /// Copy a register.
    pub fn op_8xy0(&mut self, x: usize, y: usize)
        requires
            old(self).wf(),
            old(self).can_fetch(),
            x < 16,
            y < 16,
        ensures
            final(self).wf(),
            ld_reg_effect(*old(self), *final(self), x as int, y as int),
    {
        self.registers[x] = self.registers[y];
        self.program_counter.increment();
    }

    /// Bitwise OR.
    pub fn op_8xy1(&mut self, x: usize, y: usize)
        requires
            old(self).wf(),
            old(self).can_fetch(),
            x < 16,
            y < 16,
        ensures
            final(self).wf(),
            or_effect(*old(self), *final(self), x as int, y as int),
    {
        self.registers[x] = self.registers[x] | self.registers[y];
        self.program_counter.increment();
    }

    /// Bitwise AND.
    pub fn op_8xy2(&mut self, x: usize, y: usize)
        requires
            old(self).wf(),
            old(self).can_fetch(),
            x < 16,
            y < 16,
        ensures
            final(self).wf(),
            and_effect(*old(self), *final(self), x as int, y as int),
    {
        self.registers[x] = self.registers[x] & self.registers[y];
        self.program_counter.increment();
    }

    /// Bitwise XOR.
    pub fn op_8xy3(&mut self, x: usize, y: usize)
        requires
            old(self).wf(),
            old(self).can_fetch(),
            x < 16,
            y < 16,
        ensures
            final(self).wf(),
            xor_effect(*old(self), *final(self), x as int, y as int),
    {
        self.registers[x] = self.registers[x] ^ self.registers[y];
        self.program_counter.increment();
    }

    /// Add two registers, wrapping; the flag register records the carry.
    pub fn op_8xy4(&mut self, x: usize, y: usize)
        requires
            old(self).wf(),
            old(self).can_fetch(),
            x < 16,
            y < 16,
        ensures
            final(self).wf(),
            add_reg_effect(*old(self), *final(self), x as int, y as int),
    {
        let vx = self.registers[x] as u16;
        let vy = self.registers[y] as u16;
        let result = vx + vy;
        self.registers[x] = (result % 256) as u8;
        self.registers[15] = if result > 0xFF {
            1
        } else {
            0
        };
        self.program_counter.increment();
    }

    /// Subtract Vy from Vx; the flag register records "no borrow" first.
    pub fn op_8xy5(&mut self, x: usize, y: usize)
        requires
            old(self).wf(),
            old(self).can_fetch(),
            x < 16,
            y < 16,
        ensures
            final(self).wf(),
            sub_effect(*old(self), *final(self), x as int, y as int),
    {
        self.registers[15] = if self.registers[x] >= self.registers[y] {
            1
        } else {
            0
        };
        self.registers[x] = self.registers[x].wrapping_sub(self.registers[y]);
        self.program_counter.increment();
    }

    /// Shift right by one; the flag register records the bit shifted out.
    pub fn op_8x06(&mut self, x: usize)
        requires
            old(self).wf(),
            old(self).can_fetch(),
            x < 16,
        ensures
            final(self).wf(),
            shr_effect(*old(self), *final(self), x as int),
    {
        self.registers[15] = self.registers[x] % 2;
        self.registers[x] = self.registers[x] / 2;
        self.program_counter.increment();
    }

    /// Subtract Vx from Vy into Vx; the mirrored no-borrow flag comes first.
    pub fn op_8xy7(&mut self, x: usize, y: usize)
        requires
            old(self).wf(),
            old(self).can_fetch(),
            x < 16,
            y < 16,
        ensures
            final(self).wf(),
            subn_effect(*old(self), *final(self), x as int, y as int),
    {
        self.registers[15] = if self.registers[y] >= self.registers[x] {
            1
        } else {
            0
        };
        self.registers[x] = self.registers[y].wrapping_sub(self.registers[x]);
        self.program_counter.increment();
    }

    /// Shift left by one, wrapping; the flag register records the bit
    /// shifted out.
    pub fn op_8x0e(&mut self, x: usize)
        requires
            old(self).wf(),
            old(self).can_fetch(),
            x < 16,
        ensures
            final(self).wf(),
            shl_effect(*old(self), *final(self), x as int),
    {
        self.registers[15] = self.registers[x] / 128;
        let doubled = (self.registers[x] as u16) * 2;
        self.registers[x] = (doubled % 256) as u8;
        self.program_counter.increment();
    }

    /// Skip if two registers differ.
    pub fn op_9xy0(&mut self, x: usize, y: usize)
        requires
            old(self).wf(),
            old(self).can_fetch(),
            x < 16,
            y < 16,
        ensures
            final(self).wf(),
            sne_reg_effect(*old(self), *final(self), x as int, y as int),
    {
        let c = self.registers[x] != self.registers[y];
        self.program_counter.skip_if(c);
    }

    /// Load the index register.
    pub fn op_annn(&mut self, nnn: usize)
        requires
            old(self).wf(),
            old(self).can_fetch(),
            nnn < CHIP8_MEMORY_SIZE,
        ensures
            final(self).wf(),
            ld_i_effect(*old(self), *final(self), nnn as int),
    {
        self.index = nnn;
        self.program_counter.increment();
    }

    /// Jump to the address plus register 0.
    pub fn op_bnnn(&mut self, nnn: usize) -> (r: Result<(), VmError>)
        requires
            old(self).wf(),
            old(self).can_fetch(),
            nnn < CHIP8_MEMORY_SIZE,
        ensures
            final(self).wf(),
            jp_v0_effect(*old(self), *final(self), nnn as int, r),
    {
        let target = self.registers[0] as usize + nnn;
        if target >= CHIP8_MEMORY_SIZE {
            return Err(VmError::OutOfRange);
        }
        self.program_counter.jump(target);
        Ok(())
    }

    /// Skip if the key named by the register is pressed.
    pub fn op_ex9e(&mut self, x: usize) -> (r: Result<(), VmError>)
        requires
            old(self).wf(),
            old(self).can_fetch(),
            x < 16,
        ensures
            final(self).wf(),
            skp_effect(*old(self), *final(self), x as int, r),
    {
        let k = self.registers[x] as usize;
        if k >= 16 {
            return Err(VmError::OutOfRange);
        }
        let c = self.keys[k];
        self.program_counter.skip_if(c);
        Ok(())
    }

    /// Skip if the key named by the register is not pressed.
    pub fn op_exa1(&mut self, x: usize) -> (r: Result<(), VmError>)
        requires
            old(self).wf(),
            old(self).can_fetch(),
            x < 16,
        ensures
            final(self).wf(),
            sknp_effect(*old(self), *final(self), x as int, r),
    {
        let k = self.registers[x] as usize;
        if k >= 16 {
            return Err(VmError::OutOfRange);
        }
        let c = !self.keys[k];
        self.program_counter.skip_if(c);
        Ok(())
    }

    /// Read the delay timer into a register.
    pub fn op_fx07(&mut self, x: usize)
        requires
            old(self).wf(),
            old(self).can_fetch(),
            x < 16,
        ensures
            final(self).wf(),
            ld_from_dt_effect(*old(self), *final(self), x as int),
    {
        self.registers[x] = self.delay_timer;
        self.program_counter.increment();
    }

    /// Enter the key-wait state targeting the register.
    pub fn op_fx0a(&mut self, x: usize)
        requires
            old(self).wf(),
            old(self).can_fetch(),
            x < 16,
        ensures
            final(self).wf(),
            wait_key_effect(*old(self), *final(self), x as int),
    {
        self.keypad_waiting = true;
        self.keypad_register = x;
        self.program_counter.increment();
    }

    /// Write a register into the delay timer.
    pub fn op_fx15(&mut self, x: usize)
        requires
            old(self).wf(),
            old(self).can_fetch(),
            x < 16,
        ensures
            final(self).wf(),
            ld_dt_effect(*old(self), *final(self), x as int),
    {
        self.delay_timer = self.registers[x];
        self.program_counter.increment();
    }

    /// Write a register into the sound timer.
    pub fn op_fx18(&mut self, x: usize)
        requires
            old(self).wf(),
            old(self).can_fetch(),
            x < 16,
        ensures
            final(self).wf(),
            ld_st_effect(*old(self), *final(self), x as int),
    {
        self.sound_timer = self.registers[x];
        self.program_counter.increment();
    }

    /// Add a register to the index register, with the overflow-heuristic
    /// flag.
    pub fn op_fx1e(&mut self, x: usize) -> (r: Result<(), VmError>)
        requires
            old(self).wf(),
            old(self).can_fetch(),
            x < 16,
        ensures
            final(self).wf(),
            add_i_effect(*old(self), *final(self), x as int, r),
    {
        let target = self.index + self.registers[x] as usize;
        if target >= CHIP8_MEMORY_SIZE {
            return Err(VmError::OutOfRange);
        }
        self.registers[15] = if self.index > 0x0F00 {
            1
        } else {
            0
        };
        self.index = target;
        self.program_counter.increment();
        Ok(())
    }

    /// Point the index register at a built-in glyph.
    pub fn op_fx29(&mut self, x: usize)
        requires
            old(self).wf(),
            old(self).can_fetch(),
            x < 16,
        ensures
            final(self).wf(),
            ld_font_effect(*old(self), *final(self), x as int),
    {
        self.index = (self.registers[x] as usize) * 5;
        self.program_counter.increment();
    }

    /// Store a register's decimal digits at the index register.
    pub fn op_fx33(&mut self, x: usize) -> (r: Result<(), VmError>)
        requires
            old(self).wf(),
            old(self).can_fetch(),
            x < 16,
        ensures
            final(self).wf(),
            bcd_effect(*old(self), *final(self), x as int, r),
    {
        if self.index + 2 >= CHIP8_MEMORY_SIZE {
            return Err(VmError::OutOfRange);
        }
        let v = self.registers[x];
        self.memory[self.index] = v / 100;
        self.memory[self.index + 1] = (v / 10) % 10;
        self.memory[self.index + 2] = v % 10;
        self.program_counter.increment();
        Ok(())
    }

    /// Copy registers 0 through x inclusive into memory at the index
    /// register.
    pub fn op_fx55(&mut self, x: usize) -> (r: Result<(), VmError>)
        requires
            old(self).wf(),
            old(self).can_fetch(),
            x < 16,
        ensures
            final(self).wf(),
            dump_effect(*old(self), *final(self), x as int, r),
    {
        if self.index + x >= CHIP8_MEMORY_SIZE {
            return Err(VmError::OutOfRange);
        }
        let mut i: usize = 0;
        while i <= x
            invariant
                i <= x + 1,
                x < 16,
                self.index + x < CHIP8_MEMORY_SIZE,
                index_same(*old(self), *self),
                forall|j: int| 0 <= j < i ==> self.memory@[self.index + j] == self.registers@[j],
                forall|p: int|
                    0 <= p < CHIP8_MEMORY_SIZE && !(self.index <= p < self.index + i)
                        ==> self.memory@[p] == old(self).memory@[p],
                gfx_same(*old(self), *self),
                stack_same(*old(self), *self),
                timers_same(*old(self), *self),
                input_same(*old(self), *self),
                regs_same(*old(self), *self),
                pc_same(*old(self), *self),
                old(self).wf(),
                old(self).can_fetch(),
                self.sp == old(self).sp,
                self.keypad_register == old(self).keypad_register,
            decreases x + 1 - i,
        {
            self.memory[self.index + i] = self.registers[i];
            i += 1;
        }
        self.program_counter.increment();
        Ok(())
    }

    /// Copy memory at the index register into registers 0 through x
    /// inclusive.
    pub fn op_fx65(&mut self, x: usize) -> (r: Result<(), VmError>)
        requires
            old(self).wf(),
            old(self).can_fetch(),
            x < 16,
        ensures
            final(self).wf(),
            load_regs_effect(*old(self), *final(self), x as int, r),
    {
        if self.index + x >= CHIP8_MEMORY_SIZE {
            return Err(VmError::OutOfRange);
        }
        let mut i: usize = 0;
        while i <= x
            invariant
                i <= x + 1,
                x < 16,
                self.index + x < CHIP8_MEMORY_SIZE,
                index_same(*old(self), *self),
                forall|j: int| 0 <= j < i ==> self.registers@[j] == self.memory@[self.index + j],
                forall|j: int| i <= j < 16 ==> self.registers@[j] == old(self).registers@[j],
                mem_same(*old(self), *self),
                gfx_same(*old(self), *self),
                stack_same(*old(self), *self),
                timers_same(*old(self), *self),
                input_same(*old(self), *self),
                pc_same(*old(self), *self),
                old(self).wf(),
                old(self).can_fetch(),
                self.sp == old(self).sp,
                self.keypad_register == old(self).keypad_register,
            decreases x + 1 - i,
        {
            self.registers[i] = self.memory[self.index + i];
            i += 1;
        }
        self.program_counter.increment();
        Ok(())
    }
}

// ---------------------------------------------------------------------------
// The random-byte instruction.
// ---------------------------------------------------------------------------

/// Relies on rand::thread_rng and rand::Rng::gen: one byte from the
/// thread-local generator. Nothing is assumed about its value.
#[verifier::external_body]
fn random_byte() -> u8 {
    rand::thread_rng().gen::<u8>()
}

/// The register becomes the given byte masked by the immediate; nothing
/// else but the cursor moves.
pub open spec fn rnd_from_effect(pre: Cpu, post: Cpu, x: int, kk: u8, rnd: u8) -> bool {
    &&& base_same(pre, post)
    &&& post.registers@ == pre.registers@.update(x, rnd & kk)
    &&& pc_adv(pre, post)
}

/// The register becomes some byte masked by the immediate: all that holds
/// of the instruction whatever the generator returned.
pub open spec fn rnd_effect(pre: Cpu, post: Cpu, x: int, kk: u8) -> bool {
    exists|rnd: u8| rnd_from_effect(pre, post, x, kk, rnd)
}

impl Cpu {
    /// The deterministic part of the random instruction: mask the given
    /// byte into the register. Verified for every byte the generator could
    /// hand back.
    pub fn op_cxkk_with(&mut self, x: usize, kk: u8, rnd: u8)
        requires
            old(self).wf(),
            old(self).can_fetch(),
            x < 16,
        ensures
            final(self).wf(),
            rnd_from_effect(*old(self), *final(self), x as int, kk, rnd),
    {
        self.registers[x] = rnd & kk;
        self.program_counter.increment();
    }

    /// Draw a fresh random byte and mask it into the register.
    pub fn op_cxkk(&mut self, x: usize, kk: u8)
        requires
            old(self).wf(),
            old(self).can_fetch(),
            x < 16,
        ensures
            final(self).wf(),
            rnd_effect(*old(self), *final(self), x as int, kk),
    {
        let rnd = random_byte();
        self.op_cxkk_with(x, kk, rnd);
    }
}

// ---------------------------------------------------------------------------
// Dispatch and the step driver.
// ---------------------------------------------------------------------------

/// The effect of executing one decoded word: exactly one instruction's
/// effect predicate, selected by the decoder.
pub open spec fn exec_effect(pre: Cpu, post: Cpu, op: u16, r: Result<(), VmError>) -> bool {
    match spec_decode(op) {
        Instr::Cls => r is Ok && cls_effect(pre, post),
        Instr::Ret => ret_effect(pre, post, r),
        Instr::Jp { nnn } => r is Ok && jp_effect(pre, post, nnn as int),
        Instr::Call { nnn } => call_effect(pre, post, nnn as int, r),
        Instr::SeByte { x, kk } => r is Ok && se_byte_effect(pre, post, x as int, kk),
        Instr::SneByte { x, kk } => r is Ok && sne_byte_effect(pre, post, x as int, kk),
        Instr::SeReg { x, y } => r is Ok && se_reg_effect(pre, post, x as int, y as int),
        Instr::LdByte { x, kk } => r is Ok && ld_byte_effect(pre, post, x as int, kk),
        Instr::AddByte { x, kk } => r is Ok && add_byte_effect(pre, post, x as int, kk),
        Instr::LdReg { x, y } => r is Ok && ld_reg_effect(pre, post, x as int, y as int),
        Instr::Or { x, y } => r is Ok && or_effect(pre, post, x as int, y as int),
        Instr::And { x, y } => r is Ok && and_effect(pre, post, x as int, y as int),
        Instr::Xor { x, y } => r is Ok && xor_effect(pre, post, x as int, y as int),
        Instr::AddReg { x, y } => r is Ok && add_reg_effect(pre, post, x as int, y as int),
        Instr::Sub { x, y } => r is Ok && sub_effect(pre, post, x as int, y as int),
        Instr::Shr { x } => r is Ok && shr_effect(pre, post, x as int),
        Instr::Subn { x, y } => r is Ok && subn_effect(pre, post, x as int, y as int),
        Instr::Shl { x } => r is Ok && shl_effect(pre, post, x as int),
        Instr::SneReg { x, y } => r is Ok && sne_reg_effect(pre, post, x as int, y as int),
        Instr::LdI { nnn } => r is Ok && ld_i_effect(pre, post, nnn as int),
        Instr::JpV0 { nnn } => jp_v0_effect(pre, post, nnn as int, r),
        Instr::Rnd { x, kk } => r is Ok && rnd_effect(pre, post, x as int, kk),
        Instr::Drw { x, y, n } => drw_effect(pre, post, x as int, y as int, n as int, r),
        Instr::Skp { x } => skp_effect(pre, post, x as int, r),
        Instr::Sknp { x } => sknp_effect(pre, post, x as int, r),
        Instr::LdFromDt { x } => r is Ok && ld_from_dt_effect(pre, post, x as int),
        Instr::WaitKey { x } => r is Ok && wait_key_effect(pre, post, x as int),
        Instr::LdDt { x } => r is Ok && ld_dt_effect(pre, post, x as int),
        Instr::LdSt { x } => r is Ok && ld_st_effect(pre, post, x as int),
        Instr::AddI { x } => add_i_effect(pre, post, x as int, r),
        Instr::LdFont { x } => r is Ok && ld_font_effect(pre, post, x as int),
        Instr::Bcd { x } => bcd_effect(pre, post, x as int, r),
        Instr::Dump { x } => dump_effect(pre, post, x as int, r),
        Instr::LoadRegs { x } => load_regs_effect(pre, post, x as int, r),
        Instr::Unknown { op: _ } => r is Ok && unknown_effect(pre, post),
    }
}

/// The lowest pressed key in the snapshot, scanning upward from index `i`.
pub open spec fn first_key_from(keys: [bool; 16], i: int) -> Option<int>
    decreases 16 - i,
{
    if i < 0 || i >= 16 {
        Option::None
    } else if keys@[i] {
        Option::Some(i)
    } else {
        first_key_from(keys, i + 1)
    }
}

/// The lowest pressed key in the snapshot, if any.
pub open spec fn first_key(keys: [bool; 16]) -> Option<int> {
    first_key_from(keys, 0)
}

/// Scanning may start anywhere below the first pressed key.
pub proof fn lemma_first_key_from(keys: [bool; 16], i: int)
    requires
        0 <= i <= 16,
        forall|j: int| 0 <= j < i ==> !keys@[j],
    ensures
        first_key(keys) == first_key_from(keys, i),
    decreases i,
{
    if i > 0 {
        lemma_first_key_from(keys, i - 1);
    }
}

/// Find the lowest pressed key, scanning in ascending index order.
fn lowest_pressed(keys: &[bool; 16]) -> (r: Option<u8>)
    ensures
        match first_key(*keys) {
            Option::Some(k) => r == Option::Some(k as u8),
            Option::None => r == Option::<u8>::None,
        },
{
    let mut i: usize = 0;
    while i < 16 && !keys[i]
        invariant
            i <= 16,
            forall|j: int| 0 <= j < i ==> !keys@[j],
        decreases 16 - i,
    {
        i += 1;
    }
    proof {
        lemma_first_key_from(*keys, i as int);
    }
    if i < 16 {
        Some(i as u8)
    } else {
        None
    }
}

/// How one tick of the key-wait state treats the machine: only the key
/// snapshot is consumed. With no key pressed nothing else moves; on the
/// first pressed key (lowest index wins) the latched register receives the
/// key index and the machine resumes running.
pub open spec fn wait_effect(pre: Cpu, post: Cpu, keys: [bool; 16]) -> bool {
    &&& mem_same(pre, post)
    &&& post.graphics@ == pre.graphics@
    &&& post.graphics_changed == false
    &&& stack_same(pre, post)
    &&& index_same(pre, post)
    &&& timers_same(pre, post)
    &&& post.keys@ == keys@
    &&& post.keypad_register == pre.keypad_register
    &&& pc_same(pre, post)
    &&& match first_key(keys) {
        Option::None => post.keypad_waiting == true && regs_same(pre, post),
        Option::Some(k) => post.keypad_waiting == false && post.registers@
            == pre.registers@.update(pre.keypad_register as int, k as u8),
    }
}

/// A timer counts down by one and saturates at zero.
pub open spec fn dec_timer(t: u8) -> u8 {
    if t > 0 {
        (t - 1) as u8
    } else {
        0
    }
}

/// The machine as it stands right after a tick's entry work: fresh key
/// snapshot taken, dirty flag cleared, and (when not waiting on a key)
/// both timers counted down.
pub open spec fn step_entry(pre: Cpu, keys: [bool; 16]) -> Cpu {
    Cpu {
        keys: keys,
        graphics_changed: false,
        delay_timer: dec_timer(pre.delay_timer),
        sound_timer: dec_timer(pre.sound_timer),
        ..pre
    }
}

/// One tick of the step driver. Waiting on a key consumes only the key
/// snapshot. Otherwise the timers count down, and then the word at the
/// cursor is fetched, decoded and executed; a cursor that cannot fetch a
/// whole word is the out-of-range fault, which leaves the entry state
/// untouched.
pub open spec fn step_effect(pre: Cpu, post: Cpu, keys: [bool; 16], r: Result<
    bool,
    VmError,
>) -> bool {
    if pre.keypad_waiting {
        r == Result::<bool, VmError>::Ok(false) && wait_effect(pre, post, keys)
    } else {
        let mid = step_entry(pre, keys);
        if pre.program_counter.counter + 1 < CHIP8_MEMORY_SIZE {
            match r {
                Result::Ok(changed) => changed == post.graphics_changed && exec_effect(
                    mid,
                    post,
                    pre.opcode_at(),
                    Result::Ok(()),
                ),
                Result::Err(e) => exec_effect(mid, post, pre.opcode_at(), Result::Err(e)),
            }
        } else {
            r == Result::<bool, VmError>::Err(VmError::OutOfRange) && post == mid
        }
    }
}

impl Cpu {
    /// Decode one word and execute it: exactly one instruction's effect.
    pub fn run_opcode(&mut self, opcode: u16) -> (r: Result<(), VmError>)
        requires
            old(self).wf(),
            old(self).can_fetch(),
        ensures
            final(self).wf(),
            exec_effect(*old(self), *final(self), opcode, r),
    {
        match decode(opcode) {
            Instr::Cls => {
                self.op_00e0();
                Ok(())
            },
            Instr::Ret => self.op_00ee(),
            Instr::Jp { nnn } => {
                self.op_1nnn(nnn as usize);
                Ok(())
            },
            Instr::Call { nnn } => self.op_2nnn(nnn as usize),
            Instr::SeByte { x, kk } => {
                self.op_3xkk(x as usize, kk);
                Ok(())
            },
            Instr::SneByte { x, kk } => {
                self.op_4xkk(x as usize, kk);
                Ok(())
            },
            Instr::SeReg { x, y } => {
                self.op_5xy0(x as usize, y as usize);
                Ok(())
            },
            Instr::LdByte { x, kk } => {
                self.op_6xkk(x as usize, kk);
                Ok(())
            },
            Instr::AddByte { x, kk } => {
                self.op_7xkk(x as usize, kk);
                Ok(())
            },
            Instr::LdReg { x, y } => {
                self.op_8xy0(x as usize, y as usize);
                Ok(())
            },
            Instr::Or { x, y } => {
                self.op_8xy1(x as usize, y as usize);
                Ok(())
            },
            Instr::And { x, y } => {
                self.op_8xy2(x as usize, y as usize);
                Ok(())
            },
            Instr::Xor { x, y } => {
                self.op_8xy3(x as usize, y as usize);
                Ok(())
            },
            Instr::AddReg { x, y } => {
                self.op_8xy4(x as usize, y as usize);
                Ok(())
            },
            Instr::Sub { x, y } => {
                self.op_8xy5(x as usize, y as usize);
                Ok(())
            },
            Instr::Shr { x } => {
                self.op_8x06(x as usize);
                Ok(())
            },
            Instr::Subn { x, y } => {
                self.op_8xy7(x as usize, y as usize);
                Ok(())
            },
            Instr::Shl { x } => {
                self.op_8x0e(x as usize);
                Ok(())
            },
            Instr::SneReg { x, y } => {
                self.op_9xy0(x as usize, y as usize);
                Ok(())
            },
            Instr::LdI { nnn } => {
                self.op_annn(nnn as usize);
                Ok(())
            },
            Instr::JpV0 { nnn } => self.op_bnnn(nnn as usize),
            Instr::Rnd { x, kk } => {
                self.op_cxkk(x as usize, kk);
                Ok(())
            },
            Instr::Drw { x, y, n } => self.op_dxyn(x as usize, y as usize, n as usize),
            Instr::Skp { x } => self.op_ex9e(x as usize),
            Instr::Sknp { x } => self.op_exa1(x as usize),
            Instr::LdFromDt { x } => {
                self.op_fx07(x as usize);
                Ok(())
            },
            Instr::WaitKey { x } => {
                self.op_fx0a(x as usize);
                Ok(())
            },
            Instr::LdDt { x } => {
                self.op_fx15(x as usize);
                Ok(())
            },
            Instr::LdSt { x } => {
                self.op_fx18(x as usize);
                Ok(())
            },
            Instr::AddI { x } => self.op_fx1e(x as usize),
            Instr::LdFont { x } => {
                self.op_fx29(x as usize);
                Ok(())
            },
            Instr::Bcd { x } => self.op_fx33(x as usize),
            Instr::Dump { x } => self.op_fx55(x as usize),
            Instr::LoadRegs { x } => self.op_fx65(x as usize),
            Instr::Unknown { op: _ } => {
                self.program_counter.increment();
                Ok(())
            },
        }
    }

    /// One tick: take the key snapshot, clear the dirty flag, then either
    /// resolve the key wait or count the timers down and execute one
    /// instruction. Returns whether the framebuffer changed this tick, or
    /// the fault that stopped the instruction.
    pub fn mainloop(&mut self, keys: [bool; 16]) -> (r: Result<bool, VmError>)
        requires
            old(self).wf(),
        ensures
            final(self).wf(),
            step_effect(*old(self), *final(self), keys, r),
    {
        self.keys = keys;
        self.graphics_changed = false;
        if self.keypad_waiting {
            match lowest_pressed(&keys) {
                Some(k) => {
                    self.keypad_waiting = false;
                    self.registers[self.keypad_register] = k;
                },
                None => {},
            }
            Ok(false)
        } else {
            if self.delay_timer > 0 {
                self.delay_timer = self.delay_timer - 1;
            }
            if self.sound_timer > 0 {
                self.sound_timer = self.sound_timer - 1;
            }
            proof {
                assert(*self =~= step_entry(*old(self), keys));
            }
            if self.program_counter.counter >= CHIP8_MEMORY_SIZE - 1 {
                return Err(VmError::OutOfRange);
            }
            let opcode = self.get_opcode();
            match self.run_opcode(opcode) {
                Ok(()) => Ok(self.graphics_changed),
                Err(e) => Err(e),
            }
        }
    }
}

} // verus!
