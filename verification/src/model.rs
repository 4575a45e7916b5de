//! Mathematical model of the machine: the ghost state, the decoding of a
//! 16-bit instruction word into its four 4-bit fields, the effect of one
//! fetch-decode-execute cycle, and iteration of cycles. The executable
//! machine in `cpu` is specified against this model.

use vstd::prelude::*;

verus! {

/// Number of 8-bit registers.
pub const REG_COUNT: usize = 16;

/// Number of memory cells (4 KiB), shared address space for code and data.
pub const MEM_SIZE: usize = 0x1000;

/// Capacity of the call stack: the number of return addresses it can hold.
pub const STACK_CAPACITY: usize = 16;

/// A fault raised by the machine: an out-of-range register index handed to
/// the inspection operation, a call past the call stack's capacity, or a
/// return with no matching call.
#[derive(Clone, Copy, Debug, PartialEq, Eq, Structural)]
pub enum VmError {
    OutOfRange,
    StackOverflow,
    StackUnderflow,
}

/// The machine's state as the contracts speak of it: the register file, the
/// memory, the program counter and the active entries of the call stack
/// (bottom first).
#[verifier::ext_equal]
pub ghost struct State {
    pub regs: Seq<u8>,
    pub mem: Seq<u8>,
    pub pc: int,
    pub stack: Seq<u16>,
}

/// Well-formedness of a machine state: the register file and memory have
/// their architectural sizes, the call stack is within capacity, the program
/// counter has not passed the top of memory by more than one instruction,
/// and every stored return address points at a fetchable instruction.
pub open spec fn state_wf(s: State) -> bool {
    &&& s.regs.len() == REG_COUNT
    &&& s.mem.len() == MEM_SIZE
    &&& s.stack.len() <= STACK_CAPACITY
    &&& 0 <= s.pc <= MEM_SIZE
    &&& forall|i: int| 0 <= i < s.stack.len() ==> s.stack[i] < (MEM_SIZE - 1)
}

/// The 16-bit instruction word at the current program counter, read
/// big-endian: the high byte sits at the lower address.
pub open spec fn word_at(s: State) -> u16 {
    ((s.mem[s.pc] as u16) << 8) | (s.mem[s.pc + 1] as u16)
}

/// Operation code: bits 15-12 of the instruction word.
pub open spec fn op_of(w: u16) -> u8 {
    (w >> 12) as u8
}

/// Field `x`: bits 11-8, a register index or the top bits of a jump target.
pub open spec fn x_of(w: u16) -> u8 {
    ((w >> 8) & 0xF) as u8
}

/// Field `y`: bits 7-4, a register index, the high half of an immediate, or
/// the middle bits of a jump target.
pub open spec fn y_of(w: u16) -> u8 {
    ((w >> 4) & 0xF) as u8
}

/// Field `z`: bits 3-0, a destination register or the low bits of a jump
/// target.
pub open spec fn z_of(w: u16) -> u8 {
    (w & 0xF) as u8
}

/// The 12-bit jump target encoded by concatenating the three fields.
pub open spec fn target_of(x: u8, y: u8, z: u8) -> u16 {
    (((x as u16) << 8) | ((y as u16) << 4)) | (z as u16)
}

/// 8-bit wrapping addition: the sum modulo 256.
pub open spec fn wrap_add(a: u8, b: u8) -> u8 {
    ((a + b) % 256) as u8
}

/// Register file after ADD-REG: reg[z] = reg[x] + reg[y], wrapping.
pub open spec fn regs_add_reg(regs: Seq<u8>, x: u8, y: u8, z: u8) -> Seq<u8> {
    regs.update(z as int, wrap_add(regs[x as int], regs[y as int]))
}

/// Register file after ADD-IMM: reg[z] = reg[x] + imm, wrapping.
pub open spec fn regs_add_imm(regs: Seq<u8>, x: u8, imm: u8, z: u8) -> Seq<u8> {
    regs.update(z as int, wrap_add(regs[x as int], imm))
}

/// Register file after OR-REG: reg[z] = reg[x] | reg[y].
pub open spec fn regs_or_reg(regs: Seq<u8>, x: u8, y: u8, z: u8) -> Seq<u8> {
    regs.update(z as int, regs[x as int] | regs[y as int])
}

/// Register file after OR-IMM: reg[z] = reg[x] | imm.
pub open spec fn regs_or_imm(regs: Seq<u8>, x: u8, imm: u8, z: u8) -> Seq<u8> {
    regs.update(z as int, regs[x as int] | imm)
}

/// Register file after AND-REG: reg[z] = reg[x] & reg[y].
pub open spec fn regs_and_reg(regs: Seq<u8>, x: u8, y: u8, z: u8) -> Seq<u8> {
    regs.update(z as int, regs[x as int] & regs[y as int])
}

/// Register file after AND-IMM: reg[z] = reg[x] & imm.
pub open spec fn regs_and_imm(regs: Seq<u8>, x: u8, imm: u8, z: u8) -> Seq<u8> {
    regs.update(z as int, regs[x as int] & imm)
}

/// Register file after MOV-REG: reg[x] = reg[y].
pub open spec fn regs_mov_reg(regs: Seq<u8>, x: u8, y: u8) -> Seq<u8> {
    regs.update(x as int, regs[y as int])
}

/// Register file after MOV-IMM: reg[x] = imm.
pub open spec fn regs_mov_imm(regs: Seq<u8>, x: u8, imm: u8) -> Seq<u8> {
    regs.update(x as int, imm)
}

/// What one fetch-decode-execute cycle does at a state whose program counter
/// still allows a two-byte fetch: run on to a successor state, halt on the
/// zero word, or fault on a call-stack violation.
pub ghost enum Cycle {
    Run(State),
    Halt,
    Fault(VmError),
}

/// The successor state of one non-halting, non-faulting cycle. Arithmetic,
/// logic and move operations update one register and advance the program
/// counter by 2; a jump or call redirects the program counter to the 12-bit
/// target with no advance; a return pops the saved address and the cycle's
/// advance then lands execution just past the matching call; the reserved
/// no-op encoding and any operation code without a handler leave all state
/// alone apart from the advance.
pub open spec fn next_state(s: State) -> State {
    let w = word_at(s);
    let op = op_of(w);
    let x = x_of(w);
    let y = y_of(w);
    let z = z_of(w);
    if op == 1 {
        State { regs: regs_add_reg(s.regs, x, y, z), mem: s.mem, pc: s.pc + 2, stack: s.stack }
    } else if op == 2 {
        State { regs: regs_add_imm(s.regs, x, y, z), mem: s.mem, pc: s.pc + 2, stack: s.stack }
    } else if op == 3 {
        State { regs: regs_or_reg(s.regs, x, y, z), mem: s.mem, pc: s.pc + 2, stack: s.stack }
    } else if op == 4 {
        State { regs: regs_or_imm(s.regs, x, y, z), mem: s.mem, pc: s.pc + 2, stack: s.stack }
    } else if op == 5 {
        State { regs: regs_and_reg(s.regs, x, y, z), mem: s.mem, pc: s.pc + 2, stack: s.stack }
    } else if op == 6 {
        State { regs: regs_and_imm(s.regs, x, y, z), mem: s.mem, pc: s.pc + 2, stack: s.stack }
    } else if op == 7 {
        State { regs: regs_mov_reg(s.regs, x, y), mem: s.mem, pc: s.pc + 2, stack: s.stack }
    } else if op == 8 {
        State { regs: regs_mov_imm(s.regs, x, y), mem: s.mem, pc: s.pc + 2, stack: s.stack }
    } else if op == 9 {
        State { regs: s.regs, mem: s.mem, pc: target_of(x, y, z) as int, stack: s.stack }
    } else if op == 10 {
        State {
            regs: s.regs,
            mem: s.mem,
            pc: target_of(x, y, z) as int,
            stack: s.stack.push(s.pc as u16),
        }
    } else if op == 11 {
        State { regs: s.regs, mem: s.mem, pc: s.stack.last() + 2, stack: s.stack.drop_last() }
    } else {
        State { regs: s.regs, mem: s.mem, pc: s.pc + 2, stack: s.stack }
    }
}

/// One cycle at state `s` (meaningful when `s.pc < MEM_SIZE - 1`, so that
/// both instruction bytes are in memory): the zero word is the terminal
/// halt; a call with the stack at capacity, or a return with the stack
/// empty, faults with no state change; every other word runs on to
/// `next_state(s)`.
pub open spec fn cycle(s: State) -> Cycle {
    let w = word_at(s);
    if w == 0 {
        Cycle::Halt
    } else if op_of(w) == 10 && s.stack.len() >= STACK_CAPACITY {
        Cycle::Fault(VmError::StackOverflow)
    } else if op_of(w) == 11 && s.stack.len() == 0 {
        Cycle::Fault(VmError::StackUnderflow)
    } else {
        Cycle::Run(next_state(s))
    }
}

/// The state after exactly `n` cycles from `s`, provided every one of those
/// cycles keeps running: `None` as soon as a halt, a fault, or a program
/// counter at the top of memory is met before the `n` cycles are done.
pub open spec fn iterate(s: State, n: nat) -> Option<State>
    decreases n,
{
    if n == 0 {
        Some(s)
    } else if s.pc < MEM_SIZE - 1 {
        match cycle(s) {
            Cycle::Run(t) => iterate(t, (n - 1) as nat),
            _ => None,
        }
    } else {
        None
    }
}

/// `s1` is reachable from `s0` by some number of running cycles.
pub open spec fn reaches(s0: State, s1: State) -> bool {
    exists|n: nat| iterate(s0, n) == Some(s1)
}

/// Appending one more running cycle to an `n`-cycle execution.
pub proof fn lemma_iterate_succ(s0: State, n: nat, t: State, u: State)
    requires
        iterate(s0, n) == Some(t),
        t.pc < MEM_SIZE - 1,
        cycle(t) == Cycle::Run(u),
    ensures
        iterate(s0, n + 1) == Some(u),
    decreases n,
{
    if n == 0 {
        assert(iterate(s0, 1) == iterate(u, 0));
    } else {
        match cycle(s0) {
            Cycle::Run(v) => {
                lemma_iterate_succ(v, (n - 1) as nat, t, u);
            },
            _ => {
                assert(false);
            },
        }
    }
}

/// Every decoded field is a 4-bit value, so register indices derived from
/// decode are always within the sixteen-slot register file.
pub proof fn lemma_decode_bounds(w: u16)
    ensures
        op_of(w) < 16,
        x_of(w) < 16,
        y_of(w) < 16,
        z_of(w) < 16,
{
    assert(((w >> 12) as u8) < 16 && (((w >> 8) & 0xF) as u8) < 16 && (((w >> 4) & 0xF) as u8)
        < 16 && ((w & 0xF) as u8) < 16) by (bit_vector);
}

/// Moving a register into a register is idempotent: repeating the same
/// MOV-REG leaves the register file exactly as after the first move.
pub proof fn lemma_mov_reg_idempotent(regs: Seq<u8>, x: u8, y: u8)
    requires
        regs.len() == REG_COUNT,
        x < 16,
        y < 16,
    ensures
        regs_mov_reg(regs_mov_reg(regs, x, y), x, y) == regs_mov_reg(regs, x, y),
{
    assert(regs_mov_reg(regs_mov_reg(regs, x, y), x, y) =~= regs_mov_reg(regs, x, y));
}

/// Moving an immediate into a register is idempotent: repeating the same
/// MOV-IMM leaves the register file exactly as after the first move.
pub proof fn lemma_mov_imm_idempotent(regs: Seq<u8>, x: u8, imm: u8)
    requires
        regs.len() == REG_COUNT,
        x < 16,
    ensures
        regs_mov_imm(regs_mov_imm(regs, x, imm), x, imm) == regs_mov_imm(regs, x, imm),
{
    assert(regs_mov_imm(regs_mov_imm(regs, x, imm), x, imm) =~= regs_mov_imm(regs, x, imm));
}

/// A jump cycle sets the program counter to exactly the 12-bit target: no
/// advance is added, and registers, memory and call stack are untouched.
pub proof fn lemma_jump_cycle(s: State)
    requires
        word_at(s) != 0,
        op_of(word_at(s)) == 9,
    ensures
        cycle(s) == Cycle::Run(
            State {
                regs: s.regs,
                mem: s.mem,
                pc: target_of(x_of(word_at(s)), y_of(word_at(s)), z_of(word_at(s))) as int,
                stack: s.stack,
            },
        ),
{
}

/// A call pushes the pre-call program counter and jumps to the 12-bit
/// target; a later return at a state holding that pushed address on top
/// pops it back, and the cycle's advance then resumes execution exactly two
/// bytes past the call instruction.
pub proof fn lemma_call_then_ret(s: State, t: State)
    requires
        state_wf(s),
        s.pc < MEM_SIZE - 1,
        word_at(s) != 0,
        op_of(word_at(s)) == 10,
        s.stack.len() < STACK_CAPACITY,
        word_at(t) != 0,
        op_of(word_at(t)) == 11,
        t.stack == s.stack.push(s.pc as u16),
    ensures
        cycle(s) == Cycle::Run(
            State {
                regs: s.regs,
                mem: s.mem,
                pc: target_of(x_of(word_at(s)), y_of(word_at(s)), z_of(word_at(s))) as int,
                stack: s.stack.push(s.pc as u16),
            },
        ),
        cycle(t) == Cycle::Run(
            State { regs: t.regs, mem: t.mem, pc: s.pc + 2, stack: s.stack },
        ),
{
    assert(t.stack.last() == s.pc as u16);
    assert(t.stack.drop_last() =~= s.stack);
    assert(next_state(t) =~= State { regs: t.regs, mem: t.mem, pc: s.pc + 2, stack: s.stack });
}

/// A zero instruction word is terminal: nothing is reachable from a halted
/// state but that state itself, so no register, memory cell, or stack entry
/// changes after a halt, whatever the remaining memory holds.
pub proof fn lemma_halt_terminal(s: State, t: State, n: nat)
    requires
        word_at(s) == 0,
        iterate(s, n) == Some(t),
    ensures
        t == s,
        n == 0,
{
    if n > 0 {
        assert(iterate(s, n) is None);
    }
}

/// The reserved no-op encoding 0x0111 leaves registers, memory and call
/// stack unchanged and only advances the program counter by 2.
pub proof fn lemma_nop_cycle(s: State)
    requires
        word_at(s) == 0x0111,
    ensures
        cycle(s) == Cycle::Run(
            State { regs: s.regs, mem: s.mem, pc: s.pc + 2, stack: s.stack },
        ),
{
    let w = word_at(s);
    assert(op_of(w) == 0 && w != 0) by (bit_vector)
        requires
            w == 0x0111u16,
    ;
}

/// An operation code with no handler is a permissive no-op: the cycle
/// advances the program counter by 2 and changes nothing else.
pub proof fn lemma_unimplemented_cycle(s: State)
    requires
        word_at(s) != 0,
        op_of(word_at(s)) == 0 || op_of(word_at(s)) >= 12,
    ensures
        cycle(s) == Cycle::Run(
            State { regs: s.regs, mem: s.mem, pc: s.pc + 2, stack: s.stack },
        ),
{
}

} // verus!
