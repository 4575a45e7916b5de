//! The executable machine. `Cpu` owns the register file, the memory, the
//! program counter and the call stack; `run` is the fetch-decode-execute
//! loop, specified against the model in `model`.

use vstd::prelude::*;

use crate::model::Cycle;
use crate::model::State;
use crate::model::VmError;
use crate::model::MEM_SIZE;
use crate::model::REG_COUNT;
use crate::model::STACK_CAPACITY;
use crate::model::cycle;
use crate::model::iterate;
use crate::model::next_state;
use crate::model::op_of;
use crate::model::reaches;
use crate::model::regs_add_imm;
use crate::model::regs_add_reg;
use crate::model::regs_and_imm;
use crate::model::regs_and_reg;
use crate::model::regs_mov_imm;
use crate::model::regs_mov_reg;
use crate::model::regs_or_imm;
use crate::model::regs_or_reg;
use crate::model::state_wf;
use crate::model::target_of;
use crate::model::word_at;
use crate::model::x_of;
use crate::model::y_of;
use crate::model::z_of;
use crate::model::lemma_decode_bounds;
use crate::model::lemma_iterate_succ;

verus! {

/// The virtual machine: sixteen 8-bit registers, 4 KiB of memory, a program
/// counter and a call stack of at most sixteen return addresses.
pub struct Cpu {
    registers: Vec<u8>,
    memory: Vec<u8>,
    program_counter: usize,
    stack: Vec<u16>,
}

impl View for Cpu {
    type V = State;

    closed spec fn view(&self) -> State {
        State {
            regs: self.registers@,
            mem: self.memory@,
            pc: self.program_counter as int,
            stack: self.stack@,
        }
    }
}

impl Cpu {
    /// The machine's invariant: its state is well formed in the model's
    /// sense. `new` establishes it and every operation preserves it.
    pub open spec fn wf(&self) -> bool {
        state_wf(self@)
    }

    /// A machine with zeroed registers, zeroed memory, program counter 0 and
    /// an empty call stack. Callers load a program by poking big-endian
    /// instruction words into memory with `write_memory`.
    pub fn new() -> (r: Cpu)
        ensures
            r.wf(),
            r@.regs == Seq::new(REG_COUNT as nat, |i: int| 0u8),
            r@.mem == Seq::new(MEM_SIZE as nat, |i: int| 0u8),
            r@.pc == 0,
            r@.stack == Seq::<u16>::empty(),
    {
        let registers: Vec<u8> = vec![0u8; REG_COUNT];
        let memory: Vec<u8> = vec![0u8; MEM_SIZE];
        let stack: Vec<u16> = Vec::new();
        let r = Cpu { registers, memory, program_counter: 0, stack };
        proof {
            assert(r@.regs =~= Seq::new(REG_COUNT as nat, |i: int| 0u8));
            assert(r@.mem =~= Seq::new(MEM_SIZE as nat, |i: int| 0u8));
        }
        r
    }

    /// The value held by one register.
    pub fn get_value_at_register(&self, register_num: u8) -> (r: u8)
        requires
            self.wf(),
            register_num < 16,
        ensures
            r == self@.regs[register_num as int],
    {
        self.registers[register_num as usize]
    }

    /// Checked register inspection: the register's value for an index within
    /// the file, and `OutOfRange` for exactly the indices outside it.
    pub fn read_register(&self, register_num: u8) -> (r: Result<u8, VmError>)
        requires
            self.wf(),
        ensures
            register_num < 16 ==> r == Ok::<u8, VmError>(self@.regs[register_num as int]),
            register_num >= 16 ==> r == Err::<u8, VmError>(VmError::OutOfRange),
    {
        if register_num < 16 {
            Ok(self.registers[register_num as usize])
        } else {
            Err(VmError::OutOfRange)
        }
    }

    /// Store a value in one register, leaving everything else alone.
    pub fn set_register(&mut self, register_num: u8, value: u8)
        requires
            old(self).wf(),
            register_num < 16,
        ensures
            final(self).wf(),
            final(self)@.regs == old(self)@.regs.update(register_num as int, value),
            final(self)@.mem == old(self)@.mem,
            final(self)@.pc == old(self)@.pc,
            final(self)@.stack == old(self)@.stack,
    {
        self.registers[register_num as usize] = value;
    }

    /// Store a byte in one memory cell, leaving everything else alone.
    pub fn write_memory(&mut self, address: usize, value: u8)
        requires
            old(self).wf(),
            address < MEM_SIZE,
        ensures
            final(self).wf(),
            final(self)@.mem == old(self)@.mem.update(address as int, value),
            final(self)@.regs == old(self)@.regs,
            final(self)@.pc == old(self)@.pc,
            final(self)@.stack == old(self)@.stack,
    {
        self.memory[address] = value;
    }

    /// The current program counter.
    pub fn get_program_counter(&self) -> (r: usize)
        ensures
            r == self@.pc,
    {
        self.program_counter
    }

    /// Split a 16-bit instruction word into its four 4-bit fields:
    /// operation, x, y, z, from most significant to least significant.
    /// Decoding is pure: the machine is not touched.
    pub fn process_opcode(&self, current_opcode: &u16) -> (r: (u8, u8, u8, u8))
        ensures
            r.0 == op_of(*current_opcode),
            r.1 == x_of(*current_opcode),
            r.2 == y_of(*current_opcode),
            r.3 == z_of(*current_opcode),
    {
        let operation: u8 = (*current_opcode >> 12) as u8;
        let register_x: u8 = ((*current_opcode >> 8) & 0xF) as u8;
        let register_y: u8 = ((*current_opcode >> 4) & 0xF) as u8;
        let register_z: u8 = (*current_opcode & 0xF) as u8;
        (operation, register_x, register_y, register_z)
    }

    /// ADD-REG: reg[z] = reg[x] + reg[y], wrapping at 256.
    pub fn add_y_x(&mut self, register_x: u8, register_y: u8, register_z: u8)
        requires
            old(self).wf(),
            register_x < 16,
            register_y < 16,
            register_z < 16,
        ensures
            final(self).wf(),
            final(self)@.regs == regs_add_reg(old(self)@.regs, register_x, register_y, register_z),
            final(self)@.mem == old(self)@.mem,
            final(self)@.pc == old(self)@.pc,
            final(self)@.stack == old(self)@.stack,
    {
        let sum: u16 = (self.registers[register_x as usize] as u16)
            + (self.registers[register_y as usize] as u16);
        self.registers[register_z as usize] = (sum % 256) as u8;
    }

    /// ADD-IMM: reg[z] = reg[x] + val, wrapping at 256.
    pub fn add_x(&mut self, register_x: u8, val: u8, register_z: u8)
        requires
            old(self).wf(),
            register_x < 16,
            register_z < 16,
        ensures
            final(self).wf(),
            final(self)@.regs == regs_add_imm(old(self)@.regs, register_x, val, register_z),
            final(self)@.mem == old(self)@.mem,
            final(self)@.pc == old(self)@.pc,
            final(self)@.stack == old(self)@.stack,
    {
        let sum: u16 = (self.registers[register_x as usize] as u16) + (val as u16);
        self.registers[register_z as usize] = (sum % 256) as u8;
    }

    /// OR-REG: reg[z] = reg[x] | reg[y].
    pub fn or_y_x(&mut self, register_x: u8, register_y: u8, register_z: u8)
        requires
            old(self).wf(),
            register_x < 16,
            register_y < 16,
            register_z < 16,
        ensures
            final(self).wf(),
            final(self)@.regs == regs_or_reg(old(self)@.regs, register_x, register_y, register_z),
            final(self)@.mem == old(self)@.mem,
            final(self)@.pc == old(self)@.pc,
            final(self)@.stack == old(self)@.stack,
    {
        let value: u8 = self.registers[register_x as usize] | self.registers[register_y as usize];
        self.registers[register_z as usize] = value;
    }

    /// OR-IMM: reg[z] = reg[x] | val.
    pub fn or_x(&mut self, register_x: u8, val: u8, register_z: u8)
        requires
            old(self).wf(),
            register_x < 16,
            register_z < 16,
        ensures
            final(self).wf(),
            final(self)@.regs == regs_or_imm(old(self)@.regs, register_x, val, register_z),
            final(self)@.mem == old(self)@.mem,
            final(self)@.pc == old(self)@.pc,
            final(self)@.stack == old(self)@.stack,
    {
        let value: u8 = self.registers[register_x as usize] | val;
        self.registers[register_z as usize] = value;
    }

    /// AND-REG: reg[z] = reg[x] & reg[y].
    pub fn and_y_x(&mut self, register_x: u8, register_y: u8, register_z: u8)
        requires
            old(self).wf(),
            register_x < 16,
            register_y < 16,
            register_z < 16,
        ensures
            final(self).wf(),
            final(self)@.regs == regs_and_reg(old(self)@.regs, register_x, register_y, register_z),
            final(self)@.mem == old(self)@.mem,
            final(self)@.pc == old(self)@.pc,
            final(self)@.stack == old(self)@.stack,
    {
        let value: u8 = self.registers[register_x as usize] & self.registers[register_y as usize];
        self.registers[register_z as usize] = value;
    }

    /// AND-IMM: reg[z] = reg[x] & val.
    pub fn and_x(&mut self, register_x: u8, val: u8, register_z: u8)
        requires
            old(self).wf(),
            register_x < 16,
            register_z < 16,
        ensures
            final(self).wf(),
            final(self)@.regs == regs_and_imm(old(self)@.regs, register_x, val, register_z),
            final(self)@.mem == old(self)@.mem,
            final(self)@.pc == old(self)@.pc,
            final(self)@.stack == old(self)@.stack,
    {
        let value: u8 = self.registers[register_x as usize] & val;
        self.registers[register_z as usize] = value;
    }

    /// MOV-REG: reg[x] = reg[y].
    pub fn mov_y_x(&mut self, register_x: u8, register_y: u8)
        requires
            old(self).wf(),
            register_x < 16,
            register_y < 16,
        ensures
            final(self).wf(),
            final(self)@.regs == regs_mov_reg(old(self)@.regs, register_x, register_y),
            final(self)@.mem == old(self)@.mem,
            final(self)@.pc == old(self)@.pc,
            final(self)@.stack == old(self)@.stack,
    {
        let value: u8 = self.registers[register_y as usize];
        self.registers[register_x as usize] = value;
    }

    /// MOV-IMM: reg[x] = val.
    pub fn mov_x(&mut self, register_x: u8, val: u8)
        requires
            old(self).wf(),
            register_x < 16,
        ensures
            final(self).wf(),
            final(self)@.regs == regs_mov_imm(old(self)@.regs, register_x, val),
            final(self)@.mem == old(self)@.mem,
            final(self)@.pc == old(self)@.pc,
            final(self)@.stack == old(self)@.stack,
    {
        self.registers[register_x as usize] = val;
    }

    /// JUMP: set the program counter to the 12-bit address formed from the
    /// three fields. No advance follows; the next fetch happens there.
    pub fn jump(&mut self, address_part_1: u8, address_part_2: u8, address_part_3: u8)
        requires
            old(self).wf(),
            address_part_1 < 16,
            address_part_2 < 16,
            address_part_3 < 16,
        ensures
            final(self).wf(),
            final(self)@.pc == target_of(address_part_1, address_part_2, address_part_3) as int,
            final(self)@.regs == old(self)@.regs,
            final(self)@.mem == old(self)@.mem,
            final(self)@.stack == old(self)@.stack,
    {
        let address: u16 = (((address_part_1 as u16) << 8) | ((address_part_2 as u16) << 4))
            | (address_part_3 as u16);
        proof {
            let a = address_part_1;
            let b = address_part_2;
            let c = address_part_3;
            assert((((a as u16) << 8) | ((b as u16) << 4)) | (c as u16) <= 0xFFF) by (bit_vector)
                requires
                    a < 16,
                    b < 16,
                    c < 16,
            ;
        }
        self.program_counter = address as usize;
    }

    /// CALL: push the pre-call program counter onto the call stack and jump
    /// to the 12-bit target. A call with the stack already at its capacity
    /// of sixteen entries faults with `StackOverflow` and changes nothing.
    pub fn call(&mut self, address_part_1: u8, address_part_2: u8, address_part_3: u8) -> (r:
        Result<(), VmError>)
        requires
            old(self).wf(),
            address_part_1 < 16,
            address_part_2 < 16,
            address_part_3 < 16,
            old(self)@.pc < MEM_SIZE - 1,
        ensures
            final(self).wf(),
            match r {
                Ok(()) => {
                    &&& old(self)@.stack.len() < STACK_CAPACITY
                    &&& final(self)@.stack == old(self)@.stack.push(old(self)@.pc as u16)
                    &&& final(self)@.pc == target_of(
                        address_part_1,
                        address_part_2,
                        address_part_3,
                    ) as int
                    &&& final(self)@.regs == old(self)@.regs
                    &&& final(self)@.mem == old(self)@.mem
                },
                Err(e) => {
                    &&& e == VmError::StackOverflow
                    &&& old(self)@.stack.len() >= STACK_CAPACITY
                    &&& final(self)@ == old(self)@
                },
            },
    {
        if self.stack.len() >= STACK_CAPACITY {
            return Err(VmError::StackOverflow);
        }
        let return_address: u16 = self.program_counter as u16;
        self.stack.push(return_address);
        self.jump(address_part_1, address_part_2, address_part_3);
        Ok(())
    }

    /// RET: pop the most recent return address off the call stack into the
    /// program counter. The cycle's advance then lands execution two bytes
    /// past the matching call. A return with an empty call stack faults with
    /// `StackUnderflow` and changes nothing.
    pub fn ret(&mut self) -> (r: Result<(), VmError>)
        requires
            old(self).wf(),
        ensures
            final(self).wf(),
            match r {
                Ok(()) => {
                    &&& old(self)@.stack.len() > 0
                    &&& final(self)@.pc == old(self)@.stack.last() as int
                    &&& final(self)@.stack == old(self)@.stack.drop_last()
                    &&& final(self)@.regs == old(self)@.regs
                    &&& final(self)@.mem == old(self)@.mem
                },
                Err(e) => {
                    &&& e == VmError::StackUnderflow
                    &&& old(self)@.stack.len() == 0
                    &&& final(self)@ == old(self)@
                },
            },
    {
        if self.stack.len() == 0 {
            return Err(VmError::StackUnderflow);
        }
        match self.stack.pop() {
            Some(address) => {
                self.program_counter = address as usize;
                Ok(())
            },
            None => Err(VmError::StackUnderflow),
        }
    }
    /// The fetch-decode-execute loop. Starting from the current state, one
    /// cycle of the model runs per iteration until the zero word halts the
    /// machine, the program counter reaches the top of memory (both `Ok`),
    /// or a call-stack fault stops it (`Err`, with the machine left exactly
    /// at the faulting state). The machine itself has no instruction budget,
    /// so a program that never halts would run forever; a defensive cycle
    /// budget bounds the loop, and exhausting it returns `Ok` after exactly
    /// that many cycles, as the last `ensures` disjunct records.
    #[verifier::loop_isolation(false)]
    pub fn run(&mut self) -> (r: Result<(), VmError>)
        requires
            old(self).wf(),
        ensures
            final(self).wf(),
            reaches(old(self)@, final(self)@),
            match r {
                Ok(()) => final(self)@.pc >= MEM_SIZE - 1 || word_at(final(self)@) == 0
                    || iterate(old(self)@, u64::MAX as nat) == Some(final(self)@),
                Err(e) => final(self)@.pc < MEM_SIZE - 1 && cycle(final(self)@) == Cycle::Fault(
                    e,
                ),
            },
    {
        let ghost start = self@;
        let mut fuel: u64 = u64::MAX;
        let ghost mut steps: nat = 0;
        while self.program_counter < MEM_SIZE - 1 && fuel > 0
            invariant
                self.wf(),
                iterate(start, steps) == Some(self@),
                steps + fuel == u64::MAX as nat,
            decreases fuel,
        {
            let ghost pre = self@;
            let high_byte = self.memory[self.program_counter];
            let low_byte = self.memory[self.program_counter + 1];
            let current_opcode: u16 = ((high_byte as u16) << 8) | (low_byte as u16);
            if current_opcode == 0 {
                return Ok(());
            }
            let parts = self.process_opcode(&current_opcode);
            let operation = parts.0;
            let register_x = parts.1;
            let register_y = parts.2;
            let register_z = parts.3;
            proof {
                lemma_decode_bounds(current_opcode);
                assert(word_at(pre) == current_opcode);
            }
            if operation == 0 && register_x == 1 && register_y == 1 && register_z == 1 {
                // the reserved no-op encoding 0x0111
                self.program_counter = self.program_counter + 2;
            } else {
                match operation {
                    1 => {
                        self.add_y_x(register_x, register_y, register_z);
                        self.program_counter = self.program_counter + 2;
                    },
                    2 => {
                        self.add_x(register_x, register_y, register_z);
                        self.program_counter = self.program_counter + 2;
                    },
                    3 => {
                        self.or_y_x(register_x, register_y, register_z);
                        self.program_counter = self.program_counter + 2;
                    },
                    4 => {
                        self.or_x(register_x, register_y, register_z);
                        self.program_counter = self.program_counter + 2;
                    },
                    5 => {
                        self.and_y_x(register_x, register_y, register_z);
                        self.program_counter = self.program_counter + 2;
                    },
                    6 => {
                        self.and_x(register_x, register_y, register_z);
                        self.program_counter = self.program_counter + 2;
                    },
                    7 => {
                        self.mov_y_x(register_x, register_y);
                        self.program_counter = self.program_counter + 2;
                    },
                    8 => {
                        self.mov_x(register_x, register_y);
                        self.program_counter = self.program_counter + 2;
                    },
                    9 => {
                        self.jump(register_x, register_y, register_z);
                    },
                    10 => {
                        match self.call(register_x, register_y, register_z) {
                            Ok(()) => {},
                            Err(e) => {
                                return Err(e);
                            },
                        }
                    },
                    11 => {
                        match self.ret() {
                            Ok(()) => {
                                proof {
                                    assert(pre.stack[pre.stack.len() - 1] < (MEM_SIZE - 1));
                                }
                                self.program_counter = self.program_counter + 2;
                            },
                            Err(e) => {
                                return Err(e);
                            },
                        }
                    },
                    _ => {
                        // operation code with no handler: a permissive no-op
                        self.program_counter = self.program_counter + 2;
                    },
                }
            }
            proof {
                assert(next_state(pre) =~= self@);
                assert(cycle(pre) == Cycle::Run(next_state(pre)));
                lemma_iterate_succ(start, steps, pre, self@);
                steps = steps + 1;
            }
            fuel = fuel - 1;
        }
        Ok(())
    }

}

} // verus!

