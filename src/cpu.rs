//! The executable machine.
use vstd::prelude::*;

use crate::model::{
    CpuError, FLAG_REGISTER, MEMORY_SIZE, Machine, NUM_REGISTERS, STACK_SIZE, Status, add_spec,
    call_result, call_spec, fetchable, op_c, op_d, op_nnn, op_x, op_y, ret_result, run_spec, step_spec,
    word_at,
};

verus! {

/// Registers, memory, program counter and call stack of one machine.
///
/// The call stack holds sixteen live frames: a call with all sixteen slots
/// in use reports `StackOverflow` rather than writing past the last slot.
pub struct CPU {
    pub registers: [u8; 16],
    pub position_in_memory: usize,
    pub memory: [u8; 4096],
    pub stack: [u16; 16],
    pub stack_pointer: usize,
}

impl View for CPU {
    type V = Machine;

    open spec fn view(&self) -> Machine {
        Machine {
            registers: self.registers@,
            memory: self.memory@,
            pc: self.position_in_memory as int,
            stack: self.stack@,
            sp: self.stack_pointer as int,
        }
    }
}

impl CPU {
    /// Whether the stack pointer is within the call stack.
    pub open spec fn wf(&self) -> bool {
        self.stack_pointer <= STACK_SIZE
    }

    /// A machine with zeroed registers, memory and stack, about to fetch at 0.
    pub fn new() -> (r: CPU)
        ensures
            r.wf(),
            r@.wf(),
            r@.pc == 0,
            r@.sp == 0,
            forall|i: int| 0 <= i < NUM_REGISTERS ==> r@.registers[i] == 0,
            forall|i: int| 0 <= i < MEMORY_SIZE ==> r@.memory[i] == 0,
            forall|i: int| 0 <= i < STACK_SIZE ==> r@.stack[i] == 0,
    {
        CPU {
            registers: [0u8; 16],
            position_in_memory: 0,
            memory: [0u8; 4096],
            stack: [0u16; 16],
            stack_pointer: 0,
        }
    }

    /// The opcode at the program counter: the byte there is the high byte,
    /// the next one the low byte. Nothing changes.
    pub fn read_opcode(&self) -> (r: u16)
        requires
            fetchable(self@.pc),
        ensures
            r as int == word_at(self@.memory, self@.pc),
    {
        let p = self.position_in_memory;
        let op_byte1 = self.memory[p] as u16;
        let op_byte2 = self.memory[p + 1] as u16;
        assert(op_byte1 << 8u16 | op_byte2 == op_byte1 * 256 + op_byte2) by (bit_vector)
            requires
                op_byte1 < 256,
                op_byte2 < 256,
        ;
        op_byte1 << 8 | op_byte2
    }

    /// Adds register `y` to register `x` modulo 256 and sets the flag
    /// register to 1 if the sum exceeded 255, else to 0.
    pub fn add_xy(&mut self, x: u8, y: u8)
        requires
            x < NUM_REGISTERS,
            y < NUM_REGISTERS,
        ensures
            final(self)@ == add_spec(old(self)@, x as int, y as int),
            final(self).stack_pointer == old(self).stack_pointer,
    {
        let arg1 = self.registers[x as usize];
        let arg2 = self.registers[y as usize];
        let val = arg1.wrapping_add(arg2);
        let overflow = arg1 as u16 + arg2 as u16 > 255;
        self.registers[x as usize] = val;
        if overflow {
            self.registers[FLAG_REGISTER] = 1;
        } else {
            self.registers[FLAG_REGISTER] = 0;
        }
        proof {
            let m = add_spec(old(self)@, x as int, y as int);
            assert(self.registers@ =~= m.registers);
        }
    }

    /// Calls `addr`: saves the program counter on the call stack and jumps.
    /// With all sixteen slots in use it fails with `StackOverflow` and
    /// changes nothing. The saved address is a 16-bit value, so the program
    /// counter must fit in one.
    pub fn call(&mut self, addr: u16) -> (r: Result<(), CpuError>)
        requires
            old(self).wf(),
            old(self).position_in_memory <= u16::MAX,
        ensures
            final(self).wf(),
            (final(self)@, r) == call_result(old(self)@, addr),
    {
        let sp = self.stack_pointer;
        if sp >= STACK_SIZE {
            return Err(CpuError::StackOverflow);
        }
        self.stack[sp] = self.position_in_memory as u16;
        self.stack_pointer = sp + 1;
        self.position_in_memory = addr as usize;
        proof {
            assert(self.stack@ =~= call_spec(old(self)@, addr).stack);
        }
        Ok(())
    }

    /// Returns to the address saved most recently on the call stack. With an
    /// empty stack it fails with `StackUnderflow` and changes nothing.
    pub fn ret(&mut self) -> (r: Result<(), CpuError>)
        requires
            old(self).wf(),
        ensures
            final(self).wf(),
            (final(self)@, r) == ret_result(old(self)@),
    {
        if self.stack_pointer == 0 {
            return Err(CpuError::StackUnderflow);
        }
        self.stack_pointer -= 1;
        let addr = self.stack[self.stack_pointer];
        self.position_in_memory = addr as usize;
        Ok(())
    }

    /// Fetches the opcode at the program counter, moves the program counter
    /// past it, and executes it.
    pub fn step(&mut self) -> (r: Result<Status, CpuError>)
        requires
            old(self).wf(),
        ensures
            final(self).wf(),
            (final(self)@, r) == step_spec(old(self)@),
    {
        let p = self.position_in_memory;
        if p > MEMORY_SIZE - 2 {
            return Err(CpuError::ProgramCounterOutOfRange(p));
        }
        let opcode = self.read_opcode();
        self.position_in_memory = p + 2;
        let (c, x, y, d) = decode(opcode);
        let nnn = opcode & 0x0FFF;
        assert(nnn == op_nnn(opcode)) by (bit_vector)
            requires
                nnn == opcode & 0x0FFF,
        ;
        match (c, x, y, d) {
            (0, 0, 0, 0) => Ok(Status::Halted),
            (0, 0, 0xE, 0xE) => match self.ret() {
                Ok(()) => Ok(Status::Running),
                Err(e) => Err(e),
            },
            (0x2, _, _, _) => match self.call(nnn) {
                Ok(()) => Ok(Status::Running),
                Err(e) => Err(e),
            },
            (0x8, _, _, 0x4) => {
                self.add_xy(x, y);
                Ok(Status::Running)
            },
            _ => Err(CpuError::UnimplementedOpcode(opcode)),
        }
    }

    /// Runs at most `max_steps` instructions. Returns `Ok(Halted)` at the
    /// halt opcode, the first error that an instruction raises, or
    /// `Ok(Running)` when the steps are spent before either.
    pub fn run(&mut self, max_steps: u64) -> (r: Result<Status, CpuError>)
        requires
            old(self).wf(),
        ensures
            final(self).wf(),
            (final(self)@, r) == run_spec(old(self)@, max_steps as nat),
    {
        let ghost start = self@;
        let mut left: u64 = max_steps;
        while left > 0
            invariant
                self.wf(),
                start == old(self)@,
                run_spec(start, max_steps as nat) == run_spec(self@, left as nat),
            decreases left,
        {
            let ghost before = self@;
            let r = self.step();
            assert(run_spec(before, left as nat) == match r {
                Ok(Status::Running) => run_spec(self@, (left - 1) as nat),
                _ => (self@, r),
            });
            match r {
                Ok(Status::Running) => {},
                Ok(Status::Halted) => return Ok(Status::Halted),
                Err(e) => return Err(e),
            }
            left = left - 1;
        }
        Ok(Status::Running)
    }
}

/// Splits an opcode into its four nibbles, most significant first.
pub fn decode(opcode: u16) -> (r: (u8, u8, u8, u8))
    ensures
        r == (op_c(opcode), op_x(opcode), op_y(opcode), op_d(opcode)),
        r.0 < 16 && r.1 < 16 && r.2 < 16 && r.3 < 16,
{
    let c = ((opcode & 0xF000) >> 12) as u8;
    let x = ((opcode & 0x0F00) >> 8) as u8;
    let y = ((opcode & 0x00F0) >> 4) as u8;
    let d = (opcode & 0x000F) as u8;
    assert(((opcode & 0xF000) >> 12) == opcode / 4096 && ((opcode & 0x0F00) >> 8) == (opcode
        / 256) % 16 && ((opcode & 0x00F0) >> 4) == (opcode / 16) % 16 && (opcode & 0x000F)
        == opcode % 16) by (bit_vector);
    (c, x, y, d)
}

} // verus!
