//! The mathematical model of the machine and of each instruction.
use vstd::prelude::*;

verus! {

/// Number of general-purpose registers.
pub const NUM_REGISTERS: usize = 16;

/// Number of addressable bytes of memory.
pub const MEMORY_SIZE: usize = 4096;

/// Number of return addresses the call stack can hold.
pub const STACK_SIZE: usize = 16;

/// Index of the register that arithmetic uses as its carry flag.
pub const FLAG_REGISTER: usize = 15;

/// A failure that stops execution.
#[derive(Clone, Copy, Debug, PartialEq, Eq, Structural)]
pub enum CpuError {
    /// A call was made while every slot of the call stack was in use.
    StackOverflow,
    /// A return was made with an empty call stack.
    StackUnderflow,
    /// The fetched opcode matches no instruction.
    UnimplementedOpcode(u16),
    /// The program counter does not leave room for a two-byte fetch.
    ProgramCounterOutOfRange(usize),
}

/// How execution stood when control came back to the caller.
#[derive(Clone, Copy, Debug, PartialEq, Eq, Structural)]
pub enum Status {
    /// The halt opcode was executed.
    Halted,
    /// The machine can go on with the next instruction.
    Running,
}

/// The machine as mathematics sees it.
pub struct Machine {
    pub registers: Seq<u8>,
    pub memory: Seq<u8>,
    pub pc: int,
    pub stack: Seq<u16>,
    pub sp: int,
}

impl Machine {
    /// The shape every machine has, and the bound on the stack pointer.
    pub open spec fn wf(self) -> bool {
        &&& self.registers.len() == NUM_REGISTERS
        &&& self.memory.len() == MEMORY_SIZE
        &&& self.stack.len() == STACK_SIZE
        &&& 0 <= self.sp <= STACK_SIZE
        &&& 0 <= self.pc
    }
}

/// The big-endian 16-bit word stored at `p` and `p + 1`.
pub open spec fn word_at(memory: Seq<u8>, p: int) -> int {
    memory[p] * 256 + memory[p + 1]
}

/// `memory` with `v` stored as two big-endian bytes at `p`.
pub open spec fn store_word(memory: Seq<u8>, p: int, v: u16) -> Seq<u8> {
    memory.update(p, (v / 256) as u8).update(p + 1, (v % 256) as u8)
}

/// Whether an opcode can be fetched at `pc`.
pub open spec fn fetchable(pc: int) -> bool {
    0 <= pc && pc + 1 < MEMORY_SIZE
}

/// The top nibble of an opcode: the instruction family.
pub open spec fn op_c(op: u16) -> u8 {
    (op / 4096) as u8
}

/// The second nibble of an opcode: usually a register index.
pub open spec fn op_x(op: u16) -> u8 {
    ((op / 256) % 16) as u8
}

/// The third nibble of an opcode: usually a second register index.
pub open spec fn op_y(op: u16) -> u8 {
    ((op / 16) % 16) as u8
}

/// The low nibble of an opcode: a discriminator within a family.
pub open spec fn op_d(op: u16) -> u8 {
    (op % 16) as u8
}

/// The low twelve bits of an opcode: an address.
pub open spec fn op_nnn(op: u16) -> u16 {
    (op % 4096) as u16
}

/// Registers `x` and `y` added modulo 256 into `x`, and the flag register
/// set to 1 when the sum exceeded 255, else to 0.
pub open spec fn add_spec(m: Machine, x: int, y: int) -> Machine {
    let sum = m.registers[x] + m.registers[y];
    let wrapped = m.registers.update(x, (sum % 256) as u8);
    Machine {
        registers: wrapped.update(FLAG_REGISTER as int, if sum > 255 { 1u8 } else { 0u8 }),
        ..m
    }
}

/// A call to `addr` with a free stack slot: the program counter is saved
/// in the slot at the stack pointer, which then moves up one.
pub open spec fn call_spec(m: Machine, addr: u16) -> Machine {
    Machine {
        stack: m.stack.update(m.sp, m.pc as u16),
        sp: m.sp + 1,
        pc: addr as int,
        ..m
    }
}

/// A return with a non-empty stack: the stack pointer moves down one and
/// the program counter takes the address saved in that slot.
pub open spec fn ret_spec(m: Machine) -> Machine {
    Machine { sp: m.sp - 1, pc: m.stack[m.sp - 1] as int, ..m }
}

/// What a call does to the machine, and what it reports: with the stack
/// full it fails with `StackOverflow` and changes nothing.
pub open spec fn call_result(m: Machine, addr: u16) -> (Machine, Result<(), CpuError>) {
    if m.sp >= STACK_SIZE {
        (m, Err(CpuError::StackOverflow))
    } else {
        (call_spec(m, addr), Ok(()))
    }
}

/// What a return does to the machine, and what it reports: with the stack
/// empty it fails with `StackUnderflow` and changes nothing.
pub open spec fn ret_result(m: Machine) -> (Machine, Result<(), CpuError>) {
    if m.sp == 0 {
        (m, Err(CpuError::StackUnderflow))
    } else {
        (ret_spec(m), Ok(()))
    }
}

/// Calls to each address of `addrs` in turn, with no return between them.
pub open spec fn calls_spec(m: Machine, addrs: Seq<u16>) -> Machine
    decreases addrs.len(),
{
    if addrs.len() == 0 {
        m
    } else {
        calls_spec(call_spec(m, addrs[0]), addrs.drop_first())
    }
}

/// `n` returns in a row.
pub open spec fn rets_spec(m: Machine, n: nat) -> Machine
    decreases n,
{
    if n == 0 {
        m
    } else {
        ret_spec(rets_spec(m, (n - 1) as nat))
    }
}

/// One fetch, advance, decode and dispatch. The machine is left as it is
/// when no opcode can be fetched; otherwise the program counter has moved
/// past the opcode whatever the instruction does.
pub open spec fn step_spec(m: Machine) -> (Machine, Result<Status, CpuError>) {
    if !fetchable(m.pc) {
        (m, Err(CpuError::ProgramCounterOutOfRange(m.pc as usize)))
    } else {
        let op = word_at(m.memory, m.pc) as u16;
        let n = Machine { pc: m.pc + 2, ..m };
        let (c, x, y, d) = (op_c(op), op_x(op), op_y(op), op_d(op));
        if c == 0 && x == 0 && y == 0 && d == 0 {
            (n, Ok(Status::Halted))
        } else if c == 0 && x == 0 && y == 0xE && d == 0xE {
            if n.sp == 0 {
                (n, Err(CpuError::StackUnderflow))
            } else {
                (ret_spec(n), Ok(Status::Running))
            }
        } else if c == 2 {
            if n.sp >= STACK_SIZE {
                (n, Err(CpuError::StackOverflow))
            } else {
                (call_spec(n, op_nnn(op)), Ok(Status::Running))
            }
        } else if c == 8 && d == 4 {
            (add_spec(n, x as int, y as int), Ok(Status::Running))
        } else {
            (n, Err(CpuError::UnimplementedOpcode(op)))
        }
    }
}

/// At most `fuel` steps: execution stops at the halt opcode, at the first
/// error, or with `Running` once the steps are spent.
pub open spec fn run_spec(m: Machine, fuel: nat) -> (Machine, Result<Status, CpuError>)
    decreases fuel,
{
    if fuel == 0 {
        (m, Ok(Status::Running))
    } else {
        let (n, r) = step_spec(m);
        match r {
            Ok(Status::Running) => run_spec(n, (fuel - 1) as nat),
            _ => (n, r),
        }
    }
}

} // verus!
