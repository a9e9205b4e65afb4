//! The mathematical model of the machine: its state, what each instruction
//! does to it, and what a run is.
//!
//! Instructions that do not reach the tracer are functions from state and
//! operand bytes to a `Step`. Instructions that reach the tracer are relations:
//! what the tracer answers is not the machine's to decide, so the model says
//! which steps are possible for each answer.
use vstd::prelude::*;

use crate::codec::{be_u16, be_u64, le_bytes, le_u64, splice};
use crate::game_2::GameTracer;
use crate::interpreter::{GasCost, InstructionEncoding, InterpreterError};
use crate::tracer::{Tracer, TracerError};

verus! {

/// A gas model: the budget of a run and the price of each instruction.
pub struct GasModel {
    /// The gas a run starts with.
    pub budget: usize,
    /// Prices by opcode.
    pub catalogue: Map<u8, GasCost>,
    /// The price of an opcode that the catalogue does not list.
    pub default_cost: GasCost,
}

/// The state of a machine with a tracer of type `T`.
pub struct Vm<T> {
    /// The twelve registers.
    pub registers: Seq<u64>,
    /// The 1024 bytes of memory.
    pub memory: Seq<u8>,
    /// Index of the next instruction in the bytecode.
    pub pc: usize,
    /// Gas that is left.
    pub gas: usize,
    /// Whether the secret was submitted.
    pub solved: bool,
    /// The executable that becomes the traced process.
    pub challenge_elf: Seq<u8>,
    /// The secret, once it is set.
    pub flag: Option<Seq<u8>>,
    /// The gas model, once it is installed.
    pub gas_model: Option<GasModel>,
    /// The tracer, once it is attached.
    pub tracer: Option<T>,
}

/// How an instruction ended and the state it left.
pub struct Step<T> {
    /// `Ok`, or why the run stops.
    pub result: Result<(), InterpreterError>,
    /// The state after the instruction.
    pub vm: Vm<T>,
}

/// The instruction took effect and left `vm`.
pub open spec fn done<T>(vm: Vm<T>) -> Step<T> {
    Step { result: Ok(()), vm }
}

/// The instruction failed with `error` and left `vm`.
pub open spec fn failed<T>(vm: Vm<T>, error: InterpreterError) -> Step<T> {
    Step { result: Err(error), vm }
}

/// `vm` with the program counter moved on by `by` bytes.
pub open spec fn advance<T>(vm: Vm<T>, by: int) -> Vm<T> {
    Vm { pc: (vm.pc + by) as usize, ..vm }
}

/// A state is well-formed when it has twelve registers, 1024 bytes of memory,
/// and a secret, if any, of sixteen bytes.
pub open spec fn well_formed<T>(vm: Vm<T>) -> bool {
    &&& vm.registers.len() == 12
    &&& vm.memory.len() == 1024
    &&& (vm.flag matches Some(flag) ==> flag.len() == 16)
    &&& (vm.gas_model matches Some(model) ==> sound(model))
}

// ---------------------------------------------------------------------------
// Gas
// ---------------------------------------------------------------------------

/// The four instructions that transfer bytes through the tracer. They are
/// charged by the number of bytes, once it is known; every other opcode is
/// charged before it is decoded.
pub open spec fn is_io_opcode(opcode: u8) -> bool {
    0x90 <= opcode <= 0x93
}

/// The rule that `model` has for `opcode`.
pub open spec fn rule_for(model: GasModel, opcode: u8) -> GasCost {
    if model.catalogue.contains_key(opcode) {
        model.catalogue[opcode]
    } else {
        model.default_cost
    }
}

/// A gas model is sound when every opcode that is charged without a quantity
/// has a fixed price.
pub open spec fn sound(model: GasModel) -> bool {
    forall|opcode: u8| !is_io_opcode(opcode) ==> #[trigger] rule_for(model, opcode) is Fixed
}

/// What a rule charges for a quantity: a fixed price whatever the quantity, a
/// unit price times the quantity, at most `usize::MAX`.
pub open spec fn rule_cost(rule: GasCost, quantity: Option<usize>) -> usize
    recommends
        rule is Variable ==> quantity is Some,
{
    match rule {
        GasCost::Fixed(price) => price,
        GasCost::Variable(price) => match quantity {
            Some(units) => if price * units > usize::MAX {
                usize::MAX
            } else {
                (price * units) as usize
            },
            None => 0,
        },
    }
}

/// What `opcode` costs in state `vm`: nothing while no gas model is installed.
pub open spec fn cost_of<T>(vm: Vm<T>, opcode: u8, quantity: Option<usize>) -> usize {
    match vm.gas_model {
        None => 0,
        Some(model) => rule_cost(rule_for(model, opcode), quantity),
    }
}

/// Whether `opcode` is charged before it is decoded.
pub open spec fn is_fixed_cost<T>(vm: Vm<T>, opcode: u8) -> bool {
    vm.gas_model is Some && !is_io_opcode(opcode)
}

/// Charging `opcode`: the cost leaves the gas if it fits, else nothing
/// changes and the budget is exceeded.
pub open spec fn charge<T>(vm: Vm<T>, opcode: u8, quantity: Option<usize>) -> Step<T> {
    let cost = cost_of(vm, opcode, quantity);
    if cost > vm.gas {
        failed(vm, InterpreterError::BudgetExceeded)
    } else {
        done(Vm { gas: (vm.gas - cost) as usize, ..vm })
    }
}

// ---------------------------------------------------------------------------
// Instructions that do not reach the tracer
// ---------------------------------------------------------------------------

/// Load an immediate into a register.
pub open spec fn store_reg<T>(vm: Vm<T>, operands: Seq<u8>) -> Step<T> {
    if operands.len() < 9 {
        failed(vm, InterpreterError::IncompleteInstruction)
    } else if operands[0] >= 12 {
        failed(vm, InterpreterError::InvalidRegisterIndex)
    } else {
        done(
            advance(
                Vm { registers: vm.registers.update(operands[0] as int, be_u64(operands, 1)), ..vm },
                9,
            ),
        )
    }
}

/// Copy one register to another.
pub open spec fn move_reg<T>(vm: Vm<T>, operands: Seq<u8>) -> Step<T> {
    if operands.len() < 2 {
        failed(vm, InterpreterError::IncompleteInstruction)
    } else if operands[0] >= 12 || operands[1] >= 12 {
        failed(vm, InterpreterError::InvalidRegisterIndex)
    } else {
        done(
            advance(
                Vm {
                    registers: vm.registers.update(
                        operands[0] as int,
                        vm.registers[operands[1] as int],
                    ),
                    ..vm
                },
                2,
            ),
        )
    }
}

/// Store the low `width` bytes of a register at an immediate address.
pub open spec fn store_mem<T>(vm: Vm<T>, width: int, operands: Seq<u8>) -> Step<T> {
    let address = be_u16(operands, 0);
    if operands.len() < 3 {
        failed(vm, InterpreterError::IncompleteInstruction)
    } else if address + width > 1024 {
        failed(vm, InterpreterError::InvalidMemoryAddress)
    } else if operands[2] >= 12 {
        failed(vm, InterpreterError::InvalidRegisterIndex)
    } else {
        done(
            advance(
                Vm {
                    memory: splice(
                        vm.memory,
                        address as int,
                        le_bytes(vm.registers[operands[2] as int], width),
                    ),
                    ..vm
                },
                3,
            ),
        )
    }
}

/// Load the eight bytes at an immediate address into a register.
pub open spec fn load_mem<T>(vm: Vm<T>, operands: Seq<u8>) -> Step<T> {
    let address = be_u16(operands, 1);
    if operands.len() < 3 {
        failed(vm, InterpreterError::IncompleteInstruction)
    } else if operands[0] >= 12 {
        failed(vm, InterpreterError::InvalidRegisterIndex)
    } else if address + 8 > 1024 {
        failed(vm, InterpreterError::InvalidMemoryAddress)
    } else {
        done(
            advance(
                Vm {
                    registers: vm.registers.update(
                        operands[0] as int,
                        le_u64(vm.memory, address as int),
                    ),
                    ..vm
                },
                3,
            ),
        )
    }
}

/// Store the low `width` bytes of a register at the address that another
/// register holds.
pub open spec fn store_indirect<T>(vm: Vm<T>, width: int, operands: Seq<u8>) -> Step<T> {
    if operands.len() < 2 {
        failed(vm, InterpreterError::IncompleteInstruction)
    } else if operands[0] >= 12 {
        failed(vm, InterpreterError::InvalidRegisterIndex)
    } else if vm.registers[operands[0] as int] + width > 1024 {
        failed(vm, InterpreterError::InvalidMemoryAddress)
    } else if operands[1] >= 12 {
        failed(vm, InterpreterError::InvalidRegisterIndex)
    } else {
        done(
            advance(
                Vm {
                    memory: splice(
                        vm.memory,
                        vm.registers[operands[0] as int] as int,
                        le_bytes(vm.registers[operands[1] as int], width),
                    ),
                    ..vm
                },
                2,
            ),
        )
    }
}

/// Load into a register the eight bytes at the address that another register
/// holds.
pub open spec fn load_indirect<T>(vm: Vm<T>, operands: Seq<u8>) -> Step<T> {
    if operands.len() < 2 {
        failed(vm, InterpreterError::IncompleteInstruction)
    } else if operands[0] >= 12 || operands[1] >= 12 {
        failed(vm, InterpreterError::InvalidRegisterIndex)
    } else if vm.registers[operands[1] as int] + 8 > 1024 {
        failed(vm, InterpreterError::InvalidMemoryAddress)
    } else {
        done(
            advance(
                Vm {
                    registers: vm.registers.update(
                        operands[0] as int,
                        le_u64(vm.memory, vm.registers[operands[1] as int] as int),
                    ),
                    ..vm
                },
                2,
            ),
        )
    }
}

/// Continue at a 16-bit target.
pub open spec fn jump<T>(vm: Vm<T>, operands: Seq<u8>) -> Step<T> {
    if operands.len() < 2 {
        failed(vm, InterpreterError::IncompleteInstruction)
    } else {
        done(Vm { pc: be_u16(operands, 0) as usize, ..vm })
    }
}

/// The test of a conditional jump.
#[derive(Clone, Copy, Debug, PartialEq, Eq)]
pub enum Condition {
    /// The registers are equal.
    Equal,
    /// The registers differ.
    NotEqual,
    /// The first register is below the second.
    Below,
    /// The first register is above the second.
    Above,
}

/// Whether `condition` holds of `first` and `second`.
pub open spec fn holds(condition: Condition, first: u64, second: u64) -> bool {
    match condition {
        Condition::Equal => first == second,
        Condition::NotEqual => first != second,
        Condition::Below => first < second,
        Condition::Above => first > second,
    }
}

/// Continue at a 16-bit target if `condition` holds of two registers, else at
/// the next instruction.
pub open spec fn jump_if<T>(vm: Vm<T>, condition: Condition, operands: Seq<u8>) -> Step<T> {
    if operands.len() < 4 {
        failed(vm, InterpreterError::IncompleteInstruction)
    } else if operands[0] >= 12 || operands[1] >= 12 {
        failed(vm, InterpreterError::InvalidRegisterIndex)
    } else if holds(condition, vm.registers[operands[0] as int], vm.registers[operands[1] as int]) {
        done(Vm { pc: be_u16(operands, 2) as usize, ..vm })
    } else {
        done(advance(vm, 4))
    }
}

/// An operation on two registers.
#[derive(Clone, Copy, Debug, PartialEq, Eq)]
pub enum Operation {
    /// Sum, modulo 2 to the power 64.
    Add,
    /// Difference, modulo 2 to the power 64.
    Sub,
    /// Bitwise and.
    And,
    /// Shift left by the second register modulo 64.
    ShiftLeft,
}

/// The result of `operation` on `first` and `second`.
pub open spec fn apply(operation: Operation, first: u64, second: u64) -> u64 {
    match operation {
        Operation::Add => ((first + second) % 0x1_0000_0000_0000_0000) as u64,
        Operation::Sub => ((first - second) % 0x1_0000_0000_0000_0000) as u64,
        Operation::And => first & second,
        Operation::ShiftLeft => first << (second % 64),
    }
}

/// Replace the first register by the result of `operation` on both.
pub open spec fn combine<T>(vm: Vm<T>, operation: Operation, operands: Seq<u8>) -> Step<T> {
    if operands.len() < 2 {
        failed(vm, InterpreterError::IncompleteInstruction)
    } else if operands[0] >= 12 || operands[1] >= 12 {
        failed(vm, InterpreterError::InvalidRegisterIndex)
    } else {
        done(
            advance(
                Vm {
                    registers: vm.registers.update(
                        operands[0] as int,
                        apply(
                            operation,
                            vm.registers[operands[0] as int],
                            vm.registers[operands[1] as int],
                        ),
                    ),
                    ..vm
                },
                2,
            ),
        )
    }
}

/// Whether the sixteen bytes of memory at `address` are the secret.
pub open spec fn flag_matches<T>(vm: Vm<T>, address: int) -> bool {
    vm.flag matches Some(flag) && flag == vm.memory.subrange(address, address + 16)
}

/// Compare sixteen bytes of memory with the secret and halt: the machine is
/// solved if they are equal, and stays solved if it was.
pub open spec fn submit_flag<T>(vm: Vm<T>, operands: Seq<u8>) -> Step<T> {
    let address = be_u16(operands, 0);
    if operands.len() < 2 {
        failed(vm, InterpreterError::IncompleteInstruction)
    } else if address + 16 > 1024 {
        failed(vm, InterpreterError::InvalidMemoryRange)
    } else {
        done(Vm { solved: vm.solved || flag_matches(vm, address as int), pc: 0xFFFF, ..vm })
    }
}

/// `byte` with bit `bit` inverted.
pub open spec fn flip_bit(byte: u8, bit: u8) -> u8 {
    byte ^ (1u8 << bit)
}

/// Invert one bit of the executable, given by its 64-bit bit offset.
pub open spec fn bit_flip_elf<T>(vm: Vm<T>, operands: Seq<u8>) -> Step<T> {
    let offset = be_u64(operands, 0);
    if operands.len() < 8 {
        failed(vm, InterpreterError::IncompleteInstruction)
    } else if offset / 8 >= vm.challenge_elf.len() {
        failed(vm, InterpreterError::InvalidBitOffset)
    } else {
        done(
            advance(
                Vm {
                    challenge_elf: vm.challenge_elf.update(
                        offset as int / 8,
                        flip_bit(vm.challenge_elf[offset as int / 8], (offset % 8) as u8),
                    ),
                    ..vm
                },
                8,
            ),
        )
    }
}

// ---------------------------------------------------------------------------
// Instructions that reach the tracer
// ---------------------------------------------------------------------------

/// What is left of a write once the tracer, now `tracer`, has answered
/// `outcome`: the program counter moves on, or the tracer's error stops the
/// run. The number of bytes that the tracer took is not looked at.
pub open spec fn write_done<T>(
    vm: Vm<T>,
    consumed: int,
    tracer: T,
    outcome: Result<usize, TracerError>,
) -> Step<T> {
    match outcome {
        Ok(_) => done(advance(Vm { tracer: Some(tracer), ..vm }, consumed)),
        Err(error) => failed(
            Vm { tracer: Some(tracer), ..vm },
            InterpreterError::TracerError(error),
        ),
    }
}

/// What is left of a read once the tracer, now `tracer`, has left `filled` in
/// the buffer and answered `outcome`: the buffer goes to memory at
/// `destination` and the program counter moves on, or the tracer's error
/// stops the run and memory stays as it was.
pub open spec fn read_done<T>(
    vm: Vm<T>,
    destination: int,
    consumed: int,
    tracer: T,
    filled: Seq<u8>,
    outcome: Result<usize, TracerError>,
) -> Step<T> {
    match outcome {
        Ok(_) => done(
            advance(
                Vm { memory: splice(vm.memory, destination, filled), tracer: Some(tracer), ..vm },
                consumed,
            ),
        ),
        Err(error) => failed(
            Vm { tracer: Some(tracer), ..vm },
            InterpreterError::TracerError(error),
        ),
    }
}

/// Sending `length` bytes of memory from `source`, a range within memory:
/// the transfer is charged at the price of a write; if the gas suffices and
/// a tracer is attached, exactly these bytes are handed to it, once.
pub open spec fn send<T: Tracer>(
    vm: Vm<T>,
    source: int,
    length: int,
    consumed: int,
    step: Step<T>,
) -> bool {
    let charged = charge(vm, InstructionEncoding::WriteStdin, Some(length as usize));
    if charged.result is Err {
        step == charged
    } else {
        match vm.tracer {
            None => step == done(advance(charged.vm, consumed)),
            Some(before) => {
                &&& step.vm.tracer is Some
                &&& exists|outcome: Result<usize, TracerError>|
                    {
                        &&& #[trigger] T::wrote(
                            before,
                            vm.memory.subrange(source, source + length),
                            step.vm.tracer->0,
                            outcome,
                        )
                        &&& step == write_done(charged.vm, consumed, step.vm.tracer->0, outcome)
                    }
            },
        }
    }
}

/// Receiving `length` bytes into memory at `destination`, a range within
/// memory: the transfer is charged at the price of a read; if the gas
/// suffices and a tracer is attached, it is handed a buffer that holds these
/// bytes of memory, once, and what it leaves there goes to memory.
pub open spec fn receive<T: Tracer>(
    vm: Vm<T>,
    destination: int,
    length: int,
    consumed: int,
    step: Step<T>,
) -> bool {
    let charged = charge(vm, InstructionEncoding::ReadStdout, Some(length as usize));
    if charged.result is Err {
        step == charged
    } else {
        match vm.tracer {
            None => step == done(advance(charged.vm, consumed)),
            Some(before) => {
                &&& step.vm.tracer is Some
                &&& exists|filled: Seq<u8>, outcome: Result<usize, TracerError>|
                    {
                        &&& filled.len() == length
                        &&& #[trigger] T::read(
                            before,
                            vm.memory.subrange(destination, destination + length),
                            step.vm.tracer->0,
                            filled,
                            outcome,
                        )
                        &&& step == read_done(
                            charged.vm,
                            destination,
                            consumed,
                            step.vm.tracer->0,
                            filled,
                            outcome,
                        )
                    }
            },
        }
    }
}

/// Write memory to the traced process: immediate address and length.
pub open spec fn write_stdin<T: Tracer>(vm: Vm<T>, operands: Seq<u8>, step: Step<T>) -> bool {
    let source = be_u16(operands, 0);
    let length = be_u16(operands, 2);
    if operands.len() < 4 {
        step == failed(vm, InterpreterError::IncompleteInstruction)
    } else if source + length > 1024 {
        step == failed(vm, InterpreterError::InvalidMemoryRange)
    } else {
        send(vm, source as int, length as int, 4, step)
    }
}

/// Read from the traced process into memory: immediate address and length.
pub open spec fn read_stdout<T: Tracer>(vm: Vm<T>, operands: Seq<u8>, step: Step<T>) -> bool {
    let destination = be_u16(operands, 0);
    let length = be_u16(operands, 2);
    if operands.len() < 4 {
        step == failed(vm, InterpreterError::IncompleteInstruction)
    } else if destination + length > 1024 {
        step == failed(vm, InterpreterError::InvalidMemoryRange)
    } else {
        receive(vm, destination as int, length as int, 4, step)
    }
}

/// Whether the range that two registers give, by address and length, lies in
/// memory and starts below its end.
pub open spec fn register_range_valid(address: u64, length: u64) -> bool {
    address < 1024 && address + length <= 1024
}

/// Write memory to the traced process: address and length in registers.
pub open spec fn write_stdin_reg<T: Tracer>(vm: Vm<T>, operands: Seq<u8>, step: Step<T>) -> bool {
    if operands.len() < 2 {
        step == failed(vm, InterpreterError::IncompleteInstruction)
    } else if operands[0] >= 12 || operands[1] >= 12 {
        step == failed(vm, InterpreterError::InvalidRegisterIndex)
    } else if !register_range_valid(
        vm.registers[operands[0] as int],
        vm.registers[operands[1] as int],
    ) {
        step == failed(vm, InterpreterError::InvalidMemoryRange)
    } else {
        send(
            vm,
            vm.registers[operands[0] as int] as int,
            vm.registers[operands[1] as int] as int,
            2,
            step,
        )
    }
}

/// Read from the traced process into memory: address and length in registers.
pub open spec fn read_stdout_reg<T: Tracer>(vm: Vm<T>, operands: Seq<u8>, step: Step<T>) -> bool {
    if operands.len() < 2 {
        step == failed(vm, InterpreterError::IncompleteInstruction)
    } else if operands[0] >= 12 || operands[1] >= 12 {
        step == failed(vm, InterpreterError::InvalidRegisterIndex)
    } else if !register_range_valid(
        vm.registers[operands[0] as int],
        vm.registers[operands[1] as int],
    ) {
        step == failed(vm, InterpreterError::InvalidMemoryRange)
    } else {
        receive(
            vm,
            vm.registers[operands[0] as int] as int,
            vm.registers[operands[1] as int] as int,
            2,
            step,
        )
    }
}

/// What is left of a bit flip once the tracer, now `tracer`, has answered the
/// write with `outcome`.
pub open spec fn poke_done<T>(vm: Vm<T>, tracer: T, outcome: Result<(), TracerError>) -> Step<T> {
    match outcome {
        Ok(_) => done(advance(Vm { tracer: Some(tracer), ..vm }, 1)),
        Err(error) => failed(
            Vm { tracer: Some(tracer), ..vm },
            InterpreterError::TracerError(error),
        ),
    }
}

/// What is left of a bit flip when the tracer, now `tracer`, has failed to
/// read the byte: an address that is not mapped makes the instruction do
/// nothing, any other error stops the run.
pub open spec fn peek_failed<T>(vm: Vm<T>, tracer: T, error: TracerError) -> Step<T> {
    match error {
        TracerError::InvalidInferiorAddress => done(advance(Vm { tracer: Some(tracer), ..vm }, 1)),
        _ => failed(Vm { tracer: Some(tracer), ..vm }, InterpreterError::TracerError(error)),
    }
}

/// Invert one bit of the traced process's memory: the byte at the address
/// that a register holds is read through the tracer and written back with
/// the bit inverted.
pub open spec fn bit_flip_mem<T: GameTracer>(vm: Vm<T>, operands: Seq<u8>, step: Step<T>) -> bool {
    let register = operands[0] / 16;
    let bit = operands[0] % 16;
    if operands.len() < 1 {
        step == failed(vm, InterpreterError::IncompleteInstruction)
    } else if register >= 12 {
        step == failed(vm, InterpreterError::InvalidRegisterIndex)
    } else if bit >= 8 {
        step == failed(vm, InterpreterError::InvalidBitOffset)
    } else {
        match vm.tracer {
            None => step == done(advance(vm, 1)),
            Some(before) => exists|between: T, peeked: Result<u8, TracerError>|
                {
                    &&& #[trigger] T::peeked(
                        before,
                        vm.registers[register as int],
                        between,
                        peeked,
                    )
                    &&& match peeked {
                        Err(error) => step == peek_failed(vm, between, error),
                        Ok(byte) => {
                            &&& step.vm.tracer is Some
                            &&& exists|poked: Result<(), TracerError>|
                                {
                                    &&& #[trigger] T::poked(
                                        between,
                                        vm.registers[register as int],
                                        flip_bit(byte, bit),
                                        step.vm.tracer->0,
                                        poked,
                                    )
                                    &&& step == poke_done(vm, step.vm.tracer->0, poked)
                                }
                        },
                    }
                },
        }
    }
}

// ---------------------------------------------------------------------------
// The instruction set
// ---------------------------------------------------------------------------

/// Number of operand bytes that follow `opcode`, for the opcodes of the
/// instruction set.
pub open spec fn operand_len(opcode: u8) -> Option<int> {
    if opcode == InstructionEncoding::StoreReg {
        Some(9)
    } else if opcode == InstructionEncoding::MoveReg {
        Some(2)
    } else if InstructionEncoding::StoreMem8 <= opcode <= InstructionEncoding::LoadMem {
        Some(3)
    } else if InstructionEncoding::StoreReg8 <= opcode <= InstructionEncoding::LshiftReg {
        Some(2)
    } else if opcode == InstructionEncoding::Jump {
        Some(2)
    } else if InstructionEncoding::JumpIfEq <= opcode <= InstructionEncoding::JumpIfGt {
        Some(4)
    } else if opcode == InstructionEncoding::BitFlipElf {
        Some(8)
    } else if opcode == InstructionEncoding::BitFlipMem {
        Some(1)
    } else if opcode == InstructionEncoding::WriteStdin || opcode
        == InstructionEncoding::ReadStdout {
        Some(4)
    } else if opcode == InstructionEncoding::WriteStdinReg || opcode
        == InstructionEncoding::ReadStdoutReg {
        Some(2)
    } else if opcode == InstructionEncoding::SubmitFlag {
        Some(2)
    } else {
        None
    }
}

/// The instructions that every edition has: whether `opcode` with `operands`,
/// in state `vm`, may end in `step`.
pub open spec fn base_instruction<T: Tracer>(
    vm: Vm<T>,
    opcode: u8,
    operands: Seq<u8>,
    step: Step<T>,
) -> bool {
    if opcode == InstructionEncoding::StoreReg {
        step == store_reg(vm, operands)
    } else if opcode == InstructionEncoding::MoveReg {
        step == move_reg(vm, operands)
    } else if opcode == InstructionEncoding::StoreMem8 {
        step == store_mem(vm, 1, operands)
    } else if opcode == InstructionEncoding::StoreMem16 {
        step == store_mem(vm, 2, operands)
    } else if opcode == InstructionEncoding::StoreMem32 {
        step == store_mem(vm, 4, operands)
    } else if opcode == InstructionEncoding::StoreMem64 {
        step == store_mem(vm, 8, operands)
    } else if opcode == InstructionEncoding::LoadMem {
        step == load_mem(vm, operands)
    } else if opcode == InstructionEncoding::StoreReg8 {
        step == store_indirect(vm, 1, operands)
    } else if opcode == InstructionEncoding::StoreReg16 {
        step == store_indirect(vm, 2, operands)
    } else if opcode == InstructionEncoding::StoreReg32 {
        step == store_indirect(vm, 4, operands)
    } else if opcode == InstructionEncoding::StoreReg64 {
        step == store_indirect(vm, 8, operands)
    } else if opcode == InstructionEncoding::LoadReg {
        step == load_indirect(vm, operands)
    } else if opcode == InstructionEncoding::AddReg {
        step == combine(vm, Operation::Add, operands)
    } else if opcode == InstructionEncoding::SubReg {
        step == combine(vm, Operation::Sub, operands)
    } else if opcode == InstructionEncoding::AndReg {
        step == combine(vm, Operation::And, operands)
    } else if opcode == InstructionEncoding::LshiftReg {
        step == combine(vm, Operation::ShiftLeft, operands)
    } else if opcode == InstructionEncoding::Jump {
        step == jump(vm, operands)
    } else if opcode == InstructionEncoding::JumpIfEq {
        step == jump_if(vm, Condition::Equal, operands)
    } else if opcode == InstructionEncoding::JumpIfNeq {
        step == jump_if(vm, Condition::NotEqual, operands)
    } else if opcode == InstructionEncoding::JumpIfLt {
        step == jump_if(vm, Condition::Below, operands)
    } else if opcode == InstructionEncoding::JumpIfGt {
        step == jump_if(vm, Condition::Above, operands)
    } else if opcode == InstructionEncoding::WriteStdin {
        write_stdin(vm, operands, step)
    } else if opcode == InstructionEncoding::ReadStdout {
        read_stdout(vm, operands, step)
    } else if opcode == InstructionEncoding::WriteStdinReg {
        write_stdin_reg(vm, operands, step)
    } else if opcode == InstructionEncoding::ReadStdoutReg {
        read_stdout_reg(vm, operands, step)
    } else if opcode == InstructionEncoding::SubmitFlag {
        step == submit_flag(vm, operands)
    } else {
        step == failed(vm, InterpreterError::InvalidInstruction)
    }
}

/// The instructions of an edition with bit flips in the traced process: the
/// bit flip, and the instructions that every edition has.
pub open spec fn instruction<T: GameTracer>(
    vm: Vm<T>,
    opcode: u8,
    operands: Seq<u8>,
    step: Step<T>,
) -> bool {
    if opcode == InstructionEncoding::BitFlipMem {
        bit_flip_mem(vm, operands, step)
    } else {
        base_instruction(vm, opcode, operands, step)
    }
}

// ---------------------------------------------------------------------------
// Runs
// ---------------------------------------------------------------------------

/// Whether a run goes on from `vm`: the program counter lies in the bytecode
/// and is not the halting value.
pub open spec fn running<T>(vm: Vm<T>, bytecode: Seq<u8>) -> bool {
    vm.pc < bytecode.len() && vm.pc != 0xFFFF
}

/// One turn of the loop from a state that runs: the opcode at the program
/// counter is fetched; unless it transfers through the tracer it is charged
/// at its fixed price, and stops the run if the gas does not suffice; then it
/// is executed on the bytes that follow it.
pub open spec fn turn<T: GameTracer>(vm: Vm<T>, bytecode: Seq<u8>, step: Step<T>) -> bool
    recommends
        running(vm, bytecode),
{
    let opcode = bytecode[vm.pc as int];
    let operands = bytecode.subrange(vm.pc + 1, bytecode.len() as int);
    let fetched = advance(vm, 1);
    let charged = if is_fixed_cost(vm, opcode) {
        charge(fetched, opcode, None)
    } else {
        done(fetched)
    };
    if charged.result is Err {
        step == charged
    } else {
        instruction(charged.vm, opcode, operands, step)
    }
}

/// Whether `count` turns, each of which took effect, lead from `start` to
/// `end`.
pub open spec fn reaches<T: GameTracer>(
    start: Vm<T>,
    bytecode: Seq<u8>,
    count: nat,
    end: Vm<T>,
) -> bool
    decreases count,
{
    if count == 0 {
        end == start
    } else {
        exists|middle: Vm<T>|
            {
                &&& reaches(start, bytecode, (count - 1) as nat, middle)
                &&& running(middle, bytecode)
                &&& #[trigger] turn(middle, bytecode, done(end))
            }
    }
}

/// A further turn that takes effect extends what is reached by one turn.
pub proof fn lemma_reaches_one_more<T: GameTracer>(
    start: Vm<T>,
    bytecode: Seq<u8>,
    count: nat,
    middle: Vm<T>,
    end: Vm<T>,
)
    requires
        reaches(start, bytecode, count, middle),
        running(middle, bytecode),
        turn(middle, bytecode, done(end)),
    ensures
        reaches(start, bytecode, count + 1, end),
{
    assert(((count + 1) - 1) as nat == count);
}

/// The most turns that a run takes.
pub open spec fn turn_limit() -> nat {
    u64::MAX as nat
}

/// Whether a run from `start` may end in `step`: after some number of turns
/// that took effect, either the machine has halted, or a further turn failed,
/// or the limit of turns is reached, which counts as an exceeded budget.
pub open spec fn run<T: GameTracer>(start: Vm<T>, bytecode: Seq<u8>, step: Step<T>) -> bool {
    exists|count: nat, last: Vm<T>|
        {
            &&& count <= turn_limit()
            &&& #[trigger] reaches(start, bytecode, count, last)
            &&& if !running(last, bytecode) {
                step == done(last)
            } else if count == turn_limit() {
                step == failed(last, InterpreterError::BudgetExceeded)
            } else {
                step.result is Err && turn(last, bytecode, step)
            }
        }
}

/// The phase before the process is launched, from a program counter within
/// the bytecode: as long as the next opcode flips a bit of the executable, it
/// is charged and executed; the first failure stops the phase, and so does
/// the first other opcode, which is left where it is.
pub open spec fn elf_bit_flips<T>(vm: Vm<T>, bytecode: Seq<u8>) -> Step<T>
    decreases bytecode.len() - vm.pc,
    when bytecode.len() <= usize::MAX
{
    if vm.pc < bytecode.len() && bytecode[vm.pc as int] == InstructionEncoding::BitFlipElf {
        let charged = charge(advance(vm, 1), InstructionEncoding::BitFlipElf, None);
        if charged.result is Err {
            charged
        } else {
            let flipped = bit_flip_elf(
                charged.vm,
                bytecode.subrange(vm.pc + 1, bytecode.len() as int),
            );
            if flipped.result is Err {
                flipped
            } else {
                elf_bit_flips(flipped.vm, bytecode)
            }
        }
    } else {
        done(vm)
    }
}

} // verus!
