//! The execution engine.
use std::collections::HashMap;
use vstd::prelude::*;

use crate::codec::{read_be_u16, read_be_u64, read_le_u64, splice, to_le_bytes};
use crate::machine::{
    apply, base_instruction, charge, combine, cost_of, holds, is_fixed_cost, is_io_opcode, jump,
    jump_if, load_indirect, load_mem, move_reg, read_done, read_stdout, read_stdout_reg, receive,
    rule_cost, rule_for, send, sound, store_indirect, store_mem, store_reg, submit_flag,
    well_formed, write_done, write_stdin, write_stdin_reg, Condition, GasModel, Operation, Step,
    Vm,
};
use crate::tracer::{Tracer, TracerError};

verus! {

/// Number of registers.
pub const EVM_REGISTER_COUNT: usize = 12;

/// Size of the machine's memory in bytes.
pub const EVM_MEMORY_SIZE: usize = 1024;

/// The program counter that halts a run.
pub const EVM_MAX_BYTECODE_LEN: usize = 0xFFFF;

/// Length of the secret in bytes.
pub const FLAG_LEN: usize = 16;

/// What an instruction costs.
#[derive(Clone, Copy, Debug, PartialEq, Eq)]
pub enum GasCost {
    /// A set price, whatever the quantity.
    Fixed(usize),
    /// A price per unit of the quantity given with the charge.
    Variable(usize),
}

/// What every instruction returns.
pub type InstructionExecResult = Result<(), InterpreterError>;

/// The first byte of an instruction.
#[derive(Clone, Copy, Debug, PartialEq, Eq, Hash)]
pub struct InstructionEncoding(pub u8);

impl InstructionEncoding {
    /// `00 AA BB BB BB BB BB BB BB BB`: register index, 64-bit immediate.
    pub const StoreReg: u8 = 0x00;

    /// `01 AA BB`: destination register index, source register index.
    pub const MoveReg: u8 = 0x01;

    /// `02 AA AA BB`: 16-bit address, register index.
    pub const StoreMem8: u8 = 0x02;

    /// `03 AA AA BB`: 16-bit address, register index.
    pub const StoreMem16: u8 = 0x03;

    /// `04 AA AA BB`: 16-bit address, register index.
    pub const StoreMem32: u8 = 0x04;

    /// `05 AA AA BB`: 16-bit address, register index.
    pub const StoreMem64: u8 = 0x05;

    /// `06 AA BB BB`: register index, 16-bit address.
    pub const LoadMem: u8 = 0x06;

    /// `07 AA BB`: index of the register that holds the address, register index.
    pub const StoreReg8: u8 = 0x07;

    /// `08 AA BB`: index of the register that holds the address, register index.
    pub const StoreReg16: u8 = 0x08;

    /// `09 AA BB`: index of the register that holds the address, register index.
    pub const StoreReg32: u8 = 0x09;

    /// `0A AA BB`: index of the register that holds the address, register index.
    pub const StoreReg64: u8 = 0x0A;

    /// `0B AA BB`: register index, index of the register that holds the address.
    pub const LoadReg: u8 = 0x0B;

    /// `0C AA BB`: two register indices.
    pub const AddReg: u8 = 0x0C;

    /// `0D AA BB`: two register indices.
    pub const SubReg: u8 = 0x0D;

    /// `0E AA BB`: two register indices.
    pub const AndReg: u8 = 0x0E;

    /// `0F AA BB`: two register indices.
    pub const LshiftReg: u8 = 0x0F;

    /// `10 AA AA`: 16-bit target.
    pub const Jump: u8 = 0x10;

    /// `11 AA BB CC CC`: two register indices, 16-bit target.
    pub const JumpIfEq: u8 = 0x11;

    /// `12 AA BB CC CC`: two register indices, 16-bit target.
    pub const JumpIfNeq: u8 = 0x12;

    /// `13 AA BB CC CC`: two register indices, 16-bit target.
    pub const JumpIfLt: u8 = 0x13;

    /// `14 AA BB CC CC`: two register indices, 16-bit target.
    pub const JumpIfGt: u8 = 0x14;

    /// `80 AA AA AA AA AA AA AA AA`: 64-bit bit offset into the executable.
    pub const BitFlipElf: u8 = 0x80;

    /// `81 AA`: high nibble a register index, low nibble a bit index.
    pub const BitFlipMem: u8 = 0x81;

    /// `90 AA AA BB BB`: 16-bit source address, 16-bit length.
    pub const WriteStdin: u8 = 0x90;

    /// `91 AA AA BB BB`: 16-bit destination address, 16-bit length.
    pub const ReadStdout: u8 = 0x91;

    /// `92 AA BB`: index of the address register, index of the length register.
    pub const WriteStdinReg: u8 = 0x92;

    /// `93 AA BB`: index of the address register, index of the length register.
    pub const ReadStdoutReg: u8 = 0x93;

    /// `F0 AA AA`: 16-bit address of the submitted secret.
    pub const SubmitFlag: u8 = 0xF0;
}

/// Why a run stopped.
#[derive(Debug)]
pub enum InterpreterError {
    /// The opcode names no instruction.
    InvalidInstruction,
    /// Fewer bytes remain than the instruction's operands take.
    IncompleteInstruction,
    /// A register index is 12 or more.
    InvalidRegisterIndex,
    /// A load or store reaches beyond memory.
    InvalidMemoryAddress,
    /// A transfer or a submitted secret reaches beyond memory.
    InvalidMemoryRange,
    /// A bit index is 8 or more, or a bit offset lies beyond the executable.
    InvalidBitOffset,
    /// The instruction costs more than the gas that is left.
    BudgetExceeded,
    /// The tracer failed.
    TracerError(TracerError),
}

/// A gas model: the budget of a run and what each instruction costs.
pub struct GameParameters {
    budget: usize,
    instruction_catalogue: HashMap<u8, GasCost>,
    default_cost: GasCost,
}

impl View for GameParameters {
    type V = GasModel;

    closed spec fn view(&self) -> GasModel {
        GasModel {
            budget: self.budget,
            catalogue: self.instruction_catalogue@,
            default_cost: self.default_cost,
        }
    }
}

impl GameParameters {
    #[verifier::type_invariant]
    spec fn priced_soundly(self) -> bool {
        sound(self@)
    }

    /// A gas model with the given budget, prices by opcode, and price for the
    /// opcodes that `catalogue` does not list. Only the four transfer
    /// instructions may be priced by quantity: every other opcode is charged
    /// before its operands are known.
    pub fn new(budget: usize, catalogue: HashMap<u8, GasCost>, default_cost: GasCost) -> (params:
        Self)
        requires
            sound(GasModel { budget, catalogue: catalogue@, default_cost }),
        ensures
            params@ == (GasModel { budget, catalogue: catalogue@, default_cost }),
            sound(params@),
    {
        Self { budget, instruction_catalogue: catalogue, default_cost }
    }

    /// The same gas model, if it is sound: if only the four transfer
    /// instructions are priced by quantity.
    pub fn try_new(
        budget: usize,
        catalogue: HashMap<u8, GasCost>,
        default_cost: GasCost,
    ) -> (params: Option<Self>)
        ensures
            sound(GasModel { budget, catalogue: catalogue@, default_cost }) ==> params is Some
                && params->0@ == (GasModel { budget, catalogue: catalogue@, default_cost }),
            !sound(GasModel { budget, catalogue: catalogue@, default_cost }) ==> params is None,
    {
        let ghost model = GasModel { budget, catalogue: catalogue@, default_cost };
        let mut next: u16 = 0;
        while next < 256
            invariant
                next <= 256,
                model == (GasModel { budget, catalogue: catalogue@, default_cost }),
                forall|earlier: u8|
                    earlier < next && !is_io_opcode(earlier) ==> #[trigger] rule_for(
                        model,
                        earlier,
                    ) is Fixed,
            decreases 256 - next,
        {
            let opcode: u8 = next as u8;
            if !(0x90 <= opcode && opcode <= 0x93) {
                let fixed = match catalogue.get(&opcode) {
                    Some(GasCost::Fixed(_)) => true,
                    Some(GasCost::Variable(_)) => false,
                    None => match default_cost {
                        GasCost::Fixed(_) => true,
                        GasCost::Variable(_) => false,
                    },
                };
                assert(fixed == rule_for(model, opcode) is Fixed);
                if !fixed {
                    return None;
                }
            }
            next += 1;
        }
        Some(Self::new(budget, catalogue, default_cost))
    }

    /// The budget of a run.
    pub fn budget(&self) -> (budget: usize)
        ensures
            budget == self@.budget,
    {
        self.budget
    }

    /// The rule for `opcode`: the catalogue's, or the default.
    pub fn rule(&self, opcode: u8) -> (rule: GasCost)
        ensures
            rule == rule_for(self@, opcode),
            !is_io_opcode(opcode) ==> rule is Fixed,
    {
        proof {
            use_type_invariant(self);
        }
        match self.instruction_catalogue.get(&opcode) {
            Some(rule) => *rule,
            None => self.default_cost,
        }
    }
}

/// What `rule` charges for `quantity`.
pub fn price(rule: GasCost, quantity: Option<usize>) -> (cost: usize)
    requires
        rule is Variable ==> quantity is Some,
    ensures
        cost == rule_cost(rule, quantity),
{
    match rule {
        GasCost::Fixed(price) => price,
        GasCost::Variable(price) => match quantity {
            Some(units) => match price.checked_mul(units) {
                Some(cost) => cost,
                None => usize::MAX,
            },
            None => 0,
        },
    }
}

/// The machine: registers, memory, program counter, gas, and the tracer
/// through which it reaches the traced process.
///
/// `T` is the tracer and `GAME` the edition, 2 or 3, which decides how the
/// machine runs: every edition has the instructions and the gas of this
/// module.
pub struct Interpreter<T, const GAME: u8> {
    /// The executable that becomes the traced process.
    pub challenge_elf: Vec<u8>,
    /// Index of the next instruction in the bytecode.
    pub pc: usize,
    /// The tracer, once it is attached.
    pub tracer: Option<T>,
    /// The registers.
    pub registers: [u64; EVM_REGISTER_COUNT],
    /// The memory.
    pub memory: [u8; EVM_MEMORY_SIZE],
    pub(crate) game_params: Option<GameParameters>,
    pub(crate) gas: usize,
    pub(crate) solved: bool,
    pub(crate) flag: Option<[u8; FLAG_LEN]>,
}

impl<T, const GAME: u8> View for Interpreter<T, GAME> {
    type V = Vm<T>;

    open(crate) spec fn view(&self) -> Vm<T> {
        Vm {
            registers: self.registers@,
            memory: self.memory@,
            pc: self.pc,
            gas: self.gas,
            solved: self.solved,
            challenge_elf: self.challenge_elf@,
            flag: match self.flag {
                Some(flag) => Some(flag@),
                None => None,
            },
            gas_model: match self.game_params {
                Some(params) => Some(params@),
                None => None,
            },
            tracer: self.tracer,
        }
    }
}

impl<T, const GAME: u8> Interpreter<T, GAME> {
    /// A machine at rest: registers and memory zero, program counter zero,
    /// no gas model and all the gas there is, no secret, not solved.
    pub fn new(challenge_elf: Vec<u8>, tracer: Option<T>) -> (interpreter: Self)
        ensures
            interpreter@ == (Vm {
                registers: Seq::new(12, |i: int| 0u64),
                memory: Seq::new(1024, |i: int| 0u8),
                pc: 0,
                gas: usize::MAX,
                solved: false,
                challenge_elf: challenge_elf@,
                flag: None,
                gas_model: None,
                tracer,
            }),
            well_formed(interpreter@),
    {
        let interpreter = Self {
            challenge_elf,
            pc: 0,
            registers: [0u64;12],
            memory: [0u8;1024],
            game_params: None,
            gas: usize::MAX,
            solved: false,
            flag: None,
            tracer,
        };
        assert(interpreter.registers@ =~= Seq::new(12, |i: int| 0u64));
        assert(interpreter.memory@ =~= Seq::new(1024, |i: int| 0u8));
        interpreter
    }

    /// Whether `instruction` is charged before it is decoded: every opcode
    /// but the four transfers, once a gas model is installed.
    pub fn is_fixed_cost_instruction(&self, instruction: InstructionEncoding) -> (fixed: bool)
        ensures
            fixed == is_fixed_cost(self@, instruction.0),
    {
        if self.game_params.is_none() {
            return false;
        }
        !(0x90 <= instruction.0 && instruction.0 <= 0x93)
    }

    fn calculate_instruction_cost(
        &self,
        instruction: InstructionEncoding,
        quantity: Option<usize>,
    ) -> (cost: usize)
        requires
            quantity is None ==> !is_io_opcode(instruction.0),
        ensures
            cost == cost_of(self@, instruction.0, quantity),
    {
        match &self.game_params {
            None => 0,
            Some(params) => price(params.rule(instruction.0), quantity),
        }
    }

    /// Charges `instruction` for `quantity`: the cost leaves the gas if it
    /// fits; else the budget is exceeded and nothing changes. A charge without
    /// a quantity is for an opcode that is no transfer.
    pub fn charge_instruction(
        &mut self,
        instruction: InstructionEncoding,
        quantity: Option<usize>,
    ) -> (result: Result<(), InterpreterError>)
        requires
            quantity is None ==> !is_io_opcode(instruction.0),
        ensures
            (Step { result, vm: final(self)@ }) == charge(old(self)@, instruction.0, quantity),
    {
        let cost = self.calculate_instruction_cost(instruction, quantity);
        if cost > self.gas {
            return Err(InterpreterError::BudgetExceeded);
        }
        self.gas -= cost;
        Ok(())
    }

    /// Attaches `tracer`, in place of any that was attached.
    pub fn set_tracer(&mut self, tracer: T)
        ensures
            final(self)@ == (Vm { tracer: Some(tracer), ..old(self)@ }),
            well_formed(old(self)@) ==> well_formed(final(self)@),
    {
        self.tracer = Some(tracer);
    }

    /// Installs `game_params` and fills the gas to its budget.
    pub fn set_game_parameters(&mut self, game_params: GameParameters)
        ensures
            final(self)@ == (Vm {
                gas: game_params@.budget,
                gas_model: Some(game_params@),
                ..old(self)@
            }),
            well_formed(old(self)@) ==> well_formed(final(self)@),
    {
        proof {
            use_type_invariant(&game_params);
        }
        self.gas = game_params.budget;
        self.game_params = Some(game_params);
    }

    /// Sets the secret.
    pub fn set_flag(&mut self, flag: &[u8; 16])
        ensures
            final(self)@ == (Vm { flag: Some(flag@), ..old(self)@ }),
            well_formed(old(self)@) ==> well_formed(final(self)@),
    {
        self.flag = Some(*flag);
    }

    /// The gas that is left.
    pub fn get_gas(&self) -> (gas: usize)
        ensures
            gas == self@.gas,
    {
        self.gas
    }

    /// Whether the secret was submitted.
    pub fn get_solved(&self) -> (solved: bool)
        ensures
            solved == self@.solved,
    {
        self.solved
    }

    /// A copy of the registers.
    pub fn get_registers(&self) -> (registers: [u64; 12])
        ensures
            registers@ == self@.registers,
    {
        self.registers
    }

    /// A copy of the memory.
    pub fn get_memory(&self) -> (memory: [u8; 1024])
        ensures
            memory@ == self@.memory,
    {
        self.memory
    }

    /// A copy of the executable.
    pub fn get_challenge_elf(&self) -> (challenge_elf: Vec<u8>)
        ensures
            challenge_elf@ == self@.challenge_elf,
    {
        self.challenge_elf.clone()
    }
}

/// The result of `operation` on two register values.
pub fn compute(operation: Operation, first: u64, second: u64) -> (value: u64)
    ensures
        value == apply(operation, first, second),
{
    match operation {
        Operation::Add => first.wrapping_add(second),
        Operation::Sub => first.wrapping_sub(second),
        Operation::And => first & second,
        Operation::ShiftLeft => {
            let amount: u32 = (second % 64) as u32;
            first.wrapping_shl(amount)
        },
    }
}

/// Whether `condition` holds of two register values.
pub fn evaluate(condition: Condition, first: u64, second: u64) -> (met: bool)
    ensures
        met == holds(condition, first, second),
{
    match condition {
        Condition::Equal => first == second,
        Condition::NotEqual => first != second,
        Condition::Below => first < second,
        Condition::Above => first > second,
    }
}

impl<T, const GAME: u8> Interpreter<T, GAME> {
    fn store_bytes(&mut self, at: usize, data: &Vec<u8>)
        requires
            at + data@.len() <= 1024,
        ensures
            final(self)@ == (Vm { memory: splice(old(self)@.memory, at as int, data@), ..old(self)@ }),
    {
        let mut k: usize = 0;
        assert(self.memory@ =~= splice(old(self)@.memory, at as int, data@.subrange(0, 0)));
        while k < data.len()
            invariant
                k <= data@.len(),
                at + data@.len() <= 1024,
                self@ == (Vm {
                    memory: splice(old(self)@.memory, at as int, data@.subrange(0, k as int)),
                    ..old(self)@
                }),
            decreases data@.len() - k,
        {
            self.memory[at + k] = data[k];
            assert(self.memory@ =~= splice(
                old(self)@.memory,
                at as int,
                data@.subrange(0, k + 1),
            ));
            k += 1;
        }
        assert(data@.subrange(0, data@.len() as int) =~= data@);
    }

    fn exec_store_reg(&mut self, bytecode: &[u8]) -> (result: InstructionExecResult)
        requires
            old(self)@.pc + bytecode@.len() <= usize::MAX,
        ensures
            (Step { result, vm: final(self)@ }) == store_reg(old(self)@, bytecode@),
    {
        if bytecode.len() < 9 {
            return Err(InterpreterError::IncompleteInstruction);
        }
        let register_idx: usize = bytecode[0] as usize;
        if register_idx >= EVM_REGISTER_COUNT {
            return Err(InterpreterError::InvalidRegisterIndex);
        }
        let value: u64 = read_be_u64(bytecode, 1);
        self.registers[register_idx] = value;
        self.pc += 9;
        Ok(())
    }

    fn exec_move_reg(&mut self, bytecode: &[u8]) -> (result: InstructionExecResult)
        requires
            old(self)@.pc + bytecode@.len() <= usize::MAX,
        ensures
            (Step { result, vm: final(self)@ }) == move_reg(old(self)@, bytecode@),
    {
        if bytecode.len() < 2 {
            return Err(InterpreterError::IncompleteInstruction);
        }
        let dst_register_idx: usize = bytecode[0] as usize;
        if dst_register_idx >= EVM_REGISTER_COUNT {
            return Err(InterpreterError::InvalidRegisterIndex);
        }
        let src_register_idx: usize = bytecode[1] as usize;
        if src_register_idx >= EVM_REGISTER_COUNT {
            return Err(InterpreterError::InvalidRegisterIndex);
        }
        self.registers[dst_register_idx] = self.registers[src_register_idx];
        self.pc += 2;
        Ok(())
    }

    fn store_mem_inner(&mut self, write_size: usize, bytecode: &[u8]) -> (result:
        InstructionExecResult)
        requires
            write_size == 1 || write_size == 2 || write_size == 4 || write_size == 8,
            old(self)@.pc + bytecode@.len() <= usize::MAX,
        ensures
            (Step { result, vm: final(self)@ }) == store_mem(
                old(self)@,
                write_size as int,
                bytecode@,
            ),
    {
        if bytecode.len() < 3 {
            return Err(InterpreterError::IncompleteInstruction);
        }
        let address: usize = read_be_u16(bytecode, 0) as usize;
        if address + write_size > EVM_MEMORY_SIZE {
            return Err(InterpreterError::InvalidMemoryAddress);
        }
        let register_idx: usize = bytecode[2] as usize;
        if register_idx >= EVM_REGISTER_COUNT {
            return Err(InterpreterError::InvalidRegisterIndex);
        }
        let bytes = to_le_bytes(self.registers[register_idx], write_size);
        self.store_bytes(address, &bytes);
        self.pc += 3;
        Ok(())
    }

    fn exec_store_mem8(&mut self, bytecode: &[u8]) -> (result: InstructionExecResult)
        requires
            old(self)@.pc + bytecode@.len() <= usize::MAX,
        ensures
            (Step { result, vm: final(self)@ }) == store_mem(old(self)@, 1, bytecode@),
    {
        self.store_mem_inner(1, bytecode)
    }

    fn exec_store_mem16(&mut self, bytecode: &[u8]) -> (result: InstructionExecResult)
        requires
            old(self)@.pc + bytecode@.len() <= usize::MAX,
        ensures
            (Step { result, vm: final(self)@ }) == store_mem(old(self)@, 2, bytecode@),
    {
        self.store_mem_inner(2, bytecode)
    }

    fn exec_store_mem32(&mut self, bytecode: &[u8]) -> (result: InstructionExecResult)
        requires
            old(self)@.pc + bytecode@.len() <= usize::MAX,
        ensures
            (Step { result, vm: final(self)@ }) == store_mem(old(self)@, 4, bytecode@),
    {
        self.store_mem_inner(4, bytecode)
    }

    fn exec_store_mem64(&mut self, bytecode: &[u8]) -> (result: InstructionExecResult)
        requires
            old(self)@.pc + bytecode@.len() <= usize::MAX,
        ensures
            (Step { result, vm: final(self)@ }) == store_mem(old(self)@, 8, bytecode@),
    {
        self.store_mem_inner(8, bytecode)
    }

    fn exec_load_mem(&mut self, bytecode: &[u8]) -> (result: InstructionExecResult)
        requires
            old(self)@.pc + bytecode@.len() <= usize::MAX,
        ensures
            (Step { result, vm: final(self)@ }) == load_mem(old(self)@, bytecode@),
    {
        if bytecode.len() < 3 {
            return Err(InterpreterError::IncompleteInstruction);
        }
        let register_idx: usize = bytecode[0] as usize;
        if register_idx >= EVM_REGISTER_COUNT {
            return Err(InterpreterError::InvalidRegisterIndex);
        }
        let address: usize = read_be_u16(bytecode, 1) as usize;
        if address + 8 > EVM_MEMORY_SIZE {
            return Err(InterpreterError::InvalidMemoryAddress);
        }
        let value: u64 = read_le_u64(self.memory.as_slice(), address);
        self.registers[register_idx] = value;
        self.pc += 3;
        Ok(())
    }

    fn store_reg_inner(&mut self, write_size: usize, bytecode: &[u8]) -> (result:
        InstructionExecResult)
        requires
            write_size == 1 || write_size == 2 || write_size == 4 || write_size == 8,
            old(self)@.pc + bytecode@.len() <= usize::MAX,
        ensures
            (Step { result, vm: final(self)@ }) == store_indirect(
                old(self)@,
                write_size as int,
                bytecode@,
            ),
    {
        if bytecode.len() < 2 {
            return Err(InterpreterError::IncompleteInstruction);
        }
        let register_idx_addr: usize = bytecode[0] as usize;
        if register_idx_addr >= EVM_REGISTER_COUNT {
            return Err(InterpreterError::InvalidRegisterIndex);
        }
        let address: u64 = self.registers[register_idx_addr];
        if address > (EVM_MEMORY_SIZE - write_size) as u64 {
            return Err(InterpreterError::InvalidMemoryAddress);
        }
        let register_idx: usize = bytecode[1] as usize;
        if register_idx >= EVM_REGISTER_COUNT {
            return Err(InterpreterError::InvalidRegisterIndex);
        }
        let bytes = to_le_bytes(self.registers[register_idx], write_size);
        self.store_bytes(address as usize, &bytes);
        self.pc += 2;
        Ok(())
    }

    fn exec_store_reg8(&mut self, bytecode: &[u8]) -> (result: InstructionExecResult)
        requires
            old(self)@.pc + bytecode@.len() <= usize::MAX,
        ensures
            (Step { result, vm: final(self)@ }) == store_indirect(old(self)@, 1, bytecode@),
    {
        self.store_reg_inner(1, bytecode)
    }

    fn exec_store_reg16(&mut self, bytecode: &[u8]) -> (result: InstructionExecResult)
        requires
            old(self)@.pc + bytecode@.len() <= usize::MAX,
        ensures
            (Step { result, vm: final(self)@ }) == store_indirect(old(self)@, 2, bytecode@),
    {
        self.store_reg_inner(2, bytecode)
    }

    fn exec_store_reg32(&mut self, bytecode: &[u8]) -> (result: InstructionExecResult)
        requires
            old(self)@.pc + bytecode@.len() <= usize::MAX,
        ensures
            (Step { result, vm: final(self)@ }) == store_indirect(old(self)@, 4, bytecode@),
    {
        self.store_reg_inner(4, bytecode)
    }

    fn exec_store_reg64(&mut self, bytecode: &[u8]) -> (result: InstructionExecResult)
        requires
            old(self)@.pc + bytecode@.len() <= usize::MAX,
        ensures
            (Step { result, vm: final(self)@ }) == store_indirect(old(self)@, 8, bytecode@),
    {
        self.store_reg_inner(8, bytecode)
    }

    fn exec_load_reg(&mut self, bytecode: &[u8]) -> (result: InstructionExecResult)
        requires
            old(self)@.pc + bytecode@.len() <= usize::MAX,
        ensures
            (Step { result, vm: final(self)@ }) == load_indirect(old(self)@, bytecode@),
    {
        if bytecode.len() < 2 {
            return Err(InterpreterError::IncompleteInstruction);
        }
        let register_idx: usize = bytecode[0] as usize;
        if register_idx >= EVM_REGISTER_COUNT {
            return Err(InterpreterError::InvalidRegisterIndex);
        }
        let register_idx_src: usize = bytecode[1] as usize;
        if register_idx_src >= EVM_REGISTER_COUNT {
            return Err(InterpreterError::InvalidRegisterIndex);
        }
        let address: u64 = self.registers[register_idx_src];
        if address > (EVM_MEMORY_SIZE - 8) as u64 {
            return Err(InterpreterError::InvalidMemoryAddress);
        }
        let value: u64 = read_le_u64(self.memory.as_slice(), address as usize);
        self.registers[register_idx] = value;
        self.pc += 2;
        Ok(())
    }

    fn exec_jump(&mut self, bytecode: &[u8]) -> (result: InstructionExecResult)
        ensures
            (Step { result, vm: final(self)@ }) == jump(old(self)@, bytecode@),
    {
        if bytecode.len() < 2 {
            return Err(InterpreterError::IncompleteInstruction);
        }
        let new_pc: usize = read_be_u16(bytecode, 0) as usize;
        self.pc = new_pc;
        Ok(())
    }

    fn jump_if_inner(&mut self, condition: Condition, bytecode: &[u8]) -> (result:
        InstructionExecResult)
        requires
            old(self)@.pc + bytecode@.len() <= usize::MAX,
        ensures
            (Step { result, vm: final(self)@ }) == jump_if(old(self)@, condition, bytecode@),
    {
        if bytecode.len() < 4 {
            return Err(InterpreterError::IncompleteInstruction);
        }
        let register_idx1: usize = bytecode[0] as usize;
        let register_idx2: usize = bytecode[1] as usize;
        if register_idx1 >= EVM_REGISTER_COUNT {
            return Err(InterpreterError::InvalidRegisterIndex);
        }
        if register_idx2 >= EVM_REGISTER_COUNT {
            return Err(InterpreterError::InvalidRegisterIndex);
        }
        let new_pc: usize = read_be_u16(bytecode, 2) as usize;
        let value1: u64 = self.registers[register_idx1];
        let value2: u64 = self.registers[register_idx2];
        if evaluate(condition, value1, value2) {
            self.pc = new_pc;
        } else {
            self.pc += 4;
        }
        Ok(())
    }

    fn exec_jump_if_eq(&mut self, bytecode: &[u8]) -> (result: InstructionExecResult)
        requires
            old(self)@.pc + bytecode@.len() <= usize::MAX,
        ensures
            (Step { result, vm: final(self)@ }) == jump_if(old(self)@, Condition::Equal, bytecode@),
    {
        self.jump_if_inner(Condition::Equal, bytecode)
    }

    fn exec_jump_if_neq(&mut self, bytecode: &[u8]) -> (result: InstructionExecResult)
        requires
            old(self)@.pc + bytecode@.len() <= usize::MAX,
        ensures
            (Step { result, vm: final(self)@ }) == jump_if(
                old(self)@,
                Condition::NotEqual,
                bytecode@,
            ),
    {
        self.jump_if_inner(Condition::NotEqual, bytecode)
    }

    fn exec_jump_if_lt(&mut self, bytecode: &[u8]) -> (result: InstructionExecResult)
        requires
            old(self)@.pc + bytecode@.len() <= usize::MAX,
        ensures
            (Step { result, vm: final(self)@ }) == jump_if(old(self)@, Condition::Below, bytecode@),
    {
        self.jump_if_inner(Condition::Below, bytecode)
    }

    fn exec_jump_if_gt(&mut self, bytecode: &[u8]) -> (result: InstructionExecResult)
        requires
            old(self)@.pc + bytecode@.len() <= usize::MAX,
        ensures
            (Step { result, vm: final(self)@ }) == jump_if(old(self)@, Condition::Above, bytecode@),
    {
        self.jump_if_inner(Condition::Above, bytecode)
    }

    fn combine_inner(&mut self, operation: Operation, bytecode: &[u8]) -> (result:
        InstructionExecResult)
        requires
            old(self)@.pc + bytecode@.len() <= usize::MAX,
        ensures
            (Step { result, vm: final(self)@ }) == combine(old(self)@, operation, bytecode@),
    {
        if bytecode.len() < 2 {
            return Err(InterpreterError::IncompleteInstruction);
        }
        let register_idx1: usize = bytecode[0] as usize;
        let register_idx2: usize = bytecode[1] as usize;
        if register_idx1 >= EVM_REGISTER_COUNT {
            return Err(InterpreterError::InvalidRegisterIndex);
        }
        if register_idx2 >= EVM_REGISTER_COUNT {
            return Err(InterpreterError::InvalidRegisterIndex);
        }
        let value: u64 = compute(
            operation,
            self.registers[register_idx1],
            self.registers[register_idx2],
        );
        self.registers[register_idx1] = value;
        self.pc += 2;
        Ok(())
    }

    fn exec_add_reg(&mut self, bytecode: &[u8]) -> (result: InstructionExecResult)
        requires
            old(self)@.pc + bytecode@.len() <= usize::MAX,
        ensures
            (Step { result, vm: final(self)@ }) == combine(old(self)@, Operation::Add, bytecode@),
    {
        self.combine_inner(Operation::Add, bytecode)
    }

    fn exec_sub_reg(&mut self, bytecode: &[u8]) -> (result: InstructionExecResult)
        requires
            old(self)@.pc + bytecode@.len() <= usize::MAX,
        ensures
            (Step { result, vm: final(self)@ }) == combine(old(self)@, Operation::Sub, bytecode@),
    {
        self.combine_inner(Operation::Sub, bytecode)
    }

    fn exec_and_reg(&mut self, bytecode: &[u8]) -> (result: InstructionExecResult)
        requires
            old(self)@.pc + bytecode@.len() <= usize::MAX,
        ensures
            (Step { result, vm: final(self)@ }) == combine(old(self)@, Operation::And, bytecode@),
    {
        self.combine_inner(Operation::And, bytecode)
    }

    fn exec_lshift_reg(&mut self, bytecode: &[u8]) -> (result: InstructionExecResult)
        requires
            old(self)@.pc + bytecode@.len() <= usize::MAX,
        ensures
            (Step { result, vm: final(self)@ }) == combine(
                old(self)@,
                Operation::ShiftLeft,
                bytecode@,
            ),
    {
        self.combine_inner(Operation::ShiftLeft, bytecode)
    }

    fn exec_submit_flag(&mut self, bytecode: &[u8]) -> (result: InstructionExecResult)
        ensures
            (Step { result, vm: final(self)@ }) == submit_flag(old(self)@, bytecode@),
    {
        if bytecode.len() < 2 {
            return Err(InterpreterError::IncompleteInstruction);
        }
        let addr: usize = read_be_u16(bytecode, 0) as usize;
        if addr + FLAG_LEN > EVM_MEMORY_SIZE {
            return Err(InterpreterError::InvalidMemoryRange);
        }
        if let Some(flag) = &self.flag {
            let mut equal: bool = true;
            let mut k: usize = 0;
            assert(flag@.subrange(0, 0) =~= self.memory@.subrange(addr as int, addr + 0));
            while k < FLAG_LEN
                invariant
                    k <= 16,
                    addr + 16 <= 1024,
                    equal <==> flag@.subrange(0, k as int) == self.memory@.subrange(
                        addr as int,
                        addr + k,
                    ),
                decreases 16 - k,
            {
                if flag[k] != self.memory[addr + k] {
                    equal = false;
                }
                proof {
                    let f0 = flag@.subrange(0, k as int);
                    let m0 = self.memory@.subrange(addr as int, addr + k);
                    let f1 = flag@.subrange(0, k + 1);
                    let m1 = self.memory@.subrange(addr as int, addr + k + 1);
                    assert(f1[k as int] == flag@[k as int]);
                    assert(m1[k as int] == self.memory@[addr + k]);
                    assert(f1 == m1 ==> f0 =~= m0) by {
                        if f1 == m1 {
                            assert forall|i: int| 0 <= i < k implies f0[i] == m0[i] by {
                                assert(f1[i] == m1[i]);
                            }
                        }
                    }
                    assert(f0 == m0 && flag@[k as int] == self.memory@[addr + k] ==> f1 =~= m1);
                }
                k += 1;
            }
            assert(flag@.subrange(0, 16) =~= flag@);
            if equal {
                self.solved = true;
            }
        }
        self.pc = EVM_MAX_BYTECODE_LEN;
        Ok(())
    }
}

impl<T: Tracer, const GAME: u8> Interpreter<T, GAME> {
    /// Ends a write to the traced process, given what the tracer answered:
    /// on success the program counter moves on by `consumed`; the tracer's
    /// error stops the run.
    pub fn complete_write(
        &mut self,
        consumed: usize,
        outcome: Result<usize, TracerError>,
    ) -> (result: InstructionExecResult)
        requires
            old(self)@.tracer is Some,
            old(self)@.pc + consumed <= usize::MAX,
        ensures
            (Step { result, vm: final(self)@ }) == write_done(
                old(self)@,
                consumed as int,
                old(self)@.tracer->0,
                outcome,
            ),
    {
        match outcome {
            Ok(_) => {
                self.pc += consumed;
                Ok(())
            },
            Err(error) => Err(InterpreterError::TracerError(error)),
        }
    }

    /// Ends a read from the traced process, given what the tracer left in
    /// the buffer and answered: on success the buffer goes to memory at
    /// `destination` and the program counter moves on by `consumed`; the
    /// tracer's error stops the run and leaves memory as it was.
    pub fn complete_read(
        &mut self,
        destination: usize,
        consumed: usize,
        filled: &Vec<u8>,
        outcome: Result<usize, TracerError>,
    ) -> (result: InstructionExecResult)
        requires
            old(self)@.tracer is Some,
            destination + filled@.len() <= 1024,
            old(self)@.pc + consumed <= usize::MAX,
        ensures
            (Step { result, vm: final(self)@ }) == read_done(
                old(self)@,
                destination as int,
                consumed as int,
                old(self)@.tracer->0,
                filled@,
                outcome,
            ),
    {
        match outcome {
            Ok(_) => {
                self.store_bytes(destination, filled);
                self.pc += consumed;
                Ok(())
            },
            Err(error) => Err(InterpreterError::TracerError(error)),
        }
    }

    fn send_bytes(&mut self, source: usize, length: usize, consumed: usize) -> (result:
        InstructionExecResult)
        requires
            source + length <= 1024,
            old(self)@.pc + consumed <= usize::MAX,
        ensures
            send(
                old(self)@,
                source as int,
                length as int,
                consumed as int,
                Step { result, vm: final(self)@ },
            ),
    {
        match self.charge_instruction(
            InstructionEncoding(InstructionEncoding::WriteStdin),
            Some(length),
        ) {
            Err(error) => {
                return Err(error);
            },
            Ok(_) => {},
        }
        let ghost charged = self@;
        let answer = match &mut self.tracer {
            None => None,
            Some(tracer) => Some(tracer.write_out(&self.memory[source..source + length])),
        };
        match answer {
            None => {
                self.pc += consumed;
                Ok(())
            },
            Some(outcome) => {
                let ghost handed = self@;
                let result = self.complete_write(consumed, outcome);
                proof {
                    assert(handed == (Vm { tracer: handed.tracer, ..charged }));
                    assert(T::wrote(
                        old(self)@.tracer->0,
                        old(self)@.memory.subrange(source as int, source + length),
                        handed.tracer->0,
                        outcome,
                    ));
                }
                result
            },
        }
    }

    fn receive_bytes(&mut self, destination: usize, length: usize, consumed: usize) -> (result:
        InstructionExecResult)
        requires
            destination + length <= 1024,
            old(self)@.pc + consumed <= usize::MAX,
        ensures
            receive(
                old(self)@,
                destination as int,
                length as int,
                consumed as int,
                Step { result, vm: final(self)@ },
            ),
    {
        match self.charge_instruction(
            InstructionEncoding(InstructionEncoding::ReadStdout),
            Some(length),
        ) {
            Err(error) => {
                return Err(error);
            },
            Ok(_) => {},
        }
        let ghost charged = self@;
        let mut buffer: Vec<u8> = vstd::slice::slice_to_vec(
            &self.memory[destination..destination + length],
        );
        let answer = match &mut self.tracer {
            None => None,
            Some(tracer) => Some(tracer.read_in(buffer.as_mut_slice())),
        };
        match answer {
            None => {
                self.pc += consumed;
                Ok(())
            },
            Some(outcome) => {
                let ghost handed = self@;
                let result = self.complete_read(destination, consumed, &buffer, outcome);
                proof {
                    assert(handed == (Vm { tracer: handed.tracer, ..charged }));
                    assert(T::read(
                        old(self)@.tracer->0,
                        old(self)@.memory.subrange(destination as int, destination + length),
                        handed.tracer->0,
                        buffer@,
                        outcome,
                    ));
                }
                result
            },
        }
    }

    fn exec_write_stdin(&mut self, bytecode: &[u8]) -> (result: InstructionExecResult)
        requires
            old(self)@.pc + bytecode@.len() <= usize::MAX,
        ensures
            write_stdin(old(self)@, bytecode@, Step { result, vm: final(self)@ }),
    {
        if bytecode.len() < 4 {
            return Err(InterpreterError::IncompleteInstruction);
        }
        let src: usize = read_be_u16(bytecode, 0) as usize;
        let n: usize = read_be_u16(bytecode, 2) as usize;
        if src + n > EVM_MEMORY_SIZE {
            return Err(InterpreterError::InvalidMemoryRange);
        }
        self.send_bytes(src, n, 4)
    }

    fn exec_read_stdout(&mut self, bytecode: &[u8]) -> (result: InstructionExecResult)
        requires
            old(self)@.pc + bytecode@.len() <= usize::MAX,
        ensures
            read_stdout(old(self)@, bytecode@, Step { result, vm: final(self)@ }),
    {
        if bytecode.len() < 4 {
            return Err(InterpreterError::IncompleteInstruction);
        }
        let dst: usize = read_be_u16(bytecode, 0) as usize;
        let n: usize = read_be_u16(bytecode, 2) as usize;
        if dst + n > EVM_MEMORY_SIZE {
            return Err(InterpreterError::InvalidMemoryRange);
        }
        self.receive_bytes(dst, n, 4)
    }

    fn exec_write_stdin_reg(&mut self, bytecode: &[u8]) -> (result: InstructionExecResult)
        requires
            old(self)@.pc + bytecode@.len() <= usize::MAX,
        ensures
            write_stdin_reg(old(self)@, bytecode@, Step { result, vm: final(self)@ }),
    {
        if bytecode.len() < 2 {
            return Err(InterpreterError::IncompleteInstruction);
        }
        let register_idx_src: usize = bytecode[0] as usize;
        if register_idx_src >= EVM_REGISTER_COUNT {
            return Err(InterpreterError::InvalidRegisterIndex);
        }
        let register_idx_len: usize = bytecode[1] as usize;
        if register_idx_len >= EVM_REGISTER_COUNT {
            return Err(InterpreterError::InvalidRegisterIndex);
        }
        let src: u64 = self.registers[register_idx_src];
        let n: u64 = self.registers[register_idx_len];
        if src >= EVM_MEMORY_SIZE as u64 {
            return Err(InterpreterError::InvalidMemoryRange);
        }
        if n > EVM_MEMORY_SIZE as u64 - src {
            return Err(InterpreterError::InvalidMemoryRange);
        }
        self.send_bytes(src as usize, n as usize, 2)
    }

    fn exec_read_stdout_reg(&mut self, bytecode: &[u8]) -> (result: InstructionExecResult)
        requires
            old(self)@.pc + bytecode@.len() <= usize::MAX,
        ensures
            read_stdout_reg(old(self)@, bytecode@, Step { result, vm: final(self)@ }),
    {
        if bytecode.len() < 2 {
            return Err(InterpreterError::IncompleteInstruction);
        }
        let register_idx_dst: usize = bytecode[0] as usize;
        if register_idx_dst >= EVM_REGISTER_COUNT {
            return Err(InterpreterError::InvalidRegisterIndex);
        }
        let register_idx_len: usize = bytecode[1] as usize;
        if register_idx_len >= EVM_REGISTER_COUNT {
            return Err(InterpreterError::InvalidRegisterIndex);
        }
        let dst: u64 = self.registers[register_idx_dst];
        let n: u64 = self.registers[register_idx_len];
        if dst >= EVM_MEMORY_SIZE as u64 {
            return Err(InterpreterError::InvalidMemoryRange);
        }
        if n > EVM_MEMORY_SIZE as u64 - dst {
            return Err(InterpreterError::InvalidMemoryRange);
        }
        self.receive_bytes(dst as usize, n as usize, 2)
    }

    /// Executes the instruction `instruction` of the set that every edition
    /// has, on the bytes `stream` that follow its opcode: the operands are
    /// decoded and checked, the instruction takes effect, and the program
    /// counter moves past the operands or to the target of a jump. An opcode
    /// outside the set is an invalid instruction.
    #[verifier::rlimit(50)]
    pub fn interpret_instruction(
        &mut self,
        instruction: InstructionEncoding,
        stream: &[u8],
    ) -> (result: InstructionExecResult)
        requires
            old(self)@.pc + stream@.len() <= usize::MAX,
        ensures
            base_instruction(old(self)@, instruction.0, stream@, Step { result, vm: final(self)@ }),
    {
        let opcode: u8 = instruction.0;
        if opcode == InstructionEncoding::StoreReg {
            self.exec_store_reg(stream)
        } else if opcode == InstructionEncoding::MoveReg {
            self.exec_move_reg(stream)
        } else if opcode == InstructionEncoding::StoreMem8 {
            self.exec_store_mem8(stream)
        } else if opcode == InstructionEncoding::StoreMem16 {
            self.exec_store_mem16(stream)
        } else if opcode == InstructionEncoding::StoreMem32 {
            self.exec_store_mem32(stream)
        } else if opcode == InstructionEncoding::StoreMem64 {
            self.exec_store_mem64(stream)
        } else if opcode == InstructionEncoding::LoadMem {
            self.exec_load_mem(stream)
        } else if opcode == InstructionEncoding::StoreReg8 {
            self.exec_store_reg8(stream)
        } else if opcode == InstructionEncoding::StoreReg16 {
            self.exec_store_reg16(stream)
        } else if opcode == InstructionEncoding::StoreReg32 {
            self.exec_store_reg32(stream)
        } else if opcode == InstructionEncoding::StoreReg64 {
            self.exec_store_reg64(stream)
        } else if opcode == InstructionEncoding::LoadReg {
            self.exec_load_reg(stream)
        } else if opcode == InstructionEncoding::AddReg {
            self.exec_add_reg(stream)
        } else if opcode == InstructionEncoding::SubReg {
            self.exec_sub_reg(stream)
        } else if opcode == InstructionEncoding::AndReg {
            self.exec_and_reg(stream)
        } else if opcode == InstructionEncoding::LshiftReg {
            self.exec_lshift_reg(stream)
        } else if opcode == InstructionEncoding::Jump {
            self.exec_jump(stream)
        } else if opcode == InstructionEncoding::JumpIfEq {
            self.exec_jump_if_eq(stream)
        } else if opcode == InstructionEncoding::JumpIfNeq {
            self.exec_jump_if_neq(stream)
        } else if opcode == InstructionEncoding::JumpIfLt {
            self.exec_jump_if_lt(stream)
        } else if opcode == InstructionEncoding::JumpIfGt {
            self.exec_jump_if_gt(stream)
        } else if opcode == InstructionEncoding::WriteStdin {
            self.exec_write_stdin(stream)
        } else if opcode == InstructionEncoding::ReadStdout {
            self.exec_read_stdout(stream)
        } else if opcode == InstructionEncoding::WriteStdinReg {
            self.exec_write_stdin_reg(stream)
        } else if opcode == InstructionEncoding::ReadStdoutReg {
            self.exec_read_stdout_reg(stream)
        } else if opcode == InstructionEncoding::SubmitFlag {
            self.exec_submit_flag(stream)
        } else {
            Err(InterpreterError::InvalidInstruction)
        }
    }
}

} // verus!
