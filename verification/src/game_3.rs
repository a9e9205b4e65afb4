//! The edition with bit flips in the executable before it is launched, and
//! in the traced process's memory after: `Interpreter<T, 3>`.
use std::collections::HashMap;
use vstd::prelude::*;

pub use crate::game_2::GameTracer;
use crate::codec::read_be_u64;
use crate::game_2::flipped_byte;
use crate::interpreter::{
    GameParameters, GasCost, InstructionEncoding, InstructionExecResult, Interpreter,
    InterpreterError,
};
use crate::machine::{bit_flip_elf, elf_bit_flips, run, GasModel, Step, Vm};

verus! {

/// The gas model of this edition: a budget of 100000; a write costs 10 for
/// each byte, a read nothing, a bit flip 100, in the executable or in the
/// traced process, every other instruction 1.
pub fn get_game_parameters() -> (params: GameParameters)
    ensures
        params@ == (GasModel {
            budget: 100000,
            catalogue: Map::<u8, GasCost>::empty().insert(
                InstructionEncoding::WriteStdin,
                GasCost::Variable(10),
            ).insert(InstructionEncoding::ReadStdout, GasCost::Variable(0)).insert(
                InstructionEncoding::BitFlipElf,
                GasCost::Fixed(100),
            ).insert(InstructionEncoding::BitFlipMem, GasCost::Fixed(100)),
            default_cost: GasCost::Fixed(1),
        }),
{
    let mut catalogue: HashMap<u8, GasCost> = HashMap::new();
    catalogue.insert(InstructionEncoding::WriteStdin, GasCost::Variable(10));
    catalogue.insert(InstructionEncoding::ReadStdout, GasCost::Variable(0));
    catalogue.insert(InstructionEncoding::BitFlipElf, GasCost::Fixed(100));
    catalogue.insert(InstructionEncoding::BitFlipMem, GasCost::Fixed(100));
    GameParameters::new(100000, catalogue, GasCost::Fixed(1))
}

impl<T> Interpreter<T, 3> {
    pub(crate) fn exec_bit_flip_elf(&mut self, bytecode: &[u8]) -> (result: InstructionExecResult)
        requires
            old(self)@.pc + bytecode@.len() <= usize::MAX,
        ensures
            (Step { result, vm: final(self)@ }) == bit_flip_elf(old(self)@, bytecode@),
    {
        if bytecode.len() < 8 {
            return Err(InterpreterError::IncompleteInstruction);
        }
        let offset: u64 = read_be_u64(bytecode, 0);
        let byte_offset: u64 = offset / 8;
        let bit_offset: u8 = (offset % 8) as u8;
        if byte_offset >= self.challenge_elf.len() as u64 {
            return Err(InterpreterError::InvalidBitOffset);
        }
        let index: usize = byte_offset as usize;
        let current_byte: u8 = self.challenge_elf[index];
        let flipped_byte: u8 = flipped_byte(current_byte, bit_offset);
        self.challenge_elf[index] = flipped_byte;
        self.pc += 8;
        Ok(())
    }

    /// The program counter.
    pub fn get_pc(&self) -> (pc: usize)
        ensures
            pc == self@.pc,
    {
        self.pc
    }

    /// Sets the program counter.
    pub fn set_pc(&mut self, pc: usize)
        ensures
            final(self)@ == (Vm { pc, ..old(self)@ }),
    {
        self.pc = pc;
    }

    /// The phase before the process is launched: from the program counter
    /// as it stands, executes the instructions that flip a bit of the
    /// executable, each charged at its price, up to the first other opcode,
    /// which it leaves for the run. The first instruction that fails or that
    /// the gas does not cover stops the phase with its error.
    pub fn interpret_elf_bit_flips(&mut self, bytecode: &[u8]) -> (result: Result<
        (),
        InterpreterError,
    >)
        ensures
            (Step { result, vm: final(self)@ }) == elf_bit_flips(old(self)@, bytecode@),
    {
        let length: usize = bytecode.len();
        while self.pc < length && bytecode[self.pc] == InstructionEncoding::BitFlipElf
            invariant
                length == bytecode@.len(),
                elf_bit_flips(self@, bytecode@) == elf_bit_flips(old(self)@, bytecode@),
            decreases length - self.pc,
        {
            let instruction = InstructionEncoding(bytecode[self.pc]);
            self.pc += 1;
            match self.charge_instruction(instruction, None) {
                Err(error) => {
                    return Err(error);
                },
                Ok(_) => {},
            }
            let stream = &bytecode[self.pc..length];
            match self.exec_bit_flip_elf(stream) {
                Err(error) => {
                    return Err(error);
                },
                Ok(_) => {},
            }
        }
        Ok(())
    }
}

impl<T: GameTracer> Interpreter<T, 3> {
    /// Runs `bytecode` from its first byte until the program counter leaves
    /// the bytecode or is the halting value, or an instruction fails. A run
    /// is cut off after `u64::MAX` instructions as if its budget were
    /// exceeded.
    pub fn interpret(&mut self, bytecode: &[u8]) -> (result: Result<(), InterpreterError>)
        ensures
            run(Vm { pc: 0, ..old(self)@ }, bytecode@, Step { result, vm: final(self)@ }),
    {
        self.pc = 0;
        self.run_turns(bytecode)
    }
}

} // verus!
