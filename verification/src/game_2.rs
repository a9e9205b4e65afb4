//! The edition with bit flips in the traced process's memory:
//! `Interpreter<T, 2>`.
use std::collections::HashMap;
use vstd::prelude::*;

use crate::interpreter::{
    GameParameters, GasCost, InstructionEncoding, InstructionExecResult, Interpreter,
    InterpreterError, EVM_MAX_BYTECODE_LEN, EVM_REGISTER_COUNT,
};
use crate::machine::{
    bit_flip_mem, flip_bit, lemma_reaches_one_more, peek_failed, poke_done, reaches, run, running,
    turn, GasModel, Step,
};
use crate::tracer::{Tracer, TracerError};

verus! {

/// A tracer that can also read and write single bytes of the traced
/// process's memory.
///
/// As with `Tracer`, what a call does is the implementor's to say, through
/// `peeked` and `poked`.
pub trait GameTracer: Tracer {
    /// Whether a call of `read_byte` at `byte_offset`, on the tracer
    /// `before`, may leave the tracer `after` and return `outcome`.
    open spec fn peeked(
        before: Self,
        byte_offset: u64,
        after: Self,
        outcome: Result<u8, TracerError>,
    ) -> bool {
        true
    }

    /// Reads the byte at address `byte_offset` of the traced process.
    fn read_byte(&mut self, byte_offset: u64) -> (outcome: Result<u8, TracerError>)
        ensures
            Self::peeked(*old(self), byte_offset, *final(self), outcome),
    ;

    /// Whether a call of `write_byte` with `value` at `byte_offset`, on the
    /// tracer `before`, may leave the tracer `after` and return `outcome`.
    open spec fn poked(
        before: Self,
        byte_offset: u64,
        value: u8,
        after: Self,
        outcome: Result<(), TracerError>,
    ) -> bool {
        true
    }

    /// Writes `value` at address `byte_offset` of the traced process.
    fn write_byte(&mut self, byte_offset: u64, value: u8) -> (outcome: Result<(), TracerError>)
        ensures
            Self::poked(*old(self), byte_offset, value, *final(self), outcome),
    ;
}

/// The gas model of this edition: a budget of 100000; a write costs 10 for
/// each byte, a read nothing, a bit flip 100, every other instruction 1.
pub fn get_game_parameters() -> (params: GameParameters)
    ensures
        params@ == (GasModel {
            budget: 100000,
            catalogue: Map::<u8, GasCost>::empty().insert(
                InstructionEncoding::WriteStdin,
                GasCost::Variable(10),
            ).insert(InstructionEncoding::ReadStdout, GasCost::Variable(0)).insert(
                InstructionEncoding::BitFlipMem,
                GasCost::Fixed(100),
            ),
            default_cost: GasCost::Fixed(1),
        }),
{
    let mut catalogue: HashMap<u8, GasCost> = HashMap::new();
    catalogue.insert(InstructionEncoding::WriteStdin, GasCost::Variable(10));
    catalogue.insert(InstructionEncoding::ReadStdout, GasCost::Variable(0));
    catalogue.insert(InstructionEncoding::BitFlipMem, GasCost::Fixed(100));
    GameParameters::new(100000, catalogue, GasCost::Fixed(1))
}

/// `byte` with bit `bit` inverted.
pub fn flipped_byte(byte: u8, bit: u8) -> (flipped: u8)
    requires
        bit < 8,
    ensures
        flipped == flip_bit(byte, bit),
{
    byte ^ (1u8 << bit)
}

impl<T: GameTracer, const GAME: u8> Interpreter<T, GAME> {
    /// Ends a bit flip whose byte the tracer failed to read: an address
    /// that is not mapped makes the instruction do nothing, and the program
    /// counter moves on; any other error stops the run.
    pub fn complete_failed_peek(&mut self, error: TracerError) -> (result: InstructionExecResult)
        requires
            old(self)@.tracer is Some,
            old(self)@.pc + 1 <= usize::MAX,
        ensures
            (Step { result, vm: final(self)@ }) == peek_failed(
                old(self)@,
                old(self)@.tracer->0,
                error,
            ),
    {
        match error {
            TracerError::InvalidInferiorAddress => {
                self.pc += 1;
                Ok(())
            },
            other => Err(InterpreterError::TracerError(other)),
        }
    }

    /// Ends a bit flip, given what the tracer answered when the byte was
    /// written back: on success the program counter moves on; the tracer's
    /// error stops the run.
    pub fn complete_poke(&mut self, outcome: Result<(), TracerError>) -> (result:
        InstructionExecResult)
        requires
            old(self)@.tracer is Some,
            old(self)@.pc + 1 <= usize::MAX,
        ensures
            (Step { result, vm: final(self)@ }) == poke_done(
                old(self)@,
                old(self)@.tracer->0,
                outcome,
            ),
    {
        match outcome {
            Ok(_) => {
                self.pc += 1;
                Ok(())
            },
            Err(error) => Err(InterpreterError::TracerError(error)),
        }
    }

    pub(crate) fn exec_bit_flip_memory(&mut self, bytecode: &[u8]) -> (result:
        InstructionExecResult)
        requires
            old(self)@.pc + bytecode@.len() <= usize::MAX,
        ensures
            bit_flip_mem(old(self)@, bytecode@, Step { result, vm: final(self)@ }),
    {
        if bytecode.len() < 1 {
            return Err(InterpreterError::IncompleteInstruction);
        }
        let arg: u8 = bytecode[0];
        let register_idx: usize = (arg / 16) as usize;
        if register_idx >= EVM_REGISTER_COUNT {
            return Err(InterpreterError::InvalidRegisterIndex);
        }
        let offset: u64 = self.registers[register_idx];
        let bit_offset: u8 = arg % 16;
        if bit_offset >= 8 {
            return Err(InterpreterError::InvalidBitOffset);
        }
        let peek = match &mut self.tracer {
            None => None,
            Some(tracer) => Some(tracer.read_byte(offset)),
        };
        match peek {
            None => {
                self.pc += 1;
                Ok(())
            },
            Some(Err(error)) => {
                let ghost between = self@.tracer->0;
                let result = self.complete_failed_peek(error);
                proof {
                    assert(T::peeked(
                        old(self)@.tracer->0,
                        offset,
                        between,
                        Err::<u8, TracerError>(error),
                    ));
                }
                result
            },
            Some(Ok(current_byte)) => {
                let ghost between = self@.tracer->0;
                let flipped_byte: u8 = flipped_byte(current_byte, bit_offset);
                let poke = match &mut self.tracer {
                    None => Ok(()),
                    Some(tracer) => tracer.write_byte(offset, flipped_byte),
                };
                let ghost after = self@.tracer->0;
                let result = self.complete_poke(poke);
                proof {
                    assert(T::peeked(
                        old(self)@.tracer->0,
                        offset,
                        between,
                        Ok::<u8, TracerError>(current_byte),
                    ));
                    assert(T::poked(between, offset, flipped_byte, after, poke));
                }
                result
            },
        }
    }

    /// One turn of the loop: fetches the opcode at the program counter,
    /// charges it unless it is a transfer, and executes it.
    pub(crate) fn step(&mut self, bytecode: &[u8]) -> (result: InstructionExecResult)
        requires
            running(old(self)@, bytecode@),
        ensures
            turn(old(self)@, bytecode@, Step { result, vm: final(self)@ }),
    {
        let length: usize = bytecode.len();
        let instruction = InstructionEncoding(bytecode[self.pc]);
        self.pc += 1;
        if self.is_fixed_cost_instruction(instruction) {
            match self.charge_instruction(instruction, None) {
                Err(error) => {
                    return Err(error);
                },
                Ok(_) => {},
            }
        }
        let stream = &bytecode[self.pc..length];
        if instruction.0 == InstructionEncoding::BitFlipMem {
            self.exec_bit_flip_memory(stream)
        } else {
            self.interpret_instruction(instruction, stream)
        }
    }

    /// Runs from the program counter as it stands until the machine halts, a
    /// turn fails, or the limit of turns is reached.
    pub(crate) fn run_turns(&mut self, bytecode: &[u8]) -> (result: Result<(), InterpreterError>)
        ensures
            run(old(self)@, bytecode@, Step { result, vm: final(self)@ }),
    {
        let mut turns: u64 = 0;
        while self.pc < bytecode.len() && self.pc != EVM_MAX_BYTECODE_LEN
            invariant
                reaches(old(self)@, bytecode@, turns as nat, self@),
            decreases u64::MAX - turns,
        {
            if turns == u64::MAX {
                return Err(InterpreterError::BudgetExceeded);
            }
            let ghost last = self@;
            match self.step(bytecode) {
                Err(error) => {
                    return Err(error);
                },
                Ok(_) => {},
            }
            proof {
                lemma_reaches_one_more(old(self)@, bytecode@, turns as nat, last, self@);
            }
            turns += 1;
        }
        Ok(())
    }
}

impl<T: GameTracer> Interpreter<T, 2> {
    /// Runs `bytecode` from the program counter as it stands until the
    /// program counter leaves the bytecode or is the halting value, or an
    /// instruction fails. A run is cut off after `u64::MAX` instructions as
    /// if its budget were exceeded.
    pub fn interpret(&mut self, bytecode: &[u8]) -> (result: Result<(), InterpreterError>)
        ensures
            run(old(self)@, bytecode@, Step { result, vm: final(self)@ }),
    {
        self.run_turns(bytecode)
    }
}

} // verus!
