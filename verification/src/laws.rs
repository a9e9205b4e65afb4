//! What holds of the instruction set as a whole.
use vstd::prelude::*;

use crate::codec::{be_u16, be_u64, byte_weight, le_bytes, lemma_le_round_trip};
use crate::game_2::GameTracer;
use crate::interpreter::{InstructionEncoding, InterpreterError};
use crate::machine::{
    advance, bit_flip_elf, charge, cost_of, done, elf_bit_flips, failed, flag_matches, flip_bit,
    instruction, is_fixed_cost, load_indirect, load_mem, move_reg, operand_len, reaches, receive,
    run, running, send, store_indirect, store_mem, store_reg, submit_flag, turn, turn_limit,
    well_formed, Step, Vm,
};

verus! {

/// An immediate that is loaded into a register and moved from there to a
/// second register stands in both.
pub proof fn law_store_then_move<T>(
    vm: Vm<T>,
    first: u8,
    second: u8,
    stored: Seq<u8>,
    moved: Seq<u8>,
)
    requires
        well_formed(vm),
        first < 12,
        second < 12,
        stored.len() >= 9,
        stored[0] == first,
        moved.len() >= 2,
        moved[0] == second,
        moved[1] == first,
    ensures
        store_reg(vm, stored).result is Ok,
        move_reg(store_reg(vm, stored).vm, moved).result is Ok,
        move_reg(store_reg(vm, stored).vm, moved).vm.registers[second as int] == be_u64(stored, 1),
        move_reg(store_reg(vm, stored).vm, moved).vm.registers[first as int] == be_u64(stored, 1),
{
}

/// Flipping a bit twice restores the byte.
pub proof fn law_flip_twice(byte: u8, bit: u8)
    requires
        bit < 8,
    ensures
        flip_bit(flip_bit(byte, bit), bit) == byte,
{
    assert((byte ^ (1u8 << bit)) ^ (1u8 << bit) == byte) by (bit_vector)
        requires
            bit < 8,
    ;
}

/// Flipping the highest bit of a byte of ones clears it.
pub proof fn law_flip_high_bit()
    ensures
        flip_bit(0xFF, 7) == 0x7F,
{
    assert(0xFFu8 ^ (1u8 << 7u8) == 0x7Fu8) by (bit_vector);
}

/// Flipping the same bit of the executable twice restores the executable.
pub proof fn law_bit_flip_elf_twice<T>(vm: Vm<T>, operands: Seq<u8>)
    requires
        bit_flip_elf(vm, operands).result is Ok,
    ensures
        bit_flip_elf(bit_flip_elf(vm, operands).vm, operands).result is Ok,
        bit_flip_elf(bit_flip_elf(vm, operands).vm, operands).vm.challenge_elf == vm.challenge_elf,
{
    let offset = be_u64(operands, 0);
    let place = offset as int / 8;
    let bit = (offset % 8) as u8;
    law_flip_twice(vm.challenge_elf[place], bit);
    let once = bit_flip_elf(vm, operands).vm;
    assert(once.challenge_elf[place] == flip_bit(vm.challenge_elf[place], bit));
    assert(bit_flip_elf(once, operands).vm.challenge_elf =~= vm.challenge_elf);
}

/// A register that is stored in `width` bytes at an address leaves there
/// its value truncated to `width` bytes, least significant byte first; and
/// where eight bytes can be loaded from that address, the value loaded
/// agrees with the register modulo 256 to the power `width`: for eight bytes
/// it is the register's value.
pub proof fn law_store_then_load<T>(vm: Vm<T>, width: int, stored: Seq<u8>, loaded: Seq<u8>)
    requires
        well_formed(vm),
        width == 1 || width == 2 || width == 4 || width == 8,
        stored.len() >= 3,
        be_u16(stored, 0) + width <= 1024,
        stored[2] < 12,
        loaded.len() >= 3,
        loaded[0] < 12,
        be_u16(loaded, 1) == be_u16(stored, 0),
    ensures
        store_mem(vm, width, stored).result is Ok,
        store_mem(vm, width, stored).vm.memory.subrange(
            be_u16(stored, 0) as int,
            be_u16(stored, 0) + width,
        ) == le_bytes(vm.registers[stored[2] as int], width),
        be_u16(stored, 0) + 8 <= 1024 ==> {
            let after = load_mem(store_mem(vm, width, stored).vm, loaded);
            &&& after.result is Ok
            &&& after.vm.registers[loaded[0] as int] as int % byte_weight(width)
                == vm.registers[stored[2] as int] as int % byte_weight(width)
            &&& width == 8 ==> after.vm.registers[loaded[0] as int] == vm.registers[stored[2] as int]
        },
{
    let address = be_u16(stored, 0) as int;
    let value = vm.registers[stored[2] as int];
    let memory = store_mem(vm, width, stored).vm.memory;
    assert(memory.subrange(address, address + width) =~= le_bytes(value, width));
    if address + 8 <= 1024 {
        lemma_le_round_trip(vm.memory, address, value, width);
    }
}

/// The same for the store and the load that take their address from a
/// register: the value stored in `width` bytes is found there truncated, and
/// an eight-byte load from the same address agrees with it modulo 256 to the
/// power `width`.
pub proof fn law_store_then_load_indirect<T>(
    vm: Vm<T>,
    width: int,
    stored: Seq<u8>,
    loaded: Seq<u8>,
)
    requires
        well_formed(vm),
        width == 1 || width == 2 || width == 4 || width == 8,
        stored.len() >= 2,
        stored[0] < 12,
        stored[1] < 12,
        vm.registers[stored[0] as int] + width <= 1024,
        loaded.len() >= 2,
        loaded[0] < 12,
        loaded[1] == stored[0],
    ensures
        store_indirect(vm, width, stored).result is Ok,
        store_indirect(vm, width, stored).vm.memory.subrange(
            vm.registers[stored[0] as int] as int,
            vm.registers[stored[0] as int] + width,
        ) == le_bytes(vm.registers[stored[1] as int], width),
        vm.registers[stored[0] as int] + 8 <= 1024 ==> {
            let after = load_indirect(store_indirect(vm, width, stored).vm, loaded);
            &&& after.result is Ok
            &&& after.vm.registers[loaded[0] as int] as int % byte_weight(width)
                == vm.registers[stored[1] as int] as int % byte_weight(width)
            &&& width == 8 ==> after.vm.registers[loaded[0] as int] == vm.registers[stored[1] as int]
        },
{
    let address = vm.registers[stored[0] as int] as int;
    let value = vm.registers[stored[1] as int];
    let memory = store_indirect(vm, width, stored).vm.memory;
    assert(memory.subrange(address, address + width) =~= le_bytes(value, width));
    if address + 8 <= 1024 {
        lemma_le_round_trip(vm.memory, address, value, width);
    }
}

/// An instruction that is followed by fewer bytes than its operands take is
/// incomplete, whatever the bytes that are there hold, and changes nothing.
#[verifier::rlimit(50)]
pub proof fn law_incomplete<T: GameTracer>(vm: Vm<T>, opcode: u8, operands: Seq<u8>, step: Step<T>)
    requires
        operand_len(opcode) is Some,
        operands.len() < operand_len(opcode)->0,
        opcode != InstructionEncoding::BitFlipElf,
        instruction(vm, opcode, operands, step),
    ensures
        step == failed(vm, InterpreterError::IncompleteInstruction),
{
}

/// A bit flip of the executable that is followed by fewer than eight bytes
/// is incomplete and changes nothing.
pub proof fn law_incomplete_bit_flip_elf<T>(vm: Vm<T>, operands: Seq<u8>)
    requires
        operands.len() < operand_len(InstructionEncoding::BitFlipElf)->0,
    ensures
        bit_flip_elf(vm, operands) == failed(vm, InterpreterError::IncompleteInstruction),
{
}

/// Whether one of the register indices among the operands of `opcode` is 12
/// or more. The operands are complete.
pub open spec fn names_invalid_register(opcode: u8, operands: Seq<u8>) -> bool {
    if opcode == InstructionEncoding::StoreReg || opcode == InstructionEncoding::LoadMem {
        operands[0] >= 12
    } else if InstructionEncoding::StoreMem8 <= opcode <= InstructionEncoding::StoreMem64 {
        operands[2] >= 12
    } else if opcode == InstructionEncoding::MoveReg || (InstructionEncoding::StoreReg8 <= opcode
        <= InstructionEncoding::LshiftReg) || (InstructionEncoding::JumpIfEq <= opcode
        <= InstructionEncoding::JumpIfGt) || opcode == InstructionEncoding::WriteStdinReg || opcode
        == InstructionEncoding::ReadStdoutReg {
        operands[0] >= 12 || operands[1] >= 12
    } else if opcode == InstructionEncoding::BitFlipMem {
        operands[0] / 16 >= 12
    } else {
        false
    }
}

/// Whether `opcode` is a store whose address, checked before the register
/// that is stored, reaches beyond memory.
pub open spec fn store_beyond_memory<T>(vm: Vm<T>, opcode: u8, operands: Seq<u8>) -> bool {
    if opcode == InstructionEncoding::StoreMem8 {
        be_u16(operands, 0) + 1 > 1024
    } else if opcode == InstructionEncoding::StoreMem16 {
        be_u16(operands, 0) + 2 > 1024
    } else if opcode == InstructionEncoding::StoreMem32 {
        be_u16(operands, 0) + 4 > 1024
    } else if opcode == InstructionEncoding::StoreMem64 {
        be_u16(operands, 0) + 8 > 1024
    } else if opcode == InstructionEncoding::StoreReg8 {
        operands[0] < 12 && vm.registers[operands[0] as int] + 1 > 1024
    } else if opcode == InstructionEncoding::StoreReg16 {
        operands[0] < 12 && vm.registers[operands[0] as int] + 2 > 1024
    } else if opcode == InstructionEncoding::StoreReg32 {
        operands[0] < 12 && vm.registers[operands[0] as int] + 4 > 1024
    } else if opcode == InstructionEncoding::StoreReg64 {
        operands[0] < 12 && vm.registers[operands[0] as int] + 8 > 1024
    } else {
        false
    }
}

/// An instruction with complete operands that names a register of index 12
/// or more fails and changes nothing: not the registers, nor anything else.
/// The error is an invalid register index, but for a store whose address
/// reaches beyond memory, which is an invalid memory address.
#[verifier::rlimit(50)]
pub proof fn law_invalid_register<T: GameTracer>(
    vm: Vm<T>,
    opcode: u8,
    operands: Seq<u8>,
    step: Step<T>,
)
    requires
        operand_len(opcode) is Some,
        operands.len() >= operand_len(opcode)->0,
        names_invalid_register(opcode, operands),
        instruction(vm, opcode, operands, step),
    ensures
        step.result is Err,
        step.vm == vm,
        step.result == Err::<(), InterpreterError>(
            if store_beyond_memory(vm, opcode, operands) {
                InterpreterError::InvalidMemoryAddress
            } else {
                InterpreterError::InvalidRegisterIndex
            },
        ),
{
}

/// The sum of `costs`.
pub open spec fn total(costs: Seq<usize>) -> int
    decreases costs.len(),
{
    if costs.len() == 0 {
        0
    } else {
        total(costs.drop_last()) + costs.last()
    }
}

/// What is left of `gas` when `costs` are paid from it one after the other,
/// if every one of them fits.
pub open spec fn pay(gas: int, costs: Seq<usize>) -> Option<int>
    decreases costs.len(),
{
    if costs.len() == 0 {
        Some(gas)
    } else {
        match pay(gas, costs.drop_last()) {
            Some(left) => if costs.last() <= left {
                Some(left - costs.last())
            } else {
                None
            },
            None => None,
        }
    }
}

/// A sum of costs is not negative.
pub proof fn lemma_total_nonnegative(costs: Seq<usize>)
    ensures
        total(costs) >= 0,
    decreases costs.len(),
{
    if costs.len() > 0 {
        lemma_total_nonnegative(costs.drop_last());
    }
}

/// Costs that add up to no more than the gas can all be paid, and leave the
/// gas less their sum: costs that add up to the gas leave nothing.
pub proof fn law_pay_total(gas: int, costs: Seq<usize>)
    requires
        total(costs) <= gas,
    ensures
        pay(gas, costs) == Some(gas - total(costs)),
    decreases costs.len(),
{
    if costs.len() > 0 {
        law_pay_total(gas, costs.drop_last());
    }
}

/// A charge pays the cost from the gas: it succeeds exactly if the cost
/// fits, and then the gas is less by the cost and nothing else changes; a
/// cost equal to the gas leaves none.
pub proof fn law_charge_pays<T>(vm: Vm<T>, opcode: u8, quantity: Option<usize>)
    ensures
        charge(vm, opcode, quantity).result is Ok <==> cost_of(vm, opcode, quantity) <= vm.gas,
        charge(vm, opcode, quantity).result is Ok ==> charge(vm, opcode, quantity).vm == (Vm {
            gas: (vm.gas - cost_of(vm, opcode, quantity)) as usize,
            ..vm
        }),
        charge(vm, opcode, quantity).result is Err ==> charge(vm, opcode, quantity) == failed(
            vm,
            InterpreterError::BudgetExceeded,
        ),
        cost_of(vm, opcode, quantity) == vm.gas ==> charge(vm, opcode, quantity).result is Ok
            && charge(vm, opcode, quantity).vm.gas == 0,
{
}

/// Whether turns that took effect lead from `start` to `end`, one for each
/// of `costs`, each on an opcode that is charged before it is decoded, at the
/// cost in its place.
pub open spec fn pays<T: GameTracer>(
    start: Vm<T>,
    bytecode: Seq<u8>,
    costs: Seq<usize>,
    end: Vm<T>,
) -> bool
    decreases costs.len(),
{
    if costs.len() == 0 {
        end == start
    } else {
        exists|middle: Vm<T>|
            {
                &&& pays(start, bytecode, costs.drop_last(), middle)
                &&& running(middle, bytecode)
                &&& is_fixed_cost(middle, bytecode[middle.pc as int])
                &&& cost_of(middle, bytecode[middle.pc as int], None) == costs.last()
                &&& #[trigger] turn(middle, bytecode, done(end))
            }
    }
}

/// Instructions that are charged before they are decoded, and that take
/// effect, leave the gas less the sum of their costs: where the costs add up
/// to the gas that was there, none is left.
pub proof fn law_run_pays<T: GameTracer>(
    start: Vm<T>,
    bytecode: Seq<u8>,
    costs: Seq<usize>,
    end: Vm<T>,
)
    requires
        well_formed(start),
        pays(start, bytecode, costs, end),
    ensures
        end.gas == start.gas - total(costs),
        Some(end.gas as int) == pay(start.gas as int, costs),
        total(costs) == start.gas ==> end.gas == 0,
        well_formed(end),
        follows(start, end),
    decreases costs.len(),
{
    if costs.len() > 0 {
        let middle = choose|middle: Vm<T>|
            {
                &&& pays(start, bytecode, costs.drop_last(), middle)
                &&& running(middle, bytecode)
                &&& is_fixed_cost(middle, bytecode[middle.pc as int])
                &&& cost_of(middle, bytecode[middle.pc as int], None) == costs.last()
                &&& #[trigger] turn(middle, bytecode, done(end))
            };
        law_run_pays(start, bytecode, costs.drop_last(), middle);
        law_turn_follows(middle, bytecode, done(end));
        lemma_total_nonnegative(costs);
        law_pay_total(start.gas as int, costs);
    }
}

/// Once instructions have spent all the gas, a further instruction that is
/// charged before it is decoded and costs anything exceeds the budget: the
/// opcode is passed and nothing else changes, so what the earlier
/// instructions did stays and the further one does nothing.
pub proof fn law_budget_spent<T: GameTracer>(
    start: Vm<T>,
    bytecode: Seq<u8>,
    costs: Seq<usize>,
    end: Vm<T>,
    step: Step<T>,
)
    requires
        well_formed(start),
        pays(start, bytecode, costs, end),
        total(costs) == start.gas,
        running(end, bytecode),
        is_fixed_cost(end, bytecode[end.pc as int]),
        cost_of(end, bytecode[end.pc as int], None) > 0,
        turn(end, bytecode, step),
    ensures
        end.gas == 0,
        step == failed(advance(end, 1), InterpreterError::BudgetExceeded),
{
    law_run_pays(start, bytecode, costs, end);
}

/// A turn on an instruction that is charged before it is decoded and costs
/// more than the gas that is left exceeds the budget: the opcode is passed,
/// and nothing else changes, neither the gas nor what earlier instructions
/// did.
pub proof fn law_unaffordable_turn<T: GameTracer>(vm: Vm<T>, bytecode: Seq<u8>, step: Step<T>)
    requires
        running(vm, bytecode),
        is_fixed_cost(vm, bytecode[vm.pc as int]),
        cost_of(vm, bytecode[vm.pc as int], None) > vm.gas,
        turn(vm, bytecode, step),
    ensures
        step == failed(advance(vm, 1), InterpreterError::BudgetExceeded),
{
}

/// A transfer that costs more than the gas that is left exceeds the budget
/// and changes nothing: the tracer is not reached.
pub proof fn law_unaffordable_transfer<T: GameTracer>(
    vm: Vm<T>,
    at: int,
    length: int,
    consumed: int,
    step: Step<T>,
)
    ensures
        cost_of(vm, InstructionEncoding::WriteStdin, Some(length as usize)) > vm.gas && send(
            vm,
            at,
            length,
            consumed,
            step,
        ) ==> step == failed(vm, InterpreterError::BudgetExceeded),
        cost_of(vm, InstructionEncoding::ReadStdout, Some(length as usize)) > vm.gas && receive(
            vm,
            at,
            length,
            consumed,
            step,
        ) ==> step == failed(vm, InterpreterError::BudgetExceeded),
{
}

/// What holds between a state and any state that follows it: the gas has
/// not grown; a machine that was solved is solved; the secret, the gas model
/// and the executable are the same; a tracer is attached if one was;
/// registers and memory have kept their sizes.
pub open spec fn follows<T>(before: Vm<T>, after: Vm<T>) -> bool {
    &&& after.gas <= before.gas
    &&& before.solved ==> after.solved
    &&& after.flag == before.flag
    &&& after.gas_model == before.gas_model
    &&& after.challenge_elf == before.challenge_elf
    &&& after.tracer is Some <==> before.tracer is Some
    &&& after.registers.len() == before.registers.len()
    &&& after.memory.len() == before.memory.len()
}

/// An instruction, whether it takes effect or fails, leaves a state that
/// follows the state before it.
#[verifier::rlimit(50)]
pub proof fn law_instruction_follows<T: GameTracer>(
    vm: Vm<T>,
    opcode: u8,
    operands: Seq<u8>,
    step: Step<T>,
)
    requires
        well_formed(vm),
        instruction(vm, opcode, operands, step),
    ensures
        follows(vm, step.vm),
        well_formed(step.vm),
{
}

/// A turn, whether it takes effect or fails, leaves a state that follows the
/// state before it: gas is only ever paid, and a solved machine stays solved.
#[verifier::rlimit(50)]
pub proof fn law_turn_follows<T: GameTracer>(vm: Vm<T>, bytecode: Seq<u8>, step: Step<T>)
    requires
        well_formed(vm),
        running(vm, bytecode),
        turn(vm, bytecode, step),
    ensures
        follows(vm, step.vm),
        well_formed(step.vm),
{
    let opcode = bytecode[vm.pc as int];
    let operands = bytecode.subrange(vm.pc + 1, bytecode.len() as int);
    let fetched = advance(vm, 1);
    let charged = if is_fixed_cost(vm, opcode) {
        charge(fetched, opcode, None)
    } else {
        done(fetched)
    };
    assert(follows(vm, charged.vm) && well_formed(charged.vm));
    if charged.result is Ok {
        law_instruction_follows(charged.vm, opcode, operands, step);
    }
}

/// The phase before the launch changes the executable, the gas and the
/// program counter, and nothing else; the gas does not grow and the
/// executable keeps its length.
pub proof fn law_elf_bit_flips_keep<T>(vm: Vm<T>, bytecode: Seq<u8>)
    requires
        bytecode.len() <= usize::MAX,
    ensures
        elf_bit_flips(vm, bytecode).vm == (Vm {
            challenge_elf: elf_bit_flips(vm, bytecode).vm.challenge_elf,
            gas: elf_bit_flips(vm, bytecode).vm.gas,
            pc: elf_bit_flips(vm, bytecode).vm.pc,
            ..vm
        }),
        elf_bit_flips(vm, bytecode).vm.gas <= vm.gas,
        elf_bit_flips(vm, bytecode).vm.challenge_elf.len() == vm.challenge_elf.len(),
    decreases bytecode.len() - vm.pc,
{
    if vm.pc < bytecode.len() && bytecode[vm.pc as int] == InstructionEncoding::BitFlipElf {
        let charged = charge(advance(vm, 1), InstructionEncoding::BitFlipElf, None);
        if charged.result is Ok {
            let flipped = bit_flip_elf(
                charged.vm,
                bytecode.subrange(vm.pc + 1, bytecode.len() as int),
            );
            if flipped.result is Ok {
                law_elf_bit_flips_keep(flipped.vm, bytecode);
            }
        }
    }
}

/// Every state that a run reaches follows the state it started from.
pub proof fn law_reaches_follows<T: GameTracer>(
    start: Vm<T>,
    bytecode: Seq<u8>,
    count: nat,
    end: Vm<T>,
)
    requires
        well_formed(start),
        reaches(start, bytecode, count, end),
    ensures
        follows(start, end),
        well_formed(end),
    decreases count,
{
    if count > 0 {
        let middle = choose|middle: Vm<T>|
            {
                &&& reaches(start, bytecode, (count - 1) as nat, middle)
                &&& running(middle, bytecode)
                &&& #[trigger] turn(middle, bytecode, done(end))
            };
        law_reaches_follows(start, bytecode, (count - 1) as nat, middle);
        law_turn_follows(middle, bytecode, done(end));
    }
}

/// The state that a run ends in, however it ends, follows the state it
/// started from.
pub proof fn law_run_follows<T: GameTracer>(start: Vm<T>, bytecode: Seq<u8>, step: Step<T>)
    requires
        well_formed(start),
        run(start, bytecode, step),
    ensures
        follows(start, step.vm),
        well_formed(step.vm),
{
    let (count, last) = choose|count: nat, last: Vm<T>|
        {
            &&& count <= turn_limit()
            &&& #[trigger] reaches(start, bytecode, count, last)
            &&& if !running(last, bytecode) {
                step == done(last)
            } else if count == turn_limit() {
                step == failed(last, InterpreterError::BudgetExceeded)
            } else {
                step.result is Err && turn(last, bytecode, step)
            }
        };
    law_reaches_follows(start, bytecode, count, last);
    if running(last, bytecode) && count != turn_limit() {
        law_turn_follows(last, bytecode, step);
    }
}

/// A submission of the secret halts the machine: from the state it leaves,
/// no run takes a further turn, however long the bytecode.
pub proof fn law_submit_flag_halts<T>(vm: Vm<T>, operands: Seq<u8>, bytecode: Seq<u8>)
    requires
        submit_flag(vm, operands).result is Ok,
    ensures
        !running(submit_flag(vm, operands).vm, bytecode),
        submit_flag(vm, operands).vm.solved == (vm.solved || flag_matches(vm, be_u16(operands, 0) as int)),
{
}

/// A run from a state that has halted takes no turn: it succeeds and
/// changes nothing.
pub proof fn law_run_from_halted<T: GameTracer>(start: Vm<T>, bytecode: Seq<u8>, step: Step<T>)
    requires
        !running(start, bytecode),
        run(start, bytecode, step),
    ensures
        step == done(start),
{
    let (count, last) = choose|count: nat, last: Vm<T>|
        {
            &&& count <= turn_limit()
            &&& #[trigger] reaches(start, bytecode, count, last)
            &&& if !running(last, bytecode) {
                step == done(last)
            } else if count == turn_limit() {
                step == failed(last, InterpreterError::BudgetExceeded)
            } else {
                step.result is Err && turn(last, bytecode, step)
            }
        };
    lemma_reaches_from_halted(start, bytecode, count, last);
}

/// From a state that has halted, nothing but the state itself is reached.
pub proof fn lemma_reaches_from_halted<T: GameTracer>(
    start: Vm<T>,
    bytecode: Seq<u8>,
    count: nat,
    end: Vm<T>,
)
    requires
        !running(start, bytecode),
        reaches(start, bytecode, count, end),
    ensures
        count == 0,
        end == start,
    decreases count,
{
    if count > 0 {
        let middle = choose|middle: Vm<T>|
            {
                &&& reaches(start, bytecode, (count - 1) as nat, middle)
                &&& running(middle, bytecode)
                &&& #[trigger] turn(middle, bytecode, done(end))
            };
        lemma_reaches_from_halted(start, bytecode, (count - 1) as nat, middle);
    }
}

/// A run that succeeds ends in a state that has halted: the program counter
/// has left the bytecode or is the halting value.
pub proof fn law_run_ends_halted<T: GameTracer>(start: Vm<T>, bytecode: Seq<u8>, step: Step<T>)
    requires
        run(start, bytecode, step),
        step.result is Ok,
    ensures
        !running(step.vm, bytecode),
{
}

} // verus!
