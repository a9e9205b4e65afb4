use std::collections::HashMap;

use evm::fake_tracer::FakeTracer;
use evm::game_3::get_game_parameters;
use evm::interpreter::{
    GameParameters, GasCost, InstructionEncoding, Interpreter, InterpreterError,
};

fn run_io_access(tracer: FakeTracer) -> Interpreter<FakeTracer, 3> {
    let fake_elf = [0x41, 0x42, 0x43, 44];

    let mut interp: Interpreter<FakeTracer, 3> = Interpreter::new(fake_elf.to_vec(), Some(tracer));

    let io_moves = [
        0x91, 0x00, 0x00, 0x00, 0x04,
        0x91, 0x01, 0x00, 0x00, 0x04,
        0x00, 0x01, 0x20, 0x4e, 0x61, 0x68,
        0x04, 0x00, 0x05, 0x01,
        0x90, 0x00, 0x00, 0x00, 0x08,
    ];

    interp.interpret(&io_moves).unwrap();

    let mem = interp.get_memory();

    let region1 = mem[0..4].to_vec();
    let string_val1 = String::from_utf8_lossy(&region1);

    assert_eq!(string_val1, String::from("Hell"));

    let region2 = mem[0x100..0x102].to_vec();
    let string_val2 = String::from_utf8_lossy(&region2);

    assert_eq!(string_val2, String::from("o!"));

    interp
}

fn run_io_var_access(tracer: FakeTracer) -> Interpreter<FakeTracer, 3> {
    let fake_elf = [0x41, 0x42, 0x43, 0x44];

    let mut interp: Interpreter<FakeTracer, 3> = Interpreter::new(fake_elf.to_vec(), Some(tracer));

    let io_var_moves = [
        0x00, 0x01, 0x00, 0x00, 0x00, 0x00, 0x00, 0x00, 0x00, 0x04,
        0x00, 0x02, 0x00, 0x00, 0x00, 0x00, 0x00, 0x00, 0x01, 0x00,
        0x93, 0x00, 0x01,
        0x93, 0x02, 0x01,
        0x00, 0x03, 0x00, 0x00, 0x00, 0x00, 0x20, 0x4e, 0x61, 0x68,
        0x04, 0x00, 0x05, 0x03,
        0x0D, 0x01, 0x01,
        0x92, 0x00, 0x01,
    ];

    interp.interpret(&io_var_moves).unwrap();

    let mem = interp.get_memory();

    let region1 = mem[0..4].to_vec();
    let string_val1 = String::from_utf8_lossy(&region1);

    assert_eq!(string_val1, String::from("Hell"));

    let region2 = mem[0x100..0x102].to_vec();
    let string_val2 = String::from_utf8_lossy(&region2);

    assert_eq!(string_val2, String::from("o!"));

    interp
}

#[test]
fn game_3_io_access() {
    let fake_tracer = FakeTracer::new(String::from("Hello!"));
    let interp = run_io_access(fake_tracer);
    // the last instruction wrote the first eight bytes of memory
    let written = interp.tracer.as_ref().unwrap().copy_stdin();
    assert_eq!(written, interp.get_memory()[0..8].to_vec());
    assert_eq!(&written[0..4], b"Hell");
}

#[test]
fn io_var_access() {
    let fake_tracer = FakeTracer::new(String::from("Hello!"));
    let interp = run_io_var_access(fake_tracer);
    assert_eq!(interp.get_registers()[1], 0);
    assert_eq!(interp.get_registers()[3], 0x204e6168);
    assert_eq!(&interp.get_memory()[5..9], &[0x68, 0x61, 0x4e, 0x20]);
    assert!(interp.tracer.as_ref().unwrap().copy_stdin().is_empty());
}

fn get_fake_game_parameters(budget: usize) -> GameParameters {
    let mut catalogue = HashMap::new();

    catalogue.insert(InstructionEncoding::WriteStdin, GasCost::Variable(10));

    catalogue.insert(InstructionEncoding::ReadStdout, GasCost::Variable(10));

    catalogue.insert(InstructionEncoding::BitFlipElf, GasCost::Fixed(50));

    GameParameters::new(budget, catalogue, GasCost::Fixed(10))
}

#[test]
fn elf_bit_flipping() {
    let fake_elf = [0xff, 0x00, 0b01010101];

    let mut interp: Interpreter<FakeTracer, 3> = Interpreter::new(fake_elf.to_vec(), None);

    let flp_moves = [
        // flip 0
        0x80, 0x00, 0x00, 0x00, 0x00, 0x00, 0x00, 0x00, 0x00,
        // flip 7
        0x80, 0x00, 0x00, 0x00, 0x00, 0x00, 0x00, 0x00, 0x07,
        // flip 17
        0x80, 0x00, 0x00, 0x00, 0x00, 0x00, 0x00, 0x00, 0x11,
        // flip 19
        0x80, 0x00, 0x00, 0x00, 0x00, 0x00, 0x00, 0x00, 0x13,
        // flip 21
        0x80, 0x00, 0x00, 0x00, 0x00, 0x00, 0x00, 0x00, 0x15,
        // flip 23
        0x80, 0x00, 0x00, 0x00, 0x00, 0x00, 0x00, 0x00, 0x17,
    ];

    interp.interpret_elf_bit_flips(&flp_moves).unwrap();

    let fake_elf = interp.get_challenge_elf();
    assert_eq!(fake_elf[0], 0x7e);
    assert_eq!(fake_elf[2], 0b11111111);
}

#[test]
fn test_budget_exhaustion() {
    let fake_elf = [0, 0, 0, 0];

    let mut interp: Interpreter<FakeTracer, 3> = Interpreter::new(fake_elf.to_vec(), None);

    interp.set_game_parameters(get_fake_game_parameters(80));

    // only one instruction should be executed
    let budget_moves = [
        0x80, 0x00, 0x00, 0x00, 0x00, 0x00, 0x00, 0x00, 0x00,
        // flip 7
        0x80, 0x00, 0x00, 0x00, 0x00, 0x00, 0x00, 0x00, 0x07,
    ];

    let result = interp.interpret_elf_bit_flips(&budget_moves);

    assert!(result.is_err());

    let fake_elf = interp.get_challenge_elf();
    assert_eq!(fake_elf[0], 1);
}

#[test]
fn io_budget() {
    let fake_elf = [0x41, 0x42, 0x43, 44];

    let fake_tracer = FakeTracer::new(String::from("Hello!"));
    let mut interp: Interpreter<FakeTracer, 3> = Interpreter::new(fake_elf.to_vec(), Some(fake_tracer));

    interp.set_game_parameters(get_fake_game_parameters(80));

    let io_moves = [
        0x91, 0x00, 0x00, 0x00, 0x04,
        0x91, 0x01, 0x00, 0x00, 0x04,
        0x00, 0x01, 0x20, 0x4e, 0x61, 0x68,
        0x04, 0x00, 0x05, 0x01,
        0x90, 0x00, 0x00, 0x00, 0x08,
    ];

    let result = interp.interpret(&io_moves);

    assert!(result.is_err());

    let mem = interp.get_memory();

    let region1 = mem[0..4].to_vec();
    let string_val1 = String::from_utf8_lossy(&region1);

    assert_eq!(string_val1, String::from("Hell"));

    let region2 = mem[0x100..0x102].to_vec();
    let string_val2 = String::from_utf8_lossy(&region2);

    assert_eq!(string_val2, String::from("o!"));

    // ensure the above succeeded

    let regs = interp.get_registers();

    // ensure that 0x01 was not set as the instruction exceeded budget
    assert_eq!(regs[1], 0);
}

#[test]
fn io_stdout_var_budget() {
    let fake_elf = [0x41, 0x42, 0x43, 44];

    let fake_tracer = FakeTracer::new(String::from("Hello!"));
    let mut interp: Interpreter<FakeTracer, 3> = Interpreter::new(fake_elf.to_vec(), Some(fake_tracer));

    // budget is 80
    interp.set_game_parameters(get_fake_game_parameters(80));

    let io_var_moves = [
        0x00, 0x01, 0x00, 0x00, 0x00, 0x00, 0x00, 0x00, 0x00, 0x06,
        0x00, 0x02, 0x00, 0x00, 0x00, 0x00, 0x00, 0x00, 0x01, 0x00,
        0x93, 0x00, 0x01,
        0x00, 0x03, 0x00, 0x00, 0x00, 0x00, 0x20, 0x4e, 0x61, 0x68,
        0x04, 0x00, 0x05, 0x03,
        0x90, 0x00, 0x00, 0x00, 0x08,
    ];

    let result = interp.interpret(&io_var_moves);

    assert!(result.is_err());

    let mem = interp.get_memory();

    let region1 = mem[0..4].to_vec();
    let string_val1 = String::from_utf8_lossy(&region1);

    assert_eq!(string_val1, String::from("Hell"));

    // ensure the above succeeded

    let regs = interp.get_registers();

    // ensure that 'Nah' was not set as the instruction exceeded budget
    assert_eq!(regs[3], 0);
}

#[test]
fn io_stdin_var_budget() {
    let fake_elf = [0x41, 0x42, 0x43, 44];

    let fake_tracer = FakeTracer::new(String::from("Hello!"));
    let mut interp: Interpreter<FakeTracer, 3> = Interpreter::new(fake_elf.to_vec(), Some(fake_tracer));

    // budget is 80
    interp.set_game_parameters(get_fake_game_parameters(80));

    let io_var_moves = [
        0x00, 0x01, 0x00, 0x00, 0x00, 0x00, 0x00, 0x00, 0x00, 0x06,
        0x00, 0x02, 0x00, 0x00, 0x00, 0x00, 0x00, 0x00, 0x01, 0x00,
        0x92, 0x00, 0x01,
        0x00, 0x03, 0x00, 0x00, 0x00, 0x00, 0x20, 0x4e, 0x61, 0x68,
        0x04, 0x00, 0x05, 0x03,
        0x90, 0x00, 0x00, 0x00, 0x08,
    ];

    let result = interp.interpret(&io_var_moves);

    assert!(result.is_err());

    let regs = interp.get_registers();

    // ensure that 'Nah' was not set as the instruction exceeded budget
    assert_eq!(regs[3], 0);
}

#[test]
fn game_3_parameters() {
    let params = get_game_parameters();
    assert_eq!(params.budget(), 100000);
    assert_eq!(params.rule(InstructionEncoding::WriteStdin), GasCost::Variable(10));
    assert_eq!(params.rule(InstructionEncoding::ReadStdout), GasCost::Variable(0));
    assert_eq!(params.rule(InstructionEncoding::BitFlipElf), GasCost::Fixed(100));
    assert_eq!(params.rule(InstructionEncoding::BitFlipMem), GasCost::Fixed(100));
    assert_eq!(params.rule(InstructionEncoding::StoreReg), GasCost::Fixed(1));
    assert_eq!(params.rule(InstructionEncoding::SubmitFlag), GasCost::Fixed(1));
}

#[test]
fn game_3_interpret_starts_at_the_first_byte() {
    let mut interp: Interpreter<FakeTracer, 3> = Interpreter::new(vec![0], None);
    interp.set_pc(10);
    assert_eq!(interp.get_pc(), 10);
    let code = [0x00, 0x01, 0x00, 0x00, 0x00, 0x00, 0x00, 0x00, 0x00, 0x09];
    interp.interpret(&code).unwrap();
    assert_eq!(interp.get_registers()[1], 9);
    assert_eq!(interp.get_pc(), 10);
}

#[test]
fn elf_bit_flips_stop_at_the_first_other_opcode() {
    let mut interp: Interpreter<FakeTracer, 3> = Interpreter::new(vec![0x00, 0xff], None);
    interp.set_game_parameters(get_game_parameters());
    let code = [
        // flip bit 15: the highest bit of the second byte
        0x80, 0x00, 0x00, 0x00, 0x00, 0x00, 0x00, 0x00, 0x0f,
        // mov r1, 1
        0x00, 0x01, 0x00, 0x00, 0x00, 0x00, 0x00, 0x00, 0x00, 0x01,
        // a flip after the first other opcode is not part of the phase
        0x80, 0x00, 0x00, 0x00, 0x00, 0x00, 0x00, 0x00, 0x00,
    ];
    interp.interpret_elf_bit_flips(&code).unwrap();
    assert_eq!(interp.get_pc(), 9);
    assert_eq!(interp.get_challenge_elf(), vec![0x00, 0x7f]);
    assert_eq!(interp.get_gas(), 100000 - 100);
    assert_eq!(interp.get_registers()[1], 0);

    // the run goes on with what the phase left
    let starting_pc = interp.get_pc();
    let result = interp.interpret(&code[starting_pc..]);
    // in a run the flip of the executable is no instruction
    assert!(matches!(result, Err(InterpreterError::InvalidInstruction)));
    assert_eq!(interp.get_registers()[1], 1);
    assert_eq!(interp.get_gas(), 100000 - 100 - 1 - 100);
    assert_eq!(interp.get_challenge_elf(), vec![0x00, 0x7f]);
}

#[test]
fn elf_bit_flip_offset_beyond_the_executable() {
    let mut interp: Interpreter<FakeTracer, 3> = Interpreter::new(vec![0xaa, 0xbb], None);
    // bit 15 is the last bit there is
    let last = [0x80, 0, 0, 0, 0, 0, 0, 0, 15];
    assert!(interp.interpret_elf_bit_flips(&last).is_ok());
    assert_eq!(interp.get_challenge_elf(), vec![0xaa, 0x3b]);
    interp.set_pc(0);
    let beyond = [0x80, 0, 0, 0, 0, 0, 0, 0, 16];
    let result = interp.interpret_elf_bit_flips(&beyond);
    assert!(matches!(result, Err(InterpreterError::InvalidBitOffset)));
    assert_eq!(interp.get_challenge_elf(), vec![0xaa, 0x3b]);
    interp.set_pc(0);
    let far = [0x80, 0xff, 0xff, 0xff, 0xff, 0xff, 0xff, 0xff, 0xff];
    let result = interp.interpret_elf_bit_flips(&far);
    assert!(matches!(result, Err(InterpreterError::InvalidBitOffset)));
}

#[test]
fn elf_bit_flip_twice_restores() {
    let mut interp: Interpreter<FakeTracer, 3> = Interpreter::new(vec![0x5a, 0xff], None);
    for bit in 0..16u8 {
        let code = [
            0x80, 0, 0, 0, 0, 0, 0, 0, bit,
            0x80, 0, 0, 0, 0, 0, 0, 0, bit,
        ];
        interp.set_pc(0);
        interp.interpret_elf_bit_flips(&code).unwrap();
        assert_eq!(interp.get_challenge_elf(), vec![0x5a, 0xff]);
    }
    // flipping bit 7 of a byte of ones
    interp.set_pc(0);
    interp.interpret_elf_bit_flips(&[0x80, 0, 0, 0, 0, 0, 0, 0, 15]).unwrap();
    assert_eq!(interp.get_challenge_elf(), vec![0x5a, 0x7f]);
}

#[test]
fn elf_bit_flip_incomplete() {
    let mut interp: Interpreter<FakeTracer, 3> = Interpreter::new(vec![0x5a], None);
    for given in 0..8usize {
        let mut code = vec![0x80];
        code.extend(std::iter::repeat(0).take(given));
        interp.set_pc(0);
        let result = interp.interpret_elf_bit_flips(&code);
        assert!(matches!(result, Err(InterpreterError::IncompleteInstruction)));
        assert_eq!(interp.get_challenge_elf(), vec![0x5a]);
    }
}

#[test]
fn hello_reaches_the_tracer() {
    let mut code = Vec::new();
    for (k, byte) in b"hello".iter().enumerate() {
        // mov r1, byte
        code.extend_from_slice(&[0x00, 0x01, 0, 0, 0, 0, 0, 0, 0, *byte]);
        // mov [k], r1b
        code.extend_from_slice(&[0x02, 0x00, k as u8, 0x01]);
    }
    // write(0, 5)
    code.extend_from_slice(&[0x90, 0x00, 0x00, 0x00, 0x05]);
    let tracer = FakeTracer::new(String::new());
    let mut interp: Interpreter<FakeTracer, 3> = Interpreter::new(vec![0], Some(tracer));
    interp.interpret(&code).unwrap();
    assert_eq!(interp.tracer.as_ref().unwrap().copy_stdin(), b"hello".to_vec());
}

#[test]
fn two_reads_share_the_output() {
    let code = [
        0x91, 0x00, 0x00, 0x00, 0x04,
        0x91, 0x01, 0x00, 0x00, 0x02,
    ];
    let tracer = FakeTracer::new(String::from("Hello!"));
    let mut interp: Interpreter<FakeTracer, 3> = Interpreter::new(vec![0], Some(tracer));
    interp.interpret(&code).unwrap();
    let mem = interp.get_memory();
    assert_eq!(&mem[0..4], b"Hell");
    assert_eq!(&mem[0x100..0x102], b"o!");
    assert_eq!(&mem[4..8], &[0, 0, 0, 0]);
}

#[test]
fn transfer_is_charged_by_its_length() {
    let tracer = FakeTracer::new(String::from("Hello!"));
    let mut interp: Interpreter<FakeTracer, 3> = Interpreter::new(vec![0], Some(tracer));
    interp.set_game_parameters(get_game_parameters());
    let code = [
        // read(0, 6): free
        0x91, 0x00, 0x00, 0x00, 0x06,
        // write(0, 6): 10 a byte
        0x90, 0x00, 0x00, 0x00, 0x06,
        // mov r1, r1: 1
        0x01, 0x01, 0x01,
    ];
    interp.interpret(&code).unwrap();
    assert_eq!(interp.get_gas(), 100000 - 60 - 1);
    assert_eq!(interp.tracer.as_ref().unwrap().copy_stdin(), b"Hello!".to_vec());
}

#[test]
fn unaffordable_transfer_does_not_reach_the_tracer() {
    let tracer = FakeTracer::new(String::from("Hello!"));
    let mut interp: Interpreter<FakeTracer, 3> = Interpreter::new(vec![0], Some(tracer));
    interp.set_game_parameters(get_fake_game_parameters(39));
    let result = interp.interpret(&[0x91, 0x00, 0x00, 0x00, 0x04]);
    assert!(matches!(result, Err(InterpreterError::BudgetExceeded)));
    assert_eq!(interp.get_gas(), 39);
    assert_eq!(interp.get_memory(), [0u8; 1024]);
    // the output is still all there
    let result = interp.interpret(&[0x91, 0x00, 0x00, 0x00, 0x03]);
    assert!(result.is_ok());
    assert_eq!(interp.get_gas(), 9);
    assert_eq!(&interp.get_memory()[0..3], b"Hel");
    let result = interp.interpret(&[0x90, 0x00, 0x00, 0x00, 0x01]);
    assert!(matches!(result, Err(InterpreterError::BudgetExceeded)));
    assert!(interp.tracer.as_ref().unwrap().copy_stdin().is_empty());
}

#[test]
fn transfer_ranges() {
    let run = |code: &[u8]| {
        let tracer = FakeTracer::new(String::new());
        let mut interp: Interpreter<FakeTracer, 3> = Interpreter::new(vec![0], Some(tracer));
        interp.interpret(code)
    };
    // an empty transfer at the end of memory is in range by immediate
    assert!(run(&[0x90, 0x04, 0x00, 0x00, 0x00]).is_ok());
    assert!(run(&[0x91, 0x04, 0x00, 0x00, 0x00]).is_ok());
    assert!(matches!(
        run(&[0x91, 0x04, 0x00, 0x00, 0x01]),
        Err(InterpreterError::InvalidMemoryRange)
    ));
    // but not by register
    let by_register = |opcode: u8, address: u16, length: u16| {
        let mut code = vec![0x00, 0x01, 0, 0, 0, 0, 0, 0];
        code.extend_from_slice(&address.to_be_bytes());
        code.extend_from_slice(&[0x00, 0x02, 0, 0, 0, 0, 0, 0]);
        code.extend_from_slice(&length.to_be_bytes());
        code.extend_from_slice(&[opcode, 0x01, 0x02]);
        run(&code)
    };
    for opcode in [0x92u8, 0x93] {
        assert!(by_register(opcode, 1023, 1).is_ok());
        assert!(by_register(opcode, 0, 1024).is_ok());
        assert!(matches!(
            by_register(opcode, 1024, 0),
            Err(InterpreterError::InvalidMemoryRange)
        ));
        assert!(matches!(
            by_register(opcode, 1023, 2),
            Err(InterpreterError::InvalidMemoryRange)
        ));
    }
    // a register beyond 64 bits of address space
    let code = [
        0x00, 0x01, 0xff, 0xff, 0xff, 0xff, 0xff, 0xff, 0xff, 0xff,
        0x92, 0x00, 0x01,
    ];
    assert!(matches!(run(&code), Err(InterpreterError::InvalidMemoryRange)));
}
