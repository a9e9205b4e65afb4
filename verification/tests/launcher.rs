use evm::fake_tracer::FakeTracer;
use evm::interpreter::Interpreter;
use evm::launcher::{decode_bytecode_line, decode_hex, BytecodeError};

#[test]
fn decode_hex_pairs() {
    assert_eq!(decode_hex(b""), Ok(vec![]));
    assert_eq!(decode_hex(b"00ff10"), Ok(vec![0x00, 0xff, 0x10]));
    assert_eq!(decode_hex(b"f9b4ca"), Ok(vec![0xf9, 0xb4, 0xca]));
    assert_eq!(decode_hex(b"F9B4CA"), Ok(vec![0xf9, 0xb4, 0xca]));
    assert_eq!(decode_hex(b"f9B4Ca"), Ok(vec![0xf9, 0xb4, 0xca]));
    assert_eq!(decode_hex(b"48656c6c6f"), Ok(b"Hello".to_vec()));
}

#[test]
fn decode_hex_errors() {
    assert_eq!(decode_hex(b"123"), Err(BytecodeError::OddLength));
    // the length is looked at before the digits
    assert_eq!(decode_hex(b"zzz"), Err(BytecodeError::OddLength));
    assert_eq!(
        decode_hex(b"0g"),
        Err(BytecodeError::InvalidHexCharacter { c: 'g', index: 1 })
    );
    assert_eq!(
        decode_hex(b"00x0y0"),
        Err(BytecodeError::InvalidHexCharacter { c: 'x', index: 2 })
    );
    assert_eq!(
        decode_hex(b" 0"),
        Err(BytecodeError::InvalidHexCharacter { c: ' ', index: 0 })
    );
    assert_eq!(
        decode_hex(&[b'0', 0xe9]),
        Err(BytecodeError::InvalidHexCharacter { c: '\u{e9}', index: 1 })
    );
    assert_eq!(decode_hex(b"/0").unwrap_err(), BytecodeError::InvalidHexCharacter { c: '/', index: 0 });
    assert_eq!(decode_hex(b":0").unwrap_err(), BytecodeError::InvalidHexCharacter { c: ':', index: 0 });
    assert_eq!(decode_hex(b"@0").unwrap_err(), BytecodeError::InvalidHexCharacter { c: '@', index: 0 });
    assert_eq!(decode_hex(b"G0").unwrap_err(), BytecodeError::InvalidHexCharacter { c: 'G', index: 0 });
    assert_eq!(decode_hex(b"`0").unwrap_err(), BytecodeError::InvalidHexCharacter { c: '`', index: 0 });
}

#[test]
fn decode_line_drops_trailing_white_space() {
    assert_eq!(decode_bytecode_line("0001\n"), Ok(vec![0x00, 0x01]));
    assert_eq!(decode_bytecode_line("0001\r\n"), Ok(vec![0x00, 0x01]));
    assert_eq!(decode_bytecode_line("0001 \t \n"), Ok(vec![0x00, 0x01]));
    assert_eq!(decode_bytecode_line("0001\u{2003}\u{a0}"), Ok(vec![0x00, 0x01]));
    assert_eq!(decode_bytecode_line("0001"), Ok(vec![0x00, 0x01]));
    assert_eq!(decode_bytecode_line("\n"), Ok(vec![]));
    assert_eq!(decode_bytecode_line(""), Ok(vec![]));
}

#[test]
fn decode_line_keeps_other_white_space() {
    assert_eq!(
        decode_bytecode_line("  0001\n"),
        Err(BytecodeError::InvalidHexCharacter { c: ' ', index: 0 })
    );
    assert_eq!(
        decode_bytecode_line("00 001\n"),
        Err(BytecodeError::InvalidHexCharacter { c: ' ', index: 2 })
    );
    assert_eq!(decode_bytecode_line("000\n"), Err(BytecodeError::OddLength));
    assert_eq!(decode_bytecode_line(" 0001\n"), Err(BytecodeError::OddLength));
}

#[test]
fn decoded_line_runs() {
    let code = decode_bytecode_line("00010001020304050607010201\n").unwrap();
    let mut interp: Interpreter<FakeTracer, 3> = Interpreter::new(vec![], None);
    interp.interpret(&code).unwrap();
    assert_eq!(interp.get_registers()[2], 0x0001020304050607);
}
