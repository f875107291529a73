use rjvm::error::{DecodeError, DecodeErrorKind};
use rjvm::vm::jvm::{JVMError, JVM};
use rjvm::vm::opcode::{AType, Opcode, WideInstruction};

fn fault(kind: DecodeErrorKind, offset: usize) -> JVMError {
    JVMError::Decode(DecodeError { kind, offset })
}

#[test]
fn instructions_without_operands_are_one_byte_long() {
    let cases = [
        (0x00u8, Opcode::Nop),
        (0x01, Opcode::AConstNull),
        (0x02, Opcode::IConstM1),
        (0x08, Opcode::IConst5),
        (0x1A, Opcode::ILoad0),
        (0x2D, Opcode::ALoad3),
        (0x35, Opcode::SALoad),
        (0x4E, Opcode::AStore3),
        (0x5F, Opcode::Swap),
        (0x60, Opcode::IAdd),
        (0x7D, Opcode::LUshr),
        (0x83, Opcode::LXor),
        (0x94, Opcode::LCmp),
        (0x98, Opcode::DCmpG),
        (0xAC, Opcode::IReturn),
        (0xB1, Opcode::Return),
        (0xBE, Opcode::ArrayLength),
        (0xBF, Opcode::AThrow),
        (0xC3, Opcode::MonitorExit),
        (0xCA, Opcode::Breakpoint),
    ];
    for (byte, expected) in cases {
        assert_eq!(JVM::parse_opcode(&[byte], 0), Ok((expected, 1)));
    }
}

#[test]
fn operands_are_read_big_endian() {
    assert_eq!(JVM::parse_opcode(&[0x10, 0x80], 0), Ok((Opcode::BIPush(-128), 2)));
    assert_eq!(JVM::parse_opcode(&[0x11, 0x12, 0x34], 0), Ok((Opcode::SIPush(0x1234), 3)));
    assert_eq!(JVM::parse_opcode(&[0x11, 0xFF, 0xFE], 0), Ok((Opcode::SIPush(-2), 3)));
    assert_eq!(JVM::parse_opcode(&[0x12, 0xFF], 0), Ok((Opcode::Ldc(255), 2)));
    assert_eq!(JVM::parse_opcode(&[0x13, 0x01, 0x02], 0), Ok((Opcode::LdcW(0x0102), 3)));
    assert_eq!(JVM::parse_opcode(&[0x14, 0x01, 0x02], 0), Ok((Opcode::Ldc2W(0x0102), 3)));
    assert_eq!(JVM::parse_opcode(&[0x15, 7], 0), Ok((Opcode::ILoad(7), 2)));
    assert_eq!(JVM::parse_opcode(&[0x3A, 9], 0), Ok((Opcode::AStore(9), 2)));
    assert_eq!(JVM::parse_opcode(&[0x84, 3, 0xFF], 0), Ok((Opcode::IInc(3, -1), 3)));
    assert_eq!(JVM::parse_opcode(&[0x99, 0x80, 0x00], 0), Ok((Opcode::IfEq(-32768), 3)));
    assert_eq!(JVM::parse_opcode(&[0xA6, 0x00, 0x10], 0), Ok((Opcode::IfACmpNe(16), 3)));
    assert_eq!(JVM::parse_opcode(&[0xA7, 0xFF, 0xFD], 0), Ok((Opcode::Goto(-3), 3)));
    assert_eq!(JVM::parse_opcode(&[0xA9, 2], 0), Ok((Opcode::Ret(2), 2)));
    assert_eq!(JVM::parse_opcode(&[0xB4, 0x00, 0x0B], 0), Ok((Opcode::GetField(11), 3)));
    assert_eq!(JVM::parse_opcode(&[0xB7, 0x00, 0x0F], 0), Ok((Opcode::InvokeSpecial(15), 3)));
    assert_eq!(JVM::parse_opcode(&[0xBB, 0x01, 0x00], 0), Ok((Opcode::New(256), 3)));
    assert_eq!(JVM::parse_opcode(&[0xC5, 0x00, 0x02, 3], 0), Ok((Opcode::MultiANewArray(2, 3), 4)));
    assert_eq!(JVM::parse_opcode(&[0xC6, 0x00, 0x05], 0), Ok((Opcode::IfNull(5), 3)));
    assert_eq!(
        JVM::parse_opcode(&[0xC8, 0x80, 0x00, 0x00, 0x00], 0),
        Ok((Opcode::GotoW(i32::MIN), 5))
    );
    assert_eq!(
        JVM::parse_opcode(&[0xC9, 0x00, 0x01, 0x00, 0x00], 0),
        Ok((Opcode::JsrW(0x10000), 5))
    );
}

#[test]
fn decoding_starts_at_the_given_position() {
    let code = [0x00, 0x00, 0x11, 0x01, 0x00];
    assert_eq!(JVM::parse_opcode(&code, 2), Ok((Opcode::SIPush(256), 3)));
    assert_eq!(JVM::parse_opcode(&code, 5), Err(fault(DecodeErrorKind::UnexpectedEof, 5)));
    assert_eq!(JVM::parse_opcode(&code, 9), Err(fault(DecodeErrorKind::UnexpectedEof, 9)));
}

#[test]
fn a_short_operand_is_an_unexpected_end() {
    assert_eq!(JVM::parse_opcode(&[0x10], 0), Err(fault(DecodeErrorKind::UnexpectedEof, 0)));
    assert_eq!(JVM::parse_opcode(&[0x11, 0x01], 0), Err(fault(DecodeErrorKind::UnexpectedEof, 0)));
    assert_eq!(
        JVM::parse_opcode(&[0x00, 0xC8, 0, 0, 0], 1),
        Err(fault(DecodeErrorKind::UnexpectedEof, 1))
    );
    assert_eq!(JVM::parse_opcode(&[0xC4], 0), Err(fault(DecodeErrorKind::UnexpectedEof, 0)));
    assert_eq!(JVM::parse_opcode(&[0xC4, 0x15, 0], 0), Err(fault(DecodeErrorKind::UnexpectedEof, 0)));
}

#[test]
fn reserved_opcodes_are_refused() {
    for byte in 0xCBu8..=0xFF {
        assert_eq!(JVM::parse_opcode(&[byte, 0, 0, 0, 0], 0), Err(fault(DecodeErrorKind::InvalidOpcode, 0)));
    }
}

#[test]
fn newarray_names_a_primitive_type() {
    let types = [
        (4u8, AType::Boolean),
        (5, AType::Char),
        (6, AType::Float),
        (7, AType::Double),
        (8, AType::Byte),
        (9, AType::Short),
        (10, AType::Int),
        (11, AType::Long),
    ];
    for (code, ty) in types {
        assert_eq!(JVM::parse_opcode(&[0xBC, code], 0), Ok((Opcode::NewArray(ty), 2)));
        assert_eq!(AType::try_from_primitive(code), Some(ty));
        assert_eq!(ty.code(), code);
    }
    assert_eq!(JVM::parse_opcode(&[0xBC, 3], 0), Err(fault(DecodeErrorKind::InvalidArrayType, 0)));
    assert_eq!(JVM::parse_opcode(&[0xBC, 12], 0), Err(fault(DecodeErrorKind::InvalidArrayType, 0)));
    assert_eq!(AType::try_from_primitive(0), None);
}

#[test]
fn invokeinterface_and_invokedynamic_end_in_zero_bytes() {
    assert_eq!(
        JVM::parse_opcode(&[0xB9, 0x00, 0x07, 2, 0], 0),
        Ok((Opcode::InvokeInterface(7, 2), 5))
    );
    assert_eq!(
        JVM::parse_opcode(&[0xB9, 0x00, 0x07, 2, 1], 0),
        Err(fault(DecodeErrorKind::InvalidOperand, 0))
    );
    assert_eq!(JVM::parse_opcode(&[0xBA, 0x00, 0x07, 0, 0], 0), Ok((Opcode::InvokeDynamic(7), 5)));
    assert_eq!(
        JVM::parse_opcode(&[0xBA, 0x00, 0x07, 0, 9], 0),
        Err(fault(DecodeErrorKind::InvalidOperand, 0))
    );
    assert_eq!(
        JVM::parse_opcode(&[0xBA, 0x00, 0x07, 0], 0),
        Err(fault(DecodeErrorKind::UnexpectedEof, 0))
    );
}

#[test]
fn wide_widens_loads_stores_and_iinc() {
    assert_eq!(
        JVM::parse_opcode(&[0xC4, 0x15, 0x01, 0x00], 0),
        Ok((Opcode::Wide(WideInstruction::ILoad(256)), 4))
    );
    assert_eq!(
        JVM::parse_opcode(&[0xC4, 0x19, 0x00, 0x01], 0),
        Ok((Opcode::Wide(WideInstruction::ALoad(1)), 4))
    );
    assert_eq!(
        JVM::parse_opcode(&[0xC4, 0x3A, 0xFF, 0xFF], 0),
        Ok((Opcode::Wide(WideInstruction::AStore(65535)), 4))
    );
    assert_eq!(
        JVM::parse_opcode(&[0xC4, 0x84, 0x01, 0x00, 0xFF, 0x00], 0),
        Ok((Opcode::Wide(WideInstruction::IInc(256, -256)), 6))
    );
    assert_eq!(
        JVM::parse_opcode(&[0xC4, 0x60, 0, 0], 0),
        Err(fault(DecodeErrorKind::InvalidWideTarget, 0))
    );
    assert_eq!(
        JVM::parse_opcode(&[0xC4, 0xA9, 0, 0], 0),
        Err(fault(DecodeErrorKind::InvalidWideTarget, 0))
    );
}

fn words(values: &[i32]) -> Vec<u8> {
    let mut out = Vec::new();
    for v in values {
        out.extend_from_slice(&v.to_be_bytes());
    }
    out
}

#[test]
fn tableswitch_is_padded_to_a_multiple_of_four() {
    for pc in 0..4usize {
        let mut code = vec![0x00; pc];
        code.push(0xAA);
        while code.len() % 4 != 0 {
            code.push(0x55);
        }
        let padding = code.len() - pc - 1;
        code.extend_from_slice(&words(&[100, -1, 1, 10, 20, 30]));
        let expected = Opcode::TableSwitch {
            default_offset: 100,
            low: -1,
            high: 1,
            jump_offsets: vec![10, 20, 30],
        };
        assert_eq!(JVM::parse_opcode(&code, pc), Ok((expected, 1 + padding + 12 + 12)));
    }
}

#[test]
fn tableswitch_needs_low_at_most_high() {
    let mut code = vec![0xAA, 0, 0, 0];
    code.extend_from_slice(&words(&[0, 2, 1]));
    assert_eq!(JVM::parse_opcode(&code, 0), Err(fault(DecodeErrorKind::InvalidSwitch, 0)));
    let mut code = vec![0xAA, 0, 0, 0];
    code.extend_from_slice(&words(&[0, 5, 5, 7]));
    let expected = Opcode::TableSwitch { default_offset: 0, low: 5, high: 5, jump_offsets: vec![7] };
    assert_eq!(JVM::parse_opcode(&code, 0), Ok((expected, 20)));
}

#[test]
fn tableswitch_with_a_missing_offset_is_an_unexpected_end() {
    let mut code = vec![0xAA, 0, 0, 0];
    code.extend_from_slice(&words(&[0, 0, 2, 1, 2]));
    assert_eq!(JVM::parse_opcode(&code, 0), Err(fault(DecodeErrorKind::UnexpectedEof, 0)));
    let mut code = vec![0xAA, 0, 0, 0];
    code.extend_from_slice(&words(&[0, i32::MIN, i32::MAX]));
    assert_eq!(JVM::parse_opcode(&code, 0), Err(fault(DecodeErrorKind::UnexpectedEof, 0)));
}

#[test]
fn lookupswitch_reads_pairs_in_ascending_order() {
    let mut code = vec![0x00, 0xAB, 0, 0];
    code.extend_from_slice(&words(&[9, 3, -5, 1, 0, 2, 7, 3]));
    let expected = Opcode::LookupSwitch {
        default_offset: 9,
        npairs: 3,
        match_offsets: vec![(-5, 1), (0, 2), (7, 3)],
    };
    assert_eq!(JVM::parse_opcode(&code, 1), Ok((expected, 1 + 2 + 8 + 24)));
}

#[test]
fn lookupswitch_refuses_unordered_and_repeated_keys() {
    let mut code = vec![0xAB, 0, 0, 0];
    code.extend_from_slice(&words(&[9, 2, 5, 1, 4, 2]));
    assert_eq!(JVM::parse_opcode(&code, 0), Err(fault(DecodeErrorKind::InvalidSwitch, 0)));
    let mut code = vec![0xAB, 0, 0, 0];
    code.extend_from_slice(&words(&[9, 2, 5, 1, 5, 2]));
    assert_eq!(JVM::parse_opcode(&code, 0), Err(fault(DecodeErrorKind::InvalidSwitch, 0)));
    let mut code = vec![0xAB, 0, 0, 0];
    code.extend_from_slice(&words(&[9, -1]));
    assert_eq!(JVM::parse_opcode(&code, 0), Err(fault(DecodeErrorKind::InvalidSwitch, 0)));
    let mut code = vec![0xAB, 0, 0, 0];
    code.extend_from_slice(&words(&[9, 0]));
    let expected = Opcode::LookupSwitch { default_offset: 9, npairs: 0, match_offsets: vec![] };
    assert_eq!(JVM::parse_opcode(&code, 0), Ok((expected, 12)));
}

#[test]
fn every_opcode_byte_below_the_reserved_range_decodes() {
    for byte in 0u8..0xCB {
        let mut code = vec![byte, 0x15, 0, 0, 0, 0, 0, 0, 0, 0, 0, 0, 0, 0, 0, 0, 0, 0, 0, 0];
        if byte == 0xBC {
            code[1] = 4;
        }
        match JVM::parse_opcode(&code, 0) {
            Ok((_, len)) => assert!(len >= 1 && len <= code.len(), "opcode {:#x}", byte),
            Err(e) => panic!("opcode {:#x}: {:?}", byte, e),
        }
    }
}

#[test]
fn error_kinds_have_messages() {
    assert_eq!(DecodeErrorKind::UnexpectedEof.message(), "unexpected end of input");
    assert_eq!(DecodeErrorKind::InvalidOpcode.message(), "unknown opcode");
    assert_eq!(DecodeErrorKind::InvalidUtf8.message(), "UTF-8 string was not in correct format");
}
