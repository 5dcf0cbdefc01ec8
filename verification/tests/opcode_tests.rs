use chip8_emulator::opcode::{OpCode, OpCodeError, OpKind, OpLiteral};

#[test]
fn test_opcode_parse() {
    let mut counter = 0;
    for valid_u16 in u16::MIN..u16::MAX {
        let opcode = OpCode::decode(valid_u16);
        if !opcode.is_ok() {
            counter += 1;
        }
    }

    assert_eq!(counter, 13647);
}

#[test]
fn decode_known_forms() {
    let cases: [(u16, OpLiteral, OpKind); 12] = [
        (0x00E0, OpLiteral::_00E0, OpKind::Display),
        (0x00EE, OpLiteral::_00EE, OpKind::Flow),
        (0x0123, OpLiteral::_0NNN, OpKind::Call),
        (0x1ABC, OpLiteral::_1NNN, OpKind::Flow),
        (0x2ABC, OpLiteral::_2NNN, OpKind::Flow),
        (0x3A7F, OpLiteral::_3XNN, OpKind::Cond),
        (0x8AB4, OpLiteral::_8XY4, OpKind::Math),
        (0x8ABE, OpLiteral::_8XYE, OpKind::BitOp),
        (0x9AB0, OpLiteral::_9XY0, OpKind::Cond),
        (0xEA9E, OpLiteral::_EX9E, OpKind::KeyOp),
        (0xFA65, OpLiteral::_FX65, OpKind::MEM),
        (0xCA55, OpLiteral::_CXNN, OpKind::Rand),
    ];
    for (word, literal, kind) in cases {
        let opcode = OpCode::decode(word).unwrap();
        assert_eq!(opcode.value, word);
        assert_eq!(opcode.literal, literal);
        assert_eq!(opcode.kind, kind);
    }
}

#[test]
fn decode_unknown_words() {
    for word in [0x8AB8u16, 0x8ABF, 0x9AB1, 0xE000, 0xEA9F, 0xF000, 0xFA66, 0xFFFF] {
        assert_eq!(OpCode::decode(word), Err(OpCodeError::Unknown(word)));
    }
}
