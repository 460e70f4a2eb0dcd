use lucy_lang::bytecode_debug::{is_abx, opcode_name};
use lucy_lang::vm::{opu32, pack_abc, pack_abx, unpack_abc, unpack_abx, Opcode};

#[test]
fn opcode_numbers() {
    assert_eq!(opu32(Opcode::LOADK), 0);
    assert_eq!(opu32(Opcode::ADD), 12);
    assert_eq!(opu32(Opcode::BNOT), 32);
    assert_eq!(opu32(Opcode::ADDOV), 33);
    assert_eq!(opu32(Opcode::TYOF), 55);
}

#[test]
fn pack_abc_layout() {
    let w = pack_abc(12, 1, 2, 3);
    assert_eq!(w, 12 | (1 << 6) | (2 << 14) | (3 << 23));
    assert_eq!(unpack_abc(w), (12, 1, 2, 3));
    assert_eq!(unpack_abc(pack_abc(0x7F, 0x1FF, 0x3FF, 0x3FF)), (0x3F, 0xFF, 0x1FF, 0x1FF));
    assert_eq!(pack_abc(63, 255, 511, 511), u32::MAX);
}

#[test]
fn pack_abx_layout() {
    let w = pack_abx(0, 7, 1000);
    assert_eq!(w, (7 << 6) | (1000 << 14));
    assert_eq!(unpack_abx(w), (0, 7, 1000));
    assert_eq!(unpack_abx(pack_abx(64, 256, 0x40000)), (0, 0, 0));
    let x = 0xDEADBEEFu32;
    let (op, a, bx) = unpack_abx(x);
    assert_eq!(pack_abx(op, a, bx), x);
    let (op, a, b, c) = unpack_abc(x);
    assert_eq!(pack_abc(op, a, b, c), x);
}

#[test]
fn opcode_names() {
    assert_eq!(opcode_name(opu32(Opcode::LOADK)), "LOADK");
    assert_eq!(opcode_name(opu32(Opcode::TYCAST)), "TYPECAST");
    assert_eq!(opcode_name(opu32(Opcode::MULOV)), "MUL OVERLOADED");
    assert_eq!(opcode_name(opu32(Opcode::POW)), "???");
    assert_eq!(opcode_name(63), "???");
    assert!(is_abx(0));
    assert!(!is_abx(opu32(Opcode::CALL)));
}
