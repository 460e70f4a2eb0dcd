//! Bytecode instructions: the opcodes of the Lucy VM and the packing of an
//! instruction's fields into a 32-bit word.
//!
//! An `ABC` instruction holds the opcode in bits 0..6, `A` in bits 6..14,
//! `B` in bits 14..23 and `C` in bits 23..32. An `ABx` instruction holds the
//! opcode and `A` in the same places and `Bx` in bits 14..32.
use vstd::prelude::*;

verus! {

/// The operations of the Lucy VM, numbered from 0 in declaration order.
#[allow(non_camel_case_types)]
#[derive(Clone, Copy, Debug, PartialEq, Eq, Structural)]
pub enum Opcode {
    LOADK,
    CALL,
    RET,
    MOVE,
    GETUPVAL,
    JEQ,
    JNE,
    JMP,
    NEWCLASS,
    SETFIELD,
    GETFIELD,
    GETMETHOD,
    ADD,
    SUB,
    MUL,
    DIV,
    POW,
    MOD,
    LOR,
    LAND,
    BOR,
    BAND,
    BLSHIFT,
    BRSHIFT,
    EQ,
    NEQ,
    LE,
    LT,
    GE,
    GT,
    NEG,
    LNOT,
    BNOT,
    ADDOV,
    SUBOV,
    MULOV,
    DIVOV,
    POWOV,
    MODOV,
    LOROV,
    LANDOV,
    BOROV,
    BANDOV,
    BLSHIFTOV,
    BRSHIFTOV,
    EQOV,
    NEQOV,
    LEOV,
    LTOV,
    GEOV,
    GTOV,
    NEGOV,
    LNOTOV,
    BNOTOV,
    TYCAST,
    TYOF,
}

impl Opcode {
    /// The number of this opcode in an instruction word.
    pub open spec fn number(self) -> u32 {
        match self {
            Opcode::LOADK => 0,
            Opcode::CALL => 1,
            Opcode::RET => 2,
            Opcode::MOVE => 3,
            Opcode::GETUPVAL => 4,
            Opcode::JEQ => 5,
            Opcode::JNE => 6,
            Opcode::JMP => 7,
            Opcode::NEWCLASS => 8,
            Opcode::SETFIELD => 9,
            Opcode::GETFIELD => 10,
            Opcode::GETMETHOD => 11,
            Opcode::ADD => 12,
            Opcode::SUB => 13,
            Opcode::MUL => 14,
            Opcode::DIV => 15,
            Opcode::POW => 16,
            Opcode::MOD => 17,
            Opcode::LOR => 18,
            Opcode::LAND => 19,
            Opcode::BOR => 20,
            Opcode::BAND => 21,
            Opcode::BLSHIFT => 22,
            Opcode::BRSHIFT => 23,
            Opcode::EQ => 24,
            Opcode::NEQ => 25,
            Opcode::LE => 26,
            Opcode::LT => 27,
            Opcode::GE => 28,
            Opcode::GT => 29,
            Opcode::NEG => 30,
            Opcode::LNOT => 31,
            Opcode::BNOT => 32,
            Opcode::ADDOV => 33,
            Opcode::SUBOV => 34,
            Opcode::MULOV => 35,
            Opcode::DIVOV => 36,
            Opcode::POWOV => 37,
            Opcode::MODOV => 38,
            Opcode::LOROV => 39,
            Opcode::LANDOV => 40,
            Opcode::BOROV => 41,
            Opcode::BANDOV => 42,
            Opcode::BLSHIFTOV => 43,
            Opcode::BRSHIFTOV => 44,
            Opcode::EQOV => 45,
            Opcode::NEQOV => 46,
            Opcode::LEOV => 47,
            Opcode::LTOV => 48,
            Opcode::GEOV => 49,
            Opcode::GTOV => 50,
            Opcode::NEGOV => 51,
            Opcode::LNOTOV => 52,
            Opcode::BNOTOV => 53,
            Opcode::TYCAST => 54,
            Opcode::TYOF => 55,
        }
    }
}

/// Where a captured variable of a closure comes from.
#[derive(Clone, Copy, Debug, PartialEq, Eq, Structural)]
pub enum UpvalueSource {
    ParentRegister(usize),
    ParentUpvalue(usize),
}

/// A captured variable of a function prototype: its name, where it is
/// captured from, and its type.
pub struct UpvalueDescriptor {
    pub name: String,
    pub source: UpvalueSource,
    pub ty: crate::ty::Type,
}

/// The number of an opcode.
pub fn opu32(o: Opcode) -> (r: u32)
    ensures
        r == o.number(),
{
    match o {
        Opcode::LOADK => 0,
        Opcode::CALL => 1,
        Opcode::RET => 2,
        Opcode::MOVE => 3,
        Opcode::GETUPVAL => 4,
        Opcode::JEQ => 5,
        Opcode::JNE => 6,
        Opcode::JMP => 7,
        Opcode::NEWCLASS => 8,
        Opcode::SETFIELD => 9,
        Opcode::GETFIELD => 10,
        Opcode::GETMETHOD => 11,
        Opcode::ADD => 12,
        Opcode::SUB => 13,
        Opcode::MUL => 14,
        Opcode::DIV => 15,
        Opcode::POW => 16,
        Opcode::MOD => 17,
        Opcode::LOR => 18,
        Opcode::LAND => 19,
        Opcode::BOR => 20,
        Opcode::BAND => 21,
        Opcode::BLSHIFT => 22,
        Opcode::BRSHIFT => 23,
        Opcode::EQ => 24,
        Opcode::NEQ => 25,
        Opcode::LE => 26,
        Opcode::LT => 27,
        Opcode::GE => 28,
        Opcode::GT => 29,
        Opcode::NEG => 30,
        Opcode::LNOT => 31,
        Opcode::BNOT => 32,
        Opcode::ADDOV => 33,
        Opcode::SUBOV => 34,
        Opcode::MULOV => 35,
        Opcode::DIVOV => 36,
        Opcode::POWOV => 37,
        Opcode::MODOV => 38,
        Opcode::LOROV => 39,
        Opcode::LANDOV => 40,
        Opcode::BOROV => 41,
        Opcode::BANDOV => 42,
        Opcode::BLSHIFTOV => 43,
        Opcode::BRSHIFTOV => 44,
        Opcode::EQOV => 45,
        Opcode::NEQOV => 46,
        Opcode::LEOV => 47,
        Opcode::LTOV => 48,
        Opcode::GEOV => 49,
        Opcode::GTOV => 50,
        Opcode::NEGOV => 51,
        Opcode::LNOTOV => 52,
        Opcode::BNOTOV => 53,
        Opcode::TYCAST => 54,
        Opcode::TYOF => 55,
    }
}

pub open spec fn spec_pack_abc(op: u32, a: u32, b: u32, c: u32) -> u32 {
    (op & 0x3F) | ((a & 0xFF) << 6u32) | ((b & 0x1FF) << 14u32) | ((c & 0x1FF) << 23u32)
}

pub open spec fn spec_pack_abx(op: u32, a: u32, bx: u32) -> u32 {
    (op & 0x3F) | ((a & 0xFF) << 6u32) | ((bx & 0x3FFFF) << 14u32)
}

pub open spec fn spec_unpack_abc(instruction: u32) -> (u32, u32, u32, u32) {
    (
        instruction & 0x3F,
        (instruction >> 6u32) & 0xFF,
        (instruction >> 14u32) & 0x1FF,
        (instruction >> 23u32) & 0x1FF,
    )
}

pub open spec fn spec_unpack_abx(instruction: u32) -> (u32, u32, u32) {
    (instruction & 0x3F, (instruction >> 6u32) & 0xFF, (instruction >> 14u32) & 0x3FFFF)
}

/// Packs an `ABC` instruction; each field is cut to its width.
pub fn pack_abc(op: u32, a: u32, b: u32, c: u32) -> (r: u32)
    ensures
        r == spec_pack_abc(op, a, b, c),
{
    (op & 0x3F) | ((a & 0xFF) << 6u32) | ((b & 0x1FF) << 14u32) | ((c & 0x1FF) << 23u32)
}

/// Packs an `ABx` instruction; each field is cut to its width.
pub fn pack_abx(op: u32, a: u32, bx: u32) -> (r: u32)
    ensures
        r == spec_pack_abx(op, a, bx),
{
    (op & 0x3F) | ((a & 0xFF) << 6u32) | ((bx & 0x3FFFF) << 14u32)
}

/// Splits an instruction word into opcode, `A`, `B` and `C`.
pub fn unpack_abc(instruction: u32) -> (r: (u32, u32, u32, u32))
    ensures
        r == spec_unpack_abc(instruction),
{
    let op = instruction & 0x3F;
    let a = (instruction >> 6u32) & 0xFF;
    let b = (instruction >> 14u32) & 0x1FF;
    let c = (instruction >> 23u32) & 0x1FF;
    (op, a, b, c)
}

/// Splits an instruction word into opcode, `A` and `Bx`.
pub fn unpack_abx(instruction: u32) -> (r: (u32, u32, u32))
    ensures
        r == spec_unpack_abx(instruction),
{
    let op = instruction & 0x3F;
    let a = (instruction >> 6u32) & 0xFF;
    let bx = (instruction >> 14u32) & 0x3FFFF;
    (op, a, bx)
}

/// Unpacking a packed `ABC` instruction gives back each field cut to its
/// width: the opcode to 6 bits, `A` to 8, `B` and `C` to 9.
pub proof fn lemma_abc_roundtrip(op: u32, a: u32, b: u32, c: u32)
    ensures
        spec_unpack_abc(spec_pack_abc(op, a, b, c)) == (op & 0x3F, a & 0xFF, b & 0x1FF, c & 0x1FF),
{
    let w = spec_pack_abc(op, a, b, c);
    assert(w & 0x3F == op & 0x3F) by (bit_vector)
        requires
            w == (op & 0x3F) | ((a & 0xFF) << 6u32) | ((b & 0x1FF) << 14u32) | ((c & 0x1FF) << 23u32),
    ;
    assert((w >> 6u32) & 0xFF == a & 0xFF) by (bit_vector)
        requires
            w == (op & 0x3F) | ((a & 0xFF) << 6u32) | ((b & 0x1FF) << 14u32) | ((c & 0x1FF) << 23u32),
    ;
    assert((w >> 14u32) & 0x1FF == b & 0x1FF) by (bit_vector)
        requires
            w == (op & 0x3F) | ((a & 0xFF) << 6u32) | ((b & 0x1FF) << 14u32) | ((c & 0x1FF) << 23u32),
    ;
    assert((w >> 23u32) & 0x1FF == c & 0x1FF) by (bit_vector)
        requires
            w == (op & 0x3F) | ((a & 0xFF) << 6u32) | ((b & 0x1FF) << 14u32) | ((c & 0x1FF) << 23u32),
    ;
}

/// Unpacking a packed `ABx` instruction gives back each field cut to its
/// width: the opcode to 6 bits, `A` to 8, `Bx` to 18.
pub proof fn lemma_abx_roundtrip(op: u32, a: u32, bx: u32)
    ensures
        spec_unpack_abx(spec_pack_abx(op, a, bx)) == (op & 0x3F, a & 0xFF, bx & 0x3FFFF),
{
    let w = spec_pack_abx(op, a, bx);
    assert(w & 0x3F == op & 0x3F) by (bit_vector)
        requires
            w == (op & 0x3F) | ((a & 0xFF) << 6u32) | ((bx & 0x3FFFF) << 14u32),
    ;
    assert((w >> 6u32) & 0xFF == a & 0xFF) by (bit_vector)
        requires
            w == (op & 0x3F) | ((a & 0xFF) << 6u32) | ((bx & 0x3FFFF) << 14u32),
    ;
    assert((w >> 14u32) & 0x3FFFF == bx & 0x3FFFF) by (bit_vector)
        requires
            w == (op & 0x3F) | ((a & 0xFF) << 6u32) | ((bx & 0x3FFFF) << 14u32),
    ;
}

/// Every instruction word is the packing of its own `ABC` fields.
pub proof fn lemma_abc_repack(w: u32)
    ensures
        ({
            let (op, a, b, c) = spec_unpack_abc(w);
            spec_pack_abc(op, a, b, c) == w
        }),
{
    assert(((w & 0x3F) & 0x3F) | ((((w >> 6u32) & 0xFF) & 0xFF) << 6u32) | ((((w >> 14u32)
        & 0x1FF) & 0x1FF) << 14u32) | ((((w >> 23u32) & 0x1FF) & 0x1FF) << 23u32) == w)
        by (bit_vector);
}

/// Every instruction word is the packing of its own `ABx` fields.
pub proof fn lemma_abx_repack(w: u32)
    ensures
        ({
            let (op, a, bx) = spec_unpack_abx(w);
            spec_pack_abx(op, a, bx) == w
        }),
{
    assert(((w & 0x3F) & 0x3F) | ((((w >> 6u32) & 0xFF) & 0xFF) << 6u32) | ((((w >> 14u32)
        & 0x3FFFF) & 0x3FFFF) << 14u32) == w) by (bit_vector);
}

/// Opcode numbers fit the 6-bit opcode field, and distinct opcodes have
/// distinct numbers, so the opcode of a packed instruction is read back.
pub proof fn lemma_opcode_numbers(o: Opcode, p: Opcode, a: u32, b: u32, c: u32)
    ensures
        o.number() < 64,
        o.number() == p.number() ==> o == p,
        spec_unpack_abc(spec_pack_abc(o.number(), a, b, c)).0 == o.number(),
        spec_unpack_abx(spec_pack_abx(o.number(), a, b)).0 == o.number(),
{
    lemma_abc_roundtrip(o.number(), a, b, c);
    lemma_abx_roundtrip(o.number(), a, b);
    let n = o.number();
    assert(n < 64 ==> n & 0x3F == n) by (bit_vector);
}

} // verus!
