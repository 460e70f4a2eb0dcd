//! Names of instructions, for listings of bytecode.
use vstd::prelude::*;
use crate::vm::{Opcode, opu32};

verus! {

/// The name under which an opcode number is listed; `???` for the numbers
/// that have none.
pub open spec fn opcode_name_text(op: u32) -> Seq<char> {
    if op == Opcode::LOADK.number() {
        "LOADK"@
    } else if op == Opcode::CALL.number() {
        "CALL"@
    } else if op == Opcode::RET.number() {
        "RET"@
    } else if op == Opcode::MOVE.number() {
        "MOVE"@
    } else if op == Opcode::GETUPVAL.number() {
        "GETUPVAL"@
    } else if op == Opcode::TYCAST.number() {
        "TYPECAST"@
    } else if op == Opcode::NEWCLASS.number() {
        "NEWCLASS"@
    } else if op == Opcode::SETFIELD.number() {
        "SETFIELD"@
    } else if op == Opcode::GETFIELD.number() {
        "GETFIELD"@
    } else if op == Opcode::GETMETHOD.number() {
        "GETMETHOD"@
    } else if op == Opcode::ADD.number() {
        "ADD"@
    } else if op == Opcode::SUB.number() {
        "SUB"@
    } else if op == Opcode::DIV.number() {
        "DIV"@
    } else if op == Opcode::MUL.number() {
        "MUL"@
    } else if op == Opcode::JMP.number() {
        "JMP"@
    } else if op == Opcode::JEQ.number() {
        "JEQ"@
    } else if op == Opcode::JNE.number() {
        "JNE"@
    } else if op == Opcode::LE.number() {
        "LE"@
    } else if op == Opcode::GE.number() {
        "GE"@
    } else if op == Opcode::LT.number() {
        "LT"@
    } else if op == Opcode::GT.number() {
        "GT"@
    } else if op == Opcode::ADDOV.number() {
        "ADD OVERLOADED"@
    } else if op == Opcode::SUBOV.number() {
        "SUB OVERLOADED"@
    } else if op == Opcode::DIVOV.number() {
        "DIV OVERLOADED"@
    } else if op == Opcode::MULOV.number() {
        "MUL OVERLOADED"@
    } else {
        "???"@
    }
}

/// The name under which an opcode number is listed.
pub fn opcode_name(op: u32) -> (r: &'static str)
    ensures
        r@ == opcode_name_text(op),
{
    if op == opu32(Opcode::LOADK) {
        "LOADK"
    } else if op == opu32(Opcode::CALL) {
        "CALL"
    } else if op == opu32(Opcode::RET) {
        "RET"
    } else if op == opu32(Opcode::MOVE) {
        "MOVE"
    } else if op == opu32(Opcode::GETUPVAL) {
        "GETUPVAL"
    } else if op == opu32(Opcode::TYCAST) {
        "TYPECAST"
    } else if op == opu32(Opcode::NEWCLASS) {
        "NEWCLASS"
    } else if op == opu32(Opcode::SETFIELD) {
        "SETFIELD"
    } else if op == opu32(Opcode::GETFIELD) {
        "GETFIELD"
    } else if op == opu32(Opcode::GETMETHOD) {
        "GETMETHOD"
    } else if op == opu32(Opcode::ADD) {
        "ADD"
    } else if op == opu32(Opcode::SUB) {
        "SUB"
    } else if op == opu32(Opcode::DIV) {
        "DIV"
    } else if op == opu32(Opcode::MUL) {
        "MUL"
    } else if op == opu32(Opcode::JMP) {
        "JMP"
    } else if op == opu32(Opcode::JEQ) {
        "JEQ"
    } else if op == opu32(Opcode::JNE) {
        "JNE"
    } else if op == opu32(Opcode::LE) {
        "LE"
    } else if op == opu32(Opcode::GE) {
        "GE"
    } else if op == opu32(Opcode::LT) {
        "LT"
    } else if op == opu32(Opcode::GT) {
        "GT"
    } else if op == opu32(Opcode::ADDOV) {
        "ADD OVERLOADED"
    } else if op == opu32(Opcode::SUBOV) {
        "SUB OVERLOADED"
    } else if op == opu32(Opcode::DIVOV) {
        "DIV OVERLOADED"
    } else if op == opu32(Opcode::MULOV) {
        "MUL OVERLOADED"
    } else {
        "???"
    }
}

/// Whether instructions with this opcode use the `ABx` layout (only `LOADK`).
pub fn is_abx(op: u32) -> (r: bool)
    ensures
        r == (op == Opcode::LOADK.number()),
{
    op == opu32(Opcode::LOADK)
}

} // verus!
