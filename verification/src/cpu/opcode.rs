//! The opcode table: the full, fixed mapping of all 256 possible
//! instruction bytes to a mnemonic, a cycle count and an operand length.
//! Byte values that carry no distinct behaviour in this processor family
//! alias to the do-nothing instruction rather than fail, so the table is
//! total.
use vstd::prelude::*;
use vstd::string::StringExecFns;

verus! {

/// What the table records for one instruction byte.
pub ghost struct OpcodeInfo {
    /// The mnemonic.
    pub name: Seq<char>,
    /// The instruction's cycle count.
    pub cycles: u8,
    /// How many operand bytes follow the opcode byte (0, 1 or 2).
    pub operand_bytes: u16,
}

/// The table entry for the instruction byte `op`, total over all 256
/// values.
pub open spec fn opcode_info(op: u8) -> OpcodeInfo {
    if crate::cpu::semantics::is_nop_code(op) {
        OpcodeInfo { name: "NOP"@, cycles: 4, operand_bytes: 0 }
    } else if op == 0x01 || op == 0x11 || op == 0x21 || op == 0x31 {
        OpcodeInfo { name: "LXI"@, cycles: 10, operand_bytes: 2 }
    } else if op == 0x02 || op == 0x12 {
        OpcodeInfo { name: "STAX"@, cycles: 7, operand_bytes: 0 }
    } else if op == 0x03 || op == 0x13 || op == 0x23 || op == 0x33 {
        OpcodeInfo { name: "INX"@, cycles: 5, operand_bytes: 0 }
    } else if op == 0x04 || op == 0x0C || op == 0x14 || op == 0x1C || op == 0x24 || op == 0x2C
        || op == 0x34 || op == 0x3C {
        OpcodeInfo { name: "INR"@, cycles: 5, operand_bytes: 0 }
    } else if op == 0x05 || op == 0x0D || op == 0x15 || op == 0x1D || op == 0x25 || op == 0x2D
        || op == 0x35 || op == 0x3D {
        OpcodeInfo { name: "DCR"@, cycles: 5, operand_bytes: 0 }
    } else if op == 0x06 || op == 0x0E || op == 0x16 || op == 0x1E || op == 0x26 || op == 0x2E
        || op == 0x36 || op == 0x3E {
        OpcodeInfo { name: "MVI"@, cycles: 10, operand_bytes: 1 }
    } else if op == 0x07 {
        OpcodeInfo { name: "RLC"@, cycles: 4, operand_bytes: 0 }
    } else if op == 0x09 || op == 0x19 || op == 0x29 || op == 0x39 {
        OpcodeInfo { name: "DAD"@, cycles: 10, operand_bytes: 0 }
    } else if op == 0x0A || op == 0x1A {
        OpcodeInfo { name: "LDAX"@, cycles: 7, operand_bytes: 0 }
    } else if op == 0x0B || op == 0x1B || op == 0x2B || op == 0x3B {
        OpcodeInfo { name: "DCX"@, cycles: 5, operand_bytes: 0 }
    } else if op == 0x0F {
        OpcodeInfo { name: "RRC"@, cycles: 4, operand_bytes: 0 }
    } else if op == 0x17 {
        OpcodeInfo { name: "RAL"@, cycles: 4, operand_bytes: 0 }
    } else if op == 0x1F {
        OpcodeInfo { name: "RAR"@, cycles: 4, operand_bytes: 0 }
    } else if op == 0x22 {
        OpcodeInfo { name: "SHLD"@, cycles: 16, operand_bytes: 2 }
    } else if op == 0x27 {
        OpcodeInfo { name: "DAA"@, cycles: 4, operand_bytes: 0 }
    } else if op == 0x2A {
        OpcodeInfo { name: "LHLD"@, cycles: 16, operand_bytes: 2 }
    } else if op == 0x2F {
        OpcodeInfo { name: "CMA"@, cycles: 4, operand_bytes: 0 }
    } else if op == 0x32 {
        OpcodeInfo { name: "STA"@, cycles: 13, operand_bytes: 2 }
    } else if op == 0x37 {
        OpcodeInfo { name: "STC"@, cycles: 4, operand_bytes: 0 }
    } else if op == 0x3A {
        OpcodeInfo { name: "LDA"@, cycles: 13, operand_bytes: 2 }
    } else if op == 0x3F {
        OpcodeInfo { name: "CMC"@, cycles: 4, operand_bytes: 0 }
    } else if 0x40 <= op && op <= 0x7F {
        OpcodeInfo { name: "MOV"@, cycles: 6, operand_bytes: 0 }
    } else if 0x80 <= op && op <= 0x87 {
        OpcodeInfo { name: "ADD"@, cycles: 4, operand_bytes: 0 }
    } else if 0x88 <= op && op <= 0x8F {
        OpcodeInfo { name: "ADC"@, cycles: 4, operand_bytes: 0 }
    } else if 0x90 <= op && op <= 0x97 {
        OpcodeInfo { name: "SUB"@, cycles: 4, operand_bytes: 0 }
    } else if 0x98 <= op && op <= 0x9F {
        OpcodeInfo { name: "SBB"@, cycles: 4, operand_bytes: 0 }
    } else if 0xA0 <= op && op <= 0xA7 {
        OpcodeInfo { name: "ANA"@, cycles: 4, operand_bytes: 0 }
    } else if 0xA8 <= op && op <= 0xAF {
        OpcodeInfo { name: "XRA"@, cycles: 4, operand_bytes: 0 }
    } else if 0xB0 <= op && op <= 0xB7 {
        OpcodeInfo { name: "ORA"@, cycles: 4, operand_bytes: 0 }
    } else if 0xB8 <= op && op <= 0xBF {
        OpcodeInfo { name: "CMP"@, cycles: 4, operand_bytes: 0 }
    } else if op == 0xC0 {
        OpcodeInfo { name: "RNZ"@, cycles: 11, operand_bytes: 0 }
    } else if op == 0xC1 || op == 0xD1 || op == 0xE1 || op == 0xF1 {
        OpcodeInfo { name: "POP"@, cycles: 10, operand_bytes: 0 }
    } else if op == 0xC2 {
        OpcodeInfo { name: "JNZ"@, cycles: 10, operand_bytes: 2 }
    } else if op == 0xC3 {
        OpcodeInfo { name: "JMP"@, cycles: 10, operand_bytes: 2 }
    } else if op == 0xC4 {
        OpcodeInfo { name: "CNZ"@, cycles: 17, operand_bytes: 2 }
    } else if op == 0xC5 || op == 0xD5 || op == 0xE5 || op == 0xF5 {
        OpcodeInfo { name: "PUSH"@, cycles: 10, operand_bytes: 0 }
    } else if op == 0xC6 {
        OpcodeInfo { name: "ADI"@, cycles: 7, operand_bytes: 1 }
    } else if op == 0xC7 || op == 0xCF || op == 0xD7 || op == 0xDF || op == 0xE7 || op == 0xEF
        || op == 0xF7 || op == 0xFF {
        OpcodeInfo { name: "RST"@, cycles: 11, operand_bytes: 0 }
    } else if op == 0xC8 {
        OpcodeInfo { name: "RZ"@, cycles: 11, operand_bytes: 0 }
    } else if op == 0xC9 {
        OpcodeInfo { name: "RET"@, cycles: 10, operand_bytes: 0 }
    } else if op == 0xCA {
        OpcodeInfo { name: "JZ"@, cycles: 10, operand_bytes: 2 }
    } else if op == 0xCC {
        OpcodeInfo { name: "CZ"@, cycles: 17, operand_bytes: 2 }
    } else if op == 0xCD {
        OpcodeInfo { name: "CALL"@, cycles: 17, operand_bytes: 2 }
    } else if op == 0xCE {
        OpcodeInfo { name: "ACI"@, cycles: 7, operand_bytes: 1 }
    } else if op == 0xD0 {
        OpcodeInfo { name: "RNC"@, cycles: 11, operand_bytes: 0 }
    } else if op == 0xD2 {
        OpcodeInfo { name: "JNC"@, cycles: 10, operand_bytes: 2 }
    } else if op == 0xD3 {
        OpcodeInfo { name: "OUT"@, cycles: 10, operand_bytes: 1 }
    } else if op == 0xD4 {
        OpcodeInfo { name: "CNC"@, cycles: 17, operand_bytes: 2 }
    } else if op == 0xD6 {
        OpcodeInfo { name: "SUI"@, cycles: 7, operand_bytes: 1 }
    } else if op == 0xD8 {
        OpcodeInfo { name: "RC"@, cycles: 11, operand_bytes: 0 }
    } else if op == 0xDA {
        OpcodeInfo { name: "JC"@, cycles: 10, operand_bytes: 2 }
    } else if op == 0xDB {
        OpcodeInfo { name: "IN"@, cycles: 10, operand_bytes: 1 }
    } else if op == 0xDC {
        OpcodeInfo { name: "CC"@, cycles: 17, operand_bytes: 2 }
    } else if op == 0xDE {
        OpcodeInfo { name: "SBI"@, cycles: 7, operand_bytes: 1 }
    } else if op == 0xE0 {
        OpcodeInfo { name: "RPO"@, cycles: 11, operand_bytes: 0 }
    } else if op == 0xE2 {
        OpcodeInfo { name: "JPO"@, cycles: 10, operand_bytes: 2 }
    } else if op == 0xE3 {
        OpcodeInfo { name: "XTHL"@, cycles: 18, operand_bytes: 0 }
    } else if op == 0xE4 {
        OpcodeInfo { name: "CPO"@, cycles: 17, operand_bytes: 2 }
    } else if op == 0xE6 {
        OpcodeInfo { name: "ANI"@, cycles: 7, operand_bytes: 1 }
    } else if op == 0xE8 {
        OpcodeInfo { name: "RPE"@, cycles: 11, operand_bytes: 0 }
    } else if op == 0xE9 {
        OpcodeInfo { name: "PCHL"@, cycles: 5, operand_bytes: 0 }
    } else if op == 0xEA {
        OpcodeInfo { name: "JPE"@, cycles: 10, operand_bytes: 2 }
    } else if op == 0xEB {
        OpcodeInfo { name: "XCHG"@, cycles: 4, operand_bytes: 0 }
    } else if op == 0xEC {
        OpcodeInfo { name: "CPE"@, cycles: 17, operand_bytes: 2 }
    } else if op == 0xEE {
        OpcodeInfo { name: "XRI"@, cycles: 7, operand_bytes: 1 }
    } else if op == 0xF0 {
        OpcodeInfo { name: "RP"@, cycles: 11, operand_bytes: 0 }
    } else if op == 0xF2 {
        OpcodeInfo { name: "JP"@, cycles: 10, operand_bytes: 2 }
    } else if op == 0xF3 {
        OpcodeInfo { name: "DI"@, cycles: 4, operand_bytes: 0 }
    } else if op == 0xF4 {
        OpcodeInfo { name: "CP"@, cycles: 17, operand_bytes: 2 }
    } else if op == 0xF6 {
        OpcodeInfo { name: "ORI"@, cycles: 7, operand_bytes: 1 }
    } else if op == 0xF8 {
        OpcodeInfo { name: "RM"@, cycles: 11, operand_bytes: 0 }
    } else if op == 0xFA {
        OpcodeInfo { name: "JM"@, cycles: 10, operand_bytes: 2 }
    } else if op == 0xFB {
        OpcodeInfo { name: "EI"@, cycles: 4, operand_bytes: 0 }
    } else if op == 0xFC {
        OpcodeInfo { name: "CM"@, cycles: 17, operand_bytes: 2 }
    } else if op == 0xFE {
        OpcodeInfo { name: "CPI"@, cycles: 7, operand_bytes: 1 }
    } else {
        OpcodeInfo { name: "SPHL"@, cycles: 5, operand_bytes: 0 }
    }
}

/// One decoded instruction byte: the byte itself, its mnemonic, how many
/// operand bytes follow it, and its cycle count.
#[derive(Debug)]
pub struct Opcode {
    pub code: u8,
    pub operation_name: String,
    pub next_bytes: u16,
    pub cycles: u8,
}

impl Opcode {
    /// Decodes one instruction byte against the fixed table.
    pub fn new(val: u8) -> (r: Opcode)
        ensures
            r.code == val,
            r.operation_name@ == opcode_info(val).name,
            r.cycles == opcode_info(val).cycles,
            r.next_bytes == opcode_info(val).operand_bytes,
    {
        let (name, cycles, next_bytes): (&str, u8, u16) = opcode_name(val);
        Opcode { code: val, operation_name: String::from_str(name), next_bytes, cycles }
    }
}

/// The executable face of the table: mnemonic, cycle count and operand
/// length for the instruction byte `val`.
fn opcode_name(val: u8) -> (r: (&'static str, u8, u16))
    ensures
        r.0@ == opcode_info(val).name,
        r.1 == opcode_info(val).cycles,
        r.2 == opcode_info(val).operand_bytes,
{
    if val == 0x00 || val == 0x08 || val == 0x10 || val == 0x18 || val == 0x20 || val == 0x28
        || val == 0x30 || val == 0x38 || val == 0xCB || val == 0xD9 || val == 0xDD || val == 0xED
        || val == 0xFD {
        ("NOP", 4, 0)
    } else if val == 0x01 || val == 0x11 || val == 0x21 || val == 0x31 {
        ("LXI", 10, 2)
    } else if val == 0x02 || val == 0x12 {
        ("STAX", 7, 0)
    } else if val == 0x03 || val == 0x13 || val == 0x23 || val == 0x33 {
        ("INX", 5, 0)
    } else if val == 0x04 || val == 0x0C || val == 0x14 || val == 0x1C || val == 0x24 || val == 0x2C
        || val == 0x34 || val == 0x3C {
        ("INR", 5, 0)
    } else if val == 0x05 || val == 0x0D || val == 0x15 || val == 0x1D || val == 0x25 || val == 0x2D
        || val == 0x35 || val == 0x3D {
        ("DCR", 5, 0)
    } else if val == 0x06 || val == 0x0E || val == 0x16 || val == 0x1E || val == 0x26 || val == 0x2E
        || val == 0x36 || val == 0x3E {
        ("MVI", 10, 1)
    } else if val == 0x07 {
        ("RLC", 4, 0)
    } else if val == 0x09 || val == 0x19 || val == 0x29 || val == 0x39 {
        ("DAD", 10, 0)
    } else if val == 0x0A || val == 0x1A {
        ("LDAX", 7, 0)
    } else if val == 0x0B || val == 0x1B || val == 0x2B || val == 0x3B {
        ("DCX", 5, 0)
    } else if val == 0x0F {
        ("RRC", 4, 0)
    } else if val == 0x17 {
        ("RAL", 4, 0)
    } else if val == 0x1F {
        ("RAR", 4, 0)
    } else if val == 0x22 {
        ("SHLD", 16, 2)
    } else if val == 0x27 {
        ("DAA", 4, 0)
    } else if val == 0x2A {
        ("LHLD", 16, 2)
    } else if val == 0x2F {
        ("CMA", 4, 0)
    } else if val == 0x32 {
        ("STA", 13, 2)
    } else if val == 0x37 {
        ("STC", 4, 0)
    } else if val == 0x3A {
        ("LDA", 13, 2)
    } else if val == 0x3F {
        ("CMC", 4, 0)
    } else if 0x40 <= val && val <= 0x7F {
        ("MOV", 6, 0)
    } else if 0x80 <= val && val <= 0x87 {
        ("ADD", 4, 0)
    } else if 0x88 <= val && val <= 0x8F {
        ("ADC", 4, 0)
    } else if 0x90 <= val && val <= 0x97 {
        ("SUB", 4, 0)
    } else if 0x98 <= val && val <= 0x9F {
        ("SBB", 4, 0)
    } else if 0xA0 <= val && val <= 0xA7 {
        ("ANA", 4, 0)
    } else if 0xA8 <= val && val <= 0xAF {
        ("XRA", 4, 0)
    } else if 0xB0 <= val && val <= 0xB7 {
        ("ORA", 4, 0)
    } else if 0xB8 <= val && val <= 0xBF {
        ("CMP", 4, 0)
    } else if val == 0xC0 {
        ("RNZ", 11, 0)
    } else if val == 0xC1 || val == 0xD1 || val == 0xE1 || val == 0xF1 {
        ("POP", 10, 0)
    } else if val == 0xC2 {
        ("JNZ", 10, 2)
    } else if val == 0xC3 {
        ("JMP", 10, 2)
    } else if val == 0xC4 {
        ("CNZ", 17, 2)
    } else if val == 0xC5 || val == 0xD5 || val == 0xE5 || val == 0xF5 {
        ("PUSH", 10, 0)
    } else if val == 0xC6 {
        ("ADI", 7, 1)
    } else if val == 0xC7 || val == 0xCF || val == 0xD7 || val == 0xDF || val == 0xE7 || val == 0xEF
        || val == 0xF7 || val == 0xFF {
        ("RST", 11, 0)
    } else if val == 0xC8 {
        ("RZ", 11, 0)
    } else if val == 0xC9 {
        ("RET", 10, 0)
    } else if val == 0xCA {
        ("JZ", 10, 2)
    } else if val == 0xCC {
        ("CZ", 17, 2)
    } else if val == 0xCD {
        ("CALL", 17, 2)
    } else if val == 0xCE {
        ("ACI", 7, 1)
    } else if val == 0xD0 {
        ("RNC", 11, 0)
    } else if val == 0xD2 {
        ("JNC", 10, 2)
    } else if val == 0xD3 {
        ("OUT", 10, 1)
    } else if val == 0xD4 {
        ("CNC", 17, 2)
    } else if val == 0xD6 {
        ("SUI", 7, 1)
    } else if val == 0xD8 {
        ("RC", 11, 0)
    } else if val == 0xDA {
        ("JC", 10, 2)
    } else if val == 0xDB {
        ("IN", 10, 1)
    } else if val == 0xDC {
        ("CC", 17, 2)
    } else if val == 0xDE {
        ("SBI", 7, 1)
    } else if val == 0xE0 {
        ("RPO", 11, 0)
    } else if val == 0xE2 {
        ("JPO", 10, 2)
    } else if val == 0xE3 {
        ("XTHL", 18, 0)
    } else if val == 0xE4 {
        ("CPO", 17, 2)
    } else if val == 0xE6 {
        ("ANI", 7, 1)
    } else if val == 0xE8 {
        ("RPE", 11, 0)
    } else if val == 0xE9 {
        ("PCHL", 5, 0)
    } else if val == 0xEA {
        ("JPE", 10, 2)
    } else if val == 0xEB {
        ("XCHG", 4, 0)
    } else if val == 0xEC {
        ("CPE", 17, 2)
    } else if val == 0xEE {
        ("XRI", 7, 1)
    } else if val == 0xF0 {
        ("RP", 11, 0)
    } else if val == 0xF2 {
        ("JP", 10, 2)
    } else if val == 0xF3 {
        ("DI", 4, 0)
    } else if val == 0xF4 {
        ("CP", 17, 2)
    } else if val == 0xF6 {
        ("ORI", 7, 1)
    } else if val == 0xF8 {
        ("RM", 11, 0)
    } else if val == 0xFA {
        ("JM", 10, 2)
    } else if val == 0xFB {
        ("EI", 4, 0)
    } else if val == 0xFC {
        ("CM", 17, 2)
    } else if val == 0xFE {
        ("CPI", 7, 1)
    } else {
        ("SPHL", 5, 0)
    }
}

} // verus!
