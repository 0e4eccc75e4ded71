//! The 256-entry instruction decode table: each opcode byte maps to a
//! handler, an addressing mode and a base cycle count.

use vstd::prelude::*;

verus! {

/// How an instruction finds its operand.
#[derive(Debug, Clone, Copy, PartialEq, Eq, Structural)]
pub enum AddressingMode {
    Implicit,
    Accumulator,
    Immediate,
    ZeroPage,
    ZeroPageX,
    ZeroPageY,
    Relative,
    Absolute,
    AbsoluteX,
    AbsoluteY,
    Indirect,
    IndexedIndirectX,
    IndirectIndexedY,
}

/// Every instruction the decoder dispatches to, official and documented
/// illegal opcodes alike; `Hlt` is the trap class.
#[derive(Debug, Clone, Copy, PartialEq, Eq, Structural)]
pub enum Instruction {
    Brk,
    Ora,
    Hlt,
    Aso,
    Nop,
    Asl,
    Php,
    Anc,
    Bpl,
    Clc,
    Jsr,
    And,
    Rla,
    Bit,
    Rol,
    Plp,
    Bmi,
    Sec,
    Rti,
    Eor,
    Lse,
    Lsr,
    Pha,
    Alr,
    Jmp,
    Bvc,
    Cli,
    Rts,
    Adc,
    Rra,
    Ror,
    Pla,
    Arr,
    Bvs,
    Sei,
    Sta,
    Sax,
    Sty,
    Stx,
    Dey,
    Txa,
    Xaa,
    Bcc,
    Axa,
    Tya,
    Txs,
    Tas,
    Say,
    Xas,
    Ldy,
    Lda,
    Ldx,
    Lax,
    Tay,
    Tax,
    Bcs,
    Clv,
    Tsx,
    Las,
    Cpy,
    Cmp,
    Dcm,
    Dec,
    Iny,
    Dex,
    Axs,
    Bne,
    Cld,
    Cpx,
    Sbc,
    Ins,
    Inc,
    Inx,
    Beq,
    Sed,
}

/// One decode-table entry.
#[derive(Debug, Clone, Copy, PartialEq, Eq, Structural)]
pub struct OpCode {
    pub instraction: Instruction,
    pub addr_mode: AddressingMode,
    pub cycles: u8,
}

/// The decode-table entry for an opcode byte.
pub fn opcode_lookup(op: u8) -> (r: OpCode)
    ensures
        r.cycles <= 8,
        op == 0x00 ==> r == (OpCode {
            instraction: Instruction::Brk,
            addr_mode: AddressingMode::Implicit,
            cycles: 7,
        }),
        op == 0xA9 ==> r == (OpCode {
            instraction: Instruction::Lda,
            addr_mode: AddressingMode::Immediate,
            cycles: 2,
        }),
        op == 0xA5 ==> r == (OpCode {
            instraction: Instruction::Lda,
            addr_mode: AddressingMode::ZeroPage,
            cycles: 3,
        }),
        op == 0xA2 ==> r == (OpCode {
            instraction: Instruction::Ldx,
            addr_mode: AddressingMode::Immediate,
            cycles: 2,
        }),
        op == 0xA0 ==> r == (OpCode {
            instraction: Instruction::Ldy,
            addr_mode: AddressingMode::Immediate,
            cycles: 2,
        }),
        op == 0x85 ==> r == (OpCode {
            instraction: Instruction::Sta,
            addr_mode: AddressingMode::ZeroPage,
            cycles: 3,
        }),
        op == 0xAA ==> r == (OpCode {
            instraction: Instruction::Tax,
            addr_mode: AddressingMode::Implicit,
            cycles: 2,
        }),
        op == 0xE8 ==> r == (OpCode {
            instraction: Instruction::Inx,
            addr_mode: AddressingMode::Implicit,
            cycles: 2,
        }),
        op == 0x6C ==> r == (OpCode {
            instraction: Instruction::Jmp,
            addr_mode: AddressingMode::Indirect,
            cycles: 5,
        }),
{
    if op == 0x00 {
        OpCode { instraction: Instruction::Brk, addr_mode: AddressingMode::Implicit, cycles: 7 }
    } else if op == 0x01 {
        OpCode { instraction: Instruction::Ora, addr_mode: AddressingMode::IndexedIndirectX, cycles: 6 }
    } else if op == 0x02 {
        OpCode { instraction: Instruction::Hlt, addr_mode: AddressingMode::Implicit, cycles: 0 }
    } else if op == 0x03 {
        OpCode { instraction: Instruction::Aso, addr_mode: AddressingMode::IndexedIndirectX, cycles: 8 }
    } else if op == 0x04 {
        OpCode { instraction: Instruction::Nop, addr_mode: AddressingMode::ZeroPage, cycles: 3 }
    } else if op == 0x05 {
        OpCode { instraction: Instruction::Ora, addr_mode: AddressingMode::ZeroPage, cycles: 3 }
    } else if op == 0x06 {
        OpCode { instraction: Instruction::Asl, addr_mode: AddressingMode::ZeroPage, cycles: 5 }
    } else if op == 0x07 {
        OpCode { instraction: Instruction::Aso, addr_mode: AddressingMode::ZeroPage, cycles: 5 }
    } else if op == 0x08 {
        OpCode { instraction: Instruction::Php, addr_mode: AddressingMode::Implicit, cycles: 3 }
    } else if op == 0x09 {
        OpCode { instraction: Instruction::Ora, addr_mode: AddressingMode::Immediate, cycles: 2 }
    } else if op == 0x0A {
        OpCode { instraction: Instruction::Asl, addr_mode: AddressingMode::Accumulator, cycles: 2 }
    } else if op == 0x0B {
        OpCode { instraction: Instruction::Anc, addr_mode: AddressingMode::Immediate, cycles: 2 }
    } else if op == 0x0C {
        OpCode { instraction: Instruction::Nop, addr_mode: AddressingMode::Absolute, cycles: 4 }
    } else if op == 0x0D {
        OpCode { instraction: Instruction::Ora, addr_mode: AddressingMode::Absolute, cycles: 4 }
    } else if op == 0x0E {
        OpCode { instraction: Instruction::Asl, addr_mode: AddressingMode::Absolute, cycles: 6 }
    } else if op == 0x0F {
        OpCode { instraction: Instruction::Aso, addr_mode: AddressingMode::Absolute, cycles: 6 }
    } else if op == 0x10 {
        OpCode { instraction: Instruction::Bpl, addr_mode: AddressingMode::Relative, cycles: 2 }
    } else if op == 0x11 {
        OpCode { instraction: Instruction::Ora, addr_mode: AddressingMode::IndirectIndexedY, cycles: 5 }
    } else if op == 0x12 {
        OpCode { instraction: Instruction::Hlt, addr_mode: AddressingMode::Implicit, cycles: 0 }
    } else if op == 0x13 {
        OpCode { instraction: Instruction::Aso, addr_mode: AddressingMode::IndirectIndexedY, cycles: 8 }
    } else if op == 0x14 {
        OpCode { instraction: Instruction::Nop, addr_mode: AddressingMode::ZeroPageX, cycles: 4 }
    } else if op == 0x15 {
        OpCode { instraction: Instruction::Ora, addr_mode: AddressingMode::ZeroPageX, cycles: 4 }
    } else if op == 0x16 {
        OpCode { instraction: Instruction::Asl, addr_mode: AddressingMode::ZeroPageX, cycles: 6 }
    } else if op == 0x17 {
        OpCode { instraction: Instruction::Aso, addr_mode: AddressingMode::ZeroPageX, cycles: 6 }
    } else if op == 0x18 {
        OpCode { instraction: Instruction::Clc, addr_mode: AddressingMode::Implicit, cycles: 2 }
    } else if op == 0x19 {
        OpCode { instraction: Instruction::Ora, addr_mode: AddressingMode::AbsoluteY, cycles: 4 }
    } else if op == 0x1A {
        OpCode { instraction: Instruction::Nop, addr_mode: AddressingMode::Implicit, cycles: 2 }
    } else if op == 0x1B {
        OpCode { instraction: Instruction::Aso, addr_mode: AddressingMode::AbsoluteY, cycles: 7 }
    } else if op == 0x1C {
        OpCode { instraction: Instruction::Nop, addr_mode: AddressingMode::AbsoluteX, cycles: 4 }
    } else if op == 0x1D {
        OpCode { instraction: Instruction::Ora, addr_mode: AddressingMode::AbsoluteX, cycles: 4 }
    } else if op == 0x1E {
        OpCode { instraction: Instruction::Asl, addr_mode: AddressingMode::AbsoluteX, cycles: 7 }
    } else if op == 0x1F {
        OpCode { instraction: Instruction::Aso, addr_mode: AddressingMode::AbsoluteX, cycles: 7 }
    } else if op == 0x20 {
        OpCode { instraction: Instruction::Jsr, addr_mode: AddressingMode::Absolute, cycles: 6 }
    } else if op == 0x21 {
        OpCode { instraction: Instruction::And, addr_mode: AddressingMode::IndexedIndirectX, cycles: 6 }
    } else if op == 0x22 {
        OpCode { instraction: Instruction::Hlt, addr_mode: AddressingMode::Implicit, cycles: 0 }
    } else if op == 0x23 {
        OpCode { instraction: Instruction::Rla, addr_mode: AddressingMode::IndexedIndirectX, cycles: 8 }
    } else if op == 0x24 {
        OpCode { instraction: Instruction::Bit, addr_mode: AddressingMode::ZeroPage, cycles: 3 }
    } else if op == 0x25 {
        OpCode { instraction: Instruction::And, addr_mode: AddressingMode::ZeroPage, cycles: 3 }
    } else if op == 0x26 {
        OpCode { instraction: Instruction::Rol, addr_mode: AddressingMode::ZeroPage, cycles: 5 }
    } else if op == 0x27 {
        OpCode { instraction: Instruction::Rla, addr_mode: AddressingMode::ZeroPage, cycles: 5 }
    } else if op == 0x28 {
        OpCode { instraction: Instruction::Plp, addr_mode: AddressingMode::Implicit, cycles: 4 }
    } else if op == 0x29 {
        OpCode { instraction: Instruction::And, addr_mode: AddressingMode::Immediate, cycles: 2 }
    } else if op == 0x2A {
        OpCode { instraction: Instruction::Rol, addr_mode: AddressingMode::Accumulator, cycles: 2 }
    } else if op == 0x2B {
        OpCode { instraction: Instruction::Anc, addr_mode: AddressingMode::Immediate, cycles: 2 }
    } else if op == 0x2C {
        OpCode { instraction: Instruction::Bit, addr_mode: AddressingMode::Absolute, cycles: 4 }
    } else if op == 0x2D {
        OpCode { instraction: Instruction::And, addr_mode: AddressingMode::Absolute, cycles: 4 }
    } else if op == 0x2E {
        OpCode { instraction: Instruction::Rol, addr_mode: AddressingMode::Absolute, cycles: 6 }
    } else if op == 0x2F {
        OpCode { instraction: Instruction::Rla, addr_mode: AddressingMode::Absolute, cycles: 6 }
    } else if op == 0x30 {
        OpCode { instraction: Instruction::Bmi, addr_mode: AddressingMode::Relative, cycles: 2 }
    } else if op == 0x31 {
        OpCode { instraction: Instruction::And, addr_mode: AddressingMode::IndirectIndexedY, cycles: 5 }
    } else if op == 0x32 {
        OpCode { instraction: Instruction::Hlt, addr_mode: AddressingMode::Implicit, cycles: 0 }
    } else if op == 0x33 {
        OpCode { instraction: Instruction::Rla, addr_mode: AddressingMode::IndirectIndexedY, cycles: 8 }
    } else if op == 0x34 {
        OpCode { instraction: Instruction::Nop, addr_mode: AddressingMode::ZeroPageX, cycles: 4 }
    } else if op == 0x35 {
        OpCode { instraction: Instruction::And, addr_mode: AddressingMode::ZeroPageX, cycles: 4 }
    } else if op == 0x36 {
        OpCode { instraction: Instruction::Rol, addr_mode: AddressingMode::ZeroPageX, cycles: 6 }
    } else if op == 0x37 {
        OpCode { instraction: Instruction::Rla, addr_mode: AddressingMode::ZeroPageX, cycles: 6 }
    } else if op == 0x38 {
        OpCode { instraction: Instruction::Sec, addr_mode: AddressingMode::Implicit, cycles: 2 }
    } else if op == 0x39 {
        OpCode { instraction: Instruction::And, addr_mode: AddressingMode::AbsoluteY, cycles: 4 }
    } else if op == 0x3A {
        OpCode { instraction: Instruction::Nop, addr_mode: AddressingMode::Implicit, cycles: 2 }
    } else if op == 0x3B {
        OpCode { instraction: Instruction::Rla, addr_mode: AddressingMode::AbsoluteY, cycles: 7 }
    } else if op == 0x3C {
        OpCode { instraction: Instruction::Nop, addr_mode: AddressingMode::AbsoluteX, cycles: 4 }
    } else if op == 0x3D {
        OpCode { instraction: Instruction::And, addr_mode: AddressingMode::AbsoluteX, cycles: 4 }
    } else if op == 0x3E {
        OpCode { instraction: Instruction::Rol, addr_mode: AddressingMode::AbsoluteX, cycles: 7 }
    } else if op == 0x3F {
        OpCode { instraction: Instruction::Rla, addr_mode: AddressingMode::AbsoluteX, cycles: 7 }
    } else if op == 0x40 {
        OpCode { instraction: Instruction::Rti, addr_mode: AddressingMode::Implicit, cycles: 6 }
    } else if op == 0x41 {
        OpCode { instraction: Instruction::Eor, addr_mode: AddressingMode::IndexedIndirectX, cycles: 6 }
    } else if op == 0x42 {
        OpCode { instraction: Instruction::Hlt, addr_mode: AddressingMode::Implicit, cycles: 0 }
    } else if op == 0x43 {
        OpCode { instraction: Instruction::Lse, addr_mode: AddressingMode::IndexedIndirectX, cycles: 8 }
    } else if op == 0x44 {
        OpCode { instraction: Instruction::Nop, addr_mode: AddressingMode::ZeroPage, cycles: 3 }
    } else if op == 0x45 {
        OpCode { instraction: Instruction::Eor, addr_mode: AddressingMode::ZeroPage, cycles: 3 }
    } else if op == 0x46 {
        OpCode { instraction: Instruction::Lsr, addr_mode: AddressingMode::ZeroPage, cycles: 5 }
    } else if op == 0x47 {
        OpCode { instraction: Instruction::Lse, addr_mode: AddressingMode::ZeroPage, cycles: 5 }
    } else if op == 0x48 {
        OpCode { instraction: Instruction::Pha, addr_mode: AddressingMode::Implicit, cycles: 3 }
    } else if op == 0x49 {
        OpCode { instraction: Instruction::Eor, addr_mode: AddressingMode::Immediate, cycles: 2 }
    } else if op == 0x4A {
        OpCode { instraction: Instruction::Lsr, addr_mode: AddressingMode::Accumulator, cycles: 2 }
    } else if op == 0x4B {
        OpCode { instraction: Instruction::Alr, addr_mode: AddressingMode::Immediate, cycles: 2 }
    } else if op == 0x4C {
        OpCode { instraction: Instruction::Jmp, addr_mode: AddressingMode::Absolute, cycles: 3 }
    } else if op == 0x4D {
        OpCode { instraction: Instruction::Eor, addr_mode: AddressingMode::Absolute, cycles: 4 }
    } else if op == 0x4E {
        OpCode { instraction: Instruction::Lsr, addr_mode: AddressingMode::Absolute, cycles: 6 }
    } else if op == 0x4F {
        OpCode { instraction: Instruction::Lse, addr_mode: AddressingMode::Absolute, cycles: 6 }
    } else if op == 0x50 {
        OpCode { instraction: Instruction::Bvc, addr_mode: AddressingMode::Relative, cycles: 2 }
    } else if op == 0x51 {
        OpCode { instraction: Instruction::Eor, addr_mode: AddressingMode::IndirectIndexedY, cycles: 5 }
    } else if op == 0x52 {
        OpCode { instraction: Instruction::Hlt, addr_mode: AddressingMode::Implicit, cycles: 0 }
    } else if op == 0x53 {
        OpCode { instraction: Instruction::Lse, addr_mode: AddressingMode::IndirectIndexedY, cycles: 8 }
    } else if op == 0x54 {
        OpCode { instraction: Instruction::Nop, addr_mode: AddressingMode::ZeroPageX, cycles: 4 }
    } else if op == 0x55 {
        OpCode { instraction: Instruction::Eor, addr_mode: AddressingMode::ZeroPageX, cycles: 4 }
    } else if op == 0x56 {
        OpCode { instraction: Instruction::Lsr, addr_mode: AddressingMode::ZeroPageX, cycles: 6 }
    } else if op == 0x57 {
        OpCode { instraction: Instruction::Lse, addr_mode: AddressingMode::ZeroPageX, cycles: 6 }
    } else if op == 0x58 {
        OpCode { instraction: Instruction::Cli, addr_mode: AddressingMode::Implicit, cycles: 2 }
    } else if op == 0x59 {
        OpCode { instraction: Instruction::Eor, addr_mode: AddressingMode::AbsoluteY, cycles: 4 }
    } else if op == 0x5A {
        OpCode { instraction: Instruction::Nop, addr_mode: AddressingMode::Implicit, cycles: 2 }
    } else if op == 0x5B {
        OpCode { instraction: Instruction::Lse, addr_mode: AddressingMode::AbsoluteY, cycles: 7 }
    } else if op == 0x5C {
        OpCode { instraction: Instruction::Nop, addr_mode: AddressingMode::AbsoluteX, cycles: 4 }
    } else if op == 0x5D {
        OpCode { instraction: Instruction::Eor, addr_mode: AddressingMode::AbsoluteX, cycles: 4 }
    } else if op == 0x5E {
        OpCode { instraction: Instruction::Lsr, addr_mode: AddressingMode::AbsoluteX, cycles: 7 }
    } else if op == 0x5F {
        OpCode { instraction: Instruction::Lse, addr_mode: AddressingMode::AbsoluteX, cycles: 7 }
    } else if op == 0x60 {
        OpCode { instraction: Instruction::Rts, addr_mode: AddressingMode::Implicit, cycles: 6 }
    } else if op == 0x61 {
        OpCode { instraction: Instruction::Adc, addr_mode: AddressingMode::IndexedIndirectX, cycles: 6 }
    } else if op == 0x62 {
        OpCode { instraction: Instruction::Hlt, addr_mode: AddressingMode::Implicit, cycles: 0 }
    } else if op == 0x63 {
        OpCode { instraction: Instruction::Rra, addr_mode: AddressingMode::IndexedIndirectX, cycles: 8 }
    } else if op == 0x64 {
        OpCode { instraction: Instruction::Nop, addr_mode: AddressingMode::ZeroPage, cycles: 3 }
    } else if op == 0x65 {
        OpCode { instraction: Instruction::Adc, addr_mode: AddressingMode::ZeroPage, cycles: 3 }
    } else if op == 0x66 {
        OpCode { instraction: Instruction::Ror, addr_mode: AddressingMode::ZeroPage, cycles: 5 }
    } else if op == 0x67 {
        OpCode { instraction: Instruction::Rra, addr_mode: AddressingMode::ZeroPage, cycles: 5 }
    } else if op == 0x68 {
        OpCode { instraction: Instruction::Pla, addr_mode: AddressingMode::Implicit, cycles: 4 }
    } else if op == 0x69 {
        OpCode { instraction: Instruction::Adc, addr_mode: AddressingMode::Immediate, cycles: 2 }
    } else if op == 0x6A {
        OpCode { instraction: Instruction::Ror, addr_mode: AddressingMode::Accumulator, cycles: 2 }
    } else if op == 0x6B {
        OpCode { instraction: Instruction::Arr, addr_mode: AddressingMode::Immediate, cycles: 2 }
    } else if op == 0x6C {
        OpCode { instraction: Instruction::Jmp, addr_mode: AddressingMode::Indirect, cycles: 5 }
    } else if op == 0x6D {
        OpCode { instraction: Instruction::Adc, addr_mode: AddressingMode::Absolute, cycles: 4 }
    } else if op == 0x6E {
        OpCode { instraction: Instruction::Ror, addr_mode: AddressingMode::Absolute, cycles: 6 }
    } else if op == 0x6F {
        OpCode { instraction: Instruction::Rra, addr_mode: AddressingMode::Absolute, cycles: 6 }
    } else if op == 0x70 {
        OpCode { instraction: Instruction::Bvs, addr_mode: AddressingMode::Relative, cycles: 2 }
    } else if op == 0x71 {
        OpCode { instraction: Instruction::Adc, addr_mode: AddressingMode::IndirectIndexedY, cycles: 5 }
    } else if op == 0x72 {
        OpCode { instraction: Instruction::Hlt, addr_mode: AddressingMode::Implicit, cycles: 0 }
    } else if op == 0x73 {
        OpCode { instraction: Instruction::Rra, addr_mode: AddressingMode::IndirectIndexedY, cycles: 8 }
    } else if op == 0x74 {
        OpCode { instraction: Instruction::Nop, addr_mode: AddressingMode::ZeroPageX, cycles: 4 }
    } else if op == 0x75 {
        OpCode { instraction: Instruction::Adc, addr_mode: AddressingMode::ZeroPageX, cycles: 4 }
    } else if op == 0x76 {
        OpCode { instraction: Instruction::Ror, addr_mode: AddressingMode::ZeroPageX, cycles: 6 }
    } else if op == 0x77 {
        OpCode { instraction: Instruction::Rra, addr_mode: AddressingMode::ZeroPageX, cycles: 6 }
    } else if op == 0x78 {
        OpCode { instraction: Instruction::Sei, addr_mode: AddressingMode::Implicit, cycles: 2 }
    } else if op == 0x79 {
        OpCode { instraction: Instruction::Adc, addr_mode: AddressingMode::AbsoluteY, cycles: 4 }
    } else if op == 0x7A {
        OpCode { instraction: Instruction::Nop, addr_mode: AddressingMode::Implicit, cycles: 2 }
    } else if op == 0x7B {
        OpCode { instraction: Instruction::Rra, addr_mode: AddressingMode::AbsoluteY, cycles: 7 }
    } else if op == 0x7C {
        OpCode { instraction: Instruction::Nop, addr_mode: AddressingMode::AbsoluteX, cycles: 4 }
    } else if op == 0x7D {
        OpCode { instraction: Instruction::Adc, addr_mode: AddressingMode::AbsoluteX, cycles: 4 }
    } else if op == 0x7E {
        OpCode { instraction: Instruction::Ror, addr_mode: AddressingMode::AbsoluteX, cycles: 7 }
    } else if op == 0x7F {
        OpCode { instraction: Instruction::Rra, addr_mode: AddressingMode::AbsoluteX, cycles: 7 }
    } else if op == 0x80 {
        OpCode { instraction: Instruction::Nop, addr_mode: AddressingMode::Immediate, cycles: 2 }
    } else if op == 0x81 {
        OpCode { instraction: Instruction::Sta, addr_mode: AddressingMode::IndexedIndirectX, cycles: 6 }
    } else if op == 0x82 {
        OpCode { instraction: Instruction::Nop, addr_mode: AddressingMode::Immediate, cycles: 2 }
    } else if op == 0x83 {
        OpCode { instraction: Instruction::Sax, addr_mode: AddressingMode::IndexedIndirectX, cycles: 6 }
    } else if op == 0x84 {
        OpCode { instraction: Instruction::Sty, addr_mode: AddressingMode::ZeroPage, cycles: 3 }
    } else if op == 0x85 {
        OpCode { instraction: Instruction::Sta, addr_mode: AddressingMode::ZeroPage, cycles: 3 }
    } else if op == 0x86 {
        OpCode { instraction: Instruction::Stx, addr_mode: AddressingMode::ZeroPage, cycles: 3 }
    } else if op == 0x87 {
        OpCode { instraction: Instruction::Sax, addr_mode: AddressingMode::ZeroPage, cycles: 3 }
    } else if op == 0x88 {
        OpCode { instraction: Instruction::Dey, addr_mode: AddressingMode::Implicit, cycles: 2 }
    } else if op == 0x89 {
        OpCode { instraction: Instruction::Nop, addr_mode: AddressingMode::Immediate, cycles: 2 }
    } else if op == 0x8A {
        OpCode { instraction: Instruction::Txa, addr_mode: AddressingMode::Implicit, cycles: 2 }
    } else if op == 0x8B {
        OpCode { instraction: Instruction::Xaa, addr_mode: AddressingMode::Immediate, cycles: 2 }
    } else if op == 0x8C {
        OpCode { instraction: Instruction::Sty, addr_mode: AddressingMode::Absolute, cycles: 4 }
    } else if op == 0x8D {
        OpCode { instraction: Instruction::Sta, addr_mode: AddressingMode::Absolute, cycles: 4 }
    } else if op == 0x8E {
        OpCode { instraction: Instruction::Stx, addr_mode: AddressingMode::Absolute, cycles: 4 }
    } else if op == 0x8F {
        OpCode { instraction: Instruction::Sax, addr_mode: AddressingMode::Absolute, cycles: 4 }
    } else if op == 0x90 {
        OpCode { instraction: Instruction::Bcc, addr_mode: AddressingMode::Relative, cycles: 2 }
    } else if op == 0x91 {
        OpCode { instraction: Instruction::Sta, addr_mode: AddressingMode::IndirectIndexedY, cycles: 6 }
    } else if op == 0x92 {
        OpCode { instraction: Instruction::Hlt, addr_mode: AddressingMode::Implicit, cycles: 0 }
    } else if op == 0x93 {
        OpCode { instraction: Instruction::Axa, addr_mode: AddressingMode::IndirectIndexedY, cycles: 6 }
    } else if op == 0x94 {
        OpCode { instraction: Instruction::Sty, addr_mode: AddressingMode::ZeroPageX, cycles: 4 }
    } else if op == 0x95 {
        OpCode { instraction: Instruction::Sta, addr_mode: AddressingMode::ZeroPageX, cycles: 4 }
    } else if op == 0x96 {
        OpCode { instraction: Instruction::Stx, addr_mode: AddressingMode::ZeroPageY, cycles: 4 }
    } else if op == 0x97 {
        OpCode { instraction: Instruction::Sax, addr_mode: AddressingMode::ZeroPageY, cycles: 4 }
    } else if op == 0x98 {
        OpCode { instraction: Instruction::Tya, addr_mode: AddressingMode::Implicit, cycles: 2 }
    } else if op == 0x99 {
        OpCode { instraction: Instruction::Sta, addr_mode: AddressingMode::AbsoluteY, cycles: 5 }
    } else if op == 0x9A {
        OpCode { instraction: Instruction::Txs, addr_mode: AddressingMode::Implicit, cycles: 2 }
    } else if op == 0x9B {
        OpCode { instraction: Instruction::Tas, addr_mode: AddressingMode::AbsoluteY, cycles: 5 }
    } else if op == 0x9C {
        OpCode { instraction: Instruction::Say, addr_mode: AddressingMode::AbsoluteX, cycles: 5 }
    } else if op == 0x9D {
        OpCode { instraction: Instruction::Sta, addr_mode: AddressingMode::AbsoluteX, cycles: 5 }
    } else if op == 0x9E {
        OpCode { instraction: Instruction::Xas, addr_mode: AddressingMode::AbsoluteY, cycles: 5 }
    } else if op == 0x9F {
        OpCode { instraction: Instruction::Axa, addr_mode: AddressingMode::AbsoluteY, cycles: 5 }
    } else if op == 0xA0 {
        OpCode { instraction: Instruction::Ldy, addr_mode: AddressingMode::Immediate, cycles: 2 }
    } else if op == 0xA1 {
        OpCode { instraction: Instruction::Lda, addr_mode: AddressingMode::IndexedIndirectX, cycles: 6 }
    } else if op == 0xA2 {
        OpCode { instraction: Instruction::Ldx, addr_mode: AddressingMode::Immediate, cycles: 2 }
    } else if op == 0xA3 {
        OpCode { instraction: Instruction::Lax, addr_mode: AddressingMode::IndexedIndirectX, cycles: 6 }
    } else if op == 0xA4 {
        OpCode { instraction: Instruction::Ldy, addr_mode: AddressingMode::ZeroPage, cycles: 3 }
    } else if op == 0xA5 {
        OpCode { instraction: Instruction::Lda, addr_mode: AddressingMode::ZeroPage, cycles: 3 }
    } else if op == 0xA6 {
        OpCode { instraction: Instruction::Ldx, addr_mode: AddressingMode::ZeroPage, cycles: 3 }
    } else if op == 0xA7 {
        OpCode { instraction: Instruction::Lax, addr_mode: AddressingMode::ZeroPage, cycles: 3 }
    } else if op == 0xA8 {
        OpCode { instraction: Instruction::Tay, addr_mode: AddressingMode::Implicit, cycles: 2 }
    } else if op == 0xA9 {
        OpCode { instraction: Instruction::Lda, addr_mode: AddressingMode::Immediate, cycles: 2 }
    } else if op == 0xAA {
        OpCode { instraction: Instruction::Tax, addr_mode: AddressingMode::Implicit, cycles: 2 }
    } else if op == 0xAB {
        OpCode { instraction: Instruction::Lax, addr_mode: AddressingMode::Immediate, cycles: 2 }
    } else if op == 0xAC {
        OpCode { instraction: Instruction::Ldy, addr_mode: AddressingMode::Absolute, cycles: 4 }
    } else if op == 0xAD {
        OpCode { instraction: Instruction::Lda, addr_mode: AddressingMode::Absolute, cycles: 4 }
    } else if op == 0xAE {
        OpCode { instraction: Instruction::Ldx, addr_mode: AddressingMode::Absolute, cycles: 4 }
    } else if op == 0xAF {
        OpCode { instraction: Instruction::Lax, addr_mode: AddressingMode::Absolute, cycles: 4 }
    } else if op == 0xB0 {
        OpCode { instraction: Instruction::Bcs, addr_mode: AddressingMode::Relative, cycles: 2 }
    } else if op == 0xB1 {
        OpCode { instraction: Instruction::Lda, addr_mode: AddressingMode::IndirectIndexedY, cycles: 5 }
    } else if op == 0xB2 {
        OpCode { instraction: Instruction::Hlt, addr_mode: AddressingMode::Implicit, cycles: 0 }
    } else if op == 0xB3 {
        OpCode { instraction: Instruction::Lax, addr_mode: AddressingMode::IndirectIndexedY, cycles: 5 }
    } else if op == 0xB4 {
        OpCode { instraction: Instruction::Ldy, addr_mode: AddressingMode::ZeroPageX, cycles: 4 }
    } else if op == 0xB5 {
        OpCode { instraction: Instruction::Lda, addr_mode: AddressingMode::ZeroPageX, cycles: 4 }
    } else if op == 0xB6 {
        OpCode { instraction: Instruction::Ldx, addr_mode: AddressingMode::ZeroPageY, cycles: 4 }
    } else if op == 0xB7 {
        OpCode { instraction: Instruction::Lax, addr_mode: AddressingMode::ZeroPageY, cycles: 4 }
    } else if op == 0xB8 {
        OpCode { instraction: Instruction::Clv, addr_mode: AddressingMode::Implicit, cycles: 2 }
    } else if op == 0xB9 {
        OpCode { instraction: Instruction::Lda, addr_mode: AddressingMode::AbsoluteY, cycles: 4 }
    } else if op == 0xBA {
        OpCode { instraction: Instruction::Tsx, addr_mode: AddressingMode::Implicit, cycles: 2 }
    } else if op == 0xBB {
        OpCode { instraction: Instruction::Las, addr_mode: AddressingMode::AbsoluteY, cycles: 4 }
    } else if op == 0xBC {
        OpCode { instraction: Instruction::Ldy, addr_mode: AddressingMode::AbsoluteX, cycles: 4 }
    } else if op == 0xBD {
        OpCode { instraction: Instruction::Lda, addr_mode: AddressingMode::AbsoluteX, cycles: 4 }
    } else if op == 0xBE {
        OpCode { instraction: Instruction::Ldx, addr_mode: AddressingMode::AbsoluteY, cycles: 4 }
    } else if op == 0xBF {
        OpCode { instraction: Instruction::Lax, addr_mode: AddressingMode::AbsoluteY, cycles: 4 }
    } else if op == 0xC0 {
        OpCode { instraction: Instruction::Cpy, addr_mode: AddressingMode::Immediate, cycles: 2 }
    } else if op == 0xC1 {
        OpCode { instraction: Instruction::Cmp, addr_mode: AddressingMode::IndexedIndirectX, cycles: 6 }
    } else if op == 0xC2 {
        OpCode { instraction: Instruction::Nop, addr_mode: AddressingMode::Immediate, cycles: 2 }
    } else if op == 0xC3 {
        OpCode { instraction: Instruction::Dcm, addr_mode: AddressingMode::IndexedIndirectX, cycles: 8 }
    } else if op == 0xC4 {
        OpCode { instraction: Instruction::Cpy, addr_mode: AddressingMode::ZeroPage, cycles: 3 }
    } else if op == 0xC5 {
        OpCode { instraction: Instruction::Cmp, addr_mode: AddressingMode::ZeroPage, cycles: 3 }
    } else if op == 0xC6 {
        OpCode { instraction: Instruction::Dec, addr_mode: AddressingMode::ZeroPage, cycles: 5 }
    } else if op == 0xC7 {
        OpCode { instraction: Instruction::Dcm, addr_mode: AddressingMode::ZeroPage, cycles: 5 }
    } else if op == 0xC8 {
        OpCode { instraction: Instruction::Iny, addr_mode: AddressingMode::Implicit, cycles: 2 }
    } else if op == 0xC9 {
        OpCode { instraction: Instruction::Cmp, addr_mode: AddressingMode::Immediate, cycles: 2 }
    } else if op == 0xCA {
        OpCode { instraction: Instruction::Dex, addr_mode: AddressingMode::Implicit, cycles: 2 }
    } else if op == 0xCB {
        OpCode { instraction: Instruction::Axs, addr_mode: AddressingMode::Immediate, cycles: 2 }
    } else if op == 0xCC {
        OpCode { instraction: Instruction::Cpy, addr_mode: AddressingMode::Absolute, cycles: 4 }
    } else if op == 0xCD {
        OpCode { instraction: Instruction::Cmp, addr_mode: AddressingMode::Absolute, cycles: 4 }
    } else if op == 0xCE {
        OpCode { instraction: Instruction::Dec, addr_mode: AddressingMode::Absolute, cycles: 6 }
    } else if op == 0xCF {
        OpCode { instraction: Instruction::Dcm, addr_mode: AddressingMode::Absolute, cycles: 6 }
    } else if op == 0xD0 {
        OpCode { instraction: Instruction::Bne, addr_mode: AddressingMode::Relative, cycles: 2 }
    } else if op == 0xD1 {
        OpCode { instraction: Instruction::Cmp, addr_mode: AddressingMode::IndirectIndexedY, cycles: 5 }
    } else if op == 0xD2 {
        OpCode { instraction: Instruction::Hlt, addr_mode: AddressingMode::Implicit, cycles: 0 }
    } else if op == 0xD3 {
        OpCode { instraction: Instruction::Dcm, addr_mode: AddressingMode::IndirectIndexedY, cycles: 8 }
    } else if op == 0xD4 {
        OpCode { instraction: Instruction::Nop, addr_mode: AddressingMode::ZeroPageX, cycles: 4 }
    } else if op == 0xD5 {
        OpCode { instraction: Instruction::Cmp, addr_mode: AddressingMode::ZeroPageX, cycles: 4 }
    } else if op == 0xD6 {
        OpCode { instraction: Instruction::Dec, addr_mode: AddressingMode::ZeroPageX, cycles: 6 }
    } else if op == 0xD7 {
        OpCode { instraction: Instruction::Dcm, addr_mode: AddressingMode::ZeroPageX, cycles: 6 }
    } else if op == 0xD8 {
        OpCode { instraction: Instruction::Cld, addr_mode: AddressingMode::Implicit, cycles: 2 }
    } else if op == 0xD9 {
        OpCode { instraction: Instruction::Cmp, addr_mode: AddressingMode::AbsoluteY, cycles: 4 }
    } else if op == 0xDA {
        OpCode { instraction: Instruction::Nop, addr_mode: AddressingMode::Implicit, cycles: 2 }
    } else if op == 0xDB {
        OpCode { instraction: Instruction::Dcm, addr_mode: AddressingMode::AbsoluteY, cycles: 7 }
    } else if op == 0xDC {
        OpCode { instraction: Instruction::Nop, addr_mode: AddressingMode::AbsoluteX, cycles: 4 }
    } else if op == 0xDD {
        OpCode { instraction: Instruction::Cmp, addr_mode: AddressingMode::AbsoluteX, cycles: 4 }
    } else if op == 0xDE {
        OpCode { instraction: Instruction::Dec, addr_mode: AddressingMode::AbsoluteX, cycles: 7 }
    } else if op == 0xDF {
        OpCode { instraction: Instruction::Dcm, addr_mode: AddressingMode::AbsoluteX, cycles: 7 }
    } else if op == 0xE0 {
        OpCode { instraction: Instruction::Cpx, addr_mode: AddressingMode::Immediate, cycles: 2 }
    } else if op == 0xE1 {
        OpCode { instraction: Instruction::Sbc, addr_mode: AddressingMode::IndexedIndirectX, cycles: 6 }
    } else if op == 0xE2 {
        OpCode { instraction: Instruction::Nop, addr_mode: AddressingMode::Immediate, cycles: 2 }
    } else if op == 0xE3 {
        OpCode { instraction: Instruction::Ins, addr_mode: AddressingMode::IndexedIndirectX, cycles: 8 }
    } else if op == 0xE4 {
        OpCode { instraction: Instruction::Cpx, addr_mode: AddressingMode::ZeroPage, cycles: 3 }
    } else if op == 0xE5 {
        OpCode { instraction: Instruction::Sbc, addr_mode: AddressingMode::ZeroPage, cycles: 3 }
    } else if op == 0xE6 {
        OpCode { instraction: Instruction::Inc, addr_mode: AddressingMode::ZeroPage, cycles: 5 }
    } else if op == 0xE7 {
        OpCode { instraction: Instruction::Ins, addr_mode: AddressingMode::ZeroPage, cycles: 5 }
    } else if op == 0xE8 {
        OpCode { instraction: Instruction::Inx, addr_mode: AddressingMode::Implicit, cycles: 2 }
    } else if op == 0xE9 {
        OpCode { instraction: Instruction::Sbc, addr_mode: AddressingMode::Immediate, cycles: 2 }
    } else if op == 0xEA {
        OpCode { instraction: Instruction::Nop, addr_mode: AddressingMode::Implicit, cycles: 2 }
    } else if op == 0xEB {
        OpCode { instraction: Instruction::Sbc, addr_mode: AddressingMode::Immediate, cycles: 2 }
    } else if op == 0xEC {
        OpCode { instraction: Instruction::Cpx, addr_mode: AddressingMode::Absolute, cycles: 4 }
    } else if op == 0xED {
        OpCode { instraction: Instruction::Sbc, addr_mode: AddressingMode::Absolute, cycles: 4 }
    } else if op == 0xEE {
        OpCode { instraction: Instruction::Inc, addr_mode: AddressingMode::Absolute, cycles: 6 }
    } else if op == 0xEF {
        OpCode { instraction: Instruction::Ins, addr_mode: AddressingMode::Absolute, cycles: 6 }
    } else if op == 0xF0 {
        OpCode { instraction: Instruction::Beq, addr_mode: AddressingMode::Relative, cycles: 2 }
    } else if op == 0xF1 {
        OpCode { instraction: Instruction::Sbc, addr_mode: AddressingMode::IndirectIndexedY, cycles: 5 }
    } else if op == 0xF2 {
        OpCode { instraction: Instruction::Hlt, addr_mode: AddressingMode::Implicit, cycles: 0 }
    } else if op == 0xF3 {
        OpCode { instraction: Instruction::Ins, addr_mode: AddressingMode::IndirectIndexedY, cycles: 8 }
    } else if op == 0xF4 {
        OpCode { instraction: Instruction::Nop, addr_mode: AddressingMode::ZeroPageX, cycles: 4 }
    } else if op == 0xF5 {
        OpCode { instraction: Instruction::Sbc, addr_mode: AddressingMode::ZeroPageX, cycles: 4 }
    } else if op == 0xF6 {
        OpCode { instraction: Instruction::Inc, addr_mode: AddressingMode::ZeroPageX, cycles: 6 }
    } else if op == 0xF7 {
        OpCode { instraction: Instruction::Ins, addr_mode: AddressingMode::ZeroPageX, cycles: 6 }
    } else if op == 0xF8 {
        OpCode { instraction: Instruction::Sed, addr_mode: AddressingMode::Implicit, cycles: 2 }
    } else if op == 0xF9 {
        OpCode { instraction: Instruction::Sbc, addr_mode: AddressingMode::AbsoluteY, cycles: 4 }
    } else if op == 0xFA {
        OpCode { instraction: Instruction::Nop, addr_mode: AddressingMode::Implicit, cycles: 2 }
    } else if op == 0xFB {
        OpCode { instraction: Instruction::Ins, addr_mode: AddressingMode::AbsoluteY, cycles: 7 }
    } else if op == 0xFC {
        OpCode { instraction: Instruction::Nop, addr_mode: AddressingMode::AbsoluteX, cycles: 4 }
    } else if op == 0xFD {
        OpCode { instraction: Instruction::Sbc, addr_mode: AddressingMode::AbsoluteX, cycles: 4 }
    } else if op == 0xFE {
        OpCode { instraction: Instruction::Inc, addr_mode: AddressingMode::AbsoluteX, cycles: 7 }
    } else {
        OpCode { instraction: Instruction::Ins, addr_mode: AddressingMode::AbsoluteX, cycles: 7 }
    }
}

} // verus!
