//! The opcode table: the closed set of documented instructions, the byte
//! that encodes each, and what each does and how it finds its operand.

use vstd::prelude::*;
use crate::cpu::Byte;

verus! {

/// Why a byte could not be decoded.
#[derive(Debug, Clone, Copy, PartialEq, Eq, Structural)]
pub enum InstructionsError {
    /// The byte encodes no documented instruction.
    InstructionDoesntExist(Byte),
}

/// Every documented instruction, one variant per opcode byte.
#[derive(Debug, Clone, Copy, PartialEq, Eq, Structural)]
pub enum Instruction {
    // LDA
    InsLdaIm,
    InsLdaZp,
    InsLdaZpX,
    InsLdaAbs,
    InsLdaAbsX,
    InsLdaAbsY,
    InsLdaIndX,
    InsLdaIndY,
    // LDX
    InsLdxIm,
    InsLdxZp,
    InsLdxZpy,
    InsLdxAbs,
    InsLdxAbsY,
    // LDY
    InsLdyIm,
    InsLdyZp,
    InsLdyZpX,
    InsLdyAbs,
    InsLdyAbsX,
    // Jumps
    InsJsr,
    InsRts,
    InsJmpAbs,
    InsJmpInd,
    // STA
    InsStaZp,
    InsStaZpX,
    InsStaAbs,
    InsStaAbsX,
    InsStaAbsY,
    InsStaIndX,
    InsStaIndY,
    // STX
    InsStxZp,
    InsStxZpY,
    InsStxAbs,
    // STY
    InsStyZp,
    InsStyZpX,
    InsStyAbs,
    // Transfer stack pointer
    InsTsx,
    InsTxs,
    InsPha,
    InsPhp,
    InsPla,
    InsPlp,
    // AND
    InsAndIm,
    InsAndZp,
    InsAndZpX,
    InsAndAbs,
    InsAndAbsX,
    InsAndAbsY,
    InsAndIndX,
    InsAndIndY,
    // EOR
    InsEorIm,
    InsEorZp,
    InsEorZpX,
    InsEorAbs,
    InsEorAbsX,
    InsEorAbsY,
    InsEorIndX,
    InsEorIndY,
    // ORA
    InsOraIm,
    InsOraZp,
    InsOraZpX,
    InsOraAbs,
    InsOraAbsX,
    InsOraAbsY,
    InsOraIndX,
    InsOraIndY,
    // BIT
    InsBitZp,
    InsBitAbs,
    // Transfer
    InsTax,
    InsTay,
    InsTxa,
    InsTya,
    // Increments
    InsInx,
    InsIny,
    // Decrements
    InsDex,
    InsDey,
    // DEC
    InsDecZp,
    InsDecZpX,
    InsDecAbs,
    InsDecAbsX,
    // INC
    InsIncZp,
    InsIncZpX,
    InsIncAbs,
    InsIncAbsX,
    // Branch
    InsBeq,
    InsBne,
    InsBcs,
    InsBcc,
    InsBmi,
    InsBpl,
    InsBvs,
    InsBvc,
    // Status flags
    InsClc,
    InsSec,
    InsCld,
    InsSed,
    InsCli,
    InsSei,
    InsClv,
    // Misc
    InsNop,
    // ADC
    InsAdcIm,
    InsAdcZp,
    InsAdcZpX,
    InsAdcAbs,
    InsAdcAbsX,
    InsAdcAbsY,
    InsAdcIndX,
    InsAdcIndY,
    // SBC
    InsSbcIm,
    InsSbcZp,
    InsSbcZpX,
    InsSbcAbs,
    InsSbcAbsX,
    InsSbcAbsY,
    InsSbcIndX,
    InsSbcIndY,
    // CMP
    InsCmpIm,
    InsCmpZp,
    InsCmpZpX,
    InsCmpAbs,
    InsCmpAbsX,
    InsCmpAbsY,
    InsCmpIndX,
    InsCmpIndY,
    // CPX
    InsCpxIm,
    InsCpxZp,
    InsCpxAbs,
    // CPY
    InsCpyIm,
    InsCpyZp,
    InsCpyAbs,
    // ASL
    InsAslA,
    InsAslZp,
    InsAslZpX,
    InsAslAbs,
    InsAslAbsX,
    // LSR
    InsLsrA,
    InsLsrZp,
    InsLsrZpX,
    InsLsrAbs,
    InsLsrAbsX,
    // ROL
    InsRolA,
    InsRolZp,
    InsRolZpX,
    InsRolAbs,
    InsRolAbsX,
    // ROR
    InsRorA,
    InsRorZp,
    InsRorZpX,
    InsRorAbs,
    InsRorAbsX,
    // System
    InsBrk,
    InsRti,
}

/// What an instruction does, apart from where its operand lies.
#[derive(Debug, Clone, Copy, PartialEq, Eq, Structural)]
pub enum Operation {
    Lda,
    Ldx,
    Ldy,
    Sta,
    Stx,
    Sty,
    Tax,
    Tay,
    Txa,
    Tya,
    Tsx,
    Txs,
    Pha,
    Php,
    Pla,
    Plp,
    And,
    Eor,
    Ora,
    Bit,
    Adc,
    Sbc,
    Cmp,
    Cpx,
    Cpy,
    Asl,
    Lsr,
    Rol,
    Ror,
    Inc,
    Dec,
    Inx,
    Iny,
    Dex,
    Dey,
    Beq,
    Bne,
    Bcs,
    Bcc,
    Bmi,
    Bpl,
    Bvs,
    Bvc,
    Jmp,
    Jsr,
    Rts,
    Clc,
    Sec,
    Cld,
    Sed,
    Cli,
    Sei,
    Clv,
    Nop,
    Brk,
    Rti,
}

/// How an instruction finds its operand.
#[derive(Debug, Clone, Copy, PartialEq, Eq, Structural)]
pub enum AddressingMode {
    /// The operand is the byte after the opcode.
    Immediate,
    /// The byte after the opcode is an address in page zero.
    ZeroPage,
    /// Page-zero address plus X, wrapping within page zero.
    ZeroPageX,
    /// Page-zero address plus Y, wrapping within page zero.
    ZeroPageY,
    /// The two bytes after the opcode are the address, low byte first.
    Absolute,
    /// Absolute address plus X.
    AbsoluteX,
    /// Absolute address plus Y.
    AbsoluteY,
    /// The address is read from page zero at the operand plus X.
    IndexedIndirect,
    /// The address is read from page zero at the operand, then Y is added.
    IndirectIndexed,
    /// A signed offset from the program counter; branches only.
    Relative,
    /// The address is read from the absolute address; `JMP` only.
    Indirect,
    /// No operand.
    Implied,
    /// The operand is the accumulator.
    Accumulator,
}

impl Instruction {
    /// The byte that encodes this instruction.
    pub open spec fn spec_opcode(self) -> u8 {
        match self {
            // LDA
            Instruction::InsLdaIm => 0xA9,
            Instruction::InsLdaZp => 0xA5,
            Instruction::InsLdaZpX => 0xB5,
            Instruction::InsLdaAbs => 0xAD,
            Instruction::InsLdaAbsX => 0xBD,
            Instruction::InsLdaAbsY => 0xB9,
            Instruction::InsLdaIndX => 0xA1,
            Instruction::InsLdaIndY => 0xB1,
            // LDX
            Instruction::InsLdxIm => 0xA2,
            Instruction::InsLdxZp => 0xA6,
            Instruction::InsLdxZpy => 0xB6,
            Instruction::InsLdxAbs => 0xAE,
            Instruction::InsLdxAbsY => 0xBE,
            // LDY
            Instruction::InsLdyIm => 0xA0,
            Instruction::InsLdyZp => 0xA4,
            Instruction::InsLdyZpX => 0xB4,
            Instruction::InsLdyAbs => 0xAC,
            Instruction::InsLdyAbsX => 0xBC,
            // Jumps
            Instruction::InsJsr => 0x20,
            Instruction::InsRts => 0x60,
            Instruction::InsJmpAbs => 0x4C,
            Instruction::InsJmpInd => 0x6C,
            // STA
            Instruction::InsStaZp => 0x85,
            Instruction::InsStaZpX => 0x95,
            Instruction::InsStaAbs => 0x8D,
            Instruction::InsStaAbsX => 0x9D,
            Instruction::InsStaAbsY => 0x99,
            Instruction::InsStaIndX => 0x81,
            Instruction::InsStaIndY => 0x91,
            // STX
            Instruction::InsStxZp => 0x86,
            Instruction::InsStxZpY => 0x96,
            Instruction::InsStxAbs => 0x8E,
            // STY
            Instruction::InsStyZp => 0x84,
            Instruction::InsStyZpX => 0x94,
            Instruction::InsStyAbs => 0x8C,
            // Transfer stack pointer
            Instruction::InsTsx => 0xBA,
            Instruction::InsTxs => 0x9A,
            Instruction::InsPha => 0x48,
            Instruction::InsPhp => 0x08,
            Instruction::InsPla => 0x68,
            Instruction::InsPlp => 0x28,
            // AND
            Instruction::InsAndIm => 0x29,
            Instruction::InsAndZp => 0x25,
            Instruction::InsAndZpX => 0x35,
            Instruction::InsAndAbs => 0x2D,
            Instruction::InsAndAbsX => 0x3D,
            Instruction::InsAndAbsY => 0x39,
            Instruction::InsAndIndX => 0x21,
            Instruction::InsAndIndY => 0x31,
            // EOR
            Instruction::InsEorIm => 0x49,
            Instruction::InsEorZp => 0x45,
            Instruction::InsEorZpX => 0x55,
            Instruction::InsEorAbs => 0x4D,
            Instruction::InsEorAbsX => 0x5D,
            Instruction::InsEorAbsY => 0x59,
            Instruction::InsEorIndX => 0x41,
            Instruction::InsEorIndY => 0x51,
            // ORA
            Instruction::InsOraIm => 0x09,
            Instruction::InsOraZp => 0x05,
            Instruction::InsOraZpX => 0x15,
            Instruction::InsOraAbs => 0x0D,
            Instruction::InsOraAbsX => 0x1D,
            Instruction::InsOraAbsY => 0x19,
            Instruction::InsOraIndX => 0x01,
            Instruction::InsOraIndY => 0x11,
            // BIT
            Instruction::InsBitZp => 0x24,
            Instruction::InsBitAbs => 0x2C,
            // Transfer
            Instruction::InsTax => 0xAA,
            Instruction::InsTay => 0xA8,
            Instruction::InsTxa => 0x8A,
            Instruction::InsTya => 0x98,
            // Increments
            Instruction::InsInx => 0xE8,
            Instruction::InsIny => 0xC8,
            // Decrements
            Instruction::InsDex => 0xCA,
            Instruction::InsDey => 0x88,
            // DEC
            Instruction::InsDecZp => 0xC6,
            Instruction::InsDecZpX => 0xD6,
            Instruction::InsDecAbs => 0xCE,
            Instruction::InsDecAbsX => 0xDE,
            // INC
            Instruction::InsIncZp => 0xE6,
            Instruction::InsIncZpX => 0xF6,
            Instruction::InsIncAbs => 0xEE,
            Instruction::InsIncAbsX => 0xFE,
            // Branch
            Instruction::InsBeq => 0xF0,
            Instruction::InsBne => 0xD0,
            Instruction::InsBcs => 0xB0,
            Instruction::InsBcc => 0x90,
            Instruction::InsBmi => 0x30,
            Instruction::InsBpl => 0x10,
            Instruction::InsBvs => 0x70,
            Instruction::InsBvc => 0x50,
            // Status flags
            Instruction::InsClc => 0x18,
            Instruction::InsSec => 0x38,
            Instruction::InsCld => 0xD8,
            Instruction::InsSed => 0xF8,
            Instruction::InsCli => 0x58,
            Instruction::InsSei => 0x78,
            Instruction::InsClv => 0xB8,
            // Misc
            Instruction::InsNop => 0xEA,
            // ADC
            Instruction::InsAdcIm => 0x69,
            Instruction::InsAdcZp => 0x65,
            Instruction::InsAdcZpX => 0x75,
            Instruction::InsAdcAbs => 0x6D,
            Instruction::InsAdcAbsX => 0x7D,
            Instruction::InsAdcAbsY => 0x79,
            Instruction::InsAdcIndX => 0x61,
            Instruction::InsAdcIndY => 0x71,
            // SBC
            Instruction::InsSbcIm => 0xE9,
            Instruction::InsSbcZp => 0xE5,
            Instruction::InsSbcZpX => 0xF5,
            Instruction::InsSbcAbs => 0xED,
            Instruction::InsSbcAbsX => 0xFD,
            Instruction::InsSbcAbsY => 0xF9,
            Instruction::InsSbcIndX => 0xE1,
            Instruction::InsSbcIndY => 0xF1,
            // CMP
            Instruction::InsCmpIm => 0xC9,
            Instruction::InsCmpZp => 0xC5,
            Instruction::InsCmpZpX => 0xD5,
            Instruction::InsCmpAbs => 0xCD,
            Instruction::InsCmpAbsX => 0xDD,
            Instruction::InsCmpAbsY => 0xD9,
            Instruction::InsCmpIndX => 0xC1,
            Instruction::InsCmpIndY => 0xD1,
            // CPX
            Instruction::InsCpxIm => 0xE0,
            Instruction::InsCpxZp => 0xE4,
            Instruction::InsCpxAbs => 0xEC,
            // CPY
            Instruction::InsCpyIm => 0xC0,
            Instruction::InsCpyZp => 0xC4,
            Instruction::InsCpyAbs => 0xCC,
            // ASL
            Instruction::InsAslA => 0x0A,
            Instruction::InsAslZp => 0x06,
            Instruction::InsAslZpX => 0x16,
            Instruction::InsAslAbs => 0x0E,
            Instruction::InsAslAbsX => 0x1E,
            // LSR
            Instruction::InsLsrA => 0x4A,
            Instruction::InsLsrZp => 0x46,
            Instruction::InsLsrZpX => 0x56,
            Instruction::InsLsrAbs => 0x4E,
            Instruction::InsLsrAbsX => 0x5E,
            // ROL
            Instruction::InsRolA => 0x2A,
            Instruction::InsRolZp => 0x26,
            Instruction::InsRolZpX => 0x36,
            Instruction::InsRolAbs => 0x2E,
            Instruction::InsRolAbsX => 0x3E,
            // ROR
            Instruction::InsRorA => 0x6A,
            Instruction::InsRorZp => 0x66,
            Instruction::InsRorZpX => 0x76,
            Instruction::InsRorAbs => 0x6E,
            Instruction::InsRorAbsX => 0x7E,
            // System
            Instruction::InsBrk => 0x00,
            Instruction::InsRti => 0x40,
        }
    }

    /// What the instruction does.
    pub open spec fn spec_operation(self) -> Operation {
        match self {
            Instruction::InsLdaIm | Instruction::InsLdaZp | Instruction::InsLdaZpX
            | Instruction::InsLdaAbs | Instruction::InsLdaAbsX | Instruction::InsLdaAbsY
            | Instruction::InsLdaIndX | Instruction::InsLdaIndY => Operation::Lda,
            Instruction::InsLdxIm | Instruction::InsLdxZp | Instruction::InsLdxZpy
            | Instruction::InsLdxAbs | Instruction::InsLdxAbsY => Operation::Ldx,
            Instruction::InsLdyIm | Instruction::InsLdyZp | Instruction::InsLdyZpX
            | Instruction::InsLdyAbs | Instruction::InsLdyAbsX => Operation::Ldy,
            Instruction::InsStaZp | Instruction::InsStaZpX | Instruction::InsStaAbs
            | Instruction::InsStaAbsX | Instruction::InsStaAbsY | Instruction::InsStaIndX
            | Instruction::InsStaIndY => Operation::Sta,
            Instruction::InsStxZp | Instruction::InsStxZpY
            | Instruction::InsStxAbs => Operation::Stx,
            Instruction::InsStyZp | Instruction::InsStyZpX
            | Instruction::InsStyAbs => Operation::Sty,
            Instruction::InsTax => Operation::Tax,
            Instruction::InsTay => Operation::Tay,
            Instruction::InsTxa => Operation::Txa,
            Instruction::InsTya => Operation::Tya,
            Instruction::InsTsx => Operation::Tsx,
            Instruction::InsTxs => Operation::Txs,
            Instruction::InsPha => Operation::Pha,
            Instruction::InsPhp => Operation::Php,
            Instruction::InsPla => Operation::Pla,
            Instruction::InsPlp => Operation::Plp,
            Instruction::InsAndIm | Instruction::InsAndZp | Instruction::InsAndZpX
            | Instruction::InsAndAbs | Instruction::InsAndAbsX | Instruction::InsAndAbsY
            | Instruction::InsAndIndX | Instruction::InsAndIndY => Operation::And,
            Instruction::InsEorIm | Instruction::InsEorZp | Instruction::InsEorZpX
            | Instruction::InsEorAbs | Instruction::InsEorAbsX | Instruction::InsEorAbsY
            | Instruction::InsEorIndX | Instruction::InsEorIndY => Operation::Eor,
            Instruction::InsOraIm | Instruction::InsOraZp | Instruction::InsOraZpX
            | Instruction::InsOraAbs | Instruction::InsOraAbsX | Instruction::InsOraAbsY
            | Instruction::InsOraIndX | Instruction::InsOraIndY => Operation::Ora,
            Instruction::InsBitZp | Instruction::InsBitAbs => Operation::Bit,
            Instruction::InsAdcIm | Instruction::InsAdcZp | Instruction::InsAdcZpX
            | Instruction::InsAdcAbs | Instruction::InsAdcAbsX | Instruction::InsAdcAbsY
            | Instruction::InsAdcIndX | Instruction::InsAdcIndY => Operation::Adc,
            Instruction::InsSbcIm | Instruction::InsSbcZp | Instruction::InsSbcZpX
            | Instruction::InsSbcAbs | Instruction::InsSbcAbsX | Instruction::InsSbcAbsY
            | Instruction::InsSbcIndX | Instruction::InsSbcIndY => Operation::Sbc,
            Instruction::InsCmpIm | Instruction::InsCmpZp | Instruction::InsCmpZpX
            | Instruction::InsCmpAbs | Instruction::InsCmpAbsX | Instruction::InsCmpAbsY
            | Instruction::InsCmpIndX | Instruction::InsCmpIndY => Operation::Cmp,
            Instruction::InsCpxIm | Instruction::InsCpxZp
            | Instruction::InsCpxAbs => Operation::Cpx,
            Instruction::InsCpyIm | Instruction::InsCpyZp
            | Instruction::InsCpyAbs => Operation::Cpy,
            Instruction::InsAslA | Instruction::InsAslZp | Instruction::InsAslZpX
            | Instruction::InsAslAbs | Instruction::InsAslAbsX => Operation::Asl,
            Instruction::InsLsrA | Instruction::InsLsrZp | Instruction::InsLsrZpX
            | Instruction::InsLsrAbs | Instruction::InsLsrAbsX => Operation::Lsr,
            Instruction::InsRolA | Instruction::InsRolZp | Instruction::InsRolZpX
            | Instruction::InsRolAbs | Instruction::InsRolAbsX => Operation::Rol,
            Instruction::InsRorA | Instruction::InsRorZp | Instruction::InsRorZpX
            | Instruction::InsRorAbs | Instruction::InsRorAbsX => Operation::Ror,
            Instruction::InsIncZp | Instruction::InsIncZpX | Instruction::InsIncAbs
            | Instruction::InsIncAbsX => Operation::Inc,
            Instruction::InsDecZp | Instruction::InsDecZpX | Instruction::InsDecAbs
            | Instruction::InsDecAbsX => Operation::Dec,
            Instruction::InsInx => Operation::Inx,
            Instruction::InsIny => Operation::Iny,
            Instruction::InsDex => Operation::Dex,
            Instruction::InsDey => Operation::Dey,
            Instruction::InsBeq => Operation::Beq,
            Instruction::InsBne => Operation::Bne,
            Instruction::InsBcs => Operation::Bcs,
            Instruction::InsBcc => Operation::Bcc,
            Instruction::InsBmi => Operation::Bmi,
            Instruction::InsBpl => Operation::Bpl,
            Instruction::InsBvs => Operation::Bvs,
            Instruction::InsBvc => Operation::Bvc,
            Instruction::InsJmpAbs | Instruction::InsJmpInd => Operation::Jmp,
            Instruction::InsJsr => Operation::Jsr,
            Instruction::InsRts => Operation::Rts,
            Instruction::InsClc => Operation::Clc,
            Instruction::InsSec => Operation::Sec,
            Instruction::InsCld => Operation::Cld,
            Instruction::InsSed => Operation::Sed,
            Instruction::InsCli => Operation::Cli,
            Instruction::InsSei => Operation::Sei,
            Instruction::InsClv => Operation::Clv,
            Instruction::InsNop => Operation::Nop,
            Instruction::InsBrk => Operation::Brk,
            Instruction::InsRti => Operation::Rti,
        }
    }

    /// How the instruction finds its operand.
    pub open spec fn spec_mode(self) -> AddressingMode {
        match self {
            Instruction::InsLdaIm | Instruction::InsLdxIm | Instruction::InsLdyIm
            | Instruction::InsAndIm | Instruction::InsEorIm | Instruction::InsOraIm
            | Instruction::InsAdcIm | Instruction::InsSbcIm | Instruction::InsCmpIm
            | Instruction::InsCpxIm | Instruction::InsCpyIm => AddressingMode::Immediate,
            Instruction::InsLdaZp | Instruction::InsLdxZp | Instruction::InsLdyZp
            | Instruction::InsStaZp | Instruction::InsStxZp | Instruction::InsStyZp
            | Instruction::InsAndZp | Instruction::InsEorZp | Instruction::InsOraZp
            | Instruction::InsBitZp | Instruction::InsDecZp | Instruction::InsIncZp
            | Instruction::InsAdcZp | Instruction::InsSbcZp | Instruction::InsCmpZp
            | Instruction::InsCpxZp | Instruction::InsCpyZp | Instruction::InsAslZp
            | Instruction::InsLsrZp | Instruction::InsRolZp
            | Instruction::InsRorZp => AddressingMode::ZeroPage,
            Instruction::InsLdaZpX | Instruction::InsLdyZpX | Instruction::InsStaZpX
            | Instruction::InsStyZpX | Instruction::InsAndZpX | Instruction::InsEorZpX
            | Instruction::InsOraZpX | Instruction::InsDecZpX | Instruction::InsIncZpX
            | Instruction::InsAdcZpX | Instruction::InsSbcZpX | Instruction::InsCmpZpX
            | Instruction::InsAslZpX | Instruction::InsLsrZpX | Instruction::InsRolZpX
            | Instruction::InsRorZpX => AddressingMode::ZeroPageX,
            Instruction::InsLdxZpy | Instruction::InsStxZpY => AddressingMode::ZeroPageY,
            Instruction::InsLdaAbs | Instruction::InsLdxAbs | Instruction::InsLdyAbs
            | Instruction::InsJsr | Instruction::InsJmpAbs | Instruction::InsStaAbs
            | Instruction::InsStxAbs | Instruction::InsStyAbs | Instruction::InsAndAbs
            | Instruction::InsEorAbs | Instruction::InsOraAbs | Instruction::InsBitAbs
            | Instruction::InsDecAbs | Instruction::InsIncAbs | Instruction::InsAdcAbs
            | Instruction::InsSbcAbs | Instruction::InsCmpAbs | Instruction::InsCpxAbs
            | Instruction::InsCpyAbs | Instruction::InsAslAbs | Instruction::InsLsrAbs
            | Instruction::InsRolAbs | Instruction::InsRorAbs => AddressingMode::Absolute,
            Instruction::InsLdaAbsX | Instruction::InsLdyAbsX | Instruction::InsStaAbsX
            | Instruction::InsAndAbsX | Instruction::InsEorAbsX | Instruction::InsOraAbsX
            | Instruction::InsDecAbsX | Instruction::InsIncAbsX | Instruction::InsAdcAbsX
            | Instruction::InsSbcAbsX | Instruction::InsCmpAbsX | Instruction::InsAslAbsX
            | Instruction::InsLsrAbsX | Instruction::InsRolAbsX
            | Instruction::InsRorAbsX => AddressingMode::AbsoluteX,
            Instruction::InsLdaAbsY | Instruction::InsLdxAbsY | Instruction::InsStaAbsY
            | Instruction::InsAndAbsY | Instruction::InsEorAbsY | Instruction::InsOraAbsY
            | Instruction::InsAdcAbsY | Instruction::InsSbcAbsY
            | Instruction::InsCmpAbsY => AddressingMode::AbsoluteY,
            Instruction::InsLdaIndX | Instruction::InsStaIndX | Instruction::InsAndIndX
            | Instruction::InsEorIndX | Instruction::InsOraIndX | Instruction::InsAdcIndX
            | Instruction::InsSbcIndX | Instruction::InsCmpIndX => AddressingMode::IndexedIndirect,
            Instruction::InsLdaIndY | Instruction::InsStaIndY | Instruction::InsAndIndY
            | Instruction::InsEorIndY | Instruction::InsOraIndY | Instruction::InsAdcIndY
            | Instruction::InsSbcIndY | Instruction::InsCmpIndY => AddressingMode::IndirectIndexed,
            Instruction::InsBeq | Instruction::InsBne | Instruction::InsBcs
            | Instruction::InsBcc | Instruction::InsBmi | Instruction::InsBpl
            | Instruction::InsBvs | Instruction::InsBvc => AddressingMode::Relative,
            Instruction::InsJmpInd => AddressingMode::Indirect,
            Instruction::InsRts | Instruction::InsTsx | Instruction::InsTxs
            | Instruction::InsPha | Instruction::InsPhp | Instruction::InsPla
            | Instruction::InsPlp | Instruction::InsTax | Instruction::InsTay
            | Instruction::InsTxa | Instruction::InsTya | Instruction::InsInx
            | Instruction::InsIny | Instruction::InsDex | Instruction::InsDey
            | Instruction::InsClc | Instruction::InsSec | Instruction::InsCld
            | Instruction::InsSed | Instruction::InsCli | Instruction::InsSei
            | Instruction::InsClv | Instruction::InsNop | Instruction::InsBrk
            | Instruction::InsRti => AddressingMode::Implied,
            Instruction::InsAslA | Instruction::InsLsrA | Instruction::InsRolA
            | Instruction::InsRorA => AddressingMode::Accumulator,
        }
    }

    /// The byte that encodes this instruction.
    #[verifier::when_used_as_spec(spec_opcode)]
    pub fn opcode(self) -> (byte: u8)
        ensures
            byte == self.spec_opcode(),
    {
        match self {
            // LDA
            Instruction::InsLdaIm => 0xA9,
            Instruction::InsLdaZp => 0xA5,
            Instruction::InsLdaZpX => 0xB5,
            Instruction::InsLdaAbs => 0xAD,
            Instruction::InsLdaAbsX => 0xBD,
            Instruction::InsLdaAbsY => 0xB9,
            Instruction::InsLdaIndX => 0xA1,
            Instruction::InsLdaIndY => 0xB1,
            // LDX
            Instruction::InsLdxIm => 0xA2,
            Instruction::InsLdxZp => 0xA6,
            Instruction::InsLdxZpy => 0xB6,
            Instruction::InsLdxAbs => 0xAE,
            Instruction::InsLdxAbsY => 0xBE,
            // LDY
            Instruction::InsLdyIm => 0xA0,
            Instruction::InsLdyZp => 0xA4,
            Instruction::InsLdyZpX => 0xB4,
            Instruction::InsLdyAbs => 0xAC,
            Instruction::InsLdyAbsX => 0xBC,
            // Jumps
            Instruction::InsJsr => 0x20,
            Instruction::InsRts => 0x60,
            Instruction::InsJmpAbs => 0x4C,
            Instruction::InsJmpInd => 0x6C,
            // STA
            Instruction::InsStaZp => 0x85,
            Instruction::InsStaZpX => 0x95,
            Instruction::InsStaAbs => 0x8D,
            Instruction::InsStaAbsX => 0x9D,
            Instruction::InsStaAbsY => 0x99,
            Instruction::InsStaIndX => 0x81,
            Instruction::InsStaIndY => 0x91,
            // STX
            Instruction::InsStxZp => 0x86,
            Instruction::InsStxZpY => 0x96,
            Instruction::InsStxAbs => 0x8E,
            // STY
            Instruction::InsStyZp => 0x84,
            Instruction::InsStyZpX => 0x94,
            Instruction::InsStyAbs => 0x8C,
            // Transfer stack pointer
            Instruction::InsTsx => 0xBA,
            Instruction::InsTxs => 0x9A,
            Instruction::InsPha => 0x48,
            Instruction::InsPhp => 0x08,
            Instruction::InsPla => 0x68,
            Instruction::InsPlp => 0x28,
            // AND
            Instruction::InsAndIm => 0x29,
            Instruction::InsAndZp => 0x25,
            Instruction::InsAndZpX => 0x35,
            Instruction::InsAndAbs => 0x2D,
            Instruction::InsAndAbsX => 0x3D,
            Instruction::InsAndAbsY => 0x39,
            Instruction::InsAndIndX => 0x21,
            Instruction::InsAndIndY => 0x31,
            // EOR
            Instruction::InsEorIm => 0x49,
            Instruction::InsEorZp => 0x45,
            Instruction::InsEorZpX => 0x55,
            Instruction::InsEorAbs => 0x4D,
            Instruction::InsEorAbsX => 0x5D,
            Instruction::InsEorAbsY => 0x59,
            Instruction::InsEorIndX => 0x41,
            Instruction::InsEorIndY => 0x51,
            // ORA
            Instruction::InsOraIm => 0x09,
            Instruction::InsOraZp => 0x05,
            Instruction::InsOraZpX => 0x15,
            Instruction::InsOraAbs => 0x0D,
            Instruction::InsOraAbsX => 0x1D,
            Instruction::InsOraAbsY => 0x19,
            Instruction::InsOraIndX => 0x01,
            Instruction::InsOraIndY => 0x11,
            // BIT
            Instruction::InsBitZp => 0x24,
            Instruction::InsBitAbs => 0x2C,
            // Transfer
            Instruction::InsTax => 0xAA,
            Instruction::InsTay => 0xA8,
            Instruction::InsTxa => 0x8A,
            Instruction::InsTya => 0x98,
            // Increments
            Instruction::InsInx => 0xE8,
            Instruction::InsIny => 0xC8,
            // Decrements
            Instruction::InsDex => 0xCA,
            Instruction::InsDey => 0x88,
            // DEC
            Instruction::InsDecZp => 0xC6,
            Instruction::InsDecZpX => 0xD6,
            Instruction::InsDecAbs => 0xCE,
            Instruction::InsDecAbsX => 0xDE,
            // INC
            Instruction::InsIncZp => 0xE6,
            Instruction::InsIncZpX => 0xF6,
            Instruction::InsIncAbs => 0xEE,
            Instruction::InsIncAbsX => 0xFE,
            // Branch
            Instruction::InsBeq => 0xF0,
            Instruction::InsBne => 0xD0,
            Instruction::InsBcs => 0xB0,
            Instruction::InsBcc => 0x90,
            Instruction::InsBmi => 0x30,
            Instruction::InsBpl => 0x10,
            Instruction::InsBvs => 0x70,
            Instruction::InsBvc => 0x50,
            // Status flags
            Instruction::InsClc => 0x18,
            Instruction::InsSec => 0x38,
            Instruction::InsCld => 0xD8,
            Instruction::InsSed => 0xF8,
            Instruction::InsCli => 0x58,
            Instruction::InsSei => 0x78,
            Instruction::InsClv => 0xB8,
            // Misc
            Instruction::InsNop => 0xEA,
            // ADC
            Instruction::InsAdcIm => 0x69,
            Instruction::InsAdcZp => 0x65,
            Instruction::InsAdcZpX => 0x75,
            Instruction::InsAdcAbs => 0x6D,
            Instruction::InsAdcAbsX => 0x7D,
            Instruction::InsAdcAbsY => 0x79,
            Instruction::InsAdcIndX => 0x61,
            Instruction::InsAdcIndY => 0x71,
            // SBC
            Instruction::InsSbcIm => 0xE9,
            Instruction::InsSbcZp => 0xE5,
            Instruction::InsSbcZpX => 0xF5,
            Instruction::InsSbcAbs => 0xED,
            Instruction::InsSbcAbsX => 0xFD,
            Instruction::InsSbcAbsY => 0xF9,
            Instruction::InsSbcIndX => 0xE1,
            Instruction::InsSbcIndY => 0xF1,
            // CMP
            Instruction::InsCmpIm => 0xC9,
            Instruction::InsCmpZp => 0xC5,
            Instruction::InsCmpZpX => 0xD5,
            Instruction::InsCmpAbs => 0xCD,
            Instruction::InsCmpAbsX => 0xDD,
            Instruction::InsCmpAbsY => 0xD9,
            Instruction::InsCmpIndX => 0xC1,
            Instruction::InsCmpIndY => 0xD1,
            // CPX
            Instruction::InsCpxIm => 0xE0,
            Instruction::InsCpxZp => 0xE4,
            Instruction::InsCpxAbs => 0xEC,
            // CPY
            Instruction::InsCpyIm => 0xC0,
            Instruction::InsCpyZp => 0xC4,
            Instruction::InsCpyAbs => 0xCC,
            // ASL
            Instruction::InsAslA => 0x0A,
            Instruction::InsAslZp => 0x06,
            Instruction::InsAslZpX => 0x16,
            Instruction::InsAslAbs => 0x0E,
            Instruction::InsAslAbsX => 0x1E,
            // LSR
            Instruction::InsLsrA => 0x4A,
            Instruction::InsLsrZp => 0x46,
            Instruction::InsLsrZpX => 0x56,
            Instruction::InsLsrAbs => 0x4E,
            Instruction::InsLsrAbsX => 0x5E,
            // ROL
            Instruction::InsRolA => 0x2A,
            Instruction::InsRolZp => 0x26,
            Instruction::InsRolZpX => 0x36,
            Instruction::InsRolAbs => 0x2E,
            Instruction::InsRolAbsX => 0x3E,
            // ROR
            Instruction::InsRorA => 0x6A,
            Instruction::InsRorZp => 0x66,
            Instruction::InsRorZpX => 0x76,
            Instruction::InsRorAbs => 0x6E,
            Instruction::InsRorAbsX => 0x7E,
            // System
            Instruction::InsBrk => 0x00,
            Instruction::InsRti => 0x40,
        }
    }

    /// What the instruction does.
    #[verifier::when_used_as_spec(spec_operation)]
    pub fn operation(self) -> (operation: Operation)
        ensures
            operation == self.spec_operation(),
    {
        match self {
            Instruction::InsLdaIm | Instruction::InsLdaZp | Instruction::InsLdaZpX
            | Instruction::InsLdaAbs | Instruction::InsLdaAbsX | Instruction::InsLdaAbsY
            | Instruction::InsLdaIndX | Instruction::InsLdaIndY => Operation::Lda,
            Instruction::InsLdxIm | Instruction::InsLdxZp | Instruction::InsLdxZpy
            | Instruction::InsLdxAbs | Instruction::InsLdxAbsY => Operation::Ldx,
            Instruction::InsLdyIm | Instruction::InsLdyZp | Instruction::InsLdyZpX
            | Instruction::InsLdyAbs | Instruction::InsLdyAbsX => Operation::Ldy,
            Instruction::InsStaZp | Instruction::InsStaZpX | Instruction::InsStaAbs
            | Instruction::InsStaAbsX | Instruction::InsStaAbsY | Instruction::InsStaIndX
            | Instruction::InsStaIndY => Operation::Sta,
            Instruction::InsStxZp | Instruction::InsStxZpY
            | Instruction::InsStxAbs => Operation::Stx,
            Instruction::InsStyZp | Instruction::InsStyZpX
            | Instruction::InsStyAbs => Operation::Sty,
            Instruction::InsTax => Operation::Tax,
            Instruction::InsTay => Operation::Tay,
            Instruction::InsTxa => Operation::Txa,
            Instruction::InsTya => Operation::Tya,
            Instruction::InsTsx => Operation::Tsx,
            Instruction::InsTxs => Operation::Txs,
            Instruction::InsPha => Operation::Pha,
            Instruction::InsPhp => Operation::Php,
            Instruction::InsPla => Operation::Pla,
            Instruction::InsPlp => Operation::Plp,
            Instruction::InsAndIm | Instruction::InsAndZp | Instruction::InsAndZpX
            | Instruction::InsAndAbs | Instruction::InsAndAbsX | Instruction::InsAndAbsY
            | Instruction::InsAndIndX | Instruction::InsAndIndY => Operation::And,
            Instruction::InsEorIm | Instruction::InsEorZp | Instruction::InsEorZpX
            | Instruction::InsEorAbs | Instruction::InsEorAbsX | Instruction::InsEorAbsY
            | Instruction::InsEorIndX | Instruction::InsEorIndY => Operation::Eor,
            Instruction::InsOraIm | Instruction::InsOraZp | Instruction::InsOraZpX
            | Instruction::InsOraAbs | Instruction::InsOraAbsX | Instruction::InsOraAbsY
            | Instruction::InsOraIndX | Instruction::InsOraIndY => Operation::Ora,
            Instruction::InsBitZp | Instruction::InsBitAbs => Operation::Bit,
            Instruction::InsAdcIm | Instruction::InsAdcZp | Instruction::InsAdcZpX
            | Instruction::InsAdcAbs | Instruction::InsAdcAbsX | Instruction::InsAdcAbsY
            | Instruction::InsAdcIndX | Instruction::InsAdcIndY => Operation::Adc,
            Instruction::InsSbcIm | Instruction::InsSbcZp | Instruction::InsSbcZpX
            | Instruction::InsSbcAbs | Instruction::InsSbcAbsX | Instruction::InsSbcAbsY
            | Instruction::InsSbcIndX | Instruction::InsSbcIndY => Operation::Sbc,
            Instruction::InsCmpIm | Instruction::InsCmpZp | Instruction::InsCmpZpX
            | Instruction::InsCmpAbs | Instruction::InsCmpAbsX | Instruction::InsCmpAbsY
            | Instruction::InsCmpIndX | Instruction::InsCmpIndY => Operation::Cmp,
            Instruction::InsCpxIm | Instruction::InsCpxZp
            | Instruction::InsCpxAbs => Operation::Cpx,
            Instruction::InsCpyIm | Instruction::InsCpyZp
            | Instruction::InsCpyAbs => Operation::Cpy,
            Instruction::InsAslA | Instruction::InsAslZp | Instruction::InsAslZpX
            | Instruction::InsAslAbs | Instruction::InsAslAbsX => Operation::Asl,
            Instruction::InsLsrA | Instruction::InsLsrZp | Instruction::InsLsrZpX
            | Instruction::InsLsrAbs | Instruction::InsLsrAbsX => Operation::Lsr,
            Instruction::InsRolA | Instruction::InsRolZp | Instruction::InsRolZpX
            | Instruction::InsRolAbs | Instruction::InsRolAbsX => Operation::Rol,
            Instruction::InsRorA | Instruction::InsRorZp | Instruction::InsRorZpX
            | Instruction::InsRorAbs | Instruction::InsRorAbsX => Operation::Ror,
            Instruction::InsIncZp | Instruction::InsIncZpX | Instruction::InsIncAbs
            | Instruction::InsIncAbsX => Operation::Inc,
            Instruction::InsDecZp | Instruction::InsDecZpX | Instruction::InsDecAbs
            | Instruction::InsDecAbsX => Operation::Dec,
            Instruction::InsInx => Operation::Inx,
            Instruction::InsIny => Operation::Iny,
            Instruction::InsDex => Operation::Dex,
            Instruction::InsDey => Operation::Dey,
            Instruction::InsBeq => Operation::Beq,
            Instruction::InsBne => Operation::Bne,
            Instruction::InsBcs => Operation::Bcs,
            Instruction::InsBcc => Operation::Bcc,
            Instruction::InsBmi => Operation::Bmi,
            Instruction::InsBpl => Operation::Bpl,
            Instruction::InsBvs => Operation::Bvs,
            Instruction::InsBvc => Operation::Bvc,
            Instruction::InsJmpAbs | Instruction::InsJmpInd => Operation::Jmp,
            Instruction::InsJsr => Operation::Jsr,
            Instruction::InsRts => Operation::Rts,
            Instruction::InsClc => Operation::Clc,
            Instruction::InsSec => Operation::Sec,
            Instruction::InsCld => Operation::Cld,
            Instruction::InsSed => Operation::Sed,
            Instruction::InsCli => Operation::Cli,
            Instruction::InsSei => Operation::Sei,
            Instruction::InsClv => Operation::Clv,
            Instruction::InsNop => Operation::Nop,
            Instruction::InsBrk => Operation::Brk,
            Instruction::InsRti => Operation::Rti,
        }
    }

    /// How the instruction finds its operand.
    #[verifier::when_used_as_spec(spec_mode)]
    pub fn mode(self) -> (mode: AddressingMode)
        ensures
            mode == self.spec_mode(),
    {
        match self {
            Instruction::InsLdaIm | Instruction::InsLdxIm | Instruction::InsLdyIm
            | Instruction::InsAndIm | Instruction::InsEorIm | Instruction::InsOraIm
            | Instruction::InsAdcIm | Instruction::InsSbcIm | Instruction::InsCmpIm
            | Instruction::InsCpxIm | Instruction::InsCpyIm => AddressingMode::Immediate,
            Instruction::InsLdaZp | Instruction::InsLdxZp | Instruction::InsLdyZp
            | Instruction::InsStaZp | Instruction::InsStxZp | Instruction::InsStyZp
            | Instruction::InsAndZp | Instruction::InsEorZp | Instruction::InsOraZp
            | Instruction::InsBitZp | Instruction::InsDecZp | Instruction::InsIncZp
            | Instruction::InsAdcZp | Instruction::InsSbcZp | Instruction::InsCmpZp
            | Instruction::InsCpxZp | Instruction::InsCpyZp | Instruction::InsAslZp
            | Instruction::InsLsrZp | Instruction::InsRolZp
            | Instruction::InsRorZp => AddressingMode::ZeroPage,
            Instruction::InsLdaZpX | Instruction::InsLdyZpX | Instruction::InsStaZpX
            | Instruction::InsStyZpX | Instruction::InsAndZpX | Instruction::InsEorZpX
            | Instruction::InsOraZpX | Instruction::InsDecZpX | Instruction::InsIncZpX
            | Instruction::InsAdcZpX | Instruction::InsSbcZpX | Instruction::InsCmpZpX
            | Instruction::InsAslZpX | Instruction::InsLsrZpX | Instruction::InsRolZpX
            | Instruction::InsRorZpX => AddressingMode::ZeroPageX,
            Instruction::InsLdxZpy | Instruction::InsStxZpY => AddressingMode::ZeroPageY,
            Instruction::InsLdaAbs | Instruction::InsLdxAbs | Instruction::InsLdyAbs
            | Instruction::InsJsr | Instruction::InsJmpAbs | Instruction::InsStaAbs
            | Instruction::InsStxAbs | Instruction::InsStyAbs | Instruction::InsAndAbs
            | Instruction::InsEorAbs | Instruction::InsOraAbs | Instruction::InsBitAbs
            | Instruction::InsDecAbs | Instruction::InsIncAbs | Instruction::InsAdcAbs
            | Instruction::InsSbcAbs | Instruction::InsCmpAbs | Instruction::InsCpxAbs
            | Instruction::InsCpyAbs | Instruction::InsAslAbs | Instruction::InsLsrAbs
            | Instruction::InsRolAbs | Instruction::InsRorAbs => AddressingMode::Absolute,
            Instruction::InsLdaAbsX | Instruction::InsLdyAbsX | Instruction::InsStaAbsX
            | Instruction::InsAndAbsX | Instruction::InsEorAbsX | Instruction::InsOraAbsX
            | Instruction::InsDecAbsX | Instruction::InsIncAbsX | Instruction::InsAdcAbsX
            | Instruction::InsSbcAbsX | Instruction::InsCmpAbsX | Instruction::InsAslAbsX
            | Instruction::InsLsrAbsX | Instruction::InsRolAbsX
            | Instruction::InsRorAbsX => AddressingMode::AbsoluteX,
            Instruction::InsLdaAbsY | Instruction::InsLdxAbsY | Instruction::InsStaAbsY
            | Instruction::InsAndAbsY | Instruction::InsEorAbsY | Instruction::InsOraAbsY
            | Instruction::InsAdcAbsY | Instruction::InsSbcAbsY
            | Instruction::InsCmpAbsY => AddressingMode::AbsoluteY,
            Instruction::InsLdaIndX | Instruction::InsStaIndX | Instruction::InsAndIndX
            | Instruction::InsEorIndX | Instruction::InsOraIndX | Instruction::InsAdcIndX
            | Instruction::InsSbcIndX | Instruction::InsCmpIndX => AddressingMode::IndexedIndirect,
            Instruction::InsLdaIndY | Instruction::InsStaIndY | Instruction::InsAndIndY
            | Instruction::InsEorIndY | Instruction::InsOraIndY | Instruction::InsAdcIndY
            | Instruction::InsSbcIndY | Instruction::InsCmpIndY => AddressingMode::IndirectIndexed,
            Instruction::InsBeq | Instruction::InsBne | Instruction::InsBcs
            | Instruction::InsBcc | Instruction::InsBmi | Instruction::InsBpl
            | Instruction::InsBvs | Instruction::InsBvc => AddressingMode::Relative,
            Instruction::InsJmpInd => AddressingMode::Indirect,
            Instruction::InsRts | Instruction::InsTsx | Instruction::InsTxs
            | Instruction::InsPha | Instruction::InsPhp | Instruction::InsPla
            | Instruction::InsPlp | Instruction::InsTax | Instruction::InsTay
            | Instruction::InsTxa | Instruction::InsTya | Instruction::InsInx
            | Instruction::InsIny | Instruction::InsDex | Instruction::InsDey
            | Instruction::InsClc | Instruction::InsSec | Instruction::InsCld
            | Instruction::InsSed | Instruction::InsCli | Instruction::InsSei
            | Instruction::InsClv | Instruction::InsNop | Instruction::InsBrk
            | Instruction::InsRti => AddressingMode::Implied,
            Instruction::InsAslA | Instruction::InsLsrA | Instruction::InsRolA
            | Instruction::InsRorA => AddressingMode::Accumulator,
        }
    }
}

/// Whether some instruction is encoded by `byte`.
pub open spec fn is_opcode(byte: u8) -> bool {
    exists|i: Instruction| i.spec_opcode() == byte
}

/// The instruction that `byte` encodes, or the error that reports the byte.
pub open spec fn decode(byte: u8) -> Result<Instruction, InstructionsError> {
    if is_opcode(byte) {
        Ok(choose|i: Instruction| i.spec_opcode() == byte)
    } else {
        Err(InstructionsError::InstructionDoesntExist(byte))
    }
}

/// No two instructions share an opcode byte.
pub proof fn lemma_opcode_injective(i: Instruction, j: Instruction)
    requires
        i.spec_opcode() == j.spec_opcode(),
    ensures
        i == j,
{
}

/// Decoding the byte of an instruction gives that instruction back.
pub proof fn lemma_decode_opcode(i: Instruction)
    ensures
        decode(i.spec_opcode()) == Ok::<Instruction, InstructionsError>(i),
{
    let byte = i.spec_opcode();
    assert(is_opcode(byte));
    let j = choose|j: Instruction| j.spec_opcode() == byte;
    lemma_opcode_injective(i, j);
}

impl TryFrom<Byte> for Instruction {
    type Error = InstructionsError;

    fn try_from(value: Byte) -> (decoded: Result<Instruction, InstructionsError>) {
        let decoded = match value {
            // LDA
            0xA9 => Ok(Instruction::InsLdaIm),
            0xA5 => Ok(Instruction::InsLdaZp),
            0xB5 => Ok(Instruction::InsLdaZpX),
            0xAD => Ok(Instruction::InsLdaAbs),
            0xBD => Ok(Instruction::InsLdaAbsX),
            0xB9 => Ok(Instruction::InsLdaAbsY),
            0xA1 => Ok(Instruction::InsLdaIndX),
            0xB1 => Ok(Instruction::InsLdaIndY),
            // LDX
            0xA2 => Ok(Instruction::InsLdxIm),
            0xA6 => Ok(Instruction::InsLdxZp),
            0xB6 => Ok(Instruction::InsLdxZpy),
            0xAE => Ok(Instruction::InsLdxAbs),
            0xBE => Ok(Instruction::InsLdxAbsY),
            // LDY
            0xA0 => Ok(Instruction::InsLdyIm),
            0xA4 => Ok(Instruction::InsLdyZp),
            0xB4 => Ok(Instruction::InsLdyZpX),
            0xAC => Ok(Instruction::InsLdyAbs),
            0xBC => Ok(Instruction::InsLdyAbsX),
            // Jumps
            0x20 => Ok(Instruction::InsJsr),
            0x60 => Ok(Instruction::InsRts),
            0x4C => Ok(Instruction::InsJmpAbs),
            0x6C => Ok(Instruction::InsJmpInd),
            // STA
            0x85 => Ok(Instruction::InsStaZp),
            0x95 => Ok(Instruction::InsStaZpX),
            0x8D => Ok(Instruction::InsStaAbs),
            0x9D => Ok(Instruction::InsStaAbsX),
            0x99 => Ok(Instruction::InsStaAbsY),
            0x81 => Ok(Instruction::InsStaIndX),
            0x91 => Ok(Instruction::InsStaIndY),
            // STX
            0x86 => Ok(Instruction::InsStxZp),
            0x96 => Ok(Instruction::InsStxZpY),
            0x8E => Ok(Instruction::InsStxAbs),
            // STY
            0x84 => Ok(Instruction::InsStyZp),
            0x94 => Ok(Instruction::InsStyZpX),
            0x8C => Ok(Instruction::InsStyAbs),
            // Transfer stack pointer
            0xBA => Ok(Instruction::InsTsx),
            0x9A => Ok(Instruction::InsTxs),
            0x48 => Ok(Instruction::InsPha),
            0x08 => Ok(Instruction::InsPhp),
            0x68 => Ok(Instruction::InsPla),
            0x28 => Ok(Instruction::InsPlp),
            // AND
            0x29 => Ok(Instruction::InsAndIm),
            0x25 => Ok(Instruction::InsAndZp),
            0x35 => Ok(Instruction::InsAndZpX),
            0x2D => Ok(Instruction::InsAndAbs),
            0x3D => Ok(Instruction::InsAndAbsX),
            0x39 => Ok(Instruction::InsAndAbsY),
            0x21 => Ok(Instruction::InsAndIndX),
            0x31 => Ok(Instruction::InsAndIndY),
            // EOR
            0x49 => Ok(Instruction::InsEorIm),
            0x45 => Ok(Instruction::InsEorZp),
            0x55 => Ok(Instruction::InsEorZpX),
            0x4D => Ok(Instruction::InsEorAbs),
            0x5D => Ok(Instruction::InsEorAbsX),
            0x59 => Ok(Instruction::InsEorAbsY),
            0x41 => Ok(Instruction::InsEorIndX),
            0x51 => Ok(Instruction::InsEorIndY),
            // ORA
            0x09 => Ok(Instruction::InsOraIm),
            0x05 => Ok(Instruction::InsOraZp),
            0x15 => Ok(Instruction::InsOraZpX),
            0x0D => Ok(Instruction::InsOraAbs),
            0x1D => Ok(Instruction::InsOraAbsX),
            0x19 => Ok(Instruction::InsOraAbsY),
            0x01 => Ok(Instruction::InsOraIndX),
            0x11 => Ok(Instruction::InsOraIndY),
            // BIT
            0x24 => Ok(Instruction::InsBitZp),
            0x2C => Ok(Instruction::InsBitAbs),
            // Transfer
            0xAA => Ok(Instruction::InsTax),
            0xA8 => Ok(Instruction::InsTay),
            0x8A => Ok(Instruction::InsTxa),
            0x98 => Ok(Instruction::InsTya),
            // Increments
            0xE8 => Ok(Instruction::InsInx),
            0xC8 => Ok(Instruction::InsIny),
            // Decrements
            0xCA => Ok(Instruction::InsDex),
            0x88 => Ok(Instruction::InsDey),
            // DEC
            0xC6 => Ok(Instruction::InsDecZp),
            0xD6 => Ok(Instruction::InsDecZpX),
            0xCE => Ok(Instruction::InsDecAbs),
            0xDE => Ok(Instruction::InsDecAbsX),
            // INC
            0xE6 => Ok(Instruction::InsIncZp),
            0xF6 => Ok(Instruction::InsIncZpX),
            0xEE => Ok(Instruction::InsIncAbs),
            0xFE => Ok(Instruction::InsIncAbsX),
            // Branch
            0xF0 => Ok(Instruction::InsBeq),
            0xD0 => Ok(Instruction::InsBne),
            0xB0 => Ok(Instruction::InsBcs),
            0x90 => Ok(Instruction::InsBcc),
            0x30 => Ok(Instruction::InsBmi),
            0x10 => Ok(Instruction::InsBpl),
            0x70 => Ok(Instruction::InsBvs),
            0x50 => Ok(Instruction::InsBvc),
            // Status flags
            0x18 => Ok(Instruction::InsClc),
            0x38 => Ok(Instruction::InsSec),
            0xD8 => Ok(Instruction::InsCld),
            0xF8 => Ok(Instruction::InsSed),
            0x58 => Ok(Instruction::InsCli),
            0x78 => Ok(Instruction::InsSei),
            0xB8 => Ok(Instruction::InsClv),
            // Misc
            0xEA => Ok(Instruction::InsNop),
            // ADC
            0x69 => Ok(Instruction::InsAdcIm),
            0x65 => Ok(Instruction::InsAdcZp),
            0x75 => Ok(Instruction::InsAdcZpX),
            0x6D => Ok(Instruction::InsAdcAbs),
            0x7D => Ok(Instruction::InsAdcAbsX),
            0x79 => Ok(Instruction::InsAdcAbsY),
            0x61 => Ok(Instruction::InsAdcIndX),
            0x71 => Ok(Instruction::InsAdcIndY),
            // SBC
            0xE9 => Ok(Instruction::InsSbcIm),
            0xE5 => Ok(Instruction::InsSbcZp),
            0xF5 => Ok(Instruction::InsSbcZpX),
            0xED => Ok(Instruction::InsSbcAbs),
            0xFD => Ok(Instruction::InsSbcAbsX),
            0xF9 => Ok(Instruction::InsSbcAbsY),
            0xE1 => Ok(Instruction::InsSbcIndX),
            0xF1 => Ok(Instruction::InsSbcIndY),
            // CMP
            0xC9 => Ok(Instruction::InsCmpIm),
            0xC5 => Ok(Instruction::InsCmpZp),
            0xD5 => Ok(Instruction::InsCmpZpX),
            0xCD => Ok(Instruction::InsCmpAbs),
            0xDD => Ok(Instruction::InsCmpAbsX),
            0xD9 => Ok(Instruction::InsCmpAbsY),
            0xC1 => Ok(Instruction::InsCmpIndX),
            0xD1 => Ok(Instruction::InsCmpIndY),
            // CPX
            0xE0 => Ok(Instruction::InsCpxIm),
            0xE4 => Ok(Instruction::InsCpxZp),
            0xEC => Ok(Instruction::InsCpxAbs),
            // CPY
            0xC0 => Ok(Instruction::InsCpyIm),
            0xC4 => Ok(Instruction::InsCpyZp),
            0xCC => Ok(Instruction::InsCpyAbs),
            // ASL
            0x0A => Ok(Instruction::InsAslA),
            0x06 => Ok(Instruction::InsAslZp),
            0x16 => Ok(Instruction::InsAslZpX),
            0x0E => Ok(Instruction::InsAslAbs),
            0x1E => Ok(Instruction::InsAslAbsX),
            // LSR
            0x4A => Ok(Instruction::InsLsrA),
            0x46 => Ok(Instruction::InsLsrZp),
            0x56 => Ok(Instruction::InsLsrZpX),
            0x4E => Ok(Instruction::InsLsrAbs),
            0x5E => Ok(Instruction::InsLsrAbsX),
            // ROL
            0x2A => Ok(Instruction::InsRolA),
            0x26 => Ok(Instruction::InsRolZp),
            0x36 => Ok(Instruction::InsRolZpX),
            0x2E => Ok(Instruction::InsRolAbs),
            0x3E => Ok(Instruction::InsRolAbsX),
            // ROR
            0x6A => Ok(Instruction::InsRorA),
            0x66 => Ok(Instruction::InsRorZp),
            0x76 => Ok(Instruction::InsRorZpX),
            0x6E => Ok(Instruction::InsRorAbs),
            0x7E => Ok(Instruction::InsRorAbsX),
            // System
            0x00 => Ok(Instruction::InsBrk),
            0x40 => Ok(Instruction::InsRti),
            _ => Err(InstructionsError::InstructionDoesntExist(value)),
        };
        proof {
            match decoded {
                Ok(i) => {
                    lemma_decode_opcode(i);
                },
                Err(_) => {
                    assert forall|i: Instruction| i.spec_opcode() != value by {}
                },
            }
        }
        decoded
    }
}

impl vstd::std_specs::convert::TryFromSpecImpl<Byte> for Instruction {
    open spec fn obeys_try_from_spec() -> bool {
        true
    }

    open spec fn try_from_spec(value: Byte) -> Result<Instruction, InstructionsError> {
        decode(value)
    }
}

} // verus!
