//! Decoding of ARM opcodes: the fields of an opcode, the instruction
//! families with their bit patterns, the order in which the families are
//! tried, and the condition codes.

use vstd::prelude::*;
use crate::arm7tdmi::ARM7TDMI;
use crate::system_memory::SysMem;

verus! {

// The pattern of each family: an opcode belongs to it where its format
// key, under the mask, equals the format.

pub const MUL_MLA_FORMAT: u16 = 0x009;

pub const MUL_MLA_MASK: u16 = 0xFCF;

pub const MULL_MLAL_FORMAT: u16 = 0x089;

pub const MULL_MLAL_MASK: u16 = 0xF8F;

pub const SWP_FORMAT: u16 = 0x109;

pub const SWP_MASK: u16 = 0xFBF;

pub const LDRH_STRH_FORMAT: u16 = 0x00B;

pub const LDRH_STRH_MASK: u16 = 0xE0F;

pub const LDRSB_LDRSH_FORMAT: u16 = 0x01D;

pub const LDRSB_LDRSH_MASK: u16 = 0xE1F;

pub const MRS_FORMAT: u16 = 0x100;

pub const MRS_MASK: u16 = 0xFBF;

pub const MSR_REG_FORMAT: u16 = 0x120;

pub const MSR_REG_MASK: u16 = 0xFBF;

pub const MSR_IMM_FORMAT: u16 = 0x320;

pub const MSR_IMM_MASK: u16 = 0xFB0;

pub const BX_FORMAT: u16 = 0x121;

pub const BX_MASK: u16 = 0xFFF;

pub const DATAPROC_IMM_SHIFT_FORMAT: u16 = 0x000;

pub const DATAPROC_IMM_SHIFT_MASK: u16 = 0xE01;

pub const DATAPROC_REG_SHIFT_FORMAT: u16 = 0x001;

pub const DATAPROC_REG_SHIFT_MASK: u16 = 0xE09;

pub const UNDEF_DATAPROC_FORMAT: u16 = 0x300;

pub const UNDEF_DATAPROC_MASK: u16 = 0xFB0;

pub const DATAPROC_IMM_VALUE_FORMAT: u16 = 0x200;

pub const DATAPROC_IMM_VALUE_MASK: u16 = 0xE00;

pub const LDR_STR_IMM_OFFSET_FORMAT: u16 = 0x400;

pub const LDR_STR_IMM_OFFSET_MASK: u16 = 0xE00;

pub const LDR_STR_REG_OFFSET_FORMAT: u16 = 0x600;

pub const LDR_STR_REG_OFFSET_MASK: u16 = 0xE01;

pub const LDM_STM_FORMAT: u16 = 0x800;

pub const LDM_STM_MASK: u16 = 0xE00;

pub const B_BL_FORMAT: u16 = 0xA00;

pub const B_BL_MASK: u16 = 0xE00;

pub const STC_LDC_FORMAT: u16 = 0xC00;

pub const STC_LDC_MASK: u16 = 0xE00;

pub const CDP_FORMAT: u16 = 0xE00;

pub const CDP_MASK: u16 = 0xF01;

pub const MCR_MRC_FORMAT: u16 = 0xE01;

pub const MCR_MRC_MASK: u16 = 0xF01;

pub const SWI_FORMAT: u16 = 0xF00;

pub const SWI_MASK: u16 = 0xF00;

/// The families of ARM instructions, in the order in which the decoder
/// tries them, and `Undefined` for an opcode that belongs to none.
#[derive(Clone, Copy, Debug, PartialEq, Eq, Structural)]
pub enum ArmInstructionKind {
    MulMla,
    MullMlal,
    Swp,
    LdrhStrh,
    LdrsbLdrsh,
    Mrs,
    MsrReg,
    MsrImm,
    Bx,
    DataprocImmShift,
    DataprocRegShift,
    UndefDataproc,
    DataprocImmValue,
    LdrStrImmOffset,
    LdrStrRegOffset,
    LdmStm,
    BBl,
    StcLdc,
    Cdp,
    McrMrc,
    Swi,
    Undefined,
}

/// The format key of an opcode: bits 27..20 followed by bits 7..4.
pub open spec fn format_key(instruction: u32) -> u16 {
    (((instruction >> 16) & 0x0FF0) | ((instruction >> 4) & 0xF)) as u16
}

/// The condition field of an opcode: bits 31..28.
pub open spec fn cond_bits(instruction: u32) -> u8 {
    ((instruction >> 28) & 0xF) as u8
}

/// The operation field of a data-processing opcode: bits 24..21.
pub open spec fn dataproc_opcode(instruction: u32) -> u8 {
    ((instruction >> 21) & 0xF) as u8
}

/// Whether bit 25 is set: the second operand of a data-processing opcode
/// is an immediate value.
pub open spec fn is_dataproc_immediate(instruction: u32) -> bool {
    ((instruction >> 25) & 1) == 1
}

/// The pattern of a family as the pair (format, mask). `Undefined` has
/// no pattern.
pub open spec fn family_pattern(kind: ArmInstructionKind) -> Option<(u16, u16)> {
    match kind {
        ArmInstructionKind::MulMla => Some((MUL_MLA_FORMAT, MUL_MLA_MASK)),
        ArmInstructionKind::MullMlal => Some((MULL_MLAL_FORMAT, MULL_MLAL_MASK)),
        ArmInstructionKind::Swp => Some((SWP_FORMAT, SWP_MASK)),
        ArmInstructionKind::LdrhStrh => Some((LDRH_STRH_FORMAT, LDRH_STRH_MASK)),
        ArmInstructionKind::LdrsbLdrsh => Some((LDRSB_LDRSH_FORMAT, LDRSB_LDRSH_MASK)),
        ArmInstructionKind::Mrs => Some((MRS_FORMAT, MRS_MASK)),
        ArmInstructionKind::MsrReg => Some((MSR_REG_FORMAT, MSR_REG_MASK)),
        ArmInstructionKind::MsrImm => Some((MSR_IMM_FORMAT, MSR_IMM_MASK)),
        ArmInstructionKind::Bx => Some((BX_FORMAT, BX_MASK)),
        ArmInstructionKind::DataprocImmShift => Some(
            (DATAPROC_IMM_SHIFT_FORMAT, DATAPROC_IMM_SHIFT_MASK),
        ),
        ArmInstructionKind::DataprocRegShift => Some(
            (DATAPROC_REG_SHIFT_FORMAT, DATAPROC_REG_SHIFT_MASK),
        ),
        ArmInstructionKind::UndefDataproc => Some((UNDEF_DATAPROC_FORMAT, UNDEF_DATAPROC_MASK)),
        ArmInstructionKind::DataprocImmValue => Some(
            (DATAPROC_IMM_VALUE_FORMAT, DATAPROC_IMM_VALUE_MASK),
        ),
        ArmInstructionKind::LdrStrImmOffset => Some(
            (LDR_STR_IMM_OFFSET_FORMAT, LDR_STR_IMM_OFFSET_MASK),
        ),
        ArmInstructionKind::LdrStrRegOffset => Some(
            (LDR_STR_REG_OFFSET_FORMAT, LDR_STR_REG_OFFSET_MASK),
        ),
        ArmInstructionKind::LdmStm => Some((LDM_STM_FORMAT, LDM_STM_MASK)),
        ArmInstructionKind::BBl => Some((B_BL_FORMAT, B_BL_MASK)),
        ArmInstructionKind::StcLdc => Some((STC_LDC_FORMAT, STC_LDC_MASK)),
        ArmInstructionKind::Cdp => Some((CDP_FORMAT, CDP_MASK)),
        ArmInstructionKind::McrMrc => Some((MCR_MRC_FORMAT, MCR_MRC_MASK)),
        ArmInstructionKind::Swi => Some((SWI_FORMAT, SWI_MASK)),
        ArmInstructionKind::Undefined => None,
    }
}

/// Whether an opcode has the pattern of a family: its format key, under
/// the family's mask, equals the family's format.
pub open spec fn family_matches(kind: ArmInstructionKind, instruction: u32) -> bool {
    match family_pattern(kind) {
        Some((format, mask)) => format_key(instruction) & mask == format,
        None => false,
    }
}

/// The place of a family in the order of decoding: a family with a
/// smaller rank is tried first.
pub open spec fn decode_rank(kind: ArmInstructionKind) -> nat {
    match kind {
        ArmInstructionKind::MulMla => 0,
        ArmInstructionKind::MullMlal => 1,
        ArmInstructionKind::Swp => 2,
        ArmInstructionKind::LdrhStrh => 3,
        ArmInstructionKind::LdrsbLdrsh => 4,
        ArmInstructionKind::Mrs => 5,
        ArmInstructionKind::MsrReg => 6,
        ArmInstructionKind::MsrImm => 7,
        ArmInstructionKind::Bx => 8,
        ArmInstructionKind::DataprocImmShift => 9,
        ArmInstructionKind::DataprocRegShift => 10,
        ArmInstructionKind::UndefDataproc => 11,
        ArmInstructionKind::DataprocImmValue => 12,
        ArmInstructionKind::LdrStrImmOffset => 13,
        ArmInstructionKind::LdrStrRegOffset => 14,
        ArmInstructionKind::LdmStm => 15,
        ArmInstructionKind::BBl => 16,
        ArmInstructionKind::StcLdc => 17,
        ArmInstructionKind::Cdp => 18,
        ArmInstructionKind::McrMrc => 19,
        ArmInstructionKind::Swi => 20,
        ArmInstructionKind::Undefined => 21,
    }
}

/// Whether `kind` is what an opcode decodes to: the opcode has the
/// pattern of `kind` and of no family that is tried before it; or, for
/// `Undefined`, the pattern of no family at all.
pub open spec fn decodes_to(instruction: u32, kind: ArmInstructionKind) -> bool {
    &&& kind != ArmInstructionKind::Undefined ==> family_matches(kind, instruction)
    &&& forall|earlier: ArmInstructionKind|
        decode_rank(earlier) < decode_rank(kind) ==> !#[trigger] family_matches(
            earlier,
            instruction,
        )
}

/// The family that an opcode decodes to: the first, in the order of
/// decoding, whose pattern the opcode has.
pub open spec fn decode(instruction: u32) -> ArmInstructionKind {
    if family_matches(ArmInstructionKind::MulMla, instruction) {
        ArmInstructionKind::MulMla
    } else if family_matches(ArmInstructionKind::MullMlal, instruction) {
        ArmInstructionKind::MullMlal
    } else if family_matches(ArmInstructionKind::Swp, instruction) {
        ArmInstructionKind::Swp
    } else if family_matches(ArmInstructionKind::LdrhStrh, instruction) {
        ArmInstructionKind::LdrhStrh
    } else if family_matches(ArmInstructionKind::LdrsbLdrsh, instruction) {
        ArmInstructionKind::LdrsbLdrsh
    } else if family_matches(ArmInstructionKind::Mrs, instruction) {
        ArmInstructionKind::Mrs
    } else if family_matches(ArmInstructionKind::MsrReg, instruction) {
        ArmInstructionKind::MsrReg
    } else if family_matches(ArmInstructionKind::MsrImm, instruction) {
        ArmInstructionKind::MsrImm
    } else if family_matches(ArmInstructionKind::Bx, instruction) {
        ArmInstructionKind::Bx
    } else if family_matches(ArmInstructionKind::DataprocImmShift, instruction) {
        ArmInstructionKind::DataprocImmShift
    } else if family_matches(ArmInstructionKind::DataprocRegShift, instruction) {
        ArmInstructionKind::DataprocRegShift
    } else if family_matches(ArmInstructionKind::UndefDataproc, instruction) {
        ArmInstructionKind::UndefDataproc
    } else if family_matches(ArmInstructionKind::DataprocImmValue, instruction) {
        ArmInstructionKind::DataprocImmValue
    } else if family_matches(ArmInstructionKind::LdrStrImmOffset, instruction) {
        ArmInstructionKind::LdrStrImmOffset
    } else if family_matches(ArmInstructionKind::LdrStrRegOffset, instruction) {
        ArmInstructionKind::LdrStrRegOffset
    } else if family_matches(ArmInstructionKind::LdmStm, instruction) {
        ArmInstructionKind::LdmStm
    } else if family_matches(ArmInstructionKind::BBl, instruction) {
        ArmInstructionKind::BBl
    } else if family_matches(ArmInstructionKind::StcLdc, instruction) {
        ArmInstructionKind::StcLdc
    } else if family_matches(ArmInstructionKind::Cdp, instruction) {
        ArmInstructionKind::Cdp
    } else if family_matches(ArmInstructionKind::McrMrc, instruction) {
        ArmInstructionKind::McrMrc
    } else if family_matches(ArmInstructionKind::Swi, instruction) {
        ArmInstructionKind::Swi
    } else {
        ArmInstructionKind::Undefined
    }
}

/// Every opcode decodes to exactly one family or to `Undefined`: what
/// `decode` selects has the opcode's pattern, nothing that is tried
/// before it has, and no other choice meets both conditions.
pub proof fn lemma_decode_selects_one(instruction: u32, kind: ArmInstructionKind)
    ensures
        decodes_to(instruction, decode(instruction)),
        decodes_to(instruction, kind) <==> kind == decode(instruction),
{
}

/// The N flag of a status register: bit 31.
pub open spec fn flag_n(cpsr: u32) -> bool {
    cpsr & 0x8000_0000 != 0
}

/// The Z flag of a status register: bit 30.
pub open spec fn flag_z(cpsr: u32) -> bool {
    cpsr & 0x4000_0000 != 0
}

/// The C flag of a status register: bit 29.
pub open spec fn flag_c(cpsr: u32) -> bool {
    cpsr & 0x2000_0000 != 0
}

/// The V flag of a status register: bit 28.
pub open spec fn flag_v(cpsr: u32) -> bool {
    cpsr & 0x1000_0000 != 0
}

/// Whether the flags of `cpsr` meet the condition with code `cond`:
/// EQ, NE, CS, CC, MI, PL, VS, VC, HI, LS, GE, LT, GT, LE and AL are codes
/// 0 to 14. Code 15, "never", is met by no flags, and neither is a value
/// that is no condition code.
pub open spec fn condition_holds(cond: u8, cpsr: u32) -> bool {
    let n = flag_n(cpsr);
    let z = flag_z(cpsr);
    let c = flag_c(cpsr);
    let v = flag_v(cpsr);
    if cond == 0 {
        z
    } else if cond == 1 {
        !z
    } else if cond == 2 {
        c
    } else if cond == 3 {
        !c
    } else if cond == 4 {
        n
    } else if cond == 5 {
        !n
    } else if cond == 6 {
        v
    } else if cond == 7 {
        !v
    } else if cond == 8 {
        c && !z
    } else if cond == 9 {
        !c || z
    } else if cond == 10 {
        n == v
    } else if cond == 11 {
        n != v
    } else if cond == 12 {
        !z && n == v
    } else if cond == 13 {
        z || n != v
    } else if cond == 14 {
        true
    } else {
        false
    }
}

/// For each condition code, the set of flag values that meet it: bit `f`
/// of an entry is set where the condition holds of the flags whose
/// N, Z, C and V bits, in this order, spell the number `f`.
pub const CONDITION_TABLE: [u32; 16] = [
    0xF0F0,
    0x0F0F,
    0xCCCC,
    0x3333,
    0xFF00,
    0x00FF,
    0xAAAA,
    0x5555,
    0x0C0C,
    0xF3F3,
    0xAA55,
    0x55AA,
    0x0A05,
    0xF5FA,
    0xFFFF,
    0x0000,
];

proof fn lemma_condition_table(cpsr: u32)
    by (bit_vector)
    ensures
        cpsr >> 28 <= 15,
        ((0xF0F0u32 >> (cpsr >> 28)) & 1 == 1) <==> cpsr & 0x4000_0000 != 0,
        ((0x0F0Fu32 >> (cpsr >> 28)) & 1 == 1) <==> !(cpsr & 0x4000_0000 != 0),
        ((0xCCCCu32 >> (cpsr >> 28)) & 1 == 1) <==> cpsr & 0x2000_0000 != 0,
        ((0x3333u32 >> (cpsr >> 28)) & 1 == 1) <==> !(cpsr & 0x2000_0000 != 0),
        ((0xFF00u32 >> (cpsr >> 28)) & 1 == 1) <==> cpsr & 0x8000_0000 != 0,
        ((0x00FFu32 >> (cpsr >> 28)) & 1 == 1) <==> !(cpsr & 0x8000_0000 != 0),
        ((0xAAAAu32 >> (cpsr >> 28)) & 1 == 1) <==> cpsr & 0x1000_0000 != 0,
        ((0x5555u32 >> (cpsr >> 28)) & 1 == 1) <==> !(cpsr & 0x1000_0000 != 0),
        ((0x0C0Cu32 >> (cpsr >> 28)) & 1 == 1) <==> (cpsr & 0x2000_0000 != 0 && !(cpsr
            & 0x4000_0000 != 0)),
        ((0xF3F3u32 >> (cpsr >> 28)) & 1 == 1) <==> (!(cpsr & 0x2000_0000 != 0) || cpsr
            & 0x4000_0000 != 0),
        ((0xAA55u32 >> (cpsr >> 28)) & 1 == 1) <==> ((cpsr & 0x8000_0000 != 0) == (cpsr
            & 0x1000_0000 != 0)),
        ((0x55AAu32 >> (cpsr >> 28)) & 1 == 1) <==> ((cpsr & 0x8000_0000 != 0) != (cpsr
            & 0x1000_0000 != 0)),
        ((0x0A05u32 >> (cpsr >> 28)) & 1 == 1) <==> (!(cpsr & 0x4000_0000 != 0) && ((cpsr
            & 0x8000_0000 != 0) == (cpsr & 0x1000_0000 != 0))),
        ((0xF5FAu32 >> (cpsr >> 28)) & 1 == 1) <==> (cpsr & 0x4000_0000 != 0 || ((cpsr
            & 0x8000_0000 != 0) != (cpsr & 0x1000_0000 != 0))),
        (0xFFFFu32 >> (cpsr >> 28)) & 1 == 1,
        (0x0000u32 >> (cpsr >> 28)) & 1 != 1,
{
}

/// Looks the condition up in the table of flag sets.
pub fn arm_condition_passes(cond: u8, cpsr: u32) -> (r: bool)
    ensures
        r == condition_holds(cond, cpsr),
{
    if cond > 0xF {
        return false;
    }
    let flags: u32 = cpsr >> 28;
    proof {
        lemma_condition_table(cpsr);
    }
    (CONDITION_TABLE[cond as usize] >> flags) & 1 == 1
}

/// The format key of an opcode: bits 27..20 followed by bits 7..4, a
/// number of twelve bits.
pub fn arm_decode_opcode_format_bits(instruction: u32) -> (key: u16)
    ensures
        key == format_key(instruction),
        key <= 0xFFF,
{
    let key: u32 = ((instruction >> 16) & 0x0FF0) | ((instruction >> 4) & 0xF);
    assert(key <= 0xFFF) by (bit_vector)
        requires
            key == ((instruction >> 16) & 0x0FF0) | ((instruction >> 4) & 0xF),
    ;
    key as u16
}

/// The condition field of an opcode: bits 31..28.
pub fn arm_decode_cond_bits(instruction: u32) -> (cond: u8)
    ensures
        cond == cond_bits(instruction),
        cond <= 0xF,
{
    let cond: u32 = (instruction >> 28) & 0xF;
    assert(cond <= 0xF) by (bit_vector)
        requires
            cond == (instruction >> 28) & 0xF,
    ;
    cond as u8
}

/// The operation field of a data-processing opcode: bits 24..21.
pub fn arm_decode_dataproc_opcode(instruction: u32) -> (opcode: u8)
    ensures
        opcode == dataproc_opcode(instruction),
        opcode <= 0xF,
{
    let opcode: u32 = (instruction >> 21) & 0xF;
    assert(opcode <= 0xF) by (bit_vector)
        requires
            opcode == (instruction >> 21) & 0xF,
    ;
    opcode as u8
}

/// Whether the second operand of a data-processing opcode is an
/// immediate value: bit 25 is set.
pub fn arm_is_dataproc_immediate(instruction: u32) -> (r: bool)
    ensures
        r == is_dataproc_immediate(instruction),
{
    ((instruction >> 25) & 1) == 1
}

/// Whether an opcode has the pattern of MUL and MLA.
pub fn is_mul_mla_inst(instruction: u32) -> (r: bool)
    ensures
        r == family_matches(ArmInstructionKind::MulMla, instruction),
{
    (arm_decode_opcode_format_bits(instruction) & MUL_MLA_MASK) == MUL_MLA_FORMAT
}

/// Whether an opcode has the pattern of the long multiplies.
pub fn is_mull_mlal_inst(instruction: u32) -> (r: bool)
    ensures
        r == family_matches(ArmInstructionKind::MullMlal, instruction),
{
    (arm_decode_opcode_format_bits(instruction) & MULL_MLAL_MASK) == MULL_MLAL_FORMAT
}

/// Whether an opcode has the pattern of SWP.
pub fn is_swap_inst(instruction: u32) -> (r: bool)
    ensures
        r == family_matches(ArmInstructionKind::Swp, instruction),
{
    (arm_decode_opcode_format_bits(instruction) & SWP_MASK) == SWP_FORMAT
}

/// Whether an opcode has the pattern of LDRH and STRH.
pub fn is_ldrh_strh_inst(instruction: u32) -> (r: bool)
    ensures
        r == family_matches(ArmInstructionKind::LdrhStrh, instruction),
{
    (arm_decode_opcode_format_bits(instruction) & LDRH_STRH_MASK) == LDRH_STRH_FORMAT
}

/// Whether an opcode has the pattern of LDRSB and LDRSH.
pub fn is_ldrsb_strsh_inst(instruction: u32) -> (r: bool)
    ensures
        r == family_matches(ArmInstructionKind::LdrsbLdrsh, instruction),
{
    (arm_decode_opcode_format_bits(instruction) & LDRSB_LDRSH_MASK) == LDRSB_LDRSH_FORMAT
}

/// Whether an opcode has the pattern of MRS.
pub fn is_mrs_inst(instruction: u32) -> (r: bool)
    ensures
        r == family_matches(ArmInstructionKind::Mrs, instruction),
{
    (arm_decode_opcode_format_bits(instruction) & MRS_MASK) == MRS_FORMAT
}

/// Whether an opcode has the pattern of MSR with a register operand.
pub fn is_msr_reg_inst(instruction: u32) -> (r: bool)
    ensures
        r == family_matches(ArmInstructionKind::MsrReg, instruction),
{
    (arm_decode_opcode_format_bits(instruction) & MSR_REG_MASK) == MSR_REG_FORMAT
}

/// Whether an opcode has the pattern of MSR with an immediate operand.
pub fn is_msr_imm_inst(instruction: u32) -> (r: bool)
    ensures
        r == family_matches(ArmInstructionKind::MsrImm, instruction),
{
    (arm_decode_opcode_format_bits(instruction) & MSR_IMM_MASK) == MSR_IMM_FORMAT
}

/// Whether an opcode has the pattern of BX.
pub fn is_bx_inst(instruction: u32) -> (r: bool)
    ensures
        r == family_matches(ArmInstructionKind::Bx, instruction),
{
    (arm_decode_opcode_format_bits(instruction) & BX_MASK) == BX_FORMAT
}

/// Whether an opcode has the pattern of data processing with a
/// register shifted by an immediate amount.
pub fn is_dataproc_imm_shift_inst(instruction: u32) -> (r: bool)
    ensures
        r == family_matches(ArmInstructionKind::DataprocImmShift, instruction),
{
    (arm_decode_opcode_format_bits(instruction) & DATAPROC_IMM_SHIFT_MASK)
        == DATAPROC_IMM_SHIFT_FORMAT
}

/// Whether an opcode has the pattern of data processing with a
/// register shifted by a register.
pub fn is_dataproc_reg_shift_inst(instruction: u32) -> (r: bool)
    ensures
        r == family_matches(ArmInstructionKind::DataprocRegShift, instruction),
{
    (arm_decode_opcode_format_bits(instruction) & DATAPROC_REG_SHIFT_MASK)
        == DATAPROC_REG_SHIFT_FORMAT
}

/// Whether an opcode has the pattern of the undefined data-processing
/// encodings.
pub fn is_undef_dataproc_inst(instruction: u32) -> (r: bool)
    ensures
        r == family_matches(ArmInstructionKind::UndefDataproc, instruction),
{
    (arm_decode_opcode_format_bits(instruction) & UNDEF_DATAPROC_MASK) == UNDEF_DATAPROC_FORMAT
}

/// Whether an opcode has the pattern of data processing with an
/// immediate operand.
pub fn is_dataproc_imm_value_inst(instruction: u32) -> (r: bool)
    ensures
        r == family_matches(ArmInstructionKind::DataprocImmValue, instruction),
{
    (arm_decode_opcode_format_bits(instruction) & DATAPROC_IMM_VALUE_MASK)
        == DATAPROC_IMM_VALUE_FORMAT
}

/// Whether an opcode has the pattern of LDR and STR with an immediate
/// offset.
pub fn is_ldr_str_imm_offset_inst(instruction: u32) -> (r: bool)
    ensures
        r == family_matches(ArmInstructionKind::LdrStrImmOffset, instruction),
{
    (arm_decode_opcode_format_bits(instruction) & LDR_STR_IMM_OFFSET_MASK)
        == LDR_STR_IMM_OFFSET_FORMAT
}

/// Whether an opcode has the pattern of LDR and STR with a register
/// offset.
pub fn is_ldr_str_reg_offset_inst(instruction: u32) -> (r: bool)
    ensures
        r == family_matches(ArmInstructionKind::LdrStrRegOffset, instruction),
{
    (arm_decode_opcode_format_bits(instruction) & LDR_STR_REG_OFFSET_MASK)
        == LDR_STR_REG_OFFSET_FORMAT
}

/// Whether an opcode has the pattern of LDM and STM.
pub fn is_ldm_stm_inst(instruction: u32) -> (r: bool)
    ensures
        r == family_matches(ArmInstructionKind::LdmStm, instruction),
{
    (arm_decode_opcode_format_bits(instruction) & LDM_STM_MASK) == LDM_STM_FORMAT
}

/// Whether an opcode has the pattern of B and BL.
pub fn is_b_bl_inst(instruction: u32) -> (r: bool)
    ensures
        r == family_matches(ArmInstructionKind::BBl, instruction),
{
    (arm_decode_opcode_format_bits(instruction) & B_BL_MASK) == B_BL_FORMAT
}

/// Whether an opcode has the pattern of STC and LDC.
pub fn is_stc_ldc_inst(instruction: u32) -> (r: bool)
    ensures
        r == family_matches(ArmInstructionKind::StcLdc, instruction),
{
    (arm_decode_opcode_format_bits(instruction) & STC_LDC_MASK) == STC_LDC_FORMAT
}

/// Whether an opcode has the pattern of CDP.
pub fn is_cdp_inst(instruction: u32) -> (r: bool)
    ensures
        r == family_matches(ArmInstructionKind::Cdp, instruction),
{
    (arm_decode_opcode_format_bits(instruction) & CDP_MASK) == CDP_FORMAT
}

/// Whether an opcode has the pattern of MCR and MRC.
pub fn is_mcr_mrc_inst(instruction: u32) -> (r: bool)
    ensures
        r == family_matches(ArmInstructionKind::McrMrc, instruction),
{
    (arm_decode_opcode_format_bits(instruction) & MCR_MRC_MASK) == MCR_MRC_FORMAT
}

/// Whether an opcode has the pattern of SWI.
pub fn is_swi_inst(instruction: u32) -> (r: bool)
    ensures
        r == family_matches(ArmInstructionKind::Swi, instruction),
{
    (arm_decode_opcode_format_bits(instruction) & SWI_MASK) == SWI_FORMAT
}

/// The instruction that does nothing: memory stays as it is.
pub fn nop(instruction: u32, sys_mem: &mut SysMem)
    ensures
        *final(sys_mem) == *old(sys_mem),
{
}

impl ARM7TDMI {
    /// Decodes an opcode: tries the families in their order and gives the
    /// first whose pattern the opcode has, or `Undefined` where none has.
    pub fn decode_arm_instruction(&self, instruction: u32) -> (kind: ArmInstructionKind)
        ensures
            kind == decode(instruction),
            decodes_to(instruction, kind),
    {
        proof {
            lemma_decode_selects_one(instruction, decode(instruction));
        }
        if is_mul_mla_inst(instruction) {
            return ArmInstructionKind::MulMla;
        }
        if is_mull_mlal_inst(instruction) {
            return ArmInstructionKind::MullMlal;
        }
        if is_swap_inst(instruction) {
            return ArmInstructionKind::Swp;
        }
        if is_ldrh_strh_inst(instruction) {
            return ArmInstructionKind::LdrhStrh;
        }
        if is_ldrsb_strsh_inst(instruction) {
            return ArmInstructionKind::LdrsbLdrsh;
        }
        if is_mrs_inst(instruction) {
            return ArmInstructionKind::Mrs;
        }
        if is_msr_reg_inst(instruction) {
            return ArmInstructionKind::MsrReg;
        }
        if is_msr_imm_inst(instruction) {
            return ArmInstructionKind::MsrImm;
        }
        if is_bx_inst(instruction) {
            return ArmInstructionKind::Bx;
        }
        if is_dataproc_imm_shift_inst(instruction) {
            return ArmInstructionKind::DataprocImmShift;
        }
        if is_dataproc_reg_shift_inst(instruction) {
            return ArmInstructionKind::DataprocRegShift;
        }
        if is_undef_dataproc_inst(instruction) {
            return ArmInstructionKind::UndefDataproc;
        }
        if is_dataproc_imm_value_inst(instruction) {
            return ArmInstructionKind::DataprocImmValue;
        }
        if is_ldr_str_imm_offset_inst(instruction) {
            return ArmInstructionKind::LdrStrImmOffset;
        }
        if is_ldr_str_reg_offset_inst(instruction) {
            return ArmInstructionKind::LdrStrRegOffset;
        }
        if is_ldm_stm_inst(instruction) {
            return ArmInstructionKind::LdmStm;
        }
        if is_b_bl_inst(instruction) {
            return ArmInstructionKind::BBl;
        }
        if is_stc_ldc_inst(instruction) {
            return ArmInstructionKind::StcLdc;
        }
        if is_cdp_inst(instruction) {
            return ArmInstructionKind::Cdp;
        }
        if is_mcr_mrc_inst(instruction) {
            return ArmInstructionKind::McrMrc;
        }
        if is_swi_inst(instruction) {
            return ArmInstructionKind::Swi;
        }
        ArmInstructionKind::Undefined
    }
}

} // verus!
