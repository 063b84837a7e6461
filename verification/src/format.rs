//! The encoding selector: given an instruction shape and its prefix
//! descriptor, decide which ModR/M emission strategy applies. The decision is
//! a total case analysis over the operand-kind sequence; any sequence outside
//! the enumerated set is rejected, never defaulted.

use vstd::prelude::*;
use crate::dsl::{Evex, Format, GenError, Length, OperandKind, Rex, TupleType, Vex};

verus! {

/// How the Reg/Opcode field of the ModR/M byte is filled: from a static
/// three-bit digit, or from the register operand at the given index.
#[derive(Copy, Clone, PartialEq, Eq, Debug)]
pub enum ModRmReg {
    Digit(u8),
    Reg(usize),
}

/// The ModR/M emission strategy for one instruction shape. Register operands
/// are referred to by their index in the shape's operand list.
#[derive(Copy, Clone, PartialEq, Eq, Debug)]
pub enum ModRmStyle {
    /// No ModR/M byte at all.
    NoModRm,
    /// Register-direct form: both fields are register-encoded, no memory
    /// operand is possible.
    Reg { reg: ModRmReg, rm: usize },
    /// The R/M field holds a register or a memory address.
    RegMem { reg: ModRmReg, rm: usize, evex_scaling: Option<i8> },
    /// As `RegMem`, with a fourth register operand packed into the top
    /// nibble of a byte trailing the ModR/M region.
    RegMemIs4 { reg: ModRmReg, rm: usize, is4: usize, evex_scaling: Option<i8> },
}

/// A vector-prefix strategy: the ModR/M strategy plus the operand index
/// feeding the prefix's extra register field, when one participates.
#[derive(Copy, Clone, PartialEq, Eq, Debug)]
pub struct VexStyle {
    pub modrm: ModRmStyle,
    /// Index of the operand encoded in the prefix's vvvv field; when absent
    /// the field encodes zero.
    pub vvvv: Option<usize>,
}

/// The legacy digit-driven memory arms: shapes whose Reg/Opcode field must
/// come from a static digit, with the index of the R/M operand.
pub open spec fn spec_rex_digit_mem_rm(ks: Seq<OperandKind>) -> Option<usize> {
    let n = ks.len();
    if n == 2 && ks[0] is FixedReg && ks[1] is RegMem {
        Some(1usize)
    } else if n == 3 && ks[0] is FixedReg && ks[1] is FixedReg && ks[2] is RegMem {
        Some(2usize)
    } else if n == 2 && ks[0] is RegMem && ks[1] is FixedReg {
        Some(0usize)
    } else if n == 2 && ks[0] is Mem && ks[1] is Imm {
        Some(0usize)
    } else if n == 2 && ks[0] is RegMem && ks[1] is Imm {
        Some(0usize)
    } else if n == 1 && ks[0] is RegMem {
        Some(0usize)
    } else if n == 5 && ks[0] is FixedReg && ks[1] is FixedReg && ks[2] is FixedReg
        && ks[3] is FixedReg && ks[4] is Mem {
        Some(4usize)
    } else {
        None
    }
}

/// The legacy register-plus-memory arms: (reg index, rm index).
pub open spec fn spec_rex_reg_mem(ks: Seq<OperandKind>) -> Option<(usize, usize)> {
    let n = ks.len();
    if n == 2 && ks[0] is Reg && (ks[1] is RegMem || ks[1] is Mem) {
        Some((0usize, 1usize))
    } else if n == 3 && ks[0] is Reg && ks[1] is RegMem && (ks[2] is Imm || ks[2] is FixedReg) {
        Some((0usize, 1usize))
    } else if n == 2 && (ks[0] is RegMem || ks[0] is Mem) && ks[1] is Reg {
        Some((1usize, 0usize))
    } else if n == 3 && (ks[0] is RegMem || ks[0] is Mem) && ks[1] is Reg && (ks[2] is Imm
        || ks[2] is FixedReg) {
        Some((1usize, 0usize))
    } else {
        None
    }
}

/// The ModR/M strategy of a legacy-prefixed shape, or the generation error
/// that rejects the combination.
pub open spec fn spec_rex_style(
    ks: Seq<OperandKind>,
    digit: Option<u8>,
    opcode_mod: bool,
) -> Result<ModRmStyle, GenError> {
    let n = ks.len();
    if n == 0 || (n == 1 && ks[0] is Imm) {
        Ok(ModRmStyle::NoModRm)
    } else if (n == 2 && ks[0] is FixedReg && ks[1] is FixedReg) || (n == 1 && ks[0] is FixedReg)
        || (n == 2 && ks[0] is FixedReg && ks[1] is Imm) {
        if digit is Some {
            Err(GenError::DigitPresent)
        } else {
            Ok(ModRmStyle::NoModRm)
        }
    } else if n == 1 && ks[0] is Reg {
        if digit is Some {
            Err(GenError::DigitPresent)
        } else if !opcode_mod {
            Err(GenError::OpcodeModMissing)
        } else {
            Ok(ModRmStyle::NoModRm)
        }
    } else if n == 2 && ks[0] is Reg && ks[1] is Imm {
        match digit {
            Some(d) => Ok(ModRmStyle::Reg { reg: ModRmReg::Digit(d), rm: 0usize }),
            None => if !opcode_mod {
                Err(GenError::OpcodeModMissing)
            } else {
                Ok(ModRmStyle::NoModRm)
            },
        }
    } else if spec_rex_digit_mem_rm(ks) is Some {
        match digit {
            Some(d) => Ok(
                ModRmStyle::RegMem {
                    reg: ModRmReg::Digit(d),
                    rm: spec_rex_digit_mem_rm(ks)->Some_0,
                    evex_scaling: None,
                },
            ),
            None => Err(GenError::DigitMissing),
        }
    } else if spec_rex_reg_mem(ks) is Some {
        if digit is Some {
            Err(GenError::DigitPresent)
        } else {
            let (rg, rm) = spec_rex_reg_mem(ks)->Some_0;
            Ok(ModRmStyle::RegMem { reg: ModRmReg::Reg(rg), rm, evex_scaling: None })
        }
    } else if (n == 3 && ks[0] is Reg && ks[1] is Reg && ks[2] is Imm) || (n == 2 && ks[0] is Reg
        && ks[1] is Reg) {
        if digit is Some {
            Err(GenError::DigitPresent)
        } else {
            Ok(ModRmStyle::Reg { reg: ModRmReg::Reg(0usize), rm: 1usize })
        }
    } else {
        Err(GenError::UnsupportedShape)
    }
}

/// The canonical three-operand vector arms: (reg index, vvvv index, rm index).
pub open spec fn spec_vex_three_op(ks: Seq<OperandKind>) -> Option<(usize, usize, usize)> {
    let n = ks.len();
    if n == 3 && ks[0] is Reg && ks[1] is Reg && ks[2] is RegMem {
        Some((0usize, 1usize, 2usize))
    } else if n == 3 && ks[0] is Reg && ks[1] is Reg && ks[2] is Mem {
        Some((0usize, 1usize, 2usize))
    } else if n == 4 && ks[0] is Reg && ks[1] is Reg && ks[2] is RegMem && (ks[3] is Imm
        || ks[3] is FixedReg) {
        Some((0usize, 1usize, 2usize))
    } else if n == 3 && ks[0] is Reg && ks[1] is RegMem && ks[2] is Reg {
        Some((0usize, 2usize, 1usize))
    } else {
        None
    }
}

/// The two-operand vector arms whose Reg/Opcode field may instead come from
/// a digit, freeing the remaining register for vvvv: (register index, rm
/// index).
pub open spec fn spec_vex_two_op_rm(ks: Seq<OperandKind>) -> Option<(usize, usize)> {
    let n = ks.len();
    if n == 2 && ks[0] is Reg && ks[1] is RegMem {
        Some((0usize, 1usize))
    } else if n == 2 && ks[0] is RegMem && ks[1] is Reg {
        Some((1usize, 0usize))
    } else if n == 3 && ks[0] is Reg && ks[1] is RegMem && ks[2] is Imm {
        Some((0usize, 1usize))
    } else {
        None
    }
}

/// The two-operand vector arms with a pure-memory or immediate-bearing
/// register-memory operand: (reg index, rm index).
pub open spec fn spec_vex_reg_mem(ks: Seq<OperandKind>) -> Option<(usize, usize)> {
    let n = ks.len();
    if n == 2 && ks[0] is Reg && ks[1] is Mem {
        Some((0usize, 1usize))
    } else if n == 2 && ks[0] is Mem && ks[1] is Reg {
        Some((1usize, 0usize))
    } else if n == 3 && ks[0] is RegMem && ks[1] is Reg && ks[2] is Imm {
        Some((1usize, 0usize))
    } else {
        None
    }
}

/// The strategy of a vector-prefixed shape (either family), or the
/// generation error rejecting the combination. `scaling` is the
/// compressed-displacement factor of the extended family, absent for the
/// short family.
pub open spec fn spec_vex_style(
    ks: Seq<OperandKind>,
    digit: Option<u8>,
    is4: bool,
    scaling: Option<i8>,
) -> Result<VexStyle, GenError> {
    let n = ks.len();
    if n == 3 && ks[0] is Reg && ks[1] is Reg && ks[2] is Reg {
        if is4 {
            Err(GenError::Is4Conflict)
        } else if digit is Some {
            Err(GenError::DigitPresent)
        } else {
            Ok(
                VexStyle {
                    modrm: ModRmStyle::Reg { reg: ModRmReg::Reg(0usize), rm: 2usize },
                    vvvv: Some(1usize),
                },
            )
        }
    } else if spec_vex_three_op(ks) is Some {
        let (rg, vv, rm) = spec_vex_three_op(ks)->Some_0;
        if is4 {
            Err(GenError::Is4Conflict)
        } else if digit is Some {
            Err(GenError::DigitPresent)
        } else {
            Ok(
                VexStyle {
                    modrm: ModRmStyle::RegMem {
                        reg: ModRmReg::Reg(rg),
                        rm,
                        evex_scaling: scaling,
                    },
                    vvvv: Some(vv),
                },
            )
        }
    } else if n == 4 && ks[0] is Reg && ks[1] is Reg && ks[2] is RegMem && ks[3] is Reg {
        if !is4 {
            Err(GenError::Is4Conflict)
        } else if digit is Some {
            Err(GenError::DigitPresent)
        } else {
            Ok(
                VexStyle {
                    modrm: ModRmStyle::RegMemIs4 {
                        reg: ModRmReg::Reg(0usize),
                        rm: 2usize,
                        is4: 3usize,
                        evex_scaling: scaling,
                    },
                    vvvv: Some(1usize),
                },
            )
        }
    } else if spec_vex_two_op_rm(ks) is Some {
        let (a, rm) = spec_vex_two_op_rm(ks)->Some_0;
        if is4 {
            Err(GenError::Is4Conflict)
        } else {
            match digit {
                Some(d) => Ok(
                    VexStyle {
                        modrm: ModRmStyle::RegMem {
                            reg: ModRmReg::Digit(d),
                            rm,
                            evex_scaling: scaling,
                        },
                        vvvv: Some(a),
                    },
                ),
                None => Ok(
                    VexStyle {
                        modrm: ModRmStyle::RegMem {
                            reg: ModRmReg::Reg(a),
                            rm,
                            evex_scaling: scaling,
                        },
                        vvvv: None,
                    },
                ),
            }
        }
    } else if (n == 2 && ks[0] is Reg && ks[1] is Reg) || (n == 3 && ks[0] is Reg && ks[1] is Reg
        && ks[2] is Imm) {
        if is4 {
            Err(GenError::Is4Conflict)
        } else {
            match digit {
                Some(d) => Ok(
                    VexStyle {
                        modrm: ModRmStyle::Reg { reg: ModRmReg::Digit(d), rm: 1usize },
                        vvvv: Some(0usize),
                    },
                ),
                None => Ok(
                    VexStyle {
                        modrm: ModRmStyle::Reg { reg: ModRmReg::Reg(0usize), rm: 1usize },
                        vvvv: None,
                    },
                ),
            }
        }
    } else if spec_vex_reg_mem(ks) is Some {
        let (rg, rm) = spec_vex_reg_mem(ks)->Some_0;
        if is4 {
            Err(GenError::Is4Conflict)
        } else if digit is Some {
            Err(GenError::DigitPresent)
        } else {
            Ok(
                VexStyle {
                    modrm: ModRmStyle::RegMem { reg: ModRmReg::Reg(rg), rm, evex_scaling: scaling },
                    vvvv: None,
                },
            )
        }
    } else {
        Err(GenError::UnsupportedShape)
    }
}

/// Byte width of a vector length class, for the classes with a defined
/// extended-prefix encoding.
pub open spec fn spec_length_bytes(l: Length) -> Result<i8, GenError> {
    match l {
        Length::L128 => Ok(16i8),
        Length::L256 => Ok(32i8),
        Length::L512 => Ok(64i8),
        Length::LZ => Err(GenError::UnsupportedLength),
        Length::LIG => Err(GenError::UnsupportedLength),
    }
}

/// The compressed-displacement scaling factor of an extended vector-prefixed
/// instruction, from its tuple-type classification and length class.
/// Classifications without a defined factor here are rejected.
pub open spec fn spec_evex_scaling(tt: TupleType, l: Length) -> Result<i8, GenError> {
    match spec_length_bytes(l) {
        Err(e) => Err(e),
        Ok(lb) => match tt {
            TupleType::Full => Ok(lb),
            TupleType::Half => Ok((lb / 2) as i8),
            TupleType::FullMem => Ok(lb),
            TupleType::Tuple1Scalar => Err(GenError::UnsupportedTupleType),
            TupleType::Tuple1Fixed => Err(GenError::UnsupportedTupleType),
            TupleType::Tuple2 => Err(GenError::UnsupportedTupleType),
            TupleType::Tuple4 => Err(GenError::UnsupportedTupleType),
            TupleType::Tuple8 => Ok(32i8),
            TupleType::HalfMem => Ok((lb / 2) as i8),
            TupleType::QuarterMem => Ok((lb / 4) as i8),
            TupleType::EigthMem => Ok((lb / 8) as i8),
            TupleType::Mem128 => Ok(16i8),
            TupleType::Movddup => match l {
                Length::L128 => Ok(8i8),
                Length::L256 => Ok(32i8),
                Length::L512 => Ok(64i8),
                Length::LZ => Err(GenError::UnsupportedLength),
                Length::LIG => Err(GenError::UnsupportedLength),
            },
        },
    }
}

impl Format {
    fn kind_at(&self, i: usize) -> (r: OperandKind)
        requires
            i < self.operands@.len(),
        ensures
            r == self.kinds()[i as int],
    {
        self.operands[i].kind
    }
}

/// Select the ModR/M strategy of a legacy-prefixed shape.
pub fn select_rex_style(fmt: &Format, rex: &Rex) -> (r: Result<ModRmStyle, GenError>)
    ensures
        r == spec_rex_style(fmt.kinds(), rex.digit, rex.opcode_mod),
{
    let ghost ks = fmt.kinds();
    let n = fmt.operands.len();
    proof {
        assert(ks.len() == n);
    }
    if n == 0 || (n == 1 && fmt.kind_at(0) == OperandKind::Imm) {
        return Ok(ModRmStyle::NoModRm);
    }
    let k0 = fmt.kind_at(0);
    if (n == 2 && k0 == OperandKind::FixedReg && fmt.kind_at(1) == OperandKind::FixedReg) || (n
        == 1 && k0 == OperandKind::FixedReg) || (n == 2 && k0 == OperandKind::FixedReg
        && fmt.kind_at(1) == OperandKind::Imm) {
        return if rex.digit.is_some() {
            Err(GenError::DigitPresent)
        } else {
            Ok(ModRmStyle::NoModRm)
        };
    }
    if n == 1 && k0 == OperandKind::Reg {
        return if rex.digit.is_some() {
            Err(GenError::DigitPresent)
        } else if !rex.opcode_mod {
            Err(GenError::OpcodeModMissing)
        } else {
            Ok(ModRmStyle::NoModRm)
        };
    }
    if n == 2 && k0 == OperandKind::Reg && fmt.kind_at(1) == OperandKind::Imm {
        return match rex.digit {
            Some(d) => Ok(ModRmStyle::Reg { reg: ModRmReg::Digit(d), rm: 0 }),
            None => if !rex.opcode_mod {
                Err(GenError::OpcodeModMissing)
            } else {
                Ok(ModRmStyle::NoModRm)
            },
        };
    }
    if let Some(rm) = rex_digit_mem_rm(fmt) {
        return match rex.digit {
            Some(d) => Ok(ModRmStyle::RegMem { reg: ModRmReg::Digit(d), rm, evex_scaling: None }),
            None => Err(GenError::DigitMissing),
        };
    }
    if let Some((rg, rm)) = rex_reg_mem(fmt) {
        return if rex.digit.is_some() {
            Err(GenError::DigitPresent)
        } else {
            Ok(ModRmStyle::RegMem { reg: ModRmReg::Reg(rg), rm, evex_scaling: None })
        };
    }
    if (n == 3 && k0 == OperandKind::Reg && fmt.kind_at(1) == OperandKind::Reg && fmt.kind_at(2)
        == OperandKind::Imm) || (n == 2 && k0 == OperandKind::Reg && fmt.kind_at(1)
        == OperandKind::Reg) {
        return if rex.digit.is_some() {
            Err(GenError::DigitPresent)
        } else {
            Ok(ModRmStyle::Reg { reg: ModRmReg::Reg(0), rm: 1 })
        };
    }
    Err(GenError::UnsupportedShape)
}

fn rex_digit_mem_rm(fmt: &Format) -> (r: Option<usize>)
    ensures
        r == spec_rex_digit_mem_rm(fmt.kinds()),
{
    let n = fmt.operands.len();
    proof {
        assert(fmt.kinds().len() == n);
    }
    if n == 2 && fmt.kind_at(0) == OperandKind::FixedReg && fmt.kind_at(1) == OperandKind::RegMem {
        Some(1)
    } else if n == 3 && fmt.kind_at(0) == OperandKind::FixedReg && fmt.kind_at(1)
        == OperandKind::FixedReg && fmt.kind_at(2) == OperandKind::RegMem {
        Some(2)
    } else if n == 2 && fmt.kind_at(0) == OperandKind::RegMem && fmt.kind_at(1)
        == OperandKind::FixedReg {
        Some(0)
    } else if n == 2 && fmt.kind_at(0) == OperandKind::Mem && fmt.kind_at(1) == OperandKind::Imm {
        Some(0)
    } else if n == 2 && fmt.kind_at(0) == OperandKind::RegMem && fmt.kind_at(1)
        == OperandKind::Imm {
        Some(0)
    } else if n == 1 && fmt.kind_at(0) == OperandKind::RegMem {
        Some(0)
    } else if n == 5 && fmt.kind_at(0) == OperandKind::FixedReg && fmt.kind_at(1)
        == OperandKind::FixedReg && fmt.kind_at(2) == OperandKind::FixedReg && fmt.kind_at(3)
        == OperandKind::FixedReg && fmt.kind_at(4) == OperandKind::Mem {
        Some(4)
    } else {
        None
    }
}

fn rex_reg_mem(fmt: &Format) -> (r: Option<(usize, usize)>)
    ensures
        r == spec_rex_reg_mem(fmt.kinds()),
{
    let n = fmt.operands.len();
    proof {
        assert(fmt.kinds().len() == n);
    }
    if n == 2 && fmt.kind_at(0) == OperandKind::Reg && (fmt.kind_at(1) == OperandKind::RegMem
        || fmt.kind_at(1) == OperandKind::Mem) {
        Some((0, 1))
    } else if n == 3 && fmt.kind_at(0) == OperandKind::Reg && fmt.kind_at(1) == OperandKind::RegMem
        && (fmt.kind_at(2) == OperandKind::Imm || fmt.kind_at(2) == OperandKind::FixedReg) {
        Some((0, 1))
    } else if n == 2 && (fmt.kind_at(0) == OperandKind::RegMem || fmt.kind_at(0)
        == OperandKind::Mem) && fmt.kind_at(1) == OperandKind::Reg {
        Some((1, 0))
    } else if n == 3 && (fmt.kind_at(0) == OperandKind::RegMem || fmt.kind_at(0)
        == OperandKind::Mem) && fmt.kind_at(1) == OperandKind::Reg && (fmt.kind_at(2)
        == OperandKind::Imm || fmt.kind_at(2) == OperandKind::FixedReg) {
        Some((1, 0))
    } else {
        None
    }
}

fn vex_three_op(fmt: &Format) -> (r: Option<(usize, usize, usize)>)
    ensures
        r == spec_vex_three_op(fmt.kinds()),
{
    let n = fmt.operands.len();
    proof {
        assert(fmt.kinds().len() == n);
    }
    if n == 3 && fmt.kind_at(0) == OperandKind::Reg && fmt.kind_at(1) == OperandKind::Reg
        && fmt.kind_at(2) == OperandKind::RegMem {
        Some((0, 1, 2))
    } else if n == 3 && fmt.kind_at(0) == OperandKind::Reg && fmt.kind_at(1) == OperandKind::Reg
        && fmt.kind_at(2) == OperandKind::Mem {
        Some((0, 1, 2))
    } else if n == 4 && fmt.kind_at(0) == OperandKind::Reg && fmt.kind_at(1) == OperandKind::Reg
        && fmt.kind_at(2) == OperandKind::RegMem && (fmt.kind_at(3) == OperandKind::Imm
        || fmt.kind_at(3) == OperandKind::FixedReg) {
        Some((0, 1, 2))
    } else if n == 3 && fmt.kind_at(0) == OperandKind::Reg && fmt.kind_at(1) == OperandKind::RegMem
        && fmt.kind_at(2) == OperandKind::Reg {
        Some((0, 2, 1))
    } else {
        None
    }
}

fn vex_two_op_rm(fmt: &Format) -> (r: Option<(usize, usize)>)
    ensures
        r == spec_vex_two_op_rm(fmt.kinds()),
{
    let n = fmt.operands.len();
    proof {
        assert(fmt.kinds().len() == n);
    }
    if n == 2 && fmt.kind_at(0) == OperandKind::Reg && fmt.kind_at(1) == OperandKind::RegMem {
        Some((0, 1))
    } else if n == 2 && fmt.kind_at(0) == OperandKind::RegMem && fmt.kind_at(1)
        == OperandKind::Reg {
        Some((1, 0))
    } else if n == 3 && fmt.kind_at(0) == OperandKind::Reg && fmt.kind_at(1) == OperandKind::RegMem
        && fmt.kind_at(2) == OperandKind::Imm {
        Some((0, 1))
    } else {
        None
    }
}

fn vex_reg_mem(fmt: &Format) -> (r: Option<(usize, usize)>)
    ensures
        r == spec_vex_reg_mem(fmt.kinds()),
{
    let n = fmt.operands.len();
    proof {
        assert(fmt.kinds().len() == n);
    }
    if n == 2 && fmt.kind_at(0) == OperandKind::Reg && fmt.kind_at(1) == OperandKind::Mem {
        Some((0, 1))
    } else if n == 2 && fmt.kind_at(0) == OperandKind::Mem && fmt.kind_at(1) == OperandKind::Reg {
        Some((1, 0))
    } else if n == 3 && fmt.kind_at(0) == OperandKind::RegMem && fmt.kind_at(1) == OperandKind::Reg
        && fmt.kind_at(2) == OperandKind::Imm {
        Some((1, 0))
    } else {
        None
    }
}

fn vex_style(fmt: &Format, digit: Option<u8>, is4: bool, scaling: Option<i8>) -> (r: Result<
    VexStyle,
    GenError,
>)
    ensures
        r == spec_vex_style(fmt.kinds(), digit, is4, scaling),
{
    let n = fmt.operands.len();
    proof {
        assert(fmt.kinds().len() == n);
    }
    if n == 3 && fmt.kind_at(0) == OperandKind::Reg && fmt.kind_at(1) == OperandKind::Reg
        && fmt.kind_at(2) == OperandKind::Reg {
        return if is4 {
            Err(GenError::Is4Conflict)
        } else if digit.is_some() {
            Err(GenError::DigitPresent)
        } else {
            Ok(VexStyle { modrm: ModRmStyle::Reg { reg: ModRmReg::Reg(0), rm: 2 }, vvvv: Some(1) })
        };
    }
    if let Some((rg, vv, rm)) = vex_three_op(fmt) {
        return if is4 {
            Err(GenError::Is4Conflict)
        } else if digit.is_some() {
            Err(GenError::DigitPresent)
        } else {
            Ok(
                VexStyle {
                    modrm: ModRmStyle::RegMem { reg: ModRmReg::Reg(rg), rm, evex_scaling: scaling },
                    vvvv: Some(vv),
                },
            )
        };
    }
    if n == 4 && fmt.kind_at(0) == OperandKind::Reg && fmt.kind_at(1) == OperandKind::Reg
        && fmt.kind_at(2) == OperandKind::RegMem && fmt.kind_at(3) == OperandKind::Reg {
        return if !is4 {
            Err(GenError::Is4Conflict)
        } else if digit.is_some() {
            Err(GenError::DigitPresent)
        } else {
            Ok(
                VexStyle {
                    modrm: ModRmStyle::RegMemIs4 {
                        reg: ModRmReg::Reg(0),
                        rm: 2,
                        is4: 3,
                        evex_scaling: scaling,
                    },
                    vvvv: Some(1),
                },
            )
        };
    }
    if let Some((a, rm)) = vex_two_op_rm(fmt) {
        return if is4 {
            Err(GenError::Is4Conflict)
        } else {
            match digit {
                Some(d) => Ok(
                    VexStyle {
                        modrm: ModRmStyle::RegMem {
                            reg: ModRmReg::Digit(d),
                            rm,
                            evex_scaling: scaling,
                        },
                        vvvv: Some(a),
                    },
                ),
                None => Ok(
                    VexStyle {
                        modrm: ModRmStyle::RegMem {
                            reg: ModRmReg::Reg(a),
                            rm,
                            evex_scaling: scaling,
                        },
                        vvvv: None,
                    },
                ),
            }
        };
    }
    if (n == 2 && fmt.kind_at(0) == OperandKind::Reg && fmt.kind_at(1) == OperandKind::Reg) || (n
        == 3 && fmt.kind_at(0) == OperandKind::Reg && fmt.kind_at(1) == OperandKind::Reg
        && fmt.kind_at(2) == OperandKind::Imm) {
        return if is4 {
            Err(GenError::Is4Conflict)
        } else {
            match digit {
                Some(d) => Ok(
                    VexStyle {
                        modrm: ModRmStyle::Reg { reg: ModRmReg::Digit(d), rm: 1 },
                        vvvv: Some(0),
                    },
                ),
                None => Ok(
                    VexStyle {
                        modrm: ModRmStyle::Reg { reg: ModRmReg::Reg(0), rm: 1 },
                        vvvv: None,
                    },
                ),
            }
        };
    }
    if let Some((rg, rm)) = vex_reg_mem(fmt) {
        return if is4 {
            Err(GenError::Is4Conflict)
        } else if digit.is_some() {
            Err(GenError::DigitPresent)
        } else {
            Ok(
                VexStyle {
                    modrm: ModRmStyle::RegMem { reg: ModRmReg::Reg(rg), rm, evex_scaling: scaling },
                    vvvv: None,
                },
            )
        };
    }
    Err(GenError::UnsupportedShape)
}

/// The full strategy decision of a short vector-prefixed shape.
pub open spec fn spec_select_vex_style(fmt: &Format, vex: &Vex) -> Result<VexStyle, GenError> {
    if vex.length is L512 {
        Err(GenError::UnsupportedLength)
    } else if vex.mmmmm is None {
        Err(GenError::OpcodeMapMissing)
    } else {
        spec_vex_style(fmt.kinds(), vex.digit, vex.is4, None)
    }
}

/// Select the strategy of a short vector-prefixed shape.
pub fn select_vex_style(fmt: &Format, vex: &Vex) -> (r: Result<VexStyle, GenError>)
    ensures
        r == spec_select_vex_style(fmt, vex),
{
    if vex.length == Length::L512 {
        return Err(GenError::UnsupportedLength);
    }
    if vex.mmmmm.is_none() {
        return Err(GenError::OpcodeMapMissing);
    }
    vex_style(fmt, vex.digit, vex.is4, None)
}

/// The full strategy decision of an extended vector-prefixed shape.
pub open spec fn spec_select_evex_style(fmt: &Format, evex: &Evex) -> Result<VexStyle, GenError> {
    if evex.mmm is None {
        Err(GenError::OpcodeMapMissing)
    } else {
        match spec_evex_scaling(evex.tuple_type, evex.length) {
            Err(e) => Err(e),
            Ok(sc) => spec_vex_style(fmt.kinds(), evex.digit, false, Some(sc)),
        }
    }
}

/// Select the strategy of an extended vector-prefixed shape; the
/// compressed-displacement scaling factor is computed from the tuple type
/// and attached to memory-capable strategies.
pub fn select_evex_style(fmt: &Format, evex: &Evex) -> (r: Result<VexStyle, GenError>)
    ensures
        r == spec_select_evex_style(fmt, evex),
{
    if evex.mmm.is_none() {
        return Err(GenError::OpcodeMapMissing);
    }
    let sc = match evex_scaling(evex) {
        Ok(sc) => sc,
        Err(e) => {
            return Err(e);
        },
    };
    vex_style(fmt, evex.digit, false, Some(sc))
}

/// Compute the compressed-displacement scaling factor of an extended
/// vector-prefixed instruction.
pub fn evex_scaling(evex: &Evex) -> (r: Result<i8, GenError>)
    ensures
        r == spec_evex_scaling(evex.tuple_type, evex.length),
{
    let lb: i8 = match evex.length {
        Length::L128 => 16,
        Length::L256 => 32,
        Length::L512 => 64,
        _ => {
            return Err(GenError::UnsupportedLength);
        },
    };
    match evex.tuple_type {
        TupleType::Full => Ok(lb),
        TupleType::Half => Ok(lb / 2),
        TupleType::FullMem => Ok(lb),
        TupleType::Tuple1Scalar => Err(GenError::UnsupportedTupleType),
        TupleType::Tuple1Fixed => Err(GenError::UnsupportedTupleType),
        TupleType::Tuple2 => Err(GenError::UnsupportedTupleType),
        TupleType::Tuple4 => Err(GenError::UnsupportedTupleType),
        TupleType::Tuple8 => Ok(32),
        TupleType::HalfMem => Ok(lb / 2),
        TupleType::QuarterMem => Ok(lb / 4),
        TupleType::EigthMem => Ok(lb / 8),
        TupleType::Mem128 => Ok(16),
        TupleType::Movddup => match evex.length {
            Length::L128 => Ok(8),
            Length::L256 => Ok(32),
            Length::L512 => Ok(64),
            _ => Err(GenError::UnsupportedLength),
        },
    }
}

} // verus!

verus! {

/// The full generation-time decision of a legacy-prefixed shape: the ModR/M
/// strategy, with the register-in-opcode configuration validated against the
/// leading operand.
pub open spec fn spec_select_rex_encoding(fmt: &Format, rex: &Rex) -> Result<ModRmStyle, GenError> {
    match spec_rex_style(fmt.kinds(), rex.digit, rex.opcode_mod) {
        Err(e) => Err(e),
        Ok(st) => if rex.opcode_mod && !(fmt.kinds().len() >= 1 && fmt.kinds()[0] is Reg) {
            Err(GenError::OpcodeModConflict)
        } else {
            Ok(st)
        },
    }
}

/// Decide the ModR/M strategy of a legacy-prefixed shape and validate the
/// register-in-opcode configuration.
pub fn select_rex_encoding(fmt: &Format, rex: &Rex) -> (r: Result<ModRmStyle, GenError>)
    ensures
        r == spec_select_rex_encoding(fmt, rex),
{
    let st = match select_rex_style(fmt, rex) {
        Ok(st) => st,
        Err(e) => {
            return Err(e);
        },
    };
    if rex.opcode_mod && !(fmt.operands.len() >= 1 && fmt.kind_at(0) == OperandKind::Reg) {
        return Err(GenError::OpcodeModConflict);
    }
    Ok(st)
}

/// Every strategy a legacy selection yields refers only to operands the
/// shape has, of the kinds the strategy expects; a digit comes from the
/// descriptor; the legacy path never attaches a scaling factor and never
/// yields the is4 strategy.
pub proof fn lemma_rex_style_ok(ks: Seq<OperandKind>, digit: Option<u8>, opcode_mod: bool)
    requires
        spec_rex_style(ks, digit, opcode_mod) is Ok,
    ensures
        ({
            let st = spec_rex_style(ks, digit, opcode_mod)->Ok_0;
            match st {
                ModRmStyle::NoModRm => ks.len() == 0 || ks[0] is Imm || ks[0] is FixedReg
                    || ks[0] is Reg,
                ModRmStyle::Reg { reg, rm } => rm < ks.len() && ks[rm as int] is Reg && (
                match reg {
                    ModRmReg::Reg(i) => i < ks.len() && ks[i as int] is Reg,
                    ModRmReg::Digit(d) => digit == Some(d),
                }),
                ModRmStyle::RegMem { reg, rm, evex_scaling } => rm < ks.len() && (
                ks[rm as int] is RegMem || ks[rm as int] is Mem) && evex_scaling is None && (
                match reg {
                    ModRmReg::Reg(i) => i < ks.len() && ks[i as int] is Reg,
                    ModRmReg::Digit(d) => digit == Some(d),
                }),
                ModRmStyle::RegMemIs4 { .. } => false,
            }
        }),
{
}

/// Every strategy a vector selection yields refers only to operands the
/// shape has, of the kinds the strategy expects; a digit comes from the
/// descriptor; memory-capable strategies carry exactly the scaling factor
/// handed in, and the vvvv operand is a register.
pub proof fn lemma_vex_style_ok(
    ks: Seq<OperandKind>,
    digit: Option<u8>,
    is4: bool,
    scaling: Option<i8>,
)
    requires
        spec_vex_style(ks, digit, is4, scaling) is Ok,
    ensures
        ({
            let st = spec_vex_style(ks, digit, is4, scaling)->Ok_0;
            &&& match st.modrm {
                ModRmStyle::NoModRm => false,
                ModRmStyle::Reg { reg, rm } => rm < ks.len() && ks[rm as int] is Reg && (
                match reg {
                    ModRmReg::Reg(i) => i < ks.len() && ks[i as int] is Reg,
                    ModRmReg::Digit(d) => digit == Some(d),
                }),
                ModRmStyle::RegMem { reg, rm, evex_scaling } => rm < ks.len() && (
                ks[rm as int] is RegMem || ks[rm as int] is Mem) && evex_scaling == scaling && (
                match reg {
                    ModRmReg::Reg(i) => i < ks.len() && ks[i as int] is Reg,
                    ModRmReg::Digit(d) => digit == Some(d),
                }),
                ModRmStyle::RegMemIs4 { reg, rm, is4: i4, evex_scaling } => rm < ks.len()
                    && ks[rm as int] is RegMem && i4 < ks.len() && ks[i4 as int] is Reg
                    && evex_scaling == scaling && (match reg {
                    ModRmReg::Reg(i) => i < ks.len() && ks[i as int] is Reg,
                    ModRmReg::Digit(d) => digit == Some(d),
                }),
            }
            &&& match st.vvvv {
                Some(i) => i < ks.len() && ks[i as int] is Reg,
                None => true,
            }
        }),
{
}

} // verus!

verus! {

/// The strategy carrying the fourth-register byte arises only for shapes
/// without any immediate operand: the trailing is4 byte and an immediate are
/// never both emitted.
pub proof fn lemma_is4_excludes_immediate(
    ks: Seq<OperandKind>,
    digit: Option<u8>,
    is4: bool,
    scaling: Option<i8>,
)
    requires
        spec_vex_style(ks, digit, is4, scaling) is Ok,
        spec_vex_style(ks, digit, is4, scaling)->Ok_0.modrm is RegMemIs4,
    ensures
        forall|i: int| 0 <= i < ks.len() ==> !((#[trigger] ks[i]) is Imm),
{
}

/// A memory-capable strategy arises only when the shape has a
/// register-or-memory or memory operand; register-direct strategies carry no
/// scaling factor at all, so a factor is attached only where a memory
/// operand can exist.
pub proof fn lemma_scaling_only_with_memory_operand(
    ks: Seq<OperandKind>,
    digit: Option<u8>,
    is4: bool,
    scaling: Option<i8>,
)
    requires
        spec_vex_style(ks, digit, is4, scaling) is Ok,
    ensures
        ({
            let st = spec_vex_style(ks, digit, is4, scaling)->Ok_0;
            (st.modrm is RegMem || st.modrm is RegMemIs4) ==> exists|i: int|
                0 <= i < ks.len() && ((#[trigger] ks[i]) is RegMem || ks[i] is Mem)
        }),
{
    let st = spec_vex_style(ks, digit, is4, scaling)->Ok_0;
    if st.modrm is RegMem || st.modrm is RegMemIs4 {
        lemma_vex_style_ok(ks, digit, is4, scaling);
        let rm = match st.modrm {
            ModRmStyle::RegMem { rm, .. } => rm,
            ModRmStyle::RegMemIs4 { rm, .. } => rm,
            _ => 0usize,
        };
        assert(0 <= rm < ks.len() && (ks[rm as int] is RegMem || ks[rm as int] is Mem));
    }
}

/// The defined compressed-displacement factors follow the documented
/// byte-width relationship: the full tuple classifications scale by the
/// vector length in bytes, the half, quarter and eighth classifications by
/// the corresponding fraction of it, and the fixed classifications by their
/// fixed width.
pub proof fn lemma_evex_scaling_documented(tt: TupleType, l: Length)
    requires
        spec_length_bytes(l) is Ok,
    ensures
        ({
            let lb = spec_length_bytes(l)->Ok_0 as int;
            match tt {
                TupleType::Full => spec_evex_scaling(tt, l) == Ok::<i8, GenError>((lb) as i8),
                TupleType::FullMem => spec_evex_scaling(tt, l) == Ok::<i8, GenError>((lb) as i8),
                TupleType::Half => spec_evex_scaling(tt, l) == Ok::<i8, GenError>((lb / 2) as i8),
                TupleType::HalfMem => spec_evex_scaling(tt, l) == Ok::<i8, GenError>(
                    (lb / 2) as i8,
                ),
                TupleType::QuarterMem => spec_evex_scaling(tt, l) == Ok::<i8, GenError>(
                    (lb / 4) as i8,
                ),
                TupleType::EigthMem => spec_evex_scaling(tt, l) == Ok::<i8, GenError>(
                    (lb / 8) as i8,
                ),
                TupleType::Tuple8 => spec_evex_scaling(tt, l) == Ok::<i8, GenError>(32i8),
                TupleType::Mem128 => spec_evex_scaling(tt, l) == Ok::<i8, GenError>(16i8),
                _ => true,
            }
        }),
{
}

} // verus!
