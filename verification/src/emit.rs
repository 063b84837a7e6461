//! The byte emitter: given a selected strategy and concrete operand values,
//! append the exact encoding bytes — prefixes, opcodes, ModR/M with optional
//! SIB and displacement, and trailing immediate or is4 bytes.

use vstd::prelude::*;
use crate::dsl::{Format, OperandKind};

verus! {

/// A memory addressing mode, after register allocation: a base register with
/// displacement, optionally a scaled index register, or an address relative
/// to the end of the instruction.
#[derive(Copy, Clone, PartialEq, Eq, Debug)]
pub enum Amode {
    Base { base: u8, disp: i32 },
    BaseIndex { base: u8, index: u8, shift: u8, disp: i32 },
    RipRelative { disp: i32 },
}

impl Amode {
    pub open spec fn wf(&self) -> bool {
        match *self {
            Amode::Base { base, disp } => base < 16,
            Amode::BaseIndex { base, index, shift, disp } => base < 16 && index < 16 && index != 4
                && shift < 4,
            // Room must remain to subtract the trailing byte count from the
            // displacement.
            Amode::RipRelative { disp } => disp >= i32::MIN + 8,
        }
    }
}

/// A concrete operand value handed to an emission routine, after register
/// allocation: a register's 4-bit encoding, a memory address, or an
/// immediate value.
#[derive(Copy, Clone, PartialEq, Eq, Debug)]
pub enum OperandValue {
    Reg(u8),
    Mem(Amode),
    Imm(u64),
}

/// The register encoding carried by a value; meaningful only for `Reg`.
pub open spec fn spec_enc(v: OperandValue) -> u8 {
    match v {
        OperandValue::Reg(e) => e,
        _ => 0,
    }
}

fn val_enc(v: &OperandValue) -> (r: u8)
    ensures
        r == spec_enc(*v),
{
    match v {
        OperandValue::Reg(e) => *e,
        _ => 0,
    }
}

/// Whether an immediate value fits the declared width of its slot.
pub open spec fn spec_imm_fits(x: u64, bits: u32) -> bool {
    if bits == 8 {
        x < 0x100
    } else if bits == 16 {
        x < 0x1_0000
    } else if bits == 32 {
        x < 0x1_0000_0000
    } else {
        true
    }
}

/// Whether one concrete value fits one operand slot: registers for register
/// kinds, an address or register for register-or-memory, an address for
/// memory, and a width-bounded immediate for immediate slots.
pub open spec fn spec_val_matches(kind: OperandKind, bits: u32, v: OperandValue) -> bool {
    match kind {
        OperandKind::FixedReg => v is Reg && spec_enc(v) < 16,
        OperandKind::Reg => v is Reg && spec_enc(v) < 16,
        OperandKind::RegMem => (v is Reg && spec_enc(v) < 16) || (v matches OperandValue::Mem(am)
            && am.wf()),
        OperandKind::Mem => v matches OperandValue::Mem(am) && am.wf(),
        OperandKind::Imm => v matches OperandValue::Imm(x) && spec_imm_fits(x, bits),
    }
}

/// Whether a value list fits a shape, slot by slot.
pub open spec fn spec_vals_match(fmt: &Format, vals: Seq<OperandValue>) -> bool {
    &&& vals.len() == fmt.operands@.len()
    &&& forall|i: int|
        0 <= i < vals.len() ==> spec_val_matches(
            (#[trigger] fmt.operands@[i]).kind,
            fmt.operands@[i].bits,
            vals[i],
        )
}

/// The ModR/M byte: two addressing-mode bits, a three-bit Reg/Opcode field
/// and a three-bit R/M field.
pub open spec fn spec_modrm(m: u8, reg: u8, rm: u8) -> u8
    recommends
        m < 4,
        reg < 8,
        rm < 8,
{
    (m * 64 + reg * 8 + rm) as u8
}

fn modrm(m: u8, reg: u8, rm: u8) -> (r: u8)
    requires
        m < 4,
        reg < 8,
        rm < 8,
    ensures
        r == spec_modrm(m, reg, rm),
{
    m * 64 + reg * 8 + rm
}

/// The three ModR/M fields are recoverable from the byte.
pub proof fn lemma_modrm_fields(m: u8, reg: u8, rm: u8)
    requires
        m < 4,
        reg < 8,
        rm < 8,
    ensures
        spec_modrm(m, reg, rm) / 64 == m,
        (spec_modrm(m, reg, rm) / 8) % 8 == reg,
        spec_modrm(m, reg, rm) % 8 == rm,
{
}

/// The SIB byte: two scale bits, a three-bit index field and a three-bit
/// base field.
pub open spec fn spec_sib(shift: u8, index: u8, base: u8) -> u8
    recommends
        shift < 4,
        index < 8,
        base < 8,
{
    (shift * 64 + index * 8 + base) as u8
}

fn sib(shift: u8, index: u8, base: u8) -> (r: u8)
    requires
        shift < 4,
        index < 8,
        base < 8,
    ensures
        r == spec_sib(shift, index, base),
{
    shift * 64 + index * 8 + base
}

/// The three SIB fields are recoverable from the byte.
pub proof fn lemma_sib_fields(shift: u8, index: u8, base: u8)
    requires
        shift < 4,
        index < 8,
        base < 8,
    ensures
        spec_sib(shift, index, base) / 64 == shift,
        (spec_sib(shift, index, base) / 8) % 8 == index,
        spec_sib(shift, index, base) % 8 == base,
{
}

/// The little-endian bytes of the low `n` bytes of `v`.
pub open spec fn spec_le_bytes(v: u64, n: nat) -> Seq<u8>
    decreases n,
{
    if n == 0 {
        Seq::empty()
    } else {
        seq![(v % 256) as u8] + spec_le_bytes(v / 256, (n - 1) as nat)
    }
}

/// The value read back from little-endian bytes.
pub open spec fn spec_le_decode(bytes: Seq<u8>) -> int
    decreases bytes.len(),
{
    if bytes.len() == 0 {
        0int
    } else {
        bytes[0] + 256 * spec_le_decode(bytes.subrange(1, bytes.len() as int))
    }
}

/// 256 to the power `n`.
pub open spec fn spec_pow256(n: nat) -> int
    decreases n,
{
    if n == 0 {
        1int
    } else {
        256 * spec_pow256((n - 1) as nat)
    }
}

/// Round trip: reading back the little-endian bytes of `v` recovers `v`
/// modulo the range the byte count can hold.
pub proof fn lemma_le_roundtrip(v: u64, n: nat)
    ensures
        spec_le_bytes(v, n).len() == n,
        spec_le_decode(spec_le_bytes(v, n)) == (v as int) % spec_pow256(n),
    decreases n,
{
    if n == 0 {
        assert((v as int) % 1 == 0);
    } else {
        let bytes = spec_le_bytes(v, n);
        lemma_le_roundtrip(v / 256, (n - 1) as nat);
        assert(bytes.subrange(1, bytes.len() as int) =~= spec_le_bytes(v / 256, (n - 1) as nat));
        let p = spec_pow256((n - 1) as nat);
        assert(p > 0) by {
            lemma_pow256_pos((n - 1) as nat);
        }
        assert(spec_le_decode(bytes) == v % 256 + 256 * ((v as int / 256) % p));
        vstd::arithmetic::div_mod::lemma_mod_breakdown(v as int, 256, p);
    }
}

pub proof fn lemma_pow256_pos(n: nat)
    ensures
        spec_pow256(n) > 0,
    decreases n,
{
    if n > 0 {
        lemma_pow256_pos((n - 1) as nat);
    }
}

/// Append the low `n` little-endian bytes of `v`.
pub fn emit_le_bytes(buf: &mut Vec<u8>, v: u64, n: usize)
    ensures
        final(buf)@ == old(buf)@ + spec_le_bytes(v, n as nat),
{
    let mut v = v;
    let ghost v0 = v;
    let mut i: usize = 0;
    while i < n
        invariant
            i <= n,
            old(buf)@ + spec_le_bytes(v0, n as nat) =~= buf@ + spec_le_bytes(v, (n - i) as nat),
        decreases n - i,
    {
        buf.push((v % 256) as u8);
        v = v / 256;
        i = i + 1;
    }
    proof {
        assert(buf@ =~= old(buf)@ + spec_le_bytes(v0, n as nat));
    }
}

/// The unsigned 32-bit image of a signed 32-bit value, two's complement.
pub open spec fn spec_twos32(d: int) -> int {
    if d < 0 {
        d + 0x1_0000_0000
    } else {
        d
    }
}

/// The unsigned 8-bit image of a signed 8-bit value, two's complement.
pub open spec fn spec_twos8(d: int) -> int {
    if d < 0 {
        d + 256
    } else {
        d
    }
}

fn twos32(d: i32) -> (r: u32)
    ensures
        r as int == spec_twos32(d as int),
{
    if d >= 0 {
        d as u32
    } else {
        (0x1_0000_0000i64 + d as i64) as u32
    }
}

fn twos8_byte(q: i8) -> (r: u8)
    ensures
        r as int == spec_twos8(q as int),
{
    if q >= 0 {
        q as u8
    } else {
        (256i32 + q as i32) as u8
    }
}

/// The four little-endian bytes of a signed 32-bit displacement.
pub open spec fn spec_le32(d: int) -> Seq<u8>
    recommends
        i32::MIN <= d <= i32::MAX,
{
    spec_le_bytes(spec_twos32(d) as u64, 4)
}

fn emit_le32(buf: &mut Vec<u8>, d: i32)
    ensures
        final(buf)@ == old(buf)@ + spec_le32(d as int),
{
    let u = twos32(d);
    emit_le_bytes(buf, u as u64, 4);
}

/// The signed quotient stored in a compressed 8-bit displacement, when one
/// applies: without a scaling factor the displacement itself when it fits a
/// signed byte; with one, the displacement divided exactly by the factor
/// when the quotient fits a signed byte.
pub open spec fn spec_disp8_quotient(disp: int, scaling: Option<i8>) -> Option<int> {
    match scaling {
        Some(n) => {
            let nn = n as int;
            let mag = if disp < 0 {
                -disp
            } else {
                disp
            };
            if nn > 0 && mag % nn == 0 {
                let q = if disp < 0 {
                    -(mag / nn)
                } else {
                    mag / nn
                };
                if -128 <= q <= 127 {
                    Some(q)
                } else {
                    None
                }
            } else {
                None
            }
        },
        None => if -128 <= disp <= 127 {
            Some(disp)
        } else {
            None
        },
    }
}

fn disp8_quotient(disp: i32, scaling: Option<i8>) -> (r: Option<i8>)
    ensures
        match r {
            Some(q) => spec_disp8_quotient(disp as int, scaling) == Some(q as int),
            None => spec_disp8_quotient(disp as int, scaling) is None,
        },
{
    match scaling {
        Some(n) => {
            if n <= 0 {
                return None;
            }
            let nn = n as u32;
            let mag: u32 = if disp < 0 {
                (-(disp as i64)) as u32
            } else {
                disp as u32
            };
            if mag % nn != 0 {
                return None;
            }
            let q = mag / nn;
            if disp < 0 {
                if q <= 128 {
                    Some((-(q as i32)) as i8)
                } else {
                    None
                }
            } else {
                if q <= 127 {
                    Some(q as i8)
                } else {
                    None
                }
            }
        },
        None => {
            if -128 <= disp && disp <= 127 {
                Some(disp as i8)
            } else {
                None
            }
        },
    }
}

/// The ModR/M, optional SIB and optional displacement bytes of a memory
/// operand. `bytes_at_end` counts the trailing bytes that follow the
/// displacement, so that end-relative displacements stay correct; `scaling`
/// is the compressed-displacement factor of extended vector-prefixed
/// addressing.
pub open spec fn spec_mem_encode(reg: u8, am: Amode, bytes_at_end: int, scaling: Option<i8>) -> Seq<
    u8,
>
    recommends
        reg < 8,
        am.wf(),
{
    match am {
        Amode::Base { base, disp } => {
            let b3 = (base % 8) as u8;
            let head = if b3 == 4 {
                seq![spec_sib(0, 4, 4)]
            } else {
                Seq::empty()
            };
            if disp == 0 && b3 != 5 {
                seq![spec_modrm(0, reg, b3)] + head
            } else {
                match spec_disp8_quotient(disp as int, scaling) {
                    Some(q) => seq![spec_modrm(1, reg, b3)] + head + seq![spec_twos8(q) as u8],
                    None => seq![spec_modrm(2, reg, b3)] + head + spec_le32(disp as int),
                }
            }
        },
        Amode::BaseIndex { base, index, shift, disp } => {
            let b3 = (base % 8) as u8;
            let sb = spec_sib(shift, (index % 8) as u8, b3);
            if disp == 0 && b3 != 5 {
                seq![spec_modrm(0, reg, 4), sb]
            } else {
                match spec_disp8_quotient(disp as int, scaling) {
                    Some(q) => seq![spec_modrm(1, reg, 4), sb, spec_twos8(q) as u8],
                    None => seq![spec_modrm(2, reg, 4), sb] + spec_le32(disp as int),
                }
            }
        },
        Amode::RipRelative { disp } => seq![spec_modrm(0, reg, 5)] + spec_le32(
            disp - bytes_at_end,
        ),
    }
}

/// Append the ModR/M, SIB and displacement bytes of a memory operand.
pub fn emit_mem(buf: &mut Vec<u8>, reg: u8, am: &Amode, bytes_at_end: u8, scaling: Option<i8>)
    requires
        reg < 8,
        am.wf(),
        bytes_at_end <= 8,
    ensures
        final(buf)@ == old(buf)@ + spec_mem_encode(reg, *am, bytes_at_end as int, scaling),
{
    match am {
        Amode::Base { base, disp } => {
            let b3 = base % 8;
            if *disp == 0 && b3 != 5 {
                buf.push(modrm(0, reg, b3));
                if b3 == 4 {
                    buf.push(sib(0, 4, 4));
                }
            } else {
                match disp8_quotient(*disp, scaling) {
                    Some(q) => {
                        buf.push(modrm(1, reg, b3));
                        if b3 == 4 {
                            buf.push(sib(0, 4, 4));
                        }
                        buf.push(twos8_byte(q));
                    },
                    None => {
                        buf.push(modrm(2, reg, b3));
                        if b3 == 4 {
                            buf.push(sib(0, 4, 4));
                        }
                        emit_le32(buf, *disp);
                    },
                }
            }
            proof {
                assert(buf@ =~= old(buf)@ + spec_mem_encode(
                    reg,
                    *am,
                    bytes_at_end as int,
                    scaling,
                ));
            }
        },
        Amode::BaseIndex { base, index, shift, disp } => {
            let b3 = base % 8;
            let sb = sib(*shift, index % 8, b3);
            if *disp == 0 && b3 != 5 {
                buf.push(modrm(0, reg, 4));
                buf.push(sb);
            } else {
                match disp8_quotient(*disp, scaling) {
                    Some(q) => {
                        buf.push(modrm(1, reg, 4));
                        buf.push(sb);
                        buf.push(twos8_byte(q));
                    },
                    None => {
                        buf.push(modrm(2, reg, 4));
                        buf.push(sb);
                        emit_le32(buf, *disp);
                    },
                }
            }
            proof {
                assert(buf@ =~= old(buf)@ + spec_mem_encode(
                    reg,
                    *am,
                    bytes_at_end as int,
                    scaling,
                ));
            }
        },
        Amode::RipRelative { disp } => {
            buf.push(modrm(0, reg, 5));
            emit_le32(buf, *disp - bytes_at_end as i32);
            proof {
                assert(buf@ =~= old(buf)@ + spec_mem_encode(
                    reg,
                    *am,
                    bytes_at_end as int,
                    scaling,
                ));
            }
        },
    }
}

} // verus!

use crate::dsl::{Prefixes, Rex};
use crate::format::{ModRmReg, ModRmStyle, spec_rex_style, spec_select_rex_encoding, select_rex_encoding, lemma_rex_style_ok, lemma_vex_style_ok};

verus! {

/// Zero or one byte, from an optional prefix byte.
pub open spec fn spec_opt_byte(b: Option<u8>) -> Seq<u8> {
    match b {
        Some(x) => seq![x],
        None => Seq::empty(),
    }
}

/// The fixed legacy prefix-group bytes, in group order.
pub open spec fn spec_prefix_groups(p: Prefixes) -> Seq<u8> {
    spec_opt_byte(p.group1) + spec_opt_byte(p.group2) + spec_opt_byte(p.group3) + spec_opt_byte(
        p.group4,
    )
}

fn emit_prefix_groups(buf: &mut Vec<u8>, p: &Prefixes)
    ensures
        final(buf)@ == old(buf)@ + spec_prefix_groups(*p),
{
    if let Some(b) = p.group1 {
        buf.push(b);
    }
    if let Some(b) = p.group2 {
        buf.push(b);
    }
    if let Some(b) = p.group3 {
        buf.push(b);
    }
    if let Some(b) = p.group4 {
        buf.push(b);
    }
    proof {
        assert(buf@ =~= old(buf)@ + spec_prefix_groups(*p));
    }
}

/// Whether the shape holds an 8-bit register or register-or-memory operand,
/// which forces the extension prefix for the high byte-register encodings.
pub open spec fn spec_uses_8bit(fmt: &Format) -> bool {
    exists|i: int|
        0 <= i < fmt.operands@.len() && (#[trigger] fmt.operands@[i]).bits == 8 && (
        fmt.operands@[i].kind is Reg || fmt.operands@[i].kind is RegMem)
}

fn uses_8bit(fmt: &Format) -> (r: bool)
    ensures
        r == spec_uses_8bit(fmt),
{
    let n = fmt.operands.len();
    let mut i: usize = 0;
    while i < n
        invariant
            i <= n,
            n == fmt.operands@.len(),
            forall|j: int|
                0 <= j < i ==> !((#[trigger] fmt.operands@[j]).bits == 8 && (
                fmt.operands@[j].kind is Reg || fmt.operands@[j].kind is RegMem)),
        decreases n - i,
    {
        let o = &fmt.operands[i];
        if o.bits == 8 && (o.kind == OperandKind::Reg || o.kind == OperandKind::RegMem) {
            return true;
        }
        i = i + 1;
    }
    false
}

/// The register encodings 4 through 7 name the high byte registers that an
/// 8-bit access can only reach under an extension prefix.
pub open spec fn spec_is_ext_byte_reg(e: u8) -> bool {
    4 <= e < 8
}

/// Whether the strategy's operand references fit the value list: indices in
/// bounds, register fields backed by register values, digits three bits.
pub open spec fn spec_reg_field_ok(reg: ModRmReg, vals: Seq<OperandValue>) -> bool {
    match reg {
        ModRmReg::Digit(d) => d < 8,
        ModRmReg::Reg(i) => i < vals.len() && vals[i as int] is Reg && spec_enc(vals[i as int])
            < 16,
    }
}

pub open spec fn spec_style_fits(style: ModRmStyle, vals: Seq<OperandValue>) -> bool {
    match style {
        ModRmStyle::NoModRm => true,
        ModRmStyle::Reg { reg, rm } => spec_reg_field_ok(reg, vals) && rm < vals.len()
            && vals[rm as int] is Reg && spec_enc(vals[rm as int]) < 16,
        ModRmStyle::RegMem { reg, rm, evex_scaling } => spec_reg_field_ok(reg, vals) && rm
            < vals.len() && ((vals[rm as int] is Reg && spec_enc(vals[rm as int]) < 16) || (
        vals[rm as int] matches OperandValue::Mem(am) && am.wf())),
        ModRmStyle::RegMemIs4 { reg, rm, is4, evex_scaling } => spec_reg_field_ok(reg, vals) && rm
            < vals.len() && ((vals[rm as int] is Reg && spec_enc(vals[rm as int]) < 16) || (
        vals[rm as int] matches OperandValue::Mem(am) && am.wf())) && is4 < vals.len()
            && vals[is4 as int] is Reg && spec_enc(vals[is4 as int]) < 16,
    }
}

/// The three-bit Reg/Opcode field value: a static digit or a register's low
/// bits.
pub open spec fn spec_modrm_reg_bits(reg: ModRmReg, vals: Seq<OperandValue>) -> u8 {
    match reg {
        ModRmReg::Digit(d) => d,
        ModRmReg::Reg(i) => (spec_enc(vals[i as int]) % 8) as u8,
    }
}

fn modrm_reg_bits(reg: &ModRmReg, vals: &Vec<OperandValue>) -> (r: u8)
    requires
        spec_reg_field_ok(*reg, vals@),
    ensures
        r == spec_modrm_reg_bits(*reg, vals@),
        r < 8,
{
    match reg {
        ModRmReg::Digit(d) => *d,
        ModRmReg::Reg(i) => val_enc(&vals[*i]) % 8,
    }
}

/// The extension bit feeding the prefix's R field.
pub open spec fn spec_rex_r_bit(style: ModRmStyle, vals: Seq<OperandValue>) -> u8 {
    match style {
        ModRmStyle::NoModRm => 0,
        ModRmStyle::Reg { reg, .. } => spec_reg_ext(reg, vals),
        ModRmStyle::RegMem { reg, .. } => spec_reg_ext(reg, vals),
        ModRmStyle::RegMemIs4 { reg, .. } => spec_reg_ext(reg, vals),
    }
}

pub open spec fn spec_reg_ext(reg: ModRmReg, vals: Seq<OperandValue>) -> u8 {
    match reg {
        ModRmReg::Digit(_) => 0,
        ModRmReg::Reg(i) => (spec_enc(vals[i as int]) / 8) as u8,
    }
}

/// The register encoding feeding the Reg/Opcode field, for the 8-bit rule;
/// zero when a digit supplies the field.
pub open spec fn spec_reg_cand(style: ModRmStyle, vals: Seq<OperandValue>) -> u8 {
    match style {
        ModRmStyle::NoModRm => 0,
        ModRmStyle::Reg { reg, .. } => spec_reg_cand_of(reg, vals),
        ModRmStyle::RegMem { reg, .. } => spec_reg_cand_of(reg, vals),
        ModRmStyle::RegMemIs4 { reg, .. } => spec_reg_cand_of(reg, vals),
    }
}

pub open spec fn spec_reg_cand_of(reg: ModRmReg, vals: Seq<OperandValue>) -> u8 {
    match reg {
        ModRmReg::Digit(_) => 0,
        ModRmReg::Reg(i) => spec_enc(vals[i as int]),
    }
}

/// The extension bits feeding the prefix's B and X fields, and the direct
/// register encoding tested for the 8-bit rule. For strategy `NoModRm` the
/// participating register is the first operand's.
pub open spec fn spec_rex_bx(style: ModRmStyle, vals: Seq<OperandValue>) -> (u8, u8, u8) {
    match style {
        ModRmStyle::NoModRm => {
            let e = spec_enc(vals[0]);
            ((e / 8) as u8, 0u8, e)
        },
        ModRmStyle::Reg { rm, .. } => {
            let e = spec_enc(vals[rm as int]);
            ((e / 8) as u8, 0u8, e)
        },
        ModRmStyle::RegMem { rm, .. } => spec_mem_bx(vals[rm as int]),
        ModRmStyle::RegMemIs4 { rm, .. } => spec_mem_bx(vals[rm as int]),
    }
}

pub open spec fn spec_mem_bx(v: OperandValue) -> (u8, u8, u8) {
    match v {
        OperandValue::Reg(e) => ((e / 8) as u8, 0u8, e),
        OperandValue::Mem(am) => match am {
            Amode::Base { base, .. } => ((base / 8) as u8, 0u8, 0u8),
            Amode::BaseIndex { base, index, .. } => ((base / 8) as u8, (index / 8) as u8, 0u8),
            Amode::RipRelative { .. } => (0u8, 0u8, 0u8),
        },
        OperandValue::Imm(_) => (0u8, 0u8, 0u8),
    }
}

/// The REX-equivalent prefix byte.
pub open spec fn spec_rex_byte(w: bool, r: u8, x: u8, b: u8) -> u8
    recommends
        r < 2,
        x < 2,
        b < 2,
{
    (0x40 + (if w {
        8u8
    } else {
        0u8
    }) + r * 4 + x * 2 + b) as u8
}

/// Whether an instruction with no register or memory operands skips the
/// width/mode prefix stage entirely.
pub open spec fn spec_rex_skipped(fmt: &Format) -> bool {
    fmt.kinds().len() == 0 || (fmt.kinds().len() == 1 && fmt.kinds()[0] is Imm)
}

/// Whether the REX-equivalent prefix byte is present: forced by the width
/// bit, by any register extension bit, or by a byte register that only the
/// prefixed form can reach.
pub open spec fn spec_rex_present(
    fmt: &Format,
    rex: Rex,
    style: ModRmStyle,
    vals: Seq<OperandValue>,
) -> bool {
    let r = spec_rex_r_bit(style, vals);
    let (b, x, rm_cand) = spec_rex_bx(style, vals);
    rex.w || r != 0 || x != 0 || b != 0 || (spec_uses_8bit(fmt) && (spec_is_ext_byte_reg(
        spec_reg_cand(style, vals),
    ) || spec_is_ext_byte_reg(rm_cand)))
}

/// The REX-equivalent prefix bytes: empty when the stage is skipped or the
/// prefix is not needed, one byte otherwise.
pub open spec fn spec_rex_bytes(
    fmt: &Format,
    rex: Rex,
    style: ModRmStyle,
    vals: Seq<OperandValue>,
) -> Seq<u8> {
    if spec_rex_skipped(fmt) {
        Seq::empty()
    } else if spec_rex_present(fmt, rex, style, vals) {
        let r = spec_rex_r_bit(style, vals);
        let (b, x, rm_cand) = spec_rex_bx(style, vals);
        seq![spec_rex_byte(rex.w, r, x, b)]
    } else {
        Seq::empty()
    }
}

/// The opcode bytes: optional escape byte, the primary byte — its low three
/// bits overwritten by the leading register's encoding in register-in-opcode
/// forms — and the optional secondary byte.
pub open spec fn spec_legacy_opcodes(rex: Rex, vals: Seq<OperandValue>) -> Seq<u8> {
    let primary = if rex.opcode_mod {
        rex.opcodes.primary | (spec_enc(vals[0]) % 8) as u8
    } else {
        rex.opcodes.primary
    };
    (if rex.opcodes.escape {
        seq![0x0fu8]
    } else {
        Seq::empty()
    }) + seq![primary] + spec_opt_byte(rex.opcodes.secondary)
}

/// How many bytes trail the displacement: the immediate's width, or the one
/// is4 byte.
pub open spec fn spec_bytes_at_end(fmt: &Format, style: ModRmStyle) -> int {
    let n = fmt.operands@.len() as int;
    if n > 0 && fmt.operands@[n - 1].kind is Imm {
        fmt.operands@[n - 1].bits as int / 8
    } else if style is RegMemIs4 {
        1
    } else {
        0
    }
}

/// The immediate value carried by a value; meaningful only for `Imm`.
pub open spec fn spec_imm_val(v: OperandValue) -> u64 {
    match v {
        OperandValue::Imm(x) => x,
        _ => 0,
    }
}

/// The ModR/M region: nothing, a register-direct byte, or the full memory
/// encoding with optional SIB and displacement.
pub open spec fn spec_modrm_bytes(
    style: ModRmStyle,
    vals: Seq<OperandValue>,
    bytes_at_end: int,
) -> Seq<u8> {
    match style {
        ModRmStyle::NoModRm => Seq::empty(),
        ModRmStyle::Reg { reg, rm } => seq![
            spec_modrm(
                3,
                spec_modrm_reg_bits(reg, vals),
                (spec_enc(vals[rm as int]) % 8) as u8,
            ),
        ],
        ModRmStyle::RegMem { reg, rm, evex_scaling } => spec_rm_bytes(
            spec_modrm_reg_bits(reg, vals),
            vals[rm as int],
            bytes_at_end,
            evex_scaling,
        ),
        ModRmStyle::RegMemIs4 { reg, rm, is4, evex_scaling } => spec_rm_bytes(
            spec_modrm_reg_bits(reg, vals),
            vals[rm as int],
            bytes_at_end,
            evex_scaling,
        ),
    }
}

pub open spec fn spec_rm_bytes(
    reg_bits: u8,
    v: OperandValue,
    bytes_at_end: int,
    scaling: Option<i8>,
) -> Seq<u8> {
    match v {
        OperandValue::Reg(e) => seq![spec_modrm(3, reg_bits, (e % 8) as u8)],
        OperandValue::Mem(am) => spec_mem_encode(reg_bits, am, bytes_at_end, scaling),
        OperandValue::Imm(_) => Seq::empty(),
    }
}

/// The trailing bytes: the immediate's little-endian bytes, or the one byte
/// holding the fourth register's encoding in its top nibble — never both.
pub open spec fn spec_tail_bytes(
    fmt: &Format,
    style: ModRmStyle,
    vals: Seq<OperandValue>,
) -> Seq<u8> {
    let n = fmt.operands@.len() as int;
    if n > 0 && fmt.operands@[n - 1].kind is Imm {
        spec_le_bytes(spec_imm_val(vals[n - 1]), (fmt.operands@[n - 1].bits / 8) as nat)
    } else {
        match style {
            ModRmStyle::RegMemIs4 { is4, .. } => seq![(spec_enc(vals[is4 as int]) * 16) as u8],
            _ => Seq::empty(),
        }
    }
}

/// The complete encoding of a legacy-prefixed instruction: prefix groups,
/// optional REX-equivalent byte, opcode bytes, ModR/M region and trailing
/// bytes.
pub open spec fn spec_encode_rex(fmt: &Format, rex: Rex, vals: Seq<OperandValue>) -> Seq<u8> {
    let style = spec_rex_style(fmt.kinds(), rex.digit, rex.opcode_mod)->Ok_0;
    let bae = spec_bytes_at_end(fmt, style);
    spec_prefix_groups(rex.opcodes.prefixes) + spec_rex_bytes(fmt, rex, style, vals)
        + spec_legacy_opcodes(rex, vals) + spec_modrm_bytes(style, vals, bae) + spec_tail_bytes(
        fmt,
        style,
        vals,
    )
}

fn emit_modrm_bytes(buf: &mut Vec<u8>, style: &ModRmStyle, vals: &Vec<OperandValue>, bae: u8)
    requires
        spec_style_fits(*style, vals@),
        bae <= 8,
    ensures
        final(buf)@ == old(buf)@ + spec_modrm_bytes(*style, vals@, bae as int),
{
    match style {
        ModRmStyle::NoModRm => {},
        ModRmStyle::Reg { reg, rm } => {
            let rb = modrm_reg_bits(reg, vals);
            let e = val_enc(&vals[*rm]);
            buf.push(modrm(3, rb, e % 8));
        },
        ModRmStyle::RegMem { reg, rm, evex_scaling } => {
            let rb = modrm_reg_bits(reg, vals);
            match &vals[*rm] {
                OperandValue::Reg(e) => {
                    buf.push(modrm(3, rb, *e % 8));
                },
                OperandValue::Mem(am) => {
                    emit_mem(buf, rb, am, bae, *evex_scaling);
                },
                OperandValue::Imm(_) => {},
            }
        },
        ModRmStyle::RegMemIs4 { reg, rm, is4, evex_scaling } => {
            let rb = modrm_reg_bits(reg, vals);
            match &vals[*rm] {
                OperandValue::Reg(e) => {
                    buf.push(modrm(3, rb, *e % 8));
                },
                OperandValue::Mem(am) => {
                    emit_mem(buf, rb, am, bae, *evex_scaling);
                },
                OperandValue::Imm(_) => {},
            }
        },
    }
    proof {
        assert(buf@ =~= old(buf)@ + spec_modrm_bytes(*style, vals@, bae as int));
    }
}

fn emit_tail_bytes(buf: &mut Vec<u8>, fmt: &Format, style: &ModRmStyle, vals: &Vec<OperandValue>)
    requires
        fmt.wf(),
        spec_style_fits(*style, vals@),
        vals@.len() == fmt.operands@.len(),
    ensures
        final(buf)@ == old(buf)@ + spec_tail_bytes(fmt, *style, vals@),
{
    let n = fmt.operands.len();
    if n > 0 && fmt.operands[n - 1].kind == OperandKind::Imm {
        let v = match &vals[n - 1] {
            OperandValue::Imm(x) => *x,
            _ => 0,
        };
        let nbytes = (fmt.operands[n - 1].bits / 8) as usize;
        emit_le_bytes(buf, v, nbytes);
    } else {
        if let ModRmStyle::RegMemIs4 { is4, .. } = style {
            let e = val_enc(&vals[*is4]);
            buf.push(e * 16);
        }
    }
    proof {
        assert(buf@ =~= old(buf)@ + spec_tail_bytes(fmt, *style, vals@));
    }
}

} // verus!

verus! {

fn emit_rex_prefix(
    buf: &mut Vec<u8>,
    fmt: &Format,
    rex: &Rex,
    style: &ModRmStyle,
    vals: &Vec<OperandValue>,
)
    requires
        spec_style_fits(*style, vals@),
        style is NoModRm && !spec_rex_skipped(fmt) ==> vals@.len() >= 1 && vals@[0] is Reg
            && spec_enc(vals@[0]) < 16,
    ensures
        final(buf)@ == old(buf)@ + spec_rex_bytes(fmt, *rex, *style, vals@),
{
    let n = fmt.operands.len();
    if n == 0 || (n == 1 && fmt.operands[0].kind == OperandKind::Imm) {
        proof {
            assert(fmt.kinds().len() == n);
            assert(buf@ =~= old(buf)@ + spec_rex_bytes(fmt, *rex, *style, vals@));
        }
        return;
    }
    proof {
        assert(fmt.kinds().len() == n);
        assert(!spec_rex_skipped(fmt));
    }
    let rbit: u8 = match style {
        ModRmStyle::NoModRm => 0,
        ModRmStyle::Reg { reg, .. } => reg_ext(reg, vals),
        ModRmStyle::RegMem { reg, .. } => reg_ext(reg, vals),
        ModRmStyle::RegMemIs4 { reg, .. } => reg_ext(reg, vals),
    };
    let reg_cand: u8 = match style {
        ModRmStyle::NoModRm => 0,
        ModRmStyle::Reg { reg, .. } => reg_cand_of(reg, vals),
        ModRmStyle::RegMem { reg, .. } => reg_cand_of(reg, vals),
        ModRmStyle::RegMemIs4 { reg, .. } => reg_cand_of(reg, vals),
    };
    let (bbit, xbit, rm_cand): (u8, u8, u8) = match style {
        ModRmStyle::NoModRm => {
            let e = val_enc(&vals[0]);
            (e / 8, 0, e)
        },
        ModRmStyle::Reg { rm, .. } => {
            let e = val_enc(&vals[*rm]);
            (e / 8, 0, e)
        },
        ModRmStyle::RegMem { rm, .. } => mem_bx(&vals[*rm]),
        ModRmStyle::RegMemIs4 { rm, .. } => mem_bx(&vals[*rm]),
    };
    let u8b = uses_8bit(fmt);
    let present = rex.w || rbit != 0 || xbit != 0 || bbit != 0 || (u8b && ((4 <= reg_cand
        && reg_cand < 8) || (4 <= rm_cand && rm_cand < 8)));
    if present {
        let wv: u8 = if rex.w {
            8
        } else {
            0
        };
        buf.push(0x40 + wv + rbit * 4 + xbit * 2 + bbit);
    }
    proof {
        assert(buf@ =~= old(buf)@ + spec_rex_bytes(fmt, *rex, *style, vals@));
    }
}

fn reg_ext(reg: &ModRmReg, vals: &Vec<OperandValue>) -> (r: u8)
    requires
        spec_reg_field_ok(*reg, vals@),
    ensures
        r == spec_reg_ext(*reg, vals@),
        r < 2,
{
    match reg {
        ModRmReg::Digit(_) => 0,
        ModRmReg::Reg(i) => val_enc(&vals[*i]) / 8,
    }
}

fn reg_cand_of(reg: &ModRmReg, vals: &Vec<OperandValue>) -> (r: u8)
    requires
        spec_reg_field_ok(*reg, vals@),
    ensures
        r == spec_reg_cand_of(*reg, vals@),
{
    match reg {
        ModRmReg::Digit(_) => 0,
        ModRmReg::Reg(i) => val_enc(&vals[*i]),
    }
}

fn mem_bx(v: &OperandValue) -> (r: (u8, u8, u8))
    requires
        (v is Reg && spec_enc(*v) < 16) || (v matches OperandValue::Mem(am) && am.wf()),
    ensures
        r == spec_mem_bx(*v),
        r.0 < 2,
        r.1 < 2,
{
    match v {
        OperandValue::Reg(e) => (*e / 8, 0, *e),
        OperandValue::Mem(am) => match am {
            Amode::Base { base, .. } => (*base / 8, 0, 0),
            Amode::BaseIndex { base, index, .. } => (*base / 8, *index / 8, 0),
            Amode::RipRelative { .. } => (0, 0, 0),
        },
        OperandValue::Imm(_) => (0, 0, 0),
    }
}

/// A strategy whose operand references are sound at the kind level, applied
/// to a value list matching the shape, fits that value list.
proof fn lemma_style_fits_from_kinds(fmt: &Format, style: ModRmStyle, vals: Seq<OperandValue>)
    requires
        spec_vals_match(fmt, vals),
        match style {
            ModRmStyle::NoModRm => true,
            ModRmStyle::Reg { reg, rm } => rm < fmt.kinds().len() && fmt.kinds()[rm as int] is Reg
                && spec_reg_kind_ok(reg, fmt.kinds()),
            ModRmStyle::RegMem { reg, rm, .. } => rm < fmt.kinds().len() && (
            fmt.kinds()[rm as int] is RegMem || fmt.kinds()[rm as int] is Mem)
                && spec_reg_kind_ok(reg, fmt.kinds()),
            ModRmStyle::RegMemIs4 { reg, rm, is4, .. } => rm < fmt.kinds().len() && (
            fmt.kinds()[rm as int] is RegMem || fmt.kinds()[rm as int] is Mem) && is4
                < fmt.kinds().len() && fmt.kinds()[is4 as int] is Reg && spec_reg_kind_ok(
                reg,
                fmt.kinds(),
            ),
        },
    ensures
        spec_style_fits(style, vals),
{
    assert(fmt.kinds().len() == fmt.operands@.len());
    assert forall|i: int| 0 <= i < fmt.kinds().len() implies #[trigger] fmt.kinds()[i]
        == fmt.operands@[i].kind by {}
}

/// A Reg/Opcode field source sound at the kind level: digits are three bits
/// wide; register indices point at register operands.
pub open spec fn spec_reg_kind_ok(reg: ModRmReg, ks: Seq<OperandKind>) -> bool {
    match reg {
        ModRmReg::Digit(d) => d < 8,
        ModRmReg::Reg(i) => i < ks.len() && ks[i as int] is Reg,
    }
}

fn emit_legacy_opcodes(buf: &mut Vec<u8>, rex: &Rex, vals: &Vec<OperandValue>)
    requires
        rex.opcode_mod ==> vals@.len() >= 1,
    ensures
        final(buf)@ == old(buf)@ + spec_legacy_opcodes(*rex, vals@),
{
    if rex.opcodes.escape {
        buf.push(0x0f);
    }
    let primary = if rex.opcode_mod {
        rex.opcodes.primary | (val_enc(&vals[0]) % 8)
    } else {
        rex.opcodes.primary
    };
    buf.push(primary);
    if let Some(s) = rex.opcodes.secondary {
        buf.push(s);
    }
    proof {
        assert(buf@ =~= old(buf)@ + spec_legacy_opcodes(*rex, vals@));
    }
}

impl Format {
    /// Append the complete encoding of a legacy-prefixed instruction built
    /// from this shape and the given concrete operand values: fixed prefix
    /// groups, the REX-equivalent prefix when required, opcode bytes, the
    /// ModR/M region per the selected strategy, and the trailing immediate.
    /// Generation must have succeeded: the selection decides every fallible
    /// question, and emission itself cannot fail.
    #[verifier::rlimit(100)]
    #[verifier::spinoff_prover]
    pub fn generate_rex_encoding(&self, buf: &mut Vec<u8>, rex: &Rex, vals: &Vec<OperandValue>)
        requires
            self.wf(),
            rex.wf(),
            spec_select_rex_encoding(self, rex) is Ok,
            spec_vals_match(self, vals@),
        ensures
            final(buf)@ == old(buf)@ + spec_encode_rex(self, *rex, vals@),
    {
        let style = match select_rex_encoding(self, rex) {
            Ok(st) => st,
            Err(_) => {
                proof {
                    assert(false);
                }
                return ;
            },
        };
        proof {
            lemma_rex_style_ok(self.kinds(), rex.digit, rex.opcode_mod);
            assert(style == spec_rex_style(self.kinds(), rex.digit, rex.opcode_mod)->Ok_0);
            lemma_style_fits_from_kinds(self, style, vals@);
            if style is NoModRm && !spec_rex_skipped(self) {
                assert(self.kinds()[0] == self.operands@[0].kind);
                assert(spec_val_matches(self.operands@[0].kind, self.operands@[0].bits, vals@[0]));
            }
            if rex.opcode_mod {
                assert(self.kinds()[0] == self.operands@[0].kind);
                assert(spec_val_matches(self.operands@[0].kind, self.operands@[0].bits, vals@[0]));
            }
        }
        let ghost b0 = buf@;
        emit_prefix_groups(buf, &rex.opcodes.prefixes);
        let ghost b1 = buf@;
        emit_rex_prefix(buf, self, rex, &style, vals);
        let ghost b2 = buf@;
        emit_legacy_opcodes(buf, rex, vals);
        let ghost b3 = buf@;
        let bae = self.bytes_at_end(&style);
        emit_modrm_bytes(buf, &style, vals, bae);
        let ghost b4 = buf@;
        emit_tail_bytes(buf, self, &style, vals);
        proof {
            assert(b4 == b3 + spec_modrm_bytes(style, vals@, spec_bytes_at_end(self, style)));
            assert(buf@ == b4 + spec_tail_bytes(self, style, vals@));
            assert(buf@ =~= b0 + spec_encode_rex(self, *rex, vals@));
        }
    }

    fn bytes_at_end(&self, style: &ModRmStyle) -> (r: u8)
        requires
            self.wf(),
        ensures
            r as int == spec_bytes_at_end(self, *style),
            r <= 8,
    {
        let n = self.operands.len();
        if n > 0 && self.operands[n - 1].kind == OperandKind::Imm {
            (self.operands[n - 1].bits / 8) as u8
        } else if let ModRmStyle::RegMemIs4 { .. } = style {
            1
        } else {
            0
        }
    }
}

} // verus!

use crate::dsl::{Vex, Evex, Length, Pp, OpcodeMap};
use crate::format::{VexStyle, spec_vex_style, spec_select_vex_style, spec_select_evex_style,
    select_vex_style, select_evex_style, spec_evex_scaling};

verus! {

/// The L bit of a short vector prefix.
pub open spec fn spec_vex_l(l: Length) -> u8 {
    match l {
        Length::L256 => 1,
        _ => 0,
    }
}

/// The two length bits of an extended vector prefix.
pub open spec fn spec_evex_ll(l: Length) -> u8 {
    match l {
        Length::L128 => 0,
        Length::L256 => 1,
        Length::L512 => 2,
        _ => 0,
    }
}

pub open spec fn spec_pp_bits(pp: Option<Pp>) -> u8 {
    match pp {
        Some(p) => p.spec_bits(),
        None => 0,
    }
}

pub open spec fn spec_map_bits(m: Option<OpcodeMap>) -> u8 {
    match m {
        Some(x) => x.spec_bits(),
        None => 0,
    }
}

/// The register index feeding the prefix's vvvv field is sound for the
/// value list.
pub open spec fn spec_vvvv_ok(style: VexStyle, vals: Seq<OperandValue>) -> bool {
    match style.vvvv {
        Some(i) => i < vals.len() && vals[i as int] is Reg && spec_enc(vals[i as int]) < 16,
        None => true,
    }
}

/// The 4-bit encoding stored in the vvvv field; zero when no operand feeds
/// it.
pub open spec fn spec_vvvv_enc(style: VexStyle, vals: Seq<OperandValue>) -> u8 {
    match style.vvvv {
        Some(i) => spec_enc(vals[i as int]),
        None => 0,
    }
}

/// The short vector prefix: the compact two-byte form when the X and B
/// extension bits, the width bit and the opcode-map selector allow it, the
/// three-byte form otherwise. Inverted fields store the complement of their
/// value.
pub open spec fn spec_vex_prefix_bytes(
    r: u8,
    x: u8,
    b: u8,
    mm: u8,
    w: bool,
    vvvv: u8,
    l: u8,
    pp: u8,
) -> Seq<u8>
    recommends
        r < 2,
        x < 2,
        b < 2,
        mm < 32,
        vvvv < 16,
        l < 2,
        pp < 4,
{
    if x == 0 && b == 0 && !w && mm == 1 {
        seq![0xc5u8, ((1 - r) * 128 + (15 - vvvv) * 8 + l * 4 + pp) as u8]
    } else {
        seq![
            0xc4u8,
            ((1 - r) * 128 + (1 - x) * 64 + (1 - b) * 32 + mm) as u8,
            ((if w {
                128u8
            } else {
                0u8
            }) + (15 - vvvv) * 8 + l * 4 + pp) as u8,
        ]
    }
}

/// The four bytes of an extended vector prefix, for register encodings
/// below 16: leading byte, inverted extension bits with the opcode map,
/// width bit with inverted vvvv and the fixed set bit, and the length bits
/// with the fixed inverted upper-vvvv bit — masking, broadcast and rounding
/// stay clear.
pub open spec fn spec_evex_prefix_bytes(
    r: u8,
    x: u8,
    b: u8,
    mmm: u8,
    w: bool,
    vvvv: u8,
    ll: u8,
    pp: u8,
) -> Seq<u8>
    recommends
        r < 2,
        x < 2,
        b < 2,
        mmm < 8,
        vvvv < 16,
        ll < 3,
        pp < 4,
{
    seq![
        0x62u8,
        ((1 - r) * 128 + (1 - x) * 64 + (1 - b) * 32 + 16 + mmm) as u8,
        ((if w {
            128u8
        } else {
            0u8
        }) + (15 - vvvv) * 8 + 4 + pp) as u8,
        (ll * 32 + 8) as u8,
    ]
}

/// The complete encoding of a short vector-prefixed instruction.
pub open spec fn spec_encode_vex(fmt: &Format, vex: Vex, vals: Seq<OperandValue>) -> Seq<u8> {
    let style = spec_vex_style(fmt.kinds(), vex.digit, vex.is4, None)->Ok_0;
    let r = spec_rex_r_bit(style.modrm, vals);
    let (b, x, rm_cand) = spec_rex_bx(style.modrm, vals);
    let bae = spec_bytes_at_end(fmt, style.modrm);
    spec_vex_prefix_bytes(
        r,
        x,
        b,
        spec_map_bits(vex.mmmmm),
        vex.w,
        spec_vvvv_enc(style, vals),
        spec_vex_l(vex.length),
        spec_pp_bits(vex.pp),
    ) + seq![vex.opcode] + spec_modrm_bytes(style.modrm, vals, bae) + spec_tail_bytes(
        fmt,
        style.modrm,
        vals,
    )
}

/// The complete encoding of an extended vector-prefixed instruction.
pub open spec fn spec_encode_evex(fmt: &Format, evex: Evex, vals: Seq<OperandValue>) -> Seq<u8> {
    let sc = spec_evex_scaling(evex.tuple_type, evex.length)->Ok_0;
    let style = spec_vex_style(fmt.kinds(), evex.digit, false, Some(sc))->Ok_0;
    let r = spec_rex_r_bit(style.modrm, vals);
    let (b, x, rm_cand) = spec_rex_bx(style.modrm, vals);
    let bae = spec_bytes_at_end(fmt, style.modrm);
    spec_evex_prefix_bytes(
        r,
        x,
        b,
        spec_map_bits(evex.mmm),
        evex.w,
        spec_vvvv_enc(style, vals),
        spec_evex_ll(evex.length),
        spec_pp_bits(evex.pp),
    ) + seq![evex.opcode] + spec_modrm_bytes(style.modrm, vals, bae) + spec_tail_bytes(
        fmt,
        style.modrm,
        vals,
    )
}

fn vvvv_enc(style: &VexStyle, vals: &Vec<OperandValue>) -> (r: u8)
    requires
        spec_vvvv_ok(*style, vals@),
    ensures
        r == spec_vvvv_enc(*style, vals@),
        r < 16,
{
    match style.vvvv {
        Some(i) => val_enc(&vals[i]),
        None => 0,
    }
}

fn style_rbx(style: &ModRmStyle, vals: &Vec<OperandValue>) -> (r: (u8, u8, u8))
    requires
        spec_style_fits(*style, vals@),
        !(style is NoModRm),
    ensures
        r.0 == spec_rex_r_bit(*style, vals@),
        (r.1, r.2) == {
            let (b, x, c) = spec_rex_bx(*style, vals@);
            (b, x)
        },
        r.0 < 2,
        r.1 < 2,
        r.2 < 2,
{
    let rbit: u8 = match style {
        ModRmStyle::NoModRm => 0,
        ModRmStyle::Reg { reg, .. } => reg_ext(reg, vals),
        ModRmStyle::RegMem { reg, .. } => reg_ext(reg, vals),
        ModRmStyle::RegMemIs4 { reg, .. } => reg_ext(reg, vals),
    };
    let (bbit, xbit): (u8, u8) = match style {
        ModRmStyle::NoModRm => (0, 0),
        ModRmStyle::Reg { rm, .. } => (val_enc(&vals[*rm]) / 8, 0),
        ModRmStyle::RegMem { rm, .. } => {
            let (b, x, _) = mem_bx(&vals[*rm]);
            (b, x)
        },
        ModRmStyle::RegMemIs4 { rm, .. } => {
            let (b, x, _) = mem_bx(&vals[*rm]);
            (b, x)
        },
    };
    (rbit, bbit, xbit)
}

fn pp_bits(pp: &Option<Pp>) -> (r: u8)
    ensures
        r == spec_pp_bits(*pp),
        r < 4,
{
    match pp {
        Some(p) => p.bits(),
        None => 0,
    }
}

fn map_bits(m: &Option<OpcodeMap>) -> (r: u8)
    ensures
        r == spec_map_bits(*m),
        r < 8,
{
    match m {
        Some(x) => x.bits(),
        None => 0,
    }
}

impl Format {
    /// Append the complete encoding of a short vector-prefixed instruction:
    /// the two- or three-byte prefix, the opcode byte, the ModR/M region and
    /// the trailing immediate or is4 byte.
    #[verifier::rlimit(100)]
    pub fn generate_vex_encoding(&self, buf: &mut Vec<u8>, vex: &Vex, vals: &Vec<OperandValue>)
        requires
            self.wf(),
            vex.wf(),
            spec_select_vex_style(self, vex) is Ok,
            spec_vals_match(self, vals@),
        ensures
            final(buf)@ == old(buf)@ + spec_encode_vex(self, *vex, vals@),
    {
        let style = match select_vex_style(self, vex) {
            Ok(st) => st,
            Err(_) => {
                proof {
                    assert(false);
                }
                return ;
            },
        };
        proof {
            lemma_vex_style_ok(self.kinds(), vex.digit, vex.is4, None);
            assert(style == spec_vex_style(self.kinds(), vex.digit, vex.is4, None)->Ok_0);
            lemma_style_fits_from_kinds(self, style.modrm, vals@);
            if let Some(i) = style.vvvv {
                assert(self.kinds()[i as int] == self.operands@[i as int].kind);
                assert(spec_val_matches(
                    self.operands@[i as int].kind,
                    self.operands@[i as int].bits,
                    vals@[i as int],
                ));
            }
        }
        let ghost b0 = buf@;
        let (rbit, bbit, xbit) = style_rbx(&style.modrm, vals);
        let vv = vvvv_enc(&style, vals);
        let mm = map_bits(&vex.mmmmm);
        let pp = pp_bits(&vex.pp);
        let l: u8 = match vex.length {
            Length::L256 => 1,
            _ => 0,
        };
        if xbit == 0 && bbit == 0 && !vex.w && mm == 1 {
            buf.push(0xc5);
            buf.push((1 - rbit) * 128 + (15 - vv) * 8 + l * 4 + pp);
        } else {
            buf.push(0xc4);
            buf.push((1 - rbit) * 128 + (1 - xbit) * 64 + (1 - bbit) * 32 + mm);
            let wv: u8 = if vex.w {
                128
            } else {
                0
            };
            buf.push(wv + (15 - vv) * 8 + l * 4 + pp);
        }
        let ghost b1 = buf@;
        proof {
            assert(b1 =~= b0 + spec_vex_prefix_bytes(
                rbit,
                xbit,
                bbit,
                mm,
                vex.w,
                vv,
                l,
                pp,
            ));
        }
        vex.generate_opcode(buf);
        let bae = self.bytes_at_end(&style.modrm);
        emit_modrm_bytes(buf, &style.modrm, vals, bae);
        let ghost b3 = buf@;
        emit_tail_bytes(buf, self, &style.modrm, vals);
        proof {
            assert(buf@ =~= b0 + spec_encode_vex(self, *vex, vals@));
        }
    }

    /// Append the complete encoding of an extended vector-prefixed
    /// instruction: the four-byte prefix, the opcode byte, the ModR/M region
    /// — its 8-bit displacements compressed by the tuple-type scaling factor
    /// — and the trailing immediate.
    #[verifier::rlimit(100)]
    pub fn generate_evex_encoding(&self, buf: &mut Vec<u8>, evex: &Evex, vals: &Vec<OperandValue>)
        requires
            self.wf(),
            evex.wf(),
            spec_select_evex_style(self, evex) is Ok,
            spec_vals_match(self, vals@),
        ensures
            final(buf)@ == old(buf)@ + spec_encode_evex(self, *evex, vals@),
    {
        let style = match select_evex_style(self, evex) {
            Ok(st) => st,
            Err(_) => {
                proof {
                    assert(false);
                }
                return ;
            },
        };
        let ghost sc = spec_evex_scaling(evex.tuple_type, evex.length)->Ok_0;
        proof {
            lemma_vex_style_ok(self.kinds(), evex.digit, false, Some(sc));
            assert(style == spec_vex_style(self.kinds(), evex.digit, false, Some(sc))->Ok_0);
            lemma_style_fits_from_kinds(self, style.modrm, vals@);
            if let Some(i) = style.vvvv {
                assert(self.kinds()[i as int] == self.operands@[i as int].kind);
                assert(spec_val_matches(
                    self.operands@[i as int].kind,
                    self.operands@[i as int].bits,
                    vals@[i as int],
                ));
            }
        }
        let ghost b0 = buf@;
        let (rbit, bbit, xbit) = style_rbx(&style.modrm, vals);
        let vv = vvvv_enc(&style, vals);
        let mmm = map_bits(&evex.mmm);
        let pp = pp_bits(&evex.pp);
        let ll: u8 = match evex.length {
            Length::L128 => 0,
            Length::L256 => 1,
            Length::L512 => 2,
            _ => 0,
        };
        buf.push(0x62);
        buf.push((1 - rbit) * 128 + (1 - xbit) * 64 + (1 - bbit) * 32 + 16 + mmm);
        let wv: u8 = if evex.w {
            128
        } else {
            0
        };
        buf.push(wv + (15 - vv) * 8 + 4 + pp);
        buf.push(ll * 32 + 8);
        let ghost b1 = buf@;
        proof {
            assert(b1 =~= b0 + spec_evex_prefix_bytes(
                rbit,
                xbit,
                bbit,
                mmm,
                evex.w,
                vv,
                ll,
                pp,
            ));
        }
        evex.generate_opcode(buf);
        let bae = self.bytes_at_end(&style.modrm);
        emit_modrm_bytes(buf, &style.modrm, vals, bae);
        emit_tail_bytes(buf, self, &style.modrm, vals);
        proof {
            assert(buf@ =~= b0 + spec_encode_evex(self, *evex, vals@));
        }
    }
}

} // verus!

verus! {

/// The signed value behind one two's-complement byte.
pub open spec fn spec_from_twos8(b: u8) -> int {
    if b >= 128 {
        b - 256
    } else {
        b as int
    }
}

/// The signed value behind a 32-bit two's-complement image.
pub open spec fn spec_from_twos32(v: int) -> int {
    if v >= 0x8000_0000 {
        v - 0x1_0000_0000
    } else {
        v
    }
}

/// The displacement carried by one compressed byte: the stored quotient
/// multiplied back by the scaling factor.
pub open spec fn spec_decode_disp8(b: u8, scaling: Option<i8>) -> int {
    match scaling {
        Some(n) => spec_from_twos8(b) * (n as int),
        None => spec_from_twos8(b),
    }
}

/// Read a ModR/M region back: the Reg/Opcode field and the addressing mode,
/// with register fields reduced to their low three bits — the extension bits
/// live in the prefix, outside this region. Register-direct bytes and
/// malformed regions read as nothing.
pub open spec fn spec_mem_decode(bytes: Seq<u8>, bytes_at_end: int, scaling: Option<i8>) -> Option<
    (u8, Amode),
> {
    if bytes.len() == 0 {
        None
    } else {
        let m = bytes[0] / 64;
        let reg = (bytes[0] / 8) % 8;
        let rm = bytes[0] % 8;
        if m == 3 {
            None
        } else if m == 0 && rm == 5 {
            if bytes.len() == 5 {
                Some(
                    (
                        reg,
                        Amode::RipRelative {
                            disp: (spec_from_twos32(
                                spec_le_decode(bytes.subrange(1, 5)),
                            ) + bytes_at_end) as i32,
                        },
                    ),
                )
            } else {
                None
            }
        } else if rm == 4 {
            if bytes.len() < 2 {
                None
            } else {
                let shift = bytes[1] / 64;
                let index = (bytes[1] / 8) % 8;
                let base = bytes[1] % 8;
                let disp: Option<int> = if m == 0 {
                    if bytes.len() == 2 {
                        Some(0int)
                    } else {
                        None
                    }
                } else if m == 1 {
                    if bytes.len() == 3 {
                        Some(spec_decode_disp8(bytes[2], scaling))
                    } else {
                        None
                    }
                } else {
                    if bytes.len() == 6 {
                        Some(spec_from_twos32(spec_le_decode(bytes.subrange(2, 6))))
                    } else {
                        None
                    }
                };
                match disp {
                    None => None,
                    Some(d) => if index == 4 {
                        Some((reg, Amode::Base { base, disp: d as i32 }))
                    } else {
                        Some((reg, Amode::BaseIndex { base, index, shift, disp: d as i32 }))
                    },
                }
            }
        } else {
            if m == 0 {
                if bytes.len() == 1 {
                    Some((reg, Amode::Base { base: rm, disp: 0 }))
                } else {
                    None
                }
            } else if m == 1 {
                if bytes.len() == 2 {
                    Some(
                        (reg, Amode::Base { base: rm, disp: spec_decode_disp8(bytes[1], scaling) as i32 }),
                    )
                } else {
                    None
                }
            } else {
                if bytes.len() == 5 {
                    Some(
                        (
                            reg,
                            Amode::Base {
                                base: rm,
                                disp: spec_from_twos32(
                                    spec_le_decode(bytes.subrange(1, 5)),
                                ) as i32,
                            },
                        ),
                    )
                } else {
                    None
                }
            }
        }
    }
}

/// The addressing mode with its register fields reduced to their low three
/// bits, as the ModR/M region alone can carry them.
pub open spec fn spec_amode_low(am: Amode) -> Amode {
    match am {
        Amode::Base { base, disp } => Amode::Base { base: (base % 8) as u8, disp },
        Amode::BaseIndex { base, index, shift, disp } => Amode::BaseIndex {
            base: (base % 8) as u8,
            index: (index % 8) as u8,
            shift,
            disp,
        },
        Amode::RipRelative { disp } => Amode::RipRelative { disp },
    }
}

proof fn lemma_twos32_le_roundtrip(d: i32)
    ensures
        spec_le32(d as int).len() == 4,
        spec_from_twos32(spec_le_decode(spec_le32(d as int))) == d as int,
{
    let u = spec_twos32(d as int);
    lemma_le_roundtrip(u as u64, 4);
    reveal_with_fuel(spec_pow256, 5);
    assert(spec_pow256(4) == 0x1_0000_0000);
    assert((u as u64) as int % 0x1_0000_0000 == u);
}

proof fn lemma_disp8_decode(disp: i32, scaling: Option<i8>)
    requires
        spec_disp8_quotient(disp as int, scaling) is Some,
    ensures
        spec_decode_disp8(
            spec_twos8(spec_disp8_quotient(disp as int, scaling)->Some_0) as u8,
            scaling,
        ) == disp as int,
{
    let q = spec_disp8_quotient(disp as int, scaling)->Some_0;
    assert(spec_from_twos8(spec_twos8(q) as u8) == q);
    match scaling {
        Some(n) => {
            let nn = n as int;
            let mag = if disp < 0 {
                -(disp as int)
            } else {
                disp as int
            };
            vstd::arithmetic::div_mod::lemma_fundamental_div_mod(mag, nn);
            assert((mag / nn) * nn == mag);
            if disp < 0 {
                assert(q * nn == -mag) by (nonlinear_arith)
                    requires
                        q == -(mag / nn),
                        (mag / nn) * nn == mag,
                ;
            }
        },
        None => {},
    }
}

/// Round trip of the memory region: reading back the bytes the encoder
/// produced recovers the Reg/Opcode field and the addressing mode, register
/// fields reduced to their low three bits. An index register whose low bits
/// read as the no-index marker is excluded: telling it apart needs the
/// prefix's extension bit, which lives outside this region.
pub proof fn lemma_mem_encode_roundtrip(reg: u8, am: Amode, bytes_at_end: int, scaling: Option<i8>)
    requires
        reg < 8,
        am.wf(),
        0 <= bytes_at_end <= 8,
        am matches Amode::BaseIndex { index, .. } ==> index % 8 != 4,
    ensures
        spec_mem_decode(spec_mem_encode(reg, am, bytes_at_end, scaling), bytes_at_end, scaling)
            == Some((reg, spec_amode_low(am))),
{
    let bytes = spec_mem_encode(reg, am, bytes_at_end, scaling);
    match am {
        Amode::Base { base, disp } => {
            let b3 = (base % 8) as u8;
            if disp == 0 && b3 != 5 {
                if b3 == 4 {
                    lemma_modrm_fields(0, reg, 4);
                    lemma_sib_fields(0, 4, 4);
                } else {
                    lemma_modrm_fields(0, reg, b3);
                }
            } else {
                match spec_disp8_quotient(disp as int, scaling) {
                    Some(q) => {
                        lemma_modrm_fields(1, reg, b3);
                        if b3 == 4 {
                            lemma_sib_fields(0, 4, 4);
                        }
                        lemma_disp8_decode(disp, scaling);
                    },
                    None => {
                        lemma_modrm_fields(2, reg, b3);
                        lemma_twos32_le_roundtrip(disp);
                        if b3 == 4 {
                            lemma_sib_fields(0, 4, 4);
                            assert(bytes.subrange(2, 6) =~= spec_le32(disp as int));
                        } else {
                            assert(bytes.subrange(1, 5) =~= spec_le32(disp as int));
                        }
                    },
                }
            }
        },
        Amode::BaseIndex { base, index, shift, disp } => {
            let b3 = (base % 8) as u8;
            let i3 = (index % 8) as u8;
            lemma_sib_fields(shift, i3, b3);
            if disp == 0 && b3 != 5 {
                lemma_modrm_fields(0, reg, 4);
            } else {
                match spec_disp8_quotient(disp as int, scaling) {
                    Some(q) => {
                        lemma_modrm_fields(1, reg, 4);
                        lemma_disp8_decode(disp, scaling);
                    },
                    None => {
                        lemma_modrm_fields(2, reg, 4);
                        lemma_twos32_le_roundtrip(disp);
                        assert(bytes.subrange(2, 6) =~= spec_le32(disp as int));
                    },
                }
            }
        },
        Amode::RipRelative { disp } => {
            lemma_modrm_fields(0, reg, 5);
            assert((disp - bytes_at_end) as i32 as int == disp - bytes_at_end);
            lemma_twos32_le_roundtrip((disp - bytes_at_end) as i32);
            assert(bytes.subrange(1, 5) =~= spec_le32(disp - bytes_at_end));
        },
    }
}

} // verus!
