use machinst::dsl::{
    Evex, Format, GenError, Length, OpcodeMap, Opcodes, Operand, OperandKind, Pp, Prefixes, Rex,
    TupleType, Vex,
};
use machinst::emit::{Amode, OperandValue};
use machinst::format::{
    evex_scaling, select_evex_style, select_rex_encoding, select_rex_style, select_vex_style,
    ModRmReg, ModRmStyle,
};

fn op(name: &str, kind: OperandKind, bits: u32) -> Operand {
    Operand { name: String::from(name), kind, bits, implicit: false }
}

fn fmt(ops: Vec<Operand>) -> Format {
    Format::new(ops).unwrap()
}

fn rex(primary: u8, w: bool, digit: Option<u8>, opcode_mod: bool) -> Rex {
    Rex {
        opcodes: Opcodes {
            prefixes: Prefixes { group1: None, group2: None, group3: None, group4: None },
            escape: false,
            primary,
            secondary: None,
        },
        w,
        opcode_mod,
        digit,
    }
}

#[test]
fn selector_reg_mem_shape() {
    // A two-operand shape: register destination, register-or-memory source,
    // under a legacy prefix without digit or opcode modifier.
    let f = fmt(vec![op("dst", OperandKind::Reg, 32), op("src", OperandKind::RegMem, 32)]);
    let r = rex(0x8b, false, None, false);
    let style = select_rex_encoding(&f, &r).unwrap();
    assert_eq!(style, ModRmStyle::RegMem { reg: ModRmReg::Reg(0), rm: 1, evex_scaling: None });
}

#[test]
fn selector_rejects_unknown_shapes() {
    // Two memory operands are outside the supported set and must fail
    // generation rather than defaulting.
    let g = fmt(vec![op("a", OperandKind::Mem, 32), op("b", OperandKind::Mem, 32)]);
    let r = rex(0x01, false, None, false);
    assert_eq!(select_rex_style(&g, &r), Err(GenError::UnsupportedShape));
    let v = vex3(Length::L128, None, OpcodeMap::M0F, 0x58, false);
    assert_eq!(select_vex_style(&g, &v), Err(GenError::UnsupportedShape));
}

#[test]
fn selector_digit_rules() {
    // A register-or-memory with immediate needs a digit for the Reg/Opcode
    // field; without one generation fails.
    let f = fmt(vec![op("dst", OperandKind::RegMem, 32), op("imm", OperandKind::Imm, 8)]);
    let without = rex(0x83, false, None, false);
    assert_eq!(select_rex_style(&f, &without), Err(GenError::DigitMissing));
    let with = rex(0x83, false, Some(0), false);
    assert_eq!(
        select_rex_style(&f, &with),
        Ok(ModRmStyle::RegMem { reg: ModRmReg::Digit(0), rm: 0, evex_scaling: None })
    );
    // A digit beside a register supplying the same field is a conflict.
    let g = fmt(vec![op("dst", OperandKind::Reg, 32), op("src", OperandKind::RegMem, 32)]);
    assert_eq!(select_rex_style(&g, &with), Err(GenError::DigitPresent));
}

#[test]
fn scenario_reg_mem_base_only() {
    // The example scenario: [Reg(dst), RegMem(src)] under a legacy prefix,
    // no opcode modifier, no digit; dst = register 0, src = memory with
    // base register 3 and no displacement. Expected bytes: opcode then a
    // ModR/M byte with Mod=00, Reg=0, R/M=3; no prefix since the width bit
    // is clear, no SIB, no displacement.
    let f = fmt(vec![op("dst", OperandKind::Reg, 32), op("src", OperandKind::RegMem, 32)]);
    let r = rex(0x8b, false, None, false);
    let vals = vec![
        OperandValue::Reg(0),
        OperandValue::Mem(Amode::Base { base: 3, disp: 0 }),
    ];
    let mut buf = Vec::new();
    f.generate_rex_encoding(&mut buf, &r, &vals);
    assert_eq!(buf, vec![0x8b, 0x03]);
    assert_eq!(0x03 >> 6, 0); // Mod
    assert_eq!((0x03 >> 3) & 7, 0); // Reg
    assert_eq!(0x03 & 7, 3); // R/M

    // With the width bit set the prefix byte leads.
    let rw = rex(0x8b, true, None, false);
    let mut buf = Vec::new();
    f.generate_rex_encoding(&mut buf, &rw, &vals);
    assert_eq!(buf, vec![0x48, 0x8b, 0x03]);
}

#[test]
fn oracle_store_form_reg_reg() {
    // Reference encoding: a 64-bit register-to-register store form
    // (primary 0x89) with destination register 0 and source register 3
    // encodes as 48 89 d8.
    let f = fmt(vec![op("dst", OperandKind::RegMem, 64), op("src", OperandKind::Reg, 64)]);
    let r = rex(0x89, true, None, false);
    let vals = vec![OperandValue::Reg(0), OperandValue::Reg(3)];
    let mut buf = Vec::new();
    f.generate_rex_encoding(&mut buf, &r, &vals);
    assert_eq!(buf, vec![0x48, 0x89, 0xd8]);
}

#[test]
fn oracle_displacements() {
    let f = fmt(vec![op("dst", OperandKind::Reg, 32), op("src", OperandKind::RegMem, 32)]);
    let r = rex(0x03, false, None, false);
    // An 8-bit displacement.
    let mut buf = Vec::new();
    f.generate_rex_encoding(
        &mut buf,
        &r,
        &vec![OperandValue::Reg(0), OperandValue::Mem(Amode::Base { base: 3, disp: 0x7f })],
    );
    assert_eq!(buf, vec![0x03, 0x43, 0x7f]);
    // A 32-bit displacement.
    let mut buf = Vec::new();
    f.generate_rex_encoding(
        &mut buf,
        &r,
        &vec![OperandValue::Reg(0), OperandValue::Mem(Amode::Base { base: 3, disp: 0x80 })],
    );
    assert_eq!(buf, vec![0x03, 0x83, 0x80, 0x00, 0x00, 0x00]);
    // A negative 8-bit displacement, two's complement.
    let mut buf = Vec::new();
    f.generate_rex_encoding(
        &mut buf,
        &r,
        &vec![OperandValue::Reg(0), OperandValue::Mem(Amode::Base { base: 3, disp: -8 })],
    );
    assert_eq!(buf, vec![0x03, 0x43, 0xf8]);
}

#[test]
fn oracle_sib_forms() {
    let f = fmt(vec![op("dst", OperandKind::Reg, 32), op("src", OperandKind::RegMem, 32)]);
    let r = rex(0x03, false, None, false);
    // Base and scaled index force a SIB byte.
    let mut buf = Vec::new();
    f.generate_rex_encoding(
        &mut buf,
        &r,
        &vec![
            OperandValue::Reg(0),
            OperandValue::Mem(Amode::BaseIndex { base: 3, index: 1, shift: 2, disp: 0 }),
        ],
    );
    assert_eq!(buf, vec![0x03, 0x04, 0x8b]);
    // A base whose low bits name the stack register forces a SIB byte even
    // alone.
    let mut buf = Vec::new();
    f.generate_rex_encoding(
        &mut buf,
        &r,
        &vec![OperandValue::Reg(0), OperandValue::Mem(Amode::Base { base: 4, disp: 0 })],
    );
    assert_eq!(buf, vec![0x03, 0x04, 0x24]);
    // A base whose low bits are 5 cannot use the no-displacement form.
    let mut buf = Vec::new();
    f.generate_rex_encoding(
        &mut buf,
        &r,
        &vec![OperandValue::Reg(0), OperandValue::Mem(Amode::Base { base: 5, disp: 0 })],
    );
    assert_eq!(buf, vec![0x03, 0x45, 0x00]);
}

#[test]
fn oracle_end_relative_displacement() {
    // An end-relative address subtracts the trailing immediate bytes from
    // the displacement so the target stays correct.
    let f = fmt(vec![op("dst", OperandKind::RegMem, 32), op("imm", OperandKind::Imm, 8)]);
    let r = rex(0x83, false, Some(0), false);
    let mut buf = Vec::new();
    f.generate_rex_encoding(
        &mut buf,
        &r,
        &vec![OperandValue::Mem(Amode::RipRelative { disp: 16 }), OperandValue::Imm(5)],
    );
    assert_eq!(buf, vec![0x83, 0x05, 0x0f, 0x00, 0x00, 0x00, 0x05]);
}

#[test]
fn oracle_immediate_little_endian() {
    // add-with-immediate form: digit 0, 8-bit immediate.
    let f = fmt(vec![op("dst", OperandKind::RegMem, 32), op("imm", OperandKind::Imm, 8)]);
    let r = rex(0x83, false, Some(0), false);
    let mut buf = Vec::new();
    f.generate_rex_encoding(
        &mut buf,
        &r,
        &vec![OperandValue::Reg(1), OperandValue::Imm(5)],
    );
    assert_eq!(buf, vec![0x83, 0xc1, 0x05]);
    // A 32-bit immediate appears in little-endian byte order.
    let g = fmt(vec![op("dst", OperandKind::RegMem, 32), op("imm", OperandKind::Imm, 32)]);
    let r32 = rex(0x81, false, Some(0), false);
    let mut buf = Vec::new();
    g.generate_rex_encoding(
        &mut buf,
        &r32,
        &vec![OperandValue::Reg(1), OperandValue::Imm(0x11223344)],
    );
    assert_eq!(buf, vec![0x81, 0xc1, 0x44, 0x33, 0x22, 0x11]);
}

#[test]
fn oracle_register_in_opcode() {
    // Register-in-opcode form: the low opcode bits carry the register.
    let f = fmt(vec![op("dst", OperandKind::Reg, 64)]);
    let r = rex(0x50, false, None, true);
    let mut buf = Vec::new();
    f.generate_rex_encoding(&mut buf, &r, &vec![OperandValue::Reg(2)]);
    assert_eq!(buf, vec![0x52]);
    // An extended register forces the prefix byte.
    let mut buf = Vec::new();
    f.generate_rex_encoding(&mut buf, &r, &vec![OperandValue::Reg(8)]);
    assert_eq!(buf, vec![0x41, 0x50]);
}

#[test]
fn rex_for_high_byte_registers() {
    // An 8-bit operand using encodings 4 through 7 forces an empty
    // extension prefix.
    let f = fmt(vec![op("dst", OperandKind::RegMem, 8), op("src", OperandKind::Reg, 8)]);
    let r = rex(0x88, false, None, false);
    let mut buf = Vec::new();
    f.generate_rex_encoding(&mut buf, &r, &vec![OperandValue::Reg(6), OperandValue::Reg(1)]);
    assert_eq!(buf, vec![0x40, 0x88, 0xce]);
    // Low encodings need no prefix.
    let mut buf = Vec::new();
    f.generate_rex_encoding(&mut buf, &r, &vec![OperandValue::Reg(3), OperandValue::Reg(1)]);
    assert_eq!(buf, vec![0x88, 0xcb]);
}

fn vex3(length: Length, pp: Option<Pp>, map: OpcodeMap, opcode: u8, is4: bool) -> Vex {
    Vex { length, pp, mmmmm: Some(map), w: false, opcode, digit: None, is4 }
}

#[test]
fn oracle_vex_two_byte_form() {
    // Vector add of three 128-bit registers: compact two-byte prefix.
    let f = fmt(vec![
        op("dst", OperandKind::Reg, 128),
        op("a", OperandKind::Reg, 128),
        op("b", OperandKind::Reg, 128),
    ]);
    let v = vex3(Length::L128, None, OpcodeMap::M0F, 0x58, false);
    let mut buf = Vec::new();
    f.generate_vex_encoding(
        &mut buf,
        &v,
        &vec![OperandValue::Reg(0), OperandValue::Reg(1), OperandValue::Reg(2)],
    );
    assert_eq!(buf, vec![0xc5, 0xf0, 0x58, 0xc2]);
}

#[test]
fn oracle_vex_three_byte_form_with_is4() {
    // A blend form packing the fourth register into a trailing byte's top
    // nibble, under the three-byte prefix.
    let f = fmt(vec![
        op("dst", OperandKind::Reg, 128),
        op("a", OperandKind::Reg, 128),
        op("b", OperandKind::RegMem, 128),
        op("c", OperandKind::Reg, 128),
    ]);
    let v = vex3(Length::L128, Some(Pp::P66), OpcodeMap::M0F3A, 0x4a, true);
    let mut buf = Vec::new();
    f.generate_vex_encoding(
        &mut buf,
        &v,
        &vec![
            OperandValue::Reg(0),
            OperandValue::Reg(1),
            OperandValue::Reg(2),
            OperandValue::Reg(3),
        ],
    );
    assert_eq!(buf, vec![0xc4, 0xe3, 0x71, 0x4a, 0xc2, 0x30]);
}

#[test]
fn is4_and_immediate_exclusive() {
    // The is4-marked shape holds no immediate; marking an immediate-bearing
    // shape is4, or the is4 shape not-is4, is rejected. The trailing byte
    // and an immediate can never both be emitted.
    let is4_shape = fmt(vec![
        op("dst", OperandKind::Reg, 128),
        op("a", OperandKind::Reg, 128),
        op("b", OperandKind::RegMem, 128),
        op("c", OperandKind::Reg, 128),
    ]);
    let not_is4 = vex3(Length::L128, Some(Pp::P66), OpcodeMap::M0F3A, 0x4a, false);
    assert_eq!(select_vex_style(&is4_shape, &not_is4), Err(GenError::Is4Conflict));

    let imm_shape = fmt(vec![
        op("dst", OperandKind::Reg, 128),
        op("a", OperandKind::Reg, 128),
        op("b", OperandKind::RegMem, 128),
        op("imm", OperandKind::Imm, 8),
    ]);
    let marked_is4 = vex3(Length::L128, Some(Pp::P66), OpcodeMap::M0F3A, 0x0c, true);
    assert_eq!(select_vex_style(&imm_shape, &marked_is4), Err(GenError::Is4Conflict));
}

#[test]
fn immediate_must_stand_last_and_alone() {
    // Shapes with a non-trailing or repeated immediate are rejected when
    // built.
    assert!(Format::new(vec![
        op("imm", OperandKind::Imm, 8),
        op("dst", OperandKind::Reg, 32),
    ])
    .is_err());
    assert!(Format::new(vec![
        op("a", OperandKind::Imm, 8),
        op("b", OperandKind::Imm, 8),
    ])
    .is_err());
    assert!(Format::new(vec![
        op("dst", OperandKind::Reg, 32),
        op("imm", OperandKind::Imm, 8),
    ])
    .is_ok());
}

fn evex(length: Length, tt: TupleType, opcode: u8) -> Evex {
    Evex {
        length,
        pp: None,
        mmm: Some(OpcodeMap::M0F),
        w: false,
        opcode,
        digit: None,
        tuple_type: tt,
    }
}

#[test]
fn oracle_evex_register_form() {
    // Vector add of three 512-bit registers under the extended prefix.
    let f = fmt(vec![
        op("dst", OperandKind::Reg, 512),
        op("a", OperandKind::Reg, 512),
        op("b", OperandKind::Reg, 512),
    ]);
    let e = evex(Length::L512, TupleType::Full, 0x58);
    let mut buf = Vec::new();
    f.generate_evex_encoding(
        &mut buf,
        &e,
        &vec![OperandValue::Reg(0), OperandValue::Reg(1), OperandValue::Reg(2)],
    );
    assert_eq!(buf, vec![0x62, 0xf1, 0x74, 0x48, 0x58, 0xc2]);
}

#[test]
fn oracle_evex_compressed_displacement() {
    // A 128-byte displacement under a 64-byte scaling factor compresses to
    // the 8-bit quotient 2.
    let f = fmt(vec![
        op("dst", OperandKind::Reg, 512),
        op("a", OperandKind::Reg, 512),
        op("b", OperandKind::RegMem, 512),
    ]);
    let e = evex(Length::L512, TupleType::Full, 0x58);
    let mut buf = Vec::new();
    f.generate_evex_encoding(
        &mut buf,
        &e,
        &vec![
            OperandValue::Reg(0),
            OperandValue::Reg(1),
            OperandValue::Mem(Amode::Base { base: 0, disp: 128 }),
        ],
    );
    assert_eq!(buf, vec![0x62, 0xf1, 0x74, 0x48, 0x58, 0x40, 0x02]);
    // A displacement that the factor does not divide falls back to the full
    // 32-bit form.
    let mut buf = Vec::new();
    f.generate_evex_encoding(
        &mut buf,
        &e,
        &vec![
            OperandValue::Reg(0),
            OperandValue::Reg(1),
            OperandValue::Mem(Amode::Base { base: 0, disp: 100 }),
        ],
    );
    assert_eq!(buf, vec![0x62, 0xf1, 0x74, 0x48, 0x58, 0x80, 0x64, 0x00, 0x00, 0x00]);
}

#[test]
fn evex_scaling_factors() {
    // Documented scaling relationships: a 128-bit length under the Full
    // classification scales by 16; a 256-bit length under Half by 16.
    let e = evex(Length::L128, TupleType::Full, 0);
    assert_eq!(evex_scaling(&e), Ok(16));
    let e = evex(Length::L256, TupleType::Half, 0);
    assert_eq!(evex_scaling(&e), Ok(16));
    let e = evex(Length::L512, TupleType::QuarterMem, 0);
    assert_eq!(evex_scaling(&e), Ok(16));
    let e = evex(Length::L256, TupleType::EigthMem, 0);
    assert_eq!(evex_scaling(&e), Ok(4));
    let e = evex(Length::L128, TupleType::Movddup, 0);
    assert_eq!(evex_scaling(&e), Ok(8));
    let e = evex(Length::L512, TupleType::Mem128, 0);
    assert_eq!(evex_scaling(&e), Ok(16));
    // Classifications without a defined factor are rejected, as are length
    // classes without a byte width.
    let e = evex(Length::L128, TupleType::Tuple1Scalar, 0);
    assert_eq!(evex_scaling(&e), Err(GenError::UnsupportedTupleType));
    let e = evex(Length::LZ, TupleType::Full, 0);
    assert_eq!(evex_scaling(&e), Err(GenError::UnsupportedLength));
    let f = fmt(vec![op("a", OperandKind::Reg, 128), op("b", OperandKind::Reg, 128)]);
    assert_eq!(select_evex_style(&f, &evex(Length::LIG, TupleType::Full, 0)),
        Err(GenError::UnsupportedLength));
}

#[test]
fn vex_digit_compaction() {
    // Two register operands but three encoded fields: the digit supplies the
    // Reg/Opcode field and the remaining register supplies the prefix's
    // extra field (a shift form: digit 4).
    let f = fmt(vec![op("dst", OperandKind::Reg, 128), op("src", OperandKind::RegMem, 128)]);
    let mut v = vex3(Length::L128, Some(Pp::P66), OpcodeMap::M0F, 0x72, false);
    v.digit = Some(4);
    let style = select_vex_style(&f, &v).unwrap();
    assert_eq!(style.modrm, ModRmStyle::RegMem { reg: ModRmReg::Digit(4), rm: 1, evex_scaling: None });
    assert_eq!(style.vvvv, Some(0));
}

#[test]
fn rendered_operands() {
    let f = Format {
        operands: vec![
            Operand { name: String::from("rax"), kind: OperandKind::FixedReg, bits: 64, implicit: true },
            Operand { name: String::from("dst"), kind: OperandKind::Reg, bits: 64, implicit: false },
            Operand { name: String::from("src"), kind: OperandKind::RegMem, bits: 64, implicit: false },
        ],
    };
    assert_eq!(f.generate_att_style_operands(), "{src}, {dst}");
    assert_eq!(f.generate_implicit_operands(), " ;; implicit: {rax}");
    let g = Format { operands: vec![] };
    assert_eq!(g.generate_implicit_operands(), "");
    assert_eq!(g.generate_att_style_operands(), "");
}
