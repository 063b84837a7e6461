//! The instruction-shape model: operand locations with kind, width and
//! implicit flag, and the three prefix-descriptor families (legacy REX-style,
//! short vector VEX-style, extended vector EVEX-style).

use vstd::prelude::*;
use crate::strutil::{spec_join, join_str};

verus! {

/// The kind of one slot in an instruction's operand list.
#[derive(Copy, Clone, PartialEq, Eq, Structural, Debug)]
pub enum OperandKind {
    /// An architecturally hardwired register.
    FixedReg,
    /// A general register.
    Reg,
    /// A register or a memory address.
    RegMem,
    /// A pure memory address.
    Mem,
    /// An immediate value.
    Imm,
}

/// One typed slot in an instruction shape.
pub struct Operand {
    /// Label used when rendering the operand textually.
    pub name: String,
    pub kind: OperandKind,
    /// Bit-width of the slot: 8, 16, 32, 64, 128, 256 or 512.
    pub bits: u32,
    /// Implicit operands are excluded from ordinary textual rendering but
    /// still take part in encoding.
    pub implicit: bool,
}

impl Operand {
    pub open spec fn wf(&self) -> bool {
        (self.bits == 8 || self.bits == 16 || self.bits == 32 || self.bits == 64 || self.bits
            == 128 || self.bits == 256 || self.bits == 512) && (self.kind is Imm ==> self.bits
            <= 64)
    }
}

/// An ordered list of operand slots; many concrete instructions share one
/// shape. Immutable once built.
pub struct Format {
    pub operands: Vec<Operand>,
}

impl Format {
    /// The operand kinds in declared order.
    pub open spec fn kinds(&self) -> Seq<OperandKind> {
        self.operands@.map(|i: int, o: Operand| o.kind)
    }

    /// Shape invariant: every slot is well formed, and at most one slot is an
    /// immediate, which then stands last.
    pub open spec fn wf(&self) -> bool {
        &&& forall|i: int| 0 <= i < self.operands@.len() ==> (#[trigger] self.operands@[i]).wf()
        &&& forall|i: int|
            0 <= i < self.operands@.len() && (#[trigger] self.operands@[i]).kind is Imm ==> i + 1
                == self.operands@.len()
    }

    /// Build a shape, rejecting operand lists that break the invariant.
    pub fn new(operands: Vec<Operand>) -> (r: Result<Format, GenError>)
        ensures
            match r {
                Ok(fmt) => fmt.wf() && fmt.operands@ == operands@,
                Err(e) => e is InvalidShape && !(Format { operands }).wf(),
            },
    {
        let n = operands.len();
        let mut i: usize = 0;
        while i < n
            invariant
                i <= n,
                n == operands@.len(),
                forall|j: int| 0 <= j < i ==> (#[trigger] operands@[j]).wf(),
                forall|j: int|
                    0 <= j < i && (#[trigger] operands@[j]).kind is Imm ==> j + 1 == n,
            decreases n - i,
        {
            let o = &operands[i];
            let bits_ok = o.bits == 8 || o.bits == 16 || o.bits == 32 || o.bits == 64 || o.bits
                == 128 || o.bits == 256 || o.bits == 512;
            let imm_ok = match o.kind {
                OperandKind::Imm => o.bits <= 64 && i + 1 == n,
                _ => true,
            };
            if !(bits_ok && imm_ok) {
                return Err(GenError::InvalidShape);
            }
            i = i + 1;
        }
        Ok(Format { operands })
    }

    /// The immediate-count invariant, stated over any well-formed shape: no
    /// more than one immediate slot exists, and when one exists it is the
    /// last slot positionally.
    pub proof fn lemma_at_most_one_trailing_imm(&self)
        requires
            self.wf(),
        ensures
            forall|i: int, j: int|
                0 <= i < j < self.kinds().len() ==> !((#[trigger] self.kinds()[i]) is Imm
                    && (#[trigger] self.kinds()[j]) is Imm),
            forall|i: int|
                0 <= i < self.kinds().len() && (#[trigger] self.kinds()[i]) is Imm ==> i + 1
                    == self.kinds().len(),
    {
    }
}

/// A failure while generating the encoding for an instruction shape. These
/// are authoring-time faults in the instruction-set description, not runtime
/// conditions: generation rejects the shape rather than guessing.
#[derive(Copy, Clone, PartialEq, Eq, Structural, Debug)]
pub enum GenError {
    /// An operand list that breaks the shape invariant.
    InvalidShape,
    /// An operand-kind sequence outside the enumerated, supported set.
    UnsupportedShape,
    /// A static digit is configured although a register operand supplies the
    /// Reg/Opcode field.
    DigitPresent,
    /// No static digit is configured although the shape requires one.
    DigitMissing,
    /// A register-in-opcode form without the opcode-modifier flag.
    OpcodeModMissing,
    /// The opcode-modifier flag is set although no leading register operand
    /// can supply the low opcode bits.
    OpcodeModConflict,
    /// The is4 flag disagrees with the operand-kind sequence.
    Is4Conflict,
    /// A vector length class with no defined encoding here.
    UnsupportedLength,
    /// A vector prefix without an opcode-map selector.
    OpcodeMapMissing,
    /// A tuple-type classification with no defined scaling factor.
    UnsupportedTupleType,
}

/// Optional single-byte prefixes, one per legacy prefix group, emitted in
/// group order.
pub struct Prefixes {
    pub group1: Option<u8>,
    pub group2: Option<u8>,
    pub group3: Option<u8>,
    pub group4: Option<u8>,
}

/// Opcode bytes of a legacy-style instruction: optional prefix groups, an
/// optional 0x0f escape byte, the primary opcode byte and an optional
/// secondary opcode byte.
pub struct Opcodes {
    pub prefixes: Prefixes,
    pub escape: bool,
    pub primary: u8,
    pub secondary: Option<u8>,
}

/// The legacy REX-style prefix descriptor.
pub struct Rex {
    pub opcodes: Opcodes,
    /// The width-override bit.
    pub w: bool,
    /// When set, the low three bits of the primary opcode byte are
    /// overwritten by a register's encoding (register-in-opcode form).
    pub opcode_mod: bool,
    /// A static three-bit value for the Reg/Opcode field of ModR/M.
    pub digit: Option<u8>,
}

impl Rex {
    pub open spec fn wf(&self) -> bool {
        match self.digit {
            Some(d) => d < 8,
            None => true,
        }
    }
}

/// Vector length class of a vector-prefixed instruction.
#[derive(Copy, Clone, PartialEq, Eq, Structural, Debug)]
pub enum Length {
    LZ,
    LIG,
    L128,
    L256,
    L512,
}

/// The operand-size-prefix-equivalent field of a vector prefix.
#[derive(Copy, Clone, PartialEq, Eq, Structural, Debug)]
pub enum Pp {
    P66,
    PF3,
    PF2,
}

impl Pp {
    /// The two-bit encoding of the field.
    pub open spec fn spec_bits(&self) -> u8 {
        match self {
            Pp::P66 => 1,
            Pp::PF3 => 2,
            Pp::PF2 => 3,
        }
    }

    pub fn bits(&self) -> (r: u8)
        ensures
            r == self.spec_bits(),
    {
        match self {
            Pp::P66 => 1,
            Pp::PF3 => 2,
            Pp::PF2 => 3,
        }
    }
}

/// The opcode-map selector of a vector prefix.
#[derive(Copy, Clone, PartialEq, Eq, Structural, Debug)]
pub enum OpcodeMap {
    M0F,
    M0F38,
    M0F3A,
}

impl OpcodeMap {
    pub open spec fn spec_bits(&self) -> u8 {
        match self {
            OpcodeMap::M0F => 1,
            OpcodeMap::M0F38 => 2,
            OpcodeMap::M0F3A => 3,
        }
    }

    pub fn bits(&self) -> (r: u8)
        ensures
            r == self.spec_bits(),
    {
        match self {
            OpcodeMap::M0F => 1,
            OpcodeMap::M0F38 => 2,
            OpcodeMap::M0F3A => 3,
        }
    }
}

/// The short vector-prefix descriptor.
pub struct Vex {
    pub length: Length,
    pub pp: Option<Pp>,
    pub mmmmm: Option<OpcodeMap>,
    pub w: bool,
    pub opcode: u8,
    pub digit: Option<u8>,
    /// When set, a fourth register operand is packed into the top nibble of
    /// a byte trailing the ModR/M region.
    pub is4: bool,
}

impl Vex {
    pub open spec fn wf(&self) -> bool {
        match self.digit {
            Some(d) => d < 8,
            None => true,
        }
    }

    /// Append the single vector opcode byte.
    pub fn generate_opcode(&self, buf: &mut Vec<u8>)
        ensures
            final(buf)@ == old(buf)@.push(self.opcode),
    {
        buf.push(self.opcode);
    }
}

/// Tuple-type classification of an extended vector-prefixed instruction,
/// used to compute the compressed-displacement scaling factor.
#[derive(Copy, Clone, PartialEq, Eq, Structural, Debug)]
pub enum TupleType {
    Full,
    Half,
    FullMem,
    Tuple1Scalar,
    Tuple1Fixed,
    Tuple2,
    Tuple4,
    Tuple8,
    HalfMem,
    QuarterMem,
    EigthMem,
    Mem128,
    Movddup,
}

/// The extended vector-prefix descriptor.
pub struct Evex {
    pub length: Length,
    pub pp: Option<Pp>,
    pub mmm: Option<OpcodeMap>,
    pub w: bool,
    pub opcode: u8,
    pub digit: Option<u8>,
    pub tuple_type: TupleType,
}

impl Evex {
    pub open spec fn wf(&self) -> bool {
        match self.digit {
            Some(d) => d < 8,
            None => true,
        }
    }

    /// Append the single vector opcode byte.
    pub fn generate_opcode(&self, buf: &mut Vec<u8>)
        ensures
            final(buf)@ == old(buf)@.push(self.opcode),
    {
        buf.push(self.opcode);
    }
}

/// One rendered operand label: the name between braces.
pub open spec fn spec_braced(name: Seq<char>) -> Seq<char> {
    seq!['{'] + name + seq!['}']
}

/// The explicit operands in reversed order, each braced.
pub open spec fn spec_att_pieces(ops: Seq<Operand>) -> Seq<Seq<char>>
    decreases ops.len(),
{
    if ops.len() == 0 {
        Seq::empty()
    } else {
        let last = ops[ops.len() - 1];
        let rest = spec_att_pieces(ops.subrange(0, ops.len() - 1));
        if last.implicit {
            rest
        } else {
            seq![spec_braced(last.name@)] + rest
        }
    }
}

/// The implicit operands in declared order, each braced.
pub open spec fn spec_implicit_pieces(ops: Seq<Operand>) -> Seq<Seq<char>>
    decreases ops.len(),
{
    if ops.len() == 0 {
        Seq::empty()
    } else {
        let first = ops[0];
        let rest = spec_implicit_pieces(ops.subrange(1, ops.len() as int));
        if first.implicit {
            seq![spec_braced(first.name@)] + rest
        } else {
            rest
        }
    }
}

fn braced(name: &str) -> (r: String)
    ensures
        r@ == spec_braced(name@),
{
    let mut out = String::new();
    out.append("{");
    out.append(name);
    out.append("}");
    proof {
        reveal_strlit("{");
        reveal_strlit("}");
        assert(out@ =~= spec_braced(name@));
    }
    out
}

impl Format {
    /// Render the explicit operands in reversed declaration order, matching
    /// AT&T-style operand ordering, joined by a comma and a space.
    pub fn generate_att_style_operands(&self) -> (r: String)
        ensures
            r@ == spec_join(spec_att_pieces(self.operands@), ", "@),
    {
        let mut pieces: Vec<String> = Vec::new();
        let n = self.operands.len();
        let mut i: usize = n;
        while i > 0
            invariant
                i <= n,
                n == self.operands@.len(),
                pieces.deep_view() == spec_att_pieces(
                    self.operands@.subrange(i as int, n as int),
                ),
            decreases i,
        {
            i = i - 1;
            let o = &self.operands[i];
            proof {
                lemma_att_pieces_prepend(self.operands@, i as int);
            }
            if !o.implicit {
                pieces.push(braced(o.name.as_str()));
            }
            proof {
                assert(pieces.deep_view() =~~= spec_att_pieces(
                    self.operands@.subrange(i as int, n as int),
                ));
            }
        }
        proof {
            assert(self.operands@.subrange(0, n as int) =~= self.operands@);
        }
        join_str(&pieces, ", ")
    }

    /// Render the implicit operands, or an empty string when none exist.
    pub fn generate_implicit_operands(&self) -> (r: String)
        ensures
            spec_implicit_pieces(self.operands@).len() == 0 ==> r@ == Seq::<char>::empty(),
            spec_implicit_pieces(self.operands@).len() > 0 ==> r@ == " ;; implicit: "@
                + spec_join(spec_implicit_pieces(self.operands@), ", "@),
    {
        let mut pieces: Vec<String> = Vec::new();
        let n = self.operands.len();
        let mut i: usize = 0;
        proof {
            assert(self.operands@.subrange(0, n as int) =~= self.operands@);
        }
        while i < n
            invariant
                i <= n,
                n == self.operands@.len(),
                spec_implicit_pieces(self.operands@) =~~= pieces.deep_view()
                    + spec_implicit_pieces(self.operands@.subrange(i as int, n as int)),
            decreases n - i,
        {
            let o = &self.operands[i];
            proof {
                lemma_implicit_pieces_step(self.operands@, i as int);
            }
            if o.implicit {
                pieces.push(braced(o.name.as_str()));
            }
            i = i + 1;
        }
        proof {
            assert(spec_implicit_pieces(self.operands@.subrange(n as int, n as int)) =~~= Seq::<
                Seq<char>,
            >::empty());
            assert(pieces.deep_view() =~~= spec_implicit_pieces(self.operands@));
        }
        if pieces.len() == 0 {
            let empty = String::new();
            proof {
                assert(empty@ =~= Seq::<char>::empty());
            }
            empty
        } else {
            let mut out = String::new();
            out.append(" ;; implicit: ");
            let joined = join_str(&pieces, ", ");
            out.append(joined.as_str());
            out
        }
    }
}

proof fn lemma_att_pieces_cons(x: Operand, t: Seq<Operand>)
    ensures
        x.implicit ==> spec_att_pieces(seq![x] + t) == spec_att_pieces(t),
        !x.implicit ==> spec_att_pieces(seq![x] + t) == spec_att_pieces(t).push(
            spec_braced(x.name@),
        ),
    decreases t.len(),
{
    let s = seq![x] + t;
    if t.len() == 0 {
        assert(s.len() == 1 && s[0] == x);
        assert(t =~= Seq::<Operand>::empty());
        assert(s.subrange(0, 0) =~= Seq::<Operand>::empty());
        if !x.implicit {
            assert(seq![spec_braced(x.name@)] + spec_att_pieces(Seq::<Operand>::empty())
                =~~= spec_att_pieces(t).push(spec_braced(x.name@)));
        }
    } else {
        let last = t[t.len() - 1];
        assert(s[s.len() - 1] == last);
        let t_head = t.subrange(0, t.len() - 1);
        assert(s.subrange(0, s.len() - 1) =~= seq![x] + t_head);
        lemma_att_pieces_cons(x, t_head);
        if last.implicit {
        } else {
            if x.implicit {
            } else {
                assert(seq![spec_braced(last.name@)] + spec_att_pieces(t_head).push(
                    spec_braced(x.name@),
                ) =~~= (seq![spec_braced(last.name@)] + spec_att_pieces(t_head)).push(
                    spec_braced(x.name@),
                ));
            }
        }
    }
}

proof fn lemma_att_pieces_prepend(ops: Seq<Operand>, i: int)
    requires
        0 <= i < ops.len(),
    ensures
        ops[i].implicit ==> spec_att_pieces(ops.subrange(i, ops.len() as int)) == spec_att_pieces(
            ops.subrange(i + 1, ops.len() as int),
        ),
        !ops[i].implicit ==> spec_att_pieces(ops.subrange(i, ops.len() as int)) == spec_att_pieces(
            ops.subrange(i + 1, ops.len() as int),
        ).push(spec_braced(ops[i].name@)),
{
    assert(ops.subrange(i, ops.len() as int) =~= seq![ops[i]] + ops.subrange(
        i + 1,
        ops.len() as int,
    ));
    lemma_att_pieces_cons(ops[i], ops.subrange(i + 1, ops.len() as int));
}

proof fn lemma_implicit_pieces_step(ops: Seq<Operand>, i: int)
    requires
        0 <= i < ops.len(),
    ensures
        ops[i].implicit ==> spec_implicit_pieces(ops.subrange(i, ops.len() as int)) == seq![
            spec_braced(ops[i].name@),
        ] + spec_implicit_pieces(ops.subrange(i + 1, ops.len() as int)),
        !ops[i].implicit ==> spec_implicit_pieces(ops.subrange(i, ops.len() as int))
            == spec_implicit_pieces(ops.subrange(i + 1, ops.len() as int)),
{
    let s = ops.subrange(i, ops.len() as int);
    assert(s[0] == ops[i]);
    assert(s.subrange(1, s.len() as int) =~= ops.subrange(i + 1, ops.len() as int));
}

} // verus!
