//! The compilation pipeline: compute a block order honoring dominance, drive
//! the lowering table over the ordered blocks to build virtual instructions,
//! optionally check proof obligations, and coordinate the external register
//! allocator — propagating each failure as its own error category.

use vstd::prelude::*;

verus! {

/// One instruction of the input intermediate representation, as the lowering
/// table consumes it: an opcode tag with value-numbered arguments and
/// results.
pub struct IrInst {
    pub opcode: u32,
    pub args: Vec<u32>,
    pub results: Vec<u32>,
}

/// One basic block of the input.
pub struct IrBlock {
    pub insts: Vec<IrInst>,
}

/// The input function: its blocks, block zero being the entry.
pub struct IrFunction {
    pub blocks: Vec<IrBlock>,
}

/// Dominance information over the input's blocks: each block's immediate
/// dominator. Blocks are numbered so that a dominator precedes what it
/// dominates.
pub struct DominatorTree {
    pub idom: Vec<usize>,
}

impl DominatorTree {
    pub open spec fn wf(&self, nblocks: int) -> bool {
        &&& self.idom@.len() == nblocks
        &&& nblocks > 0 ==> self.idom@[0] == 0
        &&& forall|b: int| 1 <= b < nblocks ==> (#[trigger] self.idom@[b]) < b
    }
}

/// A deterministic pseudo-random source threaded through the pipeline so
/// that order-sensitive decisions stay reproducible across runs. It is no
/// concurrency primitive: each compilation owns its own.
pub struct ControlPlane {
    pub state: u64,
}

/// The next internal state of the source.
pub open spec fn spec_ctrl_next_state(s: u64) -> u64 {
    vstd::wrapping::u64_specs::wrapping_add(
        vstd::wrapping::u64_specs::wrapping_mul(s, 6364136223846793005),
        1442695040888963407,
    )
}

/// The value drawn from a state.
pub open spec fn spec_ctrl_output(s: u64) -> u64 {
    (s / 0x2000000000000) ^ s
}

impl ControlPlane {
    /// A source that will replay the same decisions for the same seed.
    pub fn new(seed: u64) -> (r: ControlPlane)
        ensures
            r.state == seed,
    {
        ControlPlane { state: seed }
    }

    /// Draw the next value; the same state always draws the same value and
    /// moves to the same next state.
    pub fn next_u64(&mut self) -> (r: u64)
        ensures
            final(self).state == spec_ctrl_next_state(old(self).state),
            r == spec_ctrl_output(spec_ctrl_next_state(old(self).state)),
    {
        self.state = self.state.wrapping_mul(6364136223846793005).wrapping_add(
            1442695040888963407,
        );
        (self.state / 0x2000000000000) ^ self.state
    }
}

/// One lowered instruction: an opcode tag with virtual-register uses and
/// definitions, not yet assigned to physical registers.
pub struct VInst {
    pub opcode: u32,
    pub uses: Vec<u32>,
    pub defs: Vec<u32>,
}

/// The lowered form of a function: the virtual instructions laid out in
/// block order, with each ordered block's starting index.
pub struct VCode {
    pub insts: Vec<VInst>,
    pub block_order: Vec<usize>,
    pub block_starts: Vec<usize>,
}

impl VCode {
    /// Per-block boundaries are one per ordered block, non-decreasing, and
    /// within the instruction sequence.
    pub open spec fn wf(&self) -> bool {
        &&& self.block_starts@.len() == self.block_order@.len()
        &&& forall|i: int, j: int|
            0 <= i <= j < self.block_starts@.len() ==> (#[trigger] self.block_starts@[i]) <= (
            #[trigger] self.block_starts@[j])
        &&& forall|i: int|
            0 <= i < self.block_starts@.len() ==> (#[trigger] self.block_starts@[i])
                <= self.insts@.len()
    }
}

/// The mapping from input value numbers to virtual-register handles,
/// maintained while lowering. A value keeps the handle it was first given.
pub struct ValueMap {
    pub map: Vec<Option<u32>>,
    pub next: u32,
}

impl ValueMap {
    pub open spec fn wf(&self) -> bool {
        forall|i: int|
            0 <= i < self.map@.len() ==> match #[trigger] self.map@[i] {
                Some(r) => r < self.next,
                None => true,
            }
    }

    /// An empty mapping over `num_values` input values.
    pub fn new(num_values: usize) -> (r: ValueMap)
        ensures
            r.wf(),
            r.map@.len() == num_values,
            forall|i: int| 0 <= i < num_values ==> (#[trigger] r.map@[i]) is None,
            r.next == 0,
    {
        let mut map: Vec<Option<u32>> = Vec::new();
        let mut i: usize = 0;
        while i < num_values
            invariant
                i <= num_values,
                map@.len() == i,
                forall|j: int| 0 <= j < i ==> (#[trigger] map@[j]) is None,
            decreases num_values - i,
        {
            map.push(None);
            i = i + 1;
        }
        ValueMap { map, next: 0 }
    }

    /// The virtual register of value `v`: the handle it already has, or a
    /// fresh one recorded for it. Earlier assignments never change.
    pub fn vreg_for(&mut self, v: usize) -> (r: Result<u32, CodegenError>)
        requires
            old(self).wf(),
        ensures
            final(self).wf(),
            final(self).map@.len() == old(self).map@.len(),
            match r {
                Ok(vr) => {
                    &&& v < old(self).map@.len()
                    &&& final(self).map@[v as int] == Some(vr)
                    &&& match old(self).map@[v as int] {
                        Some(prev) => vr == prev && *final(self) == *old(self),
                        None => vr == old(self).next && final(self).next == old(self).next + 1
                            && final(self).map@ == old(self).map@.update(v as int, Some(vr)),
                    }
                    &&& forall|i: int|
                        0 <= i < old(self).map@.len() && i != v ==> final(self).map@[i] == old(
                            self,
                        ).map@[i]
                },
                Err(e) => e is Lowering && (v >= old(self).map@.len() || (old(
                    self,
                ).map@[v as int] is None && old(self).next == u32::MAX)) && *final(self) == *old(
                    self,
                ),
            },
    {
        if v >= self.map.len() {
            return Err(CodegenError::Lowering);
        }
        match self.map[v] {
            Some(r) => Ok(r),
            None => {
                if self.next == u32::MAX {
                    return Err(CodegenError::Lowering);
                }
                let r = self.next;
                self.map.set(v, Some(r));
                self.next = self.next + 1;
                Ok(r)
            },
        }
    }
}

/// The machine-register environment handed to the allocator: the physical
/// registers that exist, split into allocation preference classes, and the
/// registers reserved by the calling convention.
pub struct MachineEnv {
    pub preferred_regs: Vec<u8>,
    pub non_preferred_regs: Vec<u8>,
    pub reserved_regs: Vec<u8>,
}

/// The allocation algorithms this coordinator can ask for. One production
/// backtracking global algorithm exists.
#[derive(Copy, Clone, PartialEq, Eq, Structural, Debug)]
pub enum RegallocAlgorithm {
    Backtracking,
}

/// The algorithm selector in the allocator's own vocabulary.
#[derive(Copy, Clone, PartialEq, Eq, Structural, Debug)]
pub enum Algorithm {
    Ion,
}

/// Per-compilation configuration, passed explicitly so that compilations
/// stay independent: no ambient global state is read.
#[derive(Copy, Clone, PartialEq, Eq, Structural, Debug)]
pub struct Flags {
    pub enable_pcc: bool,
    pub regalloc_checker: bool,
    pub regalloc_verbose_logs: bool,
    pub regalloc_algorithm: RegallocAlgorithm,
    pub validate_ssa: bool,
}

/// The options handed to the external allocator.
#[derive(Copy, Clone, PartialEq, Eq, Structural, Debug)]
pub struct RegallocOptions {
    pub verbose_log: bool,
    pub validate_ssa: bool,
    pub algorithm: Algorithm,
}

/// The options follow the flags exactly.
pub open spec fn spec_regalloc_options(flags: Flags) -> RegallocOptions {
    RegallocOptions {
        verbose_log: flags.regalloc_verbose_logs,
        validate_ssa: flags.validate_ssa,
        algorithm: match flags.regalloc_algorithm {
            RegallocAlgorithm::Backtracking => Algorithm::Ion,
        },
    }
}

/// Build the allocator options from the flags.
pub fn regalloc_options(flags: &Flags) -> (r: RegallocOptions)
    ensures
        r == spec_regalloc_options(*flags),
{
    RegallocOptions {
        verbose_log: flags.regalloc_verbose_logs,
        validate_ssa: flags.validate_ssa,
        algorithm: match flags.regalloc_algorithm {
            RegallocAlgorithm::Backtracking => Algorithm::Ion,
        },
    }
}

/// Where one virtual-register occurrence was placed: a physical register or
/// a spill slot.
#[derive(Copy, Clone, PartialEq, Eq, Structural, Debug)]
pub enum Alloc {
    Reg(u8),
    Stack(u32),
}

/// The allocator's answer: one placement per operand occurrence, in
/// instruction order uses before definitions, and the spill-slot footprint.
pub struct AllocationResult {
    pub allocs: Vec<Alloc>,
    pub num_spillslots: usize,
}

/// The number of operand occurrences the allocator must place.
pub open spec fn spec_total_operands(insts: Seq<VInst>) -> int
    decreases insts.len(),
{
    if insts.len() == 0 {
        0int
    } else {
        insts[0].uses@.len() + insts[0].defs@.len() + spec_total_operands(
            insts.subrange(1, insts.len() as int),
        )
    }
}

/// Whether a physical register exists in the environment.
pub open spec fn spec_env_has_reg(env: &MachineEnv, e: u8) -> bool {
    env.preferred_regs@.contains(e) || env.non_preferred_regs@.contains(e)
}

/// Structural validity of an allocation against the lowered code and the
/// environment: one placement per operand occurrence, every register
/// placement an existing register, every stack placement within the declared
/// spill footprint.
pub open spec fn spec_valid_allocation(
    vcode: &VCode,
    env: &MachineEnv,
    res: &AllocationResult,
) -> bool {
    &&& res.allocs@.len() == spec_total_operands(vcode.insts@)
    &&& forall|i: int|
        0 <= i < res.allocs@.len() ==> match #[trigger] res.allocs@[i] {
            Alloc::Reg(e) => spec_env_has_reg(env, e),
            Alloc::Stack(s) => (s as int) < res.num_spillslots,
        }
}

/// The typed failure categories of a compilation; none is swallowed.
#[derive(Copy, Clone, PartialEq, Eq, Structural, Debug)]
pub enum CodegenError {
    /// The lowering table produced an inconsistent virtual form.
    Lowering,
    /// A stated proof obligation does not hold of the lowered form.
    Pcc,
    /// The external allocator found no valid assignment.
    AllocationFailed,
    /// The allocator's answer fails structural validation against the
    /// lowered code: an internal-consistency fault, never accepted.
    InvalidAllocation,
    /// The independent checker rejected the allocator's answer: the
    /// allocator broke its contract — fatal.
    CheckerMismatch,
}

/// The lowering table and target hooks, supplied by the target backend. The
/// pipeline only drives these.
pub trait LowerBackend {
    /// The virtual instructions one input instruction lowers to; zero or
    /// more. The mapping from values to virtual registers is shared across
    /// the whole function.
    fn lower_inst(
        &self,
        inst: &IrInst,
        vregs: &mut ValueMap,
        ctrl: &mut ControlPlane,
    ) -> Result<Vec<VInst>, CodegenError>;

    /// Whether the lowered form satisfies the stated proof obligations.
    fn check_facts(&self, f: &IrFunction, vcode: &VCode) -> bool;
}

/// The external register allocator: a solver from the lowered code, the
/// environment and the options to an assignment or a failure, with an
/// optional independent checker over its own answer.
pub trait RegAllocator {
    fn run(
        &mut self,
        vcode: &VCode,
        env: &MachineEnv,
        opts: &RegallocOptions,
    ) -> Result<AllocationResult, CodegenError>;

    fn check(&mut self, vcode: &VCode, env: &MachineEnv, res: &AllocationResult) -> bool;
}

/// The preorder of one block's dominator subtree: the block, then each
/// child's subtree in ascending block order.
pub open spec fn spec_subtree(idom: Seq<usize>, b: int) -> Seq<usize>
    decreases idom.len() - b, idom.len() + 1int,
        when 0 <= b < idom.len()
{
    seq![b as usize] + spec_subtrees_from(idom, b, b + 1)
}

/// The concatenated subtrees of the children of `b` whose index is at least
/// `k`.
pub open spec fn spec_subtrees_from(idom: Seq<usize>, b: int, k: int) -> Seq<usize>
    decreases idom.len() - b, idom.len() - k,
        when 0 <= b < k
{
    if k >= idom.len() || k < 0 {
        Seq::empty()
    } else if idom[k] == b {
        spec_subtree(idom, k) + spec_subtrees_from(idom, b, k + 1)
    } else {
        spec_subtrees_from(idom, b, k + 1)
    }
}

/// The block processing order: the preorder of the dominator tree from the
/// entry block, so that every block comes after its immediate dominator.
pub open spec fn spec_block_order(idom: Seq<usize>) -> Seq<usize> {
    if idom.len() == 0 {
        Seq::empty()
    } else {
        spec_subtree(idom, 0)
    }
}

fn subtree_into(idom: &Vec<usize>, b: usize, out: &mut Vec<usize>)
    requires
        b < idom@.len(),
    ensures
        final(out)@ == old(out)@ + spec_subtree(idom@, b as int),
    decreases idom@.len() - b,
{
    out.push(b);
    let n = idom.len();
    let mut k: usize = b + 1;
    while k < n
        invariant
            b < k <= n,
            n == idom@.len(),
            old(out)@ + spec_subtree(idom@, b as int) =~= out@ + spec_subtrees_from(
                idom@,
                b as int,
                k as int,
            ),
        decreases n - k,
    {
        if idom[k] == b {
            subtree_into(idom, k, out);
        }
        k = k + 1;
    }
    proof {
        assert(out@ =~= old(out)@ + spec_subtree(idom@, b as int));
    }
}

/// Compute the block processing order from the dominance information.
pub fn block_lowering_order(f: &IrFunction, domtree: &DominatorTree) -> (r: Vec<usize>)
    requires
        domtree.wf(f.blocks@.len() as int),
    ensures
        r@ == spec_block_order(domtree.idom@),
{
    let mut out: Vec<usize> = Vec::new();
    if domtree.idom.len() == 0 {
        return out;
    }
    subtree_into(&domtree.idom, 0, &mut out);
    out
}

/// Every block the order lists exists, and the entry block leads it.
pub proof fn lemma_block_order_bounds(idom: Seq<usize>, b: int)
    requires
        0 <= b < idom.len(),
        idom.len() <= usize::MAX,
    ensures
        spec_subtree(idom, b).len() >= 1,
        spec_subtree(idom, b)[0] == b as usize,
        forall|i: int|
            0 <= i < spec_subtree(idom, b).len() ==> b <= (#[trigger] spec_subtree(idom, b)[i])
                < idom.len(),
    decreases idom.len() - b, idom.len() + 1int,
{
    lemma_subtrees_from_bounds(idom, b, b + 1);
    let s = spec_subtree(idom, b);
    let rest = spec_subtrees_from(idom, b, b + 1);
    assert(s == seq![b as usize] + rest);
    assert forall|i: int| 0 <= i < s.len() implies b <= (#[trigger] s[i]) < idom.len() by {
        if i == 0 {
            assert(s[i] == b as usize);
        } else {
            assert(s[i] == rest[i - 1]);
            assert(b < rest[i - 1] < idom.len());
        }
    }
}

proof fn lemma_subtrees_from_bounds(idom: Seq<usize>, b: int, k: int)
    requires
        0 <= b < k,
        b < idom.len(),
        idom.len() <= usize::MAX,
    ensures
        forall|i: int|
            0 <= i < spec_subtrees_from(idom, b, k).len() ==> b < (
            #[trigger] spec_subtrees_from(idom, b, k)[i]) < idom.len(),
    decreases idom.len() - b, idom.len() - k,
{
    if k >= idom.len() || k < 0 {
    } else {
        lemma_subtrees_from_bounds(idom, b, k + 1);
        let rest = spec_subtrees_from(idom, b, k + 1);
        let s = spec_subtrees_from(idom, b, k);
        if idom[k] == b {
            lemma_block_order_bounds(idom, k);
            let sub = spec_subtree(idom, k);
            assert forall|i: int| 0 <= i < s.len() implies b < (#[trigger] s[i]) < idom.len() by {
                if i < sub.len() {
                    assert(s[i] == sub[i]);
                } else {
                    assert(s[i] == rest[i - sub.len()]);
                }
            }
        }
    }
}

} // verus!

verus! {

proof fn lemma_total_operands_nonneg(insts: Seq<VInst>)
    ensures
        spec_total_operands(insts) >= 0,
    decreases insts.len(),
{
    if insts.len() > 0 {
        lemma_total_operands_nonneg(insts.subrange(1, insts.len() as int));
    }
}

fn vec_contains(v: &Vec<u8>, x: u8) -> (r: bool)
    ensures
        r == v@.contains(x),
{
    let n = v.len();
    let mut i: usize = 0;
    while i < n
        invariant
            i <= n,
            n == v@.len(),
            forall|j: int| 0 <= j < i ==> v@[j] != x,
        decreases n - i,
    {
        if v[i] == x {
            return true;
        }
        i = i + 1;
    }
    false
}

/// Re-validate an allocation structurally against the lowered code: the
/// placement count, register existence and spill-slot bounds.
pub fn validate_allocation(vcode: &VCode, env: &MachineEnv, res: &AllocationResult) -> (r: bool)
    ensures
        r == spec_valid_allocation(vcode, env, res),
{
    let total = res.allocs.len();
    let n = vcode.insts.len();
    let mut acc: usize = 0;
    let mut i: usize = 0;
    proof {
        assert(vcode.insts@.subrange(0, n as int) =~= vcode.insts@);
    }
    while i < n
        invariant
            i <= n,
            acc <= total,
            total == res.allocs@.len(),
            n == vcode.insts@.len(),
            spec_total_operands(vcode.insts@) == acc + spec_total_operands(
                vcode.insts@.subrange(i as int, n as int),
            ),
        decreases n - i,
    {
        let inst = &vcode.insts[i];
        proof {
            assert(vcode.insts@.subrange(i as int, n as int).subrange(
                1,
                (n - i) as int,
            ) =~= vcode.insts@.subrange(i + 1, n as int));
            lemma_total_operands_nonneg(vcode.insts@.subrange(i + 1, n as int));
        }
        let nu = inst.uses.len();
        let nd = inst.defs.len();
        if nu > total - acc {
            return false;
        }
        let acc2 = acc + nu;
        if nd > total - acc2 {
            return false;
        }
        acc = acc2 + nd;
        i = i + 1;
    }
    proof {
        assert(vcode.insts@.subrange(n as int, n as int) =~= Seq::<VInst>::empty());
    }
    if acc != total {
        return false;
    }
    let mut k: usize = 0;
    while k < total
        invariant
            k <= total,
            total == res.allocs@.len(),
            forall|j: int|
                0 <= j < k ==> match #[trigger] res.allocs@[j] {
                    Alloc::Reg(e) => spec_env_has_reg(env, e),
                    Alloc::Stack(s) => (s as int) < res.num_spillslots,
                },
        decreases total - k,
    {
        match res.allocs[k] {
            Alloc::Reg(e) => {
                if !vec_contains(&env.preferred_regs, e) && !vec_contains(
                    &env.non_preferred_regs,
                    e,
                ) {
                    return false;
                }
            },
            Alloc::Stack(s) => {
                if !((s as usize) < res.num_spillslots) {
                    return false;
                }
            },
        }
        k = k + 1;
    }
    true
}

/// Drive the lowering table over the blocks in the given order, recording
/// each ordered block's start. The table appends zero or more virtual
/// instructions per input instruction; input order is preserved within and
/// across blocks, so side-effect order survives lowering. Failures of the
/// table are propagated unchanged.
pub fn lower<B: LowerBackend>(
    f: &IrFunction,
    order: Vec<usize>,
    num_values: usize,
    b: &B,
    ctrl: &mut ControlPlane,
) -> (r: Result<VCode, CodegenError>)
    requires
        forall|i: int| 0 <= i < order@.len() ==> (#[trigger] order@[i]) < f.blocks@.len(),
    ensures
        match r {
            Ok(vcode) => vcode.wf() && vcode.block_order@ == order@,
            Err(_) => true,
        },
{
    let mut insts: Vec<VInst> = Vec::new();
    let mut starts: Vec<usize> = Vec::new();
    let mut vregs = ValueMap::new(num_values);
    let n = order.len();
    let mut bi: usize = 0;
    while bi < n
        invariant
            bi <= n,
            n == order@.len(),
            starts@.len() == bi,
            forall|i: int| 0 <= i < order@.len() ==> (#[trigger] order@[i]) < f.blocks@.len(),
            forall|i: int, j: int|
                0 <= i <= j < starts@.len() ==> (#[trigger] starts@[i]) <= (#[trigger] starts@[j]),
            forall|i: int| 0 <= i < starts@.len() ==> (#[trigger] starts@[i]) <= insts@.len(),
        decreases n - bi,
    {
        starts.push(insts.len());
        let blk = &f.blocks[order[bi]];
        let m = blk.insts.len();
        let mut ii: usize = 0;
        while ii < m
            invariant
                ii <= m,
                m == blk.insts@.len(),
                forall|i: int, j: int|
                    0 <= i <= j < starts@.len() ==> (#[trigger] starts@[i]) <= (
                    #[trigger] starts@[j]),
                forall|i: int| 0 <= i < starts@.len() ==> (#[trigger] starts@[i]) <= insts@.len(),
            decreases m - ii,
        {
            let mut chunk = match b.lower_inst(&blk.insts[ii], &mut vregs, ctrl) {
                Ok(c) => c,
                Err(e) => {
                    return Err(e);
                },
            };
            insts.append(&mut chunk);
            ii = ii + 1;
        }
        bi = bi + 1;
    }
    Ok(VCode { insts, block_order: order, block_starts: starts })
}

/// Compile one function: compute the block order from the dominance
/// information, lower it through the backend's table, check the stated proof
/// obligations when asked, build the allocator's options from the flags,
/// invoke the external allocator, re-validate its answer structurally, and
/// run the independent checker when asked. Each failure surfaces as its own
/// error category; none is swallowed, and an accepted compilation carries a
/// structurally valid allocation. There is no retry: an allocation failure
/// is fatal for this attempt.
pub fn compile<B: LowerBackend, A: RegAllocator>(
    f: &IrFunction,
    domtree: &DominatorTree,
    b: &B,
    env: &MachineEnv,
    flags: &Flags,
    num_values: usize,
    ctrl_plane: &mut ControlPlane,
    alloc: &mut A,
) -> (r: Result<(VCode, AllocationResult), CodegenError>)
    requires
        domtree.wf(f.blocks@.len() as int),
    ensures
        match r {
            Ok((vcode, res)) => {
                &&& vcode.wf()
                &&& vcode.block_order@ == spec_block_order(domtree.idom@)
                &&& spec_valid_allocation(&vcode, env, &res)
            },
            Err(e) => {
                &&& (e is Pcc ==> flags.enable_pcc)
                &&& (e is CheckerMismatch ==> flags.regalloc_checker)
            },
        },
{
    let order = block_lowering_order(f, domtree);
    let nblocks = domtree.idom.len();
    proof {
        assert(domtree.idom@.len() == nblocks <= usize::MAX);
        if domtree.idom@.len() > 0 {
            lemma_block_order_bounds(domtree.idom@, 0);
        }
    }
    let vcode = match lower(f, order, num_values, b, ctrl_plane) {
        Ok(v) => v,
        Err(e) => {
            return Err(match e {
                CodegenError::Pcc => CodegenError::Lowering,
                CodegenError::CheckerMismatch => CodegenError::Lowering,
                other => other,
            });
        },
    };
    if flags.enable_pcc {
        if !b.check_facts(f, &vcode) {
            return Err(CodegenError::Pcc);
        }
    }
    let opts = regalloc_options(flags);
    let res = match alloc.run(&vcode, env, &opts) {
        Ok(res) => res,
        Err(_) => {
            return Err(CodegenError::AllocationFailed);
        },
    };
    if !validate_allocation(&vcode, env, &res) {
        return Err(CodegenError::InvalidAllocation);
    }
    if flags.regalloc_checker {
        if !alloc.check(&vcode, env, &res) {
            return Err(CodegenError::CheckerMismatch);
        }
    }
    Ok((vcode, res))
}

} // verus!

verus! {

/// Allocation determinism, as far as this pipeline decides it: compiling the
/// same function twice with the same dominance information, control-plane
/// seed and flags hands the external allocator identical inputs — the block
/// order and the allocator options are functions of those inputs alone. The
/// solver stands outside this library and is treated as a pure function of
/// its inputs; under that reading the two runs yield an identical allocation
/// result.
pub proof fn lemma_allocator_inputs_deterministic(
    idom1: Seq<usize>,
    idom2: Seq<usize>,
    flags1: Flags,
    flags2: Flags,
)
    requires
        idom1 == idom2,
        flags1 == flags2,
    ensures
        spec_block_order(idom1) == spec_block_order(idom2),
        spec_regalloc_options(flags1) == spec_regalloc_options(flags2),
{
}

} // verus!
