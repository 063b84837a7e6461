use machinst::compile::{
    block_lowering_order, compile, validate_allocation, Alloc, AllocationResult, Algorithm,
    CodegenError, ControlPlane, DominatorTree, Flags, IrBlock, IrFunction, IrInst, LowerBackend,
    MachineEnv, RegAllocator, RegallocAlgorithm, RegallocOptions, VCode, VInst, ValueMap,
    regalloc_options,
};

fn inst(opcode: u32, args: Vec<u32>, results: Vec<u32>) -> IrInst {
    IrInst { opcode, args, results }
}

fn diamond() -> (IrFunction, DominatorTree) {
    // Entry 0 branching to 1 and 2, joining in 3: the join's immediate
    // dominator is the entry.
    let f = IrFunction {
        blocks: vec![
            IrBlock { insts: vec![inst(1, vec![], vec![0]), inst(2, vec![0], vec![1])] },
            IrBlock { insts: vec![inst(3, vec![0], vec![2])] },
            IrBlock { insts: vec![inst(4, vec![0], vec![3])] },
            IrBlock { insts: vec![inst(5, vec![1], vec![4])] },
        ],
    };
    let d = DominatorTree { idom: vec![0, 0, 0, 0] };
    (f, d)
}

struct CountingBackend {
    facts_ok: bool,
}

impl LowerBackend for CountingBackend {
    fn lower_inst(
        &self,
        inst: &IrInst,
        vregs: &mut ValueMap,
        _ctrl: &mut ControlPlane,
    ) -> Result<Vec<VInst>, CodegenError> {
        let mut uses = Vec::new();
        for a in inst.args.iter() {
            uses.push(vregs.vreg_for(*a as usize)?);
        }
        let mut defs = Vec::new();
        for r in inst.results.iter() {
            defs.push(vregs.vreg_for(*r as usize)?);
        }
        Ok(vec![VInst { opcode: inst.opcode, uses, defs }])
    }

    fn check_facts(&self, _f: &IrFunction, _vcode: &VCode) -> bool {
        self.facts_ok
    }
}

/// A solver that places every operand occurrence in the first preferred
/// register, failing when the environment offers none.
struct TrivialAllocator;

impl RegAllocator for TrivialAllocator {
    fn run(
        &mut self,
        vcode: &VCode,
        env: &MachineEnv,
        _opts: &RegallocOptions,
    ) -> Result<AllocationResult, CodegenError> {
        let mut total = 0;
        let mut distinct = std::collections::BTreeSet::new();
        for i in vcode.insts.iter() {
            total += i.uses.len() + i.defs.len();
            for u in i.uses.iter() {
                distinct.insert(*u);
            }
            for d in i.defs.iter() {
                distinct.insert(*d);
            }
        }
        // Over-constrained: more simultaneously live values than physical
        // registers, and no spill slots to fall back on.
        if distinct.len() > env.preferred_regs.len() + env.non_preferred_regs.len() {
            return Err(CodegenError::AllocationFailed);
        }
        let reg = *env.preferred_regs.first().ok_or(CodegenError::AllocationFailed)?;
        Ok(AllocationResult { allocs: vec![Alloc::Reg(reg); total], num_spillslots: 0 })
    }

    fn check(&mut self, _vcode: &VCode, _env: &MachineEnv, _res: &AllocationResult) -> bool {
        true
    }
}

/// A solver that always fails.
struct FailingAllocator;

impl RegAllocator for FailingAllocator {
    fn run(
        &mut self,
        _vcode: &VCode,
        _env: &MachineEnv,
        _opts: &RegallocOptions,
    ) -> Result<AllocationResult, CodegenError> {
        Err(CodegenError::AllocationFailed)
    }

    fn check(&mut self, _vcode: &VCode, _env: &MachineEnv, _res: &AllocationResult) -> bool {
        false
    }
}

/// A solver that returns garbage: too few placements.
struct BrokenAllocator;

impl RegAllocator for BrokenAllocator {
    fn run(
        &mut self,
        _vcode: &VCode,
        _env: &MachineEnv,
        _opts: &RegallocOptions,
    ) -> Result<AllocationResult, CodegenError> {
        Ok(AllocationResult { allocs: vec![], num_spillslots: 0 })
    }

    fn check(&mut self, _vcode: &VCode, _env: &MachineEnv, _res: &AllocationResult) -> bool {
        true
    }
}

fn env() -> MachineEnv {
    MachineEnv {
        preferred_regs: vec![0, 1, 2, 3],
        non_preferred_regs: vec![4, 5],
        reserved_regs: vec![6],
    }
}

fn flags() -> Flags {
    Flags {
        enable_pcc: false,
        regalloc_checker: false,
        regalloc_verbose_logs: false,
        regalloc_algorithm: RegallocAlgorithm::Backtracking,
        validate_ssa: false,
    }
}

#[test]
fn block_order_honors_dominance() {
    let (f, d) = diamond();
    let order = block_lowering_order(&f, &d);
    assert_eq!(order, vec![0, 1, 2, 3]);
    // A chain within the tree: children follow their dominator.
    let f2 = IrFunction {
        blocks: vec![
            IrBlock { insts: vec![] },
            IrBlock { insts: vec![] },
            IrBlock { insts: vec![] },
            IrBlock { insts: vec![] },
        ],
    };
    let d2 = DominatorTree { idom: vec![0, 0, 1, 0] };
    let order2 = block_lowering_order(&f2, &d2);
    assert_eq!(order2, vec![0, 1, 2, 3]);
    for (pos, b) in order2.iter().enumerate() {
        if *b != 0 {
            let dom = d2.idom[*b];
            let dom_pos = order2.iter().position(|x| *x == dom).unwrap();
            assert!(dom_pos < pos);
        }
    }
}

#[test]
fn compile_is_deterministic_for_one_seed() {
    // Compiling the same function twice with the same control-plane seed
    // and the same allocator options yields identical allocation results.
    let (f, d) = diamond();
    let backend = CountingBackend { facts_ok: true };
    let mut outputs = Vec::new();
    for _ in 0..2 {
        let mut ctrl = ControlPlane::new(42);
        let mut alloc = TrivialAllocator;
        let (vcode, res) =
            compile(&f, &d, &backend, &env(), &flags(), 8, &mut ctrl, &mut alloc).unwrap();
        outputs.push((vcode.block_order.clone(), res.allocs.clone(), res.num_spillslots));
    }
    assert_eq!(outputs[0], outputs[1]);
}

#[test]
fn control_plane_replays_per_seed() {
    let mut a = ControlPlane::new(7);
    let mut b = ControlPlane::new(7);
    let xs: Vec<u64> = (0..8).map(|_| a.next_u64()).collect();
    let ys: Vec<u64> = (0..8).map(|_| b.next_u64()).collect();
    assert_eq!(xs, ys);
    let mut c = ControlPlane::new(8);
    let zs: Vec<u64> = (0..8).map(|_| c.next_u64()).collect();
    assert_ne!(xs, zs);
}

#[test]
fn allocation_failure_is_an_error_not_a_panic() {
    let (f, d) = diamond();
    let backend = CountingBackend { facts_ok: true };
    let mut ctrl = ControlPlane::new(0);
    let mut alloc = FailingAllocator;
    let r = compile(&f, &d, &backend, &env(), &flags(), 8, &mut ctrl, &mut alloc);
    assert_eq!(r.err(), Some(CodegenError::AllocationFailed));
}

#[test]
fn over_constrained_graph_fails_allocation() {
    // One instruction defining more distinct values than the environment
    // has registers, with no spill slots: the solver reports failure and
    // the pipeline surfaces it as an error.
    let f = IrFunction {
        blocks: vec![IrBlock {
            insts: vec![inst(1, vec![], (0..7).collect())],
        }],
    };
    let d = DominatorTree { idom: vec![0] };
    let backend = CountingBackend { facts_ok: true };
    let mut ctrl = ControlPlane::new(0);
    let mut alloc = TrivialAllocator;
    let r = compile(&f, &d, &backend, &env(), &flags(), 8, &mut ctrl, &mut alloc);
    assert_eq!(r.err(), Some(CodegenError::AllocationFailed));
}

#[test]
fn facts_failure_is_its_own_category() {
    let (f, d) = diamond();
    let backend = CountingBackend { facts_ok: false };
    let mut ctrl = ControlPlane::new(0);
    let mut alloc = TrivialAllocator;
    let mut fl = flags();
    fl.enable_pcc = true;
    let r = compile(&f, &d, &backend, &env(), &fl, 8, &mut ctrl, &mut alloc);
    assert_eq!(r.err(), Some(CodegenError::Pcc));
    // With the check disabled the same inputs compile.
    let mut ctrl = ControlPlane::new(0);
    let r = compile(&f, &d, &backend, &env(), &flags(), 8, &mut ctrl, &mut alloc);
    assert!(r.is_ok());
}

#[test]
fn invalid_allocation_never_accepted() {
    let (f, d) = diamond();
    let backend = CountingBackend { facts_ok: true };
    let mut ctrl = ControlPlane::new(0);
    let mut alloc = BrokenAllocator;
    let r = compile(&f, &d, &backend, &env(), &flags(), 8, &mut ctrl, &mut alloc);
    assert_eq!(r.err(), Some(CodegenError::InvalidAllocation));
}

#[test]
fn checker_mismatch_is_fatal() {
    struct CheckFails;
    impl RegAllocator for CheckFails {
        fn run(
            &mut self,
            vcode: &VCode,
            env: &MachineEnv,
            opts: &RegallocOptions,
        ) -> Result<AllocationResult, CodegenError> {
            TrivialAllocator.run(vcode, env, opts)
        }
        fn check(&mut self, _v: &VCode, _e: &MachineEnv, _r: &AllocationResult) -> bool {
            false
        }
    }
    let (f, d) = diamond();
    let backend = CountingBackend { facts_ok: true };
    let mut fl = flags();
    fl.regalloc_checker = true;
    let mut ctrl = ControlPlane::new(0);
    let mut alloc = CheckFails;
    let r = compile(&f, &d, &backend, &env(), &fl, 8, &mut ctrl, &mut alloc);
    assert_eq!(r.err(), Some(CodegenError::CheckerMismatch));
}

#[test]
fn options_follow_flags() {
    let mut fl = flags();
    fl.regalloc_verbose_logs = true;
    fl.validate_ssa = true;
    let o = regalloc_options(&fl);
    assert!(o.verbose_log);
    assert!(o.validate_ssa);
    assert_eq!(o.algorithm, Algorithm::Ion);
}

#[test]
fn validation_checks_registers_and_slots() {
    let vcode = VCode {
        insts: vec![VInst { opcode: 1, uses: vec![0], defs: vec![1] }],
        block_order: vec![0],
        block_starts: vec![0],
    };
    let e = env();
    let good = AllocationResult { allocs: vec![Alloc::Reg(0), Alloc::Reg(4)], num_spillslots: 0 };
    assert!(validate_allocation(&vcode, &e, &good));
    let bad_reg = AllocationResult { allocs: vec![Alloc::Reg(9), Alloc::Reg(0)], num_spillslots: 0 };
    assert!(!validate_allocation(&vcode, &e, &bad_reg));
    let bad_slot =
        AllocationResult { allocs: vec![Alloc::Stack(0), Alloc::Reg(0)], num_spillslots: 0 };
    assert!(!validate_allocation(&vcode, &e, &bad_slot));
    let ok_slot =
        AllocationResult { allocs: vec![Alloc::Stack(0), Alloc::Reg(0)], num_spillslots: 1 };
    assert!(validate_allocation(&vcode, &e, &ok_slot));
    let short = AllocationResult { allocs: vec![Alloc::Reg(0)], num_spillslots: 0 };
    assert!(!validate_allocation(&vcode, &e, &short));
}

#[test]
fn lowering_keeps_block_boundaries() {
    let (f, d) = diamond();
    let backend = CountingBackend { facts_ok: true };
    let mut ctrl = ControlPlane::new(1);
    let mut alloc = TrivialAllocator;
    let (vcode, _res) =
        compile(&f, &d, &backend, &env(), &flags(), 8, &mut ctrl, &mut alloc).unwrap();
    assert_eq!(vcode.block_order, vec![0, 1, 2, 3]);
    assert_eq!(vcode.block_starts, vec![0, 2, 3, 4]);
    assert_eq!(vcode.insts.len(), 5);
    // Instruction order within blocks survives lowering.
    let opcodes: Vec<u32> = vcode.insts.iter().map(|i| i.opcode).collect();
    assert_eq!(opcodes, vec![1, 2, 3, 4, 5]);
}
