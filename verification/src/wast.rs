//! Test-suite description logic: test paths as component lists, per-test
//! configuration, the compilers under test, and the rules deciding which
//! tests a given compiler and host are expected to fail.

use vstd::prelude::*;
use crate::strutil::{spec_split, split_str, str_eq};

verus! {

/// A test's location, as the names of its path components.
#[derive(Debug, Clone)]
pub struct TestPath {
    pub components: Vec<String>,
}

impl View for TestPath {
    type V = Seq<Seq<char>>;

    open spec fn view(&self) -> Seq<Seq<char>> {
        self.components.deep_view()
    }
}

/// Whether `suffix` is a trailing run of `path`'s components.
pub open spec fn spec_is_suffix(path: Seq<Seq<char>>, suffix: Seq<Seq<char>>) -> bool {
    suffix.len() <= path.len() && path.subrange(
        path.len() - suffix.len(),
        path.len() as int,
    ) == suffix
}

/// Whether the path ends with the given slash-separated components.
pub open spec fn spec_path_ends_with(path: Seq<Seq<char>>, suffix: Seq<char>) -> bool {
    spec_is_suffix(path, spec_split(suffix, '/'))
}

fn is_component_suffix(path: &Vec<String>, suffix: &Vec<String>) -> (r: bool)
    ensures
        r == spec_is_suffix(path.deep_view(), suffix.deep_view()),
{
    let pl = path.len();
    let sl = suffix.len();
    if sl > pl {
        return false;
    }
    let mut i: usize = 0;
    while i < sl
        invariant
            i <= sl <= pl,
            pl == path.deep_view().len(),
            sl == suffix.deep_view().len(),
            forall|j: int| 0 <= j < i ==> path.deep_view()[pl - sl + j] == suffix.deep_view()[j],
        decreases sl - i,
    {
        if !str_eq(path[pl - sl + i].as_str(), suffix[i].as_str()) {
            proof {
                assert(path.deep_view().subrange(pl - sl, pl as int)[i as int]
                    != suffix.deep_view()[i as int]);
            }
            return false;
        }
        i = i + 1;
    }
    proof {
        assert(path.deep_view().subrange(pl - sl, pl as int) =~~= suffix.deep_view());
    }
    true
}

impl TestPath {
    /// A path from its slash-separated rendering.
    pub fn from_path_str(s: &str) -> (r: TestPath)
        ensures
            r@ == spec_split(s@, '/'),
    {
        TestPath { components: split_str(s, '/') }
    }

    /// Whether the path ends with the given slash-separated components, the
    /// comparison being component-wise.
    pub fn ends_with(&self, suffix: &str) -> (r: bool)
        ensures
            r == spec_path_ends_with(self@, suffix@),
    {
        let parts = split_str(suffix, '/');
        is_component_suffix(&self.components, &parts)
    }
}

/// Whether an optional flag is set and true.
pub open spec fn spec_on(o: Option<bool>) -> bool {
    match o {
        Some(b) => b,
        None => false,
    }
}

/// Per-test configuration, written down in the test file itself or derived
/// from the test's location for specification tests. An unset option reads
/// as false.
#[derive(Debug, PartialEq, Clone)]
pub struct TestConfig {
    pub memory64: Option<bool>,
    pub custom_page_sizes: Option<bool>,
    pub multi_memory: Option<bool>,
    pub threads: Option<bool>,
    pub shared_everything_threads: Option<bool>,
    pub gc: Option<bool>,
    pub function_references: Option<bool>,
    pub relaxed_simd: Option<bool>,
    pub reference_types: Option<bool>,
    pub tail_call: Option<bool>,
    pub extended_const: Option<bool>,
    pub wide_arithmetic: Option<bool>,
    pub hogs_memory: Option<bool>,
    pub nan_canonicalization: Option<bool>,
    pub component_model_async: Option<bool>,
    pub component_model_async_builtins: Option<bool>,
    pub component_model_async_stackful: Option<bool>,
    pub component_model_error_context: Option<bool>,
    pub component_model_gc: Option<bool>,
    pub simd: Option<bool>,
    pub gc_types: Option<bool>,
    pub exceptions: Option<bool>,
    pub legacy_exceptions: Option<bool>,
    pub stack_switching: Option<bool>,
    pub spec_test: Option<bool>,
}

/// The configuration with every option unset.
pub open spec fn spec_default_config() -> TestConfig {
    TestConfig {
        memory64: None,
        custom_page_sizes: None,
        multi_memory: None,
        threads: None,
        shared_everything_threads: None,
        gc: None,
        function_references: None,
        relaxed_simd: None,
        reference_types: None,
        tail_call: None,
        extended_const: None,
        wide_arithmetic: None,
        hogs_memory: None,
        nan_canonicalization: None,
        component_model_async: None,
        component_model_async_builtins: None,
        component_model_async_stackful: None,
        component_model_error_context: None,
        component_model_gc: None,
        simd: None,
        gc_types: None,
        exceptions: None,
        legacy_exceptions: None,
        stack_switching: None,
        spec_test: None,
    }
}

impl Default for TestConfig {
    fn default() -> (r: TestConfig)
        ensures
            r == spec_default_config(),
    {
        TestConfig {
        memory64: None,
        custom_page_sizes: None,
        multi_memory: None,
        threads: None,
        shared_everything_threads: None,
        gc: None,
        function_references: None,
        relaxed_simd: None,
        reference_types: None,
        tail_call: None,
        extended_const: None,
        wide_arithmetic: None,
        hogs_memory: None,
        nan_canonicalization: None,
        component_model_async: None,
        component_model_async_builtins: None,
        component_model_async_stackful: None,
        component_model_error_context: None,
        component_model_gc: None,
        simd: None,
        gc_types: None,
        exceptions: None,
        legacy_exceptions: None,
        stack_switching: None,
        spec_test: None,
        }
    }
}

/// The configuration with the named option replaced, when the name is one of
/// the options.
pub open spec fn spec_set_option(c: TestConfig, name: Seq<char>, v: Option<bool>) -> Option<
    TestConfig,
> {
    if false {
        None
    } else if name == "memory64"@ {
        Some(TestConfig { memory64: v, ..c })    } else if name == "custom_page_sizes"@ {
        Some(TestConfig { custom_page_sizes: v, ..c })    } else if name == "multi_memory"@ {
        Some(TestConfig { multi_memory: v, ..c })    } else if name == "threads"@ {
        Some(TestConfig { threads: v, ..c })    } else if name == "shared_everything_threads"@ {
        Some(TestConfig { shared_everything_threads: v, ..c })    } else if name == "gc"@ {
        Some(TestConfig { gc: v, ..c })    } else if name == "function_references"@ {
        Some(TestConfig { function_references: v, ..c })    } else if name == "relaxed_simd"@ {
        Some(TestConfig { relaxed_simd: v, ..c })    } else if name == "reference_types"@ {
        Some(TestConfig { reference_types: v, ..c })    } else if name == "tail_call"@ {
        Some(TestConfig { tail_call: v, ..c })    } else if name == "extended_const"@ {
        Some(TestConfig { extended_const: v, ..c })    } else if name == "wide_arithmetic"@ {
        Some(TestConfig { wide_arithmetic: v, ..c })    } else if name == "hogs_memory"@ {
        Some(TestConfig { hogs_memory: v, ..c })    } else if name == "nan_canonicalization"@ {
        Some(TestConfig { nan_canonicalization: v, ..c })    } else if name == "component_model_async"@ {
        Some(TestConfig { component_model_async: v, ..c })    } else if name == "component_model_async_builtins"@ {
        Some(TestConfig { component_model_async_builtins: v, ..c })    } else if name == "component_model_async_stackful"@ {
        Some(TestConfig { component_model_async_stackful: v, ..c })    } else if name == "component_model_error_context"@ {
        Some(TestConfig { component_model_error_context: v, ..c })    } else if name == "component_model_gc"@ {
        Some(TestConfig { component_model_gc: v, ..c })    } else if name == "simd"@ {
        Some(TestConfig { simd: v, ..c })    } else if name == "gc_types"@ {
        Some(TestConfig { gc_types: v, ..c })    } else if name == "exceptions"@ {
        Some(TestConfig { exceptions: v, ..c })    } else if name == "legacy_exceptions"@ {
        Some(TestConfig { legacy_exceptions: v, ..c })    } else if name == "stack_switching"@ {
        Some(TestConfig { stack_switching: v, ..c })    } else if name == "spec_test"@ {
        Some(TestConfig { spec_test: v, ..c })
    } else {
        None
    }
}

impl TestConfig {
    pub fn memory64(&self) -> (r: bool)
        ensures
            r == spec_on(self.memory64),
    {
        match self.memory64 {
            Some(b) => b,
            None => false,
        }
    }

    pub fn custom_page_sizes(&self) -> (r: bool)
        ensures
            r == spec_on(self.custom_page_sizes),
    {
        match self.custom_page_sizes {
            Some(b) => b,
            None => false,
        }
    }

    pub fn multi_memory(&self) -> (r: bool)
        ensures
            r == spec_on(self.multi_memory),
    {
        match self.multi_memory {
            Some(b) => b,
            None => false,
        }
    }

    pub fn threads(&self) -> (r: bool)
        ensures
            r == spec_on(self.threads),
    {
        match self.threads {
            Some(b) => b,
            None => false,
        }
    }

    pub fn shared_everything_threads(&self) -> (r: bool)
        ensures
            r == spec_on(self.shared_everything_threads),
    {
        match self.shared_everything_threads {
            Some(b) => b,
            None => false,
        }
    }

    pub fn gc(&self) -> (r: bool)
        ensures
            r == spec_on(self.gc),
    {
        match self.gc {
            Some(b) => b,
            None => false,
        }
    }

    pub fn function_references(&self) -> (r: bool)
        ensures
            r == spec_on(self.function_references),
    {
        match self.function_references {
            Some(b) => b,
            None => false,
        }
    }

    pub fn relaxed_simd(&self) -> (r: bool)
        ensures
            r == spec_on(self.relaxed_simd),
    {
        match self.relaxed_simd {
            Some(b) => b,
            None => false,
        }
    }

    pub fn reference_types(&self) -> (r: bool)
        ensures
            r == spec_on(self.reference_types),
    {
        match self.reference_types {
            Some(b) => b,
            None => false,
        }
    }

    pub fn tail_call(&self) -> (r: bool)
        ensures
            r == spec_on(self.tail_call),
    {
        match self.tail_call {
            Some(b) => b,
            None => false,
        }
    }

    pub fn extended_const(&self) -> (r: bool)
        ensures
            r == spec_on(self.extended_const),
    {
        match self.extended_const {
            Some(b) => b,
            None => false,
        }
    }

    pub fn wide_arithmetic(&self) -> (r: bool)
        ensures
            r == spec_on(self.wide_arithmetic),
    {
        match self.wide_arithmetic {
            Some(b) => b,
            None => false,
        }
    }

    pub fn hogs_memory(&self) -> (r: bool)
        ensures
            r == spec_on(self.hogs_memory),
    {
        match self.hogs_memory {
            Some(b) => b,
            None => false,
        }
    }

    pub fn nan_canonicalization(&self) -> (r: bool)
        ensures
            r == spec_on(self.nan_canonicalization),
    {
        match self.nan_canonicalization {
            Some(b) => b,
            None => false,
        }
    }

    pub fn component_model_async(&self) -> (r: bool)
        ensures
            r == spec_on(self.component_model_async),
    {
        match self.component_model_async {
            Some(b) => b,
            None => false,
        }
    }

    pub fn component_model_async_builtins(&self) -> (r: bool)
        ensures
            r == spec_on(self.component_model_async_builtins),
    {
        match self.component_model_async_builtins {
            Some(b) => b,
            None => false,
        }
    }

    pub fn component_model_async_stackful(&self) -> (r: bool)
        ensures
            r == spec_on(self.component_model_async_stackful),
    {
        match self.component_model_async_stackful {
            Some(b) => b,
            None => false,
        }
    }

    pub fn component_model_error_context(&self) -> (r: bool)
        ensures
            r == spec_on(self.component_model_error_context),
    {
        match self.component_model_error_context {
            Some(b) => b,
            None => false,
        }
    }

    pub fn component_model_gc(&self) -> (r: bool)
        ensures
            r == spec_on(self.component_model_gc),
    {
        match self.component_model_gc {
            Some(b) => b,
            None => false,
        }
    }

    pub fn simd(&self) -> (r: bool)
        ensures
            r == spec_on(self.simd),
    {
        match self.simd {
            Some(b) => b,
            None => false,
        }
    }

    pub fn gc_types(&self) -> (r: bool)
        ensures
            r == spec_on(self.gc_types),
    {
        match self.gc_types {
            Some(b) => b,
            None => false,
        }
    }

    pub fn exceptions(&self) -> (r: bool)
        ensures
            r == spec_on(self.exceptions),
    {
        match self.exceptions {
            Some(b) => b,
            None => false,
        }
    }

    pub fn legacy_exceptions(&self) -> (r: bool)
        ensures
            r == spec_on(self.legacy_exceptions),
    {
        match self.legacy_exceptions {
            Some(b) => b,
            None => false,
        }
    }

    pub fn stack_switching(&self) -> (r: bool)
        ensures
            r == spec_on(self.stack_switching),
    {
        match self.stack_switching {
            Some(b) => b,
            None => false,
        }
    }

    pub fn spec_test(&self) -> (r: bool)
        ensures
            r == spec_on(self.spec_test),
    {
        match self.spec_test {
            Some(b) => b,
            None => false,
        }
    }

    /// Each option's name and current value, in declaration order.
    pub fn options(&self) -> (r: Vec<(&'static str, Option<bool>)>)
        ensures
            r@.len() == 25,
            r@[0].0@ == "memory64"@ && r@[0].1 == self.memory64,
            r@[1].0@ == "custom_page_sizes"@ && r@[1].1 == self.custom_page_sizes,
            r@[2].0@ == "multi_memory"@ && r@[2].1 == self.multi_memory,
            r@[3].0@ == "threads"@ && r@[3].1 == self.threads,
            r@[4].0@ == "shared_everything_threads"@ && r@[4].1 == self.shared_everything_threads,
            r@[5].0@ == "gc"@ && r@[5].1 == self.gc,
            r@[6].0@ == "function_references"@ && r@[6].1 == self.function_references,
            r@[7].0@ == "relaxed_simd"@ && r@[7].1 == self.relaxed_simd,
            r@[8].0@ == "reference_types"@ && r@[8].1 == self.reference_types,
            r@[9].0@ == "tail_call"@ && r@[9].1 == self.tail_call,
            r@[10].0@ == "extended_const"@ && r@[10].1 == self.extended_const,
            r@[11].0@ == "wide_arithmetic"@ && r@[11].1 == self.wide_arithmetic,
            r@[12].0@ == "hogs_memory"@ && r@[12].1 == self.hogs_memory,
            r@[13].0@ == "nan_canonicalization"@ && r@[13].1 == self.nan_canonicalization,
            r@[14].0@ == "component_model_async"@ && r@[14].1 == self.component_model_async,
            r@[15].0@ == "component_model_async_builtins"@ && r@[15].1 == self.component_model_async_builtins,
            r@[16].0@ == "component_model_async_stackful"@ && r@[16].1 == self.component_model_async_stackful,
            r@[17].0@ == "component_model_error_context"@ && r@[17].1 == self.component_model_error_context,
            r@[18].0@ == "component_model_gc"@ && r@[18].1 == self.component_model_gc,
            r@[19].0@ == "simd"@ && r@[19].1 == self.simd,
            r@[20].0@ == "gc_types"@ && r@[20].1 == self.gc_types,
            r@[21].0@ == "exceptions"@ && r@[21].1 == self.exceptions,
            r@[22].0@ == "legacy_exceptions"@ && r@[22].1 == self.legacy_exceptions,
            r@[23].0@ == "stack_switching"@ && r@[23].1 == self.stack_switching,
            r@[24].0@ == "spec_test"@ && r@[24].1 == self.spec_test,
    {
        let mut out: Vec<(&'static str, Option<bool>)> = Vec::new();
        out.push(("memory64", self.memory64));
        out.push(("custom_page_sizes", self.custom_page_sizes));
        out.push(("multi_memory", self.multi_memory));
        out.push(("threads", self.threads));
        out.push(("shared_everything_threads", self.shared_everything_threads));
        out.push(("gc", self.gc));
        out.push(("function_references", self.function_references));
        out.push(("relaxed_simd", self.relaxed_simd));
        out.push(("reference_types", self.reference_types));
        out.push(("tail_call", self.tail_call));
        out.push(("extended_const", self.extended_const));
        out.push(("wide_arithmetic", self.wide_arithmetic));
        out.push(("hogs_memory", self.hogs_memory));
        out.push(("nan_canonicalization", self.nan_canonicalization));
        out.push(("component_model_async", self.component_model_async));
        out.push(("component_model_async_builtins", self.component_model_async_builtins));
        out.push(("component_model_async_stackful", self.component_model_async_stackful));
        out.push(("component_model_error_context", self.component_model_error_context));
        out.push(("component_model_gc", self.component_model_gc));
        out.push(("simd", self.simd));
        out.push(("gc_types", self.gc_types));
        out.push(("exceptions", self.exceptions));
        out.push(("legacy_exceptions", self.legacy_exceptions));
        out.push(("stack_switching", self.stack_switching));
        out.push(("spec_test", self.spec_test));
        out
    }

    /// Replace the named option; reports whether the name is known. Unknown
    /// names change nothing.
    pub fn options_mut(&mut self, name: &str, value: Option<bool>) -> (r: bool)
        ensures
            match spec_set_option(*old(self), name@, value) {
                Some(c) => r == true && *final(self) == c,
                None => r == false && *final(self) == *old(self),
            },
    {
        if str_eq(name, "memory64") {
            self.memory64 = value;
            return true;
        }
        if str_eq(name, "custom_page_sizes") {
            self.custom_page_sizes = value;
            return true;
        }
        if str_eq(name, "multi_memory") {
            self.multi_memory = value;
            return true;
        }
        if str_eq(name, "threads") {
            self.threads = value;
            return true;
        }
        if str_eq(name, "shared_everything_threads") {
            self.shared_everything_threads = value;
            return true;
        }
        if str_eq(name, "gc") {
            self.gc = value;
            return true;
        }
        if str_eq(name, "function_references") {
            self.function_references = value;
            return true;
        }
        if str_eq(name, "relaxed_simd") {
            self.relaxed_simd = value;
            return true;
        }
        if str_eq(name, "reference_types") {
            self.reference_types = value;
            return true;
        }
        if str_eq(name, "tail_call") {
            self.tail_call = value;
            return true;
        }
        if str_eq(name, "extended_const") {
            self.extended_const = value;
            return true;
        }
        if str_eq(name, "wide_arithmetic") {
            self.wide_arithmetic = value;
            return true;
        }
        if str_eq(name, "hogs_memory") {
            self.hogs_memory = value;
            return true;
        }
        if str_eq(name, "nan_canonicalization") {
            self.nan_canonicalization = value;
            return true;
        }
        if str_eq(name, "component_model_async") {
            self.component_model_async = value;
            return true;
        }
        if str_eq(name, "component_model_async_builtins") {
            self.component_model_async_builtins = value;
            return true;
        }
        if str_eq(name, "component_model_async_stackful") {
            self.component_model_async_stackful = value;
            return true;
        }
        if str_eq(name, "component_model_error_context") {
            self.component_model_error_context = value;
            return true;
        }
        if str_eq(name, "component_model_gc") {
            self.component_model_gc = value;
            return true;
        }
        if str_eq(name, "simd") {
            self.simd = value;
            return true;
        }
        if str_eq(name, "gc_types") {
            self.gc_types = value;
            return true;
        }
        if str_eq(name, "exceptions") {
            self.exceptions = value;
            return true;
        }
        if str_eq(name, "legacy_exceptions") {
            self.legacy_exceptions = value;
            return true;
        }
        if str_eq(name, "stack_switching") {
            self.stack_switching = value;
            return true;
        }
        if str_eq(name, "spec_test") {
            self.spec_test = value;
            return true;
        }
        false
    }
}

} // verus!

verus! {

/// Host properties the expectations depend on: the processor architecture
/// and, on the 64-bit x86 family, whether the two vector-extension feature
/// levels are available.
#[derive(Copy, Clone, PartialEq, Eq, Structural, Debug)]
pub enum HostArch {
    X86_64,
    Aarch64,
    Riscv64,
    S390x,
    Other,
}

#[derive(Copy, Clone, PartialEq, Eq, Structural, Debug)]
pub struct Host {
    pub arch: HostArch,
    pub has_avx: bool,
    pub has_avx2: bool,
}

/// Different compilers that can be under test.
#[derive(PartialEq, Eq, Structural, Debug, Copy, Clone)]
pub enum Compiler {
    /// The native code generator for the host architecture.
    CraneliftNative,
    /// The baseline native compiler.
    Winch,
    /// The native code generator targeting the portable bytecode
    /// interpreter.
    CraneliftPulley,
}

/// Configuration a test runs under.
#[derive(Debug, Copy, Clone)]
pub struct WastConfig {
    /// Compiler chosen to run this test.
    pub compiler: Compiler,
    /// Whether the pooling allocator is enabled.
    pub pooling: bool,
    /// What garbage collector is being used.
    pub collector: Collector,
}

#[derive(PartialEq, Eq, Structural, Debug, Copy, Clone)]
pub enum Collector {
    Auto,
    Null,
    DeferredReferenceCounting,
}

/// Whether the compiler is known to fail for the configuration: it tracks
/// the proposals each compiler supports on each architecture.
pub open spec fn spec_compiler_should_fail(c: Compiler, t: TestConfig, host: Host) -> bool {
    match c {
        Compiler::CraneliftNative => spec_on(t.legacy_exceptions),
        Compiler::Winch => {
            let unsupported_base = spec_on(t.gc) || spec_on(t.tail_call) || spec_on(
                t.function_references,
            ) || spec_on(t.relaxed_simd) || spec_on(t.gc_types) || spec_on(t.exceptions)
                || spec_on(t.legacy_exceptions) || spec_on(t.stack_switching);
            match host.arch {
                HostArch::X86_64 => unsupported_base,
                HostArch::Aarch64 => unsupported_base || spec_on(t.wide_arithmetic) || (spec_on(
                    t.simd,
                ) && !spec_on(t.spec_test)) || spec_on(t.threads),
                _ => true,
            }
        },
        Compiler::CraneliftPulley => spec_on(t.threads) || spec_on(t.legacy_exceptions)
            || spec_on(t.stack_switching),
    }
}

/// Whether the compiler supports the host architecture.
pub open spec fn spec_compiler_supports_host(c: Compiler, host: Host) -> bool {
    match c {
        Compiler::CraneliftNative => host.arch == HostArch::X86_64 || host.arch
            == HostArch::Aarch64 || host.arch == HostArch::Riscv64 || host.arch == HostArch::S390x,
        Compiler::Winch => host.arch == HostArch::X86_64 || host.arch == HostArch::Aarch64,
        Compiler::CraneliftPulley => true,
    }
}

impl Compiler {
    /// Returns whether this compiler is known to fail for the provided
    /// configuration on the given host.
    pub fn should_fail(&self, config: &TestConfig, host: &Host) -> (r: bool)
        ensures
            r == spec_compiler_should_fail(*self, *config, *host),
    {
        match self {
            Compiler::CraneliftNative => config.legacy_exceptions(),
            Compiler::Winch => {
                let unsupported_base = config.gc() || config.tail_call()
                    || config.function_references() || config.relaxed_simd() || config.gc_types()
                    || config.exceptions() || config.legacy_exceptions()
                    || config.stack_switching();
                match host.arch {
                    HostArch::X86_64 => unsupported_base,
                    HostArch::Aarch64 => unsupported_base || config.wide_arithmetic() || (
                    config.simd() && !config.spec_test()) || config.threads(),
                    _ => true,
                }
            },
            Compiler::CraneliftPulley => config.threads() || config.legacy_exceptions()
                || config.stack_switching(),
        }
    }

    /// Returns whether this compiler supports the given host architecture.
    pub fn supports_host(&self, host: &Host) -> (r: bool)
        ensures
            r == spec_compiler_supports_host(*self, *host),
    {
        match self {
            Compiler::CraneliftNative => host.arch == HostArch::X86_64 || host.arch
                == HostArch::Aarch64 || host.arch == HostArch::Riscv64 || host.arch
                == HostArch::S390x,
            Compiler::Winch => host.arch == HostArch::X86_64 || host.arch == HostArch::Aarch64,
            Compiler::CraneliftPulley => true,
        }
    }
}

/// The specification proposal a path belongs to: the component after the
/// first component named `proposals`, when both exist.
pub open spec fn spec_proposal_of(comps: Seq<Seq<char>>) -> Option<Seq<char>>
    decreases comps.len(),
{
    if comps.len() == 0 {
        None
    } else if comps[0] == "proposals"@ {
        if comps.len() >= 2 {
            Some(comps[1])
        } else {
            None
        }
    } else {
        spec_proposal_of(comps.subrange(1, comps.len() as int))
    }
}

/// The optional specification proposal the path belongs to.
pub fn spec_proposal_from_path(path: &TestPath) -> (r: Option<String>)
    ensures
        match r {
            Some(s) => spec_proposal_of(path@) == Some(s@),
            None => spec_proposal_of(path@) is None,
        },
{
    let n = path.components.len();
    let mut i: usize = 0;
    proof {
        assert(path@.subrange(0, n as int) =~~= path@);
    }
    while i < n
        invariant
            i <= n,
            n == path@.len(),
            spec_proposal_of(path@) == spec_proposal_of(path@.subrange(i as int, n as int)),
        decreases n - i,
    {
        proof {
            assert(path@.subrange(i as int, n as int).subrange(
                1,
                (n - i) as int,
            ) =~~= path@.subrange(i + 1, n as int));
        }
        if str_eq(path.components[i].as_str(), "proposals") {
            if i + 1 < n {
                return Some(path.components[i + 1].clone());
            } else {
                return None;
            }
        }
        i = i + 1;
    }
    None
}

/// The proposals that spec-test configuration understands.
pub open spec fn spec_supported_proposal(p: Option<Seq<char>>) -> bool {
    match p {
        None => true,
        Some(s) => s == "wide-arithmetic"@ || s == "threads"@ || s == "relaxed-simd"@ || s
            == "custom-page-sizes"@ || s == "annotations"@ || s == "wasm-3.0"@,
    }
}

/// Whether the path's proposal, if any, is one the spec-test configuration
/// understands.
pub fn has_supported_proposal(path: &TestPath) -> (r: bool)
    ensures
        r == spec_supported_proposal(spec_proposal_of(path@)),
{
    match spec_proposal_from_path(path) {
        None => true,
        Some(s) => str_eq(s.as_str(), "wide-arithmetic") || str_eq(s.as_str(), "threads")
            || str_eq(s.as_str(), "relaxed-simd") || str_eq(s.as_str(), "custom-page-sizes")
            || str_eq(s.as_str(), "annotations") || str_eq(s.as_str(), "wasm-3.0"),
    }
}

/// The configuration of a specification test, derived from its location.
pub open spec fn spec_spec_test_config(comps: Seq<Seq<char>>) -> TestConfig {
    let base = TestConfig { spec_test: Some(true), ..spec_default_config() };
    match spec_proposal_of(comps) {
        Option::None => TestConfig { reference_types: Some(true), simd: Some(true), ..base },
        Option::Some(p) => if p == "wide-arithmetic"@ {
            TestConfig { wide_arithmetic: Some(true), ..base }
        } else if p == "threads"@ {
            TestConfig { threads: Some(true), reference_types: Some(false), ..base }
        } else if p == "relaxed-simd"@ {
            TestConfig { relaxed_simd: Some(true), ..base }
        } else if p == "custom-page-sizes"@ {
            TestConfig {
                custom_page_sizes: Some(true),
                multi_memory: Some(true),
                memory64: Some(true),
                hogs_memory: if spec_path_ends_with(comps, "memory_max.wast"@)
                    || spec_path_ends_with(comps, "memory_max_i64.wast"@) {
                    Some(true)
                } else {
                    None
                },
                ..base
            }
        } else if p == "annotations"@ {
            TestConfig { simd: Some(true), ..base }
        } else if p == "wasm-3.0"@ {
            TestConfig {
                simd: Some(true),
                relaxed_simd: Some(true),
                multi_memory: Some(true),
                gc: Some(true),
                reference_types: Some(true),
                memory64: Some(true),
                tail_call: Some(true),
                extended_const: Some(true),
                exceptions: if spec_path_ends_with(comps, "tag.wast"@) || spec_path_ends_with(
                    comps,
                    "instance.wast"@,
                ) || spec_path_ends_with(comps, "throw.wast"@) || spec_path_ends_with(
                    comps,
                    "throw_ref.wast"@,
                ) || spec_path_ends_with(comps, "try_table.wast"@) || spec_path_ends_with(
                    comps,
                    "ref_null.wast"@,
                ) || spec_path_ends_with(comps, "imports.wast"@) {
                    Some(true)
                } else {
                    None
                },
                legacy_exceptions: if comps.len() >= 2 && comps[comps.len() - 2] == "legacy"@ {
                    Some(true)
                } else {
                    None
                },
                hogs_memory: if spec_path_ends_with(comps, "memory.wast"@) || spec_path_ends_with(
                    comps,
                    "table.wast"@,
                ) || spec_path_ends_with(comps, "memory64.wast"@) {
                    Some(true)
                } else {
                    None
                },
                ..base
            }
        } else {
            arbitrary()
        },
    }
}

/// The configuration of a specification test at the given location. Paths
/// under a proposal this table does not know are rejected beforehand.
pub fn spec_test_config(test: &TestPath) -> (r: TestConfig)
    requires
        test@.len() >= 1,
        spec_supported_proposal(spec_proposal_of(test@)),
    ensures
        r == spec_spec_test_config(test@),
{
    let mut ret = TestConfig::default();
    ret.spec_test = Some(true);
    match spec_proposal_from_path(test) {
        None => {
            ret.reference_types = Some(true);
            ret.simd = Some(true);
        },
        Some(p) => {
            if str_eq(p.as_str(), "wide-arithmetic") {
                ret.wide_arithmetic = Some(true);
            } else if str_eq(p.as_str(), "threads") {
                ret.threads = Some(true);
                ret.reference_types = Some(false);
            } else if str_eq(p.as_str(), "relaxed-simd") {
                ret.relaxed_simd = Some(true);
            } else if str_eq(p.as_str(), "custom-page-sizes") {
                ret.custom_page_sizes = Some(true);
                ret.multi_memory = Some(true);
                ret.memory64 = Some(true);
                if test.ends_with("memory_max.wast") || test.ends_with("memory_max_i64.wast") {
                    ret.hogs_memory = Some(true);
                }
            } else if str_eq(p.as_str(), "annotations") {
                ret.simd = Some(true);
            } else {
                ret.simd = Some(true);
                ret.relaxed_simd = Some(true);
                ret.multi_memory = Some(true);
                ret.gc = Some(true);
                ret.reference_types = Some(true);
                ret.memory64 = Some(true);
                ret.tail_call = Some(true);
                ret.extended_const = Some(true);
                if test.ends_with("tag.wast") || test.ends_with("instance.wast")
                    || test.ends_with("throw.wast") || test.ends_with("throw_ref.wast")
                    || test.ends_with("try_table.wast") || test.ends_with("ref_null.wast")
                    || test.ends_with("imports.wast") {
                    ret.exceptions = Some(true);
                }
                let n = test.components.len();
                if n >= 2 && str_eq(test.components[n - 2].as_str(), "legacy") {
                    ret.legacy_exceptions = Some(true);
                }
                if test.ends_with("memory.wast") || test.ends_with("table.wast")
                    || test.ends_with("memory64.wast") {
                    ret.hogs_memory = Some(true);
                }
            }
        },
    }
    ret
}

} // verus!

verus! {

/// A test with its location, source text and configuration.
#[derive(Debug, Clone)]
pub struct WastTest {
    pub path: TestPath,
    pub contents: String,
    pub config: TestConfig,
}

/// Tests known to fail under the pooling allocator: they allocate more than
/// its configuration here allows, or use shared memories it does not support
/// yet.
pub const POOLING_UNSUPPORTED: &'static str = "misc_testsuite/memory64/more-than-4gb.wast misc_testsuite/memory-combos.wast misc_testsuite/threads/LB.wast misc_testsuite/threads/LB_atomic.wast misc_testsuite/threads/MP.wast misc_testsuite/threads/MP_atomic.wast misc_testsuite/threads/MP_wait.wast misc_testsuite/threads/SB.wast misc_testsuite/threads/SB_atomic.wast misc_testsuite/threads/atomics_notify.wast misc_testsuite/threads/atomics_wait_address.wast misc_testsuite/threads/wait_notify.wast spec_testsuite/proposals/threads/atomic.wast spec_testsuite/proposals/threads/exports.wast spec_testsuite/proposals/threads/memory.wast";

/// Tests of proposals the baseline compiler does not implement yet, on every
/// architecture it supports.
pub const WINCH_UNSUPPORTED: &'static str = "extended-const/elem.wast extended-const/global.wast misc_testsuite/component-model/modules.wast misc_testsuite/externref-id-function.wast misc_testsuite/externref-segment.wast misc_testsuite/externref-segments.wast misc_testsuite/externref-table-dropped-segment-issue-8281.wast misc_testsuite/linking-errors.wast misc_testsuite/many_table_gets_lead_to_gc.wast misc_testsuite/mutable_externref_globals.wast misc_testsuite/no-mixup-stack-maps.wast misc_testsuite/no-panic.wast misc_testsuite/simple_ref_is_null.wast misc_testsuite/table_grow_with_funcref.wast spec_testsuite/br_table.wast spec_testsuite/global.wast spec_testsuite/ref_func.wast spec_testsuite/ref_is_null.wast spec_testsuite/ref_null.wast spec_testsuite/select.wast spec_testsuite/table_fill.wast spec_testsuite/table_get.wast spec_testsuite/table_grow.wast spec_testsuite/table_set.wast spec_testsuite/table_size.wast spec_testsuite/elem.wast spec_testsuite/linking.wast";

/// Tests the baseline compiler does not pass yet on the 64-bit Arm
/// architecture.
pub const WINCH_AARCH64_UNSUPPORTED: &'static str = "misc_testsuite/int-to-float-splat.wast misc_testsuite/issue6562.wast misc_testsuite/memory64/simd.wast misc_testsuite/simd/almost-extmul.wast misc_testsuite/simd/canonicalize-nan.wast misc_testsuite/simd/cvt-from-uint.wast misc_testsuite/simd/edge-of-memory.wast misc_testsuite/simd/interesting-float-splat.wast misc_testsuite/simd/issue4807.wast misc_testsuite/simd/issue6725-no-egraph-panic.wast misc_testsuite/simd/issue_3173_select_v128.wast misc_testsuite/simd/issue_3327_bnot_lowering.wast misc_testsuite/simd/load_splat_out_of_bounds.wast misc_testsuite/simd/replace-lane-preserve.wast misc_testsuite/simd/spillslot-size-fuzzbug.wast misc_testsuite/simd/sse-cannot-fold-unaligned-loads.wast misc_testsuite/simd/unaligned-load.wast misc_testsuite/simd/v128-select.wast misc_testsuite/winch/issue-10331.wast misc_testsuite/winch/issue-10357.wast misc_testsuite/winch/issue-10460.wast misc_testsuite/winch/replace_lane.wast misc_testsuite/winch/simd_multivalue.wast misc_testsuite/winch/v128_load_lane_invalid_address.wast spec_testsuite/proposals/annotations/simd_lane.wast spec_testsuite/proposals/multi-memory/simd_memory-multi.wast spec_testsuite/simd_address.wast spec_testsuite/simd_align.wast spec_testsuite/simd_bit_shift.wast spec_testsuite/simd_bitwise.wast spec_testsuite/simd_boolean.wast spec_testsuite/simd_const.wast spec_testsuite/simd_conversions.wast spec_testsuite/simd_f32x4.wast spec_testsuite/simd_f32x4_arith.wast spec_testsuite/simd_f32x4_cmp.wast spec_testsuite/simd_f32x4_pmin_pmax.wast spec_testsuite/simd_f32x4_rounding.wast spec_testsuite/simd_f64x2.wast spec_testsuite/simd_f64x2_arith.wast spec_testsuite/simd_f64x2_cmp.wast spec_testsuite/simd_f64x2_pmin_pmax.wast spec_testsuite/simd_f64x2_rounding.wast spec_testsuite/simd_i16x8_arith.wast spec_testsuite/simd_i16x8_arith2.wast spec_testsuite/simd_i16x8_cmp.wast spec_testsuite/simd_i16x8_extadd_pairwise_i8x16.wast spec_testsuite/simd_i16x8_extmul_i8x16.wast spec_testsuite/simd_i16x8_q15mulr_sat_s.wast spec_testsuite/simd_i16x8_sat_arith.wast spec_testsuite/simd_i32x4_arith.wast spec_testsuite/simd_i32x4_arith2.wast spec_testsuite/simd_i32x4_cmp.wast spec_testsuite/simd_i32x4_dot_i16x8.wast spec_testsuite/simd_i32x4_extadd_pairwise_i16x8.wast spec_testsuite/simd_i32x4_extmul_i16x8.wast spec_testsuite/simd_i32x4_trunc_sat_f32x4.wast spec_testsuite/simd_i32x4_trunc_sat_f64x2.wast spec_testsuite/simd_i64x2_arith.wast spec_testsuite/simd_i64x2_arith2.wast spec_testsuite/simd_i64x2_cmp.wast spec_testsuite/simd_i64x2_extmul_i32x4.wast spec_testsuite/simd_i8x16_arith.wast spec_testsuite/simd_i8x16_arith2.wast spec_testsuite/simd_i8x16_cmp.wast spec_testsuite/simd_i8x16_sat_arith.wast spec_testsuite/simd_int_to_int_extend.wast spec_testsuite/simd_lane.wast spec_testsuite/simd_load.wast spec_testsuite/simd_load16_lane.wast spec_testsuite/simd_load32_lane.wast spec_testsuite/simd_load64_lane.wast spec_testsuite/simd_load8_lane.wast spec_testsuite/simd_load_extend.wast spec_testsuite/simd_load_splat.wast spec_testsuite/simd_load_zero.wast spec_testsuite/simd_select.wast spec_testsuite/simd_splat.wast spec_testsuite/simd_store.wast spec_testsuite/simd_store16_lane.wast spec_testsuite/simd_store32_lane.wast spec_testsuite/simd_store64_lane.wast spec_testsuite/simd_store8_lane.wast";

/// Tests the baseline compiler does not pass yet on the 64-bit x86
/// architecture.
pub const WINCH_X64_UNSUPPORTED: &'static str = "misc_testsuite/simd/canonicalize-nan.wast";

/// Vector tests the baseline compiler only passes on the 64-bit x86
/// architecture when both vector-extension feature levels are available.
pub const WINCH_X64_NO_AVX_UNSUPPORTED: &'static str = "annotations/simd_lane.wast memory64/simd.wast misc_testsuite/int-to-float-splat.wast misc_testsuite/issue6562.wast misc_testsuite/simd/almost-extmul.wast misc_testsuite/simd/cvt-from-uint.wast misc_testsuite/simd/edge-of-memory.wast misc_testsuite/simd/issue_3327_bnot_lowering.wast misc_testsuite/simd/issue6725-no-egraph-panic.wast misc_testsuite/simd/replace-lane-preserve.wast misc_testsuite/simd/spillslot-size-fuzzbug.wast misc_testsuite/simd/sse-cannot-fold-unaligned-loads.wast misc_testsuite/winch/issue-10331.wast misc_testsuite/winch/replace_lane.wast spec_testsuite/simd_align.wast spec_testsuite/simd_boolean.wast spec_testsuite/simd_conversions.wast spec_testsuite/simd_f32x4.wast spec_testsuite/simd_f32x4_arith.wast spec_testsuite/simd_f32x4_cmp.wast spec_testsuite/simd_f32x4_pmin_pmax.wast spec_testsuite/simd_f32x4_rounding.wast spec_testsuite/simd_f64x2.wast spec_testsuite/simd_f64x2_arith.wast spec_testsuite/simd_f64x2_cmp.wast spec_testsuite/simd_f64x2_pmin_pmax.wast spec_testsuite/simd_f64x2_rounding.wast spec_testsuite/simd_i16x8_cmp.wast spec_testsuite/simd_i32x4_cmp.wast spec_testsuite/simd_i64x2_arith2.wast spec_testsuite/simd_i64x2_cmp.wast spec_testsuite/simd_i8x16_arith2.wast spec_testsuite/simd_i8x16_cmp.wast spec_testsuite/simd_int_to_int_extend.wast spec_testsuite/simd_load.wast spec_testsuite/simd_load_extend.wast spec_testsuite/simd_load_splat.wast spec_testsuite/simd_load_zero.wast spec_testsuite/simd_splat.wast spec_testsuite/simd_store16_lane.wast spec_testsuite/simd_store32_lane.wast spec_testsuite/simd_store64_lane.wast spec_testsuite/simd_store8_lane.wast spec_testsuite/simd_load16_lane.wast spec_testsuite/simd_load32_lane.wast spec_testsuite/simd_load64_lane.wast spec_testsuite/simd_load8_lane.wast spec_testsuite/simd_bitwise.wast misc_testsuite/simd/load_splat_out_of_bounds.wast misc_testsuite/simd/unaligned-load.wast multi-memory/simd_memory-multi.wast misc_testsuite/simd/issue4807.wast spec_testsuite/simd_const.wast spec_testsuite/simd_i8x16_sat_arith.wast spec_testsuite/simd_i64x2_arith.wast spec_testsuite/simd_i16x8_arith.wast spec_testsuite/simd_i16x8_arith2.wast spec_testsuite/simd_i16x8_q15mulr_sat_s.wast spec_testsuite/simd_i16x8_sat_arith.wast spec_testsuite/simd_i32x4_arith.wast spec_testsuite/simd_i32x4_dot_i16x8.wast spec_testsuite/simd_i32x4_trunc_sat_f32x4.wast spec_testsuite/simd_i32x4_trunc_sat_f64x2.wast spec_testsuite/simd_i8x16_arith.wast spec_testsuite/simd_bit_shift.wast spec_testsuite/simd_lane.wast spec_testsuite/simd_i16x8_extmul_i8x16.wast spec_testsuite/simd_i32x4_extmul_i16x8.wast spec_testsuite/simd_i64x2_extmul_i32x4.wast spec_testsuite/simd_i16x8_extadd_pairwise_i8x16.wast spec_testsuite/simd_i32x4_extadd_pairwise_i16x8.wast spec_testsuite/simd_i32x4_arith2.wast";

/// Exception-handling tests using instructions that are not implemented yet.
pub const EXCEPTIONS_UNSUPPORTED: &'static str = "ref_null.wast throw.wast rethrow.wast throw_ref.wast try_table.wast instance.wast";

/// Whether the path ends with any entry of the space-separated table.
pub open spec fn spec_any_table_suffix(comps: Seq<Seq<char>>, table: Seq<char>) -> bool {
    exists|i: int|
        0 <= i < spec_split(table, ' ').len() && spec_path_ends_with(
            comps,
            #[trigger] spec_split(table, ' ')[i],
        )
}

fn any_table_suffix(path: &TestPath, table: &str) -> (r: bool)
    ensures
        r == spec_any_table_suffix(path@, table@),
{
    let entries = split_str(table, ' ');
    let n = entries.len();
    let mut i: usize = 0;
    while i < n
        invariant
            i <= n,
            n == entries.deep_view().len(),
            entries.deep_view() == spec_split(table@, ' '),
            forall|k: int|
                0 <= k < i ==> !spec_path_ends_with(path@, #[trigger] spec_split(table@, ' ')[k]),
        decreases n - i,
    {
        if path.ends_with(entries[i].as_str()) {
            proof {
                assert(entries.deep_view()[i as int] == entries@[i as int]@);
                assert(spec_path_ends_with(path@, spec_split(table@, ' ')[i as int]));
            }
            return true;
        }
        i = i + 1;
    }
    false
}

/// Whether the test, under the given run configuration, is expected to fail
/// on the given host: an unsupported host, a pooling-allocator exclusion, a
/// proposal the compiler does not implement, a per-architecture exclusion of
/// the baseline compiler, or an exception-handling instruction not
/// implemented yet.
pub open spec fn spec_wast_should_fail(
    comps: Seq<Seq<char>>,
    tc: TestConfig,
    wc: WastConfig,
    host: Host,
) -> bool {
    if !spec_compiler_supports_host(wc.compiler, host) {
        true
    } else if wc.pooling && spec_any_table_suffix(comps, POOLING_UNSUPPORTED@) {
        true
    } else if spec_compiler_should_fail(wc.compiler, tc, host) {
        true
    } else if wc.compiler == Compiler::Winch && (spec_any_table_suffix(
        comps,
        WINCH_UNSUPPORTED@,
    ) || (host.arch == HostArch::Aarch64 && spec_any_table_suffix(
        comps,
        WINCH_AARCH64_UNSUPPORTED@,
    )) || (host.arch == HostArch::X86_64 && spec_any_table_suffix(
        comps,
        WINCH_X64_UNSUPPORTED@,
    )) || (host.arch == HostArch::X86_64 && !(host.has_avx && host.has_avx2)
        && spec_any_table_suffix(comps, WINCH_X64_NO_AVX_UNSUPPORTED@))) {
        true
    } else if spec_on(tc.exceptions) && spec_any_table_suffix(comps, EXCEPTIONS_UNSUPPORTED@) {
        true
    } else {
        false
    }
}

impl WastTest {
    /// Returns whether this test exercises the garbage-collected types and
    /// might want to use multiple different garbage collectors.
    pub fn test_uses_gc_types(&self) -> (r: bool)
        ensures
            r == (spec_on(self.config.gc) || spec_on(self.config.function_references)),
    {
        self.config.gc() || self.config.function_references()
    }

    /// Returns the optional specification proposal this test is associated
    /// with.
    pub fn spec_proposal(&self) -> (r: Option<String>)
        ensures
            match r {
                Some(s) => spec_proposal_of(self.path@) == Some(s@),
                None => spec_proposal_of(self.path@) is None,
            },
    {
        spec_proposal_from_path(&self.path)
    }

    /// Returns whether this test should fail under the specified extra
    /// configuration on the given host.
    pub fn should_fail(&self, config: &WastConfig, host: &Host) -> (r: bool)
        ensures
            r == spec_wast_should_fail(self.path@, self.config, *config, *host),
    {
        if !config.compiler.supports_host(host) {
            return true;
        }
        // Some tests are known to fail with the pooling allocator.
        if config.pooling {
            if any_table_suffix(&self.path, POOLING_UNSUPPORTED) {
                return true;
            }
        }
        if config.compiler.should_fail(&self.config, host) {
            return true;
        }
        // Per-architecture exclusions for proposals the baseline compiler
        // does not implement yet.
        if config.compiler == Compiler::Winch {
            if any_table_suffix(&self.path, WINCH_UNSUPPORTED) {
                return true;
            }
            if host.arch == HostArch::Aarch64 && any_table_suffix(
                &self.path,
                WINCH_AARCH64_UNSUPPORTED,
            ) {
                return true;
            }
            if host.arch == HostArch::X86_64 {
                if any_table_suffix(&self.path, WINCH_X64_UNSUPPORTED) {
                    return true;
                }
                // Vector support needs both vector-extension feature levels.
                if !(host.has_avx && host.has_avx2) && any_table_suffix(
                    &self.path,
                    WINCH_X64_NO_AVX_UNSUPPORTED,
                ) {
                    return true;
                }
            }
        }
        // Exception-handling tests using instructions not implemented yet.
        if self.config.exceptions() {
            if any_table_suffix(&self.path, EXCEPTIONS_UNSUPPORTED) {
                return true;
            }
        }
        false
    }
}

} // verus!

use crate::strutil::{spec_join, join_str, str_starts_with};

verus! {

/// A test-configuration text that does not parse.
#[derive(Copy, Clone, PartialEq, Eq, Structural, Debug)]
pub enum ConfigError {
    /// Not a table of booleans in the configuration syntax.
    InvalidToml,
    /// A key that names no known option.
    UnknownOption,
}

/// The key/boolean pairs of the configuration table that `text` parses to,
/// in the table's own key order; nothing when `text` is not such a table.
pub uninterp spec fn toml_bool_pairs(text: Seq<char>) -> Option<Seq<(Seq<char>, bool)>>;

/// Relies on parsing `toml::Table` (through `toml::from_str`): the parse
/// depends on the text alone; a top-level table maps keys to values, here
/// accepted only when every value is a boolean.
#[verifier::external_body]
fn parse_toml_bools(text: &str) -> (r: Option<Vec<(String, bool)>>)
    ensures
        match r {
            Some(v) => toml_bool_pairs(text@) == Some(v.deep_view()),
            None => toml_bool_pairs(text@) is None,
        },
{
    let table: toml::Table = match text.parse() {
        Ok(t) => t,
        Err(_) => return None,
    };
    let mut out = Vec::new();
    for (k, v) in table {
        match v {
            toml::Value::Boolean(b) => out.push((k, b)),
            _ => return None,
        }
    }
    Some(out)
}

/// The line without one trailing carriage return, if it carries one.
pub open spec fn spec_strip_cr(l: Seq<char>) -> Seq<char> {
    if l.len() > 0 && l[l.len() - 1] == '\r' {
        l.subrange(0, l.len() - 1)
    } else {
        l
    }
}

/// The leading lines carrying the comment prefix, each with the prefix
/// removed.
pub open spec fn spec_take_config(lines: Seq<Seq<char>>, comment: Seq<char>) -> Seq<Seq<char>>
    decreases lines.len(),
{
    if lines.len() == 0 {
        Seq::empty()
    } else {
        let l0 = spec_strip_cr(lines[0]);
        if comment.len() <= l0.len() && l0.subrange(0, comment.len() as int) == comment {
            seq![l0.subrange(comment.len() as int, l0.len() as int)] + spec_take_config(
                lines.subrange(1, lines.len() as int),
                comment,
            )
        } else {
            Seq::empty()
        }
    }
}

/// The configuration text of a test source: the leading comment-prefixed
/// lines, prefix stripped, joined by line breaks.
pub open spec fn spec_config_text(wat: Seq<char>, comment: Seq<char>) -> Seq<char> {
    spec_join(spec_take_config(spec_split(wat, '\n'), comment), "\n"@)
}

/// The options applied to a configuration left to right; nothing when a key
/// names no option.
pub open spec fn spec_apply_pairs(c: TestConfig, pairs: Seq<(Seq<char>, bool)>) -> Option<
    TestConfig,
>
    decreases pairs.len(),
{
    if pairs.len() == 0 {
        Some(c)
    } else {
        match spec_set_option(c, pairs[0].0, Some(pairs[0].1)) {
            Some(c2) => spec_apply_pairs(c2, pairs.subrange(1, pairs.len() as int)),
            None => None,
        }
    }
}

/// What parsing a configuration text yields: the options of its table
/// applied to the empty configuration, or the error naming what failed.
pub open spec fn spec_parse_config(text: Seq<char>) -> Result<TestConfig, ConfigError> {
    match toml_bool_pairs(text) {
        None => Err(ConfigError::InvalidToml),
        Some(pairs) => match spec_apply_pairs(spec_default_config(), pairs) {
            Some(c) => Ok(c),
            None => Err(ConfigError::UnknownOption),
        },
    }
}

fn config_of_pairs(pairs: &Vec<(String, bool)>) -> (r: Option<TestConfig>)
    ensures
        match r {
            Some(c) => spec_apply_pairs(spec_default_config(), pairs.deep_view()) == Some(c),
            None => spec_apply_pairs(spec_default_config(), pairs.deep_view()) is None,
        },
{
    let mut c = TestConfig::default();
    let n = pairs.len();
    let mut i: usize = 0;
    proof {
        assert(pairs.deep_view().subrange(0, n as int) =~~= pairs.deep_view());
    }
    while i < n
        invariant
            i <= n,
            n == pairs.deep_view().len(),
            spec_apply_pairs(spec_default_config(), pairs.deep_view()) == spec_apply_pairs(
                c,
                pairs.deep_view().subrange(i as int, n as int),
            ),
        decreases n - i,
    {
        proof {
            assert(pairs.deep_view().subrange(i as int, n as int).subrange(
                1,
                (n - i) as int,
            ) =~~= pairs.deep_view().subrange(i + 1, n as int));
            assert(pairs.deep_view()[i as int] == (pairs@[i as int].0@, pairs@[i as int].1));
        }
        let known = c.options_mut(pairs[i].0.as_str(), Some(pairs[i].1));
        if !known {
            return None;
        }
        i = i + 1;
    }
    proof {
        assert(pairs.deep_view().subrange(n as int, n as int) =~~= Seq::<(Seq<char>, bool)>::empty());
    }
    Some(c)
}

fn strip_cr(l: &String) -> (r: String)
    ensures
        r@ == spec_strip_cr(l@),
{
    let n = l.as_str().unicode_len();
    if n > 0 && l.as_str().get_char(n - 1) == '\r' {
        l.as_str().substring_char(0, n - 1).to_owned()
    } else {
        l.clone()
    }
}

/// Parse the test configuration written in the leading lines of a test
/// source that carry the given comment prefix.
pub fn parse_test_config(wat: &str, comment: &str) -> (r: Result<TestConfig, ConfigError>)
    ensures
        r == spec_parse_config(spec_config_text(wat@, comment@)),
{
    let lines = split_str(wat, '\n');
    let mut pieces: Vec<String> = Vec::new();
    let n = lines.len();
    let mut i: usize = 0;
    let mut stopped = false;
    proof {
        assert(lines.deep_view().subrange(0, n as int) =~~= lines.deep_view());
    }
    while i < n && !stopped
        invariant
            i <= n,
            n == lines.deep_view().len(),
            !stopped ==> spec_take_config(lines.deep_view(), comment@) =~~= pieces.deep_view()
                + spec_take_config(lines.deep_view().subrange(i as int, n as int), comment@),
            stopped ==> spec_take_config(lines.deep_view(), comment@) =~~= pieces.deep_view(),
        decreases n - i,
    {
        proof {
            assert(lines.deep_view().subrange(i as int, n as int).subrange(
                1,
                (n - i) as int,
            ) =~~= lines.deep_view().subrange(i + 1, n as int));
            assert(lines.deep_view()[i as int] == lines@[i as int]@);
        }
        let l = strip_cr(&lines[i]);
        if str_starts_with(l.as_str(), comment) {
            let ln = l.as_str().unicode_len();
            let cn = comment.unicode_len();
            pieces.push(l.as_str().substring_char(cn, ln).to_owned());
        } else {
            stopped = true;
        }
        i = i + 1;
    }
    proof {
        if !stopped {
            assert(lines.deep_view().subrange(n as int, n as int) =~~= Seq::<Seq<char>>::empty());
        }
        assert(pieces.deep_view() =~~= spec_take_config(lines.deep_view(), comment@));
    }
    let text = join_str(&pieces, "\n");
    match parse_toml_bools(text.as_str()) {
        None => Err(ConfigError::InvalidToml),
        Some(pairs) => match config_of_pairs(&pairs) {
            Some(c) => Ok(c),
            None => Err(ConfigError::UnknownOption),
        },
    }
}

/// Whether the path names a test source file: its last component carries the
/// test-source suffix after a nonempty stem.
pub open spec fn spec_is_wast_file(comps: Seq<Seq<char>>) -> bool {
    comps.len() > 0 && comps[comps.len() - 1].len() > 5 && comps[comps.len() - 1].subrange(
        comps[comps.len() - 1].len() - 5,
        comps[comps.len() - 1].len() as int,
    ) == ".wast"@
}

impl TestPath {
    /// Whether the path names a test source file.
    pub fn is_wast_file(&self) -> (r: bool)
        ensures
            r == spec_is_wast_file(self@),
    {
        let n = self.components.len();
        if n == 0 {
            return false;
        }
        let last = &self.components[n - 1];
        let ln = last.as_str().unicode_len();
        if ln <= 5 {
            return false;
        }
        let tail = last.as_str().substring_char(ln - 5, ln);
        proof {
            assert(self@[n - 1] == self.components@[n - 1]@);
        }
        crate::strutil::str_eq(tail, ".wast")
    }
}

/// Assemble one test from its location and source text: the configuration is
/// parsed from the source's leading comment lines where the suite carries
/// configuration, and derived from the location for specification tests.
pub fn wast_test_from_parts(path: TestPath, contents: String, has_config: bool) -> (r: Result<
    WastTest,
    ConfigError,
>)
    requires
        !has_config ==> path@.len() >= 1 && spec_supported_proposal(spec_proposal_of(path@)),
    ensures
        match r {
            Ok(t) => {
                &&& t.path@ == path@
                &&& t.contents@ == contents@
                &&& has_config ==> spec_parse_config(spec_config_text(contents@, ";;!"@)) == Ok::<
                    TestConfig,
                    ConfigError,
                >(t.config)
                &&& !has_config ==> t.config == spec_spec_test_config(path@)
            },
            Err(e) => has_config && spec_parse_config(spec_config_text(contents@, ";;!"@)) == Err::<
                TestConfig,
                ConfigError,
            >(e),
        },
{
    let config = if has_config {
        match parse_test_config(contents.as_str(), ";;!") {
            Ok(c) => c,
            Err(e) => {
                return Err(e);
            },
        }
    } else {
        spec_test_config(&path)
    };
    Ok(WastTest { path, contents, config })
}

} // verus!
