use machinst::strutil::{join_str, split_str, str_eq, str_starts_with};
use machinst::wast::{
    has_supported_proposal, parse_test_config, spec_proposal_from_path, spec_test_config,
    wast_test_from_parts, Collector, Compiler, ConfigError, Host, HostArch, TestConfig, TestPath,
    WastConfig, WastTest,
};

fn path(s: &str) -> TestPath {
    TestPath::from_path_str(s)
}

fn x64_host() -> Host {
    Host { arch: HostArch::X86_64, has_avx: true, has_avx2: true }
}

fn aarch64_host() -> Host {
    Host { arch: HostArch::Aarch64, has_avx: false, has_avx2: false }
}

#[test]
fn split_and_join() {
    let parts = split_str("a/b/c", '/');
    assert_eq!(parts, vec!["a", "b", "c"]);
    assert_eq!(split_str("", '/'), vec![""]);
    assert_eq!(split_str("a//b", '/'), vec!["a", "", "b"]);
    assert_eq!(join_str(&parts, "/"), "a/b/c");
    assert_eq!(join_str(&Vec::<String>::new(), "/"), "");
    assert!(str_eq("abc", "abc"));
    assert!(!str_eq("abc", "abd"));
    assert!(str_starts_with(";;! gc", ";;!"));
    assert!(!str_starts_with(";;", ";;!"));
}

#[test]
fn path_suffix_is_component_wise() {
    let p = path("tests/misc_testsuite/memory64/more-than-4gb.wast");
    assert!(p.ends_with("more-than-4gb.wast"));
    assert!(p.ends_with("memory64/more-than-4gb.wast"));
    assert!(p.ends_with("misc_testsuite/memory64/more-than-4gb.wast"));
    // A suffix must match whole components, not a trailing substring.
    assert!(!p.ends_with("4gb.wast"));
    assert!(!p.ends_with("ory64/more-than-4gb.wast"));
    assert!(!p.ends_with("other/more-than-4gb.wast"));
}

#[test]
fn wast_file_detection() {
    assert!(path("tests/spec_testsuite/i32.wast").is_wast_file());
    assert!(!path("tests/spec_testsuite/i32.wat").is_wast_file());
    assert!(!path("tests/spec_testsuite/.wast").is_wast_file());
    assert!(!path("wast").is_wast_file());
}

#[test]
fn proposal_from_path() {
    let p = path("tests/spec_testsuite/proposals/threads/atomic.wast");
    assert_eq!(spec_proposal_from_path(&p), Some(String::from("threads")));
    let q = path("tests/spec_testsuite/atomic.wast");
    assert_eq!(spec_proposal_from_path(&q), None);
    assert!(has_supported_proposal(&p));
    assert!(!has_supported_proposal(&path("x/proposals/garbage/y.wast")));
}

#[test]
fn spec_test_config_defaults() {
    let c = spec_test_config(&path("tests/spec_testsuite/i32.wast"));
    assert_eq!(c.spec_test, Some(true));
    assert_eq!(c.reference_types, Some(true));
    assert_eq!(c.simd, Some(true));
    assert_eq!(c.gc, None);
}

#[test]
fn spec_test_config_threads() {
    let c = spec_test_config(&path("tests/spec_testsuite/proposals/threads/atomic.wast"));
    assert_eq!(c.threads, Some(true));
    assert_eq!(c.reference_types, Some(false));
    assert_eq!(c.simd, None);
}

#[test]
fn spec_test_config_custom_page_sizes() {
    let base = "tests/spec_testsuite/proposals/custom-page-sizes";
    let c = spec_test_config(&path(&format!("{base}/custom-page-sizes.wast")));
    assert_eq!(c.custom_page_sizes, Some(true));
    assert_eq!(c.multi_memory, Some(true));
    assert_eq!(c.memory64, Some(true));
    assert_eq!(c.hogs_memory, None);
    let c = spec_test_config(&path(&format!("{base}/memory_max.wast")));
    assert_eq!(c.hogs_memory, Some(true));
    let c = spec_test_config(&path(&format!("{base}/memory_max_i64.wast")));
    assert_eq!(c.hogs_memory, Some(true));
}

#[test]
fn spec_test_config_wasm3() {
    let base = "tests/spec_testsuite/proposals/wasm-3.0";
    let c = spec_test_config(&path(&format!("{base}/i32.wast")));
    assert_eq!(c.simd, Some(true));
    assert_eq!(c.gc, Some(true));
    assert_eq!(c.tail_call, Some(true));
    assert_eq!(c.exceptions, None);
    assert_eq!(c.legacy_exceptions, None);
    let c = spec_test_config(&path(&format!("{base}/throw.wast")));
    assert_eq!(c.exceptions, Some(true));
    let c = spec_test_config(&path(&format!("{base}/legacy/rethrow.wast")));
    assert_eq!(c.legacy_exceptions, Some(true));
    let c = spec_test_config(&path(&format!("{base}/memory64.wast")));
    assert_eq!(c.hogs_memory, Some(true));
}

#[test]
fn parse_config_from_comments() {
    let wat = ";;! gc = true\n;;! simd = false\n(module)\n";
    let c = parse_test_config(wat, ";;!").unwrap();
    assert_eq!(c.gc, Some(true));
    assert_eq!(c.simd, Some(false));
    assert_eq!(c.threads, None);
    // Only the leading comment lines count.
    let wat = "(module)\n;;! gc = true\n";
    let c = parse_test_config(wat, ";;!").unwrap();
    assert_eq!(c, TestConfig::default());
    // Carriage returns before the line break are tolerated.
    let wat = ";;! threads = true\r\n(module)";
    let c = parse_test_config(wat, ";;!").unwrap();
    assert_eq!(c.threads, Some(true));
}

#[test]
fn parse_config_rejects_bad_input() {
    assert_eq!(parse_test_config(";;! gc = = true\n", ";;!"), Err(ConfigError::InvalidToml));
    assert_eq!(parse_test_config(";;! gc = 3\n", ";;!"), Err(ConfigError::InvalidToml));
    assert_eq!(
        parse_test_config(";;! no_such_option = true\n", ";;!"),
        Err(ConfigError::UnknownOption)
    );
}

#[test]
fn options_read_and_write() {
    let mut c = TestConfig::default();
    assert!(!c.gc());
    assert!(c.options_mut("gc", Some(true)));
    assert!(c.gc());
    assert!(!c.options_mut("no_such_option", Some(true)));
    let opts = c.options();
    assert_eq!(opts.len(), 25);
    let gc = opts.iter().find(|(n, _)| *n == "gc").unwrap();
    assert_eq!(gc.1, Some(true));
    let m64 = opts.iter().find(|(n, _)| *n == "memory64").unwrap();
    assert_eq!(m64.1, None);
}

#[test]
fn compiler_should_fail_tracks_proposals() {
    let mut c = TestConfig::default();
    c.legacy_exceptions = Some(true);
    assert!(Compiler::CraneliftNative.should_fail(&c, &x64_host()));
    assert!(Compiler::CraneliftPulley.should_fail(&c, &x64_host()));
    let mut c = TestConfig::default();
    c.gc = Some(true);
    assert!(!Compiler::CraneliftNative.should_fail(&c, &x64_host()));
    assert!(Compiler::Winch.should_fail(&c, &x64_host()));
    // Vector support on the 64-bit Arm baseline is limited to spec tests.
    let mut c = TestConfig::default();
    c.simd = Some(true);
    assert!(!Compiler::Winch.should_fail(&c, &x64_host()));
    assert!(Compiler::Winch.should_fail(&c, &aarch64_host()));
    c.spec_test = Some(true);
    assert!(!Compiler::Winch.should_fail(&c, &aarch64_host()));
    // Architectures beyond the two supported ones always fail the baseline.
    let c = TestConfig::default();
    let other = Host { arch: HostArch::Riscv64, has_avx: false, has_avx2: false };
    assert!(Compiler::Winch.should_fail(&c, &other));
}

#[test]
fn compiler_supports_host_by_architecture() {
    let riscv = Host { arch: HostArch::Riscv64, has_avx: false, has_avx2: false };
    let other = Host { arch: HostArch::Other, has_avx: false, has_avx2: false };
    assert!(Compiler::CraneliftNative.supports_host(&x64_host()));
    assert!(Compiler::CraneliftNative.supports_host(&riscv));
    assert!(!Compiler::CraneliftNative.supports_host(&other));
    assert!(Compiler::Winch.supports_host(&x64_host()));
    assert!(!Compiler::Winch.supports_host(&riscv));
    assert!(Compiler::CraneliftPulley.supports_host(&other));
}

fn test_at(p: &str) -> WastTest {
    WastTest {
        path: path(p),
        contents: String::new(),
        config: TestConfig::default(),
    }
}

#[test]
fn should_fail_unsupported_host() {
    let t = test_at("tests/spec_testsuite/i32.wast");
    let cfg = WastConfig { compiler: Compiler::Winch, pooling: false, collector: Collector::Auto };
    let riscv = Host { arch: HostArch::Riscv64, has_avx: false, has_avx2: false };
    assert!(t.should_fail(&cfg, &riscv));
}

#[test]
fn should_fail_pooling_exclusions() {
    let t = test_at("tests/misc_testsuite/memory64/more-than-4gb.wast");
    let base = WastConfig {
        compiler: Compiler::CraneliftNative,
        pooling: false,
        collector: Collector::Auto,
    };
    let host = x64_host();
    assert!(!t.should_fail(&base, &host));
    let pooling = WastConfig { pooling: true, ..base };
    assert!(t.should_fail(&pooling, &host));
    // A test outside the table runs under pooling.
    let other = test_at("tests/misc_testsuite/align.wast");
    assert!(!other.should_fail(&pooling, &host));
}

#[test]
fn should_fail_winch_tables() {
    let host = x64_host();
    let cfg = WastConfig { compiler: Compiler::Winch, pooling: false, collector: Collector::Auto };
    let t = test_at("tests/spec_testsuite/br_table.wast");
    assert!(t.should_fail(&cfg, &host));
    let native =
        WastConfig { compiler: Compiler::CraneliftNative, pooling: false, collector: Collector::Auto };
    assert!(!t.should_fail(&native, &host));
    // The canonicalize-nan exclusion applies on the 64-bit x86 baseline.
    let t = test_at("tests/misc_testsuite/simd/canonicalize-nan.wast");
    assert!(t.should_fail(&cfg, &host));
    // Without both vector-extension levels, vector tests are excluded.
    let t = test_at("tests/spec_testsuite/simd_load.wast");
    assert!(!t.should_fail(&cfg, &host));
    let no_avx = Host { arch: HostArch::X86_64, has_avx: false, has_avx2: false };
    assert!(t.should_fail(&cfg, &no_avx));
    // The 64-bit Arm baseline has its own table.
    let t = test_at("tests/spec_testsuite/simd_align.wast");
    assert!(t.should_fail(&cfg, &aarch64_host()));
}

#[test]
fn should_fail_exceptions_exclusions() {
    let mut t = test_at("tests/spec_testsuite/proposals/wasm-3.0/throw.wast");
    t.config.exceptions = Some(true);
    let cfg = WastConfig {
        compiler: Compiler::CraneliftNative,
        pooling: false,
        collector: Collector::Auto,
    };
    assert!(t.should_fail(&cfg, &x64_host()));
    let mut ok = test_at("tests/spec_testsuite/proposals/wasm-3.0/i32.wast");
    ok.config.exceptions = Some(true);
    assert!(!ok.should_fail(&cfg, &x64_host()));
}

#[test]
fn test_uses_gc_types_reads_config() {
    let mut t = test_at("a/b.wast");
    assert!(!t.test_uses_gc_types());
    t.config.function_references = Some(true);
    assert!(t.test_uses_gc_types());
}

#[test]
fn assemble_test_from_parts() {
    let t = wast_test_from_parts(
        path("tests/misc_testsuite/x.wast"),
        String::from(";;! gc = true\n(module)"),
        true,
    )
    .unwrap();
    assert_eq!(t.config.gc, Some(true));
    let t = wast_test_from_parts(
        path("tests/spec_testsuite/i32.wast"),
        String::from("(module)"),
        false,
    )
    .unwrap();
    assert_eq!(t.config.spec_test, Some(true));
    assert_eq!(t.config.reference_types, Some(true));
    assert!(wast_test_from_parts(
        path("tests/misc_testsuite/x.wast"),
        String::from(";;! bogus_key = true\n"),
        true,
    )
    .is_err());
}
