use machinst::clocks::{
    monotonic_clock, wall_clock, HostMonotonicClock, SteadyClock, WallClock, WasiClocksCtx,
    WasiClocksView,
};

#[test]
fn monotonic_clock_advances() {
    let clock = monotonic_clock();
    let a = clock.now();
    let b = clock.now();
    assert!(b >= a);
    let _res = clock.resolution();
}

#[test]
fn wall_clock_reports_time_since_epoch() {
    let clock = wall_clock();
    // Sometime after 2020 and before the distant future.
    let nanos = clock.now_nanos();
    assert!(nanos > 1_577_836_800_000_000_000);
    let _res = clock.resolution_nanos();
}

#[test]
fn clocks_context_default() {
    let mut ctx = WasiClocksCtx::default();
    let a = ctx.clocks().monotonic_clock.now();
    let b = ctx.clocks().monotonic_clock.now();
    assert!(b >= a);
}

#[test]
fn concrete_clocks_construct() {
    let steady = SteadyClock::default();
    assert!(steady.now() < 1_000_000_000_000);
    let _wall = WallClock::default();
}
