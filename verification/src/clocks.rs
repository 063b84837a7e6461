//! Host clocks: a wall clock reporting time since the Unix epoch and a
//! monotonic clock reporting nanoseconds since its own creation, both backed
//! by the capability-based host clocks. What a clock returns depends on the
//! moment of the call, so the trusted wrappers promise nothing of their
//! results; the surrounding code is verified for every outcome.

use vstd::prelude::*;
use cap_time_ext::MonotonicClockExt;
use cap_time_ext::SystemClockExt;

verus! {

/// A host monotonic clock: nanosecond resolution and nanoseconds elapsed
/// since the clock's origin.
pub trait HostMonotonicClock: Send {
    fn resolution(&self) -> u64;

    fn now(&self) -> u64;
}

/// A host wall clock: resolution and time since the Unix epoch, both in
/// nanoseconds here, where the host reports them as durations.
pub trait HostWallClock: Send {
    fn resolution_nanos(&self) -> u128;

    fn now_nanos(&self) -> u128;
}

#[verifier::external_type_specification]
#[verifier::external_body]
pub struct ExAmbientAuthority(cap_std::AmbientAuthority);

#[verifier::external_type_specification]
#[verifier::external_body]
pub struct ExSystemClock(cap_std::time::SystemClock);

#[verifier::external_type_specification]
#[verifier::external_body]
pub struct ExMonotonicClock(cap_std::time::MonotonicClock);

#[verifier::external_type_specification]
#[verifier::external_body]
pub struct ExInstant(cap_std::time::Instant);

/// Relies on cap_std::ambient_authority: the marker granting use of the
/// ambient host clocks.
#[verifier::external_body]
fn grab_ambient_authority() -> cap_std::AmbientAuthority {
    cap_std::ambient_authority()
}

/// Relies on cap_std::time::SystemClock::new: a handle to the host's wall
/// clock.
#[verifier::external_body]
fn system_clock_new(authority: cap_std::AmbientAuthority) -> cap_std::time::SystemClock {
    cap_std::time::SystemClock::new(authority)
}

/// Relies on cap_std::time::MonotonicClock::new: a handle to the host's
/// monotonic clock.
#[verifier::external_body]
fn monotonic_clock_new(authority: cap_std::AmbientAuthority) -> cap_std::time::MonotonicClock {
    cap_std::time::MonotonicClock::new(authority)
}

/// Relies on cap_std::time::MonotonicClock::now: the current instant of the
/// monotonic clock.
#[verifier::external_body]
fn monotonic_clock_now(clock: &cap_std::time::MonotonicClock) -> cap_std::time::Instant {
    clock.now()
}

/// Relies on cap_time_ext::MonotonicClockExt::resolution, converted to whole
/// nanoseconds; a resolution beyond what 64 bits hold does not occur on
/// hosts this runs on.
#[verifier::external_body]
fn monotonic_clock_resolution_nanos(clock: &cap_std::time::MonotonicClock) -> u64 {
    clock.resolution().as_nanos().try_into().unwrap()
}

/// Relies on cap_std::time::Instant::duration_since, converted to whole
/// nanoseconds: the time elapsed from `initial` to `later`, the two coming
/// from one monotonic clock with `later` drawn after. A 64-bit count of
/// nanoseconds holds several centuries.
#[verifier::external_body]
fn instant_nanos_since(later: cap_std::time::Instant, initial: &cap_std::time::Instant) -> u64 {
    later.duration_since(*initial).as_nanos().try_into().unwrap()
}

/// Relies on cap_time_ext::SystemClockExt::resolution, converted to whole
/// nanoseconds.
#[verifier::external_body]
fn system_clock_resolution_nanos(clock: &cap_std::time::SystemClock) -> u128 {
    clock.resolution().as_nanos()
}

/// Relies on cap_std::time::SystemClock::now and
/// SystemTime::duration_since(UNIX_EPOCH), converted to whole nanoseconds;
/// a host clock set before the epoch panics, as the host embedding expects.
#[verifier::external_body]
fn system_clock_now_since_epoch_nanos(clock: &cap_std::time::SystemClock) -> u128 {
    clock
        .now()
        .duration_since(cap_std::time::SystemClock::UNIX_EPOCH)
        .unwrap()
        .as_nanos()
}

/// The host's wall clock.
pub struct WallClock {
    /// The underlying system clock.
    clock: cap_std::time::SystemClock,
}

impl WallClock {
    pub fn new(authority: cap_std::AmbientAuthority) -> WallClock {
        WallClock { clock: system_clock_new(authority) }
    }
}

impl Default for WallClock {
    fn default() -> WallClock {
        WallClock::new(grab_ambient_authority())
    }
}

impl HostWallClock for WallClock {
    fn resolution_nanos(&self) -> u128 {
        system_clock_resolution_nanos(&self.clock)
    }

    fn now_nanos(&self) -> u128 {
        // Wall clocks report time since the Unix epoch.
        system_clock_now_since_epoch_nanos(&self.clock)
    }
}

/// The host's monotonic clock.
pub struct SteadyClock {
    /// The underlying system clock.
    clock: cap_std::time::MonotonicClock,
    /// The instant this clock was created; all reported times are durations
    /// since then.
    initial: cap_std::time::Instant,
}

impl SteadyClock {
    pub fn new(authority: cap_std::AmbientAuthority) -> SteadyClock {
        let clock = monotonic_clock_new(authority);
        let initial = monotonic_clock_now(&clock);
        SteadyClock { clock, initial }
    }
}

impl Default for SteadyClock {
    fn default() -> SteadyClock {
        SteadyClock::new(grab_ambient_authority())
    }
}

impl HostMonotonicClock for SteadyClock {
    fn resolution(&self) -> u64 {
        monotonic_clock_resolution_nanos(&self.clock)
    }

    fn now(&self) -> u64 {
        instant_nanos_since(monotonic_clock_now(&self.clock), &self.initial)
    }
}

/// The host's monotonic clock, boxed behind the capability.
pub fn monotonic_clock() -> Box<dyn HostMonotonicClock> {
    Box::new(SteadyClock::default())
}

/// The host's wall clock, boxed behind the capability.
pub fn wall_clock() -> Box<dyn HostWallClock> {
    Box::new(WallClock::default())
}

} // verus!

verus! {

/// The clock pair handed to a host embedding.
pub struct WasiClocksCtx {
    pub wall_clock: Box<dyn HostWallClock>,
    pub monotonic_clock: Box<dyn HostMonotonicClock>,
}

impl Default for WasiClocksCtx {
    fn default() -> WasiClocksCtx {
        WasiClocksCtx { wall_clock: wall_clock(), monotonic_clock: monotonic_clock() }
    }
}

/// Access to the clock pair from a host context.
pub trait WasiClocksView: Send {
    fn clocks(&mut self) -> &mut WasiClocksCtx;
}

impl<T: WasiClocksView> WasiClocksView for &mut T {
    fn clocks(&mut self) -> &mut WasiClocksCtx {
        T::clocks(self)
    }
}

impl<T: WasiClocksView> WasiClocksView for Box<T> {
    fn clocks(&mut self) -> &mut WasiClocksCtx {
        T::clocks(self)
    }
}

impl WasiClocksView for WasiClocksCtx {
    fn clocks(&mut self) -> &mut WasiClocksCtx {
        self
    }
}

} // verus!
