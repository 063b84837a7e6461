//! Limits for running the test suites: empirically found minimum thresholds
//! shared between the test runner and fuzzing, where they serve as the
//! floor for generated configurations.

use vstd::prelude::*;

verus! {

pub const MEMORY_SIZE: usize = 805 << 16;

pub const MEMORIES: u32 = 450;

pub const TABLES: u32 = 200;

pub const MEMORIES_PER_MODULE: u32 = 9;

pub const TABLES_PER_MODULE: u32 = 5;

pub const COMPONENT_INSTANCES: u32 = 50;

pub const CORE_INSTANCES: u32 = 900;

pub const TABLE_ELEMENTS: usize = 1000;

pub const CORE_INSTANCE_SIZE: usize = 64 * 1024;

pub const TOTAL_STACKS: u32 = 10;

} // verus!
