//! A freestanding test harness core: a resumable test-execution engine with a
//! bounded-memory diagnostics encoder.
//!
//! The harness enumerates a fixed, ordered registry of test cases, runs them
//! sequentially, survives hardware-level faults by resuming at the next test,
//! and emits machine-parseable result records over a byte-oriented debug
//! channel. This crate holds the engine's logic: cursor tracking, outcome
//! policy, module grouping, and record encoding. The platform glue (serial
//! ports, the trap entry, the emulator exit signal) lives outside and drives
//! this engine through plain values.

use vstd::prelude::*;

pub mod args;
pub mod buffer;
pub mod laws;
pub mod output;
pub mod qemu;
pub mod runner;
pub mod testcase;

pub use args::GroupConfig;
pub use args::get_test_group;
pub use args::set_test_group;
pub use buffer::EncodingStrategy;
pub use buffer::RecordBuffer;
pub use buffer::replace_all;
pub use buffer::u64_to_string;
pub use output::print_test_name;
pub use qemu::ExitCode;
pub use runner::Channel;
pub use runner::Emitted;
pub use runner::FaultLocation;
pub use runner::KernelTestRunner;
pub use runner::RecoveryAction;
pub use runner::TestBehavior;
pub use runner::TestResult;
pub use testcase::Ignore;
pub use testcase::ShouldPanic;
pub use testcase::TestCase;

verus! {

/// A condition that cannot be attributed to a single test and is fatal to the
/// whole harness: a record that exceeds its bounded buffer, or a recovery
/// request while the cursor points outside the registry.
#[derive(Clone, Copy, Debug, PartialEq, Eq, Structural)]
pub enum HarnessError {
    CapacityExceeded,
    CursorOutOfRange,
}

/// Capacity, in characters, of a bounded buffer holding a single record.
pub const MAX_STRING_LENGTH: usize = 1024;

/// Capacity, in characters, of the bounded buffer holding the full test-name
/// manifest, which concatenates every test's name.
pub const MAX_STRING_LENGTH_LARGE: usize = 10240;

/// Initialize the harness with the given test group name. Idempotent: the
/// first call wins, later calls change nothing.
pub fn init_harness(config: &mut GroupConfig, test_group: &str)
    ensures
        final(config)@ == args::set_group(old(config)@, test_group@),
{
    set_test_group(config, test_group);
}

} // verus!
