//! The runner state machine and its recovery protocol. The runner owns the
//! registry, the execution cursor and the current-module tracker, and drives
//! the main loop: announce the run, start each test, record its outcome,
//! advance the cursor. A test body that diverges transfers control to the
//! platform's fault handler, which calls back into the recovery path here;
//! that path performs the same bookkeeping the normal loop would have
//! performed and says where to resume.
//!
//! The engine computes; the platform performs. Every method returns the exact
//! text to put on the two channels, and the run loop takes each test body's
//! observed behavior as a value, so the whole protocol is stated and checked
//! over plain data.

use vstd::prelude::*;
use vstd::string::StrSliceExecFns;
use vstd::string::StringExecFns;

use crate::HarnessError;
use crate::args::GroupConfig;
use crate::args::get_test_group;
use crate::buffer::EncodingStrategy;
use crate::buffer::RecordBuffer;
use crate::buffer::fits;
use crate::buffer::replace_chars;
use crate::buffer::str_eq;
use crate::output::all_entries_fit;
use crate::output::banner_footer_chars;
use crate::output::banner_heading;
use crate::output::banner_heading_chars;
use crate::output::banner_separator_chars;
use crate::output::fail_line;
use crate::output::fail_line_chars;
use crate::output::failure_record_chars;
use crate::output::failure_record_raw;
use crate::output::format_location;
use crate::output::group_record_chars;
use crate::output::group_record_raw;
use crate::output::ignored_line_chars;
use crate::output::ignored_record_chars;
use crate::output::ignored_record_raw;
use crate::output::location_chars;
use crate::output::manifest_chars;
use crate::output::names_of;
use crate::output::padded_name_chars;
use crate::output::pass_line_chars;
use crate::output::print_test_name;
use crate::output::success_record_chars;
use crate::output::success_record_raw;
use crate::output::write_test_failure;
use crate::output::write_test_group;
use crate::output::write_test_ignored;
use crate::output::write_test_names;
use crate::output::write_test_success;
use crate::qemu::ExitCode;
use crate::testcase::Ignore;
use crate::testcase::ShouldPanic;
use crate::testcase::TestCase;
use crate::testcase::count_by_module;
use crate::testcase::count_in_module;
use crate::testcase::module_label_chars;

verus! {

/// The console column the result tags are aligned to: test names are padded
/// out to it.
pub const RESULT_COLUMN: usize = 58;

/// The outcome of one test that started.
#[derive(Clone, Copy, Debug, PartialEq, Eq, Structural)]
pub enum TestResult {
    Success,
    Failure,
    Ignored,
}

/// The two output channels: the machine-parseable debug transport and the
/// human-readable console.
#[derive(Clone, Copy, Debug, PartialEq, Eq, Structural)]
pub enum Channel {
    Debug,
    Console,
}

/// One piece of output, ready for its channel. Debug pieces are whole
/// records; console pieces are the chunks of the serial line discipline, so
/// a name line and its closing result tag arrive as separate writes.
#[derive(Debug)]
pub struct Emitted {
    pub channel: Channel,
    pub text: String,
}

impl View for Emitted {
    type V = (Channel, Seq<char>);

    open spec fn view(&self) -> (Channel, Seq<char>) {
        (self.channel, self.text@)
    }
}

/// The emitted pieces as channel/text pairs.
pub open spec fn emits_view(emits: Seq<Emitted>) -> Seq<(Channel, Seq<char>)> {
    emits.map_values(|e: Emitted| e@)
}

/// The view of a concatenation is the concatenation of the views.
pub proof fn lemma_emits_view_add(a: Seq<Emitted>, b: Seq<Emitted>)
    ensures
        emits_view(a + b) == emits_view(a) + emits_view(b),
{
    assert(emits_view(a + b) =~= emits_view(a) + emits_view(b));
}

/// A fault's reported source position.
pub struct FaultLocation {
    pub file: String,
    pub line: u32,
}

/// What one test's body was observed to do: return normally, with the cycle
/// counter read at its start and at its end, or diverge into the fault
/// handler with the fault's metadata.
pub enum TestBehavior {
    Returns { cycle_start: u64, cycle_end: u64 },
    Diverges { location: Option<FaultLocation>, message: Option<String> },
}

/// The cycle counter is monotone, so a returning body's end reading is never
/// below its start reading.
pub open spec fn behavior_ok(b: TestBehavior) -> bool {
    match b {
        TestBehavior::Returns { cycle_start, cycle_end } => cycle_start <= cycle_end,
        TestBehavior::Diverges { .. } => true,
    }
}

/// What the recovery path asks the platform to do next: re-enter the run
/// loop at the given index, or terminate with the given code.
#[derive(Clone, Copy, Debug, PartialEq, Eq, Structural)]
pub enum RecoveryAction {
    Resume { next_index: usize },
    Exit { code: ExitCode },
}

/// The group name in effect: the configured one, or the default.
pub open spec fn effective_group(config: Option<Seq<char>>) -> Seq<char> {
    match config {
        Some(group) => group,
        None => "default"@,
    }
}

/// The duration reported for a test: end reading minus start reading, or
/// zero when the start is the unknown-sentinel (the maximum counter value).
pub open spec fn duration_of(cycle_start: u64, cycle_end: u64) -> nat {
    if cycle_start == u64::MAX {
        0
    } else if cycle_end >= cycle_start {
        (cycle_end - cycle_start) as nat
    } else {
        0
    }
}

/// The module the cursor considers current when test `i` of a run from the
/// start is about to begin: the label of the previous test, or the initial
/// empty marker before the first test.
pub open spec fn module_before(tests: Seq<TestCase>, i: int) -> Seq<char> {
    if i <= 0 {
        Seq::empty()
    } else {
        module_label_chars(tests[i - 1].name@)
    }
}

/// The console banner announcing test `i`'s module: a separator, the heading
/// with the module's test count, and a closing rule.
pub open spec fn banner_emits(tests: Seq<TestCase>, group: Seq<char>, i: int) -> Seq<
    (Channel, Seq<char>),
> {
    seq![
        (Channel::Console, banner_separator_chars()),
        (
            Channel::Console,
            banner_heading_chars(
                count_in_module(tests, module_label_chars(tests[i].name@)),
                group,
                module_label_chars(tests[i].name@),
            ),
        ),
        (Channel::Console, banner_footer_chars()),
    ]
}

/// What starting test `i` emits when the module `module_prev` is current: a
/// banner if the module changes, then the padded test name.
pub open spec fn start_emits_from(
    tests: Seq<TestCase>,
    group: Seq<char>,
    module_prev: Seq<char>,
    i: int,
) -> Seq<(Channel, Seq<char>)> {
    (if module_label_chars(tests[i].name@) != module_prev {
        banner_emits(tests, group, i)
    } else {
        Seq::empty()
    }) + seq![(Channel::Console, padded_name_chars(tests[i].name@, RESULT_COLUMN as nat))]
}

/// The fault location as encoded, or the placeholder for a fault that
/// reported none.
pub open spec fn loc_chars_of(location: Option<FaultLocation>) -> Seq<char> {
    match location {
        Some(l) => location_chars(l.file@, l.line as nat),
        None => "unknown location"@,
    }
}

/// The fault message, or the placeholder for a fault that carried none.
pub open spec fn msg_chars_of(message: Option<String>) -> Seq<char> {
    match message {
        Some(m) => m@,
        None => "no message"@,
    }
}

/// What the recovery path emits for the faulted test: a success record when
/// the fault was expected, otherwise the console failure tag followed by the
/// failure record.
pub open spec fn fault_emits(
    t: TestCase,
    location: Option<FaultLocation>,
    message: Option<String>,
) -> Seq<(Channel, Seq<char>)> {
    if t.should_panic is Yes {
        seq![
            (Channel::Debug, success_record_chars(t.name@, 0)),
            (Channel::Console, pass_line_chars()),
        ]
    } else {
        seq![
            (Channel::Console, fail_line_chars(loc_chars_of(location), msg_chars_of(message))),
            (
                Channel::Debug,
                failure_record_chars(t.name@, loc_chars_of(location), msg_chars_of(message)),
            ),
        ]
    }
}

/// Whether the recovery path's text fits the bounded buffers: the rendered
/// location always goes through one, then the record of the taken branch.
pub open spec fn fault_fits(
    t: TestCase,
    location: Option<FaultLocation>,
    message: Option<String>,
    strategy: EncodingStrategy,
) -> bool {
    fits(strategy.record_cap(), loc_chars_of(location).len() as int) && if t.should_panic
        is Yes {
        fits(strategy.record_cap(), success_record_raw(t.name@, 0).len() as int)
    } else {
        fits(
            strategy.record_cap(),
            failure_record_raw(
                t.name@,
                replace_chars(loc_chars_of(location), "\\"@, "/"@),
                msg_chars_of(message),
            ).len() as int,
        )
    }
}

/// What completing a test emits: the success or ignored record with its
/// console tag; a failure emits nothing here because the recovery path
/// already wrote it.
pub open spec fn complete_emits(t: TestCase, result: TestResult, dur: nat) -> Seq<
    (Channel, Seq<char>),
> {
    match result {
        TestResult::Success => seq![
            (Channel::Debug, success_record_chars(t.name@, dur)),
            (Channel::Console, pass_line_chars()),
        ],
        TestResult::Failure => Seq::empty(),
        TestResult::Ignored => seq![
            (Channel::Debug, ignored_record_chars(t.name@)),
            (Channel::Console, ignored_line_chars()),
        ],
    }
}

/// Whether completing a test fits the bounded buffers.
pub open spec fn complete_fits(
    t: TestCase,
    result: TestResult,
    dur: nat,
    strategy: EncodingStrategy,
) -> bool {
    match result {
        TestResult::Success => fits(
            strategy.record_cap(),
            success_record_raw(t.name@, dur).len() as int,
        ),
        TestResult::Failure => true,
        TestResult::Ignored => fits(
            strategy.record_cap(),
            ignored_record_raw(t.name@).len() as int,
        ),
    }
}

/// What test `i` contributes after its name line: its single result record
/// and console tag, decided by the ignore flag, the observed behavior, and
/// the expected-fault flag.
pub open spec fn result_emits(t: TestCase, b: TestBehavior) -> Seq<(Channel, Seq<char>)> {
    if t.ignore is Yes {
        seq![
            (Channel::Debug, ignored_record_chars(t.name@)),
            (Channel::Console, ignored_line_chars()),
        ]
    } else {
        match b {
            TestBehavior::Returns { cycle_start, cycle_end } => seq![
                (
                    Channel::Debug,
                    success_record_chars(t.name@, duration_of(cycle_start, cycle_end)),
                ),
                (Channel::Console, pass_line_chars()),
            ],
            TestBehavior::Diverges { location, message } => fault_emits(t, location, message),
        }
    }
}

/// Whether test `i`'s result record fits the bounded buffers.
pub open spec fn result_fits(t: TestCase, b: TestBehavior, strategy: EncodingStrategy) -> bool {
    if t.ignore is Yes {
        fits(strategy.record_cap(), ignored_record_raw(t.name@).len() as int)
    } else {
        match b {
            TestBehavior::Returns { cycle_start, cycle_end } => fits(
                strategy.record_cap(),
                success_record_raw(t.name@, duration_of(cycle_start, cycle_end)).len() as int,
            ),
            TestBehavior::Diverges { location, message } => fault_fits(
                t,
                location,
                message,
                strategy,
            ),
        }
    }
}

/// Everything test `i` of a run from the start emits, in order.
pub open spec fn test_emits(
    tests: Seq<TestCase>,
    behaviors: Seq<TestBehavior>,
    group: Seq<char>,
    i: int,
) -> Seq<(Channel, Seq<char>)> {
    start_emits_from(tests, group, module_before(tests, i), i) + result_emits(
        tests[i],
        behaviors[i],
    )
}

/// Everything the tests from index `i` on emit, in order.
pub open spec fn run_emits(
    tests: Seq<TestCase>,
    behaviors: Seq<TestBehavior>,
    group: Seq<char>,
    i: int,
) -> Seq<(Channel, Seq<char>)>
    decreases tests.len() - i,
{
    if i < 0 || i >= tests.len() {
        Seq::empty()
    } else {
        test_emits(tests, behaviors, group, i) + run_emits(tests, behaviors, group, i + 1)
    }
}

/// Whether every record of the tests from index `i` on fits its buffer.
pub open spec fn run_fits(
    tests: Seq<TestCase>,
    behaviors: Seq<TestBehavior>,
    strategy: EncodingStrategy,
    i: int,
) -> bool
    decreases tests.len() - i,
{
    if i < 0 || i >= tests.len() {
        true
    } else {
        result_fits(tests[i], behaviors[i], strategy) && run_fits(tests, behaviors, strategy, i + 1)
    }
}

/// If one test's record does not fit, the run's records do not all fit.
pub proof fn lemma_run_fits_index(
    tests: Seq<TestCase>,
    behaviors: Seq<TestBehavior>,
    strategy: EncodingStrategy,
    i: int,
    k: int,
)
    requires
        0 <= i <= k < tests.len(),
        !result_fits(tests[k], behaviors[k], strategy),
    ensures
        !run_fits(tests, behaviors, strategy, i),
    decreases k - i,
{
    if i < k {
        lemma_run_fits_index(tests, behaviors, strategy, i + 1, k);
    }
}

/// The two announcement records written exactly once, before the first test.
pub open spec fn before_emits(tests: Seq<TestCase>, group: Seq<char>) -> Seq<
    (Channel, Seq<char>),
> {
    seq![
        (Channel::Debug, group_record_chars(group, tests.len())),
        (Channel::Debug, manifest_chars(names_of(tests))),
    ]
}

/// Whether the two announcement records fit their buffers.
pub open spec fn before_fits(
    tests: Seq<TestCase>,
    group: Seq<char>,
    strategy: EncodingStrategy,
) -> bool {
    fits(strategy.record_cap(), group_record_raw(group, tests.len()).len() as int)
        && all_entries_fit(names_of(tests), strategy) && fits(
        strategy.manifest_cap(),
        manifest_chars(names_of(tests)).len() as int,
    )
}

/// Everything a run starting at `start` emits: the announcement exactly when
/// the run starts from the beginning, then each test's output in registry
/// order.
pub open spec fn full_run_emits(
    tests: Seq<TestCase>,
    behaviors: Seq<TestBehavior>,
    group: Seq<char>,
    start: int,
) -> Seq<(Channel, Seq<char>)> {
    (if start == 0 {
        before_emits(tests, group)
    } else {
        Seq::empty()
    }) + run_emits(tests, behaviors, group, start)
}

/// Whether everything a run starting at `start` writes fits its buffers.
pub open spec fn full_run_fits(
    tests: Seq<TestCase>,
    behaviors: Seq<TestBehavior>,
    group: Seq<char>,
    strategy: EncodingStrategy,
    start: int,
) -> bool {
    (start == 0 ==> before_fits(tests, group, strategy)) && run_fits(
        tests,
        behaviors,
        strategy,
        start,
    )
}

/// The engine: the registry, the configuration, the execution cursor, the
/// current-module tracker, and the encoding strategy. The platform owns one
/// instance for the whole run and routes every step through it.
pub struct KernelTestRunner {
    pub config: GroupConfig,
    pub tests: Vec<TestCase>,
    pub current_index: usize,
    pub current_module: String,
    pub strategy: EncodingStrategy,
}

impl KernelTestRunner {
    /// The cursor never points past the end of the registry.
    pub open spec fn wf(self) -> bool {
        self.current_index <= self.tests@.len()
    }

    /// The group name this runner announces under.
    pub open spec fn group(self) -> Seq<char> {
        effective_group(self.config@)
    }

    /// A fresh runner over the given registry: cursor at zero, no module
    /// current yet, no group name set yet.
    pub fn new(tests: Vec<TestCase>, strategy: EncodingStrategy) -> (runner: KernelTestRunner)
        ensures
            runner.tests@ == tests@,
            runner.config@ is None,
            runner.current_index == 0,
            runner.current_module@ == Seq::<char>::empty(),
            runner.strategy == strategy,
            runner.wf(),
    {
        KernelTestRunner {
            config: GroupConfig::new(),
            tests,
            current_index: 0,
            current_module: String::new(),
            strategy,
        }
    }

    /// The group name in effect, as an owned string.
    fn group_name(&self) -> (group: String)
        ensures
            group@ == self.group(),
    {
        match get_test_group(&self.config) {
            Some(s) => String::from_str(s.as_str()),
            None => String::from_str("default"),
        }
    }

    /// The test the cursor points at, if it is in range.
    pub fn current_test(&self) -> (result: Option<&TestCase>)
        ensures
            match result {
                Some(t) => self.current_index < self.tests@.len() && *t == self.tests@[
                    self.current_index as int
                ],
                None => self.current_index >= self.tests@.len(),
            },
    {
        if self.current_index < self.tests.len() {
            Some(&self.tests[self.current_index])
        } else {
            None
        }
    }

    /// Advances the cursor by exactly one, unless it already sits past the
    /// last test.
    pub fn increment_test_index(&mut self) -> (advanced: bool)
        ensures
            advanced == (old(self).current_index < old(self).tests@.len()),
            advanced ==> final(self).current_index == old(self).current_index + 1,
            !advanced ==> final(self).current_index == old(self).current_index,
            final(self).tests@ == old(self).tests@,
            final(self).config == old(self).config,
            final(self).current_module == old(self).current_module,
            final(self).strategy == old(self).strategy,
    {
        if self.current_index >= self.tests.len() {
            false
        } else {
            self.current_index = self.current_index + 1;
            true
        }
    }

    /// Runs once before all tests: renders the group announcement and the
    /// test-name manifest, each exactly once per process lifetime.
    pub fn before_tests(&self) -> (result: Result<Vec<Emitted>, HarnessError>)
        ensures
            result is Ok <==> before_fits(self.tests@, self.group(), self.strategy),
            result matches Ok(emits) ==> emits_view(emits@) == before_emits(
                self.tests@,
                self.group(),
            ),
            result is Err ==> result == Err::<Vec<Emitted>, HarnessError>(
                HarnessError::CapacityExceeded,
            ),
    {
        let group = self.group_name();
        let group_line = match write_test_group(&self.strategy, group.as_str(), self.tests.len()) {
            Ok(line) => line,
            Err(e) => {
                return Err(e);
            },
        };
        let names_line = match write_test_names(&self.strategy, &self.tests) {
            Ok(line) => line,
            Err(e) => {
                return Err(e);
            },
        };
        let mut emits: Vec<Emitted> = Vec::new();
        emits.push(Emitted { channel: Channel::Debug, text: group_line });
        emits.push(Emitted { channel: Channel::Debug, text: names_line });
        proof {
            assert(emits_view(emits@) =~= before_emits(self.tests@, self.group()));
        }
        Ok(emits)
    }

    /// Runs once after all tests: the run terminates with the success code,
    /// whatever the individual outcomes were.
    pub fn after_tests(&self) -> (code: ExitCode)
        ensures
            code == ExitCode::Success,
    {
        ExitCode::Success
    }

    /// Called at the start of each test: emits a module banner when the
    /// test's module differs from the current one (recording the change),
    /// then the padded test name, and passes the cycle reading through as the
    /// test's start time.
    pub fn start_test(&mut self, cycle_now: u64) -> (result: (Vec<Emitted>, u64))
        requires
            old(self).wf(),
            old(self).current_index < old(self).tests@.len(),
        ensures
            final(self).tests@ == old(self).tests@,
            final(self).config == old(self).config,
            final(self).current_index == old(self).current_index,
            final(self).strategy == old(self).strategy,
            final(self).current_module@ == module_label_chars(
                old(self).tests@[old(self).current_index as int].name@,
            ),
            final(self).wf(),
            emits_view(result.0@) == start_emits_from(
                old(self).tests@,
                old(self).group(),
                old(self).current_module@,
                old(self).current_index as int,
            ),
            result.1 == cycle_now,
    {
        let idx = self.current_index;
        let group = self.group_name();
        let label = self.tests[idx].module_label();
        let mut emits: Vec<Emitted> = Vec::new();
        let same = str_eq(label.as_str(), self.current_module.as_str());
        if !same {
            let count = count_by_module(&self.tests, label.as_str());
            emits.push(
                Emitted {
                    channel: Channel::Console,
                    text: String::from_str(
                        "\n################################################################\n",
                    ),
                },
            );
            let heading = banner_heading(count, group.as_str(), label.as_str());
            emits.push(Emitted { channel: Channel::Console, text: heading });
            emits.push(
                Emitted {
                    channel: Channel::Console,
                    text: String::from_str(
                        "----------------------------------------------------------------\n",
                    ),
                },
            );
            self.current_module = label;
        }
        let padded = print_test_name(self.tests[idx].name.as_str(), RESULT_COLUMN);
        emits.push(Emitted { channel: Channel::Console, text: padded });
        proof {
            assert(emits_view(emits@) =~= start_emits_from(
                old(self).tests@,
                old(self).group(),
                old(self).current_module@,
                idx as int,
            ));
        }
        (emits, cycle_now)
    }

    /// Called at the end of each test: renders the record for the outcome.
    /// The duration is the cycle reading now minus the reading at start, or
    /// zero when the start is the unknown-sentinel; a failure renders nothing
    /// because the recovery path already wrote it.
    pub fn complete_test(&self, result: TestResult, cycle_start: u64, cycle_now: u64) -> (emitted:
        Result<Vec<Emitted>, HarnessError>)
        requires
            self.current_index < self.tests@.len(),
            cycle_start != u64::MAX ==> cycle_start <= cycle_now,
        ensures
            emitted is Ok <==> complete_fits(
                self.tests@[self.current_index as int],
                result,
                duration_of(cycle_start, cycle_now),
                self.strategy,
            ),
            emitted matches Ok(emits) ==> emits_view(emits@) == complete_emits(
                self.tests@[self.current_index as int],
                result,
                duration_of(cycle_start, cycle_now),
            ),
            emitted is Err ==> emitted == Err::<Vec<Emitted>, HarnessError>(
                HarnessError::CapacityExceeded,
            ),
    {
        let cycle_count: u64 = if cycle_start != u64::MAX {
            cycle_now - cycle_start
        } else {
            0
        };
        let mut emits: Vec<Emitted> = Vec::new();
        match result {
            TestResult::Success => {
                let line = match write_test_success(
                    &self.strategy,
                    self.tests[self.current_index].name.as_str(),
                    cycle_count,
                ) {
                    Ok(line) => line,
                    Err(e) => {
                        return Err(e);
                    },
                };
                emits.push(Emitted { channel: Channel::Debug, text: line });
                emits.push(
                    Emitted { channel: Channel::Console, text: String::from_str("[pass]\n") },
                );
            },
            TestResult::Failure => {},
            TestResult::Ignored => {
                let line = match write_test_ignored(
                    &self.strategy,
                    self.tests[self.current_index].name.as_str(),
                ) {
                    Ok(line) => line,
                    Err(e) => {
                        return Err(e);
                    },
                };
                emits.push(Emitted { channel: Channel::Debug, text: line });
                emits.push(
                    Emitted { channel: Channel::Console, text: String::from_str("[ignored]\n") },
                );
            },
        }
        proof {
            assert(emits_view(emits@) =~= complete_emits(
                self.tests@[self.current_index as int],
                result,
                duration_of(cycle_start, cycle_now),
            ));
        }
        Ok(emits)
    }

    /// The recovery path, entered from the platform's fault handler after a
    /// test body diverged. Operating purely off the cursor: look the faulted
    /// test up (a cursor out of range is a fatal harness error), record the
    /// outcome the expected-fault flag calls for, advance the cursor, and say
    /// whether to resume the loop at the next index or to terminate.
    pub fn handle_panic(&mut self, location: &Option<FaultLocation>, message: &Option<String>) -> (
        result: Result<(Vec<Emitted>, RecoveryAction), HarnessError>)
        requires
            old(self).wf(),
        ensures
            old(self).current_index >= old(self).tests@.len() ==> result == Err::<
                (Vec<Emitted>, RecoveryAction),
                HarnessError,
            >(HarnessError::CursorOutOfRange) && *final(self) == *old(self),
            old(self).current_index < old(self).tests@.len() ==> {
                let t = old(self).tests@[old(self).current_index as int];
                &&& (result is Ok <==> fault_fits(t, *location, *message, old(self).strategy))
                &&& (result matches Ok(pair) ==> {
                    &&& emits_view(pair.0@) == fault_emits(t, *location, *message)
                    &&& pair.1 == (if old(self).current_index + 1 < old(self).tests@.len() {
                        RecoveryAction::Resume {
                            next_index: (old(self).current_index + 1) as usize,
                        }
                    } else {
                        RecoveryAction::Exit { code: ExitCode::Success }
                    })
                    &&& final(self).current_index == old(self).current_index + 1
                    &&& final(self).tests@ == old(self).tests@
                    &&& final(self).config == old(self).config
                    &&& final(self).current_module == old(self).current_module
                    &&& final(self).strategy == old(self).strategy
                    &&& final(self).wf()
                })
                &&& (result is Err ==> *final(self) == *old(self) && result == Err::<
                    (Vec<Emitted>, RecoveryAction),
                    HarnessError,
                >(HarnessError::CapacityExceeded))
            },
    {
        if self.current_index >= self.tests.len() {
            return Err(HarnessError::CursorOutOfRange);
        }
        let idx = self.current_index;
        let loc_text: String = match location {
            Some(l) => match format_location(&self.strategy, l.file.as_str(), l.line) {
                Ok(t) => t,
                Err(e) => {
                    return Err(e);
                },
            },
            None => {
                let mut unknown = RecordBuffer::new_record(&self.strategy);
                if let Err(e) = unknown.push_str("unknown location") {
                    return Err(e);
                }
                proof {
                    assert(unknown@ =~= "unknown location"@);
                }
                unknown.into_string()
            },
        };
        let msg_text: &str = match message {
            Some(m) => m.as_str(),
            None => "no message",
        };
        let mut emits: Vec<Emitted> = Vec::new();
        match self.tests[idx].should_panic {
            ShouldPanic::No => {
                let tag = fail_line(loc_text.as_str(), msg_text);
                emits.push(Emitted { channel: Channel::Console, text: tag });
                let record = match write_test_failure(
                    &self.strategy,
                    self.tests[idx].name.as_str(),
                    loc_text.as_str(),
                    msg_text,
                ) {
                    Ok(r) => r,
                    Err(e) => {
                        return Err(e);
                    },
                };
                emits.push(Emitted { channel: Channel::Debug, text: record });
            },
            ShouldPanic::Yes => {
                let record = match write_test_success(
                    &self.strategy,
                    self.tests[idx].name.as_str(),
                    0,
                ) {
                    Ok(r) => r,
                    Err(e) => {
                        return Err(e);
                    },
                };
                emits.push(Emitted { channel: Channel::Debug, text: record });
                emits.push(
                    Emitted { channel: Channel::Console, text: String::from_str("[pass]\n") },
                );
            },
        }
        proof {
            assert(emits_view(emits@) =~= fault_emits(
                old(self).tests@[idx as int],
                *location,
                *message,
            ));
        }
        let advanced = self.increment_test_index();
        if !advanced {
            return Ok((emits, RecoveryAction::Exit { code: ExitCode::Success }));
        }
        let action = if self.current_index < self.tests.len() {
            RecoveryAction::Resume { next_index: self.current_index }
        } else {
            RecoveryAction::Exit { code: ExitCode::Success }
        };
        Ok((emits, action))
    }

    /// The main loop: announce the run exactly when it starts from the
    /// beginning, then for each test from `start_index` on, start it, record
    /// the outcome its flags and observed behavior call for, and advance the
    /// cursor, continuing past faulted tests; finally terminate with the
    /// success code. Resumption after a fault re-enters here at the next
    /// index with the announcement suppressed.
    pub fn run_tests(&mut self, start_index: usize, behaviors: &Vec<TestBehavior>) -> (result:
        Result<(Vec<Emitted>, ExitCode), HarnessError>)
        requires
            old(self).wf(),
            old(self).current_index == start_index,
            behaviors@.len() == old(self).tests@.len(),
            forall|k: int| start_index <= k < behaviors@.len() ==> behavior_ok(behaviors@[k]),
            old(self).current_module@ == module_before(old(self).tests@, start_index as int),
        ensures
            result is Ok <==> full_run_fits(
                old(self).tests@,
                behaviors@,
                old(self).group(),
                old(self).strategy,
                start_index as int,
            ),
            result matches Ok(pair) ==> {
                &&& emits_view(pair.0@) == full_run_emits(
                    old(self).tests@,
                    behaviors@,
                    old(self).group(),
                    start_index as int,
                )
                &&& pair.1 == ExitCode::Success
                &&& final(self).current_index == old(self).tests@.len()
                &&& final(self).wf()
            },
            result is Err ==> result == Err::<(Vec<Emitted>, ExitCode), HarnessError>(
                HarnessError::CapacityExceeded,
            ),
            final(self).tests@ == old(self).tests@,
            final(self).config == old(self).config,
            final(self).strategy == old(self).strategy,
            final(self).wf(),
            final(self).current_index >= start_index,
    {
        let ghost tests0 = old(self).tests@;
        let ghost group0 = old(self).group();
        let ghost strategy0 = old(self).strategy;
        let mut emits: Vec<Emitted> = Vec::new();
        if start_index == 0 {
            let mut before = match self.before_tests() {
                Ok(v) => v,
                Err(e) => {
                    return Err(e);
                },
            };
            emits.append(&mut before);
        }
        proof {
            assert(emits_view(emits@) + run_emits(tests0, behaviors@, group0, start_index as int)
                =~= full_run_emits(tests0, behaviors@, group0, start_index as int));
        }
        while self.current_index < self.tests.len()
            invariant
                self.wf(),
                start_index <= self.current_index,
                self.tests@ == tests0,
                self.config == old(self).config,
                self.strategy == strategy0,
                behaviors@.len() == tests0.len(),
                group0 == old(self).group(),
                strategy0 == old(self).strategy,
                tests0 == old(self).tests@,
                self.current_module@ == module_before(tests0, self.current_index as int),
                forall|k: int|
                    self.current_index <= k < behaviors@.len() ==> behavior_ok(behaviors@[k]),
                emits_view(emits@) + run_emits(
                    tests0,
                    behaviors@,
                    group0,
                    self.current_index as int,
                ) == full_run_emits(tests0, behaviors@, group0, start_index as int),
                run_fits(tests0, behaviors@, strategy0, start_index as int) <==> run_fits(
                    tests0,
                    behaviors@,
                    strategy0,
                    self.current_index as int,
                ),
            decreases tests0.len() - self.current_index,
        {
            let idx = self.current_index;
            let ghost t = tests0[idx as int];
            let ghost module_prev = self.current_module@;
            let b = &behaviors[idx];
            let cycle_at_start: u64 = match b {
                TestBehavior::Returns { cycle_start, .. } => *cycle_start,
                TestBehavior::Diverges { .. } => 0,
            };
            let (mut started, cycle_start) = self.start_test(cycle_at_start);
            let ghost emits0 = emits@;
            let ghost started0 = started@;
            emits.append(&mut started);
            proof {
                lemma_emits_view_add(emits0, started0);
            }
            let ghost mid = emits@;
            match self.tests[idx].ignore {
                Ignore::Yes => {
                    let mut chunk = match self.complete_test(
                        TestResult::Ignored,
                        cycle_start,
                        cycle_start,
                    ) {
                        Ok(v) => v,
                        Err(e) => {
                            proof {
                                lemma_run_fits_index(
                                    tests0,
                                    behaviors@,
                                    strategy0,
                                    start_index as int,
                                    idx as int,
                                );
                            }
                            return Err(e);
                        },
                    };
                    let ghost chunk0 = chunk@;
                    emits.append(&mut chunk);
                    proof {
                        lemma_emits_view_add(mid, chunk0);
                    }
                    self.increment_test_index();
                },
                Ignore::No => {
                    match b {
                        TestBehavior::Returns { cycle_end, .. } => {
                            let mut chunk = match self.complete_test(
                                TestResult::Success,
                                cycle_start,
                                *cycle_end,
                            ) {
                                Ok(v) => v,
                                Err(e) => {
                                    proof {
                                        lemma_run_fits_index(
                                            tests0,
                                            behaviors@,
                                            strategy0,
                                            start_index as int,
                                            idx as int,
                                        );
                                    }
                                    return Err(e);
                                },
                            };
                            let ghost chunk0 = chunk@;
                            emits.append(&mut chunk);
                            proof {
                                lemma_emits_view_add(mid, chunk0);
                            }
                            self.increment_test_index();
                        },
                        TestBehavior::Diverges { location, message } => {
                            let pair = match self.handle_panic(location, message) {
                                Ok(p) => p,
                                Err(e) => {
                                    proof {
                                        lemma_run_fits_index(
                                            tests0,
                                            behaviors@,
                                            strategy0,
                                            start_index as int,
                                            idx as int,
                                        );
                                    }
                                    return Err(e);
                                },
                            };
                            let (mut chunk, _action) = pair;
                            let ghost chunk0 = chunk@;
                            emits.append(&mut chunk);
                            proof {
                                lemma_emits_view_add(mid, chunk0);
                            }
                        },
                    }
                },
            }
            proof {
                assert(emits_view(emits@) + run_emits(tests0, behaviors@, group0, idx + 1)
                    =~= full_run_emits(tests0, behaviors@, group0, start_index as int));
            }
        }
        let code = self.after_tests();
        proof {
            assert(run_emits(tests0, behaviors@, group0, tests0.len() as int)
                =~= Seq::<(Channel, Seq<char>)>::empty());
            assert(emits_view(emits@) =~= full_run_emits(
                tests0,
                behaviors@,
                group0,
                start_index as int,
            ));
        }
        Ok((emits, code))
    }
}

} // verus!
