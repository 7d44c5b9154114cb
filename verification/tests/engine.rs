use ktest::Channel;
use ktest::Emitted;
use ktest::EncodingStrategy;
use ktest::ExitCode;
use ktest::FaultLocation;
use ktest::HarnessError;
use ktest::KernelTestRunner;
use ktest::RecoveryAction;
use ktest::TestBehavior;
use ktest::TestResult;
use ktest::set_test_group;
use ktest::testcase::Ignore;
use ktest::testcase::ShouldPanic;
use ktest::testcase::TestCase;

fn bounded_default() -> EncodingStrategy {
    EncodingStrategy::Bounded { capacity: 1024, large_capacity: 10240 }
}

fn tc(name: &str, ignore: Ignore, should_panic: ShouldPanic) -> TestCase {
    TestCase::new(String::from(name), ignore, should_panic)
}

fn body_returns(cycle_start: u64, cycle_end: u64) -> TestBehavior {
    TestBehavior::Returns { cycle_start, cycle_end }
}

fn diverges(message: &str) -> TestBehavior {
    TestBehavior::Diverges { location: None, message: Some(String::from(message)) }
}

fn debug_lines(emits: &[Emitted]) -> Vec<String> {
    emits.iter().filter(|e| e.channel == Channel::Debug).map(|e| e.text.clone()).collect()
}

fn console_lines(emits: &[Emitted]) -> Vec<String> {
    emits.iter().filter(|e| e.channel == Channel::Console).map(|e| e.text.clone()).collect()
}

fn banner_separator() -> String {
    format!("\n{}\n", "#".repeat(64))
}

fn banner_footer() -> String {
    format!("{}\n", "-".repeat(64))
}

#[test]
fn end_to_end_example_run() {
    let tests = vec![
        tc("mod_a::t1", Ignore::No, ShouldPanic::No),
        tc("mod_a::t2", Ignore::Yes, ShouldPanic::No),
        tc("mod_b::t3", Ignore::No, ShouldPanic::Yes),
    ];
    let behaviors = vec![body_returns(100, 150), body_returns(0, 0), diverges("expected")];
    let mut runner = KernelTestRunner::new(tests, bounded_default());
    let (emits, code) = runner.run_tests(0, &behaviors).unwrap();

    assert_eq!(code, ExitCode::Success);
    assert_eq!(runner.current_index, 3);

    let expected: Vec<(Channel, String)> = vec![
        (Channel::Debug, r#"{ "test_group": "default", "test_count": 3 }"#.into()),
        (Channel::Debug, r#"{ "tests": ["mod_a::t1", "mod_a::t2", "mod_b::t3"] }"#.into()),
        (Channel::Console, banner_separator()),
        (Channel::Console, "# Running 2 default tests for module: mod_a\n".into()),
        (Channel::Console, banner_footer()),
        (Channel::Console, format!("{:<58}", "mod_a::t1")),
        (Channel::Debug, r#"{ "test": "mod_a::t1", "result": "ok", "cycle_count": 50}"#.into()),
        (Channel::Console, "[pass]\n".into()),
        (Channel::Console, format!("{:<58}", "mod_a::t2")),
        (Channel::Debug, r#"{ "test": "mod_a::t2", "result": "ignored"}"#.into()),
        (Channel::Console, "[ignored]\n".into()),
        (Channel::Console, banner_separator()),
        (Channel::Console, "# Running 1 default tests for module: mod_b\n".into()),
        (Channel::Console, banner_footer()),
        (Channel::Console, format!("{:<58}", "mod_b::t3")),
        (Channel::Debug, r#"{ "test": "mod_b::t3", "result": "ok", "cycle_count": 0}"#.into()),
        (Channel::Console, "[pass]\n".into()),
    ];
    let got: Vec<(Channel, String)> =
        emits.iter().map(|e| (e.channel, e.text.clone())).collect();
    assert_eq!(got, expected);
}

#[test]
fn named_group_appears_in_announcement_and_banners() {
    let tests = vec![tc("m::t", Ignore::No, ShouldPanic::No)];
    let behaviors = vec![body_returns(0, 7)];
    let mut runner = KernelTestRunner::new(tests, bounded_default());
    set_test_group(&mut runner.config, "kernel");
    let (emits, _) = runner.run_tests(0, &behaviors).unwrap();
    assert_eq!(debug_lines(&emits)[0], r#"{ "test_group": "kernel", "test_count": 1 }"#);
    assert_eq!(console_lines(&emits)[1], "# Running 1 kernel tests for module: m\n");
}

#[test]
fn empty_registry_still_announces_and_exits_successfully() {
    let tests: Vec<TestCase> = Vec::new();
    let behaviors: Vec<TestBehavior> = Vec::new();
    let mut runner = KernelTestRunner::new(tests, bounded_default());
    let (emits, code) = runner.run_tests(0, &behaviors).unwrap();
    assert_eq!(code, ExitCode::Success);
    assert_eq!(runner.current_index, 0);
    let debug = debug_lines(&emits);
    assert_eq!(debug.len(), 2);
    assert_eq!(debug[0], r#"{ "test_group": "default", "test_count": 0 }"#);
    assert_eq!(debug[1], r#"{ "tests": [] }"#);
    assert_eq!(console_lines(&emits).len(), 0);
}

#[test]
fn unexpected_fault_in_the_middle_still_processes_the_rest() {
    let tests: Vec<TestCase> =
        (0..5).map(|i| tc(&format!("m::t{}", i), Ignore::No, ShouldPanic::No)).collect();
    let behaviors = vec![
        body_returns(0, 1),
        body_returns(0, 2),
        diverges("boom"),
        body_returns(0, 4),
        body_returns(0, 5),
    ];
    let mut runner = KernelTestRunner::new(tests, bounded_default());
    let (emits, code) = runner.run_tests(0, &behaviors).unwrap();
    assert_eq!(code, ExitCode::Success);
    assert_eq!(runner.current_index, 5);

    let debug = debug_lines(&emits);
    // one announcement, one manifest, and exactly five result records
    assert_eq!(debug.len(), 7);
    for (i, line) in debug[2..].iter().enumerate() {
        assert!(line.contains(&format!("\"m::t{}\"", i)));
        if i == 2 {
            assert!(line.contains(r#""result": "fail""#));
            assert!(line.contains(r#""message": "boom""#));
        } else {
            assert!(line.contains(r#""result": "ok""#));
        }
    }
}

#[test]
fn ignored_test_yields_the_ignored_record_whatever_its_body_would_do() {
    let tests = vec![tc("m::skipped", Ignore::Yes, ShouldPanic::No)];
    // even a diverging body leaves the record untouched: it is never invoked
    let behaviors = vec![diverges("never runs")];
    let mut runner = KernelTestRunner::new(tests, bounded_default());
    let (emits, _) = runner.run_tests(0, &behaviors).unwrap();
    let debug = debug_lines(&emits);
    assert_eq!(debug[2], r#"{ "test": "m::skipped", "result": "ignored"}"#);
    assert_eq!(console_lines(&emits).last().unwrap(), "[ignored]\n");
}

#[test]
fn expected_fault_that_diverges_counts_as_success_with_zero_cycles() {
    let tests = vec![tc("m::panics", Ignore::No, ShouldPanic::Yes)];
    let behaviors = vec![diverges("intended")];
    let mut runner = KernelTestRunner::new(tests, bounded_default());
    let (emits, _) = runner.run_tests(0, &behaviors).unwrap();
    assert_eq!(
        debug_lines(&emits)[2],
        r#"{ "test": "m::panics", "result": "ok", "cycle_count": 0}"#
    );
}

#[test]
fn expected_fault_that_returns_emits_no_failure_record() {
    // current behavior: a returning body is recorded as ok even though a
    // fault was expected; no explicit failure record is written
    let tests = vec![tc("m::panics", Ignore::No, ShouldPanic::Yes)];
    let behaviors = vec![body_returns(10, 30)];
    let mut runner = KernelTestRunner::new(tests, bounded_default());
    let (emits, _) = runner.run_tests(0, &behaviors).unwrap();
    assert_eq!(
        debug_lines(&emits)[2],
        r#"{ "test": "m::panics", "result": "ok", "cycle_count": 20}"#
    );
    assert!(!emits.iter().any(|e| e.text.contains("fail")));
}

#[test]
fn resumed_run_does_not_repeat_the_announcement() {
    let tests = vec![
        tc("mod_a::t1", Ignore::No, ShouldPanic::No),
        tc("mod_a::t2", Ignore::No, ShouldPanic::No),
    ];
    let behaviors = vec![body_returns(0, 1), body_returns(0, 2)];
    let mut runner = KernelTestRunner::new(tests, bounded_default());
    runner.current_index = 1;
    runner.current_module = String::from("mod_a");
    let (emits, code) = runner.run_tests(1, &behaviors).unwrap();
    assert_eq!(code, ExitCode::Success);
    assert_eq!(debug_lines(&emits).len(), 1);
    // same module as the test before the resumption point: no banner either
    assert_eq!(console_lines(&emits).len(), 2);
    assert_eq!(console_lines(&emits)[0], format!("{:<58}", "mod_a::t2"));
}

#[test]
fn fault_location_is_normalized_in_the_record_but_raw_on_the_console() {
    let tests = vec![tc("m::t", Ignore::No, ShouldPanic::No)];
    let behaviors = vec![TestBehavior::Diverges {
        location: Some(FaultLocation { file: String::from("src\\x.rs"), line: 7 }),
        message: Some(String::from("boom")),
    }];
    let mut runner = KernelTestRunner::new(tests, bounded_default());
    let (emits, _) = runner.run_tests(0, &behaviors).unwrap();
    let console = console_lines(&emits);
    assert_eq!(console.last().unwrap(), "[fail] @ src\\x.rs:7: boom\n");
    assert!(debug_lines(&emits)[2].contains(r#""location": "src/x.rs:7""#));
}

#[test]
fn fault_without_metadata_uses_the_placeholders() {
    let tests = vec![tc("m::t", Ignore::No, ShouldPanic::No)];
    let behaviors = vec![TestBehavior::Diverges { location: None, message: None }];
    let mut runner = KernelTestRunner::new(tests, bounded_default());
    let (emits, _) = runner.run_tests(0, &behaviors).unwrap();
    assert_eq!(console_lines(&emits).last().unwrap(), "[fail] @ unknown location: no message\n");
    assert!(debug_lines(&emits)[2].contains(r#""location": "unknown location""#));
    assert!(debug_lines(&emits)[2].contains(r#""message": "no message""#));
}

#[test]
fn recovery_resumes_at_the_next_index_or_exits_after_the_last() {
    let tests = vec![
        tc("m::t1", Ignore::No, ShouldPanic::No),
        tc("m::t2", Ignore::No, ShouldPanic::No),
    ];
    let mut runner = KernelTestRunner::new(tests, bounded_default());
    let (_, action) = runner.handle_panic(&None, &None).unwrap();
    assert_eq!(action, RecoveryAction::Resume { next_index: 1 });
    assert_eq!(runner.current_index, 1);
    let (_, action) = runner.handle_panic(&None, &None).unwrap();
    assert_eq!(action, RecoveryAction::Exit { code: ExitCode::Success });
    assert_eq!(runner.current_index, 2);
}

#[test]
fn recovery_with_the_cursor_out_of_range_is_a_fatal_harness_error() {
    let tests = vec![tc("m::t1", Ignore::No, ShouldPanic::No)];
    let mut runner = KernelTestRunner::new(tests, bounded_default());
    runner.current_index = 1;
    let result = runner.handle_panic(&None, &None);
    assert_eq!(result.unwrap_err(), HarnessError::CursorOutOfRange);
}

#[test]
fn oversized_record_aborts_the_run_loudly() {
    let long_name = format!("m::{}", "x".repeat(1100));
    let tests = vec![
        tc("m::ok", Ignore::No, ShouldPanic::No),
        tc(&long_name, Ignore::No, ShouldPanic::No),
    ];
    let behaviors = vec![body_returns(0, 1), body_returns(0, 2)];
    let mut runner = KernelTestRunner::new(tests, bounded_default());
    let result = runner.run_tests(0, &behaviors);
    assert_eq!(result.unwrap_err(), HarnessError::CapacityExceeded);
}

#[test]
fn the_dynamic_strategy_accepts_what_the_bounded_one_refuses() {
    let long_name = format!("m::{}", "x".repeat(1100));
    let tests = vec![tc(&long_name, Ignore::No, ShouldPanic::No)];
    let behaviors = vec![body_returns(0, 1)];
    let mut runner = KernelTestRunner::new(tests, EncodingStrategy::Dynamic);
    let (emits, code) = runner.run_tests(0, &behaviors).unwrap();
    assert_eq!(code, ExitCode::Success);
    assert_eq!(debug_lines(&emits).len(), 3);
}

#[test]
fn cursor_advances_by_one_per_completed_or_faulted_test() {
    let tests = vec![
        tc("m::t1", Ignore::No, ShouldPanic::No),
        tc("m::t2", Ignore::Yes, ShouldPanic::No),
        tc("m::t3", Ignore::No, ShouldPanic::No),
    ];
    let mut runner = KernelTestRunner::new(tests, bounded_default());
    assert_eq!(runner.current_index, 0);
    let (_, cycle_start) = runner.start_test(11);
    assert_eq!(cycle_start, 11);
    assert_eq!(runner.current_index, 0);
    runner.complete_test(TestResult::Success, 11, 25).unwrap();
    assert!(runner.increment_test_index());
    assert_eq!(runner.current_index, 1);
    runner.start_test(30);
    runner.complete_test(TestResult::Ignored, 30, 30).unwrap();
    assert!(runner.increment_test_index());
    assert_eq!(runner.current_index, 2);
    runner.start_test(40);
    runner.handle_panic(&None, &None).unwrap();
    assert_eq!(runner.current_index, 3);
    assert!(!runner.increment_test_index());
    assert_eq!(runner.current_index, 3);
}

#[test]
fn a_test_without_module_runs_under_the_placeholder_banner() {
    let tests = vec![tc("plain", Ignore::No, ShouldPanic::No)];
    let behaviors = vec![body_returns(0, 1)];
    let mut runner = KernelTestRunner::new(tests, bounded_default());
    let (emits, _) = runner.run_tests(0, &behaviors).unwrap();
    // the banner names the placeholder module; the registry scan matches
    // modules by their real (empty) name, so it finds none
    assert_eq!(
        console_lines(&emits)[1],
        "# Running 0 default tests for module: unknown_module\n"
    );
}

#[test]
fn exit_codes_are_the_emulator_control_words() {
    assert_eq!(ExitCode::Success.code(), 0x10);
    assert_eq!(ExitCode::_Failed.code(), 0x11);
}
