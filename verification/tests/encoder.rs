use ktest::EncodingStrategy;
use ktest::print_test_name;
use ktest::replace_all;
use ktest::u64_to_string;
use ktest::HarnessError;
use ktest::output::format_location;
use ktest::output::write_test_failure;
use ktest::output::write_test_group;
use ktest::output::write_test_ignored;
use ktest::output::write_test_names;
use ktest::output::write_test_success;
use ktest::testcase::Ignore;
use ktest::testcase::ShouldPanic;
use ktest::testcase::TestCase;

fn bounded_default() -> EncodingStrategy {
    EncodingStrategy::Bounded { capacity: 1024, large_capacity: 10240 }
}

fn tc(name: &str) -> TestCase {
    TestCase::new(String::from(name), Ignore::No, ShouldPanic::No)
}

#[test]
fn group_record_is_one_line_of_key_value_text() {
    let line = write_test_group(&bounded_default(), "kernel", 3).unwrap();
    assert_eq!(line, r#"{ "test_group": "kernel", "test_count": 3 }"#);
}

#[test]
fn group_record_strips_newlines_and_tabs_from_the_group_name() {
    let line = write_test_group(&bounded_default(), "ker\nnel\t", 12).unwrap();
    assert_eq!(line, r#"{ "test_group": "kernel", "test_count": 12 }"#);
}

#[test]
fn group_record_works_under_the_dynamic_strategy() {
    let line = write_test_group(&EncodingStrategy::Dynamic, "kernel", 0).unwrap();
    assert_eq!(line, r#"{ "test_group": "kernel", "test_count": 0 }"#);
}

#[test]
fn name_manifest_lists_every_test_in_registry_order() {
    let tests = vec![tc("mod_a::t1"), tc("mod_a::t2"), tc("mod_b::t3")];
    let line = write_test_names(&bounded_default(), &tests).unwrap();
    assert_eq!(line, r#"{ "tests": ["mod_a::t1", "mod_a::t2", "mod_b::t3"] }"#);
}

#[test]
fn name_manifest_of_an_empty_registry() {
    let tests: Vec<TestCase> = Vec::new();
    let line = write_test_names(&bounded_default(), &tests).unwrap();
    assert_eq!(line, r#"{ "tests": [] }"#);
}

#[test]
fn success_record_carries_the_cycle_count() {
    let line = write_test_success(&bounded_default(), "mod_a::t1", 50).unwrap();
    assert_eq!(line, r#"{ "test": "mod_a::t1", "result": "ok", "cycle_count": 50}"#);
}

#[test]
fn ignored_record_has_no_cycle_count() {
    let line = write_test_ignored(&bounded_default(), "mod_a::t2").unwrap();
    assert_eq!(line, r#"{ "test": "mod_a::t2", "result": "ignored"}"#);
}

#[test]
fn failure_record_normalizes_backslash_path_separators() {
    let line =
        write_test_failure(&bounded_default(), "t", "src\\lib.rs:10", "boom").unwrap();
    assert_eq!(
        line,
        r#"{ "test": "t", "result": "fail", "cycle_count": 0, "location": "src/lib.rs:10", "message": "boom"}"#
    );
}

#[test]
fn oversized_record_is_a_fatal_encoding_error_not_a_truncation() {
    let long_name = "a".repeat(1100);
    let result = write_test_success(&bounded_default(), &long_name, 1);
    assert_eq!(result, Err(HarnessError::CapacityExceeded));
}

#[test]
fn oversized_record_fits_under_the_dynamic_strategy() {
    let long_name = "a".repeat(1100);
    let line = write_test_success(&EncodingStrategy::Dynamic, &long_name, 1).unwrap();
    assert!(line.contains(&long_name));
}

#[test]
fn oversized_manifest_entry_is_a_fatal_encoding_error() {
    let tests = vec![tc(&"b".repeat(1100))];
    let result = write_test_names(&bounded_default(), &tests);
    assert_eq!(result, Err(HarnessError::CapacityExceeded));
}

#[test]
fn manifest_exceeding_the_large_capacity_is_a_fatal_encoding_error() {
    // 20 entries of about 600 characters each overflow the 10240-character
    // manifest buffer although every single entry fits the record buffer.
    let name = "c".repeat(600);
    let tests: Vec<TestCase> = (0..20).map(|_| tc(&name)).collect();
    let result = write_test_names(&bounded_default(), &tests);
    assert_eq!(result, Err(HarnessError::CapacityExceeded));
}

#[test]
fn capacity_boundary_is_exact() {
    // the raw group record for a one-character group and a one-digit count
    // is exactly 38 characters long
    let fits = EncodingStrategy::Bounded { capacity: 38, large_capacity: 380 };
    let line = write_test_group(&fits, "g", 3).unwrap();
    assert_eq!(line, r#"{ "test_group": "g", "test_count": 3 }"#);
    let short = EncodingStrategy::Bounded { capacity: 37, large_capacity: 370 };
    assert_eq!(write_test_group(&short, "g", 3), Err(HarnessError::CapacityExceeded));
}

#[test]
fn replace_all_takes_occurrences_leftmost_without_overlap() {
    assert_eq!(replace_all("aaaa", "aa", "x"), "xx");
    assert_eq!(replace_all("a\nb\nc", "\n", ""), "abc");
    assert_eq!(replace_all("left\\right\\end", "\\", "/"), "left/right/end");
    assert_eq!(replace_all("none", "zz", "y"), "none");
}

#[test]
fn four_space_indent_strips_to_a_single_space() {
    // The record templates indent by four spaces; stripping three-space runs
    // leaves exactly one, which is how the rendered records get their
    // key-value spacing.
    assert_eq!(replace_all("{    \"k\": 1}", "   ", ""), "{ \"k\": 1}");
}

#[test]
fn decimal_rendering_matches_the_usual_notation() {
    assert_eq!(u64_to_string(0), "0");
    assert_eq!(u64_to_string(7), "7");
    assert_eq!(u64_to_string(10), "10");
    assert_eq!(u64_to_string(1234567890123), "1234567890123");
    assert_eq!(u64_to_string(u64::MAX), "18446744073709551615");
}

#[test]
fn short_test_names_are_padded_to_the_result_column() {
    assert_eq!(print_test_name("abc", 6), "abc   ");
    assert_eq!(print_test_name("mod_a::t1", 58), format!("{:<58}", "mod_a::t1"));
}

#[test]
fn long_test_names_get_a_single_trailing_blank() {
    assert_eq!(print_test_name("abcdef", 3), "abcdef ");
    assert_eq!(print_test_name("abc", 3), "abc ");
}

#[test]
fn location_rendering_joins_file_and_line() {
    let text = format_location(&bounded_default(), "src/lib.rs", 42).unwrap();
    assert_eq!(text, "src/lib.rs:42");
}
