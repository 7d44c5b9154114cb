use ktest::GroupConfig;
use ktest::get_test_group;
use ktest::init_harness;
use ktest::set_test_group;
use ktest::testcase::Ignore;
use ktest::testcase::ShouldPanic;
use ktest::testcase::TestCase;
use ktest::testcase::count_by_module;

fn tc(name: &str) -> TestCase {
    TestCase::new(String::from(name), Ignore::No, ShouldPanic::No)
}

#[test]
fn module_path_splits_on_the_last_separator() {
    assert_eq!(tc("my_crate::tests::my_test").modules(), Some(String::from("my_crate::tests")));
    assert_eq!(tc("mod_a::t1").modules(), Some(String::from("mod_a")));
}

#[test]
fn a_name_without_separator_has_no_module() {
    assert_eq!(tc("standalone").modules(), None);
    assert_eq!(tc("").modules(), None);
    assert_eq!(tc(":single:colon:").modules(), None);
}

#[test]
fn function_name_is_the_remainder_after_the_last_separator() {
    assert_eq!(tc("my_crate::tests::my_test").function_name(), "my_test");
    assert_eq!(tc("standalone").function_name(), "standalone");
    assert_eq!(tc("mod_a::").function_name(), "");
    assert_eq!(tc("::start").function_name(), "start");
}

#[test]
fn leading_separator_yields_an_empty_module() {
    assert_eq!(tc("::start").modules(), Some(String::from("")));
}

#[test]
fn module_label_falls_back_to_the_placeholder() {
    assert_eq!(tc("mod_a::t1").module_label(), "mod_a");
    assert_eq!(tc("standalone").module_label(), "unknown_module");
}

#[test]
fn counting_by_module_scans_the_whole_registry() {
    let tests = vec![tc("mod_a::t1"), tc("mod_b::t2"), tc("mod_a::t3"), tc("plain")];
    assert_eq!(count_by_module(&tests, "mod_a"), 2);
    assert_eq!(count_by_module(&tests, "mod_b"), 1);
    assert_eq!(count_by_module(&tests, "mod_c"), 0);
    // a test without module counts under the empty name, not the placeholder
    assert_eq!(count_by_module(&tests, ""), 1);
    assert_eq!(count_by_module(&tests, "unknown_module"), 0);
}

#[test]
fn group_configuration_is_write_once() {
    let mut config = GroupConfig::new();
    assert_eq!(get_test_group(&config), None);
    set_test_group(&mut config, "first");
    set_test_group(&mut config, "second");
    assert_eq!(get_test_group(&config), Some(&String::from("first")));
}

#[test]
fn init_harness_sets_the_group_like_the_setter() {
    let mut config = GroupConfig::new();
    init_harness(&mut config, "library");
    assert_eq!(get_test_group(&config), Some(&String::from("library")));
    init_harness(&mut config, "other");
    assert_eq!(get_test_group(&config), Some(&String::from("library")));
}
