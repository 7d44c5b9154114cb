//! The engine's run-level guarantees, stated and proved over the run
//! transcript that `KernelTestRunner::run_tests` is specified against: one
//! record per test in registry order, module banners exactly once per
//! contiguous same-module block, ignored tests untouched, and the
//! expected-fault policy.

use vstd::prelude::*;

use crate::buffer::EncodingStrategy;
use crate::output::group_record_chars;
use crate::output::ignored_line_chars;
use crate::output::ignored_record_chars;
use crate::output::failure_record_chars;
use crate::output::manifest_chars;
use crate::output::names_of;
use crate::output::padded_name_chars;
use crate::output::pass_line_chars;
use crate::output::success_record_chars;
use crate::runner::Channel;
use crate::runner::RESULT_COLUMN;
use crate::runner::TestBehavior;
use crate::runner::banner_emits;
use crate::runner::before_emits;
use crate::runner::duration_of;
use crate::runner::full_run_emits;
use crate::runner::loc_chars_of;
use crate::runner::module_before;
use crate::runner::msg_chars_of;
use crate::runner::full_run_fits;
use crate::runner::result_emits;
use crate::runner::run_emits;
use crate::runner::run_fits;
use crate::runner::start_emits_from;
use crate::runner::test_emits;
use crate::testcase::TestCase;
use crate::testcase::module_label_chars;

verus! {

/// The records of the debug channel, in order, with the console pieces
/// filtered out.
pub open spec fn debug_texts(emits: Seq<(Channel, Seq<char>)>) -> Seq<Seq<char>>
    decreases emits.len(),
{
    if emits.len() == 0 {
        Seq::empty()
    } else {
        (if emits[0].0 is Debug {
            seq![emits[0].1]
        } else {
            Seq::empty()
        }) + debug_texts(emits.skip(1))
    }
}

/// Filtering the debug channel distributes over concatenation.
pub proof fn lemma_debug_texts_add(a: Seq<(Channel, Seq<char>)>, b: Seq<(Channel, Seq<char>)>)
    ensures
        debug_texts(a + b) == debug_texts(a) + debug_texts(b),
    decreases a.len(),
{
    if a.len() == 0 {
        assert(a + b =~= b);
        assert(debug_texts(a) + debug_texts(b) =~= debug_texts(b));
    } else {
        lemma_debug_texts_add(a.skip(1), b);
        assert((a + b).skip(1) =~= a.skip(1) + b);
        assert((a + b)[0] == a[0]);
        assert(debug_texts(a + b) =~= debug_texts(a) + debug_texts(b));
    }
}

/// A console-only stretch of output contributes nothing to the debug channel.
pub proof fn lemma_debug_texts_console_only(emits: Seq<(Channel, Seq<char>)>)
    requires
        forall|k: int| 0 <= k < emits.len() ==> emits[k].0 is Console,
    ensures
        debug_texts(emits) == Seq::<Seq<char>>::empty(),
    decreases emits.len(),
{
    if emits.len() > 0 {
        lemma_debug_texts_console_only(emits.skip(1));
        assert(debug_texts(emits) =~= Seq::<Seq<char>>::empty());
    }
}

/// The single debug record a non-skipped or skipped test contributes, as
/// decided by its flags and its observed behavior.
pub open spec fn record_text(t: TestCase, b: TestBehavior) -> Seq<char> {
    if t.ignore is Yes {
        ignored_record_chars(t.name@)
    } else {
        match b {
            TestBehavior::Returns { cycle_start, cycle_end } => success_record_chars(
                t.name@,
                duration_of(cycle_start, cycle_end),
            ),
            TestBehavior::Diverges { location, message } => if t.should_panic is Yes {
                success_record_chars(t.name@, 0)
            } else {
                failure_record_chars(t.name@, loc_chars_of(location), msg_chars_of(message))
            },
        }
    }
}

/// What a two-piece stretch of output contributes to the debug channel.
pub proof fn lemma_debug_texts_pair(x: (Channel, Seq<char>), y: (Channel, Seq<char>))
    ensures
        debug_texts(seq![x, y]) == (if x.0 is Debug {
            seq![x.1]
        } else {
            Seq::<Seq<char>>::empty()
        }) + (if y.0 is Debug {
            seq![y.1]
        } else {
            Seq::<Seq<char>>::empty()
        }),
{
    let e = seq![x, y];
    assert(e.skip(1) =~= seq![y]);
    assert(seq![y].skip(1) =~= Seq::<(Channel, Seq<char>)>::empty());
    assert(debug_texts(Seq::<(Channel, Seq<char>)>::empty()) == Seq::<Seq<char>>::empty());
    assert(debug_texts(seq![y]) =~= (if y.0 is Debug {
        seq![y.1]
    } else {
        Seq::<Seq<char>>::empty()
    }));
    assert(debug_texts(e) =~= (if x.0 is Debug {
        seq![x.1]
    } else {
        Seq::<Seq<char>>::empty()
    }) + (if y.0 is Debug {
        seq![y.1]
    } else {
        Seq::<Seq<char>>::empty()
    }));
}

/// Each test's output carries exactly one debug record, its result record.
pub proof fn lemma_result_emits_one_record(t: TestCase, b: TestBehavior)
    ensures
        debug_texts(result_emits(t, b)) == seq![record_text(t, b)],
{
    let e = result_emits(t, b);
    assert(e.len() == 2);
    assert(e =~= seq![e[0], e[1]]);
    lemma_debug_texts_pair(e[0], e[1]);
    assert(debug_texts(e) =~= seq![record_text(t, b)]);
}

/// The banner and the padded name line are console output only.
pub proof fn lemma_start_emits_no_record(
    tests: Seq<TestCase>,
    group: Seq<char>,
    module_prev: Seq<char>,
    i: int,
)
    requires
        0 <= i < tests.len(),
    ensures
        debug_texts(start_emits_from(tests, group, module_prev, i)) == Seq::<Seq<char>>::empty(),
{
    lemma_debug_texts_console_only(start_emits_from(tests, group, module_prev, i));
}

/// The tests from index `i` on contribute exactly one debug record each, in
/// registry order.
pub proof fn lemma_run_records(
    tests: Seq<TestCase>,
    behaviors: Seq<TestBehavior>,
    group: Seq<char>,
    i: int,
)
    requires
        behaviors.len() == tests.len(),
        0 <= i <= tests.len(),
    ensures
        debug_texts(run_emits(tests, behaviors, group, i)) == Seq::new(
            (tests.len() - i) as nat,
            |j: int| record_text(tests[i + j], behaviors[i + j]),
        ),
    decreases tests.len() - i,
{
    if i == tests.len() {
        assert(debug_texts(run_emits(tests, behaviors, group, i)) =~= Seq::new(
            (tests.len() - i) as nat,
            |j: int| record_text(tests[i + j], behaviors[i + j]),
        ));
    } else {
        lemma_run_records(tests, behaviors, group, i + 1);
        lemma_debug_texts_add(
            test_emits(tests, behaviors, group, i),
            run_emits(tests, behaviors, group, i + 1),
        );
        lemma_debug_texts_add(
            start_emits_from(tests, group, module_before(tests, i), i),
            result_emits(tests[i], behaviors[i]),
        );
        lemma_start_emits_no_record(tests, group, module_before(tests, i), i);
        lemma_result_emits_one_record(tests[i], behaviors[i]);
        assert(debug_texts(run_emits(tests, behaviors, group, i)) =~= Seq::new(
            (tests.len() - i) as nat,
            |j: int| record_text(tests[i + j], behaviors[i + j]),
        ));
    }
}

/// For every registry size, a full run writes on the debug channel exactly
/// one group announcement, exactly one name manifest, and exactly one result
/// record per registered test — ignored and faulted tests included — in
/// registry order.
pub proof fn lemma_one_record_per_test(
    tests: Seq<TestCase>,
    behaviors: Seq<TestBehavior>,
    group: Seq<char>,
)
    requires
        behaviors.len() == tests.len(),
    ensures
        debug_texts(full_run_emits(tests, behaviors, group, 0)) == seq![
            group_record_chars(group, tests.len()),
            manifest_chars(names_of(tests)),
        ] + Seq::new(tests.len(), |j: int| record_text(tests[j], behaviors[j])),
{
    lemma_debug_texts_add(before_emits(tests, group), run_emits(tests, behaviors, group, 0));
    let be = before_emits(tests, group);
    assert(be =~= seq![be[0], be[1]]);
    lemma_debug_texts_pair(be[0], be[1]);
    assert(debug_texts(be) =~= seq![
        group_record_chars(group, tests.len()),
        manifest_chars(names_of(tests)),
    ]);
    lemma_run_records(tests, behaviors, group, 0);
    assert(Seq::new(tests.len(), |j: int| record_text(tests[0 + j], behaviors[0 + j])) =~= Seq::new(
        tests.len(),
        |j: int| record_text(tests[j], behaviors[j]),
    ));
    assert(debug_texts(full_run_emits(tests, behaviors, group, 0)) =~= seq![
        group_record_chars(group, tests.len()),
        manifest_chars(names_of(tests)),
    ] + Seq::new(tests.len(), |j: int| record_text(tests[j], behaviors[j])));
}

/// Module headers are emitted exactly once per maximal contiguous block of
/// same-module tests in a full run: the banner opens the block's first test,
/// and no later test of the block repeats it. The one exception is a block
/// that opens the run with a module label equal to the initial empty marker,
/// which emits no banner at all.
pub proof fn lemma_module_header_once_per_block(
    tests: Seq<TestCase>,
    behaviors: Seq<TestBehavior>,
    group: Seq<char>,
    i: int,
    j: int,
)
    requires
        behaviors.len() == tests.len(),
        0 <= i <= j < tests.len(),
        i == 0 || module_label_chars(tests[i - 1].name@) != module_label_chars(tests[i].name@),
        forall|k: int|
            i <= k <= j ==> module_label_chars(tests[k].name@) == module_label_chars(
                tests[i].name@,
            ),
    ensures
        test_emits(tests, behaviors, group, i) == (if i == 0 && module_label_chars(tests[0].name@)
            == Seq::<char>::empty() {
            Seq::<(Channel, Seq<char>)>::empty()
        } else {
            banner_emits(tests, group, i)
        }) + seq![(Channel::Console, padded_name_chars(tests[i].name@, RESULT_COLUMN as nat))] + result_emits(
            tests[i],
            behaviors[i],
        ),
        forall|k: int|
            i < k <= j ==> test_emits(tests, behaviors, group, k) == seq![
                (Channel::Console, padded_name_chars(tests[k].name@, RESULT_COLUMN as nat)),
            ] + result_emits(tests[k], behaviors[k]),
{
    assert(test_emits(tests, behaviors, group, i) =~= (if i == 0 && module_label_chars(
        tests[0].name@,
    ) == Seq::<char>::empty() {
        Seq::<(Channel, Seq<char>)>::empty()
    } else {
        banner_emits(tests, group, i)
    }) + seq![(Channel::Console, padded_name_chars(tests[i].name@, RESULT_COLUMN as nat))] + result_emits(
        tests[i],
        behaviors[i],
    ));
    assert forall|k: int| i < k <= j implies test_emits(tests, behaviors, group, k) == seq![
        (Channel::Console, padded_name_chars(tests[k].name@, RESULT_COLUMN as nat)),
    ] + result_emits(tests[k], behaviors[k]) by {
        assert(module_label_chars(tests[k - 1].name@) == module_label_chars(tests[k].name@));
        assert(module_before(tests, k) == module_label_chars(tests[k].name@));
        assert(test_emits(tests, behaviors, group, k) =~= seq![
            (Channel::Console, padded_name_chars(tests[k].name@, RESULT_COLUMN as nat)),
        ] + result_emits(tests[k], behaviors[k]));
    }
}

/// Under the dynamic strategy no record can exceed a capacity, so every run
/// is owed success: a run can only fail loudly where a bounded buffer is in
/// play.
pub proof fn lemma_dynamic_strategy_always_fits(
    tests: Seq<TestCase>,
    behaviors: Seq<TestBehavior>,
    group: Seq<char>,
    strategy: EncodingStrategy,
    start: int,
)
    requires
        strategy is Dynamic,
    ensures
        full_run_fits(tests, behaviors, group, strategy, start),
{
    lemma_dynamic_run_fits(tests, behaviors, strategy, start);
}

/// Under the dynamic strategy every test's record fits.
proof fn lemma_dynamic_run_fits(
    tests: Seq<TestCase>,
    behaviors: Seq<TestBehavior>,
    strategy: EncodingStrategy,
    i: int,
)
    requires
        strategy is Dynamic,
    ensures
        run_fits(tests, behaviors, strategy, i),
    decreases tests.len() - i,
{
    if 0 <= i < tests.len() {
        lemma_dynamic_run_fits(tests, behaviors, strategy, i + 1);
    }
}

/// A test marked ignored always yields the ignored record, with no cycle
/// count, and its output is the same whatever its body would have done: the
/// body is never consulted.
pub proof fn lemma_ignored_test(t: TestCase, b1: TestBehavior, b2: TestBehavior)
    requires
        t.ignore is Yes,
    ensures
        result_emits(t, b1) == seq![
            (Channel::Debug, ignored_record_chars(t.name@)),
            (Channel::Console, ignored_line_chars()),
        ],
        result_emits(t, b1) == result_emits(t, b2),
{
}

/// A test marked expected-fault yields a success record when its body
/// diverges, with a zero cycle count; and, per current behavior, when its
/// body merely returns it yields a success record too — no explicit failure
/// record is written for the missing fault.
pub proof fn lemma_expected_fault(
    t: TestCase,
    location: Option<crate::runner::FaultLocation>,
    message: Option<String>,
    cycle_start: u64,
    cycle_end: u64,
)
    requires
        t.ignore is No,
        t.should_panic is Yes,
    ensures
        result_emits(t, TestBehavior::Diverges { location, message }) == seq![
            (Channel::Debug, success_record_chars(t.name@, 0)),
            (Channel::Console, pass_line_chars()),
        ],
        result_emits(t, TestBehavior::Returns { cycle_start, cycle_end }) == seq![
            (Channel::Debug, success_record_chars(t.name@, duration_of(cycle_start, cycle_end))),
            (Channel::Console, pass_line_chars()),
        ],
{
}

} // verus!
