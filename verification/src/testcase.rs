//! The test-case contract: a handle in the registry, with its qualified name
//! and the two policy flags. The module path is derived from the qualified
//! name by splitting on the last `::` separator, never stored.

use vstd::prelude::*;
use vstd::string::StrSliceExecFns;
use vstd::string::StringExecFns;

verus! {

/// Whether to skip the test without running its body.
#[derive(Clone, Copy, Debug, PartialEq, Eq, Structural)]
pub enum Ignore {
    No,
    Yes,
}

/// Whether the test body is expected to diverge via a fault: if so, a
/// diverging body counts as success and pass/fail interpretation is inverted.
#[derive(Clone, Copy, Debug, PartialEq, Eq, Structural)]
pub enum ShouldPanic {
    No,
    Yes,
}

/// Whether a `::` separator starts at position `q` of the name.
pub open spec fn is_sep_at(s: Seq<char>, q: int) -> bool {
    0 <= q && q + 2 <= s.len() && s[q] == ':' && s[q + 1] == ':'
}

/// The start of the last `::` separator in the name, or -1 if there is none.
pub open spec fn sep_index(s: Seq<char>) -> int
    decreases s.len(),
{
    if s.len() < 2 {
        -1
    } else if s[s.len() - 2] == ':' && s[s.len() - 1] == ':' {
        s.len() - 2
    } else {
        sep_index(s.drop_last())
    }
}

/// `sep_index` points at the last separator: it is a separator position and
/// no later position is one; when it is -1, the name has no separator at all.
pub proof fn lemma_sep_index_is_last(s: Seq<char>)
    ensures
        sep_index(s) >= 0 ==> is_sep_at(s, sep_index(s)),
        sep_index(s) >= 0 ==> forall|q: int| sep_index(s) < q ==> !is_sep_at(s, q),
        sep_index(s) < 0 ==> sep_index(s) == -1 && forall|q: int| !is_sep_at(s, q),
    decreases s.len(),
{
    if s.len() < 2 {
    } else if s[s.len() - 2] == ':' && s[s.len() - 1] == ':' {
    } else {
        lemma_sep_index_is_last(s.drop_last());
        let t = s.drop_last();
        assert forall|q: int| is_sep_at(s, q) implies is_sep_at(t, q) by {
            assert(q + 2 < s.len() || (q == s.len() - 2));
            assert(t[q] == s[q] && t[q + 1] == s[q + 1]);
        }
    }
}

/// Whether the qualified name carries a module path.
pub open spec fn has_module(s: Seq<char>) -> bool {
    sep_index(s) >= 0
}

/// The module part of a qualified name: everything before the last `::`.
pub open spec fn module_chars(s: Seq<char>) -> Seq<char> {
    s.take(sep_index(s))
}

/// The function part of a qualified name: everything after the last `::`,
/// or the whole name when there is no separator.
pub open spec fn function_chars(s: Seq<char>) -> Seq<char> {
    if has_module(s) {
        s.skip(sep_index(s) + 2)
    } else {
        s
    }
}

/// The module a test is grouped under when scanning the registry: its module
/// path, or the empty name for a test without one.
pub open spec fn module_or_empty(s: Seq<char>) -> Seq<char> {
    if has_module(s) {
        module_chars(s)
    } else {
        Seq::empty()
    }
}

/// The module name printed in a banner: the test's module path, or the
/// placeholder for a test without one.
pub open spec fn module_label_chars(s: Seq<char>) -> Seq<char> {
    if has_module(s) {
        module_chars(s)
    } else {
        "unknown_module"@
    }
}

/// One entry of the test registry: the test's stable qualified name and its
/// two policy flags. The body itself stays with the platform, which invokes
/// it only when the engine asks for it.
pub struct TestCase {
    pub name: String,
    pub ignore: Ignore,
    pub should_panic: ShouldPanic,
}

impl TestCase {
    /// A registry entry for a test with the given qualified name and flags.
    pub fn new(name: String, ignore: Ignore, should_panic: ShouldPanic) -> (test: TestCase)
        ensures
            test.name@ == name@,
            test.ignore == ignore,
            test.should_panic == should_panic,
    {
        TestCase { name, ignore, should_panic }
    }

    /// The full name of the test, including its module path.
    pub fn name(&self) -> (name: &str)
        ensures
            name@ == self.name@,
    {
        self.name.as_str()
    }

    /// The position of the last `::` in the name, if any.
    fn find_last_sep(&self) -> (found: Option<usize>)
        ensures
            match found {
                Some(p) => p == sep_index(self.name@),
                None => sep_index(self.name@) == -1,
            },
    {
        let n = self.name.as_str().unicode_len();
        let mut best: Option<usize> = None;
        let mut q: usize = 0;
        if n >= 2 {
            while q <= n - 2
                invariant
                    n == self.name@.len(),
                    n >= 2,
                    q <= n,
                    match best {
                        Some(p) => is_sep_at(self.name@, p as int) && forall|r: int|
                            p < r < q ==> !is_sep_at(self.name@, r),
                        None => forall|r: int| 0 <= r < q ==> !is_sep_at(self.name@, r),
                    },
                decreases n - q,
            {
                if self.name.as_str().get_char(q) == ':' && self.name.as_str().get_char(q + 1)
                    == ':' {
                    best = Some(q);
                }
                q = q + 1;
            }
        }
        proof {
            lemma_sep_index_is_last(self.name@);
        }
        best
    }

    /// The module path of the test: the part of the name before the last
    /// `::`, or nothing for a name without that separator.
    pub fn modules(&self) -> (result: Option<String>)
        ensures
            match result {
                Some(m) => has_module(self.name@) && m@ == module_chars(self.name@),
                None => !has_module(self.name@),
            },
    {
        proof {
            lemma_sep_index_is_last(self.name@);
        }
        match self.find_last_sep() {
            Some(p) => {
                let part = self.name.as_str().substring_char(0, p);
                Some(String::from_str(part))
            },
            None => None,
        }
    }

    /// The function name of the test, without its module path.
    pub fn function_name(&self) -> (result: String)
        ensures
            result@ == function_chars(self.name@),
    {
        proof {
            lemma_sep_index_is_last(self.name@);
        }
        match self.find_last_sep() {
            Some(p) => {
                let n = self.name.as_str().unicode_len();
                let part = self.name.as_str().substring_char(p + 2, n);
                String::from_str(part)
            },
            None => String::from_str(self.name.as_str()),
        }
    }

    /// The module name a banner for this test would carry.
    pub fn module_label(&self) -> (label: String)
        ensures
            label@ == module_label_chars(self.name@),
    {
        match self.modules() {
            Some(m) => m,
            None => String::from_str("unknown_module"),
        }
    }
}

/// How many registry entries belong to the given module (matching on the
/// module path, with the empty name standing for tests that have none).
pub open spec fn count_in_module(tests: Seq<TestCase>, module: Seq<char>) -> nat
    decreases tests.len(),
{
    if tests.len() == 0 {
        0
    } else {
        count_in_module(tests.drop_last(), module) + if module_or_empty(
            tests.last().name@,
        ) == module {
            1nat
        } else {
            0nat
        }
    }
}

/// Counts the tests of the registry that belong to the given module, by a
/// full scan.
pub fn count_by_module(tests: &Vec<TestCase>, module_name: &str) -> (count: usize)
    ensures
        count == count_in_module(tests@, module_name@),
{
    let mut count: usize = 0;
    let mut i: usize = 0;
    proof {
        assert(tests@.take(0) =~= Seq::<TestCase>::empty());
    }
    while i < tests.len()
        invariant
            i <= tests@.len(),
            count == count_in_module(tests@.take(i as int), module_name@),
            count <= i,
        decreases tests@.len() - i,
    {
        let in_module = match tests[i].modules() {
            Some(m) => crate::buffer::str_eq(m.as_str(), module_name),
            None => module_name.is_empty(),
        };
        proof {
            if module_name@.len() == 0 {
                assert(module_name@ =~= Seq::<char>::empty());
            }
            assert(in_module == (module_or_empty(tests@[i as int].name@) == module_name@));
            assert(tests@.take(i + 1).drop_last() =~= tests@.take(i as int));
            assert(tests@.take(i + 1).last() == tests@[i as int]);
        }
        if in_module {
            count = count + 1;
        }
        i = i + 1;
    }
    proof {
        assert(tests@.take(tests@.len() as int) =~= tests@);
    }
    count
}

} // verus!
