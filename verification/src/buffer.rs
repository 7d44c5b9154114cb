//! Allocation-optional text building: a record buffer that either grows
//! freely (dynamic strategy) or enforces a fixed character capacity and fails
//! loudly when a record would exceed it (bounded strategy), together with the
//! character-level helpers the record encoder is built from.

use vstd::prelude::*;
use vstd::string::StrSliceExecFns;
use vstd::string::StringExecFns;

use crate::HarnessError;

verus! {

/// How record text is built: with growable memory, or inside fixed-capacity
/// buffers for environments without a working dynamic allocator. The large
/// capacity serves the test-name manifest, which concatenates every test's
/// name; it must be at least ten times the normal capacity.
pub enum EncodingStrategy {
    Dynamic,
    Bounded { capacity: usize, large_capacity: usize },
}

impl EncodingStrategy {
    /// The capacity limit for a single record, if any.
    pub open spec fn record_cap(self) -> Option<usize> {
        match self {
            EncodingStrategy::Dynamic => None,
            EncodingStrategy::Bounded { capacity, .. } => Some(capacity),
        }
    }

    /// The capacity limit for the test-name manifest, if any.
    pub open spec fn manifest_cap(self) -> Option<usize> {
        match self {
            EncodingStrategy::Dynamic => None,
            EncodingStrategy::Bounded { large_capacity, .. } => Some(large_capacity),
        }
    }

}

/// Whether a text of the given length fits under the given capacity limit.
pub open spec fn fits(cap: Option<usize>, len: int) -> bool {
    match cap {
        None => true,
        Some(c) => len <= c,
    }
}

/// A single-record text buffer under one of the two encoding strategies.
/// Appending past a bounded buffer's capacity is refused and reported, never
/// silently truncated.
pub struct RecordBuffer {
    text: String,
    capacity: Option<usize>,
}

impl View for RecordBuffer {
    type V = Seq<char>;

    closed spec fn view(&self) -> Seq<char> {
        self.text@
    }
}

impl RecordBuffer {
    /// The capacity limit this buffer was created with.
    pub closed spec fn cap(self) -> Option<usize> {
        self.capacity
    }

    /// The buffer never holds more than its capacity.
    pub open spec fn wf(self) -> bool {
        fits(self.cap(), self@.len() as int)
    }

    /// An empty buffer limited to the strategy's single-record capacity.
    pub fn new_record(strategy: &EncodingStrategy) -> (buffer: RecordBuffer)
        ensures
            buffer@ == Seq::<char>::empty(),
            buffer.cap() == strategy.record_cap(),
            buffer.wf(),
    {
        match strategy {
            EncodingStrategy::Dynamic => RecordBuffer { text: String::new(), capacity: None },
            EncodingStrategy::Bounded { capacity, .. } => RecordBuffer {
                text: String::new(),
                capacity: Some(*capacity),
            },
        }
    }

    /// An empty buffer limited to the strategy's manifest capacity.
    pub fn new_manifest(strategy: &EncodingStrategy) -> (buffer: RecordBuffer)
        ensures
            buffer@ == Seq::<char>::empty(),
            buffer.cap() == strategy.manifest_cap(),
            buffer.wf(),
    {
        match strategy {
            EncodingStrategy::Dynamic => RecordBuffer { text: String::new(), capacity: None },
            EncodingStrategy::Bounded { large_capacity, .. } => RecordBuffer {
                text: String::new(),
                capacity: Some(*large_capacity),
            },
        }
    }

    /// Appends text if it fits; otherwise changes nothing and reports the
    /// capacity violation.
    pub fn push_str(&mut self, piece: &str) -> (result: Result<(), HarnessError>)
        requires
            old(self).wf(),
        ensures
            final(self).wf(),
            final(self).cap() == old(self).cap(),
            result is Ok <==> fits(old(self).cap(), old(self)@.len() + piece@.len() as int),
            result is Ok ==> final(self)@ == old(self)@ + piece@,
            result is Err ==> final(self)@ == old(self)@ && result == Err::<(),
                HarnessError,
            >(HarnessError::CapacityExceeded),
    {
        match self.capacity {
            None => {
                self.text.append(piece);
                Ok(())
            },
            Some(cap) => {
                let current = self.text.as_str().unicode_len();
                let extra = piece.unicode_len();
                if extra <= cap - current {
                    self.text.append(piece);
                    Ok(())
                } else {
                    Err(HarnessError::CapacityExceeded)
                }
            },
        }
    }

    /// Hands the finished text out.
    pub fn into_string(self) -> (text: String)
        ensures
            text@ == self@,
    {
        self.text
    }
}

/// Whether two texts hold the same characters.
pub(crate) fn str_eq(a: &str, b: &str) -> (equal: bool)
    ensures
        equal == (a@ == b@),
{
    let n = a.unicode_len();
    if n != b.unicode_len() {
        return false;
    }
    let mut j: usize = 0;
    while j < n
        invariant
            j <= n,
            n == a@.len(),
            n == b@.len(),
            forall|k: int| 0 <= k < j ==> a@[k] == b@[k],
        decreases n - j,
    {
        if a.get_char(j) != b.get_char(j) {
            return false;
        }
        j = j + 1;
    }
    proof {
        assert(a@ =~= b@);
    }
    true
}

/// The text with every non-overlapping occurrence of `from`, taken leftmost
/// first, replaced by `to`.
pub open spec fn replace_chars(s: Seq<char>, from: Seq<char>, to: Seq<char>) -> Seq<char>
    decreases s.len(),
{
    if s.len() == 0 {
        Seq::empty()
    } else if from.len() > 0 && s.len() >= from.len() && s.take(from.len() as int) == from {
        to + replace_chars(s.skip(from.len() as int), from, to)
    } else {
        seq![s[0]] + replace_chars(s.skip(1), from, to)
    }
}

/// Whether `pat` occurs in `s` at position `start`.
fn matches_at(s: &str, start: usize, pat: &str) -> (found: bool)
    ensures
        found == (start + pat@.len() <= s@.len() && s@.subrange(
            start as int,
            start as int + pat@.len(),
        ) == pat@),
{
    let n = s.unicode_len();
    let m = pat.unicode_len();
    if start > n || m > n - start {
        return false;
    }
    let mut j: usize = 0;
    while j < m
        invariant
            j <= m,
            start + m <= n,
            n == s@.len(),
            m == pat@.len(),
            forall|k: int| 0 <= k < j ==> s@[start + k] == pat@[k],
        decreases m - j,
    {
        if s.get_char(start + j) != pat.get_char(j) {
            proof {
                let ghost jj = j as int;
                assert(s@.subrange(start as int, start as int + pat@.len())[jj] != pat@[jj]);
            }
            return false;
        }
        j = j + 1;
    }
    proof {
        assert(s@.subrange(start as int, start as int + pat@.len()) =~= pat@);
    }
    true
}

/// Replaces every non-overlapping occurrence of `from` in `original` by `to`,
/// scanning left to right, as the recovery path does to normalize path
/// separators and the encoder does to strip newlines and indentation.
pub fn replace_all(original: &str, from: &str, to: &str) -> (result: String)
    requires
        from@.len() > 0,
    ensures
        result@ == replace_chars(original@, from@, to@),
{
    let n = original.unicode_len();
    let m = from.unicode_len();
    let mut result = String::new();
    let mut i: usize = 0;
    proof {
        assert(original@.skip(0) =~= original@);
        assert(result@ + replace_chars(original@, from@, to@) =~= replace_chars(
            original@,
            from@,
            to@,
        ));
    }
    while i < n
        invariant
            i <= n,
            n == original@.len(),
            m == from@.len(),
            m > 0,
            result@ + replace_chars(original@.skip(i as int), from@, to@) == replace_chars(
                original@,
                from@,
                to@,
            ),
        decreases n - i,
    {
        let ghost rest = original@.skip(i as int);
        if matches_at(original, i, from) {
            proof {
                assert(rest.take(m as int) =~= original@.subrange(i as int, i as int + m));
                assert(rest.skip(m as int) =~= original@.skip(i + m));
                assert((result@ + to@) + replace_chars(original@.skip(i + m), from@, to@)
                    =~= result@ + (to@ + replace_chars(rest.skip(m as int), from@, to@)));
            }
            result.append(to);
            i = i + m;
        } else {
            proof {
                if rest.len() >= m {
                    assert(rest.take(m as int) =~= original@.subrange(i as int, i as int + m));
                }
                assert(rest.skip(1) =~= original@.skip(i + 1));
                assert(rest[0] == original@[i as int]);
            }
            let piece = original.substring_char(i, i + 1);
            proof {
                assert(piece@ =~= seq![original@[i as int]]);
                assert((result@ + piece@) + replace_chars(original@.skip(i + 1), from@, to@)
                    =~= result@ + (seq![rest[0]] + replace_chars(rest.skip(1), from@, to@)));
            }
            result.append(piece);
            i = i + 1;
        }
    }
    proof {
        assert(original@.skip(n as int) =~= Seq::<char>::empty());
        assert(result@ + Seq::<char>::empty() =~= result@);
    }
    result
}

/// The digit character for a value below ten.
pub open spec fn digit_char(d: nat) -> char {
    if d == 0 {
        '0'
    } else if d == 1 {
        '1'
    } else if d == 2 {
        '2'
    } else if d == 3 {
        '3'
    } else if d == 4 {
        '4'
    } else if d == 5 {
        '5'
    } else if d == 6 {
        '6'
    } else if d == 7 {
        '7'
    } else if d == 8 {
        '8'
    } else {
        '9'
    }
}

/// The usual decimal rendering of a number, most significant digit first,
/// with no leading zeros (a single zero for zero itself).
pub open spec fn dec_chars(n: nat) -> Seq<char>
    decreases n,
{
    if n < 10 {
        seq![digit_char(n)]
    } else {
        dec_chars(n / 10).push(digit_char(n % 10))
    }
}

/// The one-character text for a decimal digit.
fn digit_str(d: u64) -> (s: &'static str)
    requires
        d < 10,
    ensures
        s@ == seq![digit_char(d as nat)],
{
    proof {
        reveal_strlit("0");
        reveal_strlit("1");
        reveal_strlit("2");
        reveal_strlit("3");
        reveal_strlit("4");
        reveal_strlit("5");
        reveal_strlit("6");
        reveal_strlit("7");
        reveal_strlit("8");
        reveal_strlit("9");
    }
    if d == 0 {
        proof {
            assert("0"@ =~= seq![digit_char(0)]);
        }
        "0"
    } else if d == 1 {
        proof {
            assert("1"@ =~= seq![digit_char(1)]);
        }
        "1"
    } else if d == 2 {
        proof {
            assert("2"@ =~= seq![digit_char(2)]);
        }
        "2"
    } else if d == 3 {
        proof {
            assert("3"@ =~= seq![digit_char(3)]);
        }
        "3"
    } else if d == 4 {
        proof {
            assert("4"@ =~= seq![digit_char(4)]);
        }
        "4"
    } else if d == 5 {
        proof {
            assert("5"@ =~= seq![digit_char(5)]);
        }
        "5"
    } else if d == 6 {
        proof {
            assert("6"@ =~= seq![digit_char(6)]);
        }
        "6"
    } else if d == 7 {
        proof {
            assert("7"@ =~= seq![digit_char(7)]);
        }
        "7"
    } else if d == 8 {
        proof {
            assert("8"@ =~= seq![digit_char(8)]);
        }
        "8"
    } else {
        proof {
            assert("9"@ =~= seq![digit_char(9)]);
        }
        "9"
    }
}

/// Renders a counter value in decimal.
pub fn u64_to_string(n: u64) -> (s: String)
    ensures
        s@ == dec_chars(n as nat),
    decreases n,
{
    if n < 10 {
        String::from_str(digit_str(n))
    } else {
        let mut s = u64_to_string(n / 10);
        s.append(digit_str(n % 10));
        proof {
            assert(s@ =~= dec_chars((n / 10) as nat).push(digit_char((n % 10) as nat)));
        }
        s
    }
}

} // verus!
