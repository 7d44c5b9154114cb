//! The diagnostics encoder: renders each progress/result event as a single
//! line of key-value text for the byte-oriented debug channel, and builds the
//! human-readable console pieces. Every record is produced as one finished
//! string so the transport never sees a half-written record. Free-form fields
//! are sanitized by stripping newline and indentation runs from the rendered
//! record, and a failure location has backslashes normalized to forward
//! slashes before encoding.

use vstd::prelude::*;
use vstd::string::StrSliceExecFns;
use vstd::string::StringExecFns;

use crate::HarnessError;
use crate::buffer::EncodingStrategy;
use crate::buffer::RecordBuffer;
use crate::buffer::dec_chars;
use crate::buffer::fits;
use crate::buffer::replace_all;
use crate::buffer::replace_chars;
use crate::buffer::u64_to_string;
use crate::testcase::TestCase;

verus! {

/// The sanitizing pass applied to a rendered result record: newlines go away
/// so the record stays on one transport line, and the template's three-space
/// indentation runs are removed.
pub open spec fn strip_record(raw: Seq<char>) -> Seq<char> {
    replace_chars(replace_chars(raw, "\n"@, ""@), "   "@, ""@)
}

/// The run announcement before sanitizing: the group name and how many tests
/// will run.
pub open spec fn group_record_raw(group: Seq<char>, count: nat) -> Seq<char> {
    "{ \"test_group\": \""@ + group + "\", \"test_count\": "@ + dec_chars(count) + " }"@
}

/// The run announcement as written: newlines and tabs are stripped.
pub open spec fn group_record_chars(group: Seq<char>, count: nat) -> Seq<char> {
    replace_chars(replace_chars(group_record_raw(group, count), "\n"@, ""@), "\t"@, ""@)
}

/// One entry of the name manifest: the quoted name, with a separating comma
/// on every entry but the last.
pub open spec fn name_entry_chars(name: Seq<char>, last: bool) -> Seq<char> {
    if last {
        "\""@ + name + "\""@
    } else {
        "\""@ + name + "\", "@
    }
}

/// The manifest entries from position `i` on, joined.
pub open spec fn entries_chars(names: Seq<Seq<char>>, i: int) -> Seq<char>
    decreases names.len() - i,
{
    if i < 0 || i >= names.len() {
        Seq::empty()
    } else {
        name_entry_chars(names[i], i == names.len() - 1) + entries_chars(names, i + 1)
    }
}

/// The full test-name manifest: a list of every registered test's name, in
/// registry order, so a reader can tell which tests never ran after a crash.
pub open spec fn manifest_chars(names: Seq<Seq<char>>) -> Seq<char> {
    "{ \"tests\": ["@ + entries_chars(names, 0) + "] }"@
}

/// The qualified names of the registry's tests, in order.
pub open spec fn names_of(tests: Seq<TestCase>) -> Seq<Seq<char>> {
    tests.map_values(|t: TestCase| t.name@)
}

/// Whether every single manifest entry fits in a single-record buffer.
pub open spec fn all_entries_fit(names: Seq<Seq<char>>, strategy: EncodingStrategy) -> bool {
    forall|i: int|
        0 <= i < names.len() ==> fits(
            strategy.record_cap(),
            name_entry_chars(names[i], i == names.len() - 1).len() as int,
        )
}

/// A success record before sanitizing.
pub open spec fn success_record_raw(name: Seq<char>, cycle_count: nat) -> Seq<char> {
    "\n{\n    \"test\": \""@ + name + "\",\n    \"result\": \"ok\",\n    \"cycle_count\": "@
        + dec_chars(cycle_count) + "\n}"@
}

/// A success record as written.
pub open spec fn success_record_chars(name: Seq<char>, cycle_count: nat) -> Seq<char> {
    strip_record(success_record_raw(name, cycle_count))
}

/// An ignored record before sanitizing.
pub open spec fn ignored_record_raw(name: Seq<char>) -> Seq<char> {
    "\n{\n    \"test\": \""@ + name + "\",\n    \"result\": \"ignored\"\n}"@
}

/// An ignored record as written.
pub open spec fn ignored_record_chars(name: Seq<char>) -> Seq<char> {
    strip_record(ignored_record_raw(name))
}

/// A failure record before sanitizing, over the already normalized location.
/// The cycle count of a failure is always zero: the body did not run to
/// completion under the engine's supervision, so no duration is known.
pub open spec fn failure_record_raw(name: Seq<char>, location: Seq<char>, message: Seq<
    char,
>) -> Seq<char> {
    "\n{\n    \"test\": \""@ + name
        + "\",\n    \"result\": \"fail\",\n    \"cycle_count\": 0,\n    \"location\": \""@
        + location + "\",\n    \"message\": \""@ + message + "\"\n}"@
}

/// A failure record as written: the location has backslash path separators
/// normalized to forward slashes, then the record is sanitized.
pub open spec fn failure_record_chars(name: Seq<char>, location: Seq<char>, message: Seq<
    char,
>) -> Seq<char> {
    strip_record(failure_record_raw(name, replace_chars(location, "\\"@, "/"@), message))
}

/// A fault's source position as encoded: file, colon, line number.
pub open spec fn location_chars(file: Seq<char>, line: nat) -> Seq<char> {
    file + ":"@ + dec_chars(line)
}

/// Renders the run announcement: the test group's name and the test count.
pub fn write_test_group(strategy: &EncodingStrategy, test_group: &str, test_count: usize) -> (result:
    Result<String, HarnessError>)
    ensures
        result is Ok <==> fits(
            strategy.record_cap(),
            group_record_raw(test_group@, test_count as nat).len() as int,
        ),
        result matches Ok(line) ==> line@ == group_record_chars(test_group@, test_count as nat),
        result is Err ==> result == Err::<String, HarnessError>(HarnessError::CapacityExceeded),
{
    let ghost raw = group_record_raw(test_group@, test_count as nat);
    let count_text = u64_to_string(test_count as u64);
    let mut buf = RecordBuffer::new_record(strategy);
    if let Err(e) = buf.push_str("{ \"test_group\": \"") {
        return Err(e);
    }
    if let Err(e) = buf.push_str(test_group) {
        return Err(e);
    }
    if let Err(e) = buf.push_str("\", \"test_count\": ") {
        return Err(e);
    }
    if let Err(e) = buf.push_str(count_text.as_str()) {
        return Err(e);
    }
    if let Err(e) = buf.push_str(" }") {
        return Err(e);
    }
    proof {
        assert(buf@ =~= raw);
        reveal_strlit("\n");
        reveal_strlit("\t");
    }
    let rendered = buf.into_string();
    let stripped = replace_all(rendered.as_str(), "\n", "");
    let stripped = replace_all(stripped.as_str(), "\t", "");
    Ok(stripped)
}

/// Renders the manifest of all test names. Each entry is built in a
/// single-record buffer, the joined list in the large manifest buffer.
pub fn write_test_names(strategy: &EncodingStrategy, tests: &Vec<TestCase>) -> (result: Result<
    String,
    HarnessError,
>)
    ensures
        result is Ok <==> all_entries_fit(names_of(tests@), *strategy) && fits(
            strategy.manifest_cap(),
            manifest_chars(names_of(tests@)).len() as int,
        ),
        result matches Ok(line) ==> line@ == manifest_chars(names_of(tests@)),
        result is Err ==> result == Err::<String, HarnessError>(HarnessError::CapacityExceeded),
{
    let ghost names = names_of(tests@);
    let mut buf = RecordBuffer::new_manifest(strategy);
    if let Err(e) = buf.push_str("{ \"tests\": [") {
        proof {
            assert(manifest_chars(names).len() >= "{ \"tests\": ["@.len());
        }
        return Err(e);
    }
    let mut i: usize = 0;
    while i < tests.len()
        invariant
            i <= tests@.len(),
            names == names_of(tests@),
            names.len() == tests@.len(),
            buf.wf(),
            buf.cap() == strategy.manifest_cap(),
            buf@ + entries_chars(names, i as int) + "] }"@ == manifest_chars(names),
            forall|j: int|
                0 <= j < i ==> fits(
                    strategy.record_cap(),
                    name_entry_chars(names[j], j == names.len() - 1).len() as int,
                ),
        decreases tests@.len() - i,
    {
        let last = i == tests.len() - 1;
        let ghost entry = name_entry_chars(names[i as int], last);
        let mut entry_buf = RecordBuffer::new_record(strategy);
        if let Err(e) = entry_buf.push_str("\"") {
            proof {
                assert(entry.len() >= "\""@.len());
            }
            return Err(e);
        }
        if let Err(e) = entry_buf.push_str(tests[i].name.as_str()) {
            proof {
                assert(entry.len() >= "\""@.len() + names[i as int].len());
            }
            return Err(e);
        }
        let tail_result = if last {
            entry_buf.push_str("\"")
        } else {
            entry_buf.push_str("\", ")
        };
        if let Err(e) = tail_result {
            return Err(e);
        }
        proof {
            assert(entry_buf@ =~= entry);
            assert(entries_chars(names, i as int) == entry + entries_chars(names, i + 1));
        }
        let entry_text = entry_buf.into_string();
        let ghost prev = buf@;
        if let Err(e) = buf.push_str(entry_text.as_str()) {
            return Err(e);
        }
        proof {
            assert((prev + entry) + entries_chars(names, i + 1) + "] }"@ =~= prev + entries_chars(
                names,
                i as int,
            ) + "] }"@);
        }
        i = i + 1;
    }
    if let Err(e) = buf.push_str("] }") {
        return Err(e);
    }
    proof {
        assert(entries_chars(names, tests@.len() as int) =~= Seq::<char>::empty());
        assert(buf@ =~= manifest_chars(names));
    }
    Ok(buf.into_string())
}

/// Renders a success record: the test's name and the measured cycle count.
pub fn write_test_success(strategy: &EncodingStrategy, test_name: &str, cycle_count: u64) -> (result:
    Result<String, HarnessError>)
    ensures
        result is Ok <==> fits(
            strategy.record_cap(),
            success_record_raw(test_name@, cycle_count as nat).len() as int,
        ),
        result matches Ok(line) ==> line@ == success_record_chars(test_name@, cycle_count as nat),
        result is Err ==> result == Err::<String, HarnessError>(HarnessError::CapacityExceeded),
{
    let ghost raw = success_record_raw(test_name@, cycle_count as nat);
    let count_text = u64_to_string(cycle_count);
    let mut buf = RecordBuffer::new_record(strategy);
    if let Err(e) = buf.push_str("\n{\n    \"test\": \"") {
        return Err(e);
    }
    if let Err(e) = buf.push_str(test_name) {
        return Err(e);
    }
    if let Err(e) = buf.push_str("\",\n    \"result\": \"ok\",\n    \"cycle_count\": ") {
        return Err(e);
    }
    if let Err(e) = buf.push_str(count_text.as_str()) {
        return Err(e);
    }
    if let Err(e) = buf.push_str("\n}") {
        return Err(e);
    }
    proof {
        assert(buf@ =~= raw);
    }
    strip_and_finish(buf)
}

/// Renders an ignored record: the test's name, no cycle count.
pub fn write_test_ignored(strategy: &EncodingStrategy, test_name: &str) -> (result: Result<
    String,
    HarnessError,
>)
    ensures
        result is Ok <==> fits(
            strategy.record_cap(),
            ignored_record_raw(test_name@).len() as int,
        ),
        result matches Ok(line) ==> line@ == ignored_record_chars(test_name@),
        result is Err ==> result == Err::<String, HarnessError>(HarnessError::CapacityExceeded),
{
    let ghost raw = ignored_record_raw(test_name@);
    let mut buf = RecordBuffer::new_record(strategy);
    if let Err(e) = buf.push_str("\n{\n    \"test\": \"") {
        return Err(e);
    }
    if let Err(e) = buf.push_str(test_name) {
        return Err(e);
    }
    if let Err(e) = buf.push_str("\",\n    \"result\": \"ignored\"\n}") {
        return Err(e);
    }
    proof {
        assert(buf@ =~= raw);
    }
    strip_and_finish(buf)
}

/// Renders a failure record: the test's name, the normalized fault location,
/// and the fault message.
pub fn write_test_failure(
    strategy: &EncodingStrategy,
    test_name: &str,
    location: &str,
    message: &str,
) -> (result: Result<String, HarnessError>)
    ensures
        result is Ok <==> fits(
            strategy.record_cap(),
            failure_record_raw(
                test_name@,
                replace_chars(location@, "\\"@, "/"@),
                message@,
            ).len() as int,
        ),
        result matches Ok(line) ==> line@ == failure_record_chars(test_name@, location@, message@),
        result is Err ==> result == Err::<String, HarnessError>(HarnessError::CapacityExceeded),
{
    proof {
        reveal_strlit("\\");
    }
    let normalized = replace_all(location, "\\", "/");
    let ghost raw = failure_record_raw(test_name@, normalized@, message@);
    let mut buf = RecordBuffer::new_record(strategy);
    if let Err(e) = buf.push_str("\n{\n    \"test\": \"") {
        return Err(e);
    }
    if let Err(e) = buf.push_str(test_name) {
        return Err(e);
    }
    if let Err(e) = buf.push_str(
        "\",\n    \"result\": \"fail\",\n    \"cycle_count\": 0,\n    \"location\": \"",
    ) {
        return Err(e);
    }
    if let Err(e) = buf.push_str(normalized.as_str()) {
        return Err(e);
    }
    if let Err(e) = buf.push_str("\",\n    \"message\": \"") {
        return Err(e);
    }
    if let Err(e) = buf.push_str(message) {
        return Err(e);
    }
    if let Err(e) = buf.push_str("\"\n}") {
        return Err(e);
    }
    proof {
        assert(buf@ =~= raw);
    }
    strip_and_finish(buf)
}

/// Applies the sanitizing pass to a finished raw record.
fn strip_and_finish(buf: RecordBuffer) -> (result: Result<String, HarnessError>)
    ensures
        result == Ok::<String, HarnessError>(result->Ok_0),
        result matches Ok(line) ==> line@ == strip_record(buf@),
{
    proof {
        reveal_strlit("\n");
        reveal_strlit("   ");
    }
    let rendered = buf.into_string();
    let stripped = replace_all(rendered.as_str(), "\n", "");
    let stripped = replace_all(stripped.as_str(), "   ", "");
    Ok(stripped)
}

/// Renders a fault's source position, file and line joined by a colon.
pub fn format_location(strategy: &EncodingStrategy, file: &str, line: u32) -> (result: Result<
    String,
    HarnessError,
>)
    ensures
        result is Ok <==> fits(
            strategy.record_cap(),
            location_chars(file@, line as nat).len() as int,
        ),
        result matches Ok(text) ==> text@ == location_chars(file@, line as nat),
        result is Err ==> result == Err::<String, HarnessError>(HarnessError::CapacityExceeded),
{
    let line_text = u64_to_string(line as u64);
    let mut buf = RecordBuffer::new_record(strategy);
    if let Err(e) = buf.push_str(file) {
        return Err(e);
    }
    if let Err(e) = buf.push_str(":") {
        return Err(e);
    }
    if let Err(e) = buf.push_str(line_text.as_str()) {
        return Err(e);
    }
    proof {
        assert(buf@ =~= location_chars(file@, line as nat));
    }
    Ok(buf.into_string())
}

/// The blank-padded run of spaces of the given length.
pub open spec fn spaces(n: nat) -> Seq<char>
    decreases n,
{
    if n == 0 {
        Seq::empty()
    } else {
        spaces((n - 1) as nat).push(' ')
    }
}

/// A test's name as printed on the console, padded so the result tags line
/// up: blanks out to the result column, or a single trailing blank when the
/// name is at least that long.
pub open spec fn padded_name_chars(name: Seq<char>, result_column: nat) -> Seq<char> {
    if name.len() >= result_column {
        name + seq![' ']
    } else {
        name + spaces((result_column - name.len()) as nat)
    }
}

/// Writes a test's name with padding for aligned result tags.
pub fn print_test_name(name: &str, result_column: usize) -> (line: String)
    ensures
        line@ == padded_name_chars(name@, result_column as nat),
{
    proof {
        reveal_strlit(" ");
    }
    let n = name.unicode_len();
    let mut line = String::from_str(name);
    if n >= result_column {
        line.append(" ");
        proof {
            assert(line@ =~= name@ + seq![' ']);
        }
        return line;
    }
    let padding = result_column - n;
    let mut k: usize = 0;
    while k < padding
        invariant
            k <= padding,
            line@ == name@ + spaces(k as nat),
        decreases padding - k,
    {
        line.append(" ");
        proof {
            reveal_strlit(" ");
            assert(spaces((k + 1) as nat) == spaces(k as nat).push(' '));
            assert(name@ + spaces((k + 1) as nat) =~= (name@ + spaces(k as nat)) + " "@);
            assert(line@ == name@ + spaces((k + 1) as nat));
        }
        k = k + 1;
    }
    line
}

/// The console separator line that opens a module banner.
pub open spec fn banner_separator_chars() -> Seq<char> {
    "\n################################################################\n"@
}

/// The console heading of a module banner: how many tests of the group's
/// registry belong to the module about to run.
pub open spec fn banner_heading_chars(count: nat, group: Seq<char>, module: Seq<char>) -> Seq<
    char,
> {
    "# Running "@ + dec_chars(count) + " "@ + group + " tests for module: "@ + module + "\n"@
}

/// The console rule that closes a module banner.
pub open spec fn banner_footer_chars() -> Seq<char> {
    "----------------------------------------------------------------\n"@
}

/// Builds the banner heading line.
pub fn banner_heading(count: usize, group: &str, module: &str) -> (line: String)
    ensures
        line@ == banner_heading_chars(count as nat, group@, module@),
{
    let count_text = u64_to_string(count as u64);
    let mut line = String::from_str("# Running ");
    line.append(count_text.as_str());
    line.append(" ");
    line.append(group);
    line.append(" tests for module: ");
    line.append(module);
    line.append("\n");
    proof {
        assert(line@ =~= banner_heading_chars(count as nat, group@, module@));
    }
    line
}

/// The console tag closing a passed test's line.
pub open spec fn pass_line_chars() -> Seq<char> {
    "[pass]\n"@
}

/// The console tag closing an ignored test's line.
pub open spec fn ignored_line_chars() -> Seq<char> {
    "[ignored]\n"@
}

/// The console tag closing a failed test's line, with the fault's raw
/// location and message.
pub open spec fn fail_line_chars(location: Seq<char>, message: Seq<char>) -> Seq<char> {
    "[fail] @ "@ + location + ": "@ + message + "\n"@
}

/// Builds the console failure tag line.
pub fn fail_line(location: &str, message: &str) -> (line: String)
    ensures
        line@ == fail_line_chars(location@, message@),
{
    let mut line = String::from_str("[fail] @ ");
    line.append(location);
    line.append(": ");
    line.append(message);
    line.append("\n");
    proof {
        assert(line@ =~= fail_line_chars(location@, message@));
    }
    line
}

} // verus!
