//! Helpers of the signal backend: application bundles, lock files, and the
//! reading of what the system's own tools print.

use vstd::prelude::*;
use crate::text::{child_path, join_path, lowercase_of, to_lowercase};

verus! {

/// The line feed.
pub const LINE_FEED: u8 = 10;

/// The carriage return.
pub const CARRIAGE_RETURN: u8 = 13;

/// The letter that begins a name line in the field output of the open-file
/// lister.
pub const NAME_FIELD: u8 = 110;

/// How many bytes stand before the first line feed of `text`; all of them
/// if it has none.
pub open spec fn first_line_feed(text: Seq<u8>) -> nat
    decreases text.len(),
{
    if text.len() == 0 {
        0
    } else if text[0] == LINE_FEED {
        0
    } else {
        1 + first_line_feed(text.drop_first())
    }
}

/// `first_line_feed` stays within the text, points at a line feed where it
/// points at anything, and passes over none.
pub proof fn lemma_first_line_feed(text: Seq<u8>)
    ensures
        first_line_feed(text) <= text.len(),
        first_line_feed(text) < text.len() ==> text[first_line_feed(text) as int] == LINE_FEED,
        forall|k: int| 0 <= k < first_line_feed(text) ==> text[k] != LINE_FEED,
    decreases text.len(),
{
    if text.len() > 0 && text[0] != LINE_FEED {
        let rest = text.drop_first();
        lemma_first_line_feed(rest);
        assert forall|k: int| 0 <= k < first_line_feed(text) implies text[k] != LINE_FEED by {
            if k > 0 {
                assert(rest[k - 1] == text[k]);
            }
        }
    }
}

/// The first line of a text that is not empty: what stands before the first
/// line feed, without the carriage return that may end it there. A last
/// line that no line feed ends keeps its carriage return.
pub open spec fn first_line(text: Seq<u8>) -> Seq<u8> {
    let n = first_line_feed(text) as int;
    if n < text.len() && n > 0 && text[n - 1] == CARRIAGE_RETURN {
        text.take(n - 1)
    } else {
        text.take(n)
    }
}

/// What follows the first line of a text.
pub open spec fn after_first_line(text: Seq<u8>) -> Seq<u8> {
    let n = first_line_feed(text) as int;
    if n < text.len() {
        text.skip(n + 1)
    } else {
        Seq::empty()
    }
}

/// Whether `line` begins with `prefix`.
pub open spec fn begins_with(line: Seq<u8>, prefix: Seq<u8>) -> bool {
    line.len() >= prefix.len() && line.take(prefix.len() as int) == prefix
}

/// The bytes of `/dev`.
pub open spec fn device_prefix() -> Seq<u8> {
    seq![47u8, 100u8, 101u8, 118u8]
}

/// The bytes of `pipe`.
pub open spec fn pipe_prefix() -> Seq<u8> {
    seq![112u8, 105u8, 112u8, 101u8]
}

/// Whether a line of the open-file lister's field output names a file that
/// may be a lock: a name line that is not empty and names neither a device
/// nor a pipe.
pub open spec fn names_lock(line: Seq<u8>) -> bool {
    &&& line.len() > 1
    &&& line[0] == NAME_FIELD
    &&& !begins_with(line.skip(1), device_prefix())
    &&& !begins_with(line.skip(1), pipe_prefix())
}

/// The files that the open-file lister's field output names and that may be
/// locks, in the order of the output: of each name line the name, unless it
/// is that of a device or a pipe.
pub open spec fn lock_paths_of(output: Seq<u8>) -> Seq<Seq<u8>>
    decreases output.len(),
{
    if output.len() == 0 {
        Seq::empty()
    } else {
        let rest = lock_paths_of(after_first_line(output));
        if names_lock(first_line(output)) {
            seq![first_line(output).skip(1)] + rest
        } else {
            rest
        }
    }
}

/// Finds the end of the line that begins at `from`.
fn line_end(output: &Vec<u8>, from: usize) -> (end: usize)
    requires
        from <= output@.len(),
    ensures
        end == from + first_line_feed(output@.skip(from as int)),
        from <= end <= output@.len(),
{
    let ghost tail = output@.skip(from as int);
    let mut i: usize = from;
    proof {
        lemma_first_line_feed(tail);
        assert(tail.skip(0) =~= tail);
    }
    while i < output.len()
        invariant
            from <= i <= output.len(),
            tail == output@.skip(from as int),
            first_line_feed(tail) == (i - from) + first_line_feed(tail.skip(i - from)),
        decreases output.len() - i,
    {
        proof {
            assert(tail.skip(i - from)[0] == output[i as int]);
            assert(tail.skip(i - from).drop_first() =~= tail.skip(i - from + 1));
        }
        if output[i] == LINE_FEED {
            return i;
        }
        i += 1;
    }
    proof {
        assert(tail.skip(i - from).len() == 0);
    }
    i
}

/// Whether the bytes of `output` from `from` to `to` begin with the four
/// bytes given.
fn slice_begins_with(output: &Vec<u8>, from: usize, to: usize, a: u8, b: u8, c: u8, d: u8) -> (r:
    bool)
    requires
        from <= to <= output@.len(),
    ensures
        r == begins_with(output@.subrange(from as int, to as int), seq![a, b, c, d]),
{
    let ghost line = output@.subrange(from as int, to as int);
    if to - from < 4 {
        return false;
    }
    let r = output[from] == a && output[from + 1] == b && output[from + 2] == c && output[from
        + 3] == d;
    proof {
        assert(line.take(4)[0] == output[from as int]);
        assert(line.take(4)[1] == output[from + 1]);
        assert(line.take(4)[2] == output[from + 2]);
        assert(line.take(4)[3] == output[from + 3]);
        if r {
            assert(line.take(4) =~= seq![a, b, c, d]);
        }
    }
    r
}

/// Reads the field output of the open-file lister and lists the files that
/// may be locks.
pub fn get_process_locks(output: &Vec<u8>) -> (r: Vec<Vec<u8>>)
    ensures
        r.deep_view() == lock_paths_of(output@),
{
    let mut r: Vec<Vec<u8>> = Vec::new();
    let mut pos: usize = 0;
    assert(output@.skip(0) =~= output@);
    assert(r.deep_view() =~= Seq::<Seq<u8>>::empty());
    while pos < output.len()
        invariant
            pos <= output.len(),
            lock_paths_of(output@) == r.deep_view() + lock_paths_of(output@.skip(pos as int)),
        decreases output.len() - pos,
    {
        let ghost tail = output@.skip(pos as int);
        let end = line_end(output, pos);
        let stop = if end < output.len() && end > pos && output[end - 1] == CARRIAGE_RETURN {
            end - 1
        } else {
            end
        };
        proof {
            lemma_first_line_feed(tail);
            assert(first_line(tail) =~= output@.subrange(pos as int, stop as int));
        }
        let ghost line = output@.subrange(pos as int, stop as int);
        let ghost so_far = r.deep_view();
        if stop - pos > 1 && output[pos] == NAME_FIELD {
            proof {
                assert(line.skip(1) =~= output@.subrange(pos + 1, stop as int));
            }
            let device = slice_begins_with(output, pos + 1, stop, 47, 100, 101, 118);
            let pipe = slice_begins_with(output, pos + 1, stop, 112, 105, 112, 101);
            if !device && !pipe {
                let mut path: Vec<u8> = Vec::new();
                let mut k: usize = pos + 1;
                while k < stop
                    invariant
                        pos + 1 <= k <= stop <= output.len(),
                        path@ == output@.subrange(pos + 1, k as int),
                    decreases stop - k,
                {
                    path.push(output[k]);
                    proof {
                        assert(path@ =~= output@.subrange(pos + 1, k + 1));
                    }
                    k += 1;
                }
                proof {
                    assert(path.deep_view() =~= line.skip(1));
                }
                r.push(path);
                proof {
                    assert(r.deep_view() =~= so_far.push(line.skip(1)));
                }
            }
        }
        let next = if end < output.len() {
            end + 1
        } else {
            end
        };
        proof {
            assert(after_first_line(tail) =~= output@.skip(next as int));
            assert(r.deep_view() + lock_paths_of(output@.skip(next as int)) =~= so_far
                + lock_paths_of(tail));
        }
        pos = next;
    }
    proof {
        assert(output@.skip(pos as int).len() == 0);
        assert(r.deep_view() + Seq::<Seq<u8>>::empty() =~= r.deep_view());
    }
    r
}

/// Whether a byte is white space: a blank or one of the control characters
/// from the tabulator to the carriage return.
pub open spec fn is_space(b: u8) -> bool {
    b == 32 || (9 <= b && b <= 13)
}

/// `text` without the white space at its front.
pub open spec fn trim_start(text: Seq<u8>) -> Seq<u8>
    decreases text.len(),
{
    if text.len() > 0 && is_space(text[0]) {
        trim_start(text.drop_first())
    } else {
        text
    }
}

/// `text` without the white space at its end.
pub open spec fn trim_end(text: Seq<u8>) -> Seq<u8>
    decreases text.len(),
{
    if text.len() > 0 && is_space(text.last()) {
        trim_end(text.drop_last())
    } else {
        text
    }
}

/// `text` without the white space around it.
pub open spec fn trimmed(text: Seq<u8>) -> Seq<u8> {
    trim_end(trim_start(text))
}

/// Whether every byte of `text` is a decimal digit.
pub open spec fn all_digits(text: Seq<u8>) -> bool {
    forall|i: int| 0 <= i < text.len() ==> 48 <= #[trigger] text[i] <= 57
}

/// The number that the decimal digits `digits` write.
pub open spec fn decimal_value(digits: Seq<u8>) -> nat
    decreases digits.len(),
{
    if digits.len() == 0 {
        0
    } else {
        decimal_value(digits.drop_last()) * 10 + (digits.last() - 48) as nat
    }
}

/// The process id that a line writes: decimal digits, which a plus sign may
/// precede and white space may surround, and whose number fits 32 bits.
/// Anything else writes none.
pub open spec fn pid_of_line(line: Seq<u8>) -> Option<u32> {
    let text = trimmed(line);
    let digits = if text.len() > 0 && text[0] == 43 {
        text.skip(1)
    } else {
        text
    };
    if digits.len() > 0 && all_digits(digits) && decimal_value(digits) <= u32::MAX {
        Some(decimal_value(digits) as u32)
    } else {
        None
    }
}

/// The process ids that the lines of `output` write, in the order of the
/// output; a line that writes none is passed over.
pub open spec fn pids_of(output: Seq<u8>) -> Seq<u32>
    decreases output.len(),
{
    if output.len() == 0 {
        Seq::empty()
    } else {
        let rest = pids_of(after_first_line(output));
        match pid_of_line(first_line(output)) {
            Some(pid) => seq![pid] + rest,
            None => rest,
        }
    }
}

/// Digits that follow digits whose number is past a bound write a number
/// past the bound too.
proof fn lemma_decimal_value_grows(digits: Seq<u8>, k: int)
    requires
        0 <= k <= digits.len(),
        all_digits(digits),
    ensures
        decimal_value(digits.take(k)) <= decimal_value(digits),
    decreases digits.len() - k,
{
    if k < digits.len() {
        lemma_decimal_value_grows(digits, k + 1);
        assert(digits.take(k + 1).drop_last() =~= digits.take(k));
        assert(digits.take(k + 1).last() == digits[k]);
    } else {
        assert(digits.take(k) =~= digits);
    }
}

/// Reads the process id that the bytes of `output` from `from` to `to`
/// write.
fn parse_pid(output: &Vec<u8>, from: usize, to: usize) -> (r: Option<u32>)
    requires
        from <= to <= output@.len(),
    ensures
        r == pid_of_line(output@.subrange(from as int, to as int)),
{
    let ghost line = output@.subrange(from as int, to as int);
    let mut a: usize = from;
    assert(line.skip(0) =~= line);
    while a < to && (output[a] == 32 || (9 <= output[a] && output[a] <= 13))
        invariant
            from <= a <= to <= output@.len(),
            line == output@.subrange(from as int, to as int),
            trim_start(line) == trim_start(line.skip(a - from)),
        decreases to - a,
    {
        proof {
            assert(line.skip(a - from)[0] == output[a as int]);
            assert(line.skip(a - from).drop_first() =~= line.skip(a - from + 1));
        }
        a += 1;
    }
    proof {
        if a < to {
            assert(line.skip(a - from)[0] == output[a as int]);
        }
        assert(trim_start(line) =~= output@.subrange(a as int, to as int));
    }
    let ghost front = output@.subrange(a as int, to as int);
    let mut b: usize = to;
    assert(front.take(front.len() as int) =~= front);
    while b > a && (output[b - 1] == 32 || (9 <= output[b - 1] && output[b - 1] <= 13))
        invariant
            a <= b <= to <= output@.len(),
            front == output@.subrange(a as int, to as int),
            trim_end(front) == trim_end(front.take(b - a)),
        decreases b - a,
    {
        proof {
            assert(front.take(b - a).last() == output[b - 1]);
            assert(front.take(b - a).drop_last() =~= front.take(b - a - 1));
        }
        b -= 1;
    }
    proof {
        if b > a {
            assert(front.take(b - a).last() == output[b - 1]);
        }
        assert(trim_end(front) =~= output@.subrange(a as int, b as int));
    }
    let ghost text = output@.subrange(a as int, b as int);
    assert(text == trimmed(line));
    let start = if a < b && output[a] == 43 {
        a + 1
    } else {
        a
    };
    let ghost digits = output@.subrange(start as int, b as int);
    proof {
        if a < b {
            assert(text[0] == output[a as int]);
        }
        assert(digits =~= if text.len() > 0 && text[0] == 43 {
            text.skip(1)
        } else {
            text
        });
    }
    if start == b {
        return None;
    }
    let mut value: u64 = 0;
    let mut i: usize = start;
    assert(digits.take(0) =~= Seq::<u8>::empty());
    assert(pid_of_line(line) == if all_digits(digits) && decimal_value(digits) <= u32::MAX {
        Some(decimal_value(digits) as u32)
    } else {
        None::<u32>
    });
    while i < b
        invariant
            start <= i <= b <= output@.len(),
            from <= to <= output@.len(),
            digits == output@.subrange(start as int, b as int),
            pid_of_line(output@.subrange(from as int, to as int)) == if all_digits(digits)
                && decimal_value(digits) <= u32::MAX {
                Some(decimal_value(digits) as u32)
            } else {
                None::<u32>
            },
            all_digits(digits.take(i - start)),
            value == decimal_value(digits.take(i - start)),
            value <= u32::MAX,
        decreases b - i,
    {
        let byte = output[i];
        proof {
            assert(digits[i - start] == byte);
            assert(digits.take(i - start + 1).drop_last() =~= digits.take(i - start));
            assert(digits.take(i - start + 1).last() == byte);
        }
        if byte < 48 || byte > 57 {
            assert(!all_digits(digits));
            return None;
        }
        value = value * 10 + (byte - 48) as u64;
        proof {
            assert(all_digits(digits.take(i - start + 1))) by {
                assert forall|j: int| 0 <= j < i - start + 1 implies 48
                    <= #[trigger] digits.take(i - start + 1)[j] <= 57 by {
                    if j < i - start {
                        assert(digits.take(i - start)[j] == digits.take(i - start + 1)[j]);
                    }
                }
            }
        }
        if value > 0xffff_ffff {
            proof {
                if all_digits(digits) {
                    lemma_decimal_value_grows(digits, i - start + 1);
                }
            }
            return None;
        }
        i += 1;
    }
    proof {
        assert(digits.take(b - start) =~= digits);
    }
    Some(value as u32)
}

/// Reads the process ids that a process finder prints, one to a line.
pub fn get_running_instances_by_bundle(output: &Vec<u8>) -> (r: Vec<u32>)
    ensures
        r@ == pids_of(output@),
{
    let mut r: Vec<u32> = Vec::new();
    let mut pos: usize = 0;
    assert(output@.skip(0) =~= output@);
    while pos < output.len()
        invariant
            pos <= output.len(),
            pids_of(output@) == r@ + pids_of(output@.skip(pos as int)),
        decreases output.len() - pos,
    {
        let ghost tail = output@.skip(pos as int);
        let end = line_end(output, pos);
        let stop = if end < output.len() && end > pos && output[end - 1] == CARRIAGE_RETURN {
            end - 1
        } else {
            end
        };
        proof {
            lemma_first_line_feed(tail);
            assert(first_line(tail) =~= output@.subrange(pos as int, stop as int));
        }
        let ghost so_far = r@;
        match parse_pid(output, pos, stop) {
            Some(pid) => {
                r.push(pid);
            },
            None => {},
        }
        let next = if end < output.len() {
            end + 1
        } else {
            end
        };
        proof {
            assert(after_first_line(tail) =~= output@.skip(next as int));
            assert(r@ + pids_of(output@.skip(next as int)) =~= so_far + pids_of(tail));
        }
        pos = next;
    }
    proof {
        assert(output@.skip(pos as int).len() == 0);
        assert(r@ + Seq::<u32>::empty() =~= r@);
    }
    r
}

/// Reads the bundle identifier that the property-list reader prints: its
/// output without the white space around it.
pub fn get_bundle_identifier(output: &Vec<u8>) -> (r: Vec<u8>)
    ensures
        r@ == trimmed(output@),
{
    let ghost line = output@;
    let mut a: usize = 0;
    assert(line.skip(0) =~= line);
    while a < output.len() && (output[a] == 32 || (9 <= output[a] && output[a] <= 13))
        invariant
            a <= output@.len(),
            line == output@,
            trim_start(line) == trim_start(line.skip(a as int)),
        decreases output.len() - a,
    {
        proof {
            assert(line.skip(a as int)[0] == output[a as int]);
            assert(line.skip(a as int).drop_first() =~= line.skip(a + 1));
        }
        a += 1;
    }
    proof {
        if a < output.len() {
            assert(line.skip(a as int)[0] == output[a as int]);
        }
        assert(trim_start(line) =~= output@.subrange(a as int, output@.len() as int));
    }
    let ghost front = output@.subrange(a as int, output@.len() as int);
    let mut b: usize = output.len();
    assert(front.take(front.len() as int) =~= front);
    while b > a && (output[b - 1] == 32 || (9 <= output[b - 1] && output[b - 1] <= 13))
        invariant
            a <= b <= output@.len(),
            front == output@.subrange(a as int, output@.len() as int),
            trim_end(front) == trim_end(front.take(b - a)),
        decreases b - a,
    {
        proof {
            assert(front.take(b - a).last() == output[b - 1]);
            assert(front.take(b - a).drop_last() =~= front.take(b - a - 1));
        }
        b -= 1;
    }
    proof {
        if b > a {
            assert(front.take(b - a).last() == output[b - 1]);
        }
        assert(trim_end(front) =~= output@.subrange(a as int, b as int));
    }
    let mut r: Vec<u8> = Vec::new();
    let mut k: usize = a;
    while k < b
        invariant
            a <= k <= b <= output@.len(),
            r@ == output@.subrange(a as int, k as int),
        decreases b - k,
    {
        r.push(output[k]);
        proof {
            assert(r@ =~= output@.subrange(a as int, k + 1));
        }
        k += 1;
    }
    r
}

/// The path of the property list inside an application bundle.
pub open spec fn info_plist_path_of(app_path: Seq<char>) -> Seq<char> {
    child_path(child_path(app_path, "Contents"@), "Info.plist"@)
}

/// Names the property list of the application bundle at `app_path`, for the
/// caller to look up.
pub fn info_plist_path(app_path: &str) -> (r: String)
    ensures
        r@ == info_plist_path_of(app_path@),
{
    let contents = join_path(app_path, "Contents");
    join_path(contents.as_str(), "Info.plist")
}

/// The property list of the application bundle at `app_path`, given whether
/// the file that `info_plist_path` names exists: its path if it does, and
/// nothing if the bundle has none.
pub fn get_info_plist_path(app_path: &str, file_exists: bool) -> (r: Option<String>)
    ensures
        r.deep_view() == if file_exists {
            Some(info_plist_path_of(app_path@))
        } else {
            None::<Seq<char>>
        },
{
    if file_exists {
        Some(info_plist_path(app_path))
    } else {
        None
    }
}

/// The places where an application named `app_name` may keep the lock file
/// of its single-instance guard, in the order in which they are tried: in
/// the cache directory, in its own directory under the local data
/// directory, and twice in `/tmp`.
pub open spec fn lock_file_candidates_of(
    app_name: Seq<char>,
    cache_dir: Seq<char>,
    data_local_dir: Seq<char>,
) -> Seq<Seq<char>> {
    seq![
        child_path(cache_dir, app_name + ".lock"@),
        child_path(child_path(data_local_dir, app_name), app_name + ".lock"@),
        child_path("/tmp"@, app_name + ".lock"@),
        child_path("/tmp"@, app_name + "-lock"@),
    ]
}

/// Lists the places where an application may keep the lock file of its
/// single-instance guard; the first of them that exists is the lock file.
pub fn find_app_lock_file(app_name: &str, cache_dir: &str, data_local_dir: &str) -> (r: Vec<String>)
    ensures
        r.deep_view() == lock_file_candidates_of(app_name@, cache_dir@, data_local_dir@),
{
    let dot_lock = String::from_str(app_name).concat(".lock");
    let dash_lock = String::from_str(app_name).concat("-lock");
    let own = join_path(data_local_dir, app_name);
    let mut r: Vec<String> = Vec::new();
    r.push(join_path(cache_dir, dot_lock.as_str()));
    r.push(join_path(own.as_str(), dot_lock.as_str()));
    r.push(join_path("/tmp", dot_lock.as_str()));
    r.push(join_path("/tmp", dash_lock.as_str()));
    assert(r.deep_view() =~= lock_file_candidates_of(app_name@, cache_dir@, data_local_dir@));
    r
}

/// The environment that points an application bundle at a private data
/// directory: its home, its data, configuration and cache locations, and
/// its directory for temporary files.
pub open spec fn isolated_app_env_of(data_dir: Seq<char>) -> Seq<(Seq<char>, Seq<char>)> {
    seq![
        ("HOME"@, data_dir),
        ("XDG_DATA_HOME"@, child_path(data_dir, "Library"@)),
        ("XDG_CONFIG_HOME"@, child_path(child_path(data_dir, "Library"@), "Preferences"@)),
        ("XDG_CACHE_HOME"@, child_path(child_path(data_dir, "Library"@), "Caches"@)),
        ("TMPDIR"@, child_path(child_path(child_path(data_dir, "Library"@), "Caches"@), "tmp"@)),
    ]
}

/// Builds the environment with which an application bundle is launched in
/// isolation.
pub fn launch_app_isolated(data_dir: &str) -> (r: Vec<(String, String)>)
    ensures
        r.deep_view() == isolated_app_env_of(data_dir@),
{
    let library = join_path(data_dir, "Library");
    let caches = join_path(library.as_str(), "Caches");
    let mut r: Vec<(String, String)> = Vec::new();
    r.push((String::from_str("HOME"), String::from_str(data_dir)));
    r.push((String::from_str("XDG_DATA_HOME"), join_path(data_dir, "Library")));
    r.push((String::from_str("XDG_CONFIG_HOME"), join_path(library.as_str(), "Preferences")));
    r.push((String::from_str("XDG_CACHE_HOME"), join_path(library.as_str(), "Caches")));
    r.push((String::from_str("TMPDIR"), join_path(caches.as_str(), "tmp")));
    assert(r.deep_view() =~= isolated_app_env_of(data_dir@));
    r
}

/// The address-space limit in bytes that stands for a memory cap in
/// megabytes, for a process that sets its own limits before it replaces its
/// image; nothing for no cap.
pub fn set_resource_limits(memory_mb: u64) -> (r: Option<u64>)
    ensures
        r == if memory_mb > 0 {
            Some(crate::platform::megabytes_in_bytes(memory_mb))
        } else {
            None::<u64>
        },
{
    if memory_mb == 0 {
        None
    } else if memory_mb > u64::MAX / crate::resource::MB {
        Some(u64::MAX)
    } else {
        Some(memory_mb * crate::resource::MB)
    }
}

/// The name of the launch agent of an application whose name in lower case
/// is `lower_name`.
pub open spec fn launch_agent_label_of(lower_name: Seq<char>) -> Seq<char> {
    "com.multiinstance."@ + lower_name
}

/// The directory of the launch agents under the home directory `home`.
pub open spec fn launch_agents_directory_of(home: Seq<char>) -> Seq<char> {
    child_path(child_path(home, "Library"@), "LaunchAgents"@)
}

/// The path of the property list of a launch agent under the home directory
/// `home`.
pub open spec fn launch_agent_path_of(lower_name: Seq<char>, home: Seq<char>) -> Seq<char> {
    child_path(launch_agents_directory_of(home), launch_agent_label_of(lower_name) + ".plist"@)
}

/// The property list of a launch agent that runs `executable_path` at
/// login, once, and does not keep it alive.
pub open spec fn launch_agent_plist_of(lower_name: Seq<char>, executable_path: Seq<char>) -> Seq<
    char,
> {
    "<?xml version=\"1.0\" encoding=\"UTF-8\"?>\n<!DOCTYPE plist PUBLIC \"-//Apple//DTD PLIST 1.0//EN\" \"http://www.apple.com/DTDs/PropertyList-1.0.dtd\">\n<plist version=\"1.0\">\n<dict>\n    <key>Label</key>\n    <string>"@
        + launch_agent_label_of(lower_name)
        + "</string>\n    <key>ProgramArguments</key>\n    <array>\n        <string>"@
        + executable_path
        + "</string>\n    </array>\n    <key>RunAtLoad</key>\n    <true/>\n    <key>KeepAlive</key>\n    <false/>\n</dict>\n</plist>"@
}

/// A launch agent to install: where its property list goes, and what the
/// property list holds.
#[derive(Debug)]
pub struct LaunchAgent {
    /// The directory of the property list, to be created if need be.
    pub directory: String,
    /// The path of the property list.
    pub path: String,
    /// The property list.
    pub content: String,
}

/// The path of the property list of the launch agent of an application
/// whose name in lower case is `lower_name`.
pub fn launch_agent_path(lower_name: &str, home: &str) -> (r: String)
    ensures
        r@ == launch_agent_path_of(lower_name@, home@),
{
    let file = String::from_str("com.multiinstance.").concat(lower_name).concat(".plist");
    let library = join_path(home, "Library");
    let directory = join_path(library.as_str(), "LaunchAgents");
    join_path(directory.as_str(), file.as_str())
}

/// Puts together the launch agent of an application whose name in lower
/// case is `lower_name`: it starts `executable_path` at login.
pub fn launch_agent_named(lower_name: &str, executable_path: &str, home: &str) -> (r: LaunchAgent)
    ensures
        r.directory@ == launch_agents_directory_of(home@),
        r.path@ == launch_agent_path_of(lower_name@, home@),
        r.content@ == launch_agent_plist_of(lower_name@, executable_path@),
{
    let label = String::from_str("com.multiinstance.").concat(lower_name);
    let library = join_path(home, "Library");
    let directory = join_path(library.as_str(), "LaunchAgents");
    let path = launch_agent_path(lower_name, home);
    let content = String::from_str(
        "<?xml version=\"1.0\" encoding=\"UTF-8\"?>\n<!DOCTYPE plist PUBLIC \"-//Apple//DTD PLIST 1.0//EN\" \"http://www.apple.com/DTDs/PropertyList-1.0.dtd\">\n<plist version=\"1.0\">\n<dict>\n    <key>Label</key>\n    <string>",
    ).concat(label.as_str()).concat(
        "</string>\n    <key>ProgramArguments</key>\n    <array>\n        <string>",
    ).concat(executable_path).concat(
        "</string>\n    </array>\n    <key>RunAtLoad</key>\n    <true/>\n    <key>KeepAlive</key>\n    <false/>\n</dict>\n</plist>",
    );
    LaunchAgent { directory, path, content }
}

/// Puts together the launch agent that starts the application `app_name`
/// from `executable_path` at login, for the home directory `home`. The
/// agent goes by the name of the application in lower case.
pub fn setup_launch_agent(app_name: &str, executable_path: &str, home: &str) -> (r: LaunchAgent)
    ensures
        r.directory@ == launch_agents_directory_of(home@),
        r.path@ == launch_agent_path_of(lowercase_of(app_name@), home@),
        r.content@ == launch_agent_plist_of(lowercase_of(app_name@), executable_path@),
{
    let lower = to_lowercase(app_name);
    launch_agent_named(lower.as_str(), executable_path, home)
}

/// Names the property list of the launch agent of the application
/// `app_name`, which is to be unloaded and deleted if it exists.
pub fn remove_launch_agent(app_name: &str, home: &str) -> (r: String)
    ensures
        r@ == launch_agent_path_of(lowercase_of(app_name@), home@),
{
    let lower = to_lowercase(app_name);
    launch_agent_path(lower.as_str(), home)
}

} // verus!
