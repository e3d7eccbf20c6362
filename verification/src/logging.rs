//! The logger's decisions: level labels, the file path shown in a record,
//! which log files to open, and how a whole buffer is written.

use vstd::prelude::*;

use crate::text::{chars_of, push_char, push_str, starts_with, string_of, sub_chars};
use crate::yaml::value::str_eq;

verus! {

/// The level of a log record, from the most to the least severe.
#[derive(Debug, Clone, Copy, PartialEq, Eq)]
pub enum LogLevel {
    Error,
    Warn,
    Info,
    Debug,
    Trace,
}

/// Where the records of a level go.
#[derive(Debug, Clone, Copy)]
pub enum LogLocationTarget<'a> {
    StdOut,
    StdErr,
    /// A file, by its path.
    File(&'a str),
}

/// The label printed for each level.
pub struct LevelStringStruct {
    pub error: String,
    pub warn: String,
    pub info: String,
    pub debug: String,
    pub trace: String,
}

/// A label in bold, in the given terminal colour: the label is padded to five
/// characters.
pub open spec fn colored_label(color: Seq<char>, label: Seq<char>) -> Seq<char> {
    "\x1b[1m\x1b["@ + color + "m"@ + label + "\x1b[0m"@
}

impl LevelStringStruct {
    pub fn get_level(&self, level: LogLevel) -> (r: &str)
        ensures
            r@ == match level {
                LogLevel::Error => self.error@,
                LogLevel::Warn => self.warn@,
                LogLevel::Info => self.info@,
                LogLevel::Debug => self.debug@,
                LogLevel::Trace => self.trace@,
            },
    {
        match level {
            LogLevel::Error => self.error.as_str(),
            LogLevel::Warn => self.warn.as_str(),
            LogLevel::Info => self.info.as_str(),
            LogLevel::Debug => self.debug.as_str(),
            LogLevel::Trace => self.trace.as_str(),
        }
    }
}

fn label(color: &str, text: &str) -> (r: String)
    ensures
        r@ == colored_label(color@, text@),
{
    let mut out = string_of(chars_of("\x1b[1m\x1b[").as_slice());
    push_str(&mut out, color);
    push_str(&mut out, "m");
    push_str(&mut out, text);
    push_str(&mut out, "\x1b[0m");
    out
}

impl Default for LevelStringStruct {
    /// Bold labels: red `ERROR`, yellow `WARN `, cyan `INFO `, green `DEBUG`,
    /// magenta `TRACE`.
    fn default() -> (r: Self)
        ensures
            r.error@ == colored_label("31"@, "ERROR"@),
            r.warn@ == colored_label("33"@, "WARN "@),
            r.info@ == colored_label("36"@, "INFO "@),
            r.debug@ == colored_label("32"@, "DEBUG"@),
            r.trace@ == colored_label("35"@, "TRACE"@),
    {
        LevelStringStruct {
            error: label("31", "ERROR"),
            warn: label("33", "WARN "),
            info: label("36", "INFO "),
            debug: label("32", "DEBUG"),
            trace: label("35", "TRACE"),
        }
    }
}

/// The rest of the text where it starts with the prefix, and nothing
/// otherwise.
fn strip_prefix<'a>(text: &'a str, prefix: &str) -> (r: Option<&'a str>)
    ensures
        match r {
            Some(rest) => starts_with(text@, prefix@) && rest@ == text@.skip(prefix@.len() as int),
            None => !starts_with(text@, prefix@),
        },
{
    let chars = crate::text::chars_of(text);
    let prefix_chars = crate::text::chars_of(prefix);
    if !crate::text::has_prefix(chars.as_slice(), prefix_chars.as_slice()) {
        return None;
    }
    let prefix_bytes = prefix.as_bytes().len();
    let ghost tail = text@.skip(prefix@.len() as int);
    proof {
        assert(text@ =~= prefix@ + tail);
        crate::byte_offsets::lemma_encode_concat(prefix@, tail);
        assert(text@.take(prefix@.len() as int) =~= prefix@);
        crate::byte_offsets::lemma_prefix_is_char_boundary(text@, prefix@.len() as int);
    }
    let (_, rest) = text.split_at(prefix_bytes);
    proof {
        assert(vstd::utf8::encode_utf8(rest@) =~= vstd::utf8::encode_utf8(tail));
        vstd::utf8::encode_utf8_decode_utf8(rest@);
        vstd::utf8::encode_utf8_decode_utf8(tail);
    }
    Some(rest)
}

/// The path shown in a record, in two parts: where the path starts with the
/// configured prefix, the replacement and the rest; otherwise nothing and the
/// whole path.
pub open spec fn spec_stripped(path: Option<Seq<char>>, prefix: Option<(Seq<char>, Seq<char>)>) -> Option<(Seq<char>, Seq<char>)> {
    match (path, prefix) {
        (Some(p), Some((pre, replace))) => if starts_with(p, pre) {
            Some((replace, p.skip(pre.len() as int)))
        } else {
            Some((Seq::empty(), p))
        },
        (Some(p), None) => Some((Seq::empty(), p)),
        (None, _) => None,
    }
}

pub open spec fn opt_str_view(o: Option<&str>) -> Option<Seq<char>> {
    match o {
        Some(s) => Some(s@),
        None => None,
    }
}

pub open spec fn opt_pair_view(o: Option<&(String, String)>) -> Option<(Seq<char>, Seq<char>)> {
    match o {
        Some(p) => Some((p.0@, p.1@)),
        None => None,
    }
}

pub fn with_path_prefix_stripped<'a>(path: Option<&'a str>, prefix: Option<&'a (String, String)>) -> (r: Option<(&'a str, &'a str)>)
    ensures
        match r {
            Some((a, b)) => spec_stripped(opt_str_view(path), opt_pair_view(prefix)) == Some((a@, b@)),
            None => spec_stripped(opt_str_view(path), opt_pair_view(prefix)) is None,
        },
{
    match (path, prefix) {
        (Some(p), Some(pair)) => match strip_prefix(p, pair.0.as_str()) {
            Some(rest) => Some((pair.1.as_str(), rest)),
            None => {
                let empty = "";
                proof {
                    reveal_strlit("");
                }
                Some((empty, p))
            },
        },
        (Some(p), None) => {
            let empty = "";
            proof {
                reveal_strlit("");
            }
            Some((empty, p))
        },
        (None, _) => None,
    }
}

/// Whether `->` starts at `i`.
pub open spec fn arrow_at(value: Seq<char>, i: int) -> bool {
    0 <= i < value.len() - 1 && value[i] == '-' && value[i + 1] == '>'
}

/// Reads the prefix replacement.
pub fn prefix_replace(value: &str) -> (r: Option<(String, String)>)
    ensures
        match r {
            Some((a, b)) => exists|i: int| #[trigger] arrow_at(value@, i)
                && (forall|j: int| 0 <= j < i ==> !arrow_at(value@, j))
                && a@ == value@.take(i) && b@ == value@.skip(i + 2),
            None => forall|i: int| !arrow_at(value@, i),
        },
{
    let chars = chars_of(value);
    let mut i: usize = 0;
    while i < chars.len()
        invariant
            chars@ == value@,
            i <= chars@.len(),
            forall|j: int| 0 <= j < i ==> !arrow_at(value@, j),
        decreases chars@.len() - i,
    {
        if i + 1 < chars.len() && chars[i] == '-' && chars[i + 1] == '>' {
            let before = sub_chars(chars.as_slice(), 0, i);
            let after = sub_chars(chars.as_slice(), i + 2, chars.len());
            assert(before@ =~= value@.take(i as int));
            assert(after@ =~= value@.skip(i + 2));
            assert(arrow_at(value@, i as int));
            return Some((string_of(before.as_slice()), string_of(after.as_slice())));
        }
        i = i + 1;
    }
    None
}

/// A text centred in a field of `width` characters, padded with `fill`: the
/// left side gets the smaller half of the padding.
pub open spec fn centered(text: Seq<char>, width: nat, fill: char) -> Seq<char> {
    if text.len() >= width {
        text
    } else {
        let pad = (width - text.len()) as nat;
        Seq::new(pad / 2, |i: int| fill) + text + Seq::new((pad - pad / 2) as nat, |i: int| fill)
    }
}

fn repeated(fill: char, count: usize) -> (r: String)
    ensures
        r@ == Seq::new(count as nat, |i: int| fill),
{
    let mut out = String::new();
    let mut k: usize = 0;
    while k < count
        invariant
            k <= count,
            out@ == Seq::new(k as nat, |i: int| fill),
        decreases count - k,
    {
        push_char(&mut out, fill);
        assert(out@ =~= Seq::new((k + 1) as nat, |i: int| fill));
        k = k + 1;
    }
    assert(out@ =~= Seq::new(count as nat, |i: int| fill));
    out
}

/// The line written at the top of a log file when logging starts, given the
/// start time as text.
pub open spec fn spec_banner(time_text: Seq<char>) -> Seq<char> {
    centered("Logging started at "@ + time_text, 50, '-') + "\n"@
}

pub fn log_file_banner(time_text: &str) -> (r: String)
    ensures
        r@ == spec_banner(time_text@),
{
    let mut text = string_of(chars_of("Logging started at ").as_slice());
    push_str(&mut text, time_text);
    let length = chars_of(text.as_str()).len();
    let mut out = if length >= 50 {
        text
    } else {
        let pad = 50 - length;
        let mut line = repeated('-', pad / 2);
        push_str(&mut line, text.as_str());
        let right = repeated('-', pad - pad / 2);
        push_str(&mut line, right.as_str());
        line
    };
    push_str(&mut out, "\n");
    out
}

/// The distinct entries of a sequence, each where it first occurs.
pub open spec fn distinct(s: Seq<Seq<char>>) -> Seq<Seq<char>>
    decreases s.len(),
{
    if s.len() == 0 {
        Seq::empty()
    } else if distinct(s.drop_last()).contains(s.last()) {
        distinct(s.drop_last())
    } else {
        distinct(s.drop_last()).push(s.last())
    }
}

/// The file paths of the targets, in order.
pub open spec fn file_paths_of(targets: Seq<LogLocationTarget>) -> Seq<Seq<char>>
    decreases targets.len(),
{
    if targets.len() == 0 {
        Seq::empty()
    } else {
        match targets.last() {
            LogLocationTarget::File(p) => file_paths_of(targets.drop_last()).push(p@),
            _ => file_paths_of(targets.drop_last()),
        }
    }
}

fn index_of_text(items: &Vec<String>, text: &str) -> (r: Option<usize>)
    ensures
        match r {
            Some(i) => i < items@.len() && items@[i as int]@ == text@,
            None => forall|j: int| 0 <= j < items@.len() ==> items@[j]@ != text@,
        },
{
    let mut i: usize = 0;
    while i < items.len()
        invariant
            i <= items@.len(),
            forall|j: int| 0 <= j < i ==> items@[j]@ != text@,
        decreases items@.len() - i,
    {
        if str_eq(items[i].as_str(), text) {
            return Some(i);
        }
        i = i + 1;
    }
    None
}

pub open spec fn texts_view(items: Seq<String>) -> Seq<Seq<char>> {
    items.map_values(|s: String| s@)
}

/// The log files to open for the targets of all levels (taken in the order
/// given): each path once, where it first occurs.
pub fn log_files_to_open(targets: &Vec<LogLocationTarget>) -> (r: Vec<String>)
    ensures
        texts_view(r@) == distinct(file_paths_of(targets@)),
{
    let mut files: Vec<String> = Vec::new();
    let mut i: usize = 0;
    assert(targets@.take(0) =~= Seq::<LogLocationTarget>::empty());
    assert(texts_view(files@) =~= Seq::<Seq<char>>::empty());
    while i < targets.len()
        invariant
            i <= targets@.len(),
            texts_view(files@) == distinct(file_paths_of(targets@.take(i as int))),
        decreases targets@.len() - i,
    {
        assert(targets@.take(i + 1).drop_last() =~= targets@.take(i as int));
        match targets[i] {
            LogLocationTarget::File(path) => {
                let ghost paths = file_paths_of(targets@.take(i as int));
                assert(file_paths_of(targets@.take(i + 1)) == paths.push(path@));
                assert(paths.push(path@).drop_last() =~= paths);
                match index_of_text(&files, path) {
                    Some(k) => {
                        assert(texts_view(files@)[k as int] == path@);
                        assert(distinct(paths).contains(path@));
                    },
                    None => {
                        assert(!distinct(paths).contains(path@)) by {
                            if distinct(paths).contains(path@) {
                                let k = choose|k: int| 0 <= k < distinct(paths).len() && distinct(paths)[k] == path@;
                                assert(files@[k]@ == path@);
                            }
                        }
                        let ghost before = files@;
                        files.push(path.to_owned());
                        assert(texts_view(files@) =~= texts_view(before).push(path@));
                    },
                }
            },
            _ => {},
        }
        i = i + 1;
    }
    assert(targets@.take(targets@.len() as int) =~= targets@);
    files
}

/// A target ready to be written to: a standard stream, or one of the opened
/// log files, by its place among them.
#[derive(Debug, Clone, Copy, PartialEq, Eq)]
pub enum WritableTarget {
    StdOut,
    StdErr,
    File(usize),
}

/// Where a path first occurs among the opened files.
pub open spec fn position_of(opened: Seq<Seq<char>>, path: Seq<char>) -> int {
    choose|k: int| 0 <= k < opened.len() && opened[k] == path && forall|j: int| 0 <= j < k ==> opened[j] != path
}

/// The writable targets of a level, given the files that were opened: a file
/// target whose file could not be opened is dropped.
pub open spec fn spec_resolved(targets: Seq<LogLocationTarget>, opened: Seq<Seq<char>>) -> Seq<WritableTarget>
    decreases targets.len(),
{
    if targets.len() == 0 {
        Seq::empty()
    } else {
        let rest = spec_resolved(targets.drop_last(), opened);
        match targets.last() {
            LogLocationTarget::StdOut => rest.push(WritableTarget::StdOut),
            LogLocationTarget::StdErr => rest.push(WritableTarget::StdErr),
            LogLocationTarget::File(p) => if opened.contains(p@) {
                rest.push(WritableTarget::File(position_of(opened, p@) as usize))
            } else {
                rest
            },
        }
    }
}

/// Resolves the targets of one level against the opened files (whose paths
/// are distinct).
pub fn resolve_targets(targets: &Vec<LogLocationTarget>, opened: &Vec<String>) -> (r: Vec<WritableTarget>)
    requires
        forall|a: int, b: int| 0 <= a < b < opened@.len() ==> opened@[a]@ != opened@[b]@,
    ensures
        r@ == spec_resolved(targets@, texts_view(opened@)),
{
    let ghost names = texts_view(opened@);
    let mut out: Vec<WritableTarget> = Vec::new();
    let mut i: usize = 0;
    assert(targets@.take(0) =~= Seq::<LogLocationTarget>::empty());
    while i < targets.len()
        invariant
            i <= targets@.len(),
            names == texts_view(opened@),
            forall|a: int, b: int| 0 <= a < b < opened@.len() ==> opened@[a]@ != opened@[b]@,
            out@ == spec_resolved(targets@.take(i as int), names),
        decreases targets@.len() - i,
    {
        assert(targets@.take(i + 1).drop_last() =~= targets@.take(i as int));
        match targets[i] {
            LogLocationTarget::StdOut => out.push(WritableTarget::StdOut),
            LogLocationTarget::StdErr => out.push(WritableTarget::StdErr),
            LogLocationTarget::File(path) => {
                match index_of_text(opened, path) {
                    Some(k) => {
                        assert(names[k as int] == path@);
                        assert(names.contains(path@));
                        let ghost chosen = position_of(names, path@);
                        assert(0 <= k < names.len() && names[k as int] == path@ && forall|j: int| 0 <= j < k ==> names[j] != path@);
                        assert(chosen == k as int) by {
                            if chosen != k as int {
                                if chosen < k {
                                    assert(opened@[chosen]@ == opened@[k as int]@);
                                } else {
                                    assert(opened@[k as int]@ == opened@[chosen]@);
                                }
                            }
                        }
                        out.push(WritableTarget::File(k));
                    },
                    None => {
                        assert(!names.contains(path@)) by {
                            if names.contains(path@) {
                                let c = choose|c: int| 0 <= c < names.len() && names[c] == path@;
                                assert(opened@[c]@ == path@);
                            }
                        }
                    },
                }
            },
        }
        i = i + 1;
    }
    assert(targets@.take(targets@.len() as int) =~= targets@);
    out
}

/// Why a write did not go through.
#[derive(Debug, Clone, PartialEq, Eq)]
pub enum WriteFailure {
    /// The write was interrupted and can be tried again.
    Interrupted,
    /// Nothing more could be written.
    WriteZero,
    /// Any other failure, described.
    Other(String),
}

/// A sink that can be written through a shared reference.
pub trait WriteImmut {
    /// Writes from the start of the buffer; says how much was written.
    fn write(&self, buf: &[u8]) -> Result<usize, WriteFailure>;

    fn flush(&self) -> Result<(), WriteFailure>;

    fn is_write_vectored(&self) -> bool;
}

/// What writing a whole buffer does after one write.
#[derive(Debug, Clone, PartialEq, Eq)]
pub enum WriteAllStep {
    /// Go on with this many bytes left (none left: done).
    Continue(usize),
    /// Try the same write again.
    Retry,
    /// Stop with this failure.
    Fail(WriteFailure),
}

/// The step of writing a whole buffer after a write of the `remaining` bytes:
/// a write of nothing fails (`WriteZero`), a write of `n` bytes leaves
/// `remaining - n`, an interruption is retried, any other failure stops.
/// A write that claims more than it was given is left out.
pub fn write_all_step(remaining: usize, outcome: Result<usize, WriteFailure>) -> (r: WriteAllStep)
    requires
        outcome matches Ok(n) ==> n <= remaining,
    ensures
        match outcome {
            Ok(n) => if n == 0 {
                r == WriteAllStep::Fail(WriteFailure::WriteZero)
            } else {
                r == WriteAllStep::Continue((remaining - n) as usize)
            },
            Err(WriteFailure::Interrupted) => r == WriteAllStep::Retry,
            Err(e) => r == WriteAllStep::Fail(e),
        },
{
    match outcome {
        Ok(n) => if n == 0 {
            WriteAllStep::Fail(WriteFailure::WriteZero)
        } else {
            WriteAllStep::Continue(remaining - n)
        },
        Err(WriteFailure::Interrupted) => WriteAllStep::Retry,
        Err(e) => WriteAllStep::Fail(e),
    }
}

} // verus!
