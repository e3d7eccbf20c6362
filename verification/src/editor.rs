//! Editing a challenge description in place: finding where its entries lie in
//! the text, and replacing an entry by a freshly written one, leaving the rest
//! of the text as it was.
//!
//! Offsets count bytes of the text's UTF-8 encoding, as slicing a string
//! does. Lines and columns come from the YAML parser, both counted from one;
//! a position's offset is the byte offset of its line's start plus its column
//! less one.

use vstd::prelude::*;

use crate::byte_offsets::{
    byte_len, bytes_before, char_at_byte, char_index_at, lemma_boundary_of_prefix, lemma_byte_len_bounds,
    lemma_char_at_byte, lemma_char_width, lemma_prefix_grows, prefix_offsets,
};
use crate::text::{chars_of, push_str, starts_with, string_of, sub_chars};

verus! {

/// The parser's view of the top-level keys of a document, in order: each
/// key's text and the line and column where it starts, where it is known.
pub uninterp spec fn top_level_keys(text: Seq<char>) -> Option<Seq<(Seq<char>, Option<(usize, usize)>)>>;

/// Calls `marked_yaml::parse_yaml` and lists the keys of the top-level
/// mapping (none where the text does not parse or is not a mapping). The claim:
/// the list depends on the text alone (named [`top_level_keys`]), and lines
/// and columns count from one, as the crate documents.
#[verifier::external_body]
fn marked_top_level_keys(text: &str) -> (r: Option<Vec<(String, Option<(usize, usize)>)>>)
    ensures
        keys_view(r) == top_level_keys(text@),
        match keys_view(r) {
            Some(keys) => positions_from_one(keys),
            None => true,
        },
{
    let node = marked_yaml::parse_yaml(0, text).ok()?;
    let mapping = node.as_mapping()?;
    Some(mapping.iter().map(|(k, _)| (k.as_str().to_string(), k.span().start().map(|m| (m.line(), m.column())))).collect())
}

/// Whether every known position has its line and column counted from one.
pub open spec fn positions_from_one(keys: Seq<(Seq<char>, Option<(usize, usize)>)>) -> bool {
    forall|i: int| 0 <= i < keys.len() ==> match (#[trigger] keys[i]).1 {
        Some(p) => p.0 >= 1 && p.1 >= 1,
        None => true,
    }
}

pub open spec fn key_entries_view(keys: Seq<(String, Option<(usize, usize)>)>) -> Seq<(Seq<char>, Option<(usize, usize)>)> {
    keys.map_values(|k: (String, Option<(usize, usize)>)| (k.0@, k.1))
}

pub open spec fn keys_view(keys: Option<Vec<(String, Option<(usize, usize)>)>>) -> Option<Seq<(Seq<char>, Option<(usize, usize)>)>> {
    match keys {
        Some(k) => Some(key_entries_view(k@)),
        None => None,
    }
}

/// The byte offset at which line `k` (counted from zero) starts, as the sum
/// of the byte lengths of the lines before it, each with its line break. Past
/// the last line, the last line counts with a break too.
pub open spec fn line_start(text: Seq<char>, k: nat) -> int
    decreases k,
{
    if k == 0 {
        0
    } else {
        match crate::text::first_index_of(text, '\n') {
            Some(i) => byte_len(text.take(i)) as int + 1 + line_start(text.skip(i + 1), (k - 1) as nat),
            None => byte_len(text) as int + 1,
        }
    }
}

/// The offset of a line and column (both counted from one).
pub open spec fn offset_of(text: Seq<char>, position: (usize, usize)) -> int {
    line_start(text, (position.0 - 1) as nat) + position.1 - 1
}

/// Whether entry `i` has the key `key` and a known start.
pub open spec fn entry_at(keys: Seq<(Seq<char>, Option<(usize, usize)>)>, key: Seq<char>, i: int) -> bool {
    0 <= i < keys.len() && keys[i].0 == key && keys[i].1 is Some
}

/// The first entry whose key is `key` and whose start is known.
pub open spec fn entry_index(keys: Seq<(Seq<char>, Option<(usize, usize)>)>, key: Seq<char>) -> Option<int> {
    if exists|i: int| #[trigger] entry_at(keys, key, i) {
        Some(choose|i: int| #[trigger] entry_at(keys, key, i) && forall|j: int| 0 <= j < i ==> !entry_at(keys, key, j))
    } else {
        None
    }
}

/// Where an entry's text starts and where the next entry starts (or the end
/// of the text where there is no next entry, or its start is unknown).
#[verifier::opaque]
pub open spec fn raw_span(keys: Seq<(Seq<char>, Option<(usize, usize)>)>, text: Seq<char>, key: Seq<char>) -> Option<(int, int)> {
    match entry_index(keys, key) {
        None => None,
        Some(i) => {
            let start = offset_of(text, keys[i].1->0);
            let end = if i + 1 < keys.len() && keys[i + 1].1 is Some {
                offset_of(text, keys[i + 1].1->0)
            } else {
                byte_len(text) as int
            };
            Some((start, end))
        },
    }
}

/// Whether the entry's offsets lie in order within the text, each between
/// two characters, so that the text between them can be sliced out.
pub open spec fn span_fits(keys: Seq<(Seq<char>, Option<(usize, usize)>)>, text: Seq<char>, key: Seq<char>) -> bool {
    match raw_span(keys, text, key) {
        None => true,
        Some((start, end)) => start <= end && char_at_byte(text, start) is Some && char_at_byte(text, end) is Some,
    }
}

/// Whether a character is white space (Unicode `White_Space`).
pub open spec fn is_white_space(c: char) -> bool {
    ||| c == '\t' || c == '\n' || c == '\x0B' || c == '\x0C' || c == '\r' || c == ' '
    ||| c == '\u{85}' || c == '\u{A0}' || c == '\u{1680}'
    ||| ('\u{2000}' <= c && c <= '\u{200A}')
    ||| c == '\u{2028}' || c == '\u{2029}' || c == '\u{202F}' || c == '\u{205F}' || c == '\u{3000}'
}

/// The text without its trailing white space.
pub open spec fn trim_end_white(s: Seq<char>) -> Seq<char>
    decreases s.len(),
{
    if s.len() > 0 && is_white_space(s.last()) {
        trim_end_white(s.drop_last())
    } else {
        s
    }
}

/// The span of an entry: from the start of its key to the end of its value,
/// trailing white space left out (the end moves back by the bytes of the
/// characters trimmed off the text between the two offsets).
pub open spec fn spec_span(keys: Seq<(Seq<char>, Option<(usize, usize)>)>, text: Seq<char>, key: Seq<char>) -> Option<(usize, usize)> {
    match raw_span(keys, text, key) {
        None => None,
        Some((start, end)) => match (char_at_byte(text, start), char_at_byte(text, end)) {
            (Some(first), Some(past)) => Some(
                (start as usize, (start + byte_len(trim_end_white(text.subrange(first, past)))) as usize),
            ),
            _ => None,
        },
    }
}

fn white_space(c: char) -> (r: bool)
    ensures
        r == is_white_space(c),
{
    c == '\t' || c == '\n' || c == '\x0B' || c == '\x0C' || c == '\r' || c == ' '
        || c == '\u{85}' || c == '\u{A0}' || c == '\u{1680}'
        || ('\u{2000}' <= c && c <= '\u{200A}')
        || c == '\u{2028}' || c == '\u{2029}' || c == '\u{202F}' || c == '\u{205F}' || c == '\u{3000}'
}

/// The byte offset at which a line starts.
fn line_start_of(text: &[char], k: usize) -> (r: u128)
    ensures
        r == line_start(text@, k as nat),
        r <= byte_len(text@) + 1,
    decreases k,
{
    let n = text.len();
    proof {
        lemma_byte_len_bounds(text@);
        assert(text@.take(n as int) =~= text@);
    }
    if k == 0 {
        return 0;
    }
    match crate::text::find_char(text, '\n') {
        Some(i) => {
            proof {
                crate::text::lemma_first_index_of(text@, '\n');
                assert(text@ =~= text@.take(i as int) + seq!['\n'] + text@.skip(i + 1));
                crate::byte_offsets::lemma_byte_len_concat(text@.take(i as int) + seq!['\n'], text@.skip(i + 1));
                crate::byte_offsets::lemma_byte_len_concat(text@.take(i as int), seq!['\n']);
                lemma_char_width('\n');
            }
            let rest = sub_chars(text, i + 1, n);
            assert(rest@ =~= text@.skip(i + 1));
            let inner = line_start_of(rest.as_slice(), k - 1);
            let before = bytes_before(text, i);
            before + 1 + inner
        },
        None => bytes_before(text, n) + 1,
    }
}

fn find_entry(keys: &Vec<(String, Option<(usize, usize)>)>, key: &str) -> (r: Option<usize>)
    ensures
        match r {
            Some(i) => entry_index(key_entries_view(keys@), key@) == Some(i as int) && i < keys@.len()
                && keys@[i as int].1 is Some,
            None => entry_index(key_entries_view(keys@), key@) is None,
        },
{
    let ghost view = key_entries_view(keys@);
    let mut i: usize = 0;
    while i < keys.len()
        invariant
            i <= keys@.len(),
            view == key_entries_view(keys@),
            forall|j: int| 0 <= j < i ==> !entry_at(view, key@, j),
        decreases keys@.len() - i,
    {
        let (k, position) = &keys[i];
        if crate::yaml::value::str_eq(k.as_str(), key) && position.is_some() {
            assert(entry_at(view, key@, i as int));
            let ghost chosen = choose|c: int| #[trigger] entry_at(view, key@, c) && forall|j: int| 0 <= j < c ==> !entry_at(view, key@, j);
            assert(chosen == i as int) by {
                if chosen < i {
                } else if chosen > i {
                    assert(!entry_at(view, key@, i as int));
                }
            }
            return Some(i);
        }
        assert(!entry_at(view, key@, i as int));
        i = i + 1;
    }
    assert(!exists|c: int| #[trigger] entry_at(view, key@, c));
    None
}

/// The offset of a known position.
fn offset_in(text: &[char], position: (usize, usize)) -> (r: u128)
    requires
        position.0 >= 1,
        position.1 >= 1,
    ensures
        r == offset_of(text@, position),
{
    let _n = text.len();
    proof {
        lemma_byte_len_bounds(text@);
    }
    let line_offset = line_start_of(text, position.0 - 1);
    line_offset + position.1 as u128 - 1
}

/// The start of an entry and the start of what follows it.
fn raw_span_of(keys: &Vec<(String, Option<(usize, usize)>)>, text: &[char], key: &str) -> (r: Option<(u128, u128)>)
    requires
        positions_from_one(key_entries_view(keys@)),
    ensures
        match (r, raw_span(key_entries_view(keys@), text@, key@)) {
            (Some((a, b)), Some((c, d))) => a == c && b == d,
            (None, None) => true,
            _ => false,
        },
{
    reveal(raw_span);
    let ghost view = key_entries_view(keys@);
    match find_entry(keys, key) {
        None => None,
        Some(i) => {
            let start_position = match keys[i].1 {
                Some(p) => p,
                None => (1, 1),
            };
            assert(view[i as int] == (keys@[i as int].0@, keys@[i as int].1));
            assert(start_position.0 >= 1 && start_position.1 >= 1);
            let start = offset_in(text, start_position);
            let count = keys.len();
            let end = if i < count - 1 && keys[i + 1].1.is_some() {
                let next = match keys[i + 1].1 {
                    Some(p) => p,
                    None => (1, 1),
                };
                assert(view[i + 1] == (keys@[i + 1].0@, keys@[i + 1].1));
                assert(next.0 >= 1 && next.1 >= 1);
                offset_in(text, next)
            } else {
                proof {
                    assert(text@.take(text@.len() as int) =~= text@);
                }
                bytes_before(text, text.len())
            };
            Some((start, end))
        },
    }
}

/// Whether the offsets of an entry lie in order within the text.
fn span_is_safe(keys: &Vec<(String, Option<(usize, usize)>)>, text: &[char], key: &str) -> (r: bool)
    requires
        positions_from_one(key_entries_view(keys@)),
    ensures
        r == span_fits(key_entries_view(keys@), text@, key@),
{
    match raw_span_of(keys, text, key) {
        None => true,
        Some((start, end)) => {
            let offsets = prefix_offsets(text);
            start <= end && char_index_at(text, &offsets, start).is_some()
                && char_index_at(text, &offsets, end).is_some()
        },
    }
}

/// Where the text from `s` to `e` ends once its trailing white space is
/// left out.
fn trimmed_end(text: &[char], s: usize, e: usize) -> (t: usize)
    requires
        s <= e <= text@.len(),
    ensures
        s <= t <= e,
        trim_end_white(text@.subrange(s as int, e as int)) == text@.subrange(s as int, t as int),
{
    let mut t: usize = e;
    while t > s && white_space(text[t - 1])
        invariant
            s <= t <= e <= text@.len(),
            trim_end_white(text@.subrange(s as int, e as int)) == trim_end_white(text@.subrange(s as int, t as int)),
        decreases t,
    {
        assert(text@.subrange(s as int, t as int).drop_last() =~= text@.subrange(s as int, t - 1));
        t = t - 1;
    }
    t
}

/// The span of an entry, trailing white space left out.
pub fn get_span_of_entry(keys: &Vec<(String, Option<(usize, usize)>)>, text: &[char], key: &str) -> (r: Option<(usize, usize)>)
    requires
        positions_from_one(key_entries_view(keys@)),
        span_fits(key_entries_view(keys@), text@, key@),
        byte_len(text@) <= usize::MAX,
    ensures
        r == spec_span(key_entries_view(keys@), text@, key@),
{
    match raw_span_of(keys, text, key) {
        None => None,
        Some((start, end)) => {
            let offsets = prefix_offsets(text);
            let first = match char_index_at(text, &offsets, start) {
                Some(k) => k,
                None => return None,
            };
            let past = match char_index_at(text, &offsets, end) {
                Some(k) => k,
                None => return None,
            };
            proof {
                lemma_char_at_byte(text@, start as int);
                lemma_char_at_byte(text@, end as int);
                if past < first {
                    lemma_prefix_grows(text@, past as int, first as int);
                }
            }
            let t = trimmed_end(text, first, past);
            proof {
                lemma_prefix_grows(text@, first as int, t as int);
                lemma_prefix_grows(text@, t as int, text@.len() as int);
                assert(text@.take(text@.len() as int) =~= text@);
            }
            Some((start as usize, offsets[t] as usize))
        },
    }
}

/// Where the entries that can be edited lie in a description's text.
#[derive(Debug, Clone, Copy, PartialEq, Eq)]
pub struct Locations {
    pub points: (usize, usize),
    pub name: (usize, usize),
    pub description: (usize, usize),
    pub categories: (usize, usize),
    pub tags: Option<(usize, usize)>,
    pub visible: (usize, usize),
}

/// Whether the positions of all editable entries can be used.
pub open spec fn usable(keys: Seq<(Seq<char>, Option<(usize, usize)>)>, text: Seq<char>) -> bool {
    &&& positions_from_one(keys)
    &&& span_fits(keys, text, "value"@)
    &&& span_fits(keys, text, "name"@)
    &&& span_fits(keys, text, "description"@)
    &&& span_fits(keys, text, "categories"@)
    &&& span_fits(keys, text, "tags"@)
    &&& span_fits(keys, text, "visible"@)
}

/// Where the editable entries lie: the value (points), name, description,
/// categories and visibility must all be there; tags may be missing. Where
/// the parser's positions do not lie in order within the text, nothing is
/// found.
pub open spec fn spec_locations(text: Seq<char>) -> Option<Locations> {
    match top_level_keys(text) {
        None => None,
        Some(keys) => if !usable(keys, text) {
            None
        } else {
            match (
                spec_span(keys, text, "value"@),
                spec_span(keys, text, "name"@),
                spec_span(keys, text, "description"@),
                spec_span(keys, text, "categories"@),
                spec_span(keys, text, "visible"@),
            ) {
                (Some(points), Some(name), Some(description), Some(categories), Some(visible)) => Some(Locations {
                    points,
                    name,
                    description,
                    categories,
                    tags: spec_span(keys, text, "tags"@),
                    visible,
                }),
                _ => None,
            }
        },
    }
}

impl Locations {
    pub fn try_find(yaml_str: &str) -> (r: Option<Locations>)
        ensures
            r == spec_locations(yaml_str@),
    {
        let keys = match marked_top_level_keys(yaml_str) {
            Some(keys) => keys,
            None => return None,
        };
        let chars = chars_of(yaml_str);
        let text = chars.as_slice();
        let _byte_count = yaml_str.as_bytes().len();
        let safe = span_is_safe(&keys, text, "value") && span_is_safe(&keys, text, "name")
            && span_is_safe(&keys, text, "description") && span_is_safe(&keys, text, "categories")
            && span_is_safe(&keys, text, "tags") && span_is_safe(&keys, text, "visible");
        if !safe {
            return None;
        }
        let points = get_span_of_entry(&keys, text, "value");
        let name = get_span_of_entry(&keys, text, "name");
        let description = get_span_of_entry(&keys, text, "description");
        let categories = get_span_of_entry(&keys, text, "categories");
        let tags = get_span_of_entry(&keys, text, "tags");
        let visible = get_span_of_entry(&keys, text, "visible");
        match (points, name, description, categories, visible) {
            (Some(points), Some(name), Some(description), Some(categories), Some(visible)) => Some(Locations {
                points,
                name,
                description,
                categories,
                tags,
                visible,
            }),
            _ => None,
        }
    }
}

/// A new value for an entry.
#[derive(Debug, Clone, PartialEq)]
pub enum EntryValue {
    Text(String),
    Integer(i64),
    List(Vec<String>),
}

pub enum EntryValueView {
    Text(Seq<char>),
    Integer(i64),
    List(Seq<Seq<char>>),
}

impl View for EntryValue {
    type V = EntryValueView;

    open spec fn view(&self) -> EntryValueView {
        match self {
            EntryValue::Text(t) => EntryValueView::Text(t@),
            EntryValue::Integer(n) => EntryValueView::Integer(*n),
            EntryValue::List(items) => EntryValueView::List(items@.map_values(|s: String| s@)),
        }
    }
}

/// The YAML emitter's value type.
#[verifier::external_type_specification]
#[verifier::external_body]
pub struct ExEmitterYaml(yaml_rust2::Yaml);

/// Builds the emitter's value for an entry value: a string, an integer, or a
/// list of strings.
#[verifier::external_body]
fn emitter_value(value: &EntryValue) -> yaml_rust2::Yaml {
    match value {
        EntryValue::Text(t) => yaml_rust2::Yaml::String(t.clone()),
        EntryValue::Integer(n) => yaml_rust2::Yaml::Integer(*n),
        EntryValue::List(items) => yaml_rust2::Yaml::Array(items.iter().map(|s| yaml_rust2::Yaml::String(s.clone())).collect()),
    }
}

/// What the YAML emitter writes for the one-entry mapping `{key: value}`, in
/// block style with multi-line strings as literal blocks, from its document
/// marker on; nothing where it fails.
pub uninterp spec fn emitted_document(key: Seq<char>, value: EntryValueView) -> Option<Seq<char>>;

/// Calls `yaml_rust2::YamlEmitter::dump` (block style, multi-line strings as
/// literal blocks) on the one-entry mapping `{key: value}`. The claim: the
/// text depends on the key and value alone (named [`emitted_document`]).
#[verifier::external_body]
fn emit_document(key: &str, value: &EntryValue) -> (r: Option<String>)
    ensures
        optional_text_view(r) == emitted_document(key@, value@),
{
    let mut entry = yaml_rust2::yaml::Hash::new();
    entry.insert(yaml_rust2::Yaml::String(key.to_string()), emitter_value(value));
    let mut out = String::new();
    let mut emitter = yaml_rust2::YamlEmitter::new(&mut out);
    emitter.compact(false);
    emitter.multiline_strings(true);
    emitter.dump(&yaml_rust2::Yaml::Hash(entry)).ok()?;
    Some(out)
}

pub open spec fn optional_text_view(o: Option<String>) -> Option<Seq<char>> {
    match o {
        Some(s) => Some(s@),
        None => None,
    }
}

/// The text with every leading copy of `pattern` taken off.
pub open spec fn trim_start_pattern(s: Seq<char>, pattern: Seq<char>) -> Seq<char>
    decreases s.len(),
{
    if pattern.len() > 0 && starts_with(s, pattern) {
        trim_start_pattern(s.skip(pattern.len() as int), pattern)
    } else {
        s
    }
}

/// An entry as written into a description: the emitted mapping without its
/// document markers.
pub open spec fn formatted_entry(key: Seq<char>, value: EntryValueView) -> Option<Seq<char>> {
    match emitted_document(key, value) {
        Some(text) => Some(trim_start_pattern(text, "---\n"@)),
        None => None,
    }
}

/// Whether `prefix` occurs in `s` at `start`.
fn prefix_at(s: &[char], start: usize, prefix: &[char]) -> (r: bool)
    requires
        start <= s@.len(),
    ensures
        r == starts_with(s@.skip(start as int), prefix@),
{
    let n = s.len();
    if prefix.len() > n - start {
        return false;
    }
    let mut i: usize = 0;
    while i < prefix.len()
        invariant
            i <= prefix@.len(),
            start + prefix@.len() <= s@.len(),
            n == s@.len(),
            forall|j: int| 0 <= j < i ==> s@[start + j] == prefix@[j],
        decreases prefix@.len() - i,
    {
        if s[start + i] != prefix[i] {
            assert(s@.skip(start as int).take(prefix@.len() as int)[i as int] != prefix@[i as int]);
            return false;
        }
        i = i + 1;
    }
    assert(s@.skip(start as int).take(prefix@.len() as int) =~= prefix@);
    true
}

fn format_yaml_pretty(key: &str, value: &EntryValue) -> (r: Option<String>)
    ensures
        optional_text_view(r) == formatted_entry(key@, value@),
{
    let text = match emit_document(key, value) {
        Some(text) => text,
        None => return None,
    };
    let chars = chars_of(text.as_str());
    let marker = chars_of("---\n");
    proof {
        reveal_strlit("---\n");
    }
    let mut start: usize = 0;
    assert(chars@.skip(0) =~= chars@);
    while start < chars.len() && prefix_at(chars.as_slice(), start, marker.as_slice())
        invariant
            start <= chars@.len(),
            chars@ == text@,
            marker@ == "---\n"@,
            marker@.len() == 4,
            trim_start_pattern(text@, "---\n"@) == trim_start_pattern(chars@.skip(start as int), "---\n"@),
        decreases chars@.len() - start,
    {
        assert(chars@.skip(start as int).skip(4) =~= chars@.skip(start + 4));
        start = start + 4;
    }
    let rest = sub_chars(chars.as_slice(), start, chars.len());
    assert(rest@ =~= chars@.skip(start as int));
    Some(string_of(rest.as_slice()))
}

/// Trimming never lengthens a text.
proof fn lemma_trim_end_shorter(s: Seq<char>)
    ensures
        trim_end_white(s).len() <= s.len(),
    decreases s.len(),
{
    if s.len() > 0 && is_white_space(s.last()) {
        lemma_trim_end_shorter(s.drop_last());
    }
}

/// Trimming keeps a prefix of the text.
proof fn lemma_trim_end_prefix(s: Seq<char>)
    ensures
        trim_end_white(s) == s.take(trim_end_white(s).len() as int),
    decreases s.len(),
{
    if s.len() > 0 && is_white_space(s.last()) {
        lemma_trim_end_prefix(s.drop_last());
        lemma_trim_end_shorter(s.drop_last());
        assert(s.drop_last().take(trim_end_white(s).len() as int) =~= s.take(trim_end_white(s).len() as int));
    } else {
        assert(s.take(s.len() as int) =~= s);
    }
}

/// Whether a span lies in order within a text, both its ends between two
/// characters.
pub open spec fn span_within(span: (usize, usize), text: Seq<char>) -> bool {
    &&& span.0 <= span.1 <= byte_len(text)
    &&& char_at_byte(text, span.0 as int) is Some
    &&& char_at_byte(text, span.1 as int) is Some
}

proof fn lemma_span_within(keys: Seq<(Seq<char>, Option<(usize, usize)>)>, text: Seq<char>, key: Seq<char>)
    requires
        span_fits(keys, text, key),
        byte_len(text) <= usize::MAX,
    ensures
        spec_span(keys, text, key) matches Some(span) ==> span_within(span, text),
{
    if let Some((start, end)) = raw_span(keys, text, key) {
        lemma_char_at_byte(text, start);
        lemma_char_at_byte(text, end);
        let first = char_at_byte(text, start)->0;
        let past = char_at_byte(text, end)->0;
        if past < first {
            lemma_prefix_grows(text, past, first);
        }
        let sub = text.subrange(first, past);
        lemma_trim_end_prefix(sub);
        lemma_trim_end_shorter(sub);
        let t = first + trim_end_white(sub).len();
        assert(trim_end_white(sub) =~= text.subrange(first, t));
        lemma_prefix_grows(text, first, t);
        lemma_prefix_grows(text, t, text.len() as int);
        assert(text.take(text.len() as int) =~= text);
        lemma_boundary_of_prefix(text, t);
    }
}

/// The spans of the entries that were found lie in order within the text,
/// each end between two characters.
pub proof fn lemma_locations_within(text: Seq<char>)
    requires
        byte_len(text) <= usize::MAX,
    ensures
        spec_locations(text) matches Some(l) ==> {
            &&& span_within(l.points, text)
            &&& span_within(l.name, text)
            &&& span_within(l.description, text)
            &&& span_within(l.categories, text)
            &&& (l.tags matches Some(t) ==> span_within(t, text))
            &&& span_within(l.visible, text)
        },
{
    if let Some(keys) = top_level_keys(text) {
        if usable(keys, text) {
            lemma_span_within(keys, text, "value"@);
            lemma_span_within(keys, text, "name"@);
            lemma_span_within(keys, text, "description"@);
            lemma_span_within(keys, text, "categories"@);
            lemma_span_within(keys, text, "tags"@);
            lemma_span_within(keys, text, "visible"@);
        }
    }
}

/// The text before byte offset `start`, then the freshly written entry, then
/// the text from byte offset `end` on.
pub open spec fn spec_try_replace(text: Seq<char>, key: Seq<char>, value: EntryValueView, span: (usize, usize)) -> Option<Seq<char>> {
    match (formatted_entry(key, value), char_at_byte(text, span.0 as int), char_at_byte(text, span.1 as int)) {
        (Some(entry), Some(before), Some(after)) => Some(text.take(before) + entry + text.skip(after)),
        _ => None,
    }
}

/// Replaces the text of a span (byte offsets, each between two characters,
/// as slicing the text asks) by a freshly written `key: value` entry.
pub fn try_replace(yaml_str: &str, key: &str, new_val: &EntryValue, span: (usize, usize)) -> (r: Option<String>)
    requires
        char_at_byte(yaml_str@, span.0 as int) is Some,
        char_at_byte(yaml_str@, span.1 as int) is Some,
    ensures
        optional_text_view(r) == spec_try_replace(yaml_str@, key@, new_val@, span),
{
    let chars = chars_of(yaml_str);
    let offsets = prefix_offsets(chars.as_slice());
    let (first, past) = match (
        char_index_at(chars.as_slice(), &offsets, span.0 as u128),
        char_index_at(chars.as_slice(), &offsets, span.1 as u128),
    ) {
        (Some(first), Some(past)) => (first, past),
        _ => return None,
    };
    proof {
        lemma_char_at_byte(yaml_str@, span.0 as int);
        lemma_char_at_byte(yaml_str@, span.1 as int);
    }
    let entry = match format_yaml_pretty(key, new_val) {
        Some(entry) => entry,
        None => return None,
    };
    let before = sub_chars(chars.as_slice(), 0, first);
    let after = sub_chars(chars.as_slice(), past, chars.len());
    assert(before@ =~= yaml_str@.take(first as int));
    assert(after@ =~= yaml_str@.skip(past as int));
    let mut out = string_of(before.as_slice());
    push_str(&mut out, entry.as_str());
    let rest = string_of(after.as_slice());
    push_str(&mut out, rest.as_str());
    Some(out)
}

/// What replacing one entry gives: the entry must be found, then replaced.
pub open spec fn spec_replace_entry(text: Seq<char>, key: Seq<char>, value: EntryValueView, span_of: spec_fn(Locations) -> (usize, usize)) -> Option<Seq<char>> {
    match spec_locations(text) {
        None => None,
        Some(l) => spec_try_replace(text, key, value, span_of(l)),
    }
}

pub fn try_replace_name(yaml_str: &str, new_name: &str) -> (r: Option<String>)
    ensures
        optional_text_view(r) == spec_replace_entry(yaml_str@, "name"@, EntryValueView::Text(new_name@), |l: Locations| l.name),
{
    let locations = match Locations::try_find(yaml_str) {
        Some(l) => l,
        None => return None,
    };
    let _byte_count = yaml_str.as_bytes().len();
    proof {
        lemma_locations_within(yaml_str@);
    }
    try_replace(yaml_str, "name", &EntryValue::Text(new_name.to_owned()), locations.name)
}

pub fn try_replace_points(yaml_str: &str, new_points: u64) -> (r: Option<String>)
    ensures
        optional_text_view(r) == spec_replace_entry(yaml_str@, "value"@, EntryValueView::Integer(new_points as i64), |l: Locations| l.points),
{
    let locations = match Locations::try_find(yaml_str) {
        Some(l) => l,
        None => return None,
    };
    let _byte_count = yaml_str.as_bytes().len();
    proof {
        lemma_locations_within(yaml_str@);
    }
    try_replace(yaml_str, "value", &EntryValue::Integer(new_points as i64), locations.points)
}

pub fn try_replace_description(yaml_str: &str, new_description: &str) -> (r: Option<String>)
    ensures
        optional_text_view(r) == spec_replace_entry(yaml_str@, "description"@, EntryValueView::Text(new_description@), |l: Locations| l.description),
{
    let locations = match Locations::try_find(yaml_str) {
        Some(l) => l,
        None => return None,
    };
    let _byte_count = yaml_str.as_bytes().len();
    proof {
        lemma_locations_within(yaml_str@);
    }
    try_replace(yaml_str, "description", &EntryValue::Text(new_description.to_owned()), locations.description)
}

pub open spec fn texts_of(items: Seq<String>) -> Seq<Seq<char>> {
    items.map_values(|s: String| s@)
}

fn copy_texts(items: &[String]) -> (r: Vec<String>)
    ensures
        texts_of(r@) == texts_of(items@),
{
    let mut out: Vec<String> = Vec::new();
    let mut i: usize = 0;
    while i < items.len()
        invariant
            i <= items@.len(),
            out@.len() == i,
            forall|j: int| 0 <= j < i ==> (#[trigger] out@[j])@ == items@[j]@,
        decreases items@.len() - i,
    {
        let copy = items[i].clone();
        assert(copy@ == items@[i as int]@);
        out.push(copy);
        i = i + 1;
    }
    assert(texts_of(out@) =~= texts_of(items@));
    out
}

pub fn try_replace_categories(yaml_str: &str, new_categories: &[String]) -> (r: Option<String>)
    ensures
        optional_text_view(r) == spec_replace_entry(yaml_str@, "categories"@, EntryValueView::List(texts_of(new_categories@)), |l: Locations| l.categories),
{
    let locations = match Locations::try_find(yaml_str) {
        Some(l) => l,
        None => return None,
    };
    let _byte_count = yaml_str.as_bytes().len();
    proof {
        lemma_locations_within(yaml_str@);
    }
    try_replace(yaml_str, "categories", &EntryValue::List(copy_texts(new_categories)), locations.categories)
}

/// The text without its trailing line breaks.
pub open spec fn trim_end_newlines(s: Seq<char>) -> Seq<char>
    decreases s.len(),
{
    if s.len() > 0 && s.last() == '\n' {
        trim_end_newlines(s.drop_last())
    } else {
        s
    }
}

/// What setting the tags gives: no tags removes the entry (if any); new tags
/// replace the entry, or are written after the text (its trailing line
/// breaks taken off) where there was none.
pub open spec fn spec_replace_tags(text: Seq<char>, new_tags: Seq<Seq<char>>) -> Option<Seq<char>> {
    match spec_locations(text) {
        None => None,
        Some(l) => if new_tags.len() == 0 {
            match l.tags {
                Some((s, e)) => match (char_at_byte(text, s as int), char_at_byte(text, e as int)) {
                    (Some(before), Some(after)) => Some(text.take(before) + text.skip(after)),
                    _ => None,
                },
                None => Some(text),
            }
        } else {
            match l.tags {
                Some(span) => spec_try_replace(text, "tags"@, EntryValueView::List(new_tags), span),
                None => match formatted_entry("tags"@, EntryValueView::List(new_tags)) {
                    Some(entry) => Some(trim_end_newlines(text) + "\n"@ + entry),
                    None => None,
                },
            }
        },
    }
}

pub fn try_replace_tags(yaml_str: &str, new_tags: &[String]) -> (r: Option<String>)
    ensures
        optional_text_view(r) == spec_replace_tags(yaml_str@, texts_of(new_tags@)),
{
    let locations = match Locations::try_find(yaml_str) {
        Some(l) => l,
        None => return None,
    };
    let _byte_count = yaml_str.as_bytes().len();
    proof {
        lemma_locations_within(yaml_str@);
    }
    let chars = chars_of(yaml_str);
    if new_tags.len() == 0 {
        return match locations.tags {
            Some((s, e)) => {
                let offsets = prefix_offsets(chars.as_slice());
                let (first, past) = match (
                    char_index_at(chars.as_slice(), &offsets, s as u128),
                    char_index_at(chars.as_slice(), &offsets, e as u128),
                ) {
                    (Some(first), Some(past)) => (first, past),
                    _ => return None,
                };
                proof {
                    lemma_char_at_byte(yaml_str@, s as int);
                    lemma_char_at_byte(yaml_str@, e as int);
                }
                let before = sub_chars(chars.as_slice(), 0, first);
                let after = sub_chars(chars.as_slice(), past, chars.len());
                assert(before@ =~= yaml_str@.take(first as int));
                assert(after@ =~= yaml_str@.skip(past as int));
                let mut out = string_of(before.as_slice());
                let rest = string_of(after.as_slice());
                push_str(&mut out, rest.as_str());
                Some(out)
            },
            None => Some(string_of(chars.as_slice())),
        };
    }
    let tags = EntryValue::List(copy_texts(new_tags));
    match locations.tags {
        Some(span) => try_replace(yaml_str, "tags", &tags, span),
        None => {
            let entry = match format_yaml_pretty("tags", &tags) {
                Some(entry) => entry,
                None => return None,
            };
            let mut end: usize = chars.len();
            assert(yaml_str@.take(end as int) =~= yaml_str@);
            while end > 0 && chars[end - 1] == '\n'
                invariant
                    end <= chars@.len(),
                    chars@ == yaml_str@,
                    trim_end_newlines(yaml_str@) == trim_end_newlines(yaml_str@.take(end as int)),
                decreases end,
            {
                assert(yaml_str@.take(end as int).drop_last() =~= yaml_str@.take(end - 1));
                end = end - 1;
            }
            let kept = sub_chars(chars.as_slice(), 0, end);
            assert(kept@ =~= yaml_str@.take(end as int));
            let mut out = string_of(kept.as_slice());
            push_str(&mut out, "\n");
            push_str(&mut out, entry.as_str());
            Some(out)
        },
    }
}

/// Edits to make to a challenge description; each is optional. Tags may be
/// set to none, which removes them.
#[derive(Debug, Clone)]
pub struct Modifications {
    pub name: Option<String>,
    pub desc: Option<String>,
    pub points: Option<u64>,
    pub categories: Option<Vec<String>>,
    pub tags: Option<Option<Vec<String>>>,
}

pub struct ModificationsView {
    pub name: Option<Seq<char>>,
    pub desc: Option<Seq<char>>,
    pub points: Option<u64>,
    pub categories: Option<Seq<Seq<char>>>,
    pub tags: Option<Option<Seq<Seq<char>>>>,
}

impl View for Modifications {
    type V = ModificationsView;

    open spec fn view(&self) -> ModificationsView {
        ModificationsView {
            name: optional_text_view(self.name),
            desc: optional_text_view(self.desc),
            points: self.points,
            categories: match self.categories {
                Some(c) => Some(texts_of(c@)),
                None => None,
            },
            tags: match self.tags {
                Some(Some(t)) => Some(Some(texts_of(t@))),
                Some(None) => Some(None),
                None => None,
            },
        }
    }
}

/// Applies an edit to a text, if there is still a text.
pub open spec fn and_then(t: Option<Seq<char>>, f: spec_fn(Seq<char>) -> Option<Seq<char>>) -> Option<Seq<char>> {
    match t {
        Some(x) => f(x),
        None => None,
    }
}

/// What applying the edits gives: name, description, points, categories and
/// tags in turn, each only where it is asked for; any edit that fails fails
/// the whole.
pub open spec fn spec_apply(m: ModificationsView, text: Seq<char>) -> Option<Seq<char>> {
    let t1 = match m.name {
        Some(n) => spec_replace_entry(text, "name"@, EntryValueView::Text(n), |l: Locations| l.name),
        None => Some(text),
    };
    let t2 = match m.desc {
        Some(d) => and_then(t1, |x: Seq<char>| spec_replace_entry(x, "description"@, EntryValueView::Text(d), |l: Locations| l.description)),
        None => t1,
    };
    let t3 = match m.points {
        Some(p) => and_then(t2, |x: Seq<char>| spec_replace_entry(x, "value"@, EntryValueView::Integer(p as i64), |l: Locations| l.points)),
        None => t2,
    };
    let t4 = match m.categories {
        Some(c) => and_then(t3, |x: Seq<char>| spec_replace_entry(x, "categories"@, EntryValueView::List(c), |l: Locations| l.categories)),
        None => t3,
    };
    match m.tags {
        Some(tags) => and_then(t4, |x: Seq<char>| spec_replace_tags(x, match tags { Some(t) => t, None => Seq::empty() })),
        None => t4,
    }
}

impl Modifications {
    pub fn apply(&self, yaml: &str) -> (r: Option<String>)
        ensures
            optional_text_view(r) == spec_apply(self@, yaml@),
    {
        let mut text = yaml.to_owned();
        match &self.name {
            Some(name) => {
                text = match try_replace_name(text.as_str(), name.as_str()) {
                    Some(t) => t,
                    None => return None,
                };
            },
            None => {},
        }
        match &self.desc {
            Some(desc) => {
                text = match try_replace_description(text.as_str(), desc.as_str()) {
                    Some(t) => t,
                    None => return None,
                };
            },
            None => {},
        }
        match self.points {
            Some(points) => {
                text = match try_replace_points(text.as_str(), points) {
                    Some(t) => t,
                    None => return None,
                };
            },
            None => {},
        }
        match &self.categories {
            Some(categories) => {
                text = match try_replace_categories(text.as_str(), categories.as_slice()) {
                    Some(t) => t,
                    None => return None,
                };
            },
            None => {},
        }
        match &self.tags {
            Some(tags) => {
                let empty: Vec<String> = Vec::new();
                let list = match tags {
                    Some(t) => t.as_slice(),
                    None => empty.as_slice(),
                };
                proof {
                    assert(texts_of(empty@) =~= Seq::<Seq<char>>::empty());
                }
                text = match try_replace_tags(text.as_str(), list) {
                    Some(t) => t,
                    None => return None,
                };
            },
            None => {},
        }
        Some(text)
    }
}

/// Setting tags on a description that already has a tags entry replaces that
/// entry: the text before the old entry and the text after it are kept, and
/// the freshly written `tags:` entry with the new tags stands between them.
/// So the result differs from the input whenever the written entry differs
/// from the old one.
pub proof fn lemma_tags_replace_existing_entry(text: Seq<char>, new_tags: Seq<Seq<char>>)
    requires
        byte_len(text) <= usize::MAX,
        new_tags.len() > 0,
        (spec_locations(text) matches Some(l) && l.tags is Some),
        formatted_entry("tags"@, EntryValueView::List(new_tags)) is Some,
    ensures
        ({
            let span = spec_locations(text)->0.tags->0;
            let before = char_at_byte(text, span.0 as int)->0;
            let after = char_at_byte(text, span.1 as int)->0;
            let entry = formatted_entry("tags"@, EntryValueView::List(new_tags))->0;
            &&& char_at_byte(text, span.0 as int) is Some
            &&& char_at_byte(text, span.1 as int) is Some
            &&& 0 <= before <= after <= text.len()
            &&& spec_replace_tags(text, new_tags) == Some(text.take(before) + entry + text.skip(after))
            &&& (entry != text.subrange(before, after) ==> spec_replace_tags(text, new_tags) != Some(text))
        }),
{
    lemma_locations_within(text);
    let span = spec_locations(text)->0.tags->0;
    lemma_char_at_byte(text, span.0 as int);
    lemma_char_at_byte(text, span.1 as int);
    let before = char_at_byte(text, span.0 as int)->0;
    let after = char_at_byte(text, span.1 as int)->0;
    if after < before {
        lemma_prefix_grows(text, after, before);
    }
    let entry = formatted_entry("tags"@, EntryValueView::List(new_tags))->0;
    let result = text.take(before) + entry + text.skip(after);
    if result == text {
        assert(entry.len() == after - before);
        assert(entry =~= text.subrange(before, after)) by {
            assert forall|k: int| 0 <= k < entry.len() implies entry[k] == text.subrange(before, after)[k] by {
                assert(result[before + k] == entry[k]);
            }
        }
    }
}

} // verus!
