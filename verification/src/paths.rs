//! Paths on a Unix file system, written as text, and the paths this project
//! builds from them.

use vstd::prelude::*;

use crate::text::{chars_of, last_index_of, push_char, push_str, rfind_char, string_of, sub_chars};

verus! {

/// The path that pushing `part` onto `base` gives: an absolute `part`
/// replaces `base`; otherwise `part` is appended, after a `/` unless `base`
/// is empty or already ends with one.
pub open spec fn pushed(base: Seq<char>, part: Seq<char>) -> Seq<char> {
    if part.len() > 0 && part[0] == '/' {
        part
    } else if base.len() == 0 || base.last() == '/' {
        base + part
    } else {
        base + seq!['/'] + part
    }
}

/// The path built by pushing each part in turn onto an empty path.
pub open spec fn joined_path(parts: Seq<Seq<char>>) -> Seq<char>
    decreases parts.len(),
{
    if parts.len() == 0 {
        Seq::empty()
    } else {
        pushed(joined_path(parts.drop_last()), parts.last())
    }
}

/// Pushes `part` onto `base`, as `PathBuf::push` does on Unix.
pub fn path_push(base: &mut String, part: &str)
    ensures
        final(base)@ == pushed(old(base)@, part@),
{
    let part_chars = chars_of(part);
    if part_chars.len() > 0 && part_chars[0] == '/' {
        *base = string_of(part_chars.as_slice());
    } else {
        let base_chars = chars_of(base.as_str());
        let needs_separator = base_chars.len() > 0 && base_chars[base_chars.len() - 1] != '/';
        if needs_separator {
            push_char(base, '/');
        }
        push_str(base, part);
        assert(base_chars@ == old(base)@);
    }
}

/// The path made of the given parts, each pushed in turn.
pub fn path_of(parts: &[&str]) -> (r: String)
    ensures
        r@ == joined_path(parts@.map_values(|p: &str| p@)),
{
    let ghost views = parts@.map_values(|p: &str| p@);
    let mut out = String::new();
    let mut i: usize = 0;
    assert(views.take(0) =~= Seq::<Seq<char>>::empty());
    while i < parts.len()
        invariant
            i <= parts@.len(),
            views == parts@.map_values(|p: &str| p@),
            out@ == joined_path(views.take(i as int)),
        decreases parts@.len() - i,
    {
        path_push(&mut out, parts[i]);
        assert(views.take(i + 1).drop_last() =~= views.take(i as int));
        i = i + 1;
    }
    assert(views.take(parts@.len() as int) =~= views);
    out
}

/// The last component of a `/`-separated path: what follows its last `/`,
/// or the whole path where there is none.
pub open spec fn last_component(path: Seq<char>) -> Seq<char> {
    match last_index_of(path, '/') {
        Some(i) => path.skip(i + 1),
        None => path,
    }
}

/// What follows the last `/` of a path, or the whole path.
pub fn after_last_slash(path: &str) -> (r: String)
    ensures
        r@ == last_component(path@),
{
    let chars = chars_of(path);
    match rfind_char(chars.as_slice(), '/') {
        Some(i) => {
            proof {
                crate::text::lemma_last_index_of(chars@, '/');
            }
            let rest = sub_chars(chars.as_slice(), i + 1, chars.len());
            assert(rest@ =~= path@.skip(i + 1));
            string_of(rest.as_slice())
        },
        None => string_of(chars.as_slice()),
    }
}

} // verus!
