//! Byte offsets into a text: where its characters start in its UTF-8
//! encoding, and which character a byte offset falls before.

use vstd::prelude::*;
use vstd::utf8::{
    char_is_scalar, encode_scalar, encode_utf8, encode_utf8_first_scalar, encode_utf8_valid_utf8, is_char_boundary,
    pop_first_scalar,
};

verus! {

/// The number of bytes of a text in UTF-8.
pub open spec fn byte_len(text: Seq<char>) -> nat {
    encode_utf8(text).len()
}

/// The character index at which the first `b` bytes of the text end: `None`
/// where byte offset `b` falls inside a character or past the end (it is no
/// character boundary).
pub open spec fn char_at_byte(text: Seq<char>, b: int) -> Option<int>
    decreases text.len(),
{
    if b == 0 {
        Some(0)
    } else if b < 0 || text.len() == 0 {
        None
    } else {
        match char_at_byte(text.drop_first(), b - byte_len(seq![text[0]])) {
            Some(k) => Some(k + 1),
            None => None,
        }
    }
}

/// The encoding of a concatenation is the concatenation of the encodings.
pub proof fn lemma_encode_concat(a: Seq<char>, b: Seq<char>)
    ensures
        encode_utf8(a + b) == encode_utf8(a) + encode_utf8(b),
    decreases a.len(),
{
    if a.len() == 0 {
        assert(a + b =~= b);
        assert(encode_utf8(a) + encode_utf8(b) =~= encode_utf8(b));
    } else {
        lemma_encode_concat(a.drop_first(), b);
        assert((a + b).drop_first() =~= a.drop_first() + b);
        assert((a + b)[0] == a[0]);
        assert(encode_utf8(a + b) =~= encode_utf8(a) + encode_utf8(b));
    }
}

/// Byte lengths add up over a concatenation.
pub proof fn lemma_byte_len_concat(a: Seq<char>, b: Seq<char>)
    ensures
        byte_len(a + b) == byte_len(a) + byte_len(b),
{
    lemma_encode_concat(a, b);
}

/// A character takes one to four bytes, and one exactly where it is ASCII.
pub proof fn lemma_char_width(c: char)
    ensures
        encode_utf8(seq![c]) == encode_scalar(c as u32),
        1 <= byte_len(seq![c]) <= 4,
        (c as u32) <= 0x7f ==> byte_len(seq![c]) == 1,
        0x80 <= (c as u32) <= 0x7ff ==> byte_len(seq![c]) == 2,
        0x800 <= (c as u32) <= 0xffff ==> byte_len(seq![c]) == 3,
        0x10000 <= (c as u32) ==> byte_len(seq![c]) == 4,
{
    let s = seq![c];
    assert(s.drop_first() =~= Seq::<char>::empty());
    assert(encode_utf8(s) == encode_scalar(c as u32) + encode_utf8(s.drop_first()));
    assert(encode_utf8(Seq::<char>::empty()) =~= Seq::<u8>::empty());
    assert(encode_utf8(s) =~= encode_scalar(c as u32));
    char_is_scalar(c);
}

/// A text takes at least one and at most four bytes per character.
pub proof fn lemma_byte_len_bounds(s: Seq<char>)
    ensures
        s.len() <= byte_len(s) <= 4 * s.len(),
    decreases s.len(),
{
    if s.len() > 0 {
        lemma_byte_len_bounds(s.drop_first());
        assert(s =~= seq![s[0]] + s.drop_first());
        lemma_byte_len_concat(seq![s[0]], s.drop_first());
        lemma_char_width(s[0]);
    }
}

/// The bytes of a longer prefix: at least one more per added character.
pub proof fn lemma_prefix_grows(text: Seq<char>, i: int, j: int)
    requires
        0 <= i <= j <= text.len(),
    ensures
        byte_len(text.take(i)) + (j - i) <= byte_len(text.take(j)),
        byte_len(text.take(j)) == byte_len(text.take(i)) + byte_len(text.subrange(i, j)),
{
    assert(text.take(j) =~= text.take(i) + text.subrange(i, j));
    lemma_byte_len_concat(text.take(i), text.subrange(i, j));
    lemma_byte_len_bounds(text.subrange(i, j));
}

/// One more character adds its own bytes.
pub proof fn lemma_prefix_step(text: Seq<char>, k: int)
    requires
        0 <= k < text.len(),
    ensures
        byte_len(text.take(k + 1)) == byte_len(text.take(k)) + byte_len(seq![text[k]]),
{
    assert(text.take(k + 1) =~= text.take(k) + seq![text[k]]);
    lemma_byte_len_concat(text.take(k), seq![text[k]]);
}

/// The character at a byte offset is the one whose prefix takes exactly that
/// many bytes; where no prefix does, the offset is no boundary.
pub proof fn lemma_char_at_byte(text: Seq<char>, b: int)
    ensures
        match char_at_byte(text, b) {
            Some(k) => 0 <= k <= text.len() && byte_len(text.take(k)) == b,
            None => forall|k: int| 0 <= k <= text.len() ==> byte_len(#[trigger] text.take(k)) != b,
        },
    decreases text.len(),
{
    assert(text.take(0) =~= Seq::<char>::empty());
    if b == 0 {
    } else if b < 0 || text.len() == 0 {
    } else {
        let rest = text.drop_first();
        let w = byte_len(seq![text[0]]);
        lemma_char_at_byte(rest, b - w);
        assert forall|k: int| 1 <= k <= text.len() implies byte_len(#[trigger] text.take(k)) == w + byte_len(rest.take(k - 1)) by {
            assert(text.take(k) =~= seq![text[0]] + rest.take(k - 1));
            lemma_byte_len_concat(seq![text[0]], rest.take(k - 1));
        }
        match char_at_byte(rest, b - w) {
            Some(k) => {
                assert(byte_len(text.take(k + 1)) == w + byte_len(rest.take(k)));
            },
            None => {
                assert forall|k: int| 0 <= k <= text.len() implies byte_len(#[trigger] text.take(k)) != b by {
                    if k >= 1 {
                        assert(byte_len(text.take(k)) == w + byte_len(rest.take(k - 1)));
                    }
                }
            },
        }
    }
}

/// The byte offset at which a prefix ends is a boundary, and falls before
/// the character that follows that prefix.
pub proof fn lemma_boundary_of_prefix(text: Seq<char>, k: int)
    requires
        0 <= k <= text.len(),
    ensures
        char_at_byte(text, byte_len(text.take(k)) as int) == Some(k),
{
    let b = byte_len(text.take(k)) as int;
    lemma_char_at_byte(text, b);
    if let Some(j) = char_at_byte(text, b) {
        if j < k {
            lemma_prefix_grows(text, j, k);
        } else if j > k {
            lemma_prefix_grows(text, k, j);
        }
    }
}

/// The byte offset at which a prefix ends is a character boundary of the
/// text's encoding.
pub proof fn lemma_prefix_is_char_boundary(text: Seq<char>, k: int)
    requires
        0 <= k <= text.len(),
    ensures
        is_char_boundary(encode_utf8(text), byte_len(text.take(k)) as int),
    decreases text.len(),
{
    broadcast use encode_utf8_valid_utf8;

    if k == 0 {
        assert(text.take(0) =~= Seq::<char>::empty());
    } else {
        let bytes = encode_utf8(text);
        let rest = text.drop_first();
        encode_utf8_first_scalar(text);
        lemma_char_width(text[0]);
        assert(text =~= seq![text[0]] + rest);
        lemma_encode_concat(seq![text[0]], rest);
        assert(pop_first_scalar(bytes) =~= encode_utf8(rest));
        lemma_prefix_is_char_boundary(rest, k - 1);
        assert(text.take(k) =~= seq![text[0]] + rest.take(k - 1));
        lemma_byte_len_concat(seq![text[0]], rest.take(k - 1));
        lemma_prefix_grows(text, k, text.len() as int);
        assert(text.take(text.len() as int) =~= text);
    }
}

/// The number of bytes a character takes in UTF-8.
pub fn utf8_width(c: char) -> (w: u128)
    ensures
        w == byte_len(seq![c]),
{
    proof {
        lemma_char_width(c);
    }
    if c <= '\u{7f}' {
        1
    } else if c <= '\u{7ff}' {
        2
    } else if c <= '\u{ffff}' {
        3
    } else {
        4
    }
}

/// The byte offsets at which the text's prefixes end, from the empty one to
/// the whole text.
pub fn prefix_offsets(text: &[char]) -> (r: Vec<u128>)
    ensures
        r@.len() == text@.len() + 1,
        forall|k: int| 0 <= k <= text@.len() ==> r@[k] == byte_len(#[trigger] text@.take(k)),
{
    let n = text.len();
    let mut r: Vec<u128> = Vec::new();
    let mut acc: u128 = 0;
    assert(text@.take(0) =~= Seq::<char>::empty());
    r.push(acc);
    let mut i: usize = 0;
    while i < n
        invariant
            i <= n,
            n == text@.len(),
            r@.len() == i + 1,
            acc == byte_len(text@.take(i as int)),
            forall|k: int| 0 <= k <= i ==> r@[k] == byte_len(#[trigger] text@.take(k)),
        decreases n - i,
    {
        proof {
            lemma_prefix_step(text@, i as int);
            lemma_byte_len_bounds(text@.take(i + 1));
        }
        let w = utf8_width(text[i]);
        acc = acc + w;
        r.push(acc);
        i = i + 1;
    }
    r
}

/// The number of bytes of the first `k` characters.
pub fn bytes_before(text: &[char], k: usize) -> (r: u128)
    requires
        k <= text@.len(),
    ensures
        r == byte_len(text@.take(k as int)),
{
    let offsets = prefix_offsets(text);
    offsets[k]
}

/// The character index at which a byte offset falls, given the offsets of
/// the prefixes; `None` where it is no character boundary.
pub fn char_index_at(text: &[char], offsets: &Vec<u128>, b: u128) -> (r: Option<usize>)
    requires
        offsets@.len() == text@.len() + 1,
        forall|k: int| 0 <= k <= text@.len() ==> offsets@[k] == byte_len(#[trigger] text@.take(k)),
    ensures
        match r {
            Some(k) => char_at_byte(text@, b as int) == Some(k as int),
            None => char_at_byte(text@, b as int) is None,
        },
{
    proof {
        lemma_char_at_byte(text@, b as int);
    }
    let n = text.len();
    let mut k: usize = 0;
    while k < n
        invariant
            k <= n,
            n == text@.len(),
            offsets@.len() == n + 1,
            forall|j: int| 0 <= j <= n ==> offsets@[j] == byte_len(#[trigger] text@.take(j)),
            forall|j: int| 0 <= j < k ==> byte_len(#[trigger] text@.take(j)) != b,
        decreases n - k,
    {
        if offsets[k] == b {
            proof {
                lemma_boundary_of_prefix(text@, k as int);
            }
            return Some(k);
        }
        k = k + 1;
    }
    if offsets[n] == b {
        proof {
            lemma_boundary_of_prefix(text@, n as int);
        }
        return Some(n);
    }
    proof {
        if let Some(j) = char_at_byte(text@, b as int) {
            assert(byte_len(text@.take(j)) != b);
        }
    }
    None
}

} // verus!
