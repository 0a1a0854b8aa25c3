//! Byte offsets of characters in UTF-8 encoded text.
//!
//! Text is modelled as a sequence of `char`s; positions handed around by the
//! editing code are byte offsets into its UTF-8 encoding. This module relates
//! the two views and provides the small executable helpers that need them.
use vstd::prelude::*;
use vstd::utf8::*;

verus! {

/// Number of bytes in the UTF-8 encoding of `c` (what `char::len_utf8` documents).
pub open spec fn utf8_width(c: char) -> nat {
    let v = c as u32;
    if v <= 0x7F {
        1
    } else if v <= 0x7FF {
        2
    } else if v <= 0xFFFF {
        3
    } else {
        4
    }
}

/// Length in bytes of the UTF-8 encoding of `s`.
pub open spec fn byte_len(s: Seq<char>) -> nat {
    encode_utf8(s).len()
}

/// Byte offset at which character `k` of `s` starts (the end of the text when `k == s.len()`).
pub open spec fn char_offset(s: Seq<char>, k: int) -> nat {
    byte_len(s.take(k))
}

/// `pos` is the byte offset of a character start, or of the end of the text.
pub open spec fn is_boundary(s: Seq<char>, pos: int) -> bool {
    exists|k: int| 0 <= k <= s.len() && #[trigger] char_offset(s, k) == pos
}

/// The index of the character that starts at byte offset `pos` (meaningful when `is_boundary(s, pos)`).
pub open spec fn char_index_at(s: Seq<char>, pos: int) -> int {
    choose|k: int| 0 <= k <= s.len() && #[trigger] char_offset(s, k) == pos
}

pub proof fn lemma_encode_scalar_len(c: char)
    ensures
        encode_scalar(c as u32).len() == utf8_width(c),
        1 <= utf8_width(c) <= 4,
{
    char_is_scalar(c);
}

pub proof fn lemma_encode_single(c: char)
    ensures
        encode_utf8(seq![c]) == encode_scalar(c as u32),
        byte_len(seq![c]) == utf8_width(c),
{
    lemma_encode_scalar_len(c);
    let s = seq![c];
    assert(s.drop_first() =~= Seq::<char>::empty());
    assert(encode_utf8(s.drop_first()) =~= Seq::<u8>::empty());
    assert(encode_utf8(s) =~= encode_scalar(c as u32));
}

/// Encoding distributes over concatenation.
pub proof fn lemma_encode_concat(a: Seq<char>, b: Seq<char>)
    ensures
        encode_utf8(a + b) == encode_utf8(a) + encode_utf8(b),
    decreases a.len(),
{
    if a.len() == 0 {
        assert(a + b =~= b);
        assert(encode_utf8(a) =~= Seq::<u8>::empty());
        assert(encode_utf8(a) + encode_utf8(b) =~= encode_utf8(b));
    } else {
        lemma_encode_concat(a.drop_first(), b);
        assert((a + b).drop_first() =~= a.drop_first() + b);
        assert((a + b)[0] == a[0]);
        assert(encode_utf8(a + b) =~= encode_scalar(a[0] as u32) + encode_utf8(a.drop_first() + b));
        assert(encode_utf8(a + b) =~= encode_utf8(a) + encode_utf8(b));
    }
}

pub proof fn lemma_byte_len_concat(a: Seq<char>, b: Seq<char>)
    ensures
        byte_len(a + b) == byte_len(a) + byte_len(b),
{
    lemma_encode_concat(a, b);
}

pub proof fn lemma_byte_len_push(s: Seq<char>, c: char)
    ensures
        byte_len(s.push(c)) == byte_len(s) + utf8_width(c),
{
    assert(s.push(c) =~= s + seq![c]);
    lemma_byte_len_concat(s, seq![c]);
    lemma_encode_single(c);
}

/// The text has at least as many bytes as characters.
pub proof fn lemma_byte_len_ge_len(s: Seq<char>)
    ensures
        s.len() <= byte_len(s),
    decreases s.len(),
{
    if s.len() > 0 {
        lemma_byte_len_ge_len(s.drop_last());
        assert(s =~= s.drop_last().push(s.last()));
        lemma_byte_len_push(s.drop_last(), s.last());
        lemma_encode_scalar_len(s.last());
    }
}

pub proof fn lemma_offset_zero_end(s: Seq<char>)
    ensures
        char_offset(s, 0) == 0,
        char_offset(s, s.len() as int) == byte_len(s),
        is_boundary(s, 0),
        is_boundary(s, byte_len(s) as int),
{
    assert(s.take(0) =~= Seq::<char>::empty());
    assert(encode_utf8(s.take(0)) =~= Seq::<u8>::empty());
    assert(s.take(s.len() as int) =~= s);
    assert(char_offset(s, 0) == 0);
    assert(char_offset(s, s.len() as int) == byte_len(s));
}

/// Moving one character forward advances the byte offset by that character's width.
pub proof fn lemma_offset_succ(s: Seq<char>, k: int)
    requires
        0 <= k < s.len(),
    ensures
        char_offset(s, k + 1) == char_offset(s, k) + utf8_width(s[k]),
        1 <= utf8_width(s[k]) <= 4,
{
    assert(s.take(k + 1) =~= s.take(k).push(s[k]));
    lemma_byte_len_push(s.take(k), s[k]);
    lemma_encode_scalar_len(s[k]);
}

/// Byte offsets grow strictly with the character index.
pub proof fn lemma_offset_strict(s: Seq<char>, i: int, j: int)
    requires
        0 <= i <= j <= s.len(),
    ensures
        char_offset(s, i) + (j - i) <= char_offset(s, j),
        i < j ==> char_offset(s, i) < char_offset(s, j),
    decreases j - i,
{
    if i < j {
        lemma_offset_strict(s, i, j - 1);
        lemma_offset_succ(s, j - 1);
    }
}

/// Every byte offset lies within the encoding.
pub proof fn lemma_offset_bound(s: Seq<char>, k: int)
    requires
        0 <= k <= s.len(),
    ensures
        char_offset(s, k) <= byte_len(s),
{
    lemma_offset_strict(s, k, s.len() as int);
    lemma_offset_zero_end(s);
}

/// A boundary identifies a unique character index.
pub proof fn lemma_offset_injective(s: Seq<char>, i: int, j: int)
    requires
        0 <= i <= s.len(),
        0 <= j <= s.len(),
        char_offset(s, i) == char_offset(s, j),
    ensures
        i == j,
{
    if i < j {
        lemma_offset_strict(s, i, j);
    } else if j < i {
        lemma_offset_strict(s, j, i);
    }
}

/// Properties of `char_index_at` at a boundary.
pub proof fn lemma_char_index_at(s: Seq<char>, pos: int)
    requires
        is_boundary(s, pos),
    ensures
        0 <= char_index_at(s, pos) <= s.len(),
        char_offset(s, char_index_at(s, pos)) == pos,
        forall|k: int| 0 <= k <= s.len() && char_offset(s, k) == pos ==> k == char_index_at(s, pos),
{
    let k0 = char_index_at(s, pos);
    assert forall|k: int| 0 <= k <= s.len() && char_offset(s, k) == pos implies k == k0 by {
        lemma_offset_injective(s, k, k0);
    }
}

/// No boundary lies strictly between two consecutive character starts.
pub proof fn lemma_no_boundary_between(s: Seq<char>, k: int, pos: int)
    requires
        0 <= k < s.len(),
        char_offset(s, k) < pos < char_offset(s, k + 1),
    ensures
        !is_boundary(s, pos),
{
    if is_boundary(s, pos) {
        let j = char_index_at(s, pos);
        lemma_char_index_at(s, pos);
        if j <= k {
            lemma_offset_strict(s, j, k);
        } else {
            lemma_offset_strict(s, k + 1, j);
        }
    }
}

/// Offsets in `s` equal the first character's width plus offsets in the rest.
pub proof fn lemma_offset_drop_first(s: Seq<char>, k: int)
    requires
        1 <= k <= s.len(),
    ensures
        char_offset(s, k) == utf8_width(s[0]) + char_offset(s.drop_first(), k - 1),
{
    assert(s.take(k) =~= seq![s[0]] + s.drop_first().take(k - 1));
    lemma_byte_len_concat(seq![s[0]], s.drop_first().take(k - 1));
    lemma_encode_single(s[0]);
}

/// The byte-level notion of a character boundary used by `str` agrees with `is_boundary`.
pub proof fn lemma_is_char_boundary_iff(s: Seq<char>, pos: int)
    ensures
        is_char_boundary(encode_utf8(s), pos) <==> is_boundary(s, pos),
    decreases s.len(),
{
    let bytes = encode_utf8(s);
    encode_utf8_valid_utf8(s);
    lemma_offset_zero_end(s);
    if pos == 0 {
    } else if pos < 0 || bytes.len() < pos {
        if is_boundary(s, pos) {
            let k = char_index_at(s, pos);
            lemma_char_index_at(s, pos);
            lemma_offset_bound(s, k);
        }
    } else {
        // here 0 < pos <= bytes.len(), so s is not empty
        assert(s.len() > 0);
        encode_utf8_first_scalar(s);
        lemma_encode_scalar_len(s[0]);
        let rest = s.drop_first();
        let w = utf8_width(s[0]);
        assert(pop_first_scalar(bytes) =~= encode_utf8(rest));
        lemma_is_char_boundary_iff(rest, pos - w);
        if is_boundary(rest, pos - w) {
            let j = char_index_at(rest, pos - w);
            lemma_char_index_at(rest, pos - w);
            lemma_offset_drop_first(s, j + 1);
            assert(char_offset(s, j + 1) == pos);
        }
        if is_boundary(s, pos) {
            let k = char_index_at(s, pos);
            lemma_char_index_at(s, pos);
            assert(k >= 1);
            lemma_offset_drop_first(s, k);
            assert(char_offset(rest, k - 1) == pos - w);
        }
    }
}

/// Encoding is injective: equal encodings come from equal texts.
pub proof fn lemma_encode_injective(a: Seq<char>, b: Seq<char>)
    requires
        encode_utf8(a) == encode_utf8(b),
    ensures
        a == b,
{
    encode_utf8_decode_utf8(a);
    encode_utf8_decode_utf8(b);
}

/// Splitting the encoding at the offset of character `k` splits the text at `k`.
pub proof fn lemma_split_encoding(s: Seq<char>, k: int)
    requires
        0 <= k <= s.len(),
    ensures
        encode_utf8(s).subrange(0, char_offset(s, k) as int) == encode_utf8(s.take(k)),
        encode_utf8(s).subrange(char_offset(s, k) as int, byte_len(s) as int) == encode_utf8(
            s.skip(k),
        ),
        char_offset(s, k) + byte_len(s.skip(k)) == byte_len(s),
{
    assert(s =~= s.take(k) + s.skip(k));
    lemma_encode_concat(s.take(k), s.skip(k));
    let a = encode_utf8(s.take(k));
    let b = encode_utf8(s.skip(k));
    assert(encode_utf8(s).subrange(0, a.len() as int) =~= a);
    assert(encode_utf8(s).subrange(a.len() as int, encode_utf8(s).len() as int) =~= b);
}

/// `str::split_at` at a character boundary, seen as characters.
pub fn split_at_boundary(s: &str, pos: usize) -> (r: (&str, &str))
    requires
        is_boundary(s@, pos as int),
    ensures
        r.0@ == s@.take(char_index_at(s@, pos as int)),
        r.1@ == s@.skip(char_index_at(s@, pos as int)),
{
    proof {
        lemma_is_char_boundary_iff(s@, pos as int);
    }
    let r = s.split_at(pos);
    proof {
        let k = char_index_at(s@, pos as int);
        lemma_char_index_at(s@, pos as int);
        lemma_split_encoding(s@, k);
        lemma_encode_injective(r.0@, s@.take(k));
        lemma_encode_injective(r.1@, s@.skip(k));
    }
    r
}

/// Whether byte offset `i` of `s` is a character boundary (`str::is_char_boundary`).
pub fn at_boundary(s: &str, i: usize) -> (r: bool)
    ensures
        r == is_boundary(s@, i as int),
{
    proof {
        lemma_is_char_boundary_iff(s@, i as int);
    }
    s.is_char_boundary(i)
}

/// ASCII lowercase of one character.
pub open spec fn ascii_lower(c: char) -> char {
    if 'A' <= c <= 'Z' {
        ((c as u32) + 32) as char
    } else {
        c
    }
}

/// Whether every character is ASCII.
pub open spec fn all_ascii(s: Seq<char>) -> bool {
    forall|i: int| 0 <= i < s.len() ==> (s[i] as u32) < 128
}

/// Lowercase mapping of text that holds a non-ASCII character (Unicode tables; one
/// character may map to several).
pub uninterp spec fn unicode_lowercase(s: Seq<char>) -> Seq<char>;

/// What `str::to_lowercase` gives: for ASCII text, `A-Z` mapped to `a-z` and nothing else changed.
pub open spec fn lowercase(s: Seq<char>) -> Seq<char> {
    if all_ascii(s) {
        s.map_values(|c: char| ascii_lower(c))
    } else {
        unicode_lowercase(s)
    }
}

/// `str::to_lowercase`: the Unicode lowercase of `s`; on ASCII text it maps `A-Z` to `a-z`
/// and leaves every other character alone.
#[verifier::external_body]
pub(crate) fn to_lowercase(s: &str) -> (r: String)
    ensures
        all_ascii(s@) ==> r@ == s@.map_values(|c: char| ascii_lower(c)),
        !all_ascii(s@) ==> r@ == unicode_lowercase(s@),
{
    s.to_lowercase()
}

/// Two strings hold the same characters.
pub fn str_equal(a: &str, b: &str) -> (r: bool)
    ensures
        r == (a@ == b@),
{
    let x = a.as_bytes();
    let y = b.as_bytes();
    proof {
        if encode_utf8(a@) == encode_utf8(b@) {
            lemma_encode_injective(a@, b@);
        }
    }
    if x.len() != y.len() {
        return false;
    }
    let mut i: usize = 0;
    while i < x.len()
        invariant
            x@ == encode_utf8(a@),
            y@ == encode_utf8(b@),
            x@.len() == y@.len(),
            i <= x@.len(),
            forall|j: int| 0 <= j < i ==> x@[j] == y@[j],
        decreases x@.len() - i,
    {
        if x[i] != y[i] {
            return false;
        }
        i = i + 1;
    }
    proof {
        assert(x@ =~= y@);
    }
    true
}

/// In ASCII text every character is one byte, so byte offsets are character indices.
pub proof fn lemma_ascii_offsets(s: Seq<char>)
    requires
        all_ascii(s),
    ensures
        byte_len(s) == s.len(),
        forall|k: int| 0 <= k <= s.len() ==> #[trigger] char_offset(s, k) == k,
        forall|k: int| 0 <= k <= s.len() ==> is_boundary(s, k),
        forall|k: int| 0 <= k <= s.len() ==> char_index_at(s, k) == k,
{
    assert forall|k: int| 0 <= k <= s.len() implies #[trigger] char_offset(s, k) == k by {
        lemma_ascii_prefix(s, k);
    }
    lemma_offset_zero_end(s);
    assert forall|k: int| 0 <= k <= s.len() implies is_boundary(s, k) by {
        assert(char_offset(s, k) == k);
    }
    assert forall|k: int| 0 <= k <= s.len() implies char_index_at(s, k) == k by {
        assert(char_offset(s, k) == k);
        lemma_char_index_at(s, k);
    }
}

proof fn lemma_ascii_prefix(s: Seq<char>, k: int)
    requires
        all_ascii(s),
        0 <= k <= s.len(),
    ensures
        char_offset(s, k) == k,
    decreases k,
{
    if k == 0 {
        lemma_offset_zero_end(s);
    } else {
        lemma_ascii_prefix(s, k - 1);
        lemma_offset_succ(s, k - 1);
    }
}

/// Width of a character in bytes, as `char::len_utf8` computes it.
pub fn char_width(c: char) -> (w: usize)
    ensures
        w == utf8_width(c),
{
    let v = c as u32;
    if v <= 0x7F {
        1
    } else if v <= 0x7FF {
        2
    } else if v <= 0xFFFF {
        3
    } else {
        4
    }
}

/// `str::len`: the number of bytes of the UTF-8 encoding, which is what a `str` stores. (vstd
/// gives that number cast to `usize`, with no bound that would show the cast keeps it.)
#[verifier::external_body]
pub(crate) fn str_byte_len(s: &str) -> (n: usize)
    ensures
        n == byte_len(s@),
{
    s.len()
}

/// The index of the first string of `s` equal to `v`, if there is one.
pub open spec fn position_of(s: Seq<Seq<char>>, v: Seq<char>) -> Option<int> {
    if exists|i: int| 0 <= i < s.len() && s[i] == v {
        Some(
            choose|i: int|
                0 <= i < s.len() && s[i] == v && forall|j: int| 0 <= j < i ==> s[j] != v,
        )
    } else {
        None
    }
}

/// The texts of a list of strings.
pub open spec fn texts(v: Seq<String>) -> Seq<Seq<char>> {
    v.map_values(|s: String| s@)
}

/// The index of the first string in `v` equal to `value` (`Iterator::position`).
pub fn find_position(v: &Vec<String>, value: &str) -> (r: Option<usize>)
    ensures
        r matches Some(i) ==> position_of(texts(v@), value@) == Some(i as int),
        r is None ==> position_of(texts(v@), value@) is None,
{
    let ghost s = texts(v@);
    let n = v.len();
    let mut i: usize = 0;
    while i < n
        invariant
            n == v.len(),
            s == texts(v@),
            i <= n,
            forall|j: int| 0 <= j < i ==> s[j] != value@,
        decreases n - i,
    {
        if str_equal(v[i].as_str(), value) {
            proof {
                let p = |k: int| 0 <= k < s.len() && s[k] == value@ && forall|j: int| 0 <= j < k ==> s[j] != value@;
                assert(p(i as int));
                let c = choose|k: int|
                    0 <= k < s.len() && s[k] == value@ && forall|j: int| 0 <= j < k ==> s[j] != value@;
                assert(0 <= c < s.len() && s[c] == value@ && forall|j: int| 0 <= j < c ==> s[j] != value@);
                if c < i {
                    assert(s[c] != value@);
                } else if c > i {
                    assert(s[i as int] != value@);
                }
            }
            return Some(i);
        }
        i = i + 1;
    }
    None
}

/// The characters of `s`, in order.
pub fn chars_of(s: &str) -> (r: Vec<char>)
    ensures
        r@ == s@,
{
    let mut r: Vec<char> = Vec::new();
    for c in it: s.chars()
        invariant
            it.seq() == s@,
            r@ == s@.take(it.index() as int),
    {
        r.push(c);
        assert(r@ =~= s@.take(it.index() + 1));
    }
    assert(r@ =~= s@);
    r
}

// ============================================================================
// Ordering texts
// ============================================================================

/// Texts in increasing order of their characters' code points, compared character by
/// character, a proper prefix first. This is the order of `str`'s `Ord`, which compares the
/// UTF-8 bytes: UTF-8 keeps the order of code points.
pub open spec fn text_lt(a: Seq<char>, b: Seq<char>) -> bool
    decreases a.len(),
{
    if a.len() == 0 {
        b.len() > 0
    } else if b.len() == 0 {
        false
    } else if a[0] != b[0] {
        (a[0] as u32) < (b[0] as u32)
    } else {
        text_lt(a.drop_first(), b.drop_first())
    }
}

/// No text precedes itself, of two different texts one precedes the other, and never both.
pub proof fn lemma_text_lt_total(a: Seq<char>, b: Seq<char>)
    ensures
        !text_lt(a, a),
        a != b ==> (text_lt(a, b) || text_lt(b, a)),
        !(text_lt(a, b) && text_lt(b, a)),
    decreases a.len(),
{
    if a.len() > 0 {
        lemma_text_lt_total(a.drop_first(), a.drop_first());
        if b.len() > 0 {
            lemma_text_lt_total(a.drop_first(), b.drop_first());
            char_u32_cast(a[0], a[0] as u32);
            char_u32_cast(b[0], b[0] as u32);
            if a[0] == b[0] && a != b {
                assert(a =~= seq![a[0]] + a.drop_first());
                assert(b =~= seq![b[0]] + b.drop_first());
            }
        }
    } else if b.len() == 0 {
        assert(a =~= b);
    }
}

/// The order is transitive.
pub proof fn lemma_text_lt_transitive(a: Seq<char>, b: Seq<char>, c: Seq<char>)
    requires
        text_lt(a, b),
        text_lt(b, c),
    ensures
        text_lt(a, c),
    decreases a.len(),
{
    if a.len() > 0 && b.len() > 0 && c.len() > 0 && a[0] == b[0] && b[0] == c[0] {
        lemma_text_lt_transitive(a.drop_first(), b.drop_first(), c.drop_first());
    }
}

/// Whether `a` comes before `b` in the order of `text_lt`.
pub fn text_less(a: &str, b: &str) -> (r: bool)
    ensures
        r == text_lt(a@, b@),
{
    let x = chars_of(a);
    let y = chars_of(b);
    let n = x.len();
    let m = y.len();
    let mut i: usize = 0;
    assert(a@.skip(0) =~= a@ && b@.skip(0) =~= b@);
    while i < n && i < m
        invariant
            x@ == a@,
            y@ == b@,
            n == x.len(),
            m == y.len(),
            i <= n,
            i <= m,
            text_lt(a@, b@) == text_lt(a@.skip(i as int), b@.skip(i as int)),
        decreases n - i,
    {
        if x[i] != y[i] {
            return (x[i] as u32) < (y[i] as u32);
        }
        assert(a@.skip(i as int).drop_first() =~= a@.skip(i + 1));
        assert(b@.skip(i as int).drop_first() =~= b@.skip(i + 1));
        i = i + 1;
    }
    i == n && i < m
}


/// `s` with every character that is among `pats` replaced by `to`.
pub open spec fn replace_chars(s: Seq<char>, pats: Seq<char>, to: Seq<char>) -> Seq<char>
    decreases s.len(),
{
    if s.len() == 0 {
        Seq::empty()
    } else {
        replace_chars(s.drop_last(), pats, to) + if pats.contains(s.last()) {
            to
        } else {
            seq![s.last()]
        }
    }
}

/// `str::replace` with a pattern of characters: each character of `s` that is among `pats`
/// is replaced by `to`.
#[verifier::external_body]
pub(crate) fn str_replace_chars(s: &str, pats: &[char], to: &str) -> (r: String)
    ensures
        r@ == replace_chars(s@, pats@, to@),
{
    s.replace(pats, to)
}

} // verus!
