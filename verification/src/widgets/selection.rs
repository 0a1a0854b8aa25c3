//! Selection items
//!
//! `StringItem` is a simple string-based selection item for selection widgets,
//! and this module holds what the selection widgets share: finding an item in a
//! list, and the element names items are given.
use vstd::prelude::*;
use vstd::std_specs::cmp::PartialEqSpec;
use vstd::std_specs::convert::IntoSpec;
use crate::utils::text::{lowercase, replace_chars, str_replace_chars, to_lowercase};

verus! {

/// A simple string-based selection item
///
/// Use this type for simple string selections without defining a custom enum.
/// The label and id are both derived from the string value.
#[derive(Debug)]
pub struct StringItem {
    value: String,
}

impl View for StringItem {
    type V = Seq<char>;

    closed spec fn view(&self) -> Seq<char> {
        self.value@
    }
}

impl Clone for StringItem {
    fn clone(&self) -> (r: Self)
        ensures
            r@ == self@,
    {
        Self { value: self.value.clone() }
    }
}

impl PartialEq for StringItem {
    fn eq(&self, other: &Self) -> (r: bool) {
        crate::utils::text::str_equal(self.value.as_str(), other.value.as_str())
    }
}

impl vstd::std_specs::cmp::PartialEqSpecImpl for StringItem {
    open spec fn obeys_eq_spec() -> bool {
        true
    }

    open spec fn eq_spec(&self, other: &Self) -> bool {
        self@ == other@
    }
}

impl From<String> for StringItem {
    fn from(value: String) -> (r: Self) {
        Self::new(value)
    }
}

impl vstd::std_specs::convert::FromSpecImpl<String> for StringItem {
    open spec fn obeys_from_spec() -> bool {
        true
    }

    closed spec fn from_spec(v: String) -> Self {
        StringItem { value: v }
    }
}

/// `s` with every space replaced by an underscore.
pub open spec fn spaces_to_underscores(s: Seq<char>) -> Seq<char> {
    s.map_values(|c: char| if c == ' ' { '_' } else { c })
}

/// Spaces made underscores, as a replacement of characters.
proof fn lemma_spaces_replaced(s: Seq<char>)
    ensures
        replace_chars(s, seq![' '], seq!['_']) == spaces_to_underscores(s),
    decreases s.len(),
{
    if s.len() > 0 {
        lemma_spaces_replaced(s.drop_last());
        assert(seq![' '].contains(' ')) by {
            assert(seq![' '][0] == ' ');
        }
        assert(spaces_to_underscores(s) =~= spaces_to_underscores(s.drop_last()) + seq![
            if s.last() == ' ' {
                '_'
            } else {
                s.last()
            },
        ]);
    }
}

/// `s` with its spaces made underscores.
fn replace_spaces(s: &str) -> (r: String)
    ensures
        r@ == spaces_to_underscores(s@),
{
    proof {
        lemma_spaces_replaced(s@);
        reveal_strlit("_");
        assert("_"@ =~= seq!['_']);
    }
    let pats = [' '];
    let r = str_replace_chars(s, &pats, "_");
    assert(pats@ =~= seq![' ']);
    r
}

/// The element name for an item with value `value`: `prefix`, then the value lowercased
/// with spaces made underscores.
pub open spec fn element_name(prefix: Seq<char>, value: Seq<char>) -> Seq<char> {
    prefix + spaces_to_underscores(lowercase(value))
}

/// `prefix` followed by `value` lowercased, with spaces made underscores.
pub fn element_name_for(prefix: &str, value: &str) -> (r: String)
    ensures
        r@ == element_name(prefix@, value@),
{
    let mut name = prefix.to_owned();
    let lower = to_lowercase(value);
    let tail = replace_spaces(lower.as_str());
    name.append(tail.as_str());
    name
}

/// `String::from` on a string slice: a new `String` holding the same text.
pub assume_specification<'a>[ <String as From<&'a str>>::from ](s: &str) -> (r: String)
    ensures
        r@ == s@,
;

/// `From::from` of a value into its own type (the identity conversion): the value itself.
pub assume_specification<Val>[ <Val as From<Val>>::from ](t: Val) -> (r: Val)
    ensures
        r == t,
;

impl StringItem {
    /// Create a new StringItem from a string value: the item holds what the value converts
    /// into, which for a `&str` or a `String` is that same text.
    pub fn new<T: Into<String>>(value: T) -> (r: Self)
        ensures
            call_ensures(T::into, (value,), r.to_string_spec()),
            exists|s: String| call_ensures(T::into, (value,), s) && r@ == s@,
            <T as IntoSpec<String>>::obeys_into_spec() ==> r@ == IntoSpec::<String>::into_spec(value)@,
    {
        let s: String = value.into();
        let r = Self { value: s };
        assert(r@ == s@);
        r
    }

    /// An item holding `value`.
    pub fn of(value: String) -> (r: Self)
        ensures
            r@ == value@,
    {
        Self { value }
    }

    pub closed spec fn to_string_spec(&self) -> String {
        self.value
    }

    /// Get the underlying string value
    pub fn value(&self) -> (r: &str)
        ensures
            r@ == self@,
    {
        self.value.as_str()
    }

    /// Consume and return the underlying string value
    pub fn into_value(self) -> (r: String)
        ensures
            r@ == self@,
    {
        self.value
    }

    /// The display label: the value itself.
    pub fn label(&self) -> (r: String)
        ensures
            r@ == self@,
    {
        self.value.clone()
    }

    /// The item's element name: `item_` and the value lowercased, spaces made underscores.
    pub fn id_name(&self) -> (r: String)
        ensures
            r@ == element_name("item_"@, self@),
    {
        element_name_for("item_", self.value.as_str())
    }

    /// The value as text (what formatting the item shows).
    pub fn to_string(&self) -> (r: String)
        ensures
            r@ == self@,
    {
        self.value.clone()
    }
}

// ============================================================================
// Finding items
// ============================================================================

/// The index of the first item equal to `x` (by `PartialEq`), if there is one.
pub open spec fn first_equal<T: PartialEq>(items: Seq<T>, x: T) -> Option<int> {
    if exists|i: int| 0 <= i < items.len() && items[i].eq_spec(&x) {
        Some(
            choose|i: int|
                0 <= i < items.len() && items[i].eq_spec(&x) && forall|j: int|
                    0 <= j < i ==> !items[j].eq_spec(&x),
        )
    } else {
        None
    }
}

/// `Iterator::position` of the first item equal to `x`.
pub fn position_of_item<T: PartialEq>(items: &Vec<T>, x: &T) -> (r: Option<usize>)
    ensures
        T::obeys_eq_spec() ==> match r {
            Some(i) => first_equal(items@, *x) == Some(i as int),
            None => first_equal(items@, *x) is None,
        },
        r matches Some(i) ==> i < items.len(),
{
    let n = items.len();
    let mut i: usize = 0;
    while i < n
        invariant
            n == items.len(),
            i <= n,
            T::obeys_eq_spec() ==> forall|j: int| 0 <= j < i ==> !items@[j].eq_spec(x),
        decreases n - i,
    {
        if items[i] == *x {
            proof {
                if T::obeys_eq_spec() {
                    let s = items@;
                    assert(s[i as int].eq_spec(x));
                    let c = choose|k: int|
                        0 <= k < s.len() && s[k].eq_spec(x) && forall|j: int|
                            0 <= j < k ==> !s[j].eq_spec(x);
                    assert(0 <= c < s.len() && s[c].eq_spec(x) && forall|j: int|
                        0 <= j < c ==> !s[j].eq_spec(x));
                    if c < i {
                        assert(!s[c].eq_spec(x));
                    } else if c > i {
                        assert(!s[i as int].eq_spec(x));
                    }
                }
            }
            return Some(i);
        }
        i = i + 1;
    }
    None
}

/// A clone of a string item holds the same text.
pub proof fn lemma_string_item_cloned(a: StringItem, b: StringItem)
    requires
        cloned(a, b),
    ensures
        b@ == a@,
{
}

/// When exactly one item equals `x`, that item is the first equal one.
pub proof fn lemma_first_equal_unique<T: PartialEq>(items: Seq<T>, x: T, i: int)
    requires
        0 <= i < items.len(),
        items[i].eq_spec(&x),
        forall|j: int| 0 <= j < items.len() && j != i ==> !(#[trigger] items[j]).eq_spec(&x),
    ensures
        first_equal(items, x) == Some(i),
{
    let c = choose|k: int|
        0 <= k < items.len() && items[k].eq_spec(&x) && forall|j: int| 0 <= j < k ==> !items[j].eq_spec(&x);
    assert(0 <= i < items.len() && items[i].eq_spec(&x) && forall|j: int| 0 <= j < i ==> !items[j].eq_spec(&x));
    if c != i {
        assert(!items[c].eq_spec(&x));
    }
}

// ============================================================================
// Moving a highlight through a list
// ============================================================================

/// The index above `h` in a list of `n` items, from the first to the last.
pub open spec fn wrap_up(h: nat, n: nat) -> nat {
    if h > 0 {
        (h - 1) as nat
    } else if n > 0 {
        (n - 1) as nat
    } else {
        h
    }
}

/// The index below `h` in a list of `n` items, from the last to the first.
pub open spec fn wrap_down(h: nat, n: nat) -> nat {
    if h + 1 < n {
        h + 1
    } else {
        0
    }
}

/// The index above `h` in a list of `n` items, wrapping from the first to the last.
pub fn step_up(h: usize, n: usize) -> (r: usize)
    ensures
        r == wrap_up(h as nat, n as nat),
{
    if h > 0 {
        h - 1
    } else if n > 0 {
        n - 1
    } else {
        h
    }
}

/// The index below `h` in a list of `n` items, wrapping from the last to the first.
pub fn step_down(h: usize, n: usize) -> (r: usize)
    ensures
        r == wrap_down(h as nat, n as nat),
{
    if n > 0 && h < n - 1 {
        h + 1
    } else {
        0
    }
}

/// Moving down and back up returns to the same index, and both stay in the list.
pub proof fn law_wrap_round_trip(h: nat, n: nat)
    requires
        h < n,
    ensures
        wrap_up(wrap_down(h, n), n) == h,
        wrap_down(wrap_up(h, n), n) == h,
        wrap_up(h, n) < n,
        wrap_down(h, n) < n,
{
}

} // verus!
