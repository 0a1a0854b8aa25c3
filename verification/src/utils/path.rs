//! Path utilities
//!
//! Provides the result type of path canonicalization and the file system
//! queries used to validate file and directory paths. Paths are held as text
//! (lossily converted where the platform path is not valid UTF-8).
use vstd::prelude::*;
use crate::utils::text::{
    texts,
    chars_of, lemma_offset_succ, lemma_offset_zero_end, split_at_boundary, str_equal,
};

verus! {

/// Result of parsing and canonicalizing a user-provided path
#[derive(Debug, Clone)]
pub struct PathInfo {
    /// The canonicalized portion that exists on disk
    pub existing_canonical: String,
    /// The non-existing suffix (empty if entire path exists)
    pub non_existing_suffix: String,
    /// The full path (canonical + suffix)
    pub full_path: String,
}

/// A parsed path as text: the existing canonical part, the missing suffix, and the whole.
pub struct PathModel {
    pub existing: Seq<char>,
    pub suffix: Seq<char>,
    pub full: Seq<char>,
}

impl View for PathInfo {
    type V = PathModel;

    open spec fn view(&self) -> PathModel {
        PathModel {
            existing: self.existing_canonical@,
            suffix: self.non_existing_suffix@,
            full: self.full_path@,
        }
    }
}

impl PathInfo {
    /// Returns true if the entire path exists
    pub fn fully_exists(&self) -> (r: bool)
        ensures
            r == (self.non_existing_suffix@.len() == 0),
    {
        self.non_existing_suffix.as_str().is_empty()
    }

    /// Returns the full path as a string
    pub fn full_path_string(&self) -> (r: String)
        ensures
            r@ == self.full_path@,
    {
        self.full_path.clone()
    }

    /// Create an empty PathInfo
    pub fn empty() -> (r: Self)
        ensures
            r.existing_canonical@.len() == 0,
            r.non_existing_suffix@.len() == 0,
            r.full_path@.len() == 0,
    {
        Self { existing_canonical: String::new(), non_existing_suffix: String::new(), full_path: String::new() }
    }
}

impl Default for PathInfo {
    fn default() -> (r: Self)
        ensures
            r.existing_canonical@.len() == 0,
            r.non_existing_suffix@.len() == 0,
            r.full_path@.len() == 0,
    {
        Self::empty()
    }
}

/// `q` is `p` with something removed from its end.
pub open spec fn proper_prefix(q: Seq<char>, p: Seq<char>) -> bool {
    q.len() < p.len() && q == p.take(q.len() as int)
}

/// A character with no special meaning in a path on any platform: anything but the
/// separators `/` and `\` and the drive mark `:`.
pub open spec fn plain_name_char(c: char) -> bool {
    c != '/' && c != '\\' && c != ':'
}

/// The part of `p` after its last `/` (all of `p` when it has none).
pub open spec fn last_part(p: Seq<char>) -> Seq<char>
    decreases p.len(),
{
    if p.len() == 0 || p.last() == '/' {
        Seq::empty()
    } else {
        last_part(p.drop_last()).push(p.last())
    }
}

/// A non-empty name of plain characters that is neither `.` nor `..`.
pub open spec fn plain_name(n: Seq<char>) -> bool {
    &&& n.len() > 0
    &&& forall|i: int| 0 <= i < n.len() ==> plain_name_char(#[trigger] n[i])
    &&& n != seq!['.']
    &&& n != seq!['.', '.']
}

/// `parent` is what `Path::parent` can give for `p`, as far as it is told on every platform:
/// a shorter start of `p`; for a path whose final component is plain, the text before that
/// component; for a simple path, the text before its final `/` (or the root).
pub open spec fn parent_of_ok(p: Seq<char>, parent: Option<Seq<char>>) -> bool {
    &&& parent matches Some(q) ==> proper_prefix(q, p)
    &&& plain_path(p) ==> parent is Some && parent_text(parent->0, p)
    &&& simple_path(p) ==> parent == Some(simple_parent(p))
}

/// A bare name (a path whose final component is plain and that holds no `/`) has the empty
/// parent.
pub proof fn lemma_bare_name_parent(p: Seq<char>, parent: Option<Seq<char>>)
    requires
        parent_of_ok(p, parent),
        plain_path(p),
        !p.contains('/'),
    ensures
        parent == Some(Seq::<char>::empty()),
{
    lemma_last_part_shape(p);
    let n = last_part(p);
    if n.len() < p.len() {
        assert(p[p.len() - n.len() - 1] == '/');
    }
    assert(parent->0.len() == 0);
    assert(parent->0 =~= Seq::<char>::empty());
}

/// A path whose final component is plain on every platform: it holds no `\`, does not
/// start with `//` (which some platforms read as a network or device prefix), and its part
/// after the last `/` is a plain name.
pub open spec fn plain_path(p: Seq<char>) -> bool {
    &&& !p.contains('\\')
    &&& !(p.len() >= 2 && p[0] == '/' && p[1] == '/')
    &&& plain_name(last_part(p))
}

/// `q` is what precedes the final component `last_part(p)` of `p`, up to separators and
/// `.` components between them.
pub open spec fn parent_text(q: Seq<char>, p: Seq<char>) -> bool {
    &&& q.len() + last_part(p).len() <= p.len()
    &&& q == p.take(q.len() as int)
    &&& forall|i: int|
        q.len() <= i < p.len() - last_part(p).len() ==> (#[trigger] p[i] == '/' || p[i] == '.')
}

/// `r` is `tail` adjoined to `base`: `tail` alone after an empty `base`, directly after a
/// `base` ending in `/`, and otherwise after one separator (`/`, or `\` on platforms that
/// use it).
pub open spec fn joined_text(base: Seq<char>, tail: Seq<char>, r: Seq<char>) -> bool {
    if base.len() == 0 {
        r == tail
    } else if base.last() == '/' {
        r == base + tail
    } else {
        exists|sep: char| (sep == '/' || sep == '\\') && r == base.push(sep) + tail
    }
}

/// A relative path read alike on every platform: it starts with a plain character and holds
/// no `:` (so it has no drive, device or root part anywhere).
pub open spec fn plain_relative(t: Seq<char>) -> bool {
    &&& t.len() > 0
    &&& plain_name_char(t[0])
    &&& !t.contains(':')
}

/// A base a plain relative path can be joined to alike on every platform: one that holds no
/// `\` and does not end with `:` (a bare drive on some platforms), or a plain relative path
/// that does not end with `\`.
pub open spec fn plain_base(base: Seq<char>) -> bool {
    ||| !base.contains('\\') && !(base.len() > 0 && base.last() == ':')
    ||| plain_relative(base) && base.last() != '\\'
}

/// A separator on some platform: `/`, or `\` on platforms that use it.
pub open spec fn is_sep(c: char) -> bool {
    c == '/' || c == '\\'
}

/// `a` and `b` are the same text up to which separator stands at each place.
pub open spec fn same_path(a: Seq<char>, b: Seq<char>) -> bool {
    &&& a.len() == b.len()
    &&& forall|i: int| 0 <= i < a.len() ==> #[trigger] a[i] == b[i] || (is_sep(a[i]) && is_sep(b[i]))
}

/// The components `comps` in reverse order (the last one first), with a `/` between each two.
pub open spec fn reversed_join(comps: Seq<Seq<char>>) -> Seq<char>
    decreases comps.len(),
{
    if comps.len() == 0 {
        Seq::empty()
    } else if comps.len() == 1 {
        comps[0]
    } else {
        reversed_join(comps.skip(1)) + seq!['/'] + comps[0]
    }
}

/// Every one of `comps` is a plain name.
pub open spec fn all_plain(comps: Seq<Seq<char>>) -> bool {
    forall|k: int| 0 <= k < comps.len() ==> plain_name(#[trigger] comps[k])
}

/// An absolute path `/a/b/c` of plain names, each after a single `/`.
pub open spec fn simple_path(p: Seq<char>) -> bool
    decreases p.len(),
{
    let j = p.len() - last_part(p).len() - 1;
    &&& plain_name(last_part(p))
    &&& 0 <= j
    &&& p[j] == '/'
    &&& (j == 0 || simple_path(p.take(j)))
}

/// The parent of a simple path: the text before its final `/`, or the root `/` where that
/// text is empty.
pub open spec fn simple_parent(p: Seq<char>) -> Seq<char> {
    let j = p.len() - last_part(p).len() - 1;
    if j <= 0 {
        seq!['/']
    } else {
        p.take(j)
    }
}

/// `Path::is_dir`: whether the file system has a directory at `p`. What it answers
/// depends on the disk, so nothing is stated of it.
#[verifier::external_body]
pub(crate) fn path_is_dir(p: &str) -> bool {
    std::path::Path::new(p).is_dir()
}

/// `Path::is_file`: whether the file system has a regular file at `p` (depends on the disk).
#[verifier::external_body]
pub(crate) fn path_is_file(p: &str) -> bool {
    std::path::Path::new(p).is_file()
}

/// `Path::exists`: whether anything is at `p` on the file system (depends on the disk).
#[verifier::external_body]
pub(crate) fn path_exists(p: &str) -> bool {
    std::path::Path::new(p).exists()
}

/// `Path::parent` of the path `p`, as text: `p` without its final component, so a shorter
/// start of `p` (a prefix of a UTF-8 path is UTF-8 here, as it ends at a separator). For a
/// path whose final component is plain, that is the text before it, less the separators
/// and `.` components in between. Which part counts as the final component of other paths
/// depends on the platform's path syntax, so no more is stated. For a path `/a/b` of plain
/// names with single separators, that is `/a`, and for `/a` it is the root `/`.
#[verifier::external_body]
pub(crate) fn path_parent(p: &str) -> (r: Option<&str>)
    ensures
        r matches Some(q) ==> proper_prefix(q@, p@),
        plain_path(p@) ==> r is Some && parent_text(r.unwrap()@, p@),
        simple_path(p@) ==> r is Some && r.unwrap()@ == simple_parent(p@),
{
    match std::path::Path::new(p).parent() {
        Some(q) => q.to_str(),
        None => None,
    }
}

/// `Path::file_name` of the path `p`, as text (a component of a UTF-8 path is UTF-8): the
/// final component, which is never empty; for a path whose final component is plain, the
/// part after its last `/`. Which part is the final component of other paths, and whether
/// there is one, depends on the platform's path syntax, so no more is stated.
#[verifier::external_body]
pub(crate) fn path_file_name(p: &str) -> (r: Option<&str>)
    ensures
        r matches Some(n) ==> n@.len() > 0,
        plain_path(p@) ==> r is Some && r.unwrap()@ == last_part(p@),
{
    match std::path::Path::new(p).file_name() {
        Some(q) => q.to_str(),
        None => None,
    }
}

/// `dirs::home_dir`, as text: the user's home directory as the environment and the system
/// give it, if any. It depends on the machine and the environment, so nothing is stated.
#[verifier::external_body]
fn home_dir() -> Option<String> {
    match dirs::home_dir() {
        Some(h) => Some(h.to_string_lossy().to_string()),
        None => None,
    }
}

/// `Path::join` of `tail` onto `base`, as text: `tail` adjoined to `base` (an absolute
/// `tail` replaces `base`), so the result is empty only when both are. A plain relative
/// `tail` is adjoined as it is, after a separator added where `base` lacks one; other joins
/// depend on the platform's path syntax, so no more is stated.
#[verifier::external_body]
pub(crate) fn path_join(base: &str, tail: &str) -> (r: String)
    ensures
        base@.len() > 0 || tail@.len() > 0 ==> r@.len() > 0,
        plain_base(base@) && plain_relative(tail@) ==> joined_text(base@, tail@, r@),
{
    std::path::Path::new(base).join(tail).to_string_lossy().to_string()
}

/// `Path::is_absolute`: whether `p` is absolute in the platform's path syntax. A plain
/// relative path is relative on every platform; of other paths nothing is stated, as that
/// syntax differs between platforms.
#[verifier::external_body]
pub(crate) fn path_is_absolute(p: &str) -> (r: bool)
    ensures
        plain_relative(p@) ==> !r,
{
    std::path::Path::new(p).is_absolute()
}

/// `Path::canonicalize`, as text: the absolute path with links resolved, when the file
/// system has something at `p`. Whether it has, and the path, depend on the disk; an
/// absolute path is never empty, and no more is stated.
#[verifier::external_body]
pub(crate) fn path_canonicalize(p: &str) -> (r: Option<String>)
    ensures
        r matches Some(c) ==> c@.len() > 0,
{
    match std::path::Path::new(p).canonicalize() {
        Ok(c) => Some(c.to_string_lossy().to_string()),
        Err(_) => None,
    }
}

/// Whether `p` starts with the home directory shorthand: it is `~`, or starts with `~/`.
pub open spec fn names_home(p: Seq<char>) -> bool {
    p == seq!['~'] || (p.len() >= 2 && p[0] == '~' && p[1] == '/')
}

/// Expand a leading `~` to the home directory `home`: `~` alone becomes `home`, `~/rest`
/// becomes `rest` joined onto `home`; without a home directory, or without a leading `~`,
/// the path is returned unchanged.
pub fn expand_tilde_with(path: &str, home: Option<&str>) -> (r: String)
    ensures
        !names_home(path@) || home is None ==> r@ == path@,
        path@ == seq!['~'] && home is Some ==> r@ == home->0@,
        names_home(path@) && path@.len() >= 2 && home is Some && plain_base(home->0@)
            && plain_relative(path@.skip(2)) ==> joined_text(home->0@, path@.skip(2), r@),
{
    let x = chars_of(path);
    let alone = x.len() == 1 && x[0] == '~';
    let with_slash = x.len() >= 2 && x[0] == '~' && x[1] == '/';
    if alone || with_slash {
        if let Some(h) = home {
            if alone {
                assert(path@ =~= seq!['~']);
                return h.to_owned();
            } else {
                proof {
                    lemma_offset_zero_end(path@);
                    lemma_offset_succ(path@, 0);
                    lemma_offset_succ(path@, 1);
                    assert(crate::utils::text::char_offset(path@, 2) == 2);
                    crate::utils::text::lemma_char_index_at(path@, 2);
                    assert(crate::utils::text::char_index_at(path@, 2) == 2);
                }
                let (_, rest) = split_at_boundary(path, 2);
                return path_join(h, rest);
            }
        }
    }
    path.to_owned()
}

/// Expand tilde (~) to home directory
pub fn expand_tilde(path: &str) -> (r: String)
    ensures
        !names_home(path@) ==> r@ == path@,
{
    let home = home_dir();
    match &home {
        Some(h) => expand_tilde_with(path, Some(h.as_str())),
        None => expand_tilde_with(path, None),
    }
}

/// Build a path from components in reverse order (the last component first): each is
/// joined onto what was built so far, so plain names come out from the last to the first,
/// a separator between each two.
pub fn build_suffix(components: &Vec<String>) -> (r: String)
    ensures
        components.len() == 0 ==> r@.len() == 0,
        (exists|k: int| 0 <= k < components.len() && (#[trigger] components@[k])@.len() > 0)
            ==> r@.len() > 0,
        all_plain(texts(components@)) ==> same_path(r@, reversed_join(texts(components@))),
{
    let mut acc = String::new();
    let n = components.len();
    let mut i: usize = n;
    let ghost cs = texts(components@);
    while i > 0
        invariant
            i <= n,
            n == components.len(),
            cs == texts(components@),
            i == n ==> acc@.len() == 0,
            (exists|k: int| i <= k < n && (#[trigger] components@[k])@.len() > 0) ==> acc@.len()
                > 0,
            all_plain(cs) ==> same_path(acc@, reversed_join(cs.subrange(i as int, n as int))),
        decreases i,
    {
        i = i - 1;
        let ghost before = acc@;
        acc = path_join(acc.as_str(), components[i].as_str());
        proof {
            if all_plain(cs) {
                lemma_build_step(cs, i as int, before, acc@);
            }
        }
    }
    proof {
        assert(cs.subrange(0, n as int) =~= cs);
    }
    acc
}

/// A plain name is a plain relative path.
proof fn lemma_plain_name_relative(n: Seq<char>)
    requires
        plain_name(n),
    ensures
        plain_relative(n),
        plain_name_char(n.last()),
{
    assert(plain_name_char(n[n.len() - 1]));
    if n.contains(':') {
        let k = choose|k: int| 0 <= k < n.len() && n[k] == ':';
        assert(plain_name_char(n[k]));
    }
}

/// Plain names joined in reverse start and end with a plain character and hold nothing but
/// plain characters and `/`.
proof fn lemma_reversed_join_chars(cs: Seq<Seq<char>>)
    requires
        all_plain(cs),
        cs.len() > 0,
    ensures
        reversed_join(cs).len() > 0,
        plain_name_char(reversed_join(cs)[0]),
        plain_name_char(reversed_join(cs).last()),
        forall|i: int|
            0 <= i < reversed_join(cs).len() ==> #[trigger] reversed_join(cs)[i] == '/'
                || plain_name_char(reversed_join(cs)[i]),
    decreases cs.len(),
{
    assert(plain_name(cs[0]));
    lemma_plain_name_relative(cs[0]);
    if cs.len() > 1 {
        let rest = cs.skip(1);
        assert forall|k: int| 0 <= k < rest.len() implies plain_name(#[trigger] rest[k]) by {
            assert(rest[k] == cs[k + 1]);
        }
        lemma_reversed_join_chars(rest);
        let a = reversed_join(rest);
        let t = a + seq!['/'] + cs[0];
        assert(reversed_join(cs) == t);
        assert forall|i: int| 0 <= i < t.len() implies #[trigger] t[i] == '/' || plain_name_char(t[i]) by {
            if i < a.len() {
                assert(t[i] == a[i]);
            } else if i > a.len() {
                assert(t[i] == cs[0][i - a.len() - 1]);
            }
        }
        assert(t[0] == a[0]);
    } else {
        assert forall|i: int| 0 <= i < cs[0].len() implies #[trigger] cs[0][i] == '/' || plain_name_char(cs[0][i]) by {
        }
    }
}

/// Text the same as plain names joined in reverse is a base they can be joined to.
proof fn lemma_same_as_joined_base(acc: Seq<char>, cs: Seq<Seq<char>>)
    requires
        all_plain(cs),
        cs.len() > 0,
        same_path(acc, reversed_join(cs)),
    ensures
        plain_base(acc),
        plain_relative(acc),
        acc.len() > 0,
        plain_name_char(acc.last()),
{
    let rj = reversed_join(cs);
    lemma_reversed_join_chars(cs);
    assert(acc[0] == rj[0] || (is_sep(acc[0]) && is_sep(rj[0])));
    assert(acc[acc.len() - 1] == rj[rj.len() - 1] || (is_sep(acc[acc.len() - 1]) && is_sep(rj[rj.len() - 1])));
    if acc.contains(':') {
        let k = choose|k: int| 0 <= k < acc.len() && acc[k] == ':';
        assert(acc[k] == rj[k] || (is_sep(acc[k]) && is_sep(rj[k])));
        assert(rj[k] == '/' || plain_name_char(rj[k]));
    }
}

/// One step of building: joining component `i` onto the text built from the components after
/// it gives the text built from component `i` on.
proof fn lemma_build_step(cs: Seq<Seq<char>>, i: int, before: Seq<char>, after: Seq<char>)
    requires
        all_plain(cs),
        0 <= i < cs.len(),
        same_path(before, reversed_join(cs.subrange(i + 1, cs.len() as int))),
        plain_base(before) && plain_relative(cs[i]) ==> joined_text(before, cs[i], after),
    ensures
        same_path(after, reversed_join(cs.subrange(i, cs.len() as int))),
{
    let n = cs.len() as int;
    let tail = cs.subrange(i + 1, n);
    let whole = cs.subrange(i, n);
    assert(plain_name(cs[i]));
    lemma_plain_name_relative(cs[i]);
    assert(whole[0] == cs[i]);
    if i + 1 == n {
        assert(before.len() == 0);
        assert(!before.contains('\\'));
        assert(after == cs[i]);
        assert(reversed_join(whole) == cs[i]);
    } else {
        assert forall|k: int| 0 <= k < tail.len() implies plain_name(#[trigger] tail[k]) by {
            assert(tail[k] == cs[i + 1 + k]);
        }
        lemma_same_as_joined_base(before, tail);
        assert(whole.skip(1) =~= tail);
        let rj = reversed_join(tail);
        assert(reversed_join(whole) == rj + seq!['/'] + cs[i]);
        let sep = choose|sep: char| (sep == '/' || sep == '\\') && after == before.push(sep) + cs[i];
        let w = rj + seq!['/'] + cs[i];
        assert forall|k: int| 0 <= k < after.len() implies #[trigger] after[k] == w[k] || (is_sep(after[k]) && is_sep(w[k])) by {
            if k < before.len() {
                assert(after[k] == before[k]);
                assert(w[k] == rj[k]);
            } else if k == before.len() {
                assert(after[k] == sep);
            } else {
                assert(after[k] == cs[i][k - before.len() - 1]);
            }
        }
    }
}

/// Whether `p` is the root `/`.
fn is_root(p: &str) -> (r: bool)
    ensures
        r == (p@ == seq!['/']),
{
    proof {
        reveal_strlit("/");
        assert("/"@ =~= seq!['/']);
    }
    str_equal(p, "/")
}

/// `checked`, `names` and `terminal` are the walk up from `path`: `checked[0]` is `path`,
/// each later entry the parent of the one before (non-empty and not the root), `names[k]`
/// the final component of `checked[k]`; the walk ends at `terminal`, which is `/` where the
/// last entry has no final component, and otherwise that entry's parent (or `/` where the
/// path syntax gives none) when it is empty or the root. Of each path only what holds on
/// every platform is told: parents are shorter starts, for a plain final component the
/// component is the part after the last `/` and the parent the text before it, and the parent
/// of a simple path is the text before its final `/` (or the root).
pub open spec fn walk_ok(
    path: Seq<char>,
    checked: Seq<Seq<char>>,
    names: Seq<Seq<char>>,
    terminal: Seq<char>,
) -> bool {
    &&& checked.len() >= 1
    &&& checked[0] == path
    &&& names.len() == checked.len() || names.len() + 1 == checked.len()
    &&& forall|k: int|
        0 <= k < names.len() ==> (#[trigger] names[k]).len() > 0 && (plain_path(checked[k])
            ==> names[k] == last_part(checked[k]))
    &&& forall|k: int|
        0 <= k < checked.len() - 1 ==> {
            &&& (#[trigger] checked[k + 1]).len() > 0
            &&& checked[k + 1] != seq!['/']
            &&& proper_prefix(checked[k + 1], checked[k])
            &&& plain_path(checked[k]) ==> parent_text(checked[k + 1], checked[k])
            &&& simple_path(checked[k]) ==> checked[k + 1] == simple_parent(checked[k])
        }
    &&& names.len() + 1 == checked.len() ==> terminal == seq!['/'] && !plain_path(checked.last())
    &&& names.len() == checked.len() ==> {
        &&& terminal.len() == 0 || terminal == seq!['/']
        &&& proper_prefix(terminal, checked.last()) || terminal == seq!['/']
        &&& plain_path(checked.last()) ==> parent_text(terminal, checked.last())
        &&& simple_path(checked.last()) ==> terminal == simple_parent(checked.last())
    }
}

/// The index of the first `true` in `ans` from `k` on (`ans.len()` when there is none).
pub open spec fn first_true(ans: Seq<bool>, k: int) -> int
    decreases ans.len() - k,
{
    if k < 0 || k >= ans.len() {
        ans.len() as int
    } else if ans[k] {
        k
    } else {
        first_true(ans, k + 1)
    }
}

/// Where the walk stops, given the file system's answers `ans` about the checked paths in
/// order: at the first that exists, else at the walk's end `terminal`.
pub open spec fn split_prefix(checked: Seq<Seq<char>>, ans: Seq<bool>, terminal: Seq<char>) -> Seq<char> {
    let k = first_true(ans, 0);
    if k < ans.len() && k < checked.len() {
        checked[k]
    } else {
        terminal
    }
}

/// The components walked over before the walk stops (the missing suffix, last first).
pub open spec fn split_names(names: Seq<Seq<char>>, ans: Seq<bool>) -> Seq<Seq<char>> {
    let k = first_true(ans, 0);
    if k < names.len() {
        names.take(k)
    } else {
        names
    }
}

/// `t` is the text built from the components `comps` (last first): empty when there are
/// none, non-empty when one of them is, and for plain names those names from the last to the
/// first, a separator between each two.
pub open spec fn suffix_text(comps: Seq<Seq<char>>, t: Seq<char>) -> bool {
    &&& comps.len() == 0 ==> t.len() == 0
    &&& (exists|k: int| 0 <= k < comps.len() && (#[trigger] comps[k]).len() > 0) ==> t.len() > 0
    &&& all_plain(comps) ==> same_path(t, reversed_join(comps))
}

/// The walk up from `path` to its end, with the final component of each path walked over.
/// It asks nothing of the file system.
fn walk_up(path: &str) -> (r: (Vec<String>, Vec<String>, String))
    ensures
        walk_ok(path@, texts(r.0@), texts(r.1@), r.2@),
{
    let mut checked: Vec<String> = Vec::new();
    let mut names: Vec<String> = Vec::new();
    let mut current = path.to_owned();
    loop
        invariant
            current@ == path@ || proper_prefix(current@, path@),
            names.len() == checked.len(),
            checked.len() == 0 ==> current@ == path@,
            checked.len() > 0 ==> {
                &&& current@.len() > 0
                &&& current@ != seq!['/']
                &&& proper_prefix(current@, texts(checked@).last())
                &&& plain_path(texts(checked@).last()) ==> parent_text(current@, texts(checked@).last())
                &&& simple_path(texts(checked@).last()) ==> current@ == simple_parent(
                    texts(checked@).last(),
                )
            },
            checked.len() > 0 ==> texts(checked@)[0] == path@,
            forall|k: int|
                0 <= k < names.len() ==> (#[trigger] texts(names@)[k]).len() > 0 && (plain_path(
                    texts(checked@)[k],
                ) ==> texts(names@)[k] == last_part(texts(checked@)[k])),
            forall|k: int|
                0 <= k < checked.len() - 1 ==> {
                    &&& (#[trigger] texts(checked@)[k + 1]).len() > 0
                    &&& texts(checked@)[k + 1] != seq!['/']
                    &&& proper_prefix(texts(checked@)[k + 1], texts(checked@)[k])
                    &&& plain_path(texts(checked@)[k]) ==> parent_text(
                        texts(checked@)[k + 1],
                        texts(checked@)[k],
                    )
                    &&& simple_path(texts(checked@)[k]) ==> texts(checked@)[k + 1] == simple_parent(
                        texts(checked@)[k],
                    )
                },
        decreases current@.len(),
    {
        let ghost c0 = texts(checked@);
        let ghost n0 = texts(names@);
        checked.push(current.clone());
        assert(texts(checked@) =~= c0.push(current@));
        match path_file_name(current.as_str()) {
            None => {
                proof {
                    reveal_strlit("/");
                    assert("/"@ =~= seq!['/']);
                }
                return (checked, names, "/".to_owned());
            },
            Some(component) => {
                names.push(component.to_owned());
                assert(texts(names@) =~= n0.push(component@));
            },
        }
        let next = match path_parent(current.as_str()) {
            Some(p) => p.to_owned(),
            None => {
                proof {
                    reveal_strlit("/");
                    assert("/"@ =~= seq!['/']);
                }
                "/".to_owned()
            },
        };
        if next.as_str().is_empty() || is_root(next.as_str()) {
            return (checked, names, next);
        }
        proof {
            lemma_prefix_trans(next@, current@, path@);
        }
        current = next;
    }
}

/// Where a walk stops and the components walked over, decided from the file system's
/// answers `answers` about the checked paths, in order.
pub fn split_at_existing(
    checked: &Vec<String>,
    names: &Vec<String>,
    terminal: &str,
    answers: &Vec<bool>,
) -> (r: (String, String))
    ensures
        r.0@ == split_prefix(texts(checked@), answers@, terminal@),
        suffix_text(split_names(texts(names@), answers@), r.1@),
{
    let n = answers.len();
    let mut k: usize = 0;
    while k < n && !answers[k]
        invariant
            n == answers.len(),
            k <= n,
            first_true(answers@, k as int) == first_true(answers@, 0),
        decreases n - k,
    {
        k = k + 1;
    }
    assert(first_true(answers@, 0) == k);
    let take = if k < names.len() {
        k
    } else {
        names.len()
    };
    let mut comps: Vec<String> = Vec::new();
    let mut i: usize = 0;
    while i < take
        invariant
            take <= names.len(),
            i <= take,
            comps.len() == i,
            texts(comps@) == texts(names@).take(i as int),
        decreases take - i,
    {
        let ghost before = comps@;
        comps.push(names[i].as_str().to_owned());
        assert forall|j: int| 0 <= j <= i implies texts(comps@)[j] == texts(names@)[j] by {
            if j < i {
                assert(comps@[j] == before[j]);
                assert(texts(before)[j] == texts(names@).take(i as int)[j]);
            }
        }
        assert(texts(comps@) =~= texts(names@).take(i as int + 1));
        i = i + 1;
    }
    let suffix = build_suffix(&comps);
    let ghost cs = texts(comps@);
    assert(cs == split_names(texts(names@), answers@)) by {
        if take == names.len() {
            assert(texts(names@).take(names.len() as int) =~= texts(names@));
        }
    }
    proof {
        if cs.len() > 0 {
            assert(comps@[0]@ == cs[0]);
        }
    }
    let prefix = if k < n && k < checked.len() {
        checked[k].as_str().to_owned()
    } else {
        terminal.to_owned()
    };
    proof {
        if k < n && k < checked.len() {
            assert(texts(checked@)[k as int] == checked@[k as int]@);
        }
    }
    (prefix, suffix)
}

/// `prefix` and `suffix` split `path` as a walk up from it does for some answers of the file
/// system, asked in order until one is yes: `prefix` is where the walk stops and `suffix` is
/// built from the components walked over; for a simple path, joining the two gives it back.
pub open spec fn split_ok(path: Seq<char>, prefix: Seq<char>, suffix: Seq<char>) -> bool {
    exists|checked: Seq<Seq<char>>, names: Seq<Seq<char>>, terminal: Seq<char>, answers: Seq<bool>|
        {
            &&& walk_ok(path, checked, names, terminal)
            &&& answers.len() <= checked.len()
            &&& prefix == split_prefix(checked, answers, terminal)
            &&& suffix_text(split_names(names, answers), suffix)
            &&& first_true(answers, 0) == answers.len() ==> answers.len() == checked.len()
            &&& simple_path(path) ==> rejoins(prefix, suffix, path)
        }
}

/// Joining `prefix` and `suffix` gives back `path`, up to which separator stands where (and
/// the two are such that they are joined alike on every platform); with no suffix, `prefix`
/// is `path` itself.
pub open spec fn rejoins(prefix: Seq<char>, suffix: Seq<char>, path: Seq<char>) -> bool {
    if suffix.len() == 0 {
        prefix == path
    } else {
        &&& plain_base(prefix)
        &&& plain_relative(suffix)
        &&& forall|t: Seq<char>| #[trigger] joined_text(prefix, suffix, t) ==> same_path(t, path)
    }
}

/// `absolute` is the path `input` (which names no home directory) resolved against the
/// working directory `cwd`: `input` itself without a working directory, and a plain relative
/// `input` adjoined to a plain `cwd`.
pub open spec fn resolved_text(input: Seq<char>, cwd: Option<Seq<char>>, absolute: Seq<char>) -> bool {
    &&& cwd is None ==> absolute == input
    &&& cwd is Some && plain_relative(input) && plain_base(cwd->0) ==> joined_text(
        cwd->0,
        input,
        absolute,
    )
}

/// Find the longest prefix of the path that exists on disk: walking up from the path
/// itself, the first ancestor the file system has, with the components walked over (the
/// missing suffix); the walk stops at the root or at an empty path. The walk is taken
/// first, then the file system is asked about each path on it in order until one exists.
/// Joining the prefix and the suffix gives the path back.
pub fn find_existing_prefix(path: &str) -> (r: (String, String))
    ensures
        r.0@ == path@ || proper_prefix(r.0@, path@) || r.0@ == seq!['/'],
        path@.len() > 0 ==> r.0@.len() > 0 || r.1@.len() > 0,
        split_ok(path@, r.0@, r.1@),
        simple_path(path@) ==> rejoins(r.0@, r.1@, path@),
{
    let (checked, names, terminal) = walk_up(path);
    let mut answers: Vec<bool> = Vec::new();
    let mut found = false;
    while !found && answers.len() < checked.len()
        invariant
            answers.len() <= checked.len(),
            found ==> first_true(answers@, 0) < answers.len(),
            !found ==> first_true(answers@, 0) == answers.len(),
        decreases checked.len() - answers.len() + if found { 0int } else { 1int },
    {
        let ghost before = answers@;
        let e = path_exists(checked[answers.len()].as_str());
        answers.push(e);
        proof {
            lemma_first_true_push(before, e);
        }
        if e {
            found = true;
        }
    }
    let r = split_at_existing(&checked, &names, terminal.as_str(), &answers);
    proof {
        if simple_path(path@) {
            lemma_rejoin(path@, texts(checked@), texts(names@), terminal@, answers@, r.1@);
        }
        lemma_split_prefix_on_walk(path@, texts(checked@), texts(names@), terminal@, answers@);
        if path@.len() > 0 {
            lemma_split_nonempty(path@, texts(checked@), texts(names@), terminal@, answers@);
        }
    }
    r
}

/// Adding an answer: the first `true` stays where it was, or is the new one when there was
/// none.
proof fn lemma_first_true_push(ans: Seq<bool>, e: bool)
    ensures
        first_true(ans.push(e), 0) == if first_true(ans, 0) < ans.len() {
            first_true(ans, 0)
        } else if e {
            ans.len() as int
        } else {
            ans.len() as int + 1
        },
{
    assert forall|k: int| 0 <= k <= ans.len() implies first_true(ans.push(e), k) == if first_true(
        ans,
        k,
    ) < ans.len() {
        first_true(ans, k)
    } else if e {
        ans.len() as int
    } else {
        ans.len() as int + 1
    } by {
        lemma_first_true_push_from(ans, e, k);
    }
}

proof fn lemma_first_true_push_from(ans: Seq<bool>, e: bool, k: int)
    requires
        0 <= k <= ans.len(),
    ensures
        first_true(ans.push(e), k) == if first_true(ans, k) < ans.len() {
            first_true(ans, k)
        } else if e {
            ans.len() as int
        } else {
            ans.len() as int + 1
        },
    decreases ans.len() - k,
{
    if k < ans.len() {
        assert(ans.push(e)[k] == ans[k]);
        if !ans[k] {
            lemma_first_true_push_from(ans, e, k + 1);
        }
    } else {
        assert(ans.push(e)[k] == e);
        assert(first_true(ans.push(e), k + 1) == ans.len() + 1);
    }
}

/// The first `true` from `k` on is at `k` or later, and at most the end.
proof fn lemma_first_true_range(ans: Seq<bool>, k: int)
    requires
        0 <= k,
    ensures
        k <= first_true(ans, k) <= ans.len() || (k > ans.len() && first_true(ans, k) == ans.len()),
    decreases ans.len() - k,
{
    if k < ans.len() && !ans[k] {
        lemma_first_true_range(ans, k + 1);
    }
}

/// Where a walk stops is the path itself, a shorter start of it, or the root.
proof fn lemma_split_prefix_on_walk(
    path: Seq<char>,
    checked: Seq<Seq<char>>,
    names: Seq<Seq<char>>,
    terminal: Seq<char>,
    ans: Seq<bool>,
)
    requires
        walk_ok(path, checked, names, terminal),
    ensures
        split_prefix(checked, ans, terminal) == path || proper_prefix(
            split_prefix(checked, ans, terminal),
            path,
        ) || split_prefix(checked, ans, terminal) == seq!['/'],
{
    assert forall|k: int| 0 <= k < checked.len() implies (#[trigger] checked[k]) == path
        || proper_prefix(checked[k], path) by {
        lemma_walk_shorter(path, checked, names, terminal, k);
    }
    let k = first_true(ans, 0);
    lemma_first_true_range(ans, 0);
    if k < ans.len() && k < checked.len() {
        lemma_walk_shorter(path, checked, names, terminal, k);
    }
    let last = checked.len() - 1;
    if names.len() == checked.len() && terminal != seq!['/'] {
        lemma_walk_shorter(path, checked, names, terminal, last);
        lemma_prefix_trans(terminal, checked[last], path);
    }
}

/// A walk from a non-empty path stops at a non-empty path, or walks over a non-empty
/// component.
proof fn lemma_split_nonempty(
    path: Seq<char>,
    checked: Seq<Seq<char>>,
    names: Seq<Seq<char>>,
    terminal: Seq<char>,
    ans: Seq<bool>,
)
    requires
        walk_ok(path, checked, names, terminal),
        path.len() > 0,
        ans.len() <= checked.len(),
        first_true(ans, 0) == ans.len() ==> ans.len() == checked.len(),
    ensures
        split_prefix(checked, ans, terminal).len() > 0 || exists|j: int|
            0 <= j < split_names(names, ans).len() && (#[trigger] split_names(names, ans)[j]).len()
                > 0,
{
    let k = first_true(ans, 0);
    lemma_first_true_range(ans, 0);
    if k < ans.len() {
        if k > 0 {
            assert(checked[(k - 1) + 1].len() > 0);
        }
    } else if terminal.len() == 0 {
        assert(split_names(names, ans) == names);
        assert(names[0].len() > 0);
    }
}

/// Each path on a walk is the path itself or a shorter start of it.
proof fn lemma_walk_shorter(
    path: Seq<char>,
    checked: Seq<Seq<char>>,
    names: Seq<Seq<char>>,
    terminal: Seq<char>,
    k: int,
)
    requires
        walk_ok(path, checked, names, terminal),
        0 <= k < checked.len(),
    ensures
        checked[k] == path || proper_prefix(checked[k], path),
    decreases k,
{
    if k > 0 {
        lemma_walk_shorter(path, checked, names, terminal, k - 1);
        assert(proper_prefix(checked[(k - 1) + 1], checked[k - 1]));
        lemma_prefix_trans(checked[k], checked[k - 1], path);
    }
}

/// The final component of `p` is what follows its last `/`.
proof fn lemma_last_part_shape(p: Seq<char>)
    ensures
        last_part(p).len() <= p.len(),
        last_part(p) =~= p.skip(p.len() - last_part(p).len()),
        last_part(p).len() < p.len() ==> p[p.len() - last_part(p).len() - 1] == '/',
    decreases p.len(),
{
    if p.len() > 0 && p.last() != '/' {
        lemma_last_part_shape(p.drop_last());
    }
}

/// A simple path is its parent's text, a `/` and its final component.
proof fn lemma_simple_shape(p: Seq<char>)
    requires
        simple_path(p),
    ensures
        p.len() - last_part(p).len() - 1 >= 0,
        p =~= p.take(p.len() - last_part(p).len() - 1) + seq!['/'] + last_part(p),
{
    lemma_last_part_shape(p);
}

/// A simple path starts with `/` and a plain character, ends with a plain character, and
/// holds nothing but plain characters and `/`.
proof fn lemma_simple_chars(p: Seq<char>)
    requires
        simple_path(p),
    ensures
        p.len() >= 2,
        p[0] == '/',
        plain_name_char(p[1]),
        plain_name_char(p.last()),
        forall|i: int| 0 <= i < p.len() ==> #[trigger] p[i] == '/' || plain_name_char(p[i]),
    decreases p.len(),
{
    let n = last_part(p);
    let j = p.len() - n.len() - 1;
    lemma_simple_shape(p);
    lemma_plain_name_relative(n);
    let q = p.take(j);
    if j > 0 {
        lemma_simple_chars(q);
        assert(p[0] == q[0] && p[1] == q[1]);
    } else {
        assert(p[1] == n[0]);
    }
    assert(p.last() == n.last());
    assert forall|i: int| 0 <= i < p.len() implies #[trigger] p[i] == '/' || plain_name_char(p[i]) by {
        if i < j {
            assert(p[i] == q[i]);
        } else if i > j {
            assert(p[i] == n[i - j - 1]);
        }
    }
}

/// A simple path's final component is plain on every platform.
proof fn lemma_simple_plain(p: Seq<char>)
    requires
        simple_path(p),
    ensures
        plain_path(p),
{
    lemma_simple_chars(p);
    if p.contains('\\') {
        let k = choose|k: int| 0 <= k < p.len() && p[k] == '\\';
        assert(p[k] == '/' || plain_name_char(p[k]));
    }
}

/// Each path on a walk from a simple path is simple, and the walk ends at the root, after the
/// path just below it.
proof fn lemma_walk_simple(
    path: Seq<char>,
    checked: Seq<Seq<char>>,
    names: Seq<Seq<char>>,
    terminal: Seq<char>,
    k: int,
)
    requires
        walk_ok(path, checked, names, terminal),
        simple_path(path),
        0 <= k < checked.len(),
    ensures
        simple_path(checked[k]),
        names.len() == checked.len(),
        terminal == seq!['/'],
        names[k] == last_part(checked[k]),
        k + 1 < checked.len() ==> checked[k] =~= checked[k + 1] + seq!['/'] + names[k],
        k + 1 == checked.len() ==> checked[k] =~= seq!['/'] + names[k],
{
    lemma_walk_simple_only(path, checked, names, terminal, k);
    let c = checked[k];
    lemma_simple_shape(c);
    lemma_simple_plain(c);
    let j = c.len() - last_part(c).len() - 1;
    lemma_last_simple(path, checked, names, terminal);
    assert(names[k] == last_part(c));
    if k + 1 < checked.len() {
        assert(checked[k + 1] == simple_parent(c));
        assert(checked[k + 1] != seq!['/']);
    } else {
        assert(terminal == simple_parent(c));
        if j > 0 {
            lemma_simple_chars(c.take(j));
            assert(terminal.len() >= 2);
        }
    }
}

/// The last path on a walk from a simple path is simple.
proof fn lemma_last_simple(
    path: Seq<char>,
    checked: Seq<Seq<char>>,
    names: Seq<Seq<char>>,
    terminal: Seq<char>,
)
    requires
        walk_ok(path, checked, names, terminal),
        simple_path(path),
    ensures
        simple_path(checked.last()),
        names.len() == checked.len(),
        terminal == seq!['/'],
{
    assert forall|k: int| 0 <= k < checked.len() implies simple_path(#[trigger] checked[k]) by {
        lemma_walk_simple_only(path, checked, names, terminal, k);
    }
    lemma_simple_plain(checked.last());
    let c = checked.last();
    lemma_simple_shape(c);
    let j = c.len() - last_part(c).len() - 1;
    if j > 0 {
        lemma_simple_chars(c.take(j));
    }
}

/// Each path on a walk from a simple path is simple.
proof fn lemma_walk_simple_only(
    path: Seq<char>,
    checked: Seq<Seq<char>>,
    names: Seq<Seq<char>>,
    terminal: Seq<char>,
    k: int,
)
    requires
        walk_ok(path, checked, names, terminal),
        simple_path(path),
        0 <= k < checked.len(),
    ensures
        simple_path(checked[k]),
    decreases k,
{
    if k > 0 {
        lemma_walk_simple_only(path, checked, names, terminal, k - 1);
        let c = checked[k - 1];
        assert(checked[(k - 1) + 1] == simple_parent(c));
        assert(checked[(k - 1) + 1] != seq!['/']);
        lemma_simple_shape(c);
    }
}

/// On a walk from a simple path, path `j` is path `k` (further up), a `/`, and the
/// components walked over between them in path order.
proof fn lemma_walk_between(
    path: Seq<char>,
    checked: Seq<Seq<char>>,
    names: Seq<Seq<char>>,
    terminal: Seq<char>,
    j: int,
    k: int,
)
    requires
        walk_ok(path, checked, names, terminal),
        simple_path(path),
        0 <= j < k < checked.len(),
    ensures
        checked[j] =~= checked[k] + seq!['/'] + reversed_join(names.subrange(j, k)),
    decreases k - j,
{
    lemma_walk_simple(path, checked, names, terminal, j);
    let sub = names.subrange(j, k);
    if k == j + 1 {
        assert(reversed_join(sub) == names[j]);
    } else {
        lemma_walk_between(path, checked, names, terminal, j + 1, k);
        assert(sub.skip(1) =~= names.subrange(j + 1, k));
        assert(reversed_join(sub) == reversed_join(names.subrange(j + 1, k)) + seq!['/'] + names[j]);
    }
}

/// On a walk from a simple path, path `j` is the root followed by the components from `j` on
/// in path order.
proof fn lemma_walk_top(
    path: Seq<char>,
    checked: Seq<Seq<char>>,
    names: Seq<Seq<char>>,
    terminal: Seq<char>,
    j: int,
)
    requires
        walk_ok(path, checked, names, terminal),
        simple_path(path),
        0 <= j < checked.len(),
    ensures
        checked[j] =~= seq!['/'] + reversed_join(names.subrange(j, checked.len() as int)),
    decreases checked.len() - j,
{
    lemma_walk_simple(path, checked, names, terminal, j);
    let m = checked.len() as int;
    let sub = names.subrange(j, m);
    if j + 1 == m {
        assert(reversed_join(sub) == names[j]);
    } else {
        lemma_walk_top(path, checked, names, terminal, j + 1);
        assert(sub.skip(1) =~= names.subrange(j + 1, m));
        assert(reversed_join(sub) == reversed_join(names.subrange(j + 1, m)) + seq!['/'] + names[j]);
    }
}

/// Text that is the same as `b`, after a base that ends in a separator where `b`'s base ends
/// in `/`, is the same path.
proof fn lemma_same_after(base: Seq<char>, sep: char, a: Seq<char>, b: Seq<char>)
    requires
        is_sep(sep),
        same_path(a, b),
    ensures
        same_path(base.push(sep) + a, base + seq!['/'] + b),
{
    let x = base.push(sep) + a;
    let y = base + seq!['/'] + b;
    assert forall|i: int| 0 <= i < x.len() implies #[trigger] x[i] == y[i] || (is_sep(x[i]) && is_sep(y[i])) by {
        if i < base.len() {
            assert(x[i] == base[i] && y[i] == base[i]);
        } else if i == base.len() {
            assert(x[i] == sep && y[i] == '/');
        } else {
            assert(x[i] == a[i - base.len() - 1] && y[i] == b[i - base.len() - 1]);
        }
    }
}

/// Where a walk from a simple path stops, joined with the suffix built from the components
/// walked over, gives the path back.
proof fn lemma_rejoin(
    path: Seq<char>,
    checked: Seq<Seq<char>>,
    names: Seq<Seq<char>>,
    terminal: Seq<char>,
    answers: Seq<bool>,
    suffix: Seq<char>,
)
    requires
        walk_ok(path, checked, names, terminal),
        simple_path(path),
        answers.len() <= checked.len(),
        first_true(answers, 0) == answers.len() ==> answers.len() == checked.len(),
        suffix_text(split_names(names, answers), suffix),
    ensures
        rejoins(split_prefix(checked, answers, terminal), suffix, path),
{
    let k = first_true(answers, 0);
    lemma_first_true_range(answers, 0);
    lemma_last_simple(path, checked, names, terminal);
    let m = checked.len() as int;
    assert forall|i: int| 0 <= i < names.len() implies plain_name(#[trigger] names[i]) by {
        lemma_walk_simple(path, checked, names, terminal, i);
    }
    let comps = split_names(names, answers);
    assert(all_plain(comps));
    let prefix = split_prefix(checked, answers, terminal);
    if k < answers.len() {
        assert(prefix == checked[k]);
        assert(comps == names.take(k));
        if k == 0 {
            assert(comps.len() == 0);
        } else {
            assert(comps =~= names.subrange(0, k));
            lemma_walk_between(path, checked, names, terminal, 0, k);
            lemma_reversed_join_chars(comps);
            lemma_walk_simple(path, checked, names, terminal, k);
            lemma_simple_chars(checked[k]);
            lemma_simple_plain(checked[k]);
            lemma_same_as_joined_base(suffix, comps);
            let rj = reversed_join(comps);
            assert(suffix.len() > 0);
            assert forall|t: Seq<char>| #[trigger] joined_text(prefix, suffix, t) implies same_path(t, path) by {
                assert(prefix.last() != '/');
                let sep = choose|sep: char| (sep == '/' || sep == '\\') && t == prefix.push(sep) + suffix;
                lemma_same_after(prefix, sep, suffix, rj);
            }
        }
    } else {
        assert(prefix == seq!['/']);
        assert(comps == names);
        assert(names =~= names.subrange(0, m));
        lemma_walk_top(path, checked, names, terminal, 0);
        lemma_reversed_join_chars(comps);
        lemma_same_as_joined_base(suffix, comps);
        assert(suffix.len() > 0);
        assert forall|t: Seq<char>| #[trigger] joined_text(prefix, suffix, t) implies same_path(t, path) by {
            let x = prefix + suffix;
            let y = seq!['/'] + reversed_join(comps);
            assert forall|i: int| 0 <= i < x.len() implies #[trigger] x[i] == y[i] || (is_sep(x[i]) && is_sep(y[i])) by {
                if i > 0 {
                    assert(x[i] == suffix[i - 1] && y[i] == reversed_join(comps)[i - 1]);
                }
            }
        }
    }
}

/// A path rebuilt from a prefix and a suffix that rejoin to `path` is the same path.
proof fn lemma_rejoin_after(prefix: Seq<char>, suffix: Seq<char>, path: Seq<char>, full: Seq<char>)
    requires
        rejoins(prefix, suffix, path),
        suffix.len() == 0 ==> full == prefix,
        suffix.len() > 0 && plain_base(prefix) && plain_relative(suffix) ==> joined_text(
            prefix,
            suffix,
            full,
        ),
    ensures
        same_path(full, path),
{
    if suffix.len() == 0 {
        assert forall|i: int| 0 <= i < full.len() implies #[trigger] full[i] == path[i] || (is_sep(full[i]) && is_sep(path[i])) by {
        }
    }
}

/// A proper prefix of a prefix is a proper prefix.
pub proof fn lemma_prefix_trans(a: Seq<char>, b: Seq<char>, c: Seq<char>)
    requires
        proper_prefix(a, b),
        b == c || proper_prefix(b, c),
    ensures
        proper_prefix(a, c),
{
    if b != c {
        assert(a =~= c.take(a.len() as int));
    }
}

/// `m` is what parsing `input` against the working directory `cwd` can give, whatever the
/// file system holds: nothing for empty input; the full path is the existing part, or the
/// existing part joined with the missing suffix; and for input that names no home directory,
/// a non-empty full path, with the suffix split off the resolved path by a walk up from it
/// (so that for a simple path, the found prefix joined with the suffix gives it back).
pub open spec fn parsed_ok(input: Seq<char>, cwd: Option<Seq<char>>, m: PathModel) -> bool {
    &&& input.len() == 0 ==> m.existing.len() == 0 && m.suffix.len() == 0 && m.full.len() == 0
    &&& m.suffix.len() == 0 ==> m.full == m.existing
    &&& m.suffix.len() > 0 && plain_base(m.existing) && plain_relative(m.suffix) ==> joined_text(
        m.existing,
        m.suffix,
        m.full,
    )
    &&& input.len() > 0 && !names_home(input) ==> m.full.len() > 0
    &&& input.len() > 0 && !names_home(input) ==> exists|absolute: Seq<char>, found: Seq<char>|
        {
            &&& resolved_text(input, cwd, absolute)
            &&& split_ok(absolute, found, m.suffix)
            &&& m.existing == found || m.existing.len() > 0
            &&& m.existing == found && simple_path(absolute) ==> same_path(m.full, absolute)
        }
}

/// Parse and canonicalize a user-provided path against the working directory `cwd`
///
/// Returns a PathInfo struct containing:
/// - existing_canonical: The longest prefix that exists and can be canonicalized
/// - non_existing_suffix: Any remaining path components that don't exist
/// - full_path: The complete reconstructed path
pub fn parse_path_in(input: &str, cwd: Option<&str>) -> (r: PathInfo)
    ensures
        parsed_ok(
            input@,
            if cwd is Some {
                Some(cwd->0@)
            } else {
                None
            },
            r@,
        ),
{
    if input.is_empty() {
        let r = PathInfo::empty();
        assert(r@.full =~= r@.existing);
        return r;
    }
    // Expand ~ to home directory
    let expanded = expand_tilde(input);
    // Convert to absolute path if relative
    let absolute = if path_is_absolute(expanded.as_str()) {
        expanded
    } else {
        match cwd {
            Some(c) => path_join(c, expanded.as_str()),
            None => expanded,
        }
    };
    // Find the longest existing prefix
    let (existing, suffix) = find_existing_prefix(absolute.as_str());
    let ghost found = existing@;
    let ghost abs = absolute@;
    let ghost cv = if cwd is Some {
        Some(cwd->0@)
    } else {
        None
    };
    assert(!names_home(input@) ==> resolved_text(input@, cv, abs));
    assert(split_ok(abs, found, suffix@));
    // Try to canonicalize the existing portion
    let canonical = match path_canonicalize(existing.as_str()) {
        Some(c) => c,
        None => existing,
    };
    // Reconstruct full path
    let full = if suffix.as_str().is_empty() {
        canonical.clone()
    } else {
        path_join(canonical.as_str(), suffix.as_str())
    };
    let r = PathInfo { existing_canonical: canonical, non_existing_suffix: suffix, full_path: full };
    proof {
        if r@.existing == found && simple_path(abs) {
            lemma_rejoin_after(found, r@.suffix, abs, r@.full);
        }
    }
    assert(!names_home(input@) ==> {
        &&& resolved_text(input@, cv, abs)
        &&& split_ok(abs, found, r@.suffix)
        &&& r@.existing == found || r@.existing.len() > 0
        &&& r@.existing == found && simple_path(abs) ==> same_path(r@.full, abs)
    });
    r
}

} // verus!
