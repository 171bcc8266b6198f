//! Small verified string helpers: equality of text, membership in a list of
//! names, and the last `::`-separated segment of a type path.
use vstd::prelude::*;

verus! {

/// The two texts hold the same characters.
pub fn text_eq(a: &str, b: &str) -> (r: bool)
    ensures
        r == (a@ == b@),
{
    let n = a.unicode_len();
    if n != b.unicode_len() {
        return false;
    }
    let mut i: usize = 0;
    while i < n
        invariant
            n == a@.len() == b@.len(),
            i <= n,
            forall|j: int| 0 <= j < i ==> a@[j] == b@[j],
        decreases n - i,
    {
        if a.get_char(i) != b.get_char(i) {
            return false;
        }
        i = i + 1;
    }
    assert(a@ =~= b@);
    true
}

/// The texts of a list of strings.
pub open spec fn texts(names: Seq<String>) -> Seq<Seq<char>> {
    names.map_values(|s: String| s@)
}

/// `needle` is one of `names`.
pub fn contains_text(names: &Vec<String>, needle: &str) -> (r: bool)
    ensures
        r == texts(names@).contains(needle@),
{
    let mut i: usize = 0;
    while i < names.len()
        invariant
            i <= names.len(),
            forall|j: int| 0 <= j < i ==> names@[j]@ != needle@,
        decreases names.len() - i,
    {
        if text_eq(names[i].as_str(), needle) {
            assert(texts(names@)[i as int] == needle@);
            return true;
        }
        i = i + 1;
    }
    assert forall|j: int| 0 <= j < texts(names@).len() implies texts(names@)[j] != needle@ by {
        assert(texts(names@)[j] == names@[j]@);
    }
    false
}

/// `s` has `::` at character positions `i` and `i + 1`.
pub open spec fn separator_at(s: Seq<char>, i: int) -> bool {
    0 <= i && i + 1 < s.len() && s[i] == ':' && s[i + 1] == ':'
}

/// The part of `s` after its last `::` separator, or all of `s` when it has
/// none (the first piece of `s.rsplit("::")`).
pub open spec fn last_segment(s: Seq<char>) -> Seq<char> {
    if exists|i: int| #[trigger] separator_at(s, i) {
        let i = choose|i: int| separator_at(s, i) && forall|k: int| i < k ==> !#[trigger] separator_at(s, k);
        s.subrange(i + 2, s.len() as int)
    } else {
        s
    }
}

/// The last `::`-separated segment of a type path (`"a::b::C"` gives `"C"`).
pub fn last_path_segment(path: &str) -> (r: String)
    ensures
        r@ == last_segment(path@),
{
    let n = path.unicode_len();
    let mut i: usize = n;
    // Scan from the end for the last position holding `::`.
    while i >= 2
        invariant
            n == path@.len(),
            i <= n,
            forall|k: int| i - 1 <= k ==> !#[trigger] separator_at(path@, k),
        decreases i,
    {
        if path.get_char(i - 2) == ':' && path.get_char(i - 1) == ':' {
            let ghost p = i - 2;
            assert(separator_at(path@, p));
            proof {
                let c = choose|c: int| separator_at(path@, c) && forall|k: int| c < k ==> !#[trigger] separator_at(path@, k);
                assert(c == p) by {
                    if c < p {
                        assert(separator_at(path@, p));
                    } else if c > p {
                        assert(!separator_at(path@, c));
                    }
                }
            }
            return String::from_str(path.substring_char(i, n));
        }
        i = i - 1;
    }
    String::from_str(path.substring_char(0, n))
}

/// A text with a `::` separator has a last one.
proof fn lemma_last_separator_exists(s: Seq<char>, i: int)
    requires
        separator_at(s, i),
    ensures
        exists|m: int| separator_at(s, m) && forall|k: int| m < k ==> !#[trigger] separator_at(s, k),
    decreases s.len() - i,
{
    if exists|j: int| i < j && #[trigger] separator_at(s, j) {
        let j = choose|j: int| i < j && #[trigger] separator_at(s, j);
        lemma_last_separator_exists(s, j);
    } else {
        assert(separator_at(s, i) && forall|k: int| i < k ==> !#[trigger] separator_at(s, k));
    }
}

/// The short name of a type path holds no `::` separator.
pub proof fn law_last_segment_has_no_separator(s: Seq<char>)
    ensures
        forall|k: int| !#[trigger] separator_at(last_segment(s), k),
{
    if exists|i: int| #[trigger] separator_at(s, i) {
        let w = choose|i: int| #[trigger] separator_at(s, i);
        lemma_last_separator_exists(s, w);
        let i = choose|i: int| separator_at(s, i) && forall|k: int| i < k ==> !#[trigger] separator_at(s, k);
        let t = s.subrange(i + 2, s.len() as int);
        assert forall|k: int| !#[trigger] separator_at(t, k) by {
            if separator_at(t, k) {
                assert(t[k] == s[i + 2 + k]);
                assert(t[k + 1] == s[i + 2 + k + 1]);
                assert(separator_at(s, i + 2 + k));
            }
        }
    }
}

} // verus!
