//! Selecting the capture target: a window title matches when its lowercase
//! form contains the lowercase form of the configured target substring. The
//! surrounding program enumerates the windows and hands their titles here.

use vstd::prelude::*;
use vstd::string::*;

verus! {

/// `needle` occurs contiguously somewhere in `hay`.
pub open spec fn contains_seq(hay: Seq<char>, needle: Seq<char>) -> bool {
    exists|k: int|
        0 <= k <= hay.len() - needle.len() && #[trigger] hay.subrange(k, k + needle.len())
            == needle
}

/// The lowercase form of a string of characters, as Unicode case mapping
/// defines it.
pub uninterp spec fn lower_of(s: Seq<char>) -> Seq<char>;

/// Relies on str::to_lowercase: the lowercase form of a string slice, a
/// function of its characters alone.
#[verifier::external_body]
fn lowercase(s: &str) -> (r: String)
    ensures
        r@ == lower_of(s@),
{
    s.to_lowercase()
}

/// A window title matches the target substring, ignoring case.
pub open spec fn title_matches(title: Seq<char>, target: Seq<char>) -> bool {
    contains_seq(lower_of(title), lower_of(target))
}

/// Whether `needle` occurs in `hay` starting at character position `k`.
fn contains_at(hay: &str, needle: &str, k: usize) -> (r: bool)
    requires
        k + needle@.len() <= hay@.len(),
        hay@.len() <= usize::MAX,
    ensures
        r == (hay@.subrange(k as int, k + needle@.len()) == needle@),
{
    let m = needle.unicode_len();
    let mut j: usize = 0;
    while j < m
        invariant
            m == needle@.len(),
            k + m <= hay@.len() <= usize::MAX,
            j <= m,
            forall|jj: int| 0 <= jj < j ==> hay@[k + jj] == needle@[jj],
        decreases m - j,
    {
        if hay.get_char(k + j) != needle.get_char(j) {
            proof {
                assert(hay@.subrange(k as int, k + m as int)[j as int] == hay@[k + j]);
            }
            return false;
        }
        j = j + 1;
    }
    proof {
        assert(hay@.subrange(k as int, k + m as int) =~= needle@);
    }
    true
}

/// Whether `needle` occurs anywhere in `hay`, by character positions.
fn contains_str(hay: &str, needle: &str) -> (r: bool)
    ensures
        r == contains_seq(hay@, needle@),
{
    let n = hay.unicode_len();
    let m = needle.unicode_len();
    if m > n {
        return false;
    }
    if m == 0 {
        proof {
            let k0: int = 0;
            assert(hay@.subrange(k0, k0 + needle@.len()) =~= needle@);
            assert(contains_seq(hay@, needle@));
        }
        return true;
    }
    let mut k: usize = 0;
    while k <= n - m
        invariant
            n == hay@.len(),
            m == needle@.len(),
            0 < m <= n,
            k <= n - m + 1,
            forall|kk: int| 0 <= kk < k ==> #[trigger] hay@.subrange(kk, kk + m) != needle@,
        decreases n - m - k + 1,
    {
        if contains_at(hay, needle, k) {
            proof {
                assert(0 <= k <= hay@.len() - needle@.len() && hay@.subrange(
                    k as int,
                    k + needle@.len(),
                ) == needle@);
            }
            return true;
        }
        k = k + 1;
    }
    false
}

/// The first enumerated window whose title matches the target substring,
/// ignoring case — or `None` when no title matches.
pub fn find_window_match(titles: &Vec<String>, target: &str) -> (r: Option<usize>)
    ensures
        match r {
            Option::Some(i) => {
                &&& (i as int) < titles@.len()
                &&& title_matches(titles@[i as int]@, target@)
                &&& forall|j: int| 0 <= j < i ==> !title_matches(titles@[j]@, target@)
            },
            Option::None => forall|j: int|
                0 <= j < titles@.len() ==> !title_matches(titles@[j]@, target@),
        },
{
    let target_lower = lowercase(target);
    let n = titles.len();
    let mut i: usize = 0;
    while i < n
        invariant
            n == titles@.len(),
            i <= n,
            target_lower@ == lower_of(target@),
            forall|j: int| 0 <= j < i ==> !title_matches(titles@[j]@, target@),
        decreases n - i,
    {
        let title_lower = lowercase(titles[i].as_str());
        if contains_str(title_lower.as_str(), target_lower.as_str()) {
            return Some(i);
        }
        i = i + 1;
    }
    None
}

} // verus!
