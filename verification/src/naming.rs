//! Naming a capture's file: `<app-or-placeholder>_<timestamp>.png`, where the
//! app part is the file stem of the window's application path and the
//! timestamp carries sub-second precision, so rapid repeated captures still
//! get distinct names.

use vstd::prelude::*;
use vstd::string::*;

verus! {

/// Relies on chrono::Local::now and DateTime::format with the pattern
/// "%Y%m%d_%H%M%S.%f" (nanoseconds since the last whole second, zero-padded
/// to nine digits). The result depends on the wall clock, so nothing is
/// promised of its characters, only that rendering that pattern is never
/// empty.
#[verifier::external_body]
fn current_timestamp() -> (r: String)
    ensures
        r@.len() > 0,
{
    chrono::Local::now().format("%Y%m%d_%H%M%S.%f").to_string()
}

/// The on-disk basename built from an application name and a timestamp.
pub fn make_filename(app_name: &str, timestamp: &str) -> (r: String)
    ensures
        r@ == app_name@ + "_"@ + timestamp@ + ".png"@,
{
    let mut s = app_name.to_owned();
    s.append("_");
    s.append(timestamp);
    s.append(".png");
    s
}

/// A fresh capture filename: the application name, a separator, the current
/// wall-clock timestamp, and the image extension.
pub fn new_capture_filename(app_name: &str) -> (r: String)
    ensures
        exists|ts: Seq<char>|
            #[trigger] (app_name@ + "_"@ + ts + ".png"@) == r@ && ts.len() > 0,
{
    let ts = current_timestamp();
    let r = make_filename(app_name, ts.as_str());
    proof {
        assert((app_name@ + "_"@ + ts@ + ".png"@) == r@ && ts@.len() > 0);
    }
    r
}

/// A path separator; both directions are accepted so that paths reported by
/// either platform convention resolve to the same stem.
pub open spec fn is_sep(c: char) -> bool {
    c == '/' || c == '\\'
}

/// The longest separator-free suffix of a path: its basename.
pub open spec fn basename_of(s: Seq<char>) -> Seq<char>
    decreases s.len(),
{
    if s.len() == 0 {
        s
    } else if is_sep(s.last()) {
        Seq::empty()
    } else {
        basename_of(s.drop_last()).push(s.last())
    }
}

/// Index of the last `.` in a name, or -1 when none occurs.
pub open spec fn last_dot(s: Seq<char>) -> int
    decreases s.len(),
{
    if s.len() == 0 {
        -1
    } else if s.last() == '.' {
        s.len() - 1
    } else {
        last_dot(s.drop_last())
    }
}

/// The file stem of a name: everything before the last `.`, or the whole
/// name when no `.` occurs or the only one leads the name.
pub open spec fn stem_of(name: Seq<char>) -> Seq<char> {
    if last_dot(name) <= 0 {
        name
    } else {
        name.subrange(0, last_dot(name))
    }
}

/// The basename of `s` is the suffix that starts at `b`, provided no
/// separator occurs at or after `b` and `b` either opens the path or follows
/// a separator.
proof fn lemma_basename_is_suffix(s: Seq<char>, b: int)
    requires
        0 <= b <= s.len(),
        forall|i: int| b <= i < s.len() ==> !is_sep(#[trigger] s[i]),
        b == 0 || is_sep(s[b - 1]),
    ensures
        basename_of(s) == s.subrange(b, s.len() as int),
    decreases s.len(),
{
    if s.len() == 0 {
        assert(basename_of(s) =~= s.subrange(b, s.len() as int));
    } else if b == s.len() {
        assert(is_sep(s.last()));
        assert(basename_of(s) =~= s.subrange(b, s.len() as int));
    } else {
        assert(!is_sep(s[s.len() - 1]));
        let t = s.drop_last();
        assert(forall|i: int| b <= i < t.len() ==> !is_sep(#[trigger] t[i]));
        lemma_basename_is_suffix(t, b);
        assert(basename_of(s) == basename_of(t).push(s.last()));
        assert(t.subrange(b, t.len() as int).push(s.last()) =~= s.subrange(b, s.len() as int));
    }
}

/// `last_dot` returns `d` exactly when `d` indexes a `.` that no later `.`
/// follows, or is -1 and no `.` occurs at all.
proof fn lemma_last_dot_at(s: Seq<char>, d: int)
    requires
        -1 <= d < s.len(),
        d == -1 ==> forall|i: int| 0 <= i < s.len() ==> #[trigger] s[i] != '.',
        d >= 0 ==> s[d] == '.',
        d >= 0 ==> forall|i: int| d < i < s.len() ==> #[trigger] s[i] != '.',
    ensures
        last_dot(s) == d,
    decreases s.len(),
{
    if s.len() == 0 {
    } else if s.last() == '.' {
        assert(d == s.len() - 1);
    } else {
        let t = s.drop_last();
        assert(d < s.len() - 1);
        assert(forall|i: int| 0 <= i < t.len() ==> t[i] == s[i]);
        lemma_last_dot_at(t, d);
    }
}

/// The file stem of the basename of `path`: the part of the last path
/// component before its extension, mirroring how an application path is
/// turned into a display name.
pub fn file_stem_of(path: &str) -> (r: String)
    ensures
        r@ == stem_of(basename_of(path@)),
{
    let n = path.unicode_len();
    let mut base: usize = 0;
    let mut i: usize = 0;
    while i < n
        invariant
            n == path@.len(),
            base <= i <= n,
            forall|j: int| base <= j < i ==> !is_sep(#[trigger] path@[j]),
            base == 0 || is_sep(path@[base - 1]),
        decreases n - i,
    {
        let c = path.get_char(i);
        if c == '/' || c == '\\' {
            base = i + 1;
        }
        i = i + 1;
    }
    proof {
        lemma_basename_is_suffix(path@, base as int);
    }
    let ghost name = basename_of(path@);
    let mut dot: usize = 0;
    let mut has_dot = false;
    let mut k: usize = base;
    while k < n
        invariant
            n == path@.len(),
            base <= k <= n,
            has_dot ==> base <= dot < k && path@[dot as int] == '.',
            has_dot ==> forall|j: int| dot < j < k ==> #[trigger] path@[j] != '.',
            !has_dot ==> forall|j: int| base <= j < k ==> #[trigger] path@[j] != '.',
        decreases n - k,
    {
        let c = path.get_char(k);
        if c == '.' {
            dot = k;
            has_dot = true;
        }
        k = k + 1;
    }
    proof {
        if has_dot {
            lemma_last_dot_at(name, dot - base);
        } else {
            lemma_last_dot_at(name, -1);
        }
    }
    let end = if has_dot && dot > base {
        dot
    } else {
        n
    };
    let stem = path.substring_char(base, end);
    proof {
        assert(stem@ =~= stem_of(name));
    }
    stem.to_owned()
}

/// The display name for the capturing application: the file stem of its
/// path, or the fixed placeholder when that stem is empty.
pub fn app_display_name(path: &str) -> (r: String)
    ensures
        r@ == if stem_of(basename_of(path@)).len() == 0 {
            "Unknown"@
        } else {
            stem_of(basename_of(path@))
        },
{
    let stem = file_stem_of(path);
    if stem.as_str().unicode_len() == 0 {
        "Unknown".to_owned()
    } else {
        stem
    }
}

} // verus!
