//! Path text handling for the directory lister.
//!
//! Raw entry paths coming back from a remote listing are not guaranteed to be
//! clean POSIX basenames: a capability bridging to a Windows-style remote may
//! hand back drive-letter tokens or backslash-separated paths. The display
//! name of an entry is therefore derived defensively:
//! 1. the last non-empty `/`-separated component, when the path contains a
//!    slash and such a component exists;
//! 2. else, for a two-character token ending in `:`, a locale-neutral drive
//!    label such as `C-drive`;
//! 3. else, the last non-empty `\`-separated segment, when the path contains
//!    a backslash and such a segment exists;
//! 4. else, the raw path itself.

use vstd::prelude::*;

verus! {

/// Whether `c` occurs in `s`.
pub open spec fn has_char(s: Seq<char>, c: char) -> bool {
    exists|i: int| 0 <= i < s.len() && s[i] == c
}

/// The characters of `s` after the last occurrence of `sep`
/// (all of `s` when `sep` does not occur).
pub open spec fn suffix_after_sep(s: Seq<char>, sep: char) -> Seq<char>
    decreases s.len(),
{
    if s.len() == 0 {
        Seq::empty()
    } else if s.last() == sep {
        Seq::empty()
    } else {
        suffix_after_sep(s.drop_last(), sep).push(s.last())
    }
}

/// The last non-empty `sep`-separated segment of `s`; empty when every
/// character of `s` is `sep` or `s` is empty.
pub open spec fn last_nonempty_segment(s: Seq<char>, sep: char) -> Seq<char>
    decreases s.len(),
{
    if s.len() == 0 {
        Seq::empty()
    } else if s.last() == sep {
        last_nonempty_segment(s.drop_last(), sep)
    } else {
        suffix_after_sep(s, sep)
    }
}

/// The label shown for a bare drive token such as `"C:"`.
pub open spec fn drive_label(s: Seq<char>) -> Seq<char> {
    seq![s[0]] + seq!['-', 'd', 'r', 'i', 'v', 'e']
}

/// The display name derived from a raw entry path, by the fallback chain
/// described at the top of this module.
pub open spec fn spec_display_name(s: Seq<char>) -> Seq<char> {
    if has_char(s, '/') && last_nonempty_segment(s, '/').len() > 0 {
        last_nonempty_segment(s, '/')
    } else if s.len() == 2 && s[1] == ':' {
        drive_label(s)
    } else if has_char(s, '\\') && last_nonempty_segment(s, '\\').len() > 0 {
        last_nonempty_segment(s, '\\')
    } else {
        s
    }
}

/// A path that is empty or the bare root both mean the root; any other path
/// is kept as given.
pub open spec fn spec_normalized(s: Seq<char>) -> Seq<char> {
    if s.len() == 0 || (s.len() == 1 && s[0] == '/') {
        seq!['/']
    } else {
        s
    }
}

/// Whether `c` occurs in `s`.
pub fn contains_char(s: &str, c: char) -> (r: bool)
    ensures
        r == has_char(s@, c),
{
    let n = s.unicode_len();
    let mut i: usize = 0;
    while i < n
        invariant
            i <= n == s@.len(),
            forall|j: int| 0 <= j < i ==> s@[j] != c,
        decreases n - i,
    {
        if s.get_char(i) == c {
            return true;
        }
        i = i + 1;
    }
    false
}

/// When every character of `t` from `k` on differs from `sep` and `k` sits
/// just after a `sep` (or at the start), the suffix after the last `sep` is
/// exactly `t[k..]`.
proof fn lemma_suffix_is_subrange(t: Seq<char>, sep: char, k: int)
    requires
        0 <= k < t.len(),
        forall|j: int| k <= j < t.len() ==> t[j] != sep,
        k == 0 || t[k - 1] == sep,
    ensures
        suffix_after_sep(t, sep) == t.subrange(k, t.len() as int),
    decreases t.len(),
{
    let dl = t.drop_last();
    assert(t.last() != sep);
    if k == t.len() - 1 {
        if k == 0 {
            assert(dl.len() == 0);
            assert(suffix_after_sep(dl, sep) == Seq::<char>::empty());
            assert(suffix_after_sep(t, sep) =~= t.subrange(k, t.len() as int));
        } else {
            assert(dl.last() == sep);
            assert(suffix_after_sep(dl, sep) == Seq::<char>::empty());
            assert(suffix_after_sep(t, sep) =~= t.subrange(k, t.len() as int));
        }
    } else {
        assert(forall|j: int| k <= j < dl.len() ==> dl[j] == t[j]);
        lemma_suffix_is_subrange(dl, sep, k);
        assert(suffix_after_sep(t, sep) =~= t.subrange(k, t.len() as int));
    }
}

/// The character range (over character indices) of the last non-empty
/// `sep`-separated segment of `s`, when one exists.
pub fn last_segment_range(s: &str, sep: char) -> (r: Option<(usize, usize)>)
    ensures
        match r {
            Some(p) => {
                &&& p.0 < p.1 <= s@.len()
                &&& s@.subrange(p.0 as int, p.1 as int) == last_nonempty_segment(s@, sep)
                &&& last_nonempty_segment(s@, sep).len() > 0
            },
            None => last_nonempty_segment(s@, sep).len() == 0,
        },
{
    let n = s.unicode_len();
    let mut end: usize = n;
    proof {
        assert(s@.subrange(0, n as int) =~= s@);
    }
    while end > 0 && s.get_char(end - 1) == sep
        invariant
            end <= n == s@.len(),
            last_nonempty_segment(s@.subrange(0, end as int), sep) == last_nonempty_segment(
                s@,
                sep,
            ),
        decreases end,
    {
        proof {
            let t = s@.subrange(0, end as int);
            assert(t.last() == sep);
            assert(last_nonempty_segment(t, sep) == last_nonempty_segment(t.drop_last(), sep));
            assert(t.drop_last() =~= s@.subrange(0, end as int - 1));
        }
        end = end - 1;
    }
    if end == 0 {
        proof {
            assert(s@.subrange(0, 0) =~= Seq::<char>::empty());
        }
        return None;
    }
    let ghost t = s@.subrange(0, end as int);
    proof {
        assert(t.last() == s@[end as int - 1]);
        assert(t.last() != sep);
    }
    let mut start: usize = end;
    while start > 0 && s.get_char(start - 1) != sep
        invariant
            start <= end <= s@.len(),
            forall|j: int| start <= j < end ==> s@[j] != sep,
        decreases start,
    {
        start = start - 1;
    }
    proof {
        assert(start < end);
        assert(forall|j: int| start <= j < t.len() ==> t[j] != sep);
        if start > 0 {
            assert(t[start as int - 1] == s@[start as int - 1]);
        }
        lemma_suffix_is_subrange(t, sep, start as int);
        assert(last_nonempty_segment(s@, sep) == suffix_after_sep(t, sep));
        assert(t.subrange(start as int, end as int) =~= s@.subrange(start as int, end as int));
        assert(s@.subrange(start as int, end as int).len() > 0);
    }
    Some((start, end))
}

/// Derives the display name of one raw entry path.
pub fn derive_entry_name(raw: &str) -> (r: String)
    ensures
        r@ == spec_display_name(raw@),
{
    if contains_char(raw, '/') {
        if let Some(p) = last_segment_range(raw, '/') {
            return String::from_str(raw.substring_char(p.0, p.1));
        }
    }
    let n = raw.unicode_len();
    if n == 2 && raw.get_char(1) == ':' {
        let head = raw.substring_char(0, 1);
        let label = String::from_str(head).concat("-drive");
        proof {
            reveal_strlit("-drive");
            assert(head@ =~= seq![raw@[0]]);
            assert("-drive"@ =~= seq!['-', 'd', 'r', 'i', 'v', 'e']);
            assert(label@ =~= drive_label(raw@));
        }
        return label;
    }
    if contains_char(raw, '\\') {
        if let Some(p) = last_segment_range(raw, '\\') {
            return String::from_str(raw.substring_char(p.0, p.1));
        }
    }
    String::from_str(raw)
}

/// Normalizes a listing path: empty and `"/"` both mean the root; anything
/// else is passed through unchanged.
pub fn normalize_path(path: &str) -> (r: String)
    ensures
        r@ == spec_normalized(path@),
{
    let n = path.unicode_len();
    if n == 0 || (n == 1 && path.get_char(0) == '/') {
        let root = String::from_str("/");
        proof {
            reveal_strlit("/");
            assert(root@ =~= seq!['/']);
        }
        root
    } else {
        String::from_str(path)
    }
}

} // verus!
