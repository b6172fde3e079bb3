//! Validity of identifiers and of display-name paths.
//!
//! A display name is a path of identifier segments, such as `foo`,
//! `foo::bar` or `foo::bar::Baz`.  A segment is a valid identifier
//! when it is non-empty, starts with an ASCII letter or underscore and
//! continues with ASCII letters, digits or underscores.

use vstd::prelude::*;
use vstd::string::StrSliceExecFns;

verus! {

/// Holds when `c` may start an identifier: an ASCII letter or an
/// underscore.
pub open spec fn ident_start(c: char) -> bool {
    (97 <= c as u32 && c as u32 <= 122) || (65 <= c as u32 && c as u32 <= 90) || c == '_'
}

/// Holds when `c` may continue an identifier: a start character or an
/// ASCII digit.
pub open spec fn ident_cont(c: char) -> bool {
    ident_start(c) || (48 <= c as u32 && c as u32 <= 57)
}

/// Holds when `s` is a valid identifier.
pub open spec fn valid_ident(s: Seq<char>) -> bool {
    &&& s.len() > 0
    &&& ident_start(s[0])
    &&& forall|i: int| 1 <= i < s.len() ==> ident_cont(#[trigger] s[i])
}

/// Holds when `segs` is a valid display-name path: at least one
/// segment, each a valid identifier.
pub open spec fn valid_display_name(segs: Seq<Seq<char>>) -> bool {
    &&& segs.len() > 0
    &&& forall|i: int| 0 <= i < segs.len() ==> valid_ident(#[trigger] segs[i])
}

/// Holds when a `::` separator begins at position `i` of `s`.
pub open spec fn sep_at(s: Seq<char>, i: int) -> bool {
    0 <= i && i + 2 <= s.len() && s[i] == ':' && s[i + 1] == ':'
}

/// The position of the leftmost `::` separator of `s`, or `-1` when
/// there is none.
pub open spec fn first_sep(s: Seq<char>) -> int
    decreases s.len(),
{
    if s.len() < 2 {
        -1
    } else if s[0] == ':' && s[1] == ':' {
        0
    } else {
        let r = first_sep(s.subrange(1, s.len() as int));
        if r < 0 {
            -1
        } else {
            1 + r
        }
    }
}

/// Characterizes `first_sep`: `-1` exactly when `s` has no separator,
/// otherwise the least position where one begins.
pub proof fn lemma_first_sep(s: Seq<char>)
    ensures
        first_sep(s) == -1 ==> forall|i: int| !sep_at(s, i),
        first_sep(s) >= 0 ==> sep_at(s, first_sep(s)),
        first_sep(s) >= 0 ==> forall|i: int| 0 <= i < first_sep(s) ==> !sep_at(s, i),
        first_sep(s) >= -1,
    decreases s.len(),
{
    if s.len() < 2 {
    } else if s[0] == ':' && s[1] == ':' {
    } else {
        let t = s.subrange(1, s.len() as int);
        lemma_first_sep(t);
        assert forall|i: int| 1 <= i && sep_at(s, i) implies sep_at(t, i - 1) by {
            assert(t[i - 1] == s[i]);
            assert(t[i] == s[i + 1]);
        }
        assert forall|i: int| 0 <= i && sep_at(t, i) implies sep_at(s, i + 1) by {
            assert(t[i] == s[i + 1]);
            assert(t[i + 1] == s[i + 2]);
        }
        assert(!sep_at(s, 0));
        if first_sep(t) == -1 {
            assert forall|i: int| !sep_at(s, i) by {
                if 1 <= i && sep_at(s, i) {
                    assert(sep_at(t, i - 1));
                }
            }
        } else {
            assert(sep_at(t, first_sep(t)));
            assert(sep_at(s, first_sep(t) + 1));
        }
    }
}

/// The segments of `s`, split on `::` separators, leftmost first.
/// A string without separators is one segment; separators at the ends
/// produce empty segments.
pub open spec fn split_dc(s: Seq<char>) -> Seq<Seq<char>>
    decreases s.len(),
{
    let i = first_sep(s);
    if i < 0 {
        seq![s]
    } else {
        proof {
            lemma_first_sep(s);
        }
        seq![s.subrange(0, i)] + split_dc(s.subrange(i + 2, s.len() as int))
    }
}

/// Splits `s` on `::` separators, leftmost first.
pub fn split_double_colon(s: &str) -> (r: Vec<String>)
    ensures
        r.deep_view() == split_dc(s@),
{
    let n = s.unicode_len();
    let mut segs: Vec<String> = Vec::new();
    let mut start: usize = 0;
    let mut i: usize = 0;
    proof {
        assert(s@.subrange(0, n as int) =~= s@);
        assert(segs.deep_view() + split_dc(s@) =~= split_dc(s@));
    }
    while i < n && i + 1 < n
        invariant
            n == s@.len(),
            start <= i <= n,
            split_dc(s@) == segs.deep_view() + split_dc(s@.subrange(start as int, n as int)),
            forall|j: int|
                0 <= j < i - start ==> !sep_at(s@.subrange(start as int, n as int), j),
        decreases n - i,
    {
        let c0 = s.get_char(i);
        let c1 = s.get_char(i + 1);
        if c0 == ':' && c1 == ':' {
            let ghost pre_deep = segs.deep_view();
            let seg = s.substring_char(start, i).to_owned();
            segs.push(seg);
            proof {
                let rest = s@.subrange(start as int, n as int);
                lemma_first_sep(rest);
                assert(rest[i - start] == s@[i as int]);
                assert(rest[i - start + 1] == s@[i + 1]);
                assert(sep_at(rest, i - start));
                if first_sep(rest) < i - start {
                    assert(!sep_at(rest, first_sep(rest)));
                }
                if first_sep(rest) > i - start {
                    assert(!sep_at(rest, i - start));
                }
                assert(first_sep(rest) == i - start);
                assert(rest.subrange(0, (i - start) as int) =~= s@.subrange(
                    start as int,
                    i as int,
                ));
                assert(rest.subrange(i - start + 2, rest.len() as int) =~= s@.subrange(
                    (i + 2) as int,
                    n as int,
                ));
                assert(segs.deep_view() =~= pre_deep.push(s@.subrange(start as int, i as int)));
                assert(split_dc(rest) == seq![s@.subrange(start as int, i as int)] + split_dc(
                    s@.subrange((i + 2) as int, n as int),
                ));
                assert(segs.deep_view() + split_dc(s@.subrange((i + 2) as int, n as int))
                    =~= pre_deep + split_dc(rest));
            }
            start = i + 2;
            i = i + 2;
        } else {
            proof {
                let rest = s@.subrange(start as int, n as int);
                assert(rest[i - start] == s@[i as int]);
                if i - start + 2 <= rest.len() {
                    assert(rest[i - start + 1] == s@[i + 1]);
                }
                assert(!sep_at(rest, i - start));
            }
            i = i + 1;
        }
    }
    let ghost pre_deep = segs.deep_view();
    let seg = s.substring_char(start, n).to_owned();
    segs.push(seg);
    proof {
        let rest = s@.subrange(start as int, n as int);
        lemma_first_sep(rest);
        assert forall|j: int| !sep_at(rest, j) by {
            if sep_at(rest, j) {
                assert(j + 2 <= rest.len());
                assert(j < i - start);
            }
        }
        if first_sep(rest) >= 0 {
            assert(sep_at(rest, first_sep(rest)));
        }
        assert(first_sep(rest) == -1);
        assert(split_dc(rest) == seq![rest]);
        assert(segs.deep_view() =~= pre_deep.push(rest));
        assert(segs.deep_view() =~= split_dc(s@));
    }
    segs
}

/// Decides whether `c` may start an identifier.
fn is_ident_start(c: char) -> (r: bool)
    ensures
        r == ident_start(c),
{
    let u = c as u32;
    (97 <= u && u <= 122) || (65 <= u && u <= 90) || c == '_'
}

/// Decides whether `c` may continue an identifier.
fn is_ident_cont(c: char) -> (r: bool)
    ensures
        r == ident_cont(c),
{
    let u = c as u32;
    is_ident_start(c) || (48 <= u && u <= 57)
}

/// Decides whether `s` is a valid identifier.
pub fn is_valid_ident(s: &str) -> (r: bool)
    ensures
        r == valid_ident(s@),
{
    let n = s.unicode_len();
    if n == 0 {
        return false;
    }
    if !is_ident_start(s.get_char(0)) {
        return false;
    }
    let mut i: usize = 1;
    while i < n
        invariant
            1 <= i <= n,
            n == s@.len(),
            forall|j: int| 1 <= j < i ==> ident_cont(#[trigger] s@[j]),
        decreases n - i,
    {
        if !is_ident_cont(s.get_char(i)) {
            return false;
        }
        i += 1;
    }
    true
}

/// Decides whether every string of `segs` is a valid identifier and
/// that there is at least one.
pub fn is_valid_display_name(segs: &Vec<String>) -> (r: bool)
    ensures
        r == valid_display_name(segs.deep_view()),
{
    proof {
        assert(segs.deep_view().len() == segs@.len());
    }
    if segs.len() == 0 {
        return false;
    }
    let mut i: usize = 0;
    while i < segs.len()
        invariant
            i <= segs@.len(),
            segs.deep_view().len() == segs@.len(),
            forall|j: int| 0 <= j < i ==> valid_ident(#[trigger] segs.deep_view()[j]),
        decreases segs@.len() - i,
    {
        proof {
            assert(segs.deep_view()[i as int] == segs@[i as int]@);
        }
        if !is_valid_ident(segs[i].as_str()) {
            return false;
        }
        i += 1;
    }
    true
}

} // verus!
