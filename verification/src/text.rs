//! Text operations on strings, stated over their characters: searching,
//! replacing, splitting, joining and trimming, and the character classes
//! that the translation of JavaScript names needs.

use vstd::prelude::*;
use crate::strings::{owned, joined};

verus! {

// ===================== searching =====================

/// Whether `p` occurs in `s` starting at position `i`.
pub open spec fn occurs_at(s: Seq<char>, p: Seq<char>, i: int) -> bool {
    0 <= i && i + p.len() <= s.len() && s.subrange(i, i + p.len()) == p
}

/// The first position from `i` on at which `p` occurs in `s`.
pub open spec fn find_from(s: Seq<char>, p: Seq<char>, i: int) -> Option<int>
    decreases s.len() + 1 - i,
{
    if i < 0 || i + p.len() > s.len() {
        None
    } else if occurs_at(s, p, i) {
        Some(i)
    } else {
        find_from(s, p, i + 1)
    }
}

/// The first position at which `p` occurs in `s`.
pub open spec fn find_first(s: Seq<char>, p: Seq<char>) -> Option<int> {
    find_from(s, p, 0)
}

/// Whether `p` occurs somewhere in `s`.
pub open spec fn contains_seq(s: Seq<char>, p: Seq<char>) -> bool {
    find_first(s, p) is Some
}

/// What a search from `i` finds: the first occurrence at or after `i`.
pub proof fn lemma_find_from(s: Seq<char>, p: Seq<char>, i: int)
    requires
        0 <= i,
    ensures
        match find_from(s, p, i) {
            Some(j) => i <= j && occurs_at(s, p, j) && forall|k: int| i <= k < j ==> !occurs_at(s, p, k),
            None => forall|k: int| i <= k ==> !occurs_at(s, p, k),
        },
    decreases s.len() + 1 - i,
{
    if i + p.len() > s.len() {
    } else if occurs_at(s, p, i) {
    } else {
        lemma_find_from(s, p, i + 1);
    }
}

/// Whether `p` occurs in `s` at position `i`, computed.
fn occurs_at_exec(s: &str, p: &str, i: usize) -> (r: bool)
    ensures
        r == occurs_at(s@, p@, i as int),
{
    let n = s.unicode_len();
    let m = p.unicode_len();
    if i > n || m > n - i {
        return false;
    }
    let mut j: usize = 0;
    while j < m
        invariant
            n == s@.len(),
            m == p@.len(),
            i + m <= n,
            j <= m,
            forall|k: int| 0 <= k < j ==> s@[i + k] == p@[k],
        decreases m - j,
    {
        if s.get_char(i + j) != p.get_char(j) {
            assert(s@.subrange(i as int, i + m)[j as int] == s@[i + j]);
            return false;
        }
        j = j + 1;
    }
    assert(s@.subrange(i as int, i + m) =~= p@);
    true
}

/// The first position at which `p` occurs in `s`, in characters.
pub fn find_str(s: &str, p: &str) -> (r: Option<usize>)
    ensures
        match r {
            Some(i) => find_first(s@, p@) == Some(i as int),
            None => find_first(s@, p@) is None,
        },
{
    let n = s.unicode_len();
    let m = p.unicode_len();
    if m > n {
        return None;
    }
    let mut i: usize = 0;
    loop
        invariant
            n == s@.len(),
            m == p@.len(),
            m <= n,
            i <= n - m,
            find_first(s@, p@) == find_from(s@, p@, i as int),
        decreases n - m - i,
    {
        if occurs_at_exec(s, p, i) {
            return Some(i);
        }
        if i == n - m {
            assert(find_from(s@, p@, i + 1) is None);
            return None;
        }
        i = i + 1;
    }
}

/// Whether `p` occurs in `s`.
pub fn contains_str(s: &str, p: &str) -> (r: bool)
    ensures
        r == contains_seq(s@, p@),
{
    find_str(s, p).is_some()
}

/// Whether `s` ends with `p`.
pub fn ends_with(s: &str, p: &str) -> (r: bool)
    ensures
        r == p@.is_suffix_of(s@),
{
    let n = s.unicode_len();
    let m = p.unicode_len();
    if m > n {
        return false;
    }
    let r = occurs_at_exec(s, p, n - m);
    assert(r == (s@.subrange(n - m, n as int) == p@));
    r
}

/// The last position at which `p` occurs in `s`.
pub open spec fn find_last_from(s: Seq<char>, p: Seq<char>, i: int) -> Option<int>
    decreases i + 1,
{
    if i < 0 {
        None
    } else if occurs_at(s, p, i) {
        Some(i)
    } else {
        find_last_from(s, p, i - 1)
    }
}

/// The last position at which `p` occurs in `s`.
pub open spec fn find_last(s: Seq<char>, p: Seq<char>) -> Option<int> {
    find_last_from(s, p, s.len() - p.len())
}

/// The last position at which `p` occurs in `s`, in characters.
pub fn rfind_str(s: &str, p: &str) -> (r: Option<usize>)
    ensures
        match r {
            Some(i) => find_last(s@, p@) == Some(i as int),
            None => find_last(s@, p@) is None,
        },
{
    let n = s.unicode_len();
    let m = p.unicode_len();
    if m > n {
        return None;
    }
    let mut k: usize = n - m;
    loop
        invariant
            n == s@.len(),
            m == p@.len(),
            m <= n,
            k <= n - m,
            find_last(s@, p@) == find_last_from(s@, p@, k as int),
        decreases k,
    {
        if occurs_at_exec(s, p, k) {
            return Some(k);
        }
        if k == 0 {
            assert(find_last_from(s@, p@, -1) is None);
            return None;
        }
        k = k - 1;
    }
}

/// What a backward search from `i` finds: an occurrence at or before `i`.
pub proof fn lemma_find_last_from(s: Seq<char>, p: Seq<char>, i: int)
    ensures
        match find_last_from(s, p, i) {
            Some(j) => j <= i && occurs_at(s, p, j),
            None => true,
        },
    decreases i + 1,
{
    if i >= 0 && !occurs_at(s, p, i) {
        lemma_find_last_from(s, p, i - 1);
    }
}

// ===================== replacing =====================

/// `s` with every occurrence of `f` replaced by `t`, scanning from the left
/// and not overlapping; an empty `f` changes nothing here.
pub open spec fn replaced(s: Seq<char>, f: Seq<char>, t: Seq<char>) -> Seq<char>
    decreases s.len(),
{
    if f.len() == 0 || s.len() < f.len() {
        s
    } else if s.subrange(0, f.len() as int) == f {
        t + replaced(s.subrange(f.len() as int, s.len() as int), f, t)
    } else {
        seq![s[0]] + replaced(s.subrange(1, s.len() as int), f, t)
    }
}

/// `s` with every occurrence of the non-empty `f` replaced by `t`.
pub fn replace_str(s: &str, f: &str, t: &str) -> (r: String)
    requires
        f@.len() > 0,
    ensures
        r@ == replaced(s@, f@, t@),
{
    let n = s.unicode_len();
    let m = f.unicode_len();
    let mut out = String::new();
    let mut i: usize = 0;
    assert(s@.subrange(0, n as int) =~= s@);
    assert(out@ + replaced(s@, f@, t@) =~= replaced(s@, f@, t@));
    while i < n
        invariant
            n == s@.len(),
            m == f@.len(),
            m > 0,
            i <= n,
            out@ + replaced(s@.subrange(i as int, n as int), f@, t@) == replaced(s@, f@, t@),
        decreases n - i,
    {
        let ghost rest = s@.subrange(i as int, n as int);
        if m <= n - i && occurs_at_exec(s, f, i) {
            proof {
                assert(rest.subrange(0, m as int) =~= s@.subrange(i as int, i + m));
                assert(rest.subrange(m as int, rest.len() as int) =~= s@.subrange(i + m, n as int));
            }
            let ghost before = out@;
            out = joined(out.as_str(), t);
            assert(out@ + replaced(s@.subrange(i + m, n as int), f@, t@) =~= before + replaced(rest, f@, t@));
            i = i + m;
        } else {
            proof {
                if m <= n - i {
                    assert(rest.subrange(0, m as int) =~= s@.subrange(i as int, i + m));
                }
                assert(rest.subrange(1, rest.len() as int) =~= s@.subrange(i + 1, n as int));
            }
            let ghost before = out@;
            let c = s.substring_char(i, i + 1);
            assert(c@ =~= seq![rest[0]]);
            out = joined(out.as_str(), c);
            if m <= n - i {
                assert(out@ + replaced(s@.subrange(i + 1, n as int), f@, t@) =~= before + replaced(rest, f@, t@));
            } else {
                assert(replaced(rest, f@, t@) == rest);
                assert(s@.subrange(i + 1, n as int).len() < m);
                assert(replaced(s@.subrange(i + 1, n as int), f@, t@) == s@.subrange(i + 1, n as int));
                assert(out@ + replaced(s@.subrange(i + 1, n as int), f@, t@) =~= before + replaced(rest, f@, t@));
            }
            i = i + 1;
        }
    }
    assert(s@.subrange(n as int, n as int) =~= Seq::<char>::empty());
    assert(out@ + Seq::<char>::empty() =~= out@);
    out
}

/// `t` before each character of `s` and after the last: what replacing the
/// empty text gives.
pub open spec fn interleaved(s: Seq<char>, t: Seq<char>) -> Seq<char>
    decreases s.len(),
{
    if s.len() == 0 {
        t
    } else {
        interleaved(s.drop_last(), t) + seq![s.last()] + t
    }
}

/// `s` with every occurrence of `f` replaced by `t` (`str::replace`): for an
/// empty `f`, `t` goes before each character and after the last.
pub open spec fn replaced_text(s: Seq<char>, f: Seq<char>, t: Seq<char>) -> Seq<char> {
    if f.len() == 0 {
        interleaved(s, t)
    } else {
        replaced(s, f, t)
    }
}

/// `s` with every occurrence of `f` replaced by `t` (`str::replace`).
pub fn replace_text(s: &str, f: &str, t: &str) -> (r: String)
    ensures
        r@ == replaced_text(s@, f@, t@),
{
    if f.unicode_len() > 0 {
        return replace_str(s, f, t);
    }
    let n = s.unicode_len();
    let mut out = owned(t);
    let mut i: usize = 0;
    while i < n
        invariant
            n == s@.len(),
            i <= n,
            out@ == interleaved(s@.subrange(0, i as int), t@),
        decreases n - i,
    {
        proof {
            assert(s@.subrange(0, i + 1).drop_last() =~= s@.subrange(0, i as int));
        }
        let c = s.substring_char(i, i + 1);
        assert(c@ =~= seq![s@.subrange(0, i + 1).last()]);
        let with_c = joined(out.as_str(), c);
        out = joined(with_c.as_str(), t);
        i = i + 1;
    }
    assert(s@.subrange(0, n as int) =~= s@);
    out
}

/// The number of non-overlapping occurrences of `f` in `s`, from the left.
pub open spec fn count_occurrences(s: Seq<char>, f: Seq<char>) -> nat
    decreases s.len(),
{
    if f.len() == 0 || s.len() < f.len() {
        0
    } else if s.subrange(0, f.len() as int) == f {
        1 + count_occurrences(s.subrange(f.len() as int, s.len() as int), f)
    } else {
        count_occurrences(s.subrange(1, s.len() as int), f)
    }
}

/// The number of non-overlapping occurrences of the non-empty `f` in `s`.
pub fn count_str(s: &str, f: &str) -> (r: usize)
    requires
        f@.len() > 0,
    ensures
        r == count_occurrences(s@, f@),
{
    let n = s.unicode_len();
    let m = f.unicode_len();
    let mut count: usize = 0;
    let mut i: usize = 0;
    assert(s@.subrange(0, n as int) =~= s@);
    while i < n
        invariant
            n == s@.len(),
            m == f@.len(),
            m > 0,
            i <= n,
            count <= i,
            count + count_occurrences(s@.subrange(i as int, n as int), f@) == count_occurrences(s@, f@),
        decreases n - i,
    {
        let ghost rest = s@.subrange(i as int, n as int);
        if m <= n - i && occurs_at_exec(s, f, i) {
            proof {
                assert(rest.subrange(0, m as int) =~= s@.subrange(i as int, i + m));
                assert(rest.subrange(m as int, rest.len() as int) =~= s@.subrange(i + m, n as int));
            }
            count = count + 1;
            i = i + m;
        } else {
            proof {
                if m <= n - i {
                    assert(rest.subrange(0, m as int) =~= s@.subrange(i as int, i + m));
                } else {
                    assert(s@.subrange(i + 1, n as int).len() < m);
                }
                assert(rest.subrange(1, rest.len() as int) =~= s@.subrange(i + 1, n as int));
            }
            i = i + 1;
        }
    }
    assert(s@.subrange(n as int, n as int) =~= Seq::<char>::empty());
    count
}

/// `s` with every trailing copy of `p` removed; an empty `p` removes nothing.
pub open spec fn strip_suffixes(s: Seq<char>, p: Seq<char>) -> Seq<char>
    decreases s.len(),
{
    if p.len() > 0 && p.is_suffix_of(s) {
        strip_suffixes(s.subrange(0, s.len() - p.len()), p)
    } else {
        s
    }
}

/// `s` with every trailing copy of `p` removed (`str::trim_end_matches`).
pub fn trim_end_str<'a>(s: &'a str, p: &str) -> (r: &'a str)
    ensures
        r@ == strip_suffixes(s@, p@),
{
    let m = p.unicode_len();
    let mut rest: &'a str = s;
    while m > 0 && ends_with(rest, p)
        invariant
            m == p@.len(),
            strip_suffixes(rest@, p@) == strip_suffixes(s@, p@),
        decreases rest@.len(),
    {
        let k = rest.unicode_len();
        rest = rest.substring_char(0, k - m);
    }
    rest
}

// ===================== splitting and joining =====================

/// The pieces of `s` between the occurrences of the non-empty `sep`, from the
/// left; with no occurrence, `s` itself.
pub open spec fn split_seq(s: Seq<char>, sep: Seq<char>) -> Seq<Seq<char>>
    decreases s.len(),
{
    match find_first(s, sep) {
        Some(i) => if sep.len() > 0 && 0 <= i && i + sep.len() <= s.len() {
            seq![s.subrange(0, i)] + split_seq(s.subrange(i + sep.len(), s.len() as int), sep)
        } else {
            seq![s]
        },
        None => seq![s],
    }
}

/// The pieces of `s` between the occurrences of the non-empty `sep`.
pub fn split_str(s: &str, sep: &str) -> (r: Vec<String>)
    requires
        sep@.len() > 0,
    ensures
        r@.map_values(|x: String| x@) == split_seq(s@, sep@),
{
    let m = sep.unicode_len();
    let mut out: Vec<String> = Vec::new();
    let mut rest: &str = s;
    loop
        invariant
            m == sep@.len(),
            m > 0,
            out@.map_values(|x: String| x@) + split_seq(rest@, sep@) == split_seq(s@, sep@),
        decreases rest@.len(),
    {
        let ghost before = out@;
        match find_str(rest, sep) {
            Some(i) => {
                proof {
                    lemma_find_from(rest@, sep@, 0);
                }
                let n = rest.unicode_len();
                let piece = rest.substring_char(0, i);
                let tail = rest.substring_char(i + m, n);
                out.push(owned(piece));
                proof {
                    assert(out@.map_values(|x: String| x@) =~= before.map_values(|x: String| x@).push(piece@));
                    assert(split_seq(rest@, sep@) == seq![piece@] + split_seq(tail@, sep@));
                    assert(out@.map_values(|x: String| x@) + split_seq(tail@, sep@) =~= before.map_values(
                        |x: String| x@,
                    ) + split_seq(rest@, sep@));
                }
                rest = tail;
            },
            None => {
                out.push(owned(rest));
                proof {
                    assert(out@.map_values(|x: String| x@) =~= before.map_values(|x: String| x@).push(rest@));
                }
                return out;
            },
        }
    }
}

/// The pieces joined, with `sep` between each two.
pub open spec fn join_seq(parts: Seq<Seq<char>>, sep: Seq<char>) -> Seq<char>
    decreases parts.len(),
{
    if parts.len() == 0 {
        Seq::empty()
    } else if parts.len() == 1 {
        parts[0]
    } else {
        join_seq(parts.drop_last(), sep) + sep + parts.last()
    }
}

/// The strings joined, with `sep` between each two.
pub fn join_strs(parts: &Vec<String>, sep: &str) -> (r: String)
    ensures
        r@ == join_seq(parts@.map_values(|x: String| x@), sep@),
{
    let ghost views = parts@.map_values(|x: String| x@);
    let mut out = String::new();
    let mut i: usize = 0;
    while i < parts.len()
        invariant
            i <= parts@.len(),
            views == parts@.map_values(|x: String| x@),
            out@ == join_seq(views.subrange(0, i as int), sep@),
        decreases parts@.len() - i,
    {
        proof {
            assert(views.subrange(0, i + 1).drop_last() =~= views.subrange(0, i as int));
        }
        if i == 0 {
            out = owned(parts[i].as_str());
        } else {
            let with_sep = joined(out.as_str(), sep);
            out = joined(with_sep.as_str(), parts[i].as_str());
        }
        i = i + 1;
    }
    assert(views.subrange(0, i as int) =~= views);
    out
}

/// Joining a piece in front of at least one more piece puts the separator
/// between it and the join of the rest.
pub proof fn lemma_join_cons(a: Seq<char>, xs: Seq<Seq<char>>, sep: Seq<char>)
    requires
        xs.len() >= 1,
    ensures
        join_seq(seq![a] + xs, sep) == a + sep + join_seq(xs, sep),
    decreases xs.len(),
{
    let all = seq![a] + xs;
    assert(all.drop_last() =~= seq![a] + xs.drop_last());
    assert(all.last() == xs.last());
    if xs.len() == 1 {
        assert(seq![a] + xs.drop_last() =~= seq![a]);
        assert(xs.drop_last().len() == 0);
        assert(join_seq(xs, sep) == xs[0]);
        assert(join_seq(all, sep) =~= a + sep + join_seq(xs, sep));
    } else {
        lemma_join_cons(a, xs.drop_last(), sep);
        assert(all.len() > 1);
        assert(join_seq(all, sep) == join_seq(all.drop_last(), sep) + sep + all.last());
        assert(join_seq(all.drop_last(), sep) == a + sep + join_seq(xs.drop_last(), sep));
        assert(join_seq(xs, sep) == join_seq(xs.drop_last(), sep) + sep + xs.last());
        assert(join_seq(all, sep) =~= a + sep + join_seq(xs, sep));
    }
}

/// A split gives at least one piece, and no piece is longer than the text.
pub proof fn lemma_split_pieces(s: Seq<char>, sep: Seq<char>)
    ensures
        split_seq(s, sep).len() >= 1,
        forall|k: int| 0 <= k < split_seq(s, sep).len() ==> #[trigger] split_seq(s, sep)[k].len() <= s.len(),
    decreases s.len(),
{
    match find_first(s, sep) {
        Some(i) => if sep.len() > 0 && 0 <= i && i + sep.len() <= s.len() {
            let rest = s.subrange(i + sep.len(), s.len() as int);
            lemma_split_pieces(rest, sep);
            let pieces = split_seq(s, sep);
            assert(pieces == seq![s.subrange(0, i)] + split_seq(rest, sep));
            assert forall|k: int| 0 <= k < pieces.len() implies #[trigger] pieces[k].len() <= s.len() by {
                if k > 0 {
                    assert(pieces[k] == split_seq(rest, sep)[k - 1]);
                }
            }
        } else {
        },
        None => {},
    }
}

/// The first `i` pieces of a split, joined again with the separator, are a
/// prefix of the text.
pub proof fn lemma_split_join_prefix(s: Seq<char>, sep: Seq<char>, i: int)
    requires
        sep.len() > 0,
        1 <= i <= split_seq(s, sep).len(),
    ensures
        join_seq(split_seq(s, sep).take(i), sep).is_prefix_of(s),
    decreases s.len(),
{
    lemma_find_from(s, sep, 0);
    match find_first(s, sep) {
        Some(k) => if 0 <= k && k + sep.len() <= s.len() {
            let rest = s.subrange(k + sep.len(), s.len() as int);
            let pieces = split_seq(s, sep);
            assert(pieces == seq![s.subrange(0, k)] + split_seq(rest, sep));
            if i == 1 {
                assert(pieces.take(1) =~= seq![s.subrange(0, k)]);
            } else {
                lemma_split_join_prefix(rest, sep, i - 1);
                assert(pieces.take(i) =~= seq![s.subrange(0, k)] + split_seq(rest, sep).take(i - 1));
                lemma_join_cons(s.subrange(0, k), split_seq(rest, sep).take(i - 1), sep);
                let j = join_seq(split_seq(rest, sep).take(i - 1), sep);
                assert(s =~= s.subrange(0, k) + sep + rest);
                assert(s.subrange(0, k) + sep + j =~= (s.subrange(0, k) + sep) + j);
                assert((s.subrange(0, k) + sep + j).is_prefix_of(s)) by {
                    assert forall|x: int| 0 <= x < (s.subrange(0, k) + sep + j).len() implies (s.subrange(0, k)
                        + sep + j)[x] == s[x] by {
                        if x >= k + sep.len() {
                            assert(j[x - k - sep.len()] == rest[x - k - sep.len()]);
                        }
                    }
                }
            }
        } else {
            assert(split_seq(s, sep).take(1) =~= seq![s]);
        },
        None => {
            assert(split_seq(s, sep).take(1) =~= seq![s]);
        },
    }
}

// ===================== characters =====================

/// Whether a character has the Unicode `Uppercase` property.
pub uninterp spec fn char_is_uppercase(c: char) -> bool;

/// The first character of a character's lowercase mapping.
pub uninterp spec fn char_lowercase(c: char) -> char;

/// Whether a character is alphabetic or numeric in Unicode's sense.
pub uninterp spec fn char_is_alphanumeric(c: char) -> bool;

/// Whether a character has the Unicode `White_Space` property.
pub uninterp spec fn char_is_whitespace(c: char) -> bool;

/// Whether a character is an ASCII capital letter.
pub open spec fn ascii_upper(c: char) -> bool {
    'A' <= c && c <= 'Z'
}

/// Whether a character is an ASCII small letter.
pub open spec fn ascii_lower(c: char) -> bool {
    'a' <= c && c <= 'z'
}

/// Whether a character is an ASCII digit.
pub open spec fn ascii_digit(c: char) -> bool {
    '0' <= c && c <= '9'
}

/// `char::is_uppercase`: whether the character has the Unicode `Uppercase`
/// property. Among ASCII characters exactly the capital letters have it.
#[verifier::external_body]
pub(crate) fn is_uppercase(c: char) -> (r: bool)
    ensures
        r == char_is_uppercase(c),
        (c as u32) < 128 ==> (r <==> ascii_upper(c)),
{
    c.is_uppercase()
}

/// `char::to_lowercase`, first character of the mapping. An ASCII capital
/// letter maps to its small letter; every other ASCII character to itself.
#[verifier::external_body]
pub(crate) fn lowercase_first(c: char) -> (r: char)
    ensures
        r == char_lowercase(c),
        ascii_upper(c) ==> r as u32 == c as u32 + 32,
        (c as u32) < 128 && !ascii_upper(c) ==> r == c,
{
    c.to_lowercase().next().unwrap()
}

/// `char::is_alphanumeric`. Among ASCII characters exactly the letters and
/// digits are alphanumeric.
#[verifier::external_body]
pub(crate) fn is_alphanumeric(c: char) -> (r: bool)
    ensures
        r == char_is_alphanumeric(c),
        (c as u32) < 128 ==> (r <==> (ascii_upper(c) || ascii_lower(c) || ascii_digit(c))),
{
    c.is_alphanumeric()
}

/// `char::is_whitespace`. Among ASCII characters exactly the space, tab, line
/// feed, vertical tab, form feed and carriage return are white space.
#[verifier::external_body]
pub(crate) fn is_whitespace(c: char) -> (r: bool)
    ensures
        r == char_is_whitespace(c),
        (c as u32) < 128 ==> (r <==> (c == ' ' || ('\t' <= c && c <= '\r'))),
{
    c.is_whitespace()
}

/// `char::to_string`: the one-character string.
#[verifier::external_body]
pub(crate) fn char_string(c: char) -> (r: String)
    ensures
        r@ == seq![c],
{
    c.to_string()
}

/// What `char::escape_debug` yields for a character: the character itself
/// where it is printable, else an escape.
pub uninterp spec fn char_escape_debug(c: char) -> Seq<char>;

/// `char::escape_debug`, collected into a string. Which characters count as
/// printable is left to the name.
#[verifier::external_body]
pub(crate) fn escape_debug_string(c: char) -> (r: String)
    ensures
        r@ == char_escape_debug(c),
{
    c.escape_debug().to_string()
}

/// What `char::to_uppercase` yields for a character: its uppercase mapping,
/// one or more characters.
pub uninterp spec fn char_uppercase(c: char) -> Seq<char>;

/// What `str::to_lowercase` gives: the lowercase equivalent of the text.
pub uninterp spec fn str_lowercase(s: Seq<char>) -> Seq<char>;

/// An ASCII character in upper case: a small letter becomes its capital,
/// any other character stays.
pub open spec fn ascii_upcase(c: char) -> char {
    if ascii_lower(c) { ((c as u32) - 32) as char } else { c }
}

/// An ASCII character in lower case: a capital becomes its small letter,
/// any other character stays.
pub open spec fn ascii_downcase(c: char) -> char {
    if ascii_upper(c) { ((c as u32) + 32) as char } else { c }
}

/// `char::to_uppercase`, collected into a string: the character's uppercase
/// mapping. An ASCII character maps as `to_ascii_uppercase` maps it; which
/// mapping any other character has is left to the name.
#[verifier::external_body]
pub(crate) fn uppercase_string(c: char) -> (r: String)
    ensures
        r@ == char_uppercase(c),
        (c as u32) < 128 ==> r@ == seq![ascii_upcase(c)],
{
    c.to_uppercase().collect::<String>()
}

/// `str::to_lowercase`: the lowercase equivalent of the text by Unicode's
/// `Lowercase` property. An all-ASCII text maps character by character as
/// `to_ascii_lowercase` maps it; which mapping other characters take is left
/// to the name.
#[verifier::external_body]
pub(crate) fn to_lowercase(s: &str) -> (r: String)
    ensures
        r@ == str_lowercase(s@),
        (forall|i: int| 0 <= i < s@.len() ==> (#[trigger] s@[i] as u32) < 128) ==> r@ == s@.map_values(
            |c: char| ascii_downcase(c),
        ),
{
    s.to_lowercase()
}

// ===================== trimming =====================

/// `s` without leading white space.
pub open spec fn trim_start_ws(s: Seq<char>) -> Seq<char>
    decreases s.len(),
{
    if s.len() > 0 && char_is_whitespace(s[0]) {
        trim_start_ws(s.subrange(1, s.len() as int))
    } else {
        s
    }
}

/// `s` without trailing white space.
pub open spec fn trim_end_ws(s: Seq<char>) -> Seq<char>
    decreases s.len(),
{
    if s.len() > 0 && char_is_whitespace(s.last()) {
        trim_end_ws(s.drop_last())
    } else {
        s
    }
}

/// `s` without leading or trailing white space.
pub open spec fn trim_ws(s: Seq<char>) -> Seq<char> {
    trim_end_ws(trim_start_ws(s))
}

/// `s` without leading or trailing white space (`str::trim`).
pub fn trim(s: &str) -> (r: &str)
    ensures
        r@ == trim_ws(s@),
{
    let mut rest: &str = s;
    loop
        invariant
            trim_start_ws(rest@) == trim_start_ws(s@),
        ensures
            trim_start_ws(s@) == rest@,
        decreases rest@.len(),
    {
        let n = rest.unicode_len();
        if n == 0 || !is_whitespace(rest.get_char(0)) {
            break;
        }
        rest = rest.substring_char(1, n);
    }
    loop
        invariant
            trim_end_ws(rest@) == trim_ws(s@),
        ensures
            trim_end_ws(rest@) == rest@,
        decreases rest@.len(),
    {
        let n = rest.unicode_len();
        if n == 0 || !is_whitespace(rest.get_char(n - 1)) {
            break;
        }
        let shorter = rest.substring_char(0, n - 1);
        assert(shorter@ =~= rest@.drop_last());
        rest = shorter;
    }
    rest
}

/// Trimming never makes a text longer.
pub proof fn lemma_trim_len(s: Seq<char>)
    ensures
        trim_ws(s).len() <= s.len(),
{
    lemma_trim_start_len(s);
    lemma_trim_end_len(trim_start_ws(s));
}

proof fn lemma_trim_start_len(s: Seq<char>)
    ensures
        trim_start_ws(s).len() <= s.len(),
    decreases s.len(),
{
    if s.len() > 0 && char_is_whitespace(s[0]) {
        lemma_trim_start_len(s.subrange(1, s.len() as int));
    }
}

proof fn lemma_trim_end_len(s: Seq<char>)
    ensures
        trim_end_ws(s).len() <= s.len(),
    decreases s.len(),
{
    if s.len() > 0 && char_is_whitespace(s.last()) {
        lemma_trim_end_len(s.drop_last());
    }
}

} // verus!
