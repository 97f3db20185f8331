//! Extraction of a (title, book id) pair from a library-view URL.
//!
//! The accepted shape is a remote library-view locator: somewhere in the URL
//! a `/library/view/` segment, followed by a nonempty slug and then a slash
//! and a numeric identifier. The slug runs from the first such segment up to
//! the last slash that is directly followed by a digit; the identifier is the
//! maximal digit run after that slash.

use vstd::prelude::*;
use vstd::string::*;

verus! {

/// The path segment that marks a library-view locator.
pub open spec fn marker() -> Seq<char> {
    "/library/view/"@
}

pub open spec fn is_digit(c: char) -> bool {
    '0' <= c && c <= '9'
}

/// The marker occurs in `s` at position `i`.
pub open spec fn marker_at(s: Seq<char>, i: int) -> bool {
    0 <= i && i + marker().len() <= s.len() && s.subrange(i, i + marker().len() as int)
        == marker()
}

/// `i` is the first position where the marker occurs.
pub open spec fn first_marker(s: Seq<char>, i: int) -> bool {
    marker_at(s, i) && (forall|h: int| 0 <= h < i ==> !marker_at(s, h))
}

/// `j` separates a name that starts at `b` from a numeric identifier: a
/// slash with at least one name character before it and a digit after it.
pub open spec fn sep_at(s: Seq<char>, b: int, j: int) -> bool {
    b < j && j + 1 < s.len() && s[j] == '/' && is_digit(s[j + 1])
}

/// `j` is the last separator for a name starting at `b`.
pub open spec fn last_sep(s: Seq<char>, b: int, j: int) -> bool {
    sep_at(s, b, j) && (forall|j2: int| j < j2 ==> !sep_at(s, b, j2))
}

/// The digit run that starts at `d` ends at `e`.
pub open spec fn digit_run_end(s: Seq<char>, d: int, e: int) -> bool {
    d <= e <= s.len() && (forall|k: int| d <= k < e ==> is_digit(#[trigger] s[k])) && (e
        == s.len() || !is_digit(s[e]))
}

/// A marker occurrence together with a separator after it: the URL has the
/// library-view shape.
pub open spec fn book_match_at(s: Seq<char>, i: int, j: int) -> bool {
    marker_at(s, i) && sep_at(s, i + marker().len(), j)
}

/// The URL contains a library-view locator: a marker, a nonempty slug, a
/// slash and a digit.
pub open spec fn has_book_url_shape(s: Seq<char>) -> bool {
    exists|i: int, j: int| book_match_at(s, i, j)
}

/// The positions that extraction settles on: the first marker, the last
/// separator after it, and the end of the digit run after that.
pub open spec fn parse_indices(s: Seq<char>, i: int, j: int, e: int) -> bool {
    first_marker(s, i) && last_sep(s, i + marker().len(), j) && digit_run_end(s, j + 1, e)
}

/// `name` and `id` are what the URL `s` extracts to: the slug between the
/// first marker and the last separator, and the digit run after the
/// separator.
pub open spec fn extracts_to(s: Seq<char>, name: Seq<char>, id: Seq<char>) -> bool {
    exists|i: int, j: int, e: int|
        #[trigger] parse_indices(s, i, j, e) && name == s.subrange(i + marker().len(), j) && id
            == s.subrange(j + 1, e)
}

/// Extraction is deterministic: a URL extracts to at most one pair.
pub proof fn lemma_extract_deterministic(
    s: Seq<char>,
    name1: Seq<char>,
    id1: Seq<char>,
    name2: Seq<char>,
    id2: Seq<char>,
)
    requires
        extracts_to(s, name1, id1),
        extracts_to(s, name2, id2),
    ensures
        name1 == name2,
        id1 == id2,
{
    let (i1, j1, e1) = choose|i: int, j: int, e: int|
        #[trigger] parse_indices(s, i, j, e) && name1 == s.subrange(i + marker().len(), j) && id1
            == s.subrange(j + 1, e);
    let (i2, j2, e2) = choose|i: int, j: int, e: int|
        #[trigger] parse_indices(s, i, j, e) && name2 == s.subrange(i + marker().len(), j) && id2
            == s.subrange(j + 1, e);
    assert(i1 == i2) by {
        if i1 < i2 {
            assert(!marker_at(s, i1));
        } else if i2 < i1 {
            assert(!marker_at(s, i2));
        }
    }
    assert(j1 == j2) by {
        if j1 < j2 {
            assert(!sep_at(s, i1 + marker().len(), j2));
        } else if j2 < j1 {
            assert(!sep_at(s, i2 + marker().len(), j1));
        }
    }
    assert(e1 == e2) by {
        if e1 < e2 {
            assert(is_digit(s[e1]));
            assert(!is_digit(s[e1]));
        } else if e2 < e1 {
            assert(is_digit(s[e2]));
            assert(!is_digit(s[e2]));
        }
    }
}

/// The identifier a URL extracts to is nonempty and numeric-only.
pub proof fn lemma_extract_id_numeric(s: Seq<char>, name: Seq<char>, id: Seq<char>)
    requires
        extracts_to(s, name, id),
    ensures
        id.len() > 0,
        forall|k: int| 0 <= k < id.len() ==> is_digit(#[trigger] id[k]),
{
    let (i, j, e) = choose|i: int, j: int, e: int|
        #[trigger] parse_indices(s, i, j, e) && name == s.subrange(i + marker().len(), j) && id
            == s.subrange(j + 1, e);
    assert(is_digit(s[j + 1]));
    assert(e > j + 1) by {
        if e == j + 1 {
            assert(e < s.len());
        }
    }
    assert forall|k: int| 0 <= k < id.len() implies is_digit(#[trigger] id[k]) by {
        assert(id[k] == s[j + 1 + k]);
    }
}

/// Whether `c` is an ASCII decimal digit.
fn digit(c: char) -> (r: bool)
    ensures
        r == is_digit(c),
{
    let u = c as u32;
    48 <= u && u <= 57
}

/// Whether the marker occurs in `url` at position `i`.
fn marker_matches(url: &str, n: usize, i: usize) -> (r: bool)
    requires
        n == url@.len(),
        i + marker().len() <= n,
    ensures
        r == marker_at(url@, i as int),
{
    let m = "/library/view/";
    proof {
        reveal_strlit("/library/view/");
    }
    let mut k: usize = 0;
    while k < 14
        invariant
            0 <= k <= 14,
            n == url@.len(),
            i + 14 <= n,
            m@ == marker(),
            m@.len() == 14,
            forall|k2: int| 0 <= k2 < k ==> url@[i + k2] == marker()[k2],
        decreases 14 - k,
    {
        let c = url.get_char(i + k);
        let mc = m.get_char(k);
        if c != mc {
            proof {
                assert(url@[i + k] != marker()[k as int]);
                if marker_at(url@, i as int) {
                    assert(url@.subrange(i as int, i + marker().len() as int)[k as int]
                        == marker()[k as int]);
                }
            }
            return false;
        }
        k += 1;
    }
    proof {
        assert(url@.subrange(i as int, i + marker().len() as int) =~= marker());
    }
    true
}

/// The position of the first marker occurrence, if any.
fn find_marker(url: &str, n: usize) -> (r: Option<usize>)
    requires
        n == url@.len(),
    ensures
        match r {
            Some(i) => first_marker(url@, i as int),
            None => forall|i: int| !marker_at(url@, i),
        },
{
    proof {
        reveal_strlit("/library/view/");
        assert(marker().len() == 14);
    }
    if n < 14 {
        return None;
    }
    let mut i: usize = 0;
    while i <= n - 14
        invariant
            n == url@.len(),
            14 <= n,
            0 <= i <= n - 14 + 1,
            marker().len() == 14,
            forall|h: int| 0 <= h < i ==> !marker_at(url@, h),
        decreases n - i,
    {
        if marker_matches(url, n, i) {
            return Some(i);
        }
        i += 1;
    }
    None
}

/// The last separator after `b`, if any.
fn find_last_sep(url: &str, n: usize, b: usize) -> (r: Option<usize>)
    requires
        n == url@.len(),
        b <= n,
    ensures
        match r {
            Some(j) => last_sep(url@, b as int, j as int),
            None => forall|j: int| !sep_at(url@, b as int, j),
        },
{
    let mut best: Option<usize> = None;
    let mut k: usize = b;
    while n - k > 1
        invariant
            n == url@.len(),
            b <= k <= n,
            match best {
                Some(j) => sep_at(url@, b as int, j as int) && j < k && (forall|j2: int|
                    j < j2 < k ==> !sep_at(url@, b as int, j2)),
                None => forall|j2: int| j2 < k ==> !sep_at(url@, b as int, j2),
            },
        decreases n - k,
    {
        if k > b {
            let c = url.get_char(k);
            if c == '/' {
                let d = url.get_char(k + 1);
                if digit(d) {
                    best = Some(k);
                }
            }
        }
        k += 1;
    }
    proof {
        assert(forall|j2: int| k <= j2 ==> !sep_at(url@, b as int, j2));
    }
    best
}

/// The end of the digit run that starts at `d`.
fn find_digit_end(url: &str, n: usize, d: usize) -> (r: usize)
    requires
        n == url@.len(),
        d <= n,
    ensures
        digit_run_end(url@, d as int, r as int),
        d <= r <= n,
{
    let mut e: usize = d;
    while e < n && digit(url.get_char(e))
        invariant
            n == url@.len(),
            d <= e <= n,
            forall|k: int| d <= k < e ==> is_digit(#[trigger] url@[k]),
        decreases n - e,
    {
        e += 1;
    }
    e
}

/// Extracts the (title, book id) pair from a library-view URL, or nothing
/// when the URL does not have the shape. The result is exactly the pair of
/// [`extracts_to`], so extraction is deterministic.
pub fn parse_url(url: &str) -> (r: Option<(String, String)>)
    ensures
        match r {
            Some(p) => extracts_to(url@, p.0@, p.1@),
            None => !has_book_url_shape(url@),
        },
        r is Some <==> has_book_url_shape(url@),
{
    let n = url.unicode_len();
    let i = match find_marker(url, n) {
        Some(i) => i,
        None => {
            proof {
                assert forall|i2: int, j2: int| !book_match_at(url@, i2, j2) by {
                    assert(!marker_at(url@, i2));
                }
            }
            return None;
        },
    };
    proof {
        reveal_strlit("/library/view/");
        assert(marker().len() == 14);
    }
    let b = i + 14;
    let j = match find_last_sep(url, n, b) {
        Some(j) => j,
        None => {
            proof {
                assert forall|i2: int, j2: int| !book_match_at(url@, i2, j2) by {
                    if marker_at(url@, i2) {
                        assert(i2 >= i) by {
                            if i2 < i {
                                assert(!marker_at(url@, i2));
                            }
                        }
                        if sep_at(url@, i2 + marker().len(), j2) {
                            assert(sep_at(url@, b as int, j2));
                        }
                    }
                }
            }
            return None;
        },
    };
    let e = find_digit_end(url, n, j + 1);
    let name = url.substring_char(b, j).to_owned();
    let id = url.substring_char(j + 1, e).to_owned();
    proof {
        assert(parse_indices(url@, i as int, j as int, e as int));
        assert(book_match_at(url@, i as int, j as int));
    }
    Some((name, id))
}

} // verus!
