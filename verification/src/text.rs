//! Character-level text predicates shared by the session detector.

use vstd::prelude::*;
use vstd::string::*;

verus! {

/// The Unicode `White_Space` property (PropList.txt), which is the notion of
/// whitespace used by `char::is_whitespace` and `str::trim`.
pub open spec fn is_white_space(c: char) -> bool {
    let u = c as u32;
    ||| 0x9 <= u <= 0xD
    ||| u == 0x20
    ||| u == 0x85
    ||| u == 0xA0
    ||| u == 0x1680
    ||| 0x2000 <= u <= 0x200A
    ||| u == 0x2028
    ||| u == 0x2029
    ||| u == 0x202F
    ||| u == 0x205F
    ||| u == 0x3000
}

/// A text is blank when trimming its whitespace leaves nothing.
pub open spec fn is_blank(s: Seq<char>) -> bool {
    forall|i: int| 0 <= i < s.len() ==> is_white_space(#[trigger] s[i])
}

/// The code of a character after ASCII lower-casing: `A`..=`Z` map to
/// `a`..=`z`, every other character is left as it is.
pub open spec fn ascii_lower_code(c: char) -> u32 {
    let u = c as u32;
    if 65 <= u <= 90 {
        (u + 32) as u32
    } else {
        u
    }
}

/// Two texts match ignoring ASCII case.
pub open spec fn eq_ignore_ascii_case(a: Seq<char>, b: Seq<char>) -> bool {
    &&& a.len() == b.len()
    &&& forall|i: int| 0 <= i < a.len() ==> ascii_lower_code(#[trigger] a[i]) == ascii_lower_code(b[i])
}

/// Whether `c` is whitespace in the Unicode sense.
pub fn is_whitespace_char(c: char) -> (r: bool)
    ensures
        r == is_white_space(c),
{
    let u = c as u32;
    (0x9 <= u && u <= 0xD) || u == 0x20 || u == 0x85 || u == 0xA0 || u == 0x1680 || (0x2000 <= u
        && u <= 0x200A) || u == 0x2028 || u == 0x2029 || u == 0x202F || u == 0x205F || u == 0x3000
}

/// Whether `s` consists of whitespace only (the empty text included).
pub fn is_blank_str(s: &str) -> (r: bool)
    ensures
        r == is_blank(s@),
{
    let n = s.unicode_len();
    let mut i: usize = 0;
    while i < n
        invariant
            n == s@.len(),
            i <= n,
            forall|k: int| 0 <= k < i ==> is_white_space(#[trigger] s@[k]),
        decreases n - i,
    {
        if !is_whitespace_char(s.get_char(i)) {
            return false;
        }
        i += 1;
    }
    true
}

/// The ASCII lower-case code of `c`.
pub fn ascii_lower(c: char) -> (r: u32)
    ensures
        r == ascii_lower_code(c),
{
    let u = c as u32;
    if 65 <= u && u <= 90 {
        u + 32
    } else {
        u
    }
}

/// Whether the characters `from..to` of `s` match `expected` ignoring ASCII case.
pub fn range_eq_ignore_ascii_case(s: &str, from: usize, to: usize, expected: &str) -> (r: bool)
    requires
        from <= to <= s@.len(),
    ensures
        r == eq_ignore_ascii_case(s@.subrange(from as int, to as int), expected@),
{
    let len = to - from;
    if len != expected.unicode_len() {
        return false;
    }
    let ghost sub = s@.subrange(from as int, to as int);
    let mut k: usize = 0;
    while k < len
        invariant
            len == to - from,
            from <= to <= s@.len(),
            len == expected@.len(),
            sub == s@.subrange(from as int, to as int),
            k <= len,
            forall|i: int| 0 <= i < k ==> ascii_lower_code(#[trigger] sub[i]) == ascii_lower_code(expected@[i]),
        decreases len - k,
    {
        if ascii_lower(s.get_char(from + k)) != ascii_lower(expected.get_char(k)) {
            assert(ascii_lower_code(sub[k as int]) != ascii_lower_code(expected@[k as int]));
            return false;
        }
        k += 1;
    }
    true
}

/// `s[i..j]` is one of the pieces that splitting `s` at every `sep` yields.
pub open spec fn is_piece(s: Seq<char>, sep: char, i: int, j: int) -> bool {
    &&& 0 <= i <= j <= s.len()
    &&& (i == 0 || s[i - 1] == sep)
    &&& (j == s.len() || s[j] == sep)
    &&& forall|k: int| i <= k < j ==> #[trigger] s[k] != sep
}

/// Some piece of `s`, split at `sep`, matches `expected` ignoring ASCII case.
pub open spec fn has_piece_ignore_ascii_case(s: Seq<char>, sep: char, expected: Seq<char>) -> bool {
    exists|i: int, j: int|
        #[trigger] is_piece(s, sep, i, j) && eq_ignore_ascii_case(s.subrange(i, j), expected)
}

/// A piece that ends before the separator at `start - 1` (or at the very
/// start) cannot reach into the separator-free stretch `start..end`.
proof fn lemma_piece_in_free_stretch(s: Seq<char>, sep: char, start: int, end: int, a: int, b: int)
    requires
        0 <= start <= end <= s.len(),
        start == 0 || s[start - 1] == sep,
        forall|k: int| start <= k < end ==> #[trigger] s[k] != sep,
        is_piece(s, sep, a, b),
        start <= b,
        b <= end,
    ensures
        a == start,
{
    if a < start {
        assert(s[start - 1] != sep);
    } else if a > start {
        assert(s[a - 1] != sep);
    }
}

/// Whether some piece of `s`, split at `sep`, matches `expected` ignoring ASCII case.
pub fn has_piece(s: &str, sep: char, expected: &str) -> (r: bool)
    ensures
        r == has_piece_ignore_ascii_case(s@, sep, expected@),
{
    let n = s.unicode_len();
    let mut start: usize = 0;
    let mut i: usize = 0;
    while i < n
        invariant
            n == s@.len(),
            start <= i <= n,
            start == 0 || s@[start - 1] == sep,
            forall|k: int| start <= k < i ==> #[trigger] s@[k] != sep,
            forall|a: int, b: int|
                #[trigger] is_piece(s@, sep, a, b) && b < start ==> !eq_ignore_ascii_case(
                    s@.subrange(a, b),
                    expected@,
                ),
        decreases n - i,
    {
        if s.get_char(i) == sep {
            assert(is_piece(s@, sep, start as int, i as int));
            if range_eq_ignore_ascii_case(s, start, i, expected) {
                return true;
            }
            assert forall|a: int, b: int|
                #[trigger] is_piece(s@, sep, a, b) && b < i + 1 implies !eq_ignore_ascii_case(
                s@.subrange(a, b),
                expected@,
            ) by {
                if b >= start {
                    lemma_piece_in_free_stretch(s@, sep, start as int, i as int, a, b);
                }
            }
            start = i + 1;
        }
        i += 1;
    }
    assert(is_piece(s@, sep, start as int, n as int));
    let last = range_eq_ignore_ascii_case(s, start, n, expected);
    assert forall|a: int, b: int| #[trigger] is_piece(s@, sep, a, b) && !last implies !eq_ignore_ascii_case(
        s@.subrange(a, b),
        expected@,
    ) by {
        if b >= start {
            lemma_piece_in_free_stretch(s@, sep, start as int, n as int, a, b);
        }
    }
    last
}

/// Whether `a` and `b` are the same text.
pub fn str_equal(a: &str, b: &str) -> (r: bool)
    ensures
        r == (a@ == b@),
{
    let n = a.unicode_len();
    if n != b.unicode_len() {
        return false;
    }
    let mut i: usize = 0;
    while i < n
        invariant
            n == a@.len(),
            n == b@.len(),
            i <= n,
            forall|k: int| 0 <= k < i ==> #[trigger] a@[k] == b@[k],
        decreases n - i,
    {
        if a.get_char(i) != b.get_char(i) {
            return false;
        }
        i += 1;
    }
    assert(a@ =~= b@);
    true
}

/// A character that ASCII lower-casing leaves alone and that is not a
/// lower-case ASCII letter either.
pub open spec fn is_caseless(c: char) -> bool {
    let u = c as u32;
    !(65 <= u <= 90) && !(97 <= u <= 122)
}

proof fn lemma_same_caseless_char(a: char, b: char)
    requires
        ascii_lower_code(a) == ascii_lower_code(b),
        is_caseless(a),
    ensures
        a == b,
{
}

/// Equality ignoring ASCII case is symmetric and transitive.
pub proof fn lemma_eq_ignore_ascii_case_trans(a: Seq<char>, b: Seq<char>, c: Seq<char>)
    requires
        eq_ignore_ascii_case(a, b),
        eq_ignore_ascii_case(b, c),
    ensures
        eq_ignore_ascii_case(a, c),
        eq_ignore_ascii_case(b, a),
{
    assert forall|i: int| 0 <= i < a.len() implies ascii_lower_code(#[trigger] a[i]) == ascii_lower_code(
        c[i],
    ) by {
        assert(ascii_lower_code(b[i]) == ascii_lower_code(c[i]));
    }
    assert forall|i: int| 0 <= i < b.len() implies ascii_lower_code(#[trigger] b[i]) == ascii_lower_code(
        a[i],
    ) by {
        assert(ascii_lower_code(a[i]) == ascii_lower_code(b[i]));
    }
}

/// Whitespace is caseless, so blankness does not depend on ASCII case.
pub proof fn lemma_blank_ignores_ascii_case(a: Seq<char>, b: Seq<char>)
    requires
        eq_ignore_ascii_case(a, b),
    ensures
        is_blank(a) == is_blank(b),
{
    if is_blank(a) {
        assert forall|i: int| 0 <= i < b.len() implies is_white_space(#[trigger] b[i]) by {
            assert(is_white_space(a[i]));
            lemma_same_caseless_char(a[i], b[i]);
        }
    }
    if is_blank(b) {
        assert forall|i: int| 0 <= i < a.len() implies is_white_space(#[trigger] a[i]) by {
            assert(is_white_space(b[i]));
            assert(ascii_lower_code(a[i]) == ascii_lower_code(b[i]));
            lemma_same_caseless_char(b[i], a[i]);
        }
    }
}

proof fn lemma_pieces_one_way(v1: Seq<char>, v2: Seq<char>, sep: char, x1: Seq<char>, x2: Seq<char>)
    requires
        eq_ignore_ascii_case(v1, v2),
        eq_ignore_ascii_case(x1, x2),
        is_caseless(sep),
        has_piece_ignore_ascii_case(v1, sep, x1),
    ensures
        has_piece_ignore_ascii_case(v2, sep, x2),
{
    let (i, j) = choose|i: int, j: int|
        #[trigger] is_piece(v1, sep, i, j) && eq_ignore_ascii_case(v1.subrange(i, j), x1);
    assert forall|k: int| 0 <= k < v1.len() implies (#[trigger] v1[k] == sep) == (v2[k] == sep) by {
        assert(ascii_lower_code(v1[k]) == ascii_lower_code(v2[k]));
        if v1[k] == sep {
            lemma_same_caseless_char(sep, v2[k]);
        }
        if v2[k] == sep {
            lemma_same_caseless_char(sep, v1[k]);
        }
    }
    assert forall|k: int| i <= k < j implies #[trigger] v2[k] != sep by {
        assert(v1[k] != sep);
    }
    if i > 0 {
        assert(v1[i - 1] == sep);
    }
    if j < v1.len() {
        assert(v1[j] == sep);
    }
    assert(is_piece(v2, sep, i, j));
    let s1 = v1.subrange(i, j);
    let s2 = v2.subrange(i, j);
    assert forall|k: int| 0 <= k < s2.len() implies ascii_lower_code(#[trigger] s2[k]) == ascii_lower_code(
        s1[k],
    ) by {
        assert(s1[k] == v1[i + k]);
        assert(ascii_lower_code(v1[i + k]) == ascii_lower_code(v2[i + k]));
    }
    assert(eq_ignore_ascii_case(s2, s1));
    lemma_eq_ignore_ascii_case_trans(s2, s1, x1);
    lemma_eq_ignore_ascii_case_trans(s2, x1, x2);
}

/// Splitting at a caseless separator and matching ignoring ASCII case do
/// not depend on the ASCII case of the text or of the expected piece.
pub proof fn lemma_pieces_ignore_ascii_case(
    v1: Seq<char>,
    v2: Seq<char>,
    sep: char,
    x1: Seq<char>,
    x2: Seq<char>,
)
    requires
        eq_ignore_ascii_case(v1, v2),
        eq_ignore_ascii_case(x1, x2),
        is_caseless(sep),
    ensures
        has_piece_ignore_ascii_case(v1, sep, x1) == has_piece_ignore_ascii_case(v2, sep, x2),
{
    lemma_eq_ignore_ascii_case_trans(v1, v2, v2);
    lemma_eq_ignore_ascii_case_trans(x1, x2, x2);
    if has_piece_ignore_ascii_case(v1, sep, x1) {
        lemma_pieces_one_way(v1, v2, sep, x1, x2);
    }
    if has_piece_ignore_ascii_case(v2, sep, x2) {
        lemma_pieces_one_way(v2, v1, sep, x2, x1);
    }
}

/// A text without the separator is a single piece: it matches exactly when
/// the whole text matches.
pub proof fn lemma_single_piece(v: Seq<char>, sep: char, x: Seq<char>)
    requires
        forall|k: int| 0 <= k < v.len() ==> #[trigger] v[k] != sep,
    ensures
        has_piece_ignore_ascii_case(v, sep, x) == eq_ignore_ascii_case(v, x),
{
    assert(v.subrange(0, v.len() as int) =~= v);
    assert(is_piece(v, sep, 0, v.len() as int));
    if has_piece_ignore_ascii_case(v, sep, x) {
        let (i, j) = choose|i: int, j: int|
            #[trigger] is_piece(v, sep, i, j) && eq_ignore_ascii_case(v.subrange(i, j), x);
        if i > 0 {
            assert(v[i - 1] == sep);
        }
        if j < v.len() {
            assert(v[j] == sep);
        }
    }
}

/// Joining two texts with the separator joins their pieces: the joined text
/// has a matching piece exactly when one of the two has.
pub proof fn lemma_joined_pieces(a: Seq<char>, b: Seq<char>, sep: char, x: Seq<char>)
    ensures
        has_piece_ignore_ascii_case(a + seq![sep] + b, sep, x) == (has_piece_ignore_ascii_case(a, sep, x)
            || has_piece_ignore_ascii_case(b, sep, x)),
{
    let w = a + seq![sep] + b;
    let n = a.len() as int;
    assert(w[n] == sep);
    assert forall|k: int| 0 <= k < n implies #[trigger] w[k] == a[k] by {}
    assert forall|k: int| 0 <= k < b.len() implies #[trigger] w[n + 1 + k] == b[k] by {}
    if has_piece_ignore_ascii_case(w, sep, x) {
        let (i, j) = choose|i: int, j: int|
            #[trigger] is_piece(w, sep, i, j) && eq_ignore_ascii_case(w.subrange(i, j), x);
        if j <= n {
            if i > 0 {
                assert(w[i - 1] == sep);
            }
            if j < n {
                assert(w[j] == sep);
            }
            assert forall|k: int| i <= k < j implies #[trigger] a[k] != sep by {
                assert(w[k] != sep);
            }
            assert(is_piece(a, sep, i, j));
            assert(a.subrange(i, j) =~= w.subrange(i, j));
        } else {
            assert(i > n) by {
                if i <= n {
                    assert(w[n] != sep);
                }
            }
            let bi = i - n - 1;
            let bj = j - n - 1;
            if bi > 0 {
                assert(w[i - 1] == sep);
                assert(b[bi - 1] == w[n + 1 + (bi - 1)]);
            }
            if bj < b.len() {
                assert(w[j] == sep);
                assert(b[bj] == w[n + 1 + bj]);
            }
            assert forall|k: int| bi <= k < bj implies #[trigger] b[k] != sep by {
                assert(w[n + 1 + k] != sep);
            }
            assert(is_piece(b, sep, bi, bj));
            assert(b.subrange(bi, bj) =~= w.subrange(i, j));
        }
    }
    if has_piece_ignore_ascii_case(a, sep, x) {
        let (i, j) = choose|i: int, j: int|
            #[trigger] is_piece(a, sep, i, j) && eq_ignore_ascii_case(a.subrange(i, j), x);
        if i > 0 {
            assert(a[i - 1] == sep);
        }
        if j < n {
            assert(a[j] == sep);
        }
        assert forall|k: int| i <= k < j implies #[trigger] w[k] != sep by {
            assert(a[k] != sep);
        }
        assert(is_piece(w, sep, i, j));
        assert(a.subrange(i, j) =~= w.subrange(i, j));
    }
    if has_piece_ignore_ascii_case(b, sep, x) {
        let (i, j) = choose|i: int, j: int|
            #[trigger] is_piece(b, sep, i, j) && eq_ignore_ascii_case(b.subrange(i, j), x);
        if i > 0 {
            assert(b[i - 1] == sep);
            assert(w[n + 1 + (i - 1)] == sep);
        }
        if j < b.len() {
            assert(b[j] == sep);
            assert(w[n + 1 + j] == sep);
        }
        assert forall|k: int| n + 1 + i <= k < n + 1 + j implies #[trigger] w[k] != sep by {
            assert(w[n + 1 + (k - n - 1)] == b[k - n - 1]);
            assert(b[k - n - 1] != sep);
        }
        assert(is_piece(w, sep, n + 1 + i, n + 1 + j));
        assert(b.subrange(i, j) =~= w.subrange(n + 1 + i, n + 1 + j));
    }
}

} // verus!
