//! Character-level string helpers shared by the label and form logic:
//! Unicode whitespace trimming and ASCII case-insensitive comparison.

use vstd::prelude::*;

verus! {

/// The Unicode `White_Space` property, which `char::is_whitespace` and
/// `str::trim` use.
pub open spec fn spec_is_whitespace(c: char) -> bool {
    let u = c as u32;
    ||| 0x9 <= u <= 0xD
    ||| u == 0x20
    ||| u == 0x85
    ||| u == 0xA0
    ||| u == 0x1680
    ||| 0x2000 <= u <= 0x200A
    ||| u == 0x2028
    ||| u == 0x2029
    ||| u == 0x202F
    ||| u == 0x205F
    ||| u == 0x3000
}

pub fn is_whitespace(c: char) -> (b: bool)
    ensures
        b == spec_is_whitespace(c),
{
    let u = c as u32;
    (0x9 <= u && u <= 0xD) || u == 0x20 || u == 0x85 || u == 0xA0 || u == 0x1680 || (0x2000 <= u
        && u <= 0x200A) || u == 0x2028 || u == 0x2029 || u == 0x202F || u == 0x205F || u == 0x3000
}

/// `s` with its leading whitespace removed.
pub open spec fn trim_start(s: Seq<char>) -> Seq<char>
    decreases s.len(),
{
    if s.len() > 0 && spec_is_whitespace(s[0]) {
        trim_start(s.drop_first())
    } else {
        s
    }
}

/// `s` with its trailing whitespace removed.
pub open spec fn trim_end(s: Seq<char>) -> Seq<char>
    decreases s.len(),
{
    if s.len() > 0 && spec_is_whitespace(s.last()) {
        trim_end(s.drop_last())
    } else {
        s
    }
}

/// What `str::trim` leaves of `s`.
pub open spec fn trim(s: Seq<char>) -> Seq<char> {
    trim_end(trim_start(s))
}

/// Every character of `s` is whitespace (so `trim(s)` is empty).
pub open spec fn all_whitespace(s: Seq<char>) -> bool {
    forall|i: int| 0 <= i < s.len() ==> spec_is_whitespace(#[trigger] s[i])
}

proof fn lemma_trim_end_all_whitespace(s: Seq<char>)
    ensures
        (trim_end(s).len() == 0) == all_whitespace(s),
    decreases s.len(),
{
    if s.len() > 0 && spec_is_whitespace(s.last()) {
        lemma_trim_end_all_whitespace(s.drop_last());
        if all_whitespace(s.drop_last()) {
            assert forall|i: int| 0 <= i < s.len() implies spec_is_whitespace(#[trigger] s[i]) by {
                if i < s.len() - 1 {
                    assert(s.drop_last()[i] == s[i]);
                }
            }
        } else {
            let k = choose|k: int|
                0 <= k < s.drop_last().len() && !spec_is_whitespace(#[trigger] s.drop_last()[k]);
            assert(s[k] == s.drop_last()[k]);
        }
    } else if s.len() > 0 {
        assert(!spec_is_whitespace(s[s.len() - 1]));
    }
}

proof fn lemma_trim_start_all_whitespace(s: Seq<char>)
    ensures
        all_whitespace(s) ==> trim_start(s).len() == 0,
        !all_whitespace(s) ==> trim_start(s).len() > 0 && !spec_is_whitespace(trim_start(s)[0]),
    decreases s.len(),
{
    if s.len() > 0 && spec_is_whitespace(s[0]) {
        lemma_trim_start_all_whitespace(s.drop_first());
        if all_whitespace(s) {
            assert forall|i: int| 0 <= i < s.drop_first().len() implies spec_is_whitespace(
                #[trigger] s.drop_first()[i],
            ) by {
                assert(s.drop_first()[i] == s[i + 1]);
            }
        } else {
            let k = choose|k: int| 0 <= k < s.len() && !spec_is_whitespace(#[trigger] s[k]);
            assert(s.drop_first()[k - 1] == s[k]);
        }
    }
}

/// A string is blank (`trim()` is empty) exactly when all its characters
/// are whitespace.
pub proof fn lemma_trim_empty_iff_all_whitespace(s: Seq<char>)
    ensures
        (trim(s).len() == 0) == all_whitespace(s),
{
    lemma_trim_start_all_whitespace(s);
    lemma_trim_end_all_whitespace(trim_start(s));
    if !all_whitespace(s) {
        let t = trim_start(s);
        assert(!spec_is_whitespace(t[0]));
        assert(!all_whitespace(t));
    } else {
        assert(trim_start(s).len() == 0);
        assert(all_whitespace(trim_start(s)));
    }
}

/// `str::trim`: the slice of `s` without leading and trailing whitespace.
pub fn trim_str<'a>(s: &'a str) -> (r: &'a str)
    ensures
        r@ == trim(s@),
{
    let n = s.unicode_len();
    let mut i: usize = 0;
    assert(s@.subrange(0, n as int) =~= s@);
    while i < n && is_whitespace(s.get_char(i))
        invariant
            n == s@.len(),
            i <= n,
            trim_start(s@) == trim_start(s@.subrange(i as int, n as int)),
        decreases n - i,
    {
        let ghost sub = s@.subrange(i as int, n as int);
        assert(sub.drop_first() =~= s@.subrange(i + 1, n as int));
        i = i + 1;
    }
    assert(trim_start(s@.subrange(i as int, n as int)) == s@.subrange(i as int, n as int));
    let mut j: usize = n;
    while j > i && is_whitespace(s.get_char(j - 1))
        invariant
            n == s@.len(),
            i <= j <= n,
            trim(s@) == trim_end(s@.subrange(i as int, j as int)),
        decreases j,
    {
        let ghost sub = s@.subrange(i as int, j as int);
        assert(sub.drop_last() =~= s@.subrange(i as int, j - 1));
        j = j - 1;
    }
    assert(trim_end(s@.subrange(i as int, j as int)) == s@.subrange(i as int, j as int));
    s.substring_char(i, j)
}

/// `s` holds only whitespace: `s.trim().is_empty()`.
pub fn is_blank(s: &str) -> (b: bool)
    ensures
        b == (trim(s@).len() == 0),
        b == all_whitespace(s@),
{
    proof {
        lemma_trim_empty_iff_all_whitespace(s@);
    }
    let t = trim_str(s);
    t.unicode_len() == 0
}

/// The code of `c` after `char::to_ascii_lowercase`.
pub open spec fn ascii_lower_code(c: char) -> u32 {
    if 'A' <= c && c <= 'Z' {
        (c as u32 + 32) as u32
    } else {
        c as u32
    }
}

/// `to_ascii_lowercase(s) == p`, for a pattern `p` without ASCII capitals.
pub open spec fn ascii_lower_eq(s: Seq<char>, p: Seq<char>) -> bool {
    &&& s.len() == p.len()
    &&& forall|i: int| 0 <= i < s.len() ==> ascii_lower_code(#[trigger] s[i]) == p[i] as u32
}

/// `to_ascii_lowercase(s).contains(p)`.
pub open spec fn ascii_lower_contains(s: Seq<char>, p: Seq<char>) -> bool {
    exists|k: int|
        0 <= k && k + p.len() <= s.len() && #[trigger] ascii_lower_eq(
            s.subrange(k, k + p.len()),
            p,
        )
}

fn lower_code(c: char) -> (r: u32)
    ensures
        r == ascii_lower_code(c),
{
    if 'A' <= c && c <= 'Z' {
        c as u32 + 32
    } else {
        c as u32
    }
}

/// Compares `s[from..from + p.len()]`, lowercased, with `p`.
fn lower_eq_at(s: &str, from: usize, p: &[char]) -> (b: bool)
    requires
        from + p@.len() <= s@.len(),
        s@.len() <= usize::MAX,
    ensures
        b == ascii_lower_eq(s@.subrange(from as int, from + p@.len()), p@),
{
    let ghost sub = s@.subrange(from as int, from + p@.len());
    let mut i: usize = 0;
    while i < p.len()
        invariant
            from + p@.len() <= s@.len(),
            s@.len() <= usize::MAX,
            sub == s@.subrange(from as int, from + p@.len()),
            i <= p@.len(),
            forall|k: int| 0 <= k < i ==> ascii_lower_code(#[trigger] sub[k]) == p@[k] as u32,
        decreases p@.len() - i,
    {
        if lower_code(s.get_char(from + i)) != p[i] as u32 {
            assert(sub[i as int] == s@[from + i]);
            return false;
        }
        assert(sub[i as int] == s@[from + i]);
        i = i + 1;
    }
    true
}

/// `s.to_ascii_lowercase() == p` for a lowercase pattern `p`.
pub fn eq_ascii_lowercase(s: &str, p: &[char]) -> (b: bool)
    ensures
        b == ascii_lower_eq(s@, p@),
{
    let n = s.unicode_len();
    if n != p.len() {
        return false;
    }
    let b = lower_eq_at(s, 0, p);
    assert(s@.subrange(0, p@.len() as int) =~= s@);
    b
}

/// `s.to_ascii_lowercase().contains(p)` for a lowercase pattern `p`.
pub fn contains_ascii_lowercase(s: &str, p: &[char]) -> (b: bool)
    ensures
        b == ascii_lower_contains(s@, p@),
{
    let n = s.unicode_len();
    if p.len() > n {
        return false;
    }
    let mut k: usize = 0;
    while k <= n - p.len()
        invariant
            n == s@.len(),
            p@.len() <= n,
            k <= n - p@.len() + 1,
            forall|j: int|
                0 <= j < k ==> !#[trigger] ascii_lower_eq(s@.subrange(j, j + p@.len()), p@),
        decreases n - k,
    {
        if lower_eq_at(s, k, p) {
            return true;
        }
        k = k + 1;
    }
    false
}


/// `char::to_ascii_lowercase`.
pub open spec fn ascii_lower_char(c: char) -> char {
    if 'A' <= c && c <= 'Z' {
        ((c as u32) + 32) as char
    } else {
        c
    }
}

/// `str::to_ascii_lowercase`.
pub open spec fn ascii_lowercase(s: Seq<char>) -> Seq<char> {
    Seq::new(s.len(), |i: int| ascii_lower_char(s[i]))
}

/// ASCII lower-casing keeps whether a character is whitespace, and lowers
/// codes as `ascii_lower_code` says.
pub proof fn lemma_ascii_lower_char(c: char)
    ensures
        spec_is_whitespace(ascii_lower_char(c)) == spec_is_whitespace(c),
        ascii_lower_char(c) as u32 == ascii_lower_code(c),
        ascii_lower_code(ascii_lower_char(c)) == ascii_lower_code(c),
{
}

proof fn lemma_trim_start_lowercase(s: Seq<char>)
    ensures
        trim_start(ascii_lowercase(s)) == ascii_lowercase(trim_start(s)),
    decreases s.len(),
{
    if s.len() > 0 {
        lemma_ascii_lower_char(s[0]);
        assert(ascii_lowercase(s)[0] == ascii_lower_char(s[0]));
        if spec_is_whitespace(s[0]) {
            assert(ascii_lowercase(s).drop_first() =~= ascii_lowercase(s.drop_first()));
            lemma_trim_start_lowercase(s.drop_first());
        }
    }
}

proof fn lemma_trim_end_lowercase(s: Seq<char>)
    ensures
        trim_end(ascii_lowercase(s)) == ascii_lowercase(trim_end(s)),
    decreases s.len(),
{
    if s.len() > 0 {
        lemma_ascii_lower_char(s.last());
        assert(ascii_lowercase(s).last() == ascii_lower_char(s.last()));
        if spec_is_whitespace(s.last()) {
            assert(ascii_lowercase(s).drop_last() =~= ascii_lowercase(s.drop_last()));
            lemma_trim_end_lowercase(s.drop_last());
        }
    }
}

proof fn lemma_trim_start_shape(s: Seq<char>)
    ensures
        trim_start(s).len() > 0 ==> !spec_is_whitespace(trim_start(s)[0]),
    decreases s.len(),
{
    if s.len() > 0 && spec_is_whitespace(s[0]) {
        lemma_trim_start_shape(s.drop_first());
    }
}

proof fn lemma_trim_end_shape(s: Seq<char>)
    ensures
        trim_end(s).len() <= s.len(),
        trim_end(s) == s.subrange(0, trim_end(s).len() as int),
        trim_end(s).len() > 0 ==> !spec_is_whitespace(trim_end(s).last()),
    decreases s.len(),
{
    if s.len() > 0 && spec_is_whitespace(s.last()) {
        lemma_trim_end_shape(s.drop_last());
        assert(s.drop_last().subrange(0, trim_end(s).len() as int) =~= s.subrange(
            0,
            trim_end(s).len() as int,
        ));
    } else {
        assert(s.subrange(0, s.len() as int) =~= s);
    }
}

/// Trimming twice is trimming once.
pub proof fn lemma_trim_idempotent(s: Seq<char>)
    ensures
        trim(trim(s)) == trim(s),
{
    let y = trim_start(s);
    let z = trim_end(y);
    lemma_trim_start_shape(s);
    lemma_trim_end_shape(y);
    if z.len() > 0 {
        assert(z[0] == y[0]);
    }
    assert(trim_start(z) == z);
    assert(trim_end(z) == z);
}

/// Trimming and ASCII lower-casing commute.
pub proof fn lemma_trim_lowercase(s: Seq<char>)
    ensures
        trim(ascii_lowercase(s)) == ascii_lowercase(trim(s)),
{
    lemma_trim_start_lowercase(s);
    lemma_trim_end_lowercase(trim_start(s));
}
} // verus!
