//! Character-level helpers: Unicode white space, trimming, and views of strings.
use vstd::prelude::*;

verus! {

/// Unicode `White_Space` property: the class that `\s` and `str::trim` use.
pub open spec fn is_ws(c: char) -> bool {
    let v = c as u32;
    ||| (0x09 <= v && v <= 0x0D)
    ||| v == 0x20
    ||| v == 0x85
    ||| v == 0xA0
    ||| v == 0x1680
    ||| (0x2000 <= v && v <= 0x200A)
    ||| v == 0x2028
    ||| v == 0x2029
    ||| v == 0x202F
    ||| v == 0x205F
    ||| v == 0x3000
}

/// Whether `c` has the Unicode `White_Space` property.
pub fn is_whitespace(c: char) -> (res: bool)
    ensures
        res == is_ws(c),
{
    let v = c as u32;
    (0x09 <= v && v <= 0x0D) || v == 0x20 || v == 0x85 || v == 0xA0 || v == 0x1680 || (0x2000
        <= v && v <= 0x200A) || v == 0x2028 || v == 0x2029 || v == 0x202F || v == 0x205F || v
        == 0x3000
}

/// The code points of Unicode's `White_Space` property, one by one.
pub open spec fn white_space_code_points() -> Set<u32> {
    set![
        0x0009u32, 0x000A, 0x000B, 0x000C, 0x000D, 0x0020, 0x0085, 0x00A0, 0x1680, 0x2000,
        0x2001, 0x2002, 0x2003, 0x2004, 0x2005, 0x2006, 0x2007, 0x2008, 0x2009, 0x200A,
        0x2028, 0x2029, 0x202F, 0x205F, 0x3000,
    ]
}

/// A character is white space exactly when its code point is one of the
/// twenty-five of Unicode's `White_Space` property. In particular no
/// printable ASCII character (letters, digits, punctuation) is white space.
pub proof fn law_white_space_characters(c: char, res: bool)
    requires
        call_ensures(is_whitespace, (c,), res),
    ensures
        res <==> white_space_code_points().contains(c as u32),
        is_ws(c) <==> white_space_code_points().contains(c as u32),
        0x21 <= c as u32 <= 0x7E ==> !res,
        '0' <= c <= '9' ==> !res,
{
    let v = c as u32;
    if white_space_code_points().contains(v) {
        assert(is_ws(c));
    }
    if is_ws(c) {
        if 0x2000 <= v && v <= 0x200A {
            assert(white_space_code_points().contains(v));
        }
        assert(white_space_code_points().contains(v));
    }
}

/// The characters of `s`, in order.
pub fn chars_of(s: &str) -> (res: Vec<char>)
    ensures
        res@ == s@,
{
    let mut out: Vec<char> = Vec::new();
    for c in it: s.chars()
        invariant
            out@ == it.seq().take(it.index() as int),
            it.seq() == s@,
    {
        out.push(c);
    }
    out
}

/// `t` without its leading white space.
pub open spec fn trim_start_ws(t: Seq<char>) -> Seq<char>
    decreases t.len(),
{
    if t.len() > 0 && is_ws(t[0]) {
        trim_start_ws(t.drop_first())
    } else {
        t
    }
}

/// `t` without its trailing white space.
pub open spec fn trim_end_ws(t: Seq<char>) -> Seq<char>
    decreases t.len(),
{
    if t.len() > 0 && is_ws(t.last()) {
        trim_end_ws(t.drop_last())
    } else {
        t
    }
}

/// `t` without leading and trailing white space, as `str::trim` gives it.
pub open spec fn trim_ws(t: Seq<char>) -> Seq<char> {
    trim_end_ws(trim_start_ws(t))
}

/// `t` begins with `prefix`.
pub open spec fn starts_with(t: Seq<char>, prefix: Seq<char>) -> bool {
    prefix.len() <= t.len() && t.subrange(0, prefix.len() as int) == prefix
}

/// `pattern` occurs somewhere in `t`.
pub open spec fn contains(t: Seq<char>, pattern: Seq<char>) -> bool {
    exists|i: int| 0 <= i && i + pattern.len() <= t.len() && #[trigger] t.subrange(i, i + pattern.len()) == pattern
}

proof fn lemma_trim_start(t: Seq<char>, i: int)
    requires
        0 <= i <= t.len(),
        forall|k: int| 0 <= k < i ==> is_ws(#[trigger] t[k]),
        i == t.len() || !is_ws(t[i]),
    ensures
        trim_start_ws(t) == t.subrange(i, t.len() as int),
    decreases i,
{
    if i > 0 {
        assert(t.drop_first().len() == t.len() - 1);
        assert forall|k: int| 0 <= k < i - 1 implies is_ws(#[trigger] t.drop_first()[k]) by {
            assert(is_ws(t[k + 1]));
        }
        lemma_trim_start(t.drop_first(), i - 1);
        assert(t.drop_first().subrange(i - 1, t.len() - 1) =~= t.subrange(i, t.len() as int));
    } else {
        assert(t.subrange(0, t.len() as int) =~= t);
    }
}

proof fn lemma_trim_end(t: Seq<char>, j: int)
    requires
        0 <= j <= t.len(),
        forall|k: int| j <= k < t.len() ==> is_ws(#[trigger] t[k]),
        j == 0 || !is_ws(t[j - 1]),
    ensures
        trim_end_ws(t) == t.subrange(0, j),
    decreases t.len() - j,
{
    if j < t.len() {
        assert(is_ws(t.last()));
        assert forall|k: int| j <= k < t.len() - 1 implies is_ws(#[trigger] t.drop_last()[k]) by {
            assert(is_ws(t[k]));
        }
        lemma_trim_end(t.drop_last(), j);
        assert(t.drop_last().subrange(0, j) =~= t.subrange(0, j));
    } else {
        assert(t.subrange(0, j) =~= t);
    }
}

/// A text that neither begins nor ends with white space is its own trim.
pub proof fn lemma_trim_unchanged(t: Seq<char>)
    requires
        t.len() == 0 || (!is_ws(t[0]) && !is_ws(t.last())),
    ensures
        trim_ws(t) == t,
{
    lemma_trim_start(t, 0);
    assert(t.subrange(0, t.len() as int) =~= t);
    lemma_trim_end(t, t.len() as int);
}

/// `s` without leading and trailing white space.
pub fn trim(s: &str) -> (res: String)
    ensures
        res@ == trim_ws(s@),
{
    let cs = chars_of(s);
    let n = cs.len();
    let mut i: usize = 0;
    while i < n && is_whitespace(cs[i])
        invariant
            i <= n,
            n == cs@.len(),
            forall|k: int| 0 <= k < i ==> is_ws(#[trigger] cs@[k]),
        decreases n - i,
    {
        i = i + 1;
    }
    let mut j: usize = n;
    while j > i && is_whitespace(cs[j - 1])
        invariant
            i <= j <= n,
            n == cs@.len(),
            forall|k: int| j <= k < n ==> is_ws(#[trigger] cs@[k]),
        decreases j,
    {
        j = j - 1;
    }
    proof {
        let t = s@;
        lemma_trim_start(t, i as int);
        let u = t.subrange(i as int, n as int);
        assert forall|k: int| j - i <= k < u.len() implies is_ws(#[trigger] u[k]) by {
            assert(is_ws(t[k + i]));
        }
        if j > i {
            assert(u[j - i - 1] == t[j - 1]);
        }
        lemma_trim_end(u, j - i);
        assert(u.subrange(0, j - i) =~= t.subrange(i as int, j as int));
    }
    s.substring_char(i, j).to_owned()
}

/// Whether the two texts are equal.
pub fn str_eq(a: &str, b: &str) -> (res: bool)
    ensures
        res == (a@ == b@),
{
    let x = chars_of(a);
    let y = chars_of(b);
    if x.len() != y.len() {
        return false;
    }
    let mut i: usize = 0;
    while i < x.len()
        invariant
            x@ == a@,
            y@ == b@,
            x.len() == y.len(),
            i <= x.len(),
            forall|k: int| 0 <= k < i ==> x@[k] == y@[k],
        decreases x.len() - i,
    {
        if x[i] != y[i] {
            return false;
        }
        i = i + 1;
    }
    assert(x@ =~= y@);
    true
}

/// Whether `pattern` occurs in `cs` at position `i`.
fn occurs_at(cs: &Vec<char>, pattern: &Vec<char>, i: usize) -> (res: bool)
    requires
        i + pattern.len() <= cs.len(),
    ensures
        res == (cs@.subrange(i as int, i + pattern.len()) == pattern@),
{
    let mut k: usize = 0;
    while k < pattern.len()
        invariant
            k <= pattern.len(),
            i + pattern.len() <= cs.len(),
            forall|m: int| 0 <= m < k ==> cs@[i + m] == pattern@[m],
        decreases pattern.len() - k,
    {
        if cs[i + k] != pattern[k] {
            proof {
                let sub = cs@.subrange(i as int, i + pattern.len());
                assert(sub[k as int] != pattern@[k as int]);
            }
            return false;
        }
        k = k + 1;
    }
    assert(cs@.subrange(i as int, i + pattern.len()) =~= pattern@);
    true
}

/// Whether `s` begins with `prefix`.
pub fn str_starts_with(s: &str, prefix: &str) -> (res: bool)
    ensures
        res == starts_with(s@, prefix@),
{
    let cs = chars_of(s);
    let p = chars_of(prefix);
    if p.len() > cs.len() {
        return false;
    }
    occurs_at(&cs, &p, 0)
}

/// Whether `pattern` occurs somewhere in `s`.
pub fn str_contains(s: &str, pattern: &str) -> (res: bool)
    ensures
        res == contains(s@, pattern@),
{
    let cs = chars_of(s);
    let p = chars_of(pattern);
    if p.len() > cs.len() {
        return false;
    }
    let mut i: usize = 0;
    let last = cs.len() - p.len();
    loop
        invariant
            last == cs.len() - p.len(),
            cs@ == s@,
            p@ == pattern@,
            p.len() <= cs.len(),
            i <= last,
            forall|x: int| 0 <= x < i ==> #[trigger] cs@.subrange(x, x + p.len()) != p@,
        ensures
            forall|x: int| 0 <= x <= last ==> #[trigger] cs@.subrange(x, x + p.len()) != p@,
        decreases last - i,
    {
        if occurs_at(&cs, &p, i) {
            return true;
        }
        if i == last {
            break ;
        }
        i = i + 1;
    }
    proof {
        if contains(s@, pattern@) {
            let x = choose|x: int|
                0 <= x && x + pattern@.len() <= s@.len() && #[trigger] s@.subrange(
                    x,
                    x + pattern@.len(),
                ) == pattern@;
            assert(cs@.subrange(x, x + p.len()) != p@);
        }
    }
    false
}

} // verus!
