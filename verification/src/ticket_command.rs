//! The `!ticket` chat command.
//!
//! A ticket is requested in a room with a message of the form
//!
//! ```text
//! !ticket
//! Your Heading Here
//! +++
//! Your detailed description goes here.
//! +++
//! John Doe
//! ```
//!
//! The grammar is the pattern `(?s)!ticket\s+(.*?)\s*\+++\s*(.*?)\s*\+++\s*(.*)`
//! searched leftmost-first: `\s` is the Unicode `White_Space` class, `\+++`
//! is a run of one or more `+`, greedy parts take as much as the rest of the
//! pattern allows and lazy parts as little.  The spec functions below state,
//! part by part, which span of the text each piece of the pattern covers.
use vstd::prelude::*;

use crate::text::{chars_of, is_whitespace, is_ws, lemma_trim_unchanged, trim_ws};

verus! {

/// End of the run of white space that starts at `i`.
pub open spec fn skip_ws(t: Seq<char>, i: int) -> int
    decreases t.len() - i,
{
    if 0 <= i < t.len() && is_ws(t[i]) {
        skip_ws(t, i + 1)
    } else {
        i
    }
}

/// End of the run of `+` that starts at `i`.
pub open spec fn skip_plus(t: Seq<char>, i: int) -> int
    decreases t.len() - i,
{
    if 0 <= i < t.len() && t[i] == '+' {
        skip_plus(t, i + 1)
    } else {
        i
    }
}

/// Some `+` stands at `i` or later.
pub open spec fn has_plus_from(t: Seq<char>, i: int) -> bool {
    exists|k: int| i <= k < t.len() && t[k] == '+'
}

/// Two `+` stand at `i` or later.
pub open spec fn has_two_plus_from(t: Seq<char>, i: int) -> bool {
    exists|j: int, k: int| i <= j < k < t.len() && t[j] == '+' && t[k] == '+'
}

/// The literal `!ticket`.
pub open spec fn command_word() -> Seq<char> {
    seq!['!', 't', 'i', 'c', 'k', 'e', 't']
}

/// `!ticket` followed by a white space character stands at `s`.
pub open spec fn starts_command_at(t: Seq<char>, s: int) -> bool {
    &&& 0 <= s
    &&& s + 8 <= t.len()
    &&& t.subrange(s, s + 7) == command_word()
    &&& is_ws(t[s + 7])
}

/// The whole pattern matches some text starting at `s`: the command word,
/// white space, and two `+` further on (every other piece may be empty).
pub open spec fn match_starts_at(t: Seq<char>, s: int) -> bool {
    starts_command_at(t, s) && has_two_plus_from(t, s + 8)
}

/// The leftmost position at or after `s` where a match starts.
pub open spec fn first_match_from(t: Seq<char>, s: int) -> Option<int>
    decreases t.len() - s,
{
    if s >= t.len() {
        None
    } else if match_starts_at(t, s) {
        Some(s)
    } else {
        first_match_from(t, s + 1)
    }
}

/// The first group may end at `q`: what follows is white space, a `+`, and
/// at least one more `+` later for the second separator.
pub open spec fn first_sep_at(t: Seq<char>, q: int) -> bool {
    let r = skip_ws(t, q);
    r < t.len() && t[r] == '+' && has_plus_from(t, r + 1)
}

/// The second group may end at `q`: what follows is white space and a `+`.
pub open spec fn second_sep_at(t: Seq<char>, q: int) -> bool {
    let r = skip_ws(t, q);
    r < t.len() && t[r] == '+'
}

/// The shortest end of the (lazy) first group at or after `q`.
pub open spec fn first_sep_from(t: Seq<char>, q: int) -> int
    decreases t.len() - q,
{
    if q >= t.len() {
        q
    } else if first_sep_at(t, q) {
        q
    } else {
        first_sep_from(t, q + 1)
    }
}

/// The shortest end of the (lazy) second group at or after `q`.
pub open spec fn second_sep_from(t: Seq<char>, q: int) -> int
    decreases t.len() - q,
{
    if q >= t.len() {
        q
    } else if second_sep_at(t, q) {
        q
    } else {
        second_sep_from(t, q + 1)
    }
}

/// Spans of the three groups of the leftmost match:
/// `(heading_start, heading_end, body_start, body_end, assignee_start)`;
/// the third group runs to the end of the text.
///
/// The first separator is greedy but must leave a `+` for the second one.
pub open spec fn ticket_spans(t: Seq<char>) -> Option<(int, int, int, int, int)> {
    match first_match_from(t, 0) {
        None => None,
        Some(s) => {
            let a = skip_ws(t, s + 7);
            let q1 = first_sep_from(t, a);
            let e1 = skip_plus(t, skip_ws(t, q1));
            let u1 = if has_plus_from(t, e1) {
                e1
            } else {
                e1 - 1
            };
            let b = skip_ws(t, u1);
            let q2 = second_sep_from(t, b);
            let c = skip_ws(t, skip_plus(t, skip_ws(t, q2)));
            Some((a, q1, b, q2, c))
        },
    }
}

/// The three captured groups of a ticket request: heading, body and the
/// display name of the assignee.
pub open spec fn ticket_groups(t: Seq<char>) -> Option<(Seq<char>, Seq<char>, Seq<char>)> {
    match ticket_spans(t) {
        None => None,
        Some((a, q1, b, q2, c)) => Some(
            (t.subrange(a, q1), t.subrange(b, q2), t.subrange(c, t.len() as int)),
        ),
    }
}

/// The captured groups of a ticket request, as written in the message.
pub struct TicketCaptures {
    /// First group: the heading.
    pub heading: String,
    /// Second group: the body.
    pub body: String,
    /// Third group: the assignee's display name, up to the end of the message.
    pub assignee: String,
}

// ---------------------------------------------------------------- lemmas

proof fn lemma_skip_ws(t: Seq<char>, i: int)
    requires
        0 <= i <= t.len(),
    ensures
        i <= skip_ws(t, i) <= t.len(),
        forall|k: int| i <= k < skip_ws(t, i) ==> is_ws(#[trigger] t[k]),
        skip_ws(t, i) < t.len() ==> !is_ws(t[skip_ws(t, i)]),
    decreases t.len() - i,
{
    if i < t.len() && is_ws(t[i]) {
        lemma_skip_ws(t, i + 1);
    }
}

proof fn lemma_skip_plus(t: Seq<char>, i: int)
    requires
        0 <= i <= t.len(),
    ensures
        i <= skip_plus(t, i) <= t.len(),
        forall|k: int| i <= k < skip_plus(t, i) ==> #[trigger] t[k] == '+',
        skip_plus(t, i) < t.len() ==> t[skip_plus(t, i)] != '+',
    decreases t.len() - i,
{
    if i < t.len() && t[i] == '+' {
        lemma_skip_plus(t, i + 1);
    }
}

/// Inside a run of white space, every start skips to the same end.
proof fn lemma_skip_ws_inside(t: Seq<char>, i: int, j: int)
    requires
        0 <= i <= j <= skip_ws(t, i),
        i <= t.len(),
    ensures
        skip_ws(t, j) == skip_ws(t, i),
    decreases j - i,
{
    lemma_skip_ws(t, i);
    if i < j {
        assert(is_ws(t[i]));
        lemma_skip_ws_inside(t, i + 1, j);
    }
}

/// Skipping white space never passes a character that is not white space.
proof fn lemma_skip_ws_stops(t: Seq<char>, i: int, k: int)
    requires
        0 <= i <= k < t.len(),
        !is_ws(t[k]),
    ensures
        skip_ws(t, i) <= k,
    decreases k - i,
{
    if i < k && is_ws(t[i]) {
        lemma_skip_ws_stops(t, i + 1, k);
    }
}

proof fn lemma_first_match_none(t: Seq<char>, s: int)
    requires
        0 <= s,
        t.len() < s + 8,
    ensures
        first_match_from(t, s) is None,
    decreases t.len() - s,
{
    if s < t.len() {
        lemma_first_match_none(t, s + 1);
    }
}

/// The first group ends at the first position from `q` where the first
/// separator may start, and every position before it may not.
proof fn lemma_first_sep_from(t: Seq<char>, q: int, w: int)
    requires
        0 <= q <= w,
        first_sep_at(t, w),
    ensures
        q <= first_sep_from(t, q) <= w,
        first_sep_at(t, first_sep_from(t, q)),
        forall|x: int| q <= x < first_sep_from(t, q) ==> !#[trigger] first_sep_at(t, x),
    decreases w - q,
{
    if q < w && !first_sep_at(t, q) {
        lemma_first_sep_from(t, q + 1, w);
        assert(q < t.len()) by {
            lemma_skip_ws(t, w);
        }
    } else if q == w {
        lemma_skip_ws(t, w);
    } else {
        lemma_skip_ws(t, w);
        assert(q < t.len()) by {
            lemma_skip_ws(t, q);
        }
    }
}

proof fn lemma_second_sep_from(t: Seq<char>, q: int, w: int)
    requires
        0 <= q <= w,
        second_sep_at(t, w),
    ensures
        q <= second_sep_from(t, q) <= w,
        second_sep_at(t, second_sep_from(t, q)),
        forall|x: int| q <= x < second_sep_from(t, q) ==> !#[trigger] second_sep_at(t, x),
    decreases w - q,
{
    if q < w && !second_sep_at(t, q) {
        lemma_second_sep_from(t, q + 1, w);
        assert(q < t.len()) by {
            lemma_skip_ws(t, w);
        }
    } else if q == w {
        lemma_skip_ws(t, w);
    } else {
        lemma_skip_ws(t, w);
        assert(q < t.len()) by {
            lemma_skip_ws(t, q);
        }
    }
}

proof fn lemma_first_sep_from_ge(t: Seq<char>, q: int)
    ensures
        q <= first_sep_from(t, q),
    decreases t.len() - q,
{
    if q < t.len() && !first_sep_at(t, q) {
        lemma_first_sep_from_ge(t, q + 1);
    }
}

proof fn lemma_second_sep_from_ge(t: Seq<char>, q: int)
    ensures
        q <= second_sep_from(t, q),
    decreases t.len() - q,
{
    if q < t.len() && !second_sep_at(t, q) {
        lemma_second_sep_from_ge(t, q + 1);
    }
}

/// When the separator cannot start at `q`, it cannot start anywhere in the
/// white space that follows `q` nor on the character that ends it.
proof fn lemma_first_sep_jump(t: Seq<char>, q: int)
    requires
        0 <= q <= t.len(),
        skip_ws(t, q) < t.len(),
        !first_sep_at(t, q),
    ensures
        first_sep_from(t, q) == first_sep_from(t, skip_ws(t, q) + 1),
    decreases skip_ws(t, q) - q,
{
    lemma_skip_ws(t, q);
    if q < skip_ws(t, q) {
        lemma_skip_ws_inside(t, q, q + 1);
        lemma_first_sep_jump(t, q + 1);
    }
}

proof fn lemma_second_sep_jump(t: Seq<char>, q: int)
    requires
        0 <= q <= t.len(),
        skip_ws(t, q) < t.len(),
        !second_sep_at(t, q),
    ensures
        second_sep_from(t, q) == second_sep_from(t, skip_ws(t, q) + 1),
    decreases skip_ws(t, q) - q,
{
    lemma_skip_ws(t, q);
    if q < skip_ws(t, q) {
        lemma_skip_ws_inside(t, q, q + 1);
        lemma_second_sep_jump(t, q + 1);
    }
}


// ---------------------------------------------------------------- laws

proof fn lemma_skip_ws_is(t: Seq<char>, i: int, r: int)
    requires
        0 <= i <= r <= t.len(),
        forall|k: int| i <= k < r ==> is_ws(#[trigger] t[k]),
        r == t.len() || !is_ws(t[r]),
    ensures
        skip_ws(t, i) == r,
    decreases r - i,
{
    if i < r {
        lemma_skip_ws_is(t, i + 1, r);
    }
}

proof fn lemma_skip_plus_is(t: Seq<char>, i: int, r: int)
    requires
        0 <= i <= r <= t.len(),
        forall|k: int| i <= k < r ==> #[trigger] t[k] == '+',
        r == t.len() || t[r] != '+',
    ensures
        skip_plus(t, i) == r,
    decreases r - i,
{
    if i < r {
        lemma_skip_plus_is(t, i + 1, r);
    }
}

proof fn lemma_first_sep_is(t: Seq<char>, q: int, w: int)
    requires
        0 <= q <= w,
        first_sep_at(t, w),
        forall|x: int| q <= x < w ==> !#[trigger] first_sep_at(t, x),
    ensures
        first_sep_from(t, q) == w,
{
    lemma_first_sep_from(t, q, w);
    if first_sep_from(t, q) < w {
        assert(!first_sep_at(t, first_sep_from(t, q)));
    }
}

proof fn lemma_second_sep_is(t: Seq<char>, q: int, w: int)
    requires
        0 <= q <= w,
        second_sep_at(t, w),
        forall|x: int| q <= x < w ==> !#[trigger] second_sep_at(t, x),
    ensures
        second_sep_from(t, q) == w,
{
    lemma_second_sep_from(t, q, w);
    if second_sep_from(t, q) < w {
        assert(!second_sep_at(t, second_sep_from(t, q)));
    }
}

/// No `+` occurs in `s`.
pub open spec fn no_plus(s: Seq<char>) -> bool {
    forall|i: int| 0 <= i < s.len() ==> s[i] != '+'
}

/// `s` neither begins nor ends with white space.
pub open spec fn unpadded(s: Seq<char>) -> bool {
    s.len() == 0 || (!is_ws(s[0]) && !is_ws(s.last()))
}

/// The separator line of the template, with the line breaks around it.
pub open spec fn separator_line() -> Seq<char> {
    seq!['\n', '+', '+', '+', '\n']
}

/// A ticket request written in the format the template shows: the command
/// word, then heading, body and assignee, separated by `+++` lines.
pub open spec fn template_message(heading: Seq<char>, body: Seq<char>, assignee: Seq<char>) -> Seq<char> {
    command_word() + seq!['\n'] + heading + separator_line() + body + separator_line() + assignee
}

/// Which character of a template message stands where.
pub open spec fn template_layout(h: Seq<char>, d: Seq<char>, m: Seq<char>, t: Seq<char>) -> bool {
    let p = 8 + h.len() as int;
    let d0 = p + 5;
    let q = d0 + d.len() as int;
    let m0 = q + 5;
    &&& t.len() == m0 + m.len()
    &&& t.subrange(0, 7) == command_word()
    &&& t[7] == '\n'
    &&& (forall|i: int| 0 <= i < h.len() ==> t[8 + i] == #[trigger] h[i])
    &&& t[p] == '\n' && t[p + 1] == '+' && t[p + 2] == '+' && t[p + 3] == '+' && t[p + 4] == '\n'
    &&& (forall|i: int| 0 <= i < d.len() ==> t[d0 + i] == #[trigger] d[i])
    &&& t[q] == '\n' && t[q + 1] == '+' && t[q + 2] == '+' && t[q + 3] == '+' && t[q + 4] == '\n'
    &&& (forall|i: int| 0 <= i < m.len() ==> t[m0 + i] == #[trigger] m[i])
}

proof fn lemma_template_layout(h: Seq<char>, d: Seq<char>, m: Seq<char>)
    ensures
        template_layout(h, d, m, template_message(h, d, m)),
{
    let sep = separator_line();
    let s1 = command_word() + seq!['\n'];
    let s2 = s1 + h;
    let s3 = s2 + sep;
    let s4 = s3 + d;
    let s5 = s4 + sep;
    let t = s5 + m;
    assert(t == template_message(h, d, m));
    let p = 8 + h.len() as int;
    let d0 = p + 5;
    let q = d0 + d.len() as int;
    let m0 = q + 5;
    assert forall|i: int| 0 <= i < h.len() implies t[8 + i] == #[trigger] h[i] by {
        assert(s2[8 + i] == h[i]);
        assert(s3[8 + i] == s2[8 + i]);
        assert(s4[8 + i] == s3[8 + i]);
        assert(s5[8 + i] == s4[8 + i]);
    }
    assert forall|i: int| 0 <= i < d.len() implies t[d0 + i] == #[trigger] d[i] by {
        assert(s4[d0 + i] == d[i]);
        assert(s5[d0 + i] == s4[d0 + i]);
    }
    assert forall|i: int| 0 <= i < 5 implies t[p + i] == #[trigger] sep[i] by {
        assert(s3[p + i] == sep[i]);
        assert(s4[p + i] == s3[p + i]);
        assert(s5[p + i] == s4[p + i]);
    }
    assert forall|i: int| 0 <= i < 5 implies t[q + i] == #[trigger] sep[i] by {
        assert(s5[q + i] == sep[i]);
    }
    assert(t[p] == sep[0] && t[p + 1] == sep[1] && t[p + 2] == sep[2] && t[p + 3] == sep[3] && t[p + 4] == sep[4]);
    assert(t[q] == sep[0] && t[q + 1] == sep[1] && t[q + 2] == sep[2] && t[q + 3] == sep[3] && t[q + 4] == sep[4]);
    assert forall|i: int| 0 <= i < 8 implies t[i] == #[trigger] s1[i] by {
        assert(s2[i] == s1[i]);
        assert(s3[i] == s2[i]);
        assert(s4[i] == s3[i]);
        assert(s5[i] == s4[i]);
    }
    assert(t.subrange(0, 7) =~= command_word()) by {
        assert forall|k: int| 0 <= k < 7 implies t.subrange(0, 7)[k] == command_word()[k] by {
            assert(t[k] == s1[k]);
        }
    }
    assert(t[7] == s1[7]);
}

proof fn lemma_newline_is_ws()
    ensures
        is_ws('\n'),
{
    assert('\n' as u32 == 0x0A);
}

/// Where the first group of a template message begins and ends.
proof fn lemma_template_first_group(h: Seq<char>, d: Seq<char>, m: Seq<char>, t: Seq<char>)
    requires
        template_layout(h, d, m, t),
        no_plus(h),
        unpadded(h),
    ensures
        ({
            let p = 8 + h.len() as int;
            let a = if h.len() > 0 { 8 } else { p + 1 };
            &&& skip_ws(t, 7) == a
            &&& first_sep_from(t, a) == if h.len() > 0 { p } else { p + 1 }
            &&& t.subrange(a, first_sep_from(t, a)) == h
        }),
{
    lemma_newline_is_ws();
    let hn = h.len() as int;
    let p = 8 + hn;
    let q = p + 5 + d.len() as int;
    let a = if hn > 0 { 8 } else { p + 1 };
    if hn > 0 {
        assert(t[8int + 0] == h[0]);
    }
    lemma_skip_ws_is(t, 7, a);
    let q1 = if hn > 0 { p } else { p + 1 };
    assert(has_plus_from(t, p + 2)) by {
        assert(t[q + 1] == '+');
    }
    lemma_skip_ws_is(t, q1, p + 1);
    assert(first_sep_at(t, q1));
    assert forall|x: int| a <= x < q1 implies !#[trigger] first_sep_at(t, x) by {
        assert(t[8 + (hn - 1)] == h[hn - 1]);
        assert(!is_ws(t[p - 1]));
        lemma_skip_ws(t, x);
        lemma_skip_ws_stops(t, x, p - 1);
        let r = skip_ws(t, x);
        assert(t[8 + (r - 8)] == h[r - 8]);
    }
    lemma_first_sep_is(t, a, q1);
    assert(t.subrange(a, q1) =~= h) by {
        assert forall|i: int| 0 <= i < hn implies t.subrange(a, q1)[i] == h[i] by {
            assert(t[8 + i] == h[i]);
        }
    }
}

/// Where the second group of a template message begins and ends.
proof fn lemma_template_second_group(h: Seq<char>, d: Seq<char>, m: Seq<char>, t: Seq<char>)
    requires
        template_layout(h, d, m, t),
        no_plus(d),
        unpadded(d),
    ensures
        ({
            let p = 8 + h.len() as int;
            let d0 = p + 5;
            let q = d0 + d.len() as int;
            let b = if d.len() > 0 { d0 } else { q + 1 };
            &&& skip_ws(t, p + 4) == b
            &&& second_sep_from(t, b) == if d.len() > 0 { q } else { q + 1 }
            &&& t.subrange(b, second_sep_from(t, b)) == d
        }),
{
    lemma_newline_is_ws();
    let dn = d.len() as int;
    let p = 8 + h.len() as int;
    let d0 = p + 5;
    let q = d0 + dn;
    let b = if dn > 0 { d0 } else { q + 1 };
    if dn > 0 {
        assert(t[d0 + 0] == d[0]);
    }
    lemma_skip_ws_is(t, p + 4, b);
    let q2 = if dn > 0 { q } else { q + 1 };
    lemma_skip_ws_is(t, q2, q + 1);
    assert(second_sep_at(t, q2));
    assert forall|x: int| b <= x < q2 implies !#[trigger] second_sep_at(t, x) by {
        assert(t[d0 + (dn - 1)] == d[dn - 1]);
        assert(!is_ws(t[q - 1]));
        lemma_skip_ws(t, x);
        lemma_skip_ws_stops(t, x, q - 1);
        let r = skip_ws(t, x);
        assert(t[d0 + (r - d0)] == d[r - d0]);
    }
    lemma_second_sep_is(t, b, q2);
    assert(t.subrange(b, q2) =~= d) by {
        assert forall|i: int| 0 <= i < dn implies t.subrange(b, q2)[i] == d[i] by {
            assert(t[d0 + i] == d[i]);
        }
    }
}

/// A request written in the template's format is read back as the heading,
/// body and assignee it was written with, provided heading and body hold no
/// `+` and have no surrounding white space, and the assignee does not begin
/// with white space.
pub proof fn lemma_template_round_trip(heading: Seq<char>, body: Seq<char>, assignee: Seq<char>)
    requires
        no_plus(heading),
        no_plus(body),
        unpadded(heading),
        unpadded(body),
        assignee.len() == 0 || !is_ws(assignee[0]),
    ensures
        ticket_groups(template_message(heading, body, assignee)) == Some((heading, body, assignee)),
{
    let h = heading;
    let d = body;
    let m = assignee;
    let t = template_message(h, d, m);
    lemma_template_layout(h, d, m);
    lemma_newline_is_ws();
    let p = 8 + h.len() as int;
    let d0 = p + 5;
    let q = d0 + d.len() as int;
    let m0 = q + 5;
    // The match starts at the very beginning.
    assert(has_two_plus_from(t, 8)) by {
        assert(8 <= p + 1 < q + 1 < t.len() && t[p + 1] == '+' && t[q + 1] == '+');
    }
    assert(match_starts_at(t, 0));
    assert(first_match_from(t, 0) == Some(0int));
    lemma_template_first_group(h, d, m, t);
    let a = skip_ws(t, 7int);
    let q1 = first_sep_from(t, a);
    lemma_skip_ws_is(t, q1, p + 1);
    lemma_skip_plus_is(t, p + 1, p + 4);
    assert(has_plus_from(t, p + 4)) by {
        assert(t[q + 1] == '+');
    }
    lemma_template_second_group(h, d, m, t);
    let b = skip_ws(t, p + 4);
    let q2 = second_sep_from(t, b);
    lemma_skip_ws_is(t, q2, q + 1);
    lemma_skip_plus_is(t, q + 1, q + 4);
    if m.len() > 0 {
        assert(t[m0 + 0] == m[0]);
    }
    lemma_skip_ws_is(t, q + 4, m0);
    assert(t.subrange(m0, t.len() as int) =~= m) by {
        assert forall|i: int| 0 <= i < m.len() implies t.subrange(m0, t.len() as int)[i] == m[i] by {
            assert(t[m0 + i] == m[i]);
        }
    }
}


proof fn lemma_first_match_from(t: Seq<char>, x: int)
    requires
        0 <= x,
        first_match_from(t, x) is Some,
    ensures
        x <= first_match_from(t, x)->0,
        match_starts_at(t, first_match_from(t, x)->0),
    decreases t.len() - x,
{
    if x < t.len() && !match_starts_at(t, x) {
        lemma_first_match_from(t, x + 1);
    }
}

/// The heading and the body of a request never begin or end with white
/// space: trimming them, as the ticket handler does, changes nothing.
pub proof fn lemma_captured_groups_unpadded(t: Seq<char>)
    ensures
        ticket_groups(t) matches Some((h, b, _)) ==> unpadded(h) && unpadded(b)
            && trim_ws(h) == h && trim_ws(b) == b,
{
    if let Some(s) = first_match_from(t, 0) {
        lemma_first_match_from(t, 0);
        let a = skip_ws(t, s + 7);
        let (p1, p2) = choose|j: int, k: int|
            s + 8 <= j < k < t.len() && t[j] == '+' && t[k] == '+';
        lemma_skip_ws(t, s + 7);
        lemma_skip_ws(t, p1);
        assert(p1 >= a) by {
            if p1 < a {
                assert(is_ws(t[p1]));
            }
        }
        assert(has_plus_from(t, p1 + 1)) by {
            assert(t[p2] == '+');
        }
        lemma_first_sep_from(t, a, p1);
        let q1 = first_sep_from(t, a);
        let h = t.subrange(a, q1);
        if a < q1 {
            assert(h[0] == t[a]);
            assert(h.last() == t[q1 - 1]);
            if is_ws(t[q1 - 1]) {
                assert(skip_ws(t, q1 - 1) == skip_ws(t, q1));
                assert(first_sep_at(t, q1 - 1));
            }
        }
        lemma_trim_unchanged(h);
        // The second group.
        let r1 = skip_ws(t, q1);
        lemma_skip_ws(t, q1);
        let e1 = skip_plus(t, r1);
        lemma_skip_plus(t, r1);
        let u1 = if has_plus_from(t, e1) { e1 } else { e1 - 1 };
        let w2 = if has_plus_from(t, e1) {
            choose|k: int| e1 <= k < t.len() && t[k] == '+'
        } else {
            u1
        };
        if !has_plus_from(t, e1) {
            let k = choose|k: int| r1 + 1 <= k < t.len() && t[k] == '+';
            assert(k < e1);
            assert(t[u1] == '+');
        }
        let b = skip_ws(t, u1);
        lemma_skip_ws(t, u1);
        lemma_skip_ws(t, w2);
        lemma_skip_ws_stops(t, u1, w2);
        lemma_second_sep_from(t, b, w2);
        let q2 = second_sep_from(t, b);
        let d = t.subrange(b, q2);
        if b < q2 {
            assert(d[0] == t[b]);
            assert(d.last() == t[q2 - 1]);
            if is_ws(t[q2 - 1]) {
                assert(skip_ws(t, q2 - 1) == skip_ws(t, q2));
                assert(second_sep_at(t, q2 - 1));
            }
        }
        lemma_trim_unchanged(d);
    }
}

// ---------------------------------------------------------------- exec

/// Position of the last `+` and of the one before it.
fn plus_landmarks(cs: &Vec<char>) -> (res: (Option<usize>, Option<usize>))
    ensures
        forall|x: int|
            0 <= x ==> (has_plus_from(cs@, x) <==> (res.0 matches Some(l) && x <= l)),
        forall|x: int|
            0 <= x ==> (has_two_plus_from(cs@, x) <==> (res.1 matches Some(p) && x <= p)),
        res.0 matches Some(l) ==> l < cs.len(),
        res.1 matches Some(p) ==> p < cs.len(),
{
    let mut last: Option<usize> = None;
    let mut prev: Option<usize> = None;
    let mut i: usize = 0;
    let ghost t = cs@;
    while i < cs.len()
        invariant
            t == cs@,
            i <= cs.len(),
            last matches Some(l) ==> l < i && t[l as int] == '+' && forall|k: int|
                l < k < i ==> t[k] != '+',
            last is None ==> forall|k: int| 0 <= k < i ==> t[k] != '+',
            prev matches Some(p) ==> (last matches Some(l) && p < l && t[p as int] == '+'
                && forall|k: int| p < k < l ==> t[k] != '+'),
            prev is None ==> (last matches Some(l) ==> forall|k: int| 0 <= k < l ==> t[k] != '+'),
        decreases cs.len() - i,
    {
        if cs[i] == '+' {
            prev = last;
            last = Some(i);
        }
        i = i + 1;
    }
    assert forall|x: int| 0 <= x implies (has_plus_from(t, x) <==> (last matches Some(l) && x
        <= l)) by {
        if has_plus_from(t, x) {
            let k = choose|k: int| x <= k < t.len() && t[k] == '+';
            assert(last is Some);
        }
        if let Some(l) = last {
            if x <= l {
                assert(t[l as int] == '+');
            }
        }
    }
    assert forall|x: int| 0 <= x implies (has_two_plus_from(t, x) <==> (prev matches Some(p) && x
        <= p)) by {
        if has_two_plus_from(t, x) {
            let (j, k) = choose|j: int, k: int|
                x <= j < k < t.len() && t[j] == '+' && t[k] == '+';
            assert(last is Some);
            let l = last.unwrap() as int;
            assert(k <= l);
            assert(j < l);
            assert(prev is Some);
        }
        if let Some(p) = prev {
            if x <= p {
                let l = last.unwrap() as int;
                assert(t[p as int] == '+' && t[l] == '+');
            }
        }
    }
    (last, prev)
}

fn skip_ws_exec(cs: &Vec<char>, i: usize) -> (r: usize)
    requires
        i <= cs.len(),
    ensures
        r == skip_ws(cs@, i as int),
        i <= r <= cs.len(),
{
    let mut j = i;
    proof {
        lemma_skip_ws(cs@, i as int);
    }
    while j < cs.len() && is_whitespace(cs[j])
        invariant
            i <= j <= cs.len(),
            i <= skip_ws(cs@, i as int) <= cs.len(),
            j <= skip_ws(cs@, i as int),
            skip_ws(cs@, j as int) == skip_ws(cs@, i as int),
        decreases cs.len() - j,
    {
        j = j + 1;
        proof {
            lemma_skip_ws(cs@, j as int);
        }
    }
    j
}

fn skip_plus_exec(cs: &Vec<char>, i: usize) -> (r: usize)
    requires
        i <= cs.len(),
    ensures
        r == skip_plus(cs@, i as int),
        i <= r <= cs.len(),
{
    let mut j = i;
    while j < cs.len() && cs[j] == '+'
        invariant
            i <= j <= cs.len(),
            skip_plus(cs@, j as int) == skip_plus(cs@, i as int),
        decreases cs.len() - j,
    {
        j = j + 1;
    }
    j
}

/// `!ticket` followed by white space stands at `s`.
fn starts_command_exec(cs: &Vec<char>, s: usize) -> (res: bool)
    requires
        s + 8 <= cs.len(),
    ensures
        res == starts_command_at(cs@, s as int),
{
    let word = cs[s] == '!' && cs[s + 1] == 't' && cs[s + 2] == 'i' && cs[s + 3] == 'c' && cs[s
        + 4] == 'k' && cs[s + 5] == 'e' && cs[s + 6] == 't';
    proof {
        if word {
            assert(cs@.subrange(s as int, s + 7) =~= command_word());
        } else if cs@.subrange(s as int, s + 7) == command_word() {
            assert(cs@.subrange(s as int, s + 7)[0] == command_word()[0]);
            assert(cs@.subrange(s as int, s + 7)[1] == command_word()[1]);
            assert(cs@.subrange(s as int, s + 7)[2] == command_word()[2]);
            assert(cs@.subrange(s as int, s + 7)[3] == command_word()[3]);
            assert(cs@.subrange(s as int, s + 7)[4] == command_word()[4]);
            assert(cs@.subrange(s as int, s + 7)[5] == command_word()[5]);
            assert(cs@.subrange(s as int, s + 7)[6] == command_word()[6]);
        }
    }
    word && is_whitespace(cs[s + 7])
}

/// Finds the leftmost `!ticket` request in a chat message and returns the
/// three groups the request is made of, as the pattern
/// `(?s)!ticket\s+(.*?)\s*\+++\s*(.*?)\s*\+++\s*(.*)` captures them;
/// `None` where the message holds no such request.
pub fn parse_ticket_command(text: &str) -> (res: Option<TicketCaptures>)
    ensures
        match ticket_groups(text@) {
            None => res is None,
            Some((h, b, a)) => res matches Some(c) && c.heading@ == h && c.body@ == b
                && c.assignee@ == a,
        },
{
    let cs = chars_of(text);
    let ghost t = cs@;
    let n = cs.len();
    let (last, prev) = plus_landmarks(&cs);
    // Leftmost start of a match.
    let mut s: usize = 0;
    let mut found = false;
    while n >= 8 && s <= n - 8
        invariant
            t == cs@,
            n == t.len(),
            found ==> match_starts_at(t, s as int),
            first_match_from(t, 0) == first_match_from(t, s as int),
            forall|x: int|
                0 <= x ==> (has_two_plus_from(t, x) <==> (prev matches Some(p) && x <= p)),
        ensures
            found || !(n >= 8 && s <= n - 8),
        decreases n - s,
    {
        let two_plus = match prev {
            Some(p) => s + 8 <= p,
            None => false,
        };
        if starts_command_exec(&cs, s) && two_plus {
            found = true;
            break ;
        }
        s = s + 1;
    }
    if !found {
        proof {
            lemma_first_match_none(t, s as int);
        }
        return None;
    }
    assert(first_match_from(t, s as int) == Some(s as int));
    let a = skip_ws_exec(&cs, s + 7);
    // The match guarantees a `+` that may start the first separator.
    let ghost (p1, p2) = choose|j: int, k: int|
        s + 8 <= j < k < t.len() && t[j] == '+' && t[k] == '+';
    proof {
        lemma_skip_ws(t, s + 7);
        lemma_skip_ws(t, p1);
        assert(p1 >= a) by {
            if p1 < a {
                assert(is_ws(t[p1]));
            }
        }
        assert(skip_ws(t, p1) == p1);
        assert(has_plus_from(t, p1 + 1)) by {
            assert(t[p2] == '+');
        }
        lemma_first_sep_from(t, a as int, p1);
    }
    let ghost q1_spec = first_sep_from(t, a as int);
    // Shortest first group.
    let mut q = a;
    loop
        invariant
            t == cs@,
            n == t.len(),
            a <= q <= q1_spec,
            q1_spec < n,
            first_sep_from(t, q as int) == q1_spec,
            first_sep_at(t, q1_spec),
            forall|x: int| 0 <= x ==> (has_plus_from(t, x) <==> (last matches Some(l) && x <= l)),
        ensures
            a <= q <= q1_spec,
            first_sep_from(t, q as int) == q1_spec,
            first_sep_at(t, q as int),
        decreases n - q,
    {
        let r = skip_ws_exec(&cs, q);
        proof {
            lemma_skip_ws(t, q as int);
        }
        if r < n && cs[r] == '+' && (match last {
            Some(l) => r + 1 <= l,
            None => false,
        }) {
            break ;
        }
        proof {
            if r >= n {
                lemma_skip_ws(t, q1_spec);
                lemma_skip_ws_stops(t, q as int, skip_ws(t, q1_spec));
                assert(false);
            }
            lemma_first_sep_jump(t, q as int);
            lemma_first_sep_from_ge(t, (r + 1) as int);
            lemma_first_sep_from(t, (r + 1) as int, q1_spec);
        }
        q = r + 1;
    }
    let q1 = q;
    proof {
        lemma_skip_ws(t, q1 as int);
        assert(first_sep_from(t, q1 as int) == q1 as int);
    }
    let r1 = skip_ws_exec(&cs, q1);
    let e1 = skip_plus_exec(&cs, r1);
    proof {
        lemma_skip_plus(t, r1 as int);
    }
    let more = match last {
        Some(l) => e1 <= l,
        None => false,
    };
    let u1 = if more {
        e1
    } else {
        e1 - 1
    };
    let b = skip_ws_exec(&cs, u1);
    // A `+` stands at or after `u1`, so the second separator can start.
    let ghost w2: int = if more {
        last.unwrap() as int
    } else {
        u1 as int
    };
    proof {
        if !more {
            // The only `+` after the first one lie inside its run.
            let l = last.unwrap() as int;
            assert(has_plus_from(t, r1 + 1));
            assert(l >= r1 + 1);
            assert(l < e1);
            assert(t[u1 as int] == '+') by {
                assert(r1 < u1);
            }
        }
        if more {
            let l = last.unwrap() as int;
            assert(has_plus_from(t, l));
            assert(!has_plus_from(t, l + 1));
            let k = choose|k: int| l <= k < t.len() && t[k] == '+';
            assert(k == l);
        }
        assert(t[w2] == '+');
        lemma_skip_ws(t, u1 as int);
        lemma_skip_ws(t, w2);
        lemma_skip_ws_stops(t, u1 as int, w2);
        assert(w2 >= b);
        lemma_second_sep_from(t, b as int, w2);
    }
    let ghost q2_spec = second_sep_from(t, b as int);
    let mut q = b;
    loop
        invariant
            t == cs@,
            n == t.len(),
            b <= q <= q2_spec,
            q2_spec < n,
            second_sep_from(t, q as int) == q2_spec,
            second_sep_at(t, q2_spec),
        ensures
            b <= q <= q2_spec,
            second_sep_from(t, q as int) == q2_spec,
            second_sep_at(t, q as int),
        decreases n - q,
    {
        let r = skip_ws_exec(&cs, q);
        proof {
            lemma_skip_ws(t, q as int);
        }
        if r < n && cs[r] == '+' {
            break ;
        }
        proof {
            if r >= n {
                lemma_skip_ws(t, q2_spec);
                lemma_skip_ws_stops(t, q as int, skip_ws(t, q2_spec));
                assert(false);
            }
            lemma_second_sep_jump(t, q as int);
            lemma_second_sep_from_ge(t, (r + 1) as int);
            lemma_second_sep_from(t, (r + 1) as int, q2_spec);
        }
        q = r + 1;
    }
    let q2 = q;
    proof {
        lemma_skip_ws(t, q2 as int);
        assert(second_sep_from(t, q2 as int) == q2 as int);
    }
    let r2 = skip_ws_exec(&cs, q2);
    let u2 = skip_plus_exec(&cs, r2);
    let c = skip_ws_exec(&cs, u2);
    let heading = text.substring_char(a, q1).to_owned();
    let body = text.substring_char(b, q2).to_owned();
    let assignee = text.substring_char(c, n).to_owned();
    Some(TicketCaptures { heading, body, assignee })
}

} // verus!
