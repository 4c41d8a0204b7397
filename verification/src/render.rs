//! Which Markdown texts can be handed to the converters.
//!
//! The converter that turns Markdown into HTML fails on a few shapes of
//! input: a list item that holds nothing, and a code fence on a line that
//! also holds a character outside ASCII. Both converters call themselves
//! once for each level of nesting, so that nesting without end exhausts the
//! stack. [`renderable`] describes texts that have none of these, and
//! [`is_renderable`] decides it.

use crate::text::chars_of;
use vstd::prelude::*;

verus! {

/// The deepest that the elements made of a text may nest, counted as
/// [`nesting`] counts.
pub const MAX_NESTING: usize = 640;

/// Whether `c` can belong to what opens a quotation or a list item: the
/// quotation mark, a bullet, a number or letter with its dot, and the
/// spaces between them.
pub open spec fn is_mark(c: char) -> bool {
    ||| c == ' '
    ||| c == '>'
    ||| c == '-'
    ||| c == '+'
    ||| c == '*'
    ||| c == '.'
    ||| '0' <= c <= '9'
    ||| c == 'a'
    ||| c == 'A'
    ||| c == 'i'
    ||| c == 'I'
}

/// Whether `c` can be the last character of a bullet or of a list number.
pub open spec fn ends_bullet(c: char) -> bool {
    c == '-' || c == '+' || c == '*' || c == '.' || '0' <= c <= '9'
}

/// Whether `c` is an ASCII character.
pub open spec fn is_ascii(c: char) -> bool {
    c <= '\u{7f}'
}

/// Whether `s[a..b]` is one line of `s`: it begins where `s` or the
/// line before it ends, it ends where `s` ends or at a line feed, and it
/// holds no line feed.
pub open spec fn is_line(s: Seq<char>, a: int, b: int) -> bool {
    &&& 0 <= a <= b <= s.len()
    &&& a == 0 || s[a - 1] == '\n'
    &&& b == s.len() || s[b] == '\n'
    &&& forall|j: int| a <= j < b ==> s[j] != '\n'
}

/// Whether three backticks begin at `j`.
pub open spec fn fence_at(s: Seq<char>, j: int) -> bool {
    0 <= j && j + 3 <= s.len() && s[j] == '`' && s[j + 1] == '`' && s[j + 2] == '`'
}

/// Whether `s[a..b]` holds three backticks in a row.
pub open spec fn has_fence(s: Seq<char>, a: int, b: int) -> bool {
    exists|j: int| a <= j && j + 3 <= b && fence_at(s, j)
}

/// Whether a character outside ASCII stands at `i`.
pub open spec fn non_ascii_at(s: Seq<char>, i: int) -> bool {
    0 <= i < s.len() && !is_ascii(s[i])
}

/// Whether `s[a..b]` holds a character outside ASCII.
pub open spec fn has_non_ascii(s: Seq<char>, a: int, b: int) -> bool {
    exists|i: int| a <= i < b && non_ascii_at(s, i)
}

/// Whether a space stands at `k`, right behind what can end a bullet or a
/// list number.
pub open spec fn bullet_ends_at(s: Seq<char>, k: int) -> bool {
    1 <= k < s.len() && s[k] == ' ' && ends_bullet(s[k - 1])
}

/// Whether `s[a..b]` can be a list item that holds nothing: marks only, of
/// which the last are a bullet or number and one space, and then carriage
/// returns at most.
pub open spec fn ends_bare(s: Seq<char>, a: int, b: int) -> bool {
    exists|k: int|
        a < k < b && bullet_ends_at(s, k) && (forall|j: int| a <= j < k ==> is_mark(s[j])) && (
        forall|j: int| k < j < b ==> s[j] == '\r')
}

/// Whether the converter takes the line `s[a..b]`.
pub open spec fn line_ok(s: Seq<char>, a: int, b: int) -> bool {
    !(has_fence(s, a, b) && has_non_ascii(s, a, b)) && !ends_bare(s, a, b)
}

/// Whether `s[i]` stands among the marks that open its line: it is a mark,
/// and so is every character before it on the line.
pub open spec fn leads(s: Seq<char>, i: int) -> bool
    decreases i,
{
    0 <= i < s.len() && is_mark(s[i]) && (i == 0 || s[i - 1] == '\n' || leads(s, i - 1))
}

/// Whether a quotation or a list can open at `i`: among the marks that open
/// the line stands a quotation mark, or the space behind a bullet or number.
pub open spec fn opens_level(s: Seq<char>, i: int) -> bool {
    leads(s, i) && (s[i] == '>' || bullet_ends_at(s, i))
}

/// Whether an apostrophe stands before `i` on the line of `i`.
pub open spec fn after_apostrophe(s: Seq<char>, i: int) -> bool
    decreases i,
{
    0 < i <= s.len() && s[i - 1] != '\n' && (s[i - 1] == '\'' || after_apostrophe(s, i - 1))
}

/// Whether an element can open at `i`: a `<` that follows an apostrophe on
/// its line. The text of a heading is written unescaped between apostrophes,
/// as the heading's `id`; what follows an apostrophe of its own is read as
/// HTML.
pub open spec fn opens_tag(s: Seq<char>, i: int) -> bool {
    0 <= i < s.len() && s[i] == '<' && after_apostrophe(s, i)
}

/// How many elements, one inside the other, can come of what stands at `i`.
/// A quotation is one element and a list two, the list and its item. A `<`
/// after an apostrophe opens one element, for which the HTML parser can make
/// up to two more around it, as the parts of a table, and which can keep its
/// heading open.
pub open spec fn depth_at(s: Seq<char>, i: int) -> nat {
    if opens_tag(s, i) {
        4
    } else if opens_level(s, i) {
        if s[i] == '>' {
            1
        } else {
            2
        }
    } else {
        0
    }
}

/// Whether an element can open among the first `n` characters of `s`.
pub open spec fn tagged(s: Seq<char>, n: int) -> bool
    decreases n,
{
    n > 0 && (opens_tag(s, n - 1) || tagged(s, n - 1))
}

/// Whether the line that begins at `i` ends every quotation and list begun
/// before it: it follows an empty line, is not empty itself, and begins with
/// neither a quotation mark nor a space nor a carriage return.
pub open spec fn starts_afresh(s: Seq<char>, i: int) -> bool {
    &&& 2 <= i < s.len()
    &&& s[i - 1] == '\n'
    &&& s[i - 2] == '\n'
    &&& s[i] != '>' && s[i] != ' ' && s[i] != '\n' && s[i] != '\r'
}

/// A bound on how deep the elements made of `s` nest where the first `n`
/// characters end: the sum of [`depth_at`], begun anew at each line that
/// [`starts_afresh`] for as long as no element can have opened that the
/// converter does not close itself.
///
/// Each quotation and each list takes one place of the line that opens it,
/// and never the same as another on that line; each element that is not the
/// converter's own takes one `<`.
pub open spec fn nesting(s: Seq<char>, n: int) -> nat
    decreases n,
{
    if n <= 0 {
        0
    } else if starts_afresh(s, n - 1) && !tagged(s, n - 1) {
        depth_at(s, n - 1)
    } else {
        nesting(s, n - 1) + depth_at(s, n - 1)
    }
}

/// Whether the converters take `s`: they take every line of it, and its
/// elements nest no deeper than [`MAX_NESTING`] anywhere.
pub open spec fn renderable(s: Seq<char>) -> bool {
    &&& forall|a: int, b: int| #[trigger] is_line(s, a, b) ==> line_ok(s, a, b)
    &&& forall|n: int| 0 <= n <= s.len() ==> #[trigger] nesting(s, n) <= MAX_NESTING
}

/// Where the line that begins at `start` ends.
fn line_end(s: &Vec<char>, start: usize) -> (end: usize)
    requires
        start <= s.len(),
        start == 0 || s[start - 1] == '\n',
    ensures
        is_line(s@, start as int, end as int),
{
    let mut end = start;
    while end < s.len() && s[end] != '\n'
        invariant
            start <= end <= s.len(),
            forall|j: int| start <= j < end ==> s[j] != '\n',
        decreases s.len() - end,
    {
        end += 1;
    }
    end
}

/// Decides [`has_fence`].
fn find_fence(s: &Vec<char>, a: usize, b: usize) -> (found: bool)
    requires
        a <= b <= s.len(),
    ensures
        found == has_fence(s@, a as int, b as int),
{
    let mut j = a;
    while b - j >= 3
        invariant
            a <= j <= b <= s.len(),
            forall|i: int| a <= i < j ==> !fence_at(s@, i),
        decreases b - j,
    {
        if s[j] == '`' && s[j + 1] == '`' && s[j + 2] == '`' {
            assert(fence_at(s@, j as int));
            return true;
        }
        j += 1;
    }
    false
}

/// Decides [`has_non_ascii`].
fn find_non_ascii(s: &Vec<char>, a: usize, b: usize) -> (found: bool)
    requires
        a <= b <= s.len(),
    ensures
        found == has_non_ascii(s@, a as int, b as int),
{
    let mut i = a;
    while i < b
        invariant
            a <= i <= b <= s.len(),
            forall|j: int| a <= j < i ==> !non_ascii_at(s@, j),
        decreases b - i,
    {
        if s[i] > '\u{7f}' {
            assert(non_ascii_at(s@, i as int));
            return true;
        }
        i += 1;
    }
    false
}

/// Decides [`ends_bullet`].
fn char_ends_bullet(c: char) -> (b: bool)
    ensures
        b == ends_bullet(c),
{
    c == '-' || c == '+' || c == '*' || c == '.' || ('0' <= c && c <= '9')
}

/// Decides [`is_mark`].
fn char_is_mark(c: char) -> (b: bool)
    ensures
        b == is_mark(c),
{
    c == ' ' || c == '>' || c == 'a' || c == 'A' || c == 'i' || c == 'I' || char_ends_bullet(c)
}

/// Whether `s[a..b]` holds marks only.
fn all_marks(s: &Vec<char>, a: usize, b: usize) -> (all: bool)
    requires
        a <= b <= s.len(),
    ensures
        all == (forall|j: int| a <= j < b ==> is_mark(s[j])),
{
    let mut i = a;
    while i < b
        invariant
            a <= i <= b <= s.len(),
            forall|j: int| a <= j < i ==> is_mark(s[j]),
        decreases b - i,
    {
        if !char_is_mark(s[i]) {
            return false;
        }
        i += 1;
    }
    true
}

/// Decides [`ends_bare`].
fn line_ends_bare(s: &Vec<char>, a: usize, b: usize) -> (bare: bool)
    requires
        a <= b <= s.len(),
    ensures
        bare == ends_bare(s@, a as int, b as int),
{
    let mut t = b;
    while t > a && s[t - 1] == '\r'
        invariant
            a <= t <= b <= s.len(),
            forall|j: int| t <= j < b ==> s[j] == '\r',
        decreases t,
    {
        t -= 1;
    }
    if t - a >= 2 && s[t - 1] == ' ' && char_ends_bullet(s[t - 2]) && all_marks(s, a, t - 1) {
        assert(bullet_ends_at(s@, t - 1));
        true
    } else {
        assert forall|k: int|
            a < k < b && bullet_ends_at(s@, k) && (forall|j: int|
                k < j < b ==> s[j] == '\r') implies !(forall|j: int| a <= j < k ==> is_mark(s[j])) by {
            if k < t - 1 {
                assert(s[t - 1] != '\r');
            }
        }
        false
    }
}

/// Decides [`line_ok`].
fn line_is_ok(s: &Vec<char>, a: usize, b: usize) -> (ok: bool)
    requires
        a <= b <= s.len(),
    ensures
        ok == line_ok(s@, a as int, b as int),
{
    if line_ends_bare(s, a, b) {
        false
    } else if find_fence(s, a, b) {
        !find_non_ascii(s, a, b)
    } else {
        true
    }
}

/// Decides whether [`nesting`] stays within [`MAX_NESTING`] all through `s`.
fn nesting_within(s: &Vec<char>) -> (within: bool)
    ensures
        within == (forall|n: int| 0 <= n <= s.len() ==> #[trigger] nesting(s@, n) <= MAX_NESTING),
{
    let mut count: usize = 0;
    let mut leading = true;
    let mut quoted = false;
    let mut tags = false;
    let mut i: usize = 0;
    while i < s.len()
        invariant
            i <= s.len(),
            count == nesting(s@, i as int),
            forall|n: int| 0 <= n <= i ==> #[trigger] nesting(s@, n) <= MAX_NESTING,
            leading == (i == 0 || s[i - 1] == '\n' || leads(s@, i - 1)),
            quoted == after_apostrophe(s@, i as int),
            tags == tagged(s@, i as int),
        decreases s.len() - i,
    {
        let c = s[i];
        if !tags && i >= 2 && s[i - 1] == '\n' && s[i - 2] == '\n' && c != '>' && c != ' ' && c
            != '\n' && c != '\r' {
            count = 0;
        }
        let leads_here = leading && char_is_mark(c);
        let depth: usize = if c == '<' && quoted {
            4
        } else if leads_here && c == '>' {
            1
        } else if leads_here && c == ' ' && i > 0 && char_ends_bullet(s[i - 1]) {
            2
        } else {
            0
        };
        assert(depth == depth_at(s@, i as int));
        if depth > MAX_NESTING - count {
            assert(nesting(s@, i + 1) > MAX_NESTING);
            return false;
        }
        count += depth;
        tags = tags || (c == '<' && quoted);
        leading = c == '\n' || leads_here;
        quoted = c != '\n' && (c == '\'' || quoted);
        i += 1;
    }
    true
}

/// Decides [`renderable`].
pub fn is_renderable(text: &str) -> (b: bool)
    ensures
        b == renderable(text@),
{
    let s = chars_of(text);
    let n = s.len();
    let mut start: usize = 0;
    loop
        invariant
            s@ == text@,
            n == s.len(),
            start <= n,
            start == 0 || s[start - 1] == '\n',
            forall|a: int, b: int| #[trigger] is_line(s@, a, b) && b < start ==> line_ok(s@, a, b),
        decreases n - start,
    {
        let end = line_end(&s, start);
        if !line_is_ok(&s, start, end) {
            return false;
        }
        assert forall|a: int, b: int| #[trigger] is_line(s@, a, b) && b <= end implies line_ok(
            s@,
            a,
            b,
        ) by {
            if b >= start {
                assert(b == end);
                assert(a == start);
            }
        }
        if end == n {
            return nesting_within(&s);
        }
        start = end + 1;
    }
}

} // verus!
