//! Sanitization of text returned by the rewriting service: strip one
//! layer of surrounding quotes, one boilerplate lead-in prefix, and
//! surrounding whitespace.

use vstd::prelude::*;
use vstd::string::*;

verus! {

/// The characters with the Unicode `White_Space` property: exactly the
/// set that `str::trim` removes from the ends of a string.
pub open spec fn spec_is_whitespace(c: char) -> bool {
    let n = c as u32;
    n == 0x9 || n == 0xA || n == 0xB || n == 0xC || n == 0xD || n == 0x20 || n == 0x85
        || n == 0xA0 || n == 0x1680 || (0x2000 <= n && n <= 0x200A) || n == 0x2028
        || n == 0x2029 || n == 0x202F || n == 0x205F || n == 0x3000
}

pub fn is_whitespace_char(c: char) -> (r: bool)
    ensures
        r == spec_is_whitespace(c),
{
    let n = c as u32;
    n == 0x9 || n == 0xA || n == 0xB || n == 0xC || n == 0xD || n == 0x20 || n == 0x85
        || n == 0xA0 || n == 0x1680 || (0x2000 <= n && n <= 0x200A) || n == 0x2028
        || n == 0x2029 || n == 0x202F || n == 0x205F || n == 0x3000
}

/// A straight double quote or a single quote.
pub open spec fn spec_is_quote(c: char) -> bool {
    c == '"' || c == '\''
}

pub fn is_quote_char(c: char) -> (r: bool)
    ensures
        r == spec_is_quote(c),
{
    c == '"' || c == '\''
}

/// `p` is an initial segment of `s`.
pub open spec fn starts_with(s: Seq<char>, p: Seq<char>) -> bool {
    p.len() <= s.len() && s.take(p.len() as int) == p
}

/// Remove at most one leading and at most one trailing quote character.
pub open spec fn spec_strip_quotes(s: Seq<char>) -> Seq<char> {
    let a = if s.len() > 0 && spec_is_quote(s[0]) {
        s.subrange(1, s.len() as int)
    } else {
        s
    };
    if a.len() > 0 && spec_is_quote(a[a.len() - 1]) {
        a.subrange(0, a.len() - 1)
    } else {
        a
    }
}

/// `s` begins with one of the known boilerplate lead-ins.
pub open spec fn spec_has_boilerplate_prefix(s: Seq<char>) -> bool {
    starts_with(s, "Text:"@) || starts_with(s, "Improved text:"@) || starts_with(
        s,
        "Refactored text:"@,
    ) || starts_with(s, "Here's the improved text:"@) || starts_with(
        s,
        "The improved version:"@,
    ) || starts_with(s, "Improved:"@) || starts_with(s, "Refactored:"@)
}

/// Remove the first matching boilerplate lead-in, if any, trying the
/// known lead-ins in a fixed order.
pub open spec fn spec_strip_prefix(s: Seq<char>) -> Seq<char> {
    if starts_with(s, "Text:"@) {
        s.skip("Text:"@.len() as int)
    } else if starts_with(s, "Improved text:"@) {
        s.skip("Improved text:"@.len() as int)
    } else if starts_with(s, "Refactored text:"@) {
        s.skip("Refactored text:"@.len() as int)
    } else if starts_with(s, "Here's the improved text:"@) {
        s.skip("Here's the improved text:"@.len() as int)
    } else if starts_with(s, "The improved version:"@) {
        s.skip("The improved version:"@.len() as int)
    } else if starts_with(s, "Improved:"@) {
        s.skip("Improved:"@.len() as int)
    } else if starts_with(s, "Refactored:"@) {
        s.skip("Refactored:"@.len() as int)
    } else {
        s
    }
}

pub open spec fn spec_trim_start(s: Seq<char>) -> Seq<char>
    decreases s.len(),
{
    if s.len() > 0 && spec_is_whitespace(s[0]) {
        spec_trim_start(s.skip(1))
    } else {
        s
    }
}

pub open spec fn spec_trim_end(s: Seq<char>) -> Seq<char>
    decreases s.len(),
{
    if s.len() > 0 && spec_is_whitespace(s[s.len() - 1]) {
        spec_trim_end(s.take(s.len() - 1))
    } else {
        s
    }
}

/// What `str::trim` leaves: the string without leading and trailing
/// whitespace.
pub open spec fn spec_trim(s: Seq<char>) -> Seq<char> {
    spec_trim_end(spec_trim_start(s))
}

/// One sanitization pass: quotes, then one lead-in, then whitespace.
pub open spec fn spec_sanitize(s: Seq<char>) -> Seq<char> {
    spec_trim(spec_strip_prefix(spec_strip_quotes(s)))
}

/// Empty or whitespace-only.
pub open spec fn spec_is_blank(s: Seq<char>) -> bool {
    forall|i: int| 0 <= i < s.len() ==> spec_is_whitespace(s[i])
}

/// Whether the segment `s[start..end]` begins with `p`.
fn segment_starts_with(s: &str, start: usize, end: usize, p: &str) -> (r: bool)
    requires
        start <= end <= s@.len(),
    ensures
        r == starts_with(s@.subrange(start as int, end as int), p@),
{
    let plen = p.unicode_len();
    if end - start < plen {
        proof {
            assert(!starts_with(s@.subrange(start as int, end as int), p@));
        }
        return false;
    }
    let mut i: usize = 0;
    while i < plen
        invariant
            start <= end <= s@.len(),
            i <= plen == p@.len(),
            plen <= end - start,
            forall|j: int| 0 <= j < i ==> s@[start + j] == p@[j],
        decreases plen - i,
    {
        if s.get_char(start + i) != p.get_char(i) {
            proof {
                let seg = s@.subrange(start as int, end as int);
                assert(seg.take(p@.len() as int)[i as int] == s@[start + i]);
                assert(!starts_with(seg, p@));
            }
            return false;
        }
        i += 1;
    }
    proof {
        let seg = s@.subrange(start as int, end as int);
        assert(seg.take(p@.len() as int) =~= p@);
    }
    true
}

/// First index at or after `start` (up to `end`) whose character is not
/// whitespace; phrased through `spec_trim_start` on the segment.
fn scan_ws_start(s: &str, start: usize, end: usize) -> (r: usize)
    requires
        start <= end <= s@.len(),
    ensures
        start <= r <= end,
        spec_trim_start(s@.subrange(start as int, end as int)) == s@.subrange(
            r as int,
            end as int,
        ),
{
    let mut i: usize = start;
    while i < end && is_whitespace_char(s.get_char(i))
        invariant
            start <= i <= end <= s@.len(),
            spec_trim_start(s@.subrange(start as int, end as int)) == spec_trim_start(
                s@.subrange(i as int, end as int),
            ),
        decreases end - i,
    {
        proof {
            let cur = s@.subrange(i as int, end as int);
            assert(cur.skip(1) =~= s@.subrange(i + 1, end as int));
        }
        i += 1;
    }
    proof {
        let cur = s@.subrange(i as int, end as int);
        assert(spec_trim_start(cur) == cur);
    }
    i
}

/// One past the last index in `[start, end)` whose character is not
/// whitespace; phrased through `spec_trim_end` on the segment.
fn scan_ws_end(s: &str, start: usize, end: usize) -> (r: usize)
    requires
        start <= end <= s@.len(),
    ensures
        start <= r <= end,
        spec_trim_end(s@.subrange(start as int, end as int)) == s@.subrange(
            start as int,
            r as int,
        ),
{
    let mut i: usize = end;
    while i > start && is_whitespace_char(s.get_char(i - 1))
        invariant
            start <= i <= end <= s@.len(),
            spec_trim_end(s@.subrange(start as int, end as int)) == spec_trim_end(
                s@.subrange(start as int, i as int),
            ),
        decreases i - start,
    {
        proof {
            let cur = s@.subrange(start as int, i as int);
            assert(cur[cur.len() - 1] == s@[i - 1]);
            assert(cur.take(cur.len() - 1) =~= s@.subrange(start as int, i - 1));
        }
        i -= 1;
    }
    proof {
        let cur = s@.subrange(start as int, i as int);
        assert(spec_trim_end(cur) == cur);
    }
    i
}

/// Advance `start` past the first matching boilerplate lead-in of the
/// segment `s[start..end]`, if one matches.
fn scan_boilerplate_prefix(s: &str, start: usize, end: usize) -> (r: usize)
    requires
        start <= end <= s@.len(),
    ensures
        start <= r <= end,
        s@.subrange(r as int, end as int) == spec_strip_prefix(
            s@.subrange(start as int, end as int),
        ),
{
    let ghost seg = s@.subrange(start as int, end as int);
    if segment_starts_with(s, start, end, "Text:") {
        let r = start + "Text:".unicode_len();
        proof {
            assert(s@.subrange(r as int, end as int) =~= seg.skip("Text:"@.len() as int));
        }
        r
    } else if segment_starts_with(s, start, end, "Improved text:") {
        let r = start + "Improved text:".unicode_len();
        proof {
            assert(s@.subrange(r as int, end as int) =~= seg.skip("Improved text:"@.len() as int));
        }
        r
    } else if segment_starts_with(s, start, end, "Refactored text:") {
        let r = start + "Refactored text:".unicode_len();
        proof {
            assert(s@.subrange(r as int, end as int) =~= seg.skip(
                "Refactored text:"@.len() as int,
            ));
        }
        r
    } else if segment_starts_with(s, start, end, "Here's the improved text:") {
        let r = start + "Here's the improved text:".unicode_len();
        proof {
            assert(s@.subrange(r as int, end as int) =~= seg.skip(
                "Here's the improved text:"@.len() as int,
            ));
        }
        r
    } else if segment_starts_with(s, start, end, "The improved version:") {
        let r = start + "The improved version:".unicode_len();
        proof {
            assert(s@.subrange(r as int, end as int) =~= seg.skip(
                "The improved version:"@.len() as int,
            ));
        }
        r
    } else if segment_starts_with(s, start, end, "Improved:") {
        let r = start + "Improved:".unicode_len();
        proof {
            assert(s@.subrange(r as int, end as int) =~= seg.skip("Improved:"@.len() as int));
        }
        r
    } else if segment_starts_with(s, start, end, "Refactored:") {
        let r = start + "Refactored:".unicode_len();
        proof {
            assert(s@.subrange(r as int, end as int) =~= seg.skip("Refactored:"@.len() as int));
        }
        r
    } else {
        start
    }
}

/// What `str::trim` returns: `s` without leading and trailing
/// whitespace.
pub fn trim_text(s: &str) -> (r: String)
    ensures
        r@ == spec_trim(s@),
{
    let n = s.unicode_len();
    proof {
        assert(s@.subrange(0, n as int) =~= s@);
    }
    let a = scan_ws_start(s, 0, n);
    let b = scan_ws_end(s, a, n);
    s.substring_char(a, b).to_owned()
}

/// The sanitization pass applied to text coming back from the rewriting
/// service: one layer of surrounding quotes, at most one boilerplate
/// lead-in, then surrounding whitespace.
pub fn sanitize(s: &str) -> (r: String)
    ensures
        r@ == spec_sanitize(s@),
{
    let n = s.unicode_len();
    let mut start: usize = 0;
    let mut end: usize = n;
    if start < end && is_quote_char(s.get_char(start)) {
        start = 1;
    }
    proof {
        assert(s@.subrange(0, n as int) =~= s@);
        if s@.len() > 0 && spec_is_quote(s@[0]) {
            assert(s@.subrange(start as int, end as int) =~= s@.subrange(1, s@.len() as int));
        }
    }
    let ghost after_first = s@.subrange(start as int, end as int);
    if start < end && is_quote_char(s.get_char(end - 1)) {
        end = end - 1;
    }
    proof {
        if after_first.len() > 0 && spec_is_quote(after_first[after_first.len() - 1]) {
            assert(s@.subrange(start as int, end as int) =~= after_first.subrange(
                0,
                after_first.len() - 1,
            ));
        }
        assert(s@.subrange(start as int, end as int) == spec_strip_quotes(s@));
    }
    let start = scan_boilerplate_prefix(s, start, end);
    let a = scan_ws_start(s, start, end);
    let b = scan_ws_end(s, a, end);
    s.substring_char(a, b).to_owned()
}

/// Empty or whitespace-only, the condition under which captured text is
/// rejected before any network call.
pub fn is_blank(s: &str) -> (r: bool)
    ensures
        r == spec_is_blank(s@),
{
    let n = s.unicode_len();
    let mut i: usize = 0;
    while i < n
        invariant
            i <= n == s@.len(),
            forall|j: int| 0 <= j < i ==> spec_is_whitespace(s@[j]),
        decreases n - i,
    {
        if !is_whitespace_char(s.get_char(i)) {
            return false;
        }
        i += 1;
    }
    true
}

proof fn lemma_trim_start_no_leading_ws(s: Seq<char>)
    ensures
        spec_trim_start(s).len() > 0 ==> !spec_is_whitespace(spec_trim_start(s)[0]),
    decreases s.len(),
{
    if s.len() > 0 && spec_is_whitespace(s[0]) {
        lemma_trim_start_no_leading_ws(s.skip(1));
    }
}

proof fn lemma_trim_end_no_trailing_ws(s: Seq<char>)
    ensures
        spec_trim_end(s).len() > 0 ==> !spec_is_whitespace(
            spec_trim_end(s)[spec_trim_end(s).len() - 1],
        ),
    decreases s.len(),
{
    if s.len() > 0 && spec_is_whitespace(s[s.len() - 1]) {
        lemma_trim_end_no_trailing_ws(s.take(s.len() - 1));
    }
}

/// `spec_trim_end` keeps an initial segment of its input unchanged.
proof fn lemma_trim_end_is_prefix(s: Seq<char>)
    ensures
        spec_trim_end(s).len() <= s.len(),
        forall|i: int| 0 <= i < spec_trim_end(s).len() ==> spec_trim_end(s)[i] == s[i],
    decreases s.len(),
{
    if s.len() > 0 && spec_is_whitespace(s[s.len() - 1]) {
        let t = s.take(s.len() - 1);
        lemma_trim_end_is_prefix(t);
        assert forall|i: int| 0 <= i < spec_trim_end(s).len() implies spec_trim_end(s)[i]
            == s[i] by {
            assert(spec_trim_end(s)[i] == t[i]);
        }
    }
}

/// A trimmed string has no whitespace at either end.
proof fn lemma_trim_has_clean_ends(s: Seq<char>)
    ensures
        spec_trim(s).len() > 0 ==> !spec_is_whitespace(spec_trim(s)[0]),
        spec_trim(s).len() > 0 ==> !spec_is_whitespace(spec_trim(s)[spec_trim(s).len() - 1]),
{
    let a = spec_trim_start(s);
    lemma_trim_start_no_leading_ws(s);
    lemma_trim_end_no_trailing_ws(a);
    lemma_trim_end_is_prefix(a);
}

/// A string free of surrounding whitespace, surrounding quotes and
/// boilerplate lead-ins passes through sanitization unchanged.
proof fn lemma_sanitize_fixpoint(t: Seq<char>)
    requires
        t.len() > 0 ==> !spec_is_quote(t[0]),
        t.len() > 0 ==> !spec_is_quote(t[t.len() - 1]),
        t.len() > 0 ==> !spec_has_boilerplate_prefix(t),
        t.len() > 0 ==> !spec_is_whitespace(t[0]),
        t.len() > 0 ==> !spec_is_whitespace(t[t.len() - 1]),
    ensures
        spec_sanitize(t) == t,
{
    assert(spec_strip_quotes(t) == t);
    assert(spec_strip_prefix(t) == t);
    assert(spec_trim_start(t) == t);
    assert(spec_trim_end(t) == t);
}

proof fn lemma_trim_start_len(s: Seq<char>)
    ensures
        spec_trim_start(s).len() <= s.len(),
    decreases s.len(),
{
    if s.len() > 0 && spec_is_whitespace(s[0]) {
        lemma_trim_start_len(s.skip(1));
    }
}

proof fn lemma_trim_end_len(s: Seq<char>)
    ensures
        spec_trim_end(s).len() <= s.len(),
    decreases s.len(),
{
    if s.len() > 0 && spec_is_whitespace(s[s.len() - 1]) {
        lemma_trim_end_len(s.take(s.len() - 1));
    }
}

proof fn lemma_strip_quotes_len(s: Seq<char>)
    ensures
        spec_strip_quotes(s).len() <= s.len(),
        s.len() > 0 && (spec_is_quote(s[0]) || spec_is_quote(s[s.len() - 1]))
            ==> spec_strip_quotes(s).len() < s.len(),
{
}

proof fn lemma_strip_prefix_len(s: Seq<char>)
    ensures
        spec_strip_prefix(s).len() <= s.len(),
        spec_has_boilerplate_prefix(s) ==> spec_strip_prefix(s).len() < s.len(),
{
    reveal_strlit("Text:");
    reveal_strlit("Improved text:");
    reveal_strlit("Refactored text:");
    reveal_strlit("Here's the improved text:");
    reveal_strlit("The improved version:");
    reveal_strlit("Improved:");
    reveal_strlit("Refactored:");
}

/// The inputs the idempotence law leaves out genuinely fail it:
/// whenever one sanitization pass still ends in a surrounding quote or
/// still begins with a boilerplate lead-in, a second pass strictly
/// shrinks the text, so the two passes cannot agree.
pub proof fn lemma_sanitize_second_pass_shrinks(s: Seq<char>)
    requires
        spec_sanitize(s).len() > 0,
        spec_is_quote(spec_sanitize(s)[0]) || spec_is_quote(
            spec_sanitize(s)[spec_sanitize(s).len() - 1],
        ) || spec_has_boilerplate_prefix(spec_sanitize(s)),
    ensures
        spec_sanitize(spec_sanitize(s)).len() < spec_sanitize(s).len(),
{
    let t = spec_sanitize(s);
    let q = spec_strip_quotes(t);
    let p = spec_strip_prefix(q);
    lemma_strip_quotes_len(t);
    lemma_strip_prefix_len(q);
    lemma_trim_start_len(p);
    lemma_trim_end_len(spec_trim_start(p));
    if !(spec_is_quote(t[0]) || spec_is_quote(t[t.len() - 1])) {
        assert(q == t);
    }
}

/// Sanitization is idempotent on every input whose sanitized form is
/// free of surrounding quotes and of boilerplate lead-ins. (One pass
/// can expose a quote that a second pass would remove, as in a doubly
/// wrapped input: those inputs are the ones left out here.)
pub proof fn lemma_sanitize_idempotent(s: Seq<char>)
    requires
        spec_sanitize(s).len() > 0 ==> !spec_is_quote(spec_sanitize(s)[0]),
        spec_sanitize(s).len() > 0 ==> !spec_is_quote(
            spec_sanitize(s)[spec_sanitize(s).len() - 1],
        ),
        spec_sanitize(s).len() > 0 ==> !spec_has_boilerplate_prefix(spec_sanitize(s)),
    ensures
        spec_sanitize(spec_sanitize(s)) == spec_sanitize(s),
{
    lemma_trim_has_clean_ends(spec_strip_prefix(spec_strip_quotes(s)));
    lemma_sanitize_fixpoint(spec_sanitize(s));
}

} // verus!
