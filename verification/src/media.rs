//! The media type that a content-type header declares: what stands before the
//! first `;`, without the blanks around it, read without regard to ASCII case.

use vstd::prelude::*;
use crate::text::chars_of;

verus! {

/// The media type of HTML pages.
pub const HTML_TYPE: &'static str = "text/html";

/// The blanks that may surround a media type: the space and the tab.
pub open spec fn is_blank(c: char) -> bool {
    c == ' ' || c == '\t'
}

/// Where the media type's part of a header ends: at the first `;`, or at the
/// header's end where there is none.
pub open spec fn type_end(s: Seq<char>) -> int
    decreases s.len(),
{
    if s.len() == 0 || s[0] == ';' {
        0
    } else {
        1 + type_end(s.drop_first())
    }
}

/// `s` without the blanks it starts with.
pub open spec fn strip_leading(s: Seq<char>) -> Seq<char>
    decreases s.len(),
{
    if s.len() > 0 && is_blank(s[0]) {
        strip_leading(s.drop_first())
    } else {
        s
    }
}

/// `s` without the blanks it ends with.
pub open spec fn strip_trailing(s: Seq<char>) -> Seq<char>
    decreases s.len(),
{
    if s.len() > 0 && is_blank(s.last()) {
        strip_trailing(s.drop_last())
    } else {
        s
    }
}

/// The media type that a header declares, written as the header writes it.
pub open spec fn media_type(header: Seq<char>) -> Seq<char> {
    strip_trailing(strip_leading(header.take(type_end(header))))
}

/// An ASCII capital as its small letter, any other character as itself.
pub open spec fn ascii_lower(c: char) -> char {
    let n = c as u32;
    if 65 <= n <= 90 {
        (n + 32) as char
    } else {
        c
    }
}

/// Two texts that differ at most in the case of ASCII letters.
pub open spec fn same_ignoring_case(a: Seq<char>, b: Seq<char>) -> bool {
    &&& a.len() == b.len()
    &&& forall|i: int| 0 <= i < a.len() ==> ascii_lower(#[trigger] a[i]) == ascii_lower(b[i])
}

/// The header declares the media type of HTML pages.
pub open spec fn is_html_type(header: Seq<char>) -> bool {
    same_ignoring_case(media_type(header), HTML_TYPE@)
}

/// The media type's part ends at `e` where no `;` stands before `e` and one
/// stands at `e`, or the header ends there.
pub proof fn lemma_type_end(s: Seq<char>, e: int)
    requires
        0 <= e <= s.len(),
        forall|k: int| 0 <= k < e ==> s[k] != ';',
        e < s.len() ==> s[e] == ';',
    ensures
        type_end(s) == e,
    decreases e,
{
    if e > 0 {
        let t = s.drop_first();
        assert forall|k: int| 0 <= k < e - 1 implies t[k] != ';' by {
            assert(t[k] == s[k + 1]);
        }
        lemma_type_end(t, e - 1);
    }
}

/// Stripping the leading blanks skips the first `a` characters where those
/// are blanks and the next is none.
pub proof fn lemma_strip_leading(s: Seq<char>, a: int)
    requires
        0 <= a <= s.len(),
        forall|k: int| 0 <= k < a ==> is_blank(s[k]),
        a < s.len() ==> !is_blank(s[a]),
    ensures
        strip_leading(s) == s.skip(a),
    decreases a,
{
    if a > 0 {
        let t = s.drop_first();
        assert forall|k: int| 0 <= k < a - 1 implies is_blank(t[k]) by {
            assert(t[k] == s[k + 1]);
        }
        lemma_strip_leading(t, a - 1);
        assert(t.skip(a - 1) =~= s.skip(a));
    } else {
        assert(s.skip(0) =~= s);
    }
}

/// Stripping the trailing blanks keeps the first `b` characters where all
/// after them are blanks and the last of them is none.
pub proof fn lemma_strip_trailing(s: Seq<char>, b: int)
    requires
        0 <= b <= s.len(),
        forall|k: int| b <= k < s.len() ==> is_blank(s[k]),
        b > 0 ==> !is_blank(s[b - 1]),
    ensures
        strip_trailing(s) == s.take(b),
    decreases s.len() - b,
{
    if b < s.len() {
        let t = s.drop_last();
        lemma_strip_trailing(t, b);
        assert(t.take(b) =~= s.take(b));
    } else {
        assert(s.take(b) =~= s);
    }
}

/// The media type of a header is what stands from `a` to `b`, where the
/// type's part ends at `e`, blanks alone stand before `a` and from `b` to `e`,
/// and none stands at `a` or just before `b`.
pub proof fn lemma_media_type(s: Seq<char>, a: int, b: int, e: int)
    requires
        0 <= a <= b <= e <= s.len(),
        forall|k: int| 0 <= k < e ==> s[k] != ';',
        e < s.len() ==> s[e] == ';',
        forall|k: int| 0 <= k < a ==> is_blank(s[k]),
        a < e ==> !is_blank(s[a]),
        forall|k: int| b <= k < e ==> is_blank(s[k]),
        b > a ==> !is_blank(s[b - 1]),
    ensures
        media_type(s) == s.subrange(a, b),
{
    lemma_type_end(s, e);
    let t = s.take(e);
    lemma_strip_leading(t, a);
    let u = s.subrange(a, e);
    assert(t.skip(a) =~= u);
    lemma_strip_trailing(u, b - a);
    assert(u.take(b - a) =~= s.subrange(a, b));
}

/// Tells whether `c` is a blank.
pub fn is_blank_char(c: char) -> (r: bool)
    ensures
        r == is_blank(c),
{
    c == ' ' || c == '\t'
}

/// `c` without regard to ASCII case.
pub fn to_ascii_lower(c: char) -> (r: char)
    ensures
        r == ascii_lower(c),
{
    let n: u32 = c as u32;
    if 65 <= n && n <= 90 {
        ((n + 32) as u8) as char
    } else {
        c
    }
}

/// Tells whether two texts differ at most in the case of ASCII letters.
pub fn eq_ignoring_case(a: &str, b: &str) -> (r: bool)
    ensures
        r == same_ignoring_case(a@, b@),
{
    let x = chars_of(a);
    let y = chars_of(b);
    if x.len() != y.len() {
        return false;
    }
    let mut i: usize = 0;
    while i < x.len()
        invariant
            i <= x.len(),
            x.len() == y.len(),
            x@ == a@,
            y@ == b@,
            forall|k: int| 0 <= k < i ==> ascii_lower(#[trigger] x@[k]) == ascii_lower(y@[k]),
        decreases x.len() - i,
    {
        if to_ascii_lower(x[i]) != to_ascii_lower(y[i]) {
            return false;
        }
        i = i + 1;
    }
    true
}

/// The media type that a header declares.
pub fn media_type_of(header: &str) -> (r: String)
    ensures
        r@ == media_type(header@),
{
    let h = chars_of(header);
    let mut e: usize = 0;
    while e < h.len() && h[e] != ';'
        invariant
            e <= h.len(),
            forall|k: int| 0 <= k < e ==> h@[k] != ';',
        decreases h.len() - e,
    {
        e = e + 1;
    }
    let mut a: usize = 0;
    while a < e && is_blank_char(h[a])
        invariant
            a <= e <= h.len(),
            forall|k: int| 0 <= k < a ==> is_blank(h@[k]),
        decreases e - a,
    {
        a = a + 1;
    }
    let mut b: usize = e;
    while b > a && is_blank_char(h[b - 1])
        invariant
            a <= b <= e <= h.len(),
            forall|k: int| b <= k < e ==> is_blank(h@[k]),
        decreases b,
    {
        b = b - 1;
    }
    proof {
        lemma_media_type(h@, a as int, b as int, e as int);
    }
    let mut out = String::new();
    let mut i: usize = a;
    while i < b
        invariant
            a <= i <= b <= h.len(),
            out@ == h@.subrange(a as int, i as int),
        decreases b - i,
    {
        out.push(h[i]);
        proof {
            assert(out@ =~= h@.subrange(a as int, i + 1));
        }
        i = i + 1;
    }
    out
}

/// Tells whether a header declares the media type of HTML pages.
pub fn declares_html(header: &str) -> (r: bool)
    ensures
        r == is_html_type(header@),
{
    let declared = media_type_of(header);
    eq_ignoring_case(declared.as_str(), HTML_TYPE)
}

} // verus!
