//! Plain-text normalisation: every run of whitespace becomes one ASCII space.

use vstd::prelude::*;
use vstd::std_specs::iter::IteratorSpec;
use vstd::string::{axiom_spec_iter, next_postcondition, StringExecFns};
use crate::model::text_views;
use crate::outside::{html_text_nodes, text_nodes};

verus! {

/// How plain text is normalised.
#[derive(Clone, Copy, Debug, PartialEq, Eq, Structural)]
pub enum TextPolicy {
    /// Collapse whitespace, nothing more.
    Collapse,
    /// Collapse whitespace and put a soft break after an overlong token.
    SoftBreak,
}

/// A token with more characters than this gets a soft break after it.
pub const LONG_TOKEN: usize = 30;

/// The characters that separate words: those with the Unicode property White_Space.
pub open spec fn is_space(c: char) -> bool {
    let n = c as u32;
    ||| 0x09 <= n <= 0x0D
    ||| n == 0x20
    ||| n == 0x85
    ||| n == 0xA0
    ||| n == 0x1680
    ||| 0x2000 <= n <= 0x200A
    ||| n == 0x2028
    ||| n == 0x2029
    ||| n == 0x202F
    ||| n == 0x205F
    ||| n == 0x3000
}

/// The words of `s` in order, each two separated by a single space.
pub open spec fn collapse(s: Seq<char>) -> Seq<char>
    decreases s.len(),
{
    if s.len() == 0 {
        s
    } else {
        let p = s.drop_last();
        let c = s.last();
        if is_space(c) {
            collapse(p)
        } else if p.len() > 0 && !is_space(p.last()) {
            collapse(p).push(c)
        } else if collapse(p).len() == 0 {
            seq![c]
        } else {
            collapse(p).push(' ').push(c)
        }
    }
}

/// The number of characters of the word that `s` ends with, 0 where it ends with a space.
pub open spec fn tail_word_len(s: Seq<char>) -> nat
    decreases s.len(),
{
    if s.len() == 0 || is_space(s.last()) {
        0
    } else {
        tail_word_len(s.drop_last()) + 1
    }
}

/// The soft break that follows `t`: one space where `t` ends with an overlong token.
pub open spec fn soft_break(t: Seq<char>) -> Seq<char> {
    if tail_word_len(t) > LONG_TOKEN {
        seq![' ']
    } else {
        Seq::empty()
    }
}

/// The normal form of `s` under `policy`: its words, each two separated by a
/// single space. Under `SoftBreak` a space also follows an overlong token; between
/// two words that space is the separator itself, so that the policies differ
/// only where the last token is overlong.
pub open spec fn normalize(s: Seq<char>, policy: TextPolicy) -> Seq<char> {
    match policy {
        TextPolicy::Collapse => collapse(s),
        TextPolicy::SoftBreak => collapse(s) + soft_break(collapse(s)),
    }
}

/// A text in which nothing is left to collapse, but for one space at its end: it starts
/// with a word, its only separator is the ASCII space, and no two separators meet.
pub open spec fn tidy(t: Seq<char>) -> bool {
    &&& t.len() > 0 ==> !is_space(t[0])
    &&& forall|i: int|
        0 <= i < t.len() && is_space(#[trigger] t[i]) ==> t[i] == ' ' && (i + 1 < t.len()
            ==> !is_space(t[i + 1]))
}

/// The words of `s`: its maximal runs of characters that are no separators, in order.
pub open spec fn words(s: Seq<char>) -> Seq<Seq<char>>
    decreases s.len(),
{
    if s.len() == 0 {
        Seq::empty()
    } else {
        let p = s.drop_last();
        let c = s.last();
        if is_space(c) {
            words(p)
        } else if p.len() > 0 && !is_space(p.last()) {
            words(p).drop_last().push(words(p).last().push(c))
        } else {
            words(p).push(seq![c])
        }
    }
}

/// Collapsed text is tidy and ends with the last character of its last word.
pub proof fn lemma_collapse_tidy(s: Seq<char>)
    ensures
        tidy(collapse(s)),
        collapse(s).len() > 0 ==> !is_space(collapse(s).last()),
        s.len() > 0 && !is_space(s.last()) ==> collapse(s).len() > 0 && collapse(s).last()
            == s.last(),
    decreases s.len(),
{
    if s.len() > 0 {
        lemma_collapse_tidy(s.drop_last());
        assert(is_space(' '));
    }
}

/// Collapsing a tidy text removes at most the one space at its end.
pub proof fn lemma_collapse_of_tidy(t: Seq<char>)
    requires
        tidy(t),
    ensures
        collapse(t) == if t.len() > 0 && is_space(t.last()) {
            t.drop_last()
        } else {
            t
        },
    decreases t.len(),
{
    if t.len() > 0 {
        let p = t.drop_last();
        let c = t.last();
        assert(tidy(p)) by {
            assert forall|i: int| 0 <= i < p.len() && is_space(#[trigger] p[i]) implies p[i] == ' '
                && (i + 1 < p.len() ==> !is_space(p[i + 1])) by {
                assert(p[i] == t[i]);
            }
        }
        lemma_collapse_of_tidy(p);
        if p.len() > 0 {
            assert(p.last() == t[t.len() - 2]);
        }
        if is_space(c) {
            assert(collapse(t) =~= t.drop_last());
        } else if p.len() > 0 && is_space(p.last()) {
            assert(p[0] == t[0]);
            assert(p.drop_last().push(' ').push(c) =~= t);
        } else {
            assert(collapse(t) =~= t);
        }
    }
}

/// Collapsing twice gives what collapsing once gives.
pub proof fn lemma_collapse_idempotent(s: Seq<char>)
    ensures
        collapse(collapse(s)) == collapse(s),
{
    lemma_collapse_tidy(s);
    lemma_collapse_of_tidy(collapse(s));
}

/// Normalisation is idempotent under either policy.
pub proof fn lemma_normalize_idempotent(s: Seq<char>, policy: TextPolicy)
    ensures
        normalize(normalize(s, policy), policy) == normalize(s, policy),
{
    lemma_collapse_idempotent(s);
    let t = collapse(s);
    if policy == TextPolicy::SoftBreak && tail_word_len(t) > LONG_TOKEN {
        let n = t + soft_break(t);
        assert(n =~= t.push(' '));
        assert(is_space(' '));
        assert(n.drop_last() =~= t);
    } else {
        assert(t + Seq::<char>::empty() =~= t);
    }
}

/// Normalised text starts with a word, separates words by the ASCII space
/// alone, and has no two separators in a row.
pub proof fn lemma_normalize_tidy(s: Seq<char>, policy: TextPolicy)
    ensures
        tidy(normalize(s, policy)),
        policy == TextPolicy::Collapse && normalize(s, policy).len() > 0 ==> !is_space(
            normalize(s, policy).last(),
        ),
{
    lemma_collapse_tidy(s);
    let t = collapse(s);
    if policy == TextPolicy::SoftBreak && tail_word_len(t) > LONG_TOKEN {
        assert(t + soft_break(t) =~= t.push(' '));
    } else {
        assert(t + Seq::<char>::empty() =~= t);
    }
}

/// Normalisation keeps every word and their order: it changes only what separates them.
pub proof fn lemma_normalize_keeps_words(s: Seq<char>, policy: TextPolicy)
    ensures
        words(normalize(s, policy)) == words(s),
{
    lemma_collapse_keeps_words(s);
    let t = collapse(s);
    assert(is_space(' '));
    if policy == TextPolicy::SoftBreak && tail_word_len(t) > LONG_TOKEN {
        assert((t + soft_break(t)).drop_last() =~= t);
    } else {
        assert(t + Seq::<char>::empty() =~= t);
    }
}

/// Collapsing keeps every word and their order.
pub proof fn lemma_collapse_keeps_words(s: Seq<char>)
    ensures
        words(collapse(s)) == words(s),
    decreases s.len(),
{
    if s.len() > 0 {
        let p = s.drop_last();
        let c = s.last();
        lemma_collapse_keeps_words(p);
        lemma_collapse_tidy(p);
        assert(is_space(' '));
        if is_space(c) {
        } else if p.len() > 0 && !is_space(p.last()) {
            let cp = collapse(p);
            assert(cp.push(c).drop_last() =~= cp);
            assert(words(cp.push(c)) == words(cp).drop_last().push(words(cp).last().push(c)));
        } else if collapse(p).len() == 0 {
            assert(collapse(p) =~= Seq::<char>::empty());
            assert(seq![c].drop_last() =~= Seq::<char>::empty());
            assert(seq![c].last() == c);
            assert(words(seq![c]) == words(Seq::<char>::empty()).push(seq![c]));
        } else {
            let q = collapse(p).push(' ');
            assert(q.push(c).drop_last() =~= q);
            assert(q.drop_last() =~= collapse(p));
            assert(words(q) == words(collapse(p)));
            assert(words(q.push(c)) == words(q).push(seq![c]));
        }
    }
}

/// Tells whether `c` separates words.
pub fn is_whitespace(c: char) -> (r: bool)
    ensures
        r == is_space(c),
{
    let n: u32 = c as u32;
    (0x09 <= n && n <= 0x0D) || n == 0x20 || n == 0x85 || n == 0xA0 || n == 0x1680 || (0x2000 <= n
        && n <= 0x200A) || n == 0x2028 || n == 0x2029 || n == 0x202F || n == 0x205F || n == 0x3000
}

/// `String::push` appends the one character to the string.
pub assume_specification[ String::push ](s: &mut String, c: char)
    ensures
        final(s)@ == old(s)@.push(c),
;

/// The characters of `s`, in order.
pub fn chars_of(s: &str) -> (r: Vec<char>)
    ensures
        r@ == s@,
{
    let mut out: Vec<char> = Vec::new();
    let mut it = s.chars();
    proof {
        broadcast use axiom_spec_iter;
        assert(out@ + it.remaining() == s@);
    }
    loop
        invariant
            out@ + it.remaining() == s@,
            it.decrease() is Some,
        ensures
            out@ == s@,
        decreases it.decrease()->0,
    {
        let step = it.next();
        proof {
            broadcast use next_postcondition;
        }
        match step {
            None => {
                proof {
                    assert(out@ =~= s@);
                }
                break ;
            },
            Some(c) => {
                out.push(c);
                proof {
                    assert(out@ + it.remaining() == s@);
                }
            },
        }
    }
    out
}

/// The fragments in order, each two separated by a single space.
pub open spec fn join_spaced(parts: Seq<Seq<char>>) -> Seq<char>
    decreases parts.len(),
{
    if parts.len() == 0 {
        Seq::empty()
    } else if parts.len() == 1 {
        parts[0]
    } else {
        join_spaced(parts.drop_last()) + seq![' '] + parts.last()
    }
}

/// Joins the fragments with single spaces.
pub fn join_fragments(parts: &Vec<String>) -> (r: String)
    ensures
        r@ == join_spaced(text_views(parts@)),
{
    let mut out = String::new();
    let mut i: usize = 0;
    let ghost views = text_views(parts@);
    while i < parts.len()
        invariant
            i <= parts.len(),
            views == text_views(parts@),
            out@ == join_spaced(views.take(i as int)),
        decreases parts.len() - i,
    {
        if i > 0 {
            out.push(' ');
        }
        out.append(parts[i].as_str());
        proof {
            let next = views.take(i + 1);
            assert(next.drop_last() =~= views.take(i as int));
            assert(next.last() == parts@[i as int]@);
            assert(seq![' '] =~= Seq::<char>::empty().push(' '));
            if i == 0 {
                assert(out@ =~= next[0]);
            } else {
                assert(out@ =~= join_spaced(next.drop_last()) + seq![' '] + next.last());
            }
        }
        i = i + 1;
    }
    proof {
        assert(views.take(i as int) =~= views);
    }
    out
}

/// The plain text of a content's text fragments: joined with single spaces,
/// then normalised under `policy`.
pub fn plain_text(parts: &Vec<String>, policy: TextPolicy) -> (r: String)
    ensures
        r@ == normalize(join_spaced(text_views(parts@)), policy),
{
    let joined = join_fragments(parts);
    normalize_text(joined.as_str(), policy)
}

/// The plain text of an HTML fragment: its text nodes joined with single
/// spaces, then normalised under `policy`.
pub fn clean_content(html: &str, policy: TextPolicy) -> (r: String)
    ensures
        r@ == normalize(join_spaced(text_nodes(html@)), policy),
{
    let parts = html_text_nodes(html);
    plain_text(&parts, policy)
}

/// Normalises `s` under `policy`.
pub fn normalize_text(s: &str, policy: TextPolicy) -> (r: String)
    ensures
        r@ == normalize(s@, policy),
{
    let mut out = String::new();
    let mut it = s.chars();
    let mut in_word = false;
    let mut started = false;
    let mut word_len: usize = 0;
    let ghost mut seen: Seq<char> = Seq::empty();
    proof {
        broadcast use axiom_spec_iter;
        assert(seen + it.remaining() == s@);
    }
    loop
        invariant
            seen + it.remaining() == s@,
            it.decrease() is Some,
            started == (out@.len() > 0),
            out@ == collapse(seen),
            in_word == (seen.len() > 0 && !is_space(seen.last())),
            word_len <= LONG_TOKEN + 1,
            tail_word_len(out@) > LONG_TOKEN <==> word_len > LONG_TOKEN,
            tail_word_len(out@) <= LONG_TOKEN ==> word_len == tail_word_len(out@),
        ensures
            seen == s@,
        decreases it.decrease()->0,
    {
        let step = it.next();
        proof {
            broadcast use next_postcondition;
        }
        match step {
            None => {
                proof {
                    assert(seen =~= s@);
                }
                break ;
            },
            Some(c) => {
                proof {
                    assert(seen.push(c).drop_last() == seen);
                    assert(seen.push(c) + it.remaining() == s@);
                    seen = seen.push(c);
                }
                if is_whitespace(c) {
                    in_word = false;
                } else {
                    if !in_word {
                        if started {
                            out.push(' ');
                        }
                        word_len = 0;
                    }
                    let ghost head = out@;
                    proof {
                        assert(is_space(' '));
                        assert(!in_word ==> tail_word_len(head) == 0);
                    }
                    out.push(c);
                    proof {
                        assert(out@.last() == c);
                        assert(tail_word_len(out@) == tail_word_len(out@.drop_last()) + 1);
                        assert(out@.drop_last() =~= head);
                        assert(is_space(' '));
                        assert(seq![c] =~= Seq::<char>::empty().push(c));
                        if head.len() > 0 && !in_word {
                            assert(head.last() == ' ');
                        }
                    }
                    in_word = true;
                    started = true;
                    if word_len <= LONG_TOKEN {
                        word_len = word_len + 1;
                    }
                }
            },
        }
    }
    if policy == TextPolicy::SoftBreak && word_len > LONG_TOKEN {
        out.push(' ');
    }
    proof {
        assert(out@ =~= normalize(s@, policy));
    }
    out
}

} // verus!
