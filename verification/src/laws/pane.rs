//! What counts as a change of a pane.

use crate::notify::pane_unchanged;
use crate::text::{is_white_space, trimmed, trimmed_end, trimmed_start};
use vstd::prelude::*;

verus! {

/// Nothing but white space.
pub open spec fn all_white(s: Seq<char>) -> bool {
    forall|i: int| 0 <= i < s.len() ==> is_white_space(#[trigger] s[i])
}

proof fn lemma_start_padded(pad: Seq<char>, s: Seq<char>)
    requires
        all_white(pad),
    ensures
        trimmed_start(pad + s) == trimmed_start(s),
    decreases pad.len(),
{
    if pad.len() == 0 {
        assert(pad + s =~= s);
    } else {
        assert(is_white_space(pad[0]));
        assert((pad + s).first() == pad[0]);
        assert((pad + s).drop_first() =~= pad.drop_first() + s);
        lemma_start_padded(pad.drop_first(), s);
    }
}

proof fn lemma_end_padded(s: Seq<char>, pad: Seq<char>)
    requires
        all_white(pad),
    ensures
        trimmed_end(s + pad) == trimmed_end(s),
    decreases pad.len(),
{
    if pad.len() == 0 {
        assert(s + pad =~= s);
    } else {
        assert(is_white_space(pad[pad.len() - 1]));
        assert((s + pad).last() == pad.last());
        assert((s + pad).drop_last() =~= s + pad.drop_last());
        lemma_end_padded(s, pad.drop_last());
    }
}

proof fn lemma_start_of_white(s: Seq<char>)
    requires
        all_white(s),
    ensures
        trimmed_start(s) == Seq::<char>::empty(),
{
    lemma_start_padded(s, seq![]);
    assert(s + seq![] =~= s);
    assert(trimmed_start(seq![]) =~= Seq::<char>::empty());
}

proof fn lemma_start_before_pad(s: Seq<char>, pad: Seq<char>)
    requires
        !all_white(s),
    ensures
        trimmed_start(s + pad) == trimmed_start(s) + pad,
    decreases s.len(),
{
    if is_white_space(s.first()) {
        let rest = s.drop_first();
        if all_white(rest) {
            assert forall|i: int| 0 <= i < s.len() implies is_white_space(#[trigger] s[i]) by {
                if i > 0 {
                    assert(rest[i - 1] == s[i]);
                }
            }
        }
        lemma_start_before_pad(rest, pad);
        assert((s + pad).first() == s.first());
        assert((s + pad).drop_first() =~= rest + pad);
    } else {
        assert((s + pad).first() == s.first());
    }
}

/// White space at either end of what a pane shows is no change.
pub proof fn law_white_space_is_no_change(head: Seq<char>, content: Seq<char>, tail: Seq<char>)
    requires
        all_white(head),
        all_white(tail),
    ensures
        pane_unchanged(content, head + content + tail),
        pane_unchanged(head + content + tail, content),
{
    assert(head + content + tail =~= head + (content + tail));
    lemma_start_padded(head, content + tail);
    if all_white(content) {
        assert(all_white(content + tail));
        lemma_start_of_white(content);
        lemma_start_of_white(content + tail);
    } else {
        lemma_start_before_pad(content, tail);
        lemma_end_padded(trimmed_start(content), tail);
    }
}

proof fn lemma_start_within(s: Seq<char>)
    ensures
        exists|k: int|
            0 <= k <= s.len() && trimmed_start(s) == #[trigger] s.subrange(k, s.len() as int)
                && all_white(s.subrange(0, k)),
    decreases s.len(),
{
    if s.len() > 0 && is_white_space(s.first()) {
        let rest = s.drop_first();
        lemma_start_within(rest);
        let k = choose|k: int|
            0 <= k <= rest.len() && trimmed_start(rest) == #[trigger] rest.subrange(
                k,
                rest.len() as int,
            ) && all_white(rest.subrange(0, k));
        assert(rest.subrange(k, rest.len() as int) =~= s.subrange(k + 1, s.len() as int));
        assert forall|i: int| 0 <= i < k + 1 implies is_white_space(
            #[trigger] s.subrange(0, k + 1)[i],
        ) by {
            if i > 0 {
                assert(rest.subrange(0, k)[i - 1] == s[i]);
            }
        }
    } else {
        assert(s.subrange(0, s.len() as int) =~= s);
        assert(all_white(s.subrange(0, 0)));
    }
}

proof fn lemma_end_within(s: Seq<char>)
    ensures
        exists|k: int|
            0 <= k <= s.len() && trimmed_end(s) == #[trigger] s.subrange(0, k) && all_white(
                s.subrange(k, s.len() as int),
            ),
    decreases s.len(),
{
    if s.len() > 0 && is_white_space(s.last()) {
        let rest = s.drop_last();
        lemma_end_within(rest);
        let k = choose|k: int|
            0 <= k <= rest.len() && trimmed_end(rest) == #[trigger] rest.subrange(0, k)
                && all_white(rest.subrange(k, rest.len() as int));
        assert(rest.subrange(0, k) =~= s.subrange(0, k));
        assert forall|i: int| 0 <= i < s.len() - k implies is_white_space(
            #[trigger] s.subrange(k, s.len() as int)[i],
        ) by {
            if i < rest.len() - k {
                assert(rest.subrange(k, rest.len() as int)[i] == s[k + i]);
            }
        }
    } else {
        assert(s.subrange(0, s.len() as int) =~= s);
        assert(all_white(s.subrange(s.len() as int, s.len() as int)));
    }
}

/// Whatever else differs is a change: two panes are the same only if they show
/// the same text between white space.
pub proof fn law_unchanged_means_same_text(before: Seq<char>, now: Seq<char>)
    requires
        pane_unchanged(before, now),
    ensures
        exists|text: Seq<char>, a: Seq<char>, b: Seq<char>, c: Seq<char>, d: Seq<char>|
            all_white(a) && all_white(b) && all_white(c) && all_white(d) && before == #[trigger] (a
                + text + b) && now == #[trigger] (c + text + d),
{
    let (a, b) = lemma_trimmed_within(before);
    let (c, d) = lemma_trimmed_within(now);
    let text = trimmed(before);
    assert(before == a + text + b);
    assert(now == c + text + d);
}

proof fn lemma_trimmed_within(s: Seq<char>) -> (ends: (Seq<char>, Seq<char>))
    ensures
        all_white(ends.0),
        all_white(ends.1),
        s == ends.0 + trimmed(s) + ends.1,
{
    lemma_start_within(s);
    let k = choose|k: int|
        0 <= k <= s.len() && trimmed_start(s) == #[trigger] s.subrange(k, s.len() as int)
            && all_white(s.subrange(0, k));
    let t = trimmed_start(s);
    lemma_end_within(t);
    let m = choose|m: int|
        0 <= m <= t.len() && trimmed_end(t) == #[trigger] t.subrange(0, m) && all_white(
            t.subrange(m, t.len() as int),
        );
    assert(s =~= s.subrange(0, k) + trimmed(s) + t.subrange(m, t.len() as int));
    (s.subrange(0, k), t.subrange(m, t.len() as int))
}

/// What is trimmed from a text is white space at its two ends and nothing else.
pub proof fn law_only_white_space_is_trimmed(s: Seq<char>) -> (ends: (Seq<char>, Seq<char>))
    ensures
        all_white(ends.0),
        all_white(ends.1),
        s == ends.0 + trimmed(s) + ends.1,
{
    lemma_trimmed_within(s)
}

/// White space at either end of what a pane shows may differ in any way.
pub proof fn law_white_space_may_differ(
    a: Seq<char>,
    b: Seq<char>,
    content: Seq<char>,
    c: Seq<char>,
    d: Seq<char>,
)
    requires
        all_white(a),
        all_white(b),
        all_white(c),
        all_white(d),
    ensures
        pane_unchanged(a + content + b, c + content + d),
{
    law_white_space_is_no_change(a, content, b);
    law_white_space_is_no_change(c, content, d);
}

/// A text that neither begins nor ends with white space is trimmed to itself,
/// whatever white space it stands in.
pub proof fn law_text_between_white_space_is_kept(
    head: Seq<char>,
    content: Seq<char>,
    tail: Seq<char>,
)
    requires
        all_white(head),
        all_white(tail),
        content.len() > 0 ==> !is_white_space(content.first()) && !is_white_space(content.last()),
    ensures
        trimmed(head + content + tail) == content,
{
    law_white_space_is_no_change(head, content, tail);
}

/// The characters that are white space, by their numbers.
pub proof fn law_white_space_characters(c: char)
    ensures
        is_white_space(c) <==> seq![
            0x09u32,
            0x0au32,
            0x0bu32,
            0x0cu32,
            0x0du32,
            0x20u32,
            0x85u32,
            0xa0u32,
            0x1680u32,
            0x2000u32,
            0x2001u32,
            0x2002u32,
            0x2003u32,
            0x2004u32,
            0x2005u32,
            0x2006u32,
            0x2007u32,
            0x2008u32,
            0x2009u32,
            0x200au32,
            0x2028u32,
            0x2029u32,
            0x202fu32,
            0x205fu32,
            0x3000u32,
        ].contains(c as u32),
{
    let u = c as u32;
    let all = seq![
        0x09u32, 0x0au32, 0x0bu32, 0x0cu32, 0x0du32, 0x20u32, 0x85u32, 0xa0u32, 0x1680u32,
        0x2000u32, 0x2001u32, 0x2002u32, 0x2003u32, 0x2004u32, 0x2005u32, 0x2006u32, 0x2007u32,
        0x2008u32, 0x2009u32, 0x200au32, 0x2028u32, 0x2029u32, 0x202fu32, 0x205fu32, 0x3000u32,
    ];
    if is_white_space(c) {
        let i: int = if 0x09 <= u <= 0x0d {
            u - 0x09
        } else if u == 0x20 {
            5
        } else if u == 0x85 {
            6
        } else if u == 0xa0 {
            7
        } else if u == 0x1680 {
            8
        } else if 0x2000 <= u <= 0x200a {
            9 + (u - 0x2000)
        } else if u == 0x2028 {
            20
        } else if u == 0x2029 {
            21
        } else if u == 0x202f {
            22
        } else if u == 0x205f {
            23
        } else {
            24
        };
        assert(all[i] == u);
    }
}

} // verus!
