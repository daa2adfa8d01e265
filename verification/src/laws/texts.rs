//! What the operations on text come to.

use vstd::prelude::*;

verus! {

/// So many copies of one character.
pub open spec fn copies(mark: char, n: nat) -> Seq<char> {
    Seq::new(n, |i: int| mark)
}

/// Joining two lists comes to joining each and putting the separator in between; a list of one part
/// is that part, and the empty list is the empty text.
pub proof fn law_joining_is_putting_together(
    a: Seq<Seq<char>>,
    b: Seq<Seq<char>>,
    part: Seq<char>,
    separator: Seq<char>,
)
    ensures
        crate::text::joined(Seq::empty(), separator) == Seq::<char>::empty(),
        crate::text::joined(seq![part], separator) == part,
        a.len() > 0 && b.len() > 0 ==> crate::text::joined(a + b, separator)
            == crate::text::joined(a, separator) + separator + crate::text::joined(b, separator),
    decreases b.len(),
{
    if a.len() > 0 && b.len() > 0 {
        assert((a + b).drop_last() =~= a + b.drop_last());
        let x = crate::text::joined(a, separator);
        if b.len() == 1 {
            assert(a + b.drop_last() =~= a);
            assert((a + b).last() == b[0]);
        } else {
            let y = crate::text::joined(b.drop_last(), separator);
            law_joining_is_putting_together(a, b.drop_last(), part, separator);
            assert((a + b).last() == b.last());
            assert(x + separator + y + separator + b.last() =~= x + separator + (y + separator
                + b.last()));
        }
    }
}

/// A text occurs in another exactly when that one is the text with something before and something
/// behind it.
pub proof fn law_occurring_is_standing_between(
    needle: Seq<char>,
    text: Seq<char>,
    before: Seq<char>,
    behind: Seq<char>,
)
    ensures
        crate::text::occurs_in(needle, before + needle + behind),
        crate::text::occurs_in(needle, text) ==> exists|a: Seq<char>, b: Seq<char>|
            text == #[trigger] (a + needle + b),
{
    let whole = before + needle + behind;
    let start = before.len() as int;
    assert(whole.subrange(start, start + needle.len()) =~= needle);
    assert(crate::text::occurs_at(needle, whole, start));
    if crate::text::occurs_in(needle, text) {
        let i = choose|i: int| crate::text::occurs_at(needle, text, i);
        assert(text =~= text.take(i) + needle + text.skip(i + needle.len())) by {
            assert(text.subrange(i, i + needle.len()) == needle);
            assert forall|k: int| 0 <= k < needle.len() implies text[i + k] == needle[k] by {
                assert(text.subrange(i, i + needle.len())[k] == needle[k]);
            }
        }
    }
}

/// Trimming takes off copies of the mark, all of them, and nothing else.
pub proof fn law_trimming_takes_off_copies(text: Seq<char>, mark: char)
    ensures
        ({
            let kept = crate::text::trimmed_end(text, mark);
            &&& kept.len() <= text.len()
            &&& text == kept + copies(mark, (text.len() - kept.len()) as nat)
            &&& kept.len() > 0 ==> kept.last() != mark
        }),
    decreases text.len(),
{
    let kept = crate::text::trimmed_end(text, mark);
    if text.len() > 0 && text.last() == mark {
        law_trimming_takes_off_copies(text.drop_last(), mark);
        let n = (text.len() - 1 - kept.len()) as nat;
        assert(text.drop_last() == kept + copies(mark, n));
        assert forall|i: int| 0 <= i < text.len() implies text[i] == (kept + copies(mark, n + 1))[i] by {
            if i < text.len() - 1 {
                assert(text[i] == text.drop_last()[i]);
            }
        }
        assert(text =~= kept + copies(mark, n + 1));
    } else {
        assert(text =~= kept + copies(mark, 0));
    }
}

/// The views of a list of strings are those of its strings, one by one.
pub proof fn law_views_of_strings(parts: Seq<String>)
    ensures
        crate::text::views(parts).len() == parts.len(),
        forall|i: int|
            0 <= i < parts.len() ==> #[trigger] crate::text::views(parts)[i] == parts[i]@,
{
}

} // verus!
