//! Operations on text that the adapter needs, stated over the characters of a string.

use vstd::prelude::*;
use vstd::string::*;
use vstd::utf8::*;

verus! {

broadcast use vstd::string::group_string_axioms;

/// The items of `parts` in order, with `separator` between every two neighbours.
pub open spec fn joined(parts: Seq<Seq<char>>, separator: Seq<char>) -> Seq<char>
    decreases parts.len(),
{
    if parts.len() == 0 {
        Seq::empty()
    } else if parts.len() == 1 {
        parts[0]
    } else {
        joined(parts.drop_last(), separator) + separator + parts.last()
    }
}

/// `needle` occurs in `text` as a run of neighbouring characters.
pub open spec fn occurs_in(needle: Seq<char>, text: Seq<char>) -> bool {
    exists|i: int| #[trigger] occurs_at(needle, text, i)
}

/// `needle` stands in `text` with its first character at position `i`.
pub open spec fn occurs_at(needle: Seq<char>, text: Seq<char>, i: int) -> bool {
    &&& 0 <= i
    &&& i + needle.len() <= text.len()
    &&& text.subrange(i, i + needle.len()) == needle
}

/// `text` without the copies of `mark` that it ends in.
pub open spec fn trimmed_end(text: Seq<char>, mark: char) -> Seq<char>
    decreases text.len(),
{
    if text.len() > 0 && text.last() == mark {
        trimmed_end(text.drop_last(), mark)
    } else {
        text
    }
}

/// The views of a list of strings.
pub open spec fn views(parts: Seq<String>) -> Seq<Seq<char>> {
    parts.map_values(|part: String| part@)
}

/// Two strings hold the same characters exactly when their UTF-8 bytes are the same.
proof fn lemma_same_bytes_same_text(a: Seq<char>, b: Seq<char>)
    ensures
        (encode_utf8(a) == encode_utf8(b)) == (a == b),
{
    encode_utf8_decode_utf8(a);
    encode_utf8_decode_utf8(b);
}

/// Whether two strings hold the same characters.
pub fn text_eq(a: &str, b: &str) -> (same: bool)
    ensures
        same == (a@ == b@),
{
    let x: &[u8] = a.as_bytes();
    let y: &[u8] = b.as_bytes();
    proof {
        lemma_same_bytes_same_text(a@, b@);
    }
    if x.len() != y.len() {
        return false;
    }
    let mut i: usize = 0;
    while i < x.len()
        invariant
            x@.len() == y@.len(),
            i <= x@.len(),
            forall|j: int| 0 <= j < i ==> x@[j] == y@[j],
            x@ == encode_utf8(a@),
            y@ == encode_utf8(b@),
            (encode_utf8(a@) == encode_utf8(b@)) == (a@ == b@),
        decreases x@.len() - i,
    {
        if x[i] != y[i] {
            return false;
        }
        i += 1;
    }
    assert(x@ =~= y@);
    true
}

/// The two pieces one after the other.
pub fn text_concat(a: &str, b: &str) -> (whole: String)
    ensures
        whole@ == a@ + b@,
{
    let mut whole: String = a.to_owned();
    whole.append(b);
    whole
}

/// The parts in order, with the separator between every two neighbours.
pub fn text_join(parts: &Vec<String>, separator: &str) -> (whole: String)
    ensures
        whole@ == joined(views(parts@), separator@),
{
    let mut whole: String = String::new();
    let mut i: usize = 0;
    let ghost all = views(parts@);
    while i < parts.len()
        invariant
            i <= parts@.len(),
            all == views(parts@),
            whole@ == joined(all.take(i as int), separator@),
        decreases parts@.len() - i,
    {
        if i > 0 {
            whole.append(separator);
        }
        whole.append(parts[i].as_str());
        assert(all.take(i + 1).drop_last() =~= all.take(i as int));
        assert(all.take(i + 1).last() == parts@[i as int]@);
        assert(whole@ =~= joined(all.take(i + 1), separator@));
        i += 1;
    }
    assert(all.take(parts@.len() as int) =~= all);
    whole
}

/// The characters of a string, one by one.
pub fn chars_of(text: &str) -> (chars: Vec<char>)
    ensures
        chars@ == text@,
{
    let mut chars: Vec<char> = Vec::new();
    for c in it: text.chars()
        invariant
            it.seq() == text@,
            chars@ == text@.take(it.index() as int),
    {
        chars.push(c);
        assert(text@.take(it.index() + 1) =~= text@.take(it.index() as int).push(c));
    }
    assert(text@.take(text@.len() as int) =~= text@);
    chars
}

/// Whether `needle` occurs in `text`.
pub fn text_contains(text: &str, needle: &str) -> (found: bool)
    ensures
        found == occurs_in(needle@, text@),
{
    let hay: Vec<char> = chars_of(text);
    let pin: Vec<char> = chars_of(needle);
    let mut i: usize = 0;
    while i <= hay.len() && pin.len() <= hay.len() - i
        invariant
            hay@ == text@,
            pin@ == needle@,
            i <= hay@.len() + 1,
            forall|k: int| 0 <= k < i ==> !#[trigger] occurs_at(needle@, text@, k),
        decreases hay@.len() + 1 - i,
    {
        let mut j: usize = 0;
        while j < pin.len() && hay[i + j] == pin[j]
            invariant
                hay@ == text@,
                pin@ == needle@,
                i + pin@.len() <= hay.len(),
                j <= pin@.len(),
                forall|k: int| 0 <= k < j ==> hay@[i + k] == pin@[k],
            decreases pin@.len() - j,
        {
            j += 1;
        }
        if j == pin.len() {
            assert(text@.subrange(i as int, i + needle@.len()) =~= needle@);
            assert(occurs_at(needle@, text@, i as int));
            return true;
        }
        proof {
            if occurs_at(needle@, text@, i as int) {
                assert(text@.subrange(i as int, i + needle@.len())[j as int] == needle@[j as int]);
            }
        }
        i += 1;
    }
    false
}

/// The string without the copies of `mark` that it ends in.
pub fn text_trim_end(text: &str, mark: char) -> (kept: String)
    ensures
        kept@ == trimmed_end(text@, mark),
{
    let chars: Vec<char> = chars_of(text);
    let mut n: usize = chars.len();
    assert(text@.take(n as int) =~= text@);
    while n > 0 && chars[n - 1] == mark
        invariant
            chars@ == text@,
            n <= chars@.len(),
            trimmed_end(text@, mark) == trimmed_end(text@.take(n as int), mark),
        decreases n,
    {
        assert(text@.take(n as int).drop_last() =~= text@.take(n - 1));
        n -= 1;
    }
    text.substring_char(0, n).to_owned()
}

} // verus!
