//! The framing of server-sent events: where an event ends in a buffer of bytes, and which line of
//! an event carries its data.

use vstd::prelude::*;
use vstd::string::*;
use vstd::utf8::*;

use crate::text::chars_of;

verus! {

broadcast use vstd::string::group_string_axioms;

/// The blank line that ends an event, with carriage returns.
pub open spec fn crlf_mark() -> Seq<u8> {
    seq![13u8, 10, 13, 10]
}

/// The blank line that ends an event, without carriage returns.
pub open spec fn lf_mark() -> Seq<u8> {
    seq![10u8, 10]
}

/// `mark` stands in `buf` with its first byte at position `i`.
pub open spec fn mark_at(buf: Seq<u8>, mark: Seq<u8>, i: int) -> bool {
    &&& 0 <= i
    &&& i + mark.len() <= buf.len()
    &&& buf.subrange(i, i + mark.len()) == mark
}

/// `mark` occurs in `buf`.
pub open spec fn has_mark(buf: Seq<u8>, mark: Seq<u8>) -> bool {
    exists|i: int| mark_at(buf, mark, i)
}

/// `mark` stands at position `i` of `buf`, and nowhere before it.
pub open spec fn first_mark_at(buf: Seq<u8>, mark: Seq<u8>, i: int) -> bool {
    &&& mark_at(buf, mark, i)
    &&& forall|j: int| 0 <= j < i ==> !mark_at(buf, mark, j)
}

/// The position of the first `mark` in `buf`.
pub open spec fn first_mark(buf: Seq<u8>, mark: Seq<u8>) -> Option<int> {
    if has_mark(buf, mark) {
        Some(choose|i: int| first_mark_at(buf, mark, i))
    } else {
        None
    }
}

/// Where the first event of `buf` ends: at the first blank line with carriage returns, wherever it
/// stands, or else at the first one without.
pub open spec fn event_boundary(buf: Seq<u8>) -> Option<int> {
    if has_mark(buf, crlf_mark()) {
        first_mark(buf, crlf_mark())
    } else {
        first_mark(buf, lf_mark())
    }
}

/// The number of bytes of the blank line that `buf` starts with.
pub open spec fn boundary_len(buf: Seq<u8>) -> int {
    if mark_at(buf, crlf_mark(), 0) {
        4
    } else if mark_at(buf, lf_mark(), 0) {
        2
    } else {
        0
    }
}

/// A mark that occurs has a first occurrence.
proof fn lemma_some_first(buf: Seq<u8>, mark: Seq<u8>, i: int)
    requires
        mark_at(buf, mark, i),
    ensures
        exists|k: int| first_mark_at(buf, mark, k),
    decreases i,
{
    if exists|j: int| 0 <= j < i && mark_at(buf, mark, j) {
        let j = choose|j: int| 0 <= j < i && mark_at(buf, mark, j);
        lemma_some_first(buf, mark, j);
    } else {
        assert(first_mark_at(buf, mark, i));
    }
}

/// A first occurrence is the one that [`first_mark`] names.
pub proof fn lemma_first_mark(buf: Seq<u8>, mark: Seq<u8>, i: int)
    requires
        first_mark_at(buf, mark, i),
    ensures
        first_mark(buf, mark) == Some(i),
{
    assert(mark_at(buf, mark, i));
    let k = choose|k: int| first_mark_at(buf, mark, k);
    assert(first_mark_at(buf, mark, k));
    assert(k == i);
}

/// The position that [`first_mark`] names is a first occurrence.
pub proof fn lemma_first_mark_is(buf: Seq<u8>, mark: Seq<u8>)
    requires
        has_mark(buf, mark),
    ensures
        first_mark(buf, mark) matches Some(i) && first_mark_at(buf, mark, i),
{
    let i = choose|i: int| mark_at(buf, mark, i);
    lemma_some_first(buf, mark, i);
}

/// Whether `mark` stands at position `i`.
fn is_mark_at(buf: &[u8], mark: &[u8], i: usize) -> (stands: bool)
    requires
        i + mark@.len() <= buf@.len(),
    ensures
        stands == mark_at(buf@, mark@, i as int),
{
    let mut k: usize = 0;
    while k < mark.len()
        invariant
            i + mark@.len() <= buf.len(),
            k <= mark@.len(),
            forall|j: int| 0 <= j < k ==> buf@[i + j] == mark@[j],
        decreases mark@.len() - k,
    {
        if buf[i + k] != mark[k] {
            assert(buf@.subrange(i as int, i + mark@.len())[k as int] != mark@[k as int]);
            return false;
        }
        k += 1;
    }
    assert(buf@.subrange(i as int, i + mark@.len()) =~= mark@);
    true
}

/// The position of the first `mark` in `buf`.
fn find_mark(buf: &[u8], mark: &[u8]) -> (found: Option<usize>)
    ensures
        first_mark(buf@, mark@) == (match found {
            Some(i) => Some(i as int),
            None => None,
        }),
        found matches Some(i) ==> mark_at(buf@, mark@, i as int),
        found is None ==> !has_mark(buf@, mark@),
{
    let mut i: usize = 0;
    while mark.len() <= buf.len() && i <= buf.len() - mark.len()
        invariant
            i <= buf.len() + 1,
            forall|j: int| 0 <= j < i ==> !mark_at(buf@, mark@, j),
        decreases buf@.len() + 1 - i,
    {
        if is_mark_at(buf, mark, i) {
            proof {
                lemma_first_mark(buf@, mark@, i as int);
            }
            return Some(i);
        }
        if i == buf.len() {
            return None;
        }
        i += 1;
    }
    None
}

/// Where the first event of `buf` ends, if all of it has arrived.
pub fn find_event_boundary(buf: &[u8]) -> (boundary: Option<usize>)
    ensures
        event_boundary(buf@) == (match boundary {
            Some(i) => Some(i as int),
            None => None,
        }),
        boundary matches Some(i) ==> i < buf@.len(),
{
    let crlf: [u8; 4] = [13, 10, 13, 10];
    let lf: [u8; 2] = [10, 10];
    proof {
        assert(crlf@ =~= crlf_mark());
        assert(lf@ =~= lf_mark());
    }
    if let Some(i) = find_mark(buf, crlf.as_slice()) {
        return Some(i);
    }
    find_mark(buf, lf.as_slice())
}

/// Takes the blank line off the start of `buf` and returns its length.
pub fn strip_boundary_prefix(buf: &mut Vec<u8>) -> (taken: usize)
    ensures
        taken == boundary_len(old(buf)@),
        final(buf)@ == old(buf)@.skip(taken as int),
{
    let crlf: [u8; 4] = [13, 10, 13, 10];
    let lf: [u8; 2] = [10, 10];
    proof {
        assert(crlf@ =~= crlf_mark());
        assert(lf@ =~= lf_mark());
    }
    let taken: usize = if buf.len() >= 4 && is_mark_at(buf.as_slice(), crlf.as_slice(), 0) {
        4
    } else if buf.len() >= 2 && is_mark_at(buf.as_slice(), lf.as_slice(), 0) {
        2
    } else {
        0
    };
    let mut rest: Vec<u8> = buf.split_off(taken);
    buf.clear();
    buf.append(&mut rest);
    taken
}

/// The number of characters before the first line feed of `text`, or of all of it.
pub open spec fn line_len(text: Seq<char>) -> int
    decreases text.len(),
{
    if text.len() == 0 || text[0] == '\n' {
        0
    } else {
        1 + line_len(text.skip(1))
    }
}

/// The first line of `text`, without its line feed and without a carriage return before that.
pub open spec fn first_line(text: Seq<char>) -> Seq<char> {
    let n = line_len(text);
    if 0 < n < text.len() && text[n - 1] == '\r' {
        text.take(n - 1)
    } else {
        text.take(n)
    }
}

/// What follows the first line of `text`.
pub open spec fn after_line(text: Seq<char>) -> Seq<char> {
    let n = line_len(text);
    if n < text.len() {
        text.skip(n + 1)
    } else {
        Seq::empty()
    }
}

/// `text` starts with `prefix`.
pub open spec fn starts_with(text: Seq<char>, prefix: Seq<char>) -> bool {
    prefix.len() <= text.len() && text.take(prefix.len() as int) == prefix
}

/// `text` without the spaces that it starts with.
pub open spec fn without_leading_spaces(text: Seq<char>) -> Seq<char>
    decreases text.len(),
{
    if text.len() > 0 && text[0] == ' ' {
        without_leading_spaces(text.skip(1))
    } else {
        text
    }
}

/// What stands behind `data:` and any spaces, on the first line of `text` that starts so.
pub open spec fn event_data(text: Seq<char>) -> Option<Seq<char>>
    decreases text.len(),
{
    if text.len() == 0 {
        None
    } else if starts_with(first_line(text), "data:"@) {
        Some(without_leading_spaces(first_line(text).skip(5)))
    } else {
        proof {
            lemma_line_len(text);
        }
        event_data(after_line(text))
    }
}

/// A line ends at the first line feed or at the end of the text.
pub proof fn lemma_line_len(text: Seq<char>)
    ensures
        0 <= line_len(text) <= text.len(),
        forall|i: int| 0 <= i < line_len(text) ==> text[i] != '\n',
        line_len(text) < text.len() ==> text[line_len(text)] == '\n',
    decreases text.len(),
{
    if text.len() > 0 && text[0] != '\n' {
        lemma_line_len(text.skip(1));
        assert forall|i: int| 0 <= i < line_len(text) implies text[i] != '\n' by {
            if i > 0 {
                assert(text.skip(1)[i - 1] == text[i]);
            }
        }
    }
}

/// A text with no line feed before position `n`, and one there or its end, has a line of `n`.
pub proof fn lemma_line_len_is(text: Seq<char>, n: int)
    requires
        0 <= n <= text.len(),
        forall|i: int| 0 <= i < n ==> text[i] != '\n',
        n < text.len() ==> text[n] == '\n',
    ensures
        line_len(text) == n,
{
    lemma_line_len(text);
}

/// The data of an event, which stands on its first `data:` line.
pub fn find_event_data(text: &str) -> (data: Option<&str>)
    ensures
        event_data(text@) == (match data {
            Some(data) => Some(data@),
            None => None,
        }),
{
    let chars: Vec<char> = chars_of(text);
    let len: usize = chars.len();
    let mut pos: usize = 0;
    assert(text@.skip(0) =~= text@);
    proof {
        reveal_strlit("data:");
    }
    while pos < len
        invariant
            chars@ == text@,
            len == chars@.len(),
            pos <= len,
            event_data(text@) == event_data(text@.skip(pos as int)),
            "data:"@ == seq!['d', 'a', 't', 'a', ':'],
        decreases len - pos,
    {
        let ghost rest = text@.skip(pos as int);
        let mut end: usize = pos;
        while end < len && chars[end] != '\n'
            invariant
                chars@ == text@,
                len == chars@.len(),
                pos <= end <= len,
                forall|i: int| pos <= i < end ==> chars@[i] != '\n',
            decreases len - end,
        {
            end += 1;
        }
        proof {
            lemma_line_len_is(rest, end - pos);
        }
        let stop: usize = if end < len && end > pos && chars[end - 1] == '\r' {
            end - 1
        } else {
            end
        };
        assert(first_line(rest) =~= text@.subrange(pos as int, stop as int));
        if stop - pos >= 5 && chars[pos] == 'd' && chars[pos + 1] == 'a' && chars[pos + 2] == 't'
            && chars[pos + 3] == 'a' && chars[pos + 4] == ':' {
            assert(first_line(rest).take(5) =~= "data:"@);
            let mut start: usize = pos + 5;
            assert(first_line(rest).skip(5) =~= text@.subrange(start as int, stop as int));
            while start < stop && chars[start] == ' '
                invariant
                    chars@ == text@,
                    pos + 5 <= start <= stop <= len,
                    len == chars@.len(),
                    without_leading_spaces(first_line(rest).skip(5)) == without_leading_spaces(
                        text@.subrange(start as int, stop as int),
                    ),
                decreases stop - start,
            {
                assert(text@.subrange(start as int, stop as int).skip(1) =~= text@.subrange(
                    start + 1,
                    stop as int,
                ));
                start += 1;
            }
            return Some(text.substring_char(start, stop));
        }
        proof {
            if starts_with(first_line(rest), "data:"@) {
                let head = first_line(rest).take(5);
                assert(head[0] == 'd' && head[1] == 'a' && head[2] == 't' && head[3] == 'a'
                    && head[4] == ':');
            }
        }
        if end == len {
            assert(event_data(after_line(rest)) is None);
            return None;
        }
        assert(after_line(rest) =~= text@.skip(end + 1));
        pos = end + 1;
    }
    None
}

/// `std::str::from_utf8`: the text of a byte string that is UTF-8.
#[verifier::external_body]
pub(crate) fn utf8_text(bytes: &[u8]) -> (text: Option<&str>)
    ensures
        text is Some == valid_utf8(bytes@),
        text matches Some(text) ==> text@ == decode_utf8(bytes@),
{
    std::str::from_utf8(bytes).ok()
}

} // verus!
