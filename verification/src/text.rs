//! Text helpers on top of std: trimming and byte lengths.

use vstd::prelude::*;
use vstd::string::*;

verus! {

/// Whether `c` has the Unicode property White_Space, which is what
/// `char::is_whitespace` tells.
pub uninterp spec fn is_white_space(c: char) -> bool;

/// `text` without its leading white space.
pub open spec fn trimmed_start(text: Seq<char>) -> Seq<char>
    decreases text.len(),
{
    if text.len() > 0 && is_white_space(text[0]) {
        trimmed_start(text.drop_first())
    } else {
        text
    }
}

/// `text` without its trailing white space.
pub open spec fn trimmed_end(text: Seq<char>) -> Seq<char>
    decreases text.len(),
{
    if text.len() > 0 && is_white_space(text.last()) {
        trimmed_end(text.drop_last())
    } else {
        text
    }
}

/// `text` without its leading and trailing white space.
pub open spec fn trimmed(text: Seq<char>) -> Seq<char> {
    trimmed_end(trimmed_start(text))
}

/// The number of bytes of `text` in UTF-8, which is what `str::len` counts.
pub open spec fn utf8_len(text: Seq<char>) -> nat {
    vstd::utf8::encode_utf8(text).len()
}

/// `str::trim`: the slice of `text` between its leading and its trailing
/// white space, so that neither end of a non-empty result is white space.
#[verifier::external_body]
pub(crate) fn trim(text: &str) -> (inner: &str)
    ensures
        inner@ == trimmed(text@),
        inner@.len() > 0 ==> !is_white_space(inner@[0]) && !is_white_space(inner@.last()),
{
    text.trim()
}

/// The number of bytes of `text`.
pub fn byte_len(text: &str) -> (len: usize)
    ensures
        len == utf8_len(text@),
{
    text.as_bytes().len()
}

/// The views of a list of texts.
pub open spec fn string_views(list: Seq<String>) -> Seq<Seq<char>> {
    Seq::new(list.len(), |i: int| list[i]@)
}

/// The position of the first `mark` in `text`, or the length of `text` if it
/// holds none.
pub open spec fn first_at(text: Seq<char>, mark: char) -> int
    decreases text.len(),
{
    if text.len() == 0 {
        0
    } else if text[0] == mark {
        0
    } else {
        1 + first_at(text.drop_first(), mark)
    }
}

/// `first_at` finds the first mark.
pub proof fn lemma_first_at(text: Seq<char>, mark: char)
    ensures
        0 <= first_at(text, mark) <= text.len(),
        forall|i: int| 0 <= i < first_at(text, mark) ==> #[trigger] text[i] != mark,
        first_at(text, mark) < text.len() ==> text[first_at(text, mark)] == mark,
    decreases text.len(),
{
    if text.len() > 0 && text[0] != mark {
        let rest = text.drop_first();
        lemma_first_at(rest, mark);
        assert forall|i: int| 0 <= i < first_at(text, mark) implies #[trigger] text[i] != mark by {
            if i > 0 {
                assert(text[i] == rest[i - 1]);
            }
        }
        if first_at(rest, mark) < rest.len() {
            assert(text[first_at(text, mark)] == rest[first_at(rest, mark)]);
        }
    }
}

/// The pieces of `text` between its `mark`s, in order. A text without marks
/// is one piece; two marks side by side have an empty piece between them.
pub open spec fn fields(text: Seq<char>, mark: char) -> Seq<Seq<char>>
    decreases text.len(),
{
    if text.len() == 0 {
        seq![Seq::empty()]
    } else {
        let front = fields(text.drop_last(), mark);
        if text.last() == mark {
            front.push(Seq::empty())
        } else {
            front.update(front.len() - 1, front.last().push(text.last()))
        }
    }
}

/// Splits `text` at every `mark`.
pub fn split(text: &str, mark: char) -> (pieces: Vec<String>)
    ensures
        string_views(pieces@) == fields(text@, mark),
{
    let length = text.unicode_len();
    let mut pieces: Vec<String> = Vec::new();
    let mut from: usize = 0;
    let mut index: usize = 0;
    assert(text@.take(0) =~= Seq::<char>::empty());
    assert(fields(text@.take(0), mark) =~= string_views(pieces@).push(text@.subrange(0, 0)));
    while index < length
        invariant
            from <= index <= length,
            length == text@.len(),
            fields(text@.take(index as int), mark) == string_views(pieces@).push(
                text@.subrange(from as int, index as int),
            ),
        decreases length - index,
    {
        let ghost done = text@.take(index as int);
        let ghost front = fields(done, mark);
        let ghost before = pieces@;
        let c = text.get_char(index);
        assert(text@.take(index + 1).drop_last() =~= done);
        assert(text@.take(index + 1).last() == c);
        let ghost current = text@.subrange(from as int, index as int);
        assert(front == string_views(before).push(current));
        assert(front.last() == current);
        if c == mark {
            let piece = text.substring_char(from, index);
            pieces.push(piece.to_owned());
            assert(string_views(pieces@) =~= front);
            assert(fields(text@.take(index + 1), mark) == front.push(Seq::empty()));
            from = index + 1;
            assert(text@.subrange(from as int, index + 1) =~= Seq::<char>::empty());
        } else {
            assert(current.push(c) =~= text@.subrange(from as int, index + 1));
            assert(fields(text@.take(index + 1), mark) == front.update(
                front.len() - 1,
                current.push(c),
            ));
            assert(front.update(front.len() - 1, current.push(c)) =~= string_views(before).push(
                current.push(c),
            ));
        }
        index += 1;
    }
    let ghost front = string_views(pieces@);
    assert(text@.take(length as int) =~= text@);
    let last = text.substring_char(from, length);
    pieces.push(last.to_owned());
    assert(string_views(pieces@) =~= front.push(text@.subrange(from as int, length as int)));
    pieces
}

} // verus!
