//! Command lines as space-separated words, and the characters that a shell
//! passes through untouched.

use vstd::prelude::*;
use vstd::string::*;

verus! {

/// Characters that a POSIX shell neither splits on nor expands inside a
/// word: ASCII letters and digits, and `+ , - . / : = @ _`.
pub open spec fn is_inert(c: char) -> bool {
    ||| 'a' <= c <= 'z'
    ||| 'A' <= c <= 'Z'
    ||| '+' <= c <= ':'
    ||| c == '='
    ||| c == '@'
    ||| c == '_'
}

/// A non-empty run of inert characters: exactly one shell word.
pub open spec fn is_plain_word(text: Seq<char>) -> bool {
    text.len() > 0 && forall|i: int| 0 <= i < text.len() ==> is_inert(#[trigger] text[i])
}

pub open spec fn spaceless(text: Seq<char>) -> bool {
    forall|i: int| 0 <= i < text.len() ==> #[trigger] text[i] != ' '
}

/// The pieces of `line` between its spaces; `n` spaces give `n + 1` pieces.
pub open spec fn split(line: Seq<char>) -> Seq<Seq<char>>
    decreases line.len(),
{
    if line.len() == 0 {
        seq![Seq::empty()]
    } else {
        let before = split(line.drop_last());
        if line.last() == ' ' {
            before.push(Seq::empty())
        } else {
            before.drop_last().push(before.last().push(line.last()))
        }
    }
}

/// Every character of the line is inert or a separating space, so a shell
/// given the line performs word splitting on it and nothing else.
pub open spec fn is_plain_line(line: Seq<char>) -> bool {
    forall|i: int| 0 <= i < line.len() ==> (is_inert(#[trigger] line[i]) || line[i] == ' ')
}

pub proof fn lemma_split_nonempty(line: Seq<char>)
    ensures
        split(line).len() > 0,
    decreases line.len(),
{
    if line.len() > 0 {
        lemma_split_nonempty(line.drop_last());
    }
}

/// Appending a spaceless run to a line extends the last piece by it.
pub proof fn lemma_split_append(line: Seq<char>, tail: Seq<char>)
    requires
        spaceless(tail),
    ensures
        split(line).len() > 0,
        split(line + tail) == split(line).drop_last().push(split(line).last() + tail),
    decreases tail.len(),
{
    lemma_split_nonempty(line);
    let pieces = split(line);
    if tail.len() == 0 {
        assert(line + tail =~= line);
        assert(pieces.last() + tail =~= pieces.last());
        assert(pieces.drop_last().push(pieces.last()) =~= pieces);
    } else {
        let shorter = tail.drop_last();
        assert(spaceless(shorter)) by {
            assert forall|i: int| 0 <= i < shorter.len() implies #[trigger] shorter[i] != ' ' by {
                assert(shorter[i] == tail[i]);
            }
        }
        lemma_split_append(line, shorter);
        let whole = line + tail;
        assert(whole.drop_last() =~= line + shorter);
        assert(whole.last() == tail.last());
        assert(tail.last() != ' ');
        let before = split(line + shorter);
        assert(before.last() == pieces.last() + shorter);
        assert((pieces.last() + shorter).push(tail.last()) =~= pieces.last() + tail);
        assert(before.drop_last() =~= pieces.drop_last());
    }
}

/// A space followed by a spaceless run adds that run as one more piece.
pub proof fn lemma_split_word(line: Seq<char>, word: Seq<char>)
    requires
        spaceless(word),
    ensures
        split(line + seq![' '] + word) == split(line).push(word),
{
    let spaced = line + seq![' '];
    assert(spaced.drop_last() =~= line);
    assert(spaced.last() == ' ');
    assert(split(spaced) == split(line).push(Seq::empty()));
    lemma_split_append(spaced, word);
    assert(split(spaced).drop_last() =~= split(line));
    assert(Seq::<char>::empty() + word =~= word);
}

/// A spaceless run is its own single piece.
pub proof fn lemma_split_single(word: Seq<char>)
    requires
        spaceless(word),
    ensures
        split(word) == seq![word],
{
    let empty = Seq::<char>::empty();
    lemma_split_append(empty, word);
    assert(empty + word =~= word);
    assert(split(empty) =~= seq![empty]);
    assert(split(empty).drop_last().push(empty + word) =~= seq![word]);
}

/// Tells whether `text` is one plain shell word.
pub fn plain_word(text: &str) -> (plain: bool)
    ensures
        plain == is_plain_word(text@),
{
    broadcast use is_ascii_spec_bytes;

    if !text.is_ascii() {
        proof {
            let i = choose|i: int|
                0 <= i < text@.len() && !('\0' <= #[trigger] text@[i] <= '\u{7f}');
            assert(!is_inert(text@[i]));
        }
        return false;
    }
    let bytes = text.as_bytes();
    let n = bytes.len();
    if n == 0 {
        return false;
    }
    let mut i: usize = 0;
    while i < n
        invariant
            i <= n,
            n == bytes@.len(),
            n == text@.len(),
            is_ascii(text),
            forall|j: int| 0 <= j < n ==> bytes@[j] == #[trigger] text@[j] as u8,
            forall|j: int| 0 <= j < i ==> is_inert(#[trigger] text@[j]),
        decreases n - i,
    {
        let b = bytes[i];
        let ghost c = text@[i as int];
        assert('\0' <= c <= '\u{7f}');
        let inert = (97 <= b && b <= 122) || (65 <= b && b <= 90) || (43 <= b && b <= 58) || b
            == 61 || b == 64 || b == 95;
        assert(inert == is_inert(c));
        if !inert {
            return false;
        }
        i = i + 1;
    }
    true
}

} // verus!
