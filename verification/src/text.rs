//! Character-level helpers on strings, specified over `Seq<char>`.

use vstd::prelude::*;
use vstd::string::*;

verus! {

/// `s` ends with `suffix`.
pub open spec fn ends_with(s: Seq<char>, suffix: Seq<char>) -> bool {
    suffix.len() <= s.len() && s.subrange(s.len() - suffix.len(), s.len() as int) == suffix
}

/// `s` with one trailing `suffix` removed, or `s` itself where it does not end with it.
pub open spec fn without_suffix(s: Seq<char>, suffix: Seq<char>) -> Seq<char> {
    if ends_with(s, suffix) {
        s.subrange(0, s.len() - suffix.len())
    } else {
        s
    }
}

/// Removes one trailing `suffix` from `s`; the text is copied unchanged where
/// it does not end with `suffix`.
pub fn strip_suffix(s: &str, suffix: &str) -> (out: String)
    ensures
        out@ == without_suffix(s@, suffix@),
{
    let n: usize = s.unicode_len();
    let m: usize = suffix.unicode_len();
    if m > n {
        return s.to_owned();
    }
    let tail: String = s.substring_char(n - m, n).to_owned();
    let wanted: String = suffix.to_owned();
    if tail == wanted {
        s.substring_char(0, n - m).to_owned()
    } else {
        s.to_owned()
    }
}

/// The pieces of `s` between occurrences of `sep`, in order. There is always
/// at least one piece; a separator at either end, or two in a row, give an
/// empty piece.
pub open spec fn split_on(s: Seq<char>, sep: char) -> Seq<Seq<char>>
    decreases s.len(),
{
    if s.len() == 0 {
        seq![Seq::<char>::empty()]
    } else {
        let head = split_on(s.drop_last(), sep);
        if s.last() == sep {
            head.push(Seq::<char>::empty())
        } else {
            head.drop_last().push(head.last().push(s.last()))
        }
    }
}

/// `pieces` written one after the other with `sep` between neighbours.
pub open spec fn join_with(pieces: Seq<Seq<char>>, sep: char) -> Seq<char>
    decreases pieces.len(),
{
    if pieces.len() == 0 {
        Seq::<char>::empty()
    } else if pieces.len() == 1 {
        pieces[0]
    } else {
        join_with(pieces.drop_last(), sep).push(sep) + pieces.last()
    }
}

/// Splitting never yields an empty list, no piece holds the separator, and
/// joining the pieces gives the text back.
pub proof fn lemma_split_on(s: Seq<char>, sep: char)
    ensures
        split_on(s, sep).len() >= 1,
        forall|k: int| 0 <= k < split_on(s, sep).len() ==> !(#[trigger] split_on(s, sep)[k]).contains(sep),
        join_with(split_on(s, sep), sep) == s,
    decreases s.len(),
{
    if s.len() > 0 {
        let head = split_on(s.drop_last(), sep);
        lemma_split_on(s.drop_last(), sep);
        if s.last() == sep {
            assert(head.push(Seq::<char>::empty()).drop_last() =~= head);
        } else {
            let grown = head.last().push(s.last());
            assert(!grown.contains(sep));
            assert(head.drop_last().push(grown).drop_last() =~= head.drop_last());
            assert(s =~= s.drop_last().push(s.last()));
        }
    }
}

/// The number of characters that `pieces` take when each is written with one
/// separator after it.
pub open spec fn spelled_len(pieces: Seq<Seq<char>>) -> nat
    decreases pieces.len(),
{
    if pieces.len() == 0 {
        0
    } else {
        spelled_len(pieces.drop_last()) + pieces.last().len() + 1
    }
}

/// Splitting a text adds one separator to its length, whatever it holds.
pub proof fn lemma_split_spelled_len(s: Seq<char>, sep: char)
    ensures
        spelled_len(split_on(s, sep)) == s.len() + 1,
    decreases s.len(),
{
    if s.len() == 0 {
        assert(spelled_len(seq![Seq::<char>::empty()].drop_last()) == 0);
    } else {
        let head = split_on(s.drop_last(), sep);
        lemma_split_spelled_len(s.drop_last(), sep);
        lemma_split_on(s.drop_last(), sep);
        if s.last() == sep {
            assert(head.push(Seq::<char>::empty()).drop_last() =~= head);
        } else {
            let grown = head.last().push(s.last());
            assert(head.drop_last().push(grown).drop_last() =~= head.drop_last());
        }
    }
}

/// `String::push` appends the character to the end of the string, as its
/// documentation says. Trusted.
pub assume_specification[ String::push ](s: &mut String, ch: char)
    ensures
        final(s)@ == old(s)@.push(ch),
;

/// Splits `s` at every occurrence of `sep`.
pub fn split(s: &str, sep: char) -> (parts: Vec<String>)
    ensures
        parts.deep_view() == split_on(s@, sep),
{
    let mut parts: Vec<String> = Vec::new();
    let mut piece: String = String::new();
    for c in it: s.chars()
        invariant
            it.seq() == s@,
            split_on(s@.take(it.index() as int), sep) == parts.deep_view().push(piece@),
    {
        assert(s@.take(it.index() + 1).drop_last() =~= s@.take(it.index() as int));
        if c == sep {
            parts.push(piece);
            piece = String::new();
        } else {
            piece.push(c);
        }
    }
    assert(s@.take(s@.len() as int) =~= s@);
    parts.push(piece);
    parts
}

} // verus!
