//! Lists in the text of an environment variable: `a,b,c` and `k=v,k=v`.

use vstd::prelude::*;
use vstd::string::StrSliceExecFns;

verus! {

/// The pieces of `text` between the occurrences of `sep`, read from left to
/// right: a separator starts a new piece, any other character joins the last
/// piece. There is always at least one piece, and a piece may be empty.
pub open spec fn split(text: Seq<char>, sep: char) -> Seq<Seq<char>>
    decreases text.len(),
{
    if text.len() == 0 {
        seq![Seq::empty()]
    } else {
        let before = split(text.drop_last(), sep);
        if text.last() == sep {
            before.push(Seq::empty())
        } else {
            before.drop_last().push(before.last().push(text.last()))
        }
    }
}

/// The place of the first `sep` in `text`; the length of `text` if there is
/// none.
pub open spec fn first_index(text: Seq<char>, sep: char) -> int
    decreases text.len(),
{
    if text.len() == 0 || text[0] == sep {
        0
    } else {
        1 + first_index(text.drop_first(), sep)
    }
}

/// What stands before and behind the first `sep` in `text`, if there is one.
pub open spec fn split_once(text: Seq<char>, sep: char) -> Option<(Seq<char>, Seq<char>)> {
    let at = first_index(text, sep);
    if at < text.len() {
        Some((text.take(at), text.skip(at + 1)))
    } else {
        None
    }
}

/// The key and the value of an entry `key=value`. A piece without an equals
/// sign is no entry, nor is one with more than one.
pub open spec fn pair_of(piece: Seq<char>) -> Option<(Seq<char>, Seq<char>)> {
    match split_once(piece, '=') {
        Some((key, value)) => if value.contains('=') {
            None
        } else {
            Some((key, value))
        },
        None => None,
    }
}

/// The entries among `pieces`, in their order.
pub open spec fn pairs_among(pieces: Seq<Seq<char>>) -> Seq<(Seq<char>, Seq<char>)>
    decreases pieces.len(),
{
    if pieces.len() == 0 {
        Seq::empty()
    } else {
        match pair_of(pieces.last()) {
            Some(pair) => pairs_among(pieces.drop_last()).push(pair),
            None => pairs_among(pieces.drop_last()),
        }
    }
}

/// The entries of a list `key=value,key=value`, in their order. What stands
/// between two commas and is no entry is passed over.
pub open spec fn pairs(text: Seq<char>) -> Seq<(Seq<char>, Seq<char>)> {
    pairs_among(split(text, ','))
}

/// Texts, each by its characters.
pub open spec fn texts(strings: Seq<String>) -> Seq<Seq<char>> {
    strings.map_values(|s: String| s@)
}

/// Pairs of texts, each text by its characters.
pub open spec fn text_pairs(strings: Seq<(String, String)>) -> Seq<(Seq<char>, Seq<char>)> {
    strings.map_values(|pair: (String, String)| (pair.0@, pair.1@))
}

/// A text whose first `at` characters are no separator has its first
/// separator at `at`, if one stands there or the text ends there.
pub proof fn lemma_first_index(text: Seq<char>, sep: char, at: int)
    requires
        0 <= at <= text.len(),
        forall|j: int| 0 <= j < at ==> text[j] != sep,
        at < text.len() ==> text[at] == sep,
    ensures
        first_index(text, sep) == at,
    decreases at,
{
    if at > 0 {
        lemma_first_index(text.drop_first(), sep, at - 1);
    }
}

/// No piece holds the separator.
pub proof fn lemma_pieces_hold_no_separator(text: Seq<char>, sep: char)
    ensures
        split(text, sep).len() >= 1,
        forall|i: int|
            0 <= i < split(text, sep).len() ==> !(#[trigger] split(text, sep)[i]).contains(sep),
    decreases text.len(),
{
    if text.len() > 0 {
        lemma_pieces_hold_no_separator(text.drop_last(), sep);
        let before = split(text.drop_last(), sep);
        if text.last() != sep {
            let grown = before.last().push(text.last());
            assert forall|j: int| 0 <= j < grown.len() implies grown[j] != sep by {
                if j < before.last().len() {
                    assert(before.last().contains(grown[j]));
                }
            }
        }
    }
}

/// The pieces, put together again with the separator between them.
pub open spec fn join(pieces: Seq<Seq<char>>, sep: char) -> Seq<char>
    decreases pieces.len(),
{
    if pieces.len() == 0 {
        Seq::empty()
    } else if pieces.len() == 1 {
        pieces[0]
    } else {
        join(pieces.drop_last(), sep).push(sep) + pieces.last()
    }
}

/// Nothing is lost in splitting: the pieces, joined by the separator, are the
/// text.
pub proof fn lemma_pieces_join_to_the_text(text: Seq<char>, sep: char)
    ensures
        join(split(text, sep), sep) == text,
    decreases text.len(),
{
    if text.len() > 0 {
        lemma_pieces_join_to_the_text(text.drop_last(), sep);
        lemma_pieces_hold_no_separator(text.drop_last(), sep);
        let before = split(text.drop_last(), sep);
        if text.last() == sep {
            assert(before.push(Seq::empty()).drop_last() == before);
            assert(join(before, sep).push(sep) + Seq::<char>::empty() == text);
        } else {
            let grown = before.drop_last().push(before.last().push(text.last()));
            if before.len() == 1 {
                assert(grown[0] == text);
            } else {
                assert(grown.drop_last() == before.drop_last());
                assert(text == text.drop_last().push(text.last()));
                assert(join(before.drop_last(), sep).push(sep) + before.last().push(text.last())
                    =~= (join(before.drop_last(), sep).push(sep) + before.last()).push(
                    text.last(),
                ));
            }
        }
    }
}

/// Whether `sep` occurs in `text`.
pub fn contains(text: &str, sep: char) -> (found: bool)
    ensures
        found == text@.contains(sep),
{
    let mut found = false;
    for c in it: text.chars()
        invariant
            it.seq() == text@,
            found == exists|j: int| 0 <= j < it.index() && text@[j] == sep,
    {
        if c == sep {
            found = true;
        }
    }
    found
}

/// Cuts `text` at every `sep`.
pub fn split_at_each(text: &str, sep: char) -> (pieces: Vec<String>)
    ensures
        texts(pieces@) == split(text@, sep),
{
    let length = text.unicode_len();
    let mut pieces: Vec<String> = Vec::new();
    let mut start: usize = 0;
    let mut at: usize = 0;
    assert(text@.subrange(0, 0) =~= Seq::<char>::empty());
    assert(texts(pieces@).push(Seq::<char>::empty()) =~= seq![Seq::<char>::empty()]);
    for c in it: text.chars()
        invariant
            it.seq() == text@,
            length == text@.len(),
            at == it.index(),
            start <= at <= length,
            texts(pieces@).push(text@.subrange(start as int, at as int)) == split(
                text@.take(at as int),
                sep,
            ),
    {
        let ghost before = texts(pieces@);
        assert(text@.take(at + 1).drop_last() == text@.take(at as int));
        if c == sep {
            pieces.push(text.substring_char(start, at).to_owned());
            assert(texts(pieces@) =~= before.push(text@.subrange(start as int, at as int)));
            start = at + 1;
            assert(text@.subrange(start as int, at + 1) == Seq::<char>::empty());
        } else {
            assert(text@.subrange(start as int, at + 1) == text@.subrange(
                start as int,
                at as int,
            ).push(c));
            assert(before.push(text@.subrange(start as int, at as int)).drop_last() == before);
        }
        at += 1;
    }
    assert(text@.take(at as int) == text@);
    let ghost before = texts(pieces@);
    pieces.push(text.substring_char(start, length).to_owned());
    assert(texts(pieces@) =~= before.push(pieces@.last()@));
    pieces
}

/// Cuts `text` at the first `sep`, if there is one.
pub fn split_at_first(text: &str, sep: char) -> (halves: Option<(String, String)>)
    ensures
        match halves {
            Some((before, behind)) => split_once(text@, sep) == Some((before@, behind@)),
            None => split_once(text@, sep) is None,
        },
{
    let length = text.unicode_len();
    let mut first: Option<usize> = None;
    let mut at: usize = 0;
    for c in it: text.chars()
        invariant
            it.seq() == text@,
            length == text@.len(),
            at == it.index(),
            at <= length,
            match first {
                Some(place) => place < at && text@[place as int] == sep && forall|j: int|
                    0 <= j < place ==> text@[j] != sep,
                None => forall|j: int| 0 <= j < at ==> text@[j] != sep,
            },
    {
        if first.is_none() && c == sep {
            first = Some(at);
        }
        at += 1;
    }
    match first {
        Some(place) => {
            proof {
                lemma_first_index(text@, sep, place as int);
            }
            let before = text.substring_char(0, place).to_owned();
            let behind = text.substring_char(place + 1, length).to_owned();
            Some((before, behind))
        },
        None => {
            proof {
                lemma_first_index(text@, sep, length as int);
            }
            None
        },
    }
}

/// Reads one piece of a list as an entry `key=value`.
pub fn pair(piece: &str) -> (entry: Option<(String, String)>)
    ensures
        match entry {
            Some((key, value)) => pair_of(piece@) == Some((key@, value@)),
            None => pair_of(piece@) is None,
        },
{
    match split_at_first(piece, '=') {
        Some((key, value)) => {
            if contains(value.as_str(), '=') {
                None
            } else {
                Some((key, value))
            }
        },
        None => None,
    }
}

/// Reads the entries of a list `key=value,key=value`.
pub fn entries(text: &str) -> (found: Vec<(String, String)>)
    ensures
        text_pairs(found@) == pairs(text@),
{
    let pieces = split_at_each(text, ',');
    let mut found: Vec<(String, String)> = Vec::new();
    let mut i: usize = 0;
    assert(text_pairs(found@) =~= pairs_among(texts(pieces@).take(0)));
    while i < pieces.len()
        invariant
            i <= pieces.len(),
            text_pairs(found@) == pairs_among(texts(pieces@).take(i as int)),
        decreases pieces.len() - i,
    {
        let ghost before = text_pairs(found@);
        assert(texts(pieces@).take(i + 1).drop_last() == texts(pieces@).take(i as int));
        assert(texts(pieces@).take(i + 1).last() == pieces@[i as int]@);
        match pair(pieces[i].as_str()) {
            Some(entry) => {
                found.push(entry);
                assert(text_pairs(found@) =~= before.push((entry.0@, entry.1@)));
            },
            None => {},
        }
        i += 1;
    }
    assert(texts(pieces@).take(i as int) == texts(pieces@));
    found
}

} // verus!
