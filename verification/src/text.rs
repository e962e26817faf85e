//! Splitting and joining of text, the ground the path and descriptor rules
//! stand on.

use vstd::prelude::*;
use vstd::string::*;

verus! {

/// The pieces of `s` between the occurrences of `sep`, in order.
///
/// There is always one piece more than `s` holds separators: the empty text
/// has one empty piece, and a text that ends in `sep` ends in an empty piece.
pub open spec fn split(s: Seq<char>, sep: char) -> Seq<Seq<char>>
    decreases s.len(),
{
    if s.len() == 0 {
        seq![Seq::<char>::empty()]
    } else {
        let before = split(s.drop_last(), sep);
        if s.last() == sep {
            before.push(Seq::<char>::empty())
        } else {
            before.drop_last().push(before.last().push(s.last()))
        }
    }
}

/// The pieces of `parts` written one after the other with `sep` between
/// each two neighbours.
pub open spec fn join(parts: Seq<Seq<char>>, sep: Seq<char>) -> Seq<char>
    decreases parts.len(),
{
    if parts.len() == 0 {
        Seq::<char>::empty()
    } else if parts.len() == 1 {
        parts[0]
    } else {
        join(parts.drop_last(), sep) + sep + parts.last()
    }
}

/// The texts that a vector of strings holds.
pub open spec fn texts(v: Seq<String>) -> Seq<Seq<char>> {
    Seq::new(v.len(), |i: int| v[i]@)
}

/// The text of a string that may be missing.
pub open spec fn text_of(text: Option<String>) -> Option<Seq<char>> {
    match text {
        Some(owned) => Some(owned@),
        None => None,
    }
}

/// The text of a borrowed string that may be missing.
pub open spec fn str_of(text: Option<&str>) -> Option<Seq<char>> {
    match text {
        Some(borrowed) => Some(borrowed@),
        None => None,
    }
}

/// A split is never empty.
pub proof fn lemma_split_nonempty(s: Seq<char>, sep: char)
    ensures
        split(s, sep).len() >= 1,
    decreases s.len(),
{
    if s.len() > 0 {
        lemma_split_nonempty(s.drop_last(), sep);
    }
}

/// No piece of a split holds the separator.
pub proof fn lemma_split_pieces_free(s: Seq<char>, sep: char)
    ensures
        forall|i: int| 0 <= i < split(s, sep).len() ==> !(#[trigger] split(s, sep)[i]).contains(sep),
    decreases s.len(),
{
    if s.len() > 0 {
        let before = split(s.drop_last(), sep);
        lemma_split_nonempty(s.drop_last(), sep);
        lemma_split_pieces_free(s.drop_last(), sep);
        if s.last() != sep {
            let grown = before.last().push(s.last());
            assert forall|k: int| 0 <= k < grown.len() implies grown[k] != sep by {}
        }
    }
}

/// Joining the pieces of a split with the separator gives the text back.
pub proof fn lemma_join_split(s: Seq<char>, sep: char)
    ensures
        join(split(s, sep), seq![sep]) == s,
    decreases s.len(),
{
    if s.len() > 0 {
        let rest = s.drop_last();
        let before = split(rest, sep);
        lemma_split_nonempty(rest, sep);
        lemma_join_split(rest, sep);
        if s.last() == sep {
            let all = before.push(Seq::<char>::empty());
            assert(all.drop_last() =~= before);
        } else {
            let grown = before.last().push(s.last());
            let all = before.drop_last().push(grown);
            assert(all.drop_last() =~= before.drop_last());
            if before.len() > 1 {
                assert(rest.push(s.last()) =~= s);
            }
        }
    }
}

/// Splitting is the only way to cut a text at its separators: a non-empty
/// list of pieces, none of which holds the separator, is the split of its
/// join.
pub proof fn lemma_split_join(parts: Seq<Seq<char>>, sep: char)
    requires
        parts.len() >= 1,
        forall|i: int| 0 <= i < parts.len() ==> !(#[trigger] parts[i]).contains(sep),
    ensures
        split(join(parts, seq![sep]), sep) == parts,
    decreases parts.len(), parts.last().len(),
{
    let whole = join(parts, seq![sep]);
    let tail = parts.last();
    if tail.len() > 0 {
        // The last character belongs to the last piece.
        let shorter = parts.drop_last().push(tail.drop_last());
        assert forall|i: int| 0 <= i < shorter.len() implies !(#[trigger] shorter[i]).contains(
            sep,
        ) by {
            if i == shorter.len() - 1 {
                assert forall|k: int| 0 <= k < shorter[i].len() implies shorter[i][k] != sep by {}
            }
        }
        lemma_split_join(shorter, sep);
        assert(shorter.drop_last() =~= parts.drop_last());
        assert(whole.drop_last() =~= join(shorter, seq![sep]));
        assert(shorter.last().push(tail.last()) =~= tail);
    } else if parts.len() == 1 {
        assert(whole =~= Seq::<char>::empty());
    } else {
        // The text ends in the separator that stands before the empty last piece.
        let front = parts.drop_last();
        assert forall|i: int| 0 <= i < front.len() implies !(#[trigger] front[i]).contains(sep) by {}
        lemma_split_join(front, sep);
        assert(whole.drop_last() =~= join(front, seq![sep]));
        assert(tail =~= Seq::<char>::empty());
    }
}

/// Where only the last piece may hold the separator, cutting the join
/// gives the pieces before the last one as they are, followed by the pieces
/// of the last one.
pub proof fn lemma_split_join_tail(parts: Seq<Seq<char>>, sep: char)
    requires
        parts.len() >= 1,
        forall|i: int| 0 <= i < parts.len() - 1 ==> !(#[trigger] parts[i]).contains(sep),
    ensures
        split(join(parts, seq![sep]), sep) == parts.drop_last() + split(parts.last(), sep),
    decreases parts.last().len(),
{
    let whole = join(parts, seq![sep]);
    let tail = parts.last();
    let front = parts.drop_last();
    if tail.len() > 0 {
        let shorter = front.push(tail.drop_last());
        assert(shorter.drop_last() =~= front);
        assert forall|i: int| 0 <= i < shorter.len() - 1 implies !(#[trigger] shorter[i]).contains(
            sep,
        ) by {
            assert(shorter[i] == parts[i]);
        }
        lemma_split_join_tail(shorter, sep);
        lemma_split_nonempty(tail.drop_last(), sep);
        assert(whole.drop_last() =~= join(shorter, seq![sep]));
        assert(whole.last() == tail.last());
        let cut = split(tail.drop_last(), sep);
        let before = front + cut;
        assert(split(whole.drop_last(), sep) == before);
        if tail.last() == sep {
            assert(before.push(Seq::<char>::empty()) =~= front + cut.push(Seq::<char>::empty()));
        } else {
            assert(before.drop_last().push(before.last().push(tail.last())) =~= front
                + cut.drop_last().push(cut.last().push(tail.last())));
        }
    } else if parts.len() == 1 {
        assert(whole =~= Seq::<char>::empty());
        assert(tail =~= Seq::<char>::empty());
        assert(front + split(tail, sep) =~= seq![Seq::<char>::empty()]);
    } else {
        assert forall|i: int| 0 <= i < front.len() implies !(#[trigger] front[i]).contains(sep) by {
            assert(front[i] == parts[i]);
        }
        lemma_split_join(front, sep);
        assert(tail =~= Seq::<char>::empty());
        assert(whole.drop_last() =~= join(front, seq![sep]));
        assert(whole.last() == sep);
        assert(front.push(Seq::<char>::empty()) =~= front + split(tail, sep));
    }
}

/// Cuts `s` at every `sep`.
pub fn split_text(s: &str, sep: char) -> (parts: Vec<String>)
    ensures
        texts(parts@) == split(s@, sep),
{
    let n = s.unicode_len();
    let mut parts: Vec<String> = Vec::new();
    let mut start: usize = 0;
    let mut i: usize = 0;
    assert(s@.take(0) =~= Seq::<char>::empty());
    for c in it: s.chars()
        invariant
            it.seq() == s@,
            i == it.index(),
            n == s@.len(),
            start <= i <= n,
            texts(parts@).push(s@.subrange(start as int, i as int)) == split(
                s@.take(i as int),
                sep,
            ),
    {
        let ghost piece = s@.subrange(start as int, i as int);
        assert(s@.take(i + 1).drop_last() =~= s@.take(i as int));
        if c == sep {
            parts.push(s.substring_char(start, i).to_owned());
            start = i + 1;
            assert(s@.subrange(start as int, i + 1) =~= Seq::<char>::empty());
        } else {
            assert(s@.subrange(start as int, i + 1) =~= piece.push(c));
        }
        i = i + 1;
    }
    assert(s@.take(n as int) =~= s@);
    parts.push(s.substring_char(start, n).to_owned());
    parts
}

/// Writes the strings of `parts` one after the other, with `sep` between each
/// two neighbours.
pub fn join_text(parts: &Vec<String>, sep: &str) -> (joined: String)
    ensures
        joined@ == join(texts(parts@), sep@),
{
    let mut joined = String::new();
    let mut i: usize = 0;
    while i < parts.len()
        invariant
            i <= parts.len(),
            joined@ == join(texts(parts@).take(i as int), sep@),
        decreases parts.len() - i,
    {
        assert(texts(parts@).take(i + 1).drop_last() =~= texts(parts@).take(i as int));
        if i > 0 {
            joined.append(sep);
        }
        joined.append(parts[i].as_str());
        i = i + 1;
    }
    assert(texts(parts@).take(parts.len() as int) =~= texts(parts@));
    joined
}

/// Whether `s` begins with `prefix`.
pub fn starts_with(s: &str, prefix: &str) -> (found: bool)
    ensures
        found == prefix@.is_prefix_of(s@),
{
    let n = s.unicode_len();
    let m = prefix.unicode_len();
    if m > n {
        return false;
    }
    let head = s.substring_char(0, m).to_owned();
    let wanted = prefix.to_owned();
    head == wanted
}

/// Whether `wanted` occurs in `s`.
pub fn has_char(s: &str, wanted: char) -> (found: bool)
    ensures
        found == s@.contains(wanted),
{
    for c in it: s.chars()
        invariant
            it.seq() == s@,
            forall|k: int| 0 <= k < it.index() ==> s@[k] != wanted,
    {
        if c == wanted {
            return true;
        }
    }
    false
}

} // verus!
