//! Splitting and joining of text at a separator character.
//!
//! Text is modelled as `Seq<char>`: every contract here speaks of the
//! characters of a string, never of its bytes.

use vstd::prelude::*;

verus! {

/// Position of the first occurrence of `sep` in `s`, or the length of `s`
/// where `sep` does not occur.
pub open spec fn first_sep(s: Seq<char>, sep: char) -> int
    decreases s.len(),
{
    if s.len() == 0 || s[0] == sep {
        0
    } else {
        1 + first_sep(s.drop_first(), sep)
    }
}

/// What stands before the first `sep` of `s`: all of `s` where there is none.
pub open spec fn before_sep(s: Seq<char>, sep: char) -> Seq<char> {
    s.subrange(0, first_sep(s, sep))
}

/// What stands behind the first `sep` of `s`. Only meaningful where `sep`
/// occurs in `s`.
pub open spec fn after_sep(s: Seq<char>, sep: char) -> Seq<char> {
    s.subrange(first_sep(s, sep) + 1, s.len() as int)
}

/// The first piece of `s` and, where `sep` occurs in `s`, the second one:
/// the text between the first `sep` and the next, or the end.
pub open spec fn split_first(s: Seq<char>, sep: char) -> (Seq<char>, Option<Seq<char>>) {
    if s.contains(sep) {
        (before_sep(s, sep), Some(before_sep(after_sep(s, sep), sep)))
    } else {
        (s, None)
    }
}

/// All pieces of `s` between occurrences of `sep`, in order. There is always
/// at least one piece; a `sep` at either end gives an empty piece there.
pub open spec fn split_all(s: Seq<char>, sep: char) -> Seq<Seq<char>>
    decreases s.len(),
    via split_all_decreases
{
    if s.contains(sep) {
        seq![before_sep(s, sep)] + split_all(after_sep(s, sep), sep)
    } else {
        seq![s]
    }
}

#[via_fn]
proof fn split_all_decreases(s: Seq<char>, sep: char) {
    lemma_first_sep(s, sep);
}

/// The items of `items` in order, with `sep` between each two neighbours.
pub open spec fn join_all(items: Seq<Seq<char>>, sep: char) -> Seq<char>
    decreases items.len(),
{
    if items.len() == 0 {
        Seq::empty()
    } else if items.len() == 1 {
        items[0]
    } else {
        items[0] + seq![sep] + join_all(items.drop_first(), sep)
    }
}

/// Whether `part` stands in `text` at position `at`.
pub open spec fn occurs_at(text: Seq<char>, part: Seq<char>, at: int) -> bool {
    &&& 0 <= at
    &&& at + part.len() <= text.len()
    &&& text.subrange(at, at + part.len()) == part
}

/// Whether `part` stands somewhere in `text`. The empty text stands in
/// every text.
pub open spec fn has_part(text: Seq<char>, part: Seq<char>) -> bool {
    exists|at: int| occurs_at(text, part, at)
}

/// `first_sep` is an index into `s` or its length, `sep` stands there if it
/// is an index, and `sep` does not occur before it.
pub proof fn lemma_first_sep(s: Seq<char>, sep: char)
    ensures
        0 <= first_sep(s, sep) <= s.len(),
        first_sep(s, sep) < s.len() ==> s[first_sep(s, sep)] == sep,
        forall|j: int| 0 <= j < first_sep(s, sep) ==> s[j] != sep,
        first_sep(s, sep) < s.len() <==> s.contains(sep),
    decreases s.len(),
{
    if s.len() == 0 || s[0] == sep {
    } else {
        let t = s.drop_first();
        lemma_first_sep(t, sep);
        let k = first_sep(t, sep);
        assert forall|j: int| 0 <= j < 1 + k implies s[j] != sep by {
            if j > 0 {
                assert(t[j - 1] == s[j]);
            }
        }
        if k < t.len() {
            assert(s[k + 1] == t[k]);
        }
    }
    let i = first_sep(s, sep);
    if s.contains(sep) && i == s.len() {
        let j = choose|j: int| 0 <= j < s.len() && s[j] == sep;
        assert(s[j] != sep);
    }
}

/// The position that `lemma_first_sep` describes is the only one of its kind.
pub proof fn lemma_first_sep_is(s: Seq<char>, sep: char, k: int)
    requires
        0 <= k <= s.len(),
        k < s.len() ==> s[k] == sep,
        forall|j: int| 0 <= j < k ==> s[j] != sep,
    ensures
        first_sep(s, sep) == k,
{
    lemma_first_sep(s, sep);
    let i = first_sep(s, sep);
    if i < k {
        assert(s[i] != sep);
    } else if k < i {
        assert(s[k] != sep);
    }
}

/// Splitting a text in which `sep` does not occur leaves it in one piece.
pub proof fn lemma_split_without_sep(s: Seq<char>, sep: char)
    requires
        !s.contains(sep),
    ensures
        split_all(s, sep) == seq![s],
        split_first(s, sep) == (s, None::<Seq<char>>),
        before_sep(s, sep) == s,
{
    lemma_first_sep(s, sep);
    assert(before_sep(s, sep) =~= s);
}

/// A text that starts with a piece free of `sep`, followed by `sep`, splits
/// into that piece and the pieces of what follows.
pub proof fn lemma_split_at_sep(head: Seq<char>, rest: Seq<char>, sep: char)
    requires
        !head.contains(sep),
    ensures
        (head + seq![sep] + rest).contains(sep),
        first_sep(head + seq![sep] + rest, sep) == head.len(),
        before_sep(head + seq![sep] + rest, sep) == head,
        after_sep(head + seq![sep] + rest, sep) == rest,
        split_all(head + seq![sep] + rest, sep) == seq![head] + split_all(rest, sep),
{
    let s = head + seq![sep] + rest;
    let k = head.len() as int;
    assert(s[k] == sep);
    assert forall|j: int| 0 <= j < k implies s[j] != sep by {
        assert(s[j] == head[j]);
        assert(head.contains(head[j]));
    }
    lemma_first_sep_is(s, sep, k);
    lemma_first_sep(s, sep);
    assert(before_sep(s, sep) =~= head);
    assert(after_sep(s, sep) =~= rest);
}

/// Joining with a separator and splitting at it again gives the list back,
/// for every list that is not empty and whose items are free of the
/// separator. (The empty list joins to the empty text, which splits into one
/// empty piece.)
pub proof fn lemma_split_join_round_trip(items: Seq<Seq<char>>, sep: char)
    requires
        items.len() > 0,
        forall|i: int| 0 <= i < items.len() ==> !(#[trigger] items[i]).contains(sep),
    ensures
        split_all(join_all(items, sep), sep) == items,
    decreases items.len(),
{
    if items.len() == 1 {
        lemma_split_without_sep(items[0], sep);
        assert(seq![items[0]] =~= items);
    } else {
        let rest = items.drop_first();
        assert forall|i: int| 0 <= i < rest.len() implies !(#[trigger] rest[i]).contains(sep) by {
            assert(rest[i] == items[i + 1]);
        }
        lemma_split_join_round_trip(rest, sep);
        lemma_split_at_sep(items[0], join_all(rest, sep), sep);
        assert(seq![items[0]] + rest =~= items);
    }
}

/// Splitting at a separator and joining with it again gives the text back,
/// whatever the text.
pub proof fn lemma_join_split_round_trip(s: Seq<char>, sep: char)
    ensures
        join_all(split_all(s, sep), sep) == s,
        split_all(s, sep).len() > 0,
        forall|i: int|
            0 <= i < split_all(s, sep).len() ==> !(#[trigger] split_all(s, sep)[i]).contains(sep),
    decreases s.len(),
{
    lemma_first_sep(s, sep);
    if s.contains(sep) {
        let head = before_sep(s, sep);
        let rest = after_sep(s, sep);
        lemma_join_split_round_trip(rest, sep);
        let pieces = split_all(rest, sep);
        let all = seq![head] + pieces;
        assert(all.drop_first() =~= pieces);
        assert(all[0] == head);
        assert(head + seq![sep] + rest =~= s);
        if head.contains(sep) {
            let j = choose|j: int| 0 <= j < head.len() && head[j] == sep;
            assert(s[j] == sep);
        }
        assert forall|i: int| 0 <= i < all.len() implies !(#[trigger] all[i]).contains(sep) by {
            if i > 0 {
                assert(all[i] == pieces[i - 1]);
            }
        }
    }
}

/// The characters of `s`, in order.
pub fn chars_of(s: &str) -> (v: Vec<char>)
    ensures
        v@ == s@,
{
    let mut v: Vec<char> = Vec::new();
    for c in it: s.chars()
        invariant
            it.seq() == s@,
            v@ == s@.subrange(0, it.index() as int),
    {
        v.push(c);
        assert(v@ =~= s@.subrange(0, it.index() + 1));
    }
    assert(v@ =~= s@);
    v
}

/// Whether two texts hold the same characters.
pub fn same_text(a: &str, b: &str) -> (same: bool)
    ensures
        same == (a@ == b@),
{
    let x = a.to_owned();
    let y = b.to_owned();
    x == y
}

/// The first position at or behind `from` at which `sep` stands in `chars`,
/// or the length of `chars` where there is none.
fn find_sep(chars: &Vec<char>, from: usize, sep: char) -> (at: usize)
    requires
        from <= chars.len(),
    ensures
        from <= at <= chars.len(),
        at - from == first_sep(chars@.subrange(from as int, chars.len() as int), sep),
{
    let mut at: usize = from;
    while at < chars.len() && chars[at] != sep
        invariant
            from <= at <= chars.len(),
            forall|j: int| from <= j < at ==> chars[j] != sep,
        decreases chars.len() - at,
    {
        at += 1;
    }
    proof {
        let tail = chars@.subrange(from as int, chars.len() as int);
        assert forall|j: int| 0 <= j < at - from implies tail[j] != sep by {
            assert(tail[j] == chars[from + j]);
        }
        lemma_first_sep_is(tail, sep, at - from);
    }
    at
}

/// Splits `word` at `sep` and hands out the first piece, and the second one
/// where `sep` occurs: further pieces are dropped.
pub fn split_raw_word<'a>(word: &'a str, sep: char) -> (parts: (&'a str, Option<&'a str>))
    ensures
        parts.0@ == split_first(word@, sep).0,
        parts.1.deep_view() == split_first(word@, sep).1,
{
    let chars = chars_of(word);
    let n = chars.len();
    let first_end = find_sep(&chars, 0, sep);
    proof {
        assert(chars@.subrange(0, n as int) =~= word@);
        lemma_first_sep(word@, sep);
    }
    if first_end == n {
        (word, None)
    } else {
        let second_end = find_sep(&chars, first_end + 1, sep);
        proof {
            let rest = after_sep(word@, sep);
            assert(rest =~= chars@.subrange(first_end + 1, n as int));
            assert(word@.subrange(first_end + 1, second_end as int) =~= before_sep(rest, sep));
        }
        (
            word.substring_char(0, first_end),
            Some(word.substring_char(first_end + 1, second_end)),
        )
    }
}

/// Splits `text` at every `sep` into owned pieces.
pub fn split_text(text: &str, sep: char) -> (pieces: Vec<String>)
    ensures
        pieces.deep_view() == split_all(text@, sep),
{
    let chars = chars_of(text);
    let n = chars.len();
    let mut pieces: Vec<String> = Vec::new();
    let mut start: usize = 0;
    proof {
        assert(text@.subrange(0, n as int) =~= text@);
        assert(pieces.deep_view() + split_all(text@, sep) =~= split_all(text@, sep));
    }
    loop
        invariant_except_break
            split_all(text@, sep) == pieces.deep_view() + split_all(
                text@.subrange(start as int, n as int),
                sep,
            ),
        invariant
            chars@ == text@,
            n == chars.len(),
            start <= n,
        ensures
            pieces.deep_view() == split_all(text@, sep),
        decreases n - start,
    {
        let end = find_sep(&chars, start, sep);
        let piece = text.substring_char(start, end).to_owned();
        let ghost before = pieces.deep_view();
        let ghost tail = text@.subrange(start as int, n as int);
        pieces.push(piece);
        proof {
            lemma_first_sep(tail, sep);
            assert(piece@ =~= before_sep(tail, sep));
            assert(pieces.deep_view() =~= before + seq![piece@]);
        }
        if end == n {
            proof {
                assert(piece@ =~= tail);
                assert(split_all(tail, sep) =~= seq![tail]);
                assert(before + seq![tail] =~= split_all(text@, sep));
            }
            break ;
        }
        proof {
            assert(after_sep(tail, sep) =~= text@.subrange(end + 1, n as int));
            assert(before + (seq![piece@] + split_all(after_sep(tail, sep), sep)) =~= (before
                + seq![piece@]) + split_all(after_sep(tail, sep), sep));
        }
        start = end + 1;
    }
    pieces
}

/// Cuts `text` at its first `sep`: what stands before it and what stands
/// behind it, or nothing where `sep` does not occur.
pub fn cut_at_sep<'a>(text: &'a str, sep: char) -> (parts: Option<(&'a str, &'a str)>)
    ensures
        parts is Some == text@.contains(sep),
        parts matches Some((before, after)) ==> before@ == before_sep(text@, sep) && after@
            == after_sep(text@, sep),
{
    let chars = chars_of(text);
    let n = chars.len();
    let at = find_sep(&chars, 0, sep);
    proof {
        assert(chars@.subrange(0, n as int) =~= text@);
        lemma_first_sep(text@, sep);
    }
    if at == n {
        None
    } else {
        Some((text.substring_char(0, at), text.substring_char(at + 1, n)))
    }
}

/// Whether `part` stands in `text` at `at`.
fn part_at(text: &Vec<char>, part: &Vec<char>, at: usize) -> (found: bool)
    requires
        at + part.len() <= text.len(),
    ensures
        found == occurs_at(text@, part@, at as int),
{
    let mut i: usize = 0;
    while i < part.len()
        invariant
            i <= part.len(),
            at + part.len() <= text.len(),
            forall|j: int| 0 <= j < i ==> text[at + j] == part[j],
        decreases part.len() - i,
    {
        if text[at + i] != part[i] {
            proof {
                let window = text@.subrange(at as int, at + part.len());
                assert(window[i as int] == text[at + i]);
            }
            return false;
        }
        i += 1;
    }
    proof {
        assert(text@.subrange(at as int, at + part.len()) =~= part@);
    }
    true
}

/// Whether `part` stands somewhere in `text`.
pub fn contains_text(text: &str, part: &str) -> (found: bool)
    ensures
        found == has_part(text@, part@),
{
    let hay = chars_of(text);
    let needle = chars_of(part);
    if needle.len() > hay.len() {
        return false;
    }
    let last = hay.len() - needle.len();
    let mut at: usize = 0;
    loop
        invariant
            hay@ == text@,
            needle@ == part@,
            at <= last,
            last + needle.len() == hay.len(),
            forall|k: int| 0 <= k < at ==> !occurs_at(hay@, needle@, k),
        ensures
            !has_part(text@, part@),
        decreases last - at,
    {
        if part_at(&hay, &needle, at) {
            assert(occurs_at(text@, part@, at as int));
            return true;
        }
        if at == last {
            break ;
        }
        at += 1;
    }
    false
}

} // verus!
