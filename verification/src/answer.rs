//! The rule that decides whether an answer matches a stored form.
//!
//! A stored form may offer two alternatives with `/`, on one side of its
//! first space or, where it has no space, as a whole: `der/die Flasche`,
//! `ab fahren/fährt`, `hing/hängte`. An answer is right when it equals one
//! of the two texts that the form stands for, character by character.

use vstd::prelude::*;
use crate::layout::{pad_end, pad_start, padded_end, padded_start};
use crate::text::{
    after_sep, before_sep, cut_at_sep, lemma_split_at_sep, lemma_split_without_sep, same_text,
    split_first, split_raw_word,
};

verus! {

/// `left`, a space, `right`.
pub open spec fn spaced(left: Seq<char>, right: Seq<char>) -> Seq<char> {
    left + seq![' '] + right
}

/// The two texts that `reference` accepts. They are the same text where it
/// offers no alternative.
///
/// With a space in it, `reference` is cut at its first space. Where exactly
/// one side holds a `/`, that side's first two pieces each stand with the
/// other side; where both or neither do, only `reference` as it is written
/// is accepted. Without a space, its first two pieces at `/` are accepted.
pub open spec fn accepted(reference: Seq<char>) -> (Seq<char>, Seq<char>) {
    if reference.contains(' ') {
        let left = before_sep(reference, ' ');
        let right = after_sep(reference, ' ');
        match (split_first(left, '/'), split_first(right, '/')) {
            ((left1, Some(left2)), (_, None)) => (spaced(left1, right), spaced(left2, right)),
            ((_, None), (right1, Some(right2))) => (spaced(left, right1), spaced(left, right2)),
            _ => (reference, reference),
        }
    } else {
        match split_first(reference, '/') {
            (first, Some(second)) => (first, second),
            (first, None) => (first, first),
        }
    }
}

/// Whether `answer` is one of the texts that `reference` accepts.
pub open spec fn answer_matches(answer: Seq<char>, reference: Seq<char>) -> bool {
    answer == accepted(reference).0 || answer == accepted(reference).1
}

/// Whether `answer` is `left`, a space, `right`.
fn is_spaced(answer: &str, left: &str, right: &str) -> (same: bool)
    ensures
        same == (answer@ == spaced(left@, right@)),
{
    let mut expected = left.to_owned();
    expected.append(" ");
    expected.append(right);
    proof {
        reveal_strlit(" ");
        assert(" "@ =~= seq![' ']);
    }
    same_text(answer, expected.as_str())
}

/// Whether `answer` is right for the stored form `correct_raw`. The
/// comparison is exact: nothing is trimmed and no case is folded.
pub fn is_correct(answer: &str, correct_raw: &String) -> (ok: bool)
    ensures
        ok == answer_matches(answer@, correct_raw@),
{
    let reference = correct_raw.as_str();
    match cut_at_sep(reference, ' ') {
        Some((left, right)) => {
            let (left1, left2) = split_raw_word(left, '/');
            let (right1, right2) = split_raw_word(right, '/');
            match (left2, right2) {
                (Some(left2), None) => is_spaced(answer, left1, right) || is_spaced(
                    answer,
                    left2,
                    right,
                ),
                (None, Some(right2)) => is_spaced(answer, left, right1) || is_spaced(
                    answer,
                    left,
                    right2,
                ),
                _ => same_text(answer, reference),
            }
        },
        None => {
            let (first, second) = split_raw_word(reference, '/');
            match second {
                Some(second) => same_text(answer, first) || same_text(answer, second),
                None => same_text(answer, first),
            }
        },
    }
}

/// The feedback row for one answer: the tense right-aligned in sixteen
/// columns, the answer left-aligned in sixteen, a mark that says whether the
/// answer is right, and the stored form, which is shown either way.
pub open spec fn feedback_row(answer: Seq<char>, correct: Seq<char>, tense: Seq<char>) -> Seq<
    char,
> {
    pad_start(tense, 16) + " │ "@ + pad_end(answer, 16) + (if answer_matches(answer, correct) {
        " │ ✅ "@
    } else {
        " │ ❌ "@
    }) + correct
}

/// Writes the feedback row for `answer`, given for `tense`, against the
/// stored form `correct`.
pub fn format_answered(answer: &str, correct: &String, tense: &str) -> (row: String)
    ensures
        row@ == feedback_row(answer@, correct@, tense@),
{
    let mut row = padded_start(tense, 16);
    row.append(" │ ");
    row.append(padded_end(answer, 16).as_str());
    if is_correct(answer, correct) {
        row.append(" │ ✅ ");
    } else {
        row.append(" │ ❌ ");
    }
    row.append(correct.as_str());
    row
}

/// `a`, a slash, `b`.
pub open spec fn slashed(a: Seq<char>, b: Seq<char>) -> Seq<char> {
    a + seq!['/'] + b
}

/// A character that occurs in neither of two texts, and is not the one
/// between them, does not occur in the two put together around it.
proof fn lemma_around_free_of(a: Seq<char>, mid: char, b: Seq<char>, c: char)
    requires
        !a.contains(c),
        !b.contains(c),
        mid != c,
    ensures
        !(a + seq![mid] + b).contains(c),
{
    let s = a + seq![mid] + b;
    if s.contains(c) {
        let j = choose|j: int| 0 <= j < s.len() && s[j] == c;
        if j < a.len() {
            assert(a[j] == c);
        } else if j > a.len() {
            assert(b[j - a.len() - 1] == c);
        }
    }
}

/// A stored form with neither a space nor a slash accepts itself and nothing
/// else.
pub proof fn lemma_plain_reference(answer: Seq<char>, reference: Seq<char>)
    requires
        !reference.contains(' '),
        !reference.contains('/'),
    ensures
        answer_matches(reference, reference),
        answer_matches(answer, reference) <==> answer == reference,
{
    lemma_split_without_sep(reference, '/');
}

/// A stored form `a/b` without a space accepts `a` and `b` and nothing else:
/// in particular not `a/b` as it is written.
pub proof fn lemma_two_alternatives(answer: Seq<char>, a: Seq<char>, b: Seq<char>)
    requires
        !a.contains(' ') && !a.contains('/'),
        !b.contains(' ') && !b.contains('/'),
    ensures
        answer_matches(a, slashed(a, b)),
        answer_matches(b, slashed(a, b)),
        !answer_matches(slashed(a, b), slashed(a, b)),
        answer_matches(answer, slashed(a, b)) <==> answer == a || answer == b,
{
    lemma_around_free_of(a, '/', b, ' ');
    lemma_split_at_sep(a, b, '/');
    lemma_split_without_sep(b, '/');
}

/// A stored form `left1/left2 right`, such as `der/die Flasche`, accepts
/// `left1 right` and `left2 right` and nothing else.
pub proof fn lemma_left_alternatives(
    answer: Seq<char>,
    left1: Seq<char>,
    left2: Seq<char>,
    right: Seq<char>,
)
    requires
        !left1.contains(' ') && !left1.contains('/'),
        !left2.contains(' ') && !left2.contains('/'),
        !right.contains('/'),
    ensures
        answer_matches(answer, spaced(slashed(left1, left2), right)) <==> answer == spaced(
            left1,
            right,
        ) || answer == spaced(left2, right),
{
    let left = slashed(left1, left2);
    lemma_around_free_of(left1, '/', left2, ' ');
    lemma_split_at_sep(left, right, ' ');
    lemma_split_at_sep(left1, left2, '/');
    lemma_split_without_sep(left2, '/');
    lemma_split_without_sep(right, '/');
}

/// A stored form `left right1/right2`, such as `ab fahren/fährt`, accepts
/// `left right1` and `left right2` and nothing else.
pub proof fn lemma_right_alternatives(
    answer: Seq<char>,
    left: Seq<char>,
    right1: Seq<char>,
    right2: Seq<char>,
)
    requires
        !left.contains(' ') && !left.contains('/'),
        !right1.contains('/'),
        !right2.contains('/'),
    ensures
        answer_matches(answer, spaced(left, slashed(right1, right2))) <==> answer == spaced(
            left,
            right1,
        ) || answer == spaced(left, right2),
{
    let right = slashed(right1, right2);
    lemma_split_at_sep(left, right, ' ');
    lemma_split_without_sep(left, '/');
    lemma_split_at_sep(right1, right2, '/');
    lemma_split_without_sep(right2, '/');
}

/// A stored form with a space and a slash on both sides of its first space,
/// or on neither, accepts itself as it is written and nothing else.
pub proof fn lemma_unsupported_alternatives(answer: Seq<char>, reference: Seq<char>)
    requires
        reference.contains(' '),
        before_sep(reference, ' ').contains('/') == after_sep(reference, ' ').contains('/'),
    ensures
        answer_matches(reference, reference),
        answer_matches(answer, reference) <==> answer == reference,
{
}

} // verus!
