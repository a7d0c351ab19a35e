//! A quiz session over a list of verbs: which question is asked next, how
//! an answer is judged, and what the score is.
//!
//! The session asks nothing itself. Whoever runs it shows the heading of
//! each verb, asks the pending question, hands the line that the user typed
//! to `submit`, and shows the feedback row that comes back.

use vstd::prelude::*;
use crate::answer::{answer_matches, feedback_row, format_answered, is_correct};
use crate::layout::{decimal, decimal_text, pad_start, padded_start};
use crate::record::{Verb, VerbView};

verus! {

/// The four forms that are asked of each verb, in the order asked.
#[derive(Clone, Copy, Debug, PartialEq, Eq, Structural)]
pub enum Tense {
    Infinitive,
    Present,
    Preterite,
    Perfect,
}

/// A count of right answers among the answers given.
#[derive(Clone, Copy, Debug, PartialEq, Eq, Structural)]
pub struct Score {
    pub correct: u128,
    pub total: u128,
}

/// What comes back for one answer.
#[derive(Debug, PartialEq, Eq)]
pub struct Feedback {
    /// The row to show: tense, answer, mark and stored form.
    pub row: String,
    /// Whether the answer was right.
    pub correct: bool,
    /// The score on the verb, where this answer was the last one for it.
    pub verb_score: Option<Score>,
}

/// Whether a verb can be asked: it has the forms at positions 1 to 3.
pub open spec fn quiz_ready(verb: VerbView) -> bool {
    verb.de_forms.len() >= 4
}

/// The tense of the question at a position among a verb's four.
pub open spec fn tense_at(step: int) -> Tense {
    if step == 0 {
        Tense::Infinitive
    } else if step == 1 {
        Tense::Present
    } else if step == 2 {
        Tense::Preterite
    } else {
        Tense::Perfect
    }
}

/// The stored form that an answer for `tense` is held against.
pub open spec fn reference_of(verb: VerbView, tense: Tense) -> Seq<char> {
    match tense {
        Tense::Infinitive => verb.de,
        Tense::Present => verb.de_forms[1],
        Tense::Preterite => verb.de_forms[2],
        Tense::Perfect => verb.de_forms[3],
    }
}

/// The line shown above a verb's questions: the English gloss,
/// right-aligned in eighteen columns, a space, and the expansion in
/// parentheses where there is one.
pub open spec fn heading_of(verb: VerbView) -> Seq<char> {
    pad_start(verb.en, 18) + " "@ + match verb.en_expanded {
        Some(expansion) => "("@ + expansion + ")"@,
        None => Seq::empty(),
    }
}

/// The line shown at the end of a session.
pub open spec fn summary_of(correct: nat, total: nat) -> Seq<char> {
    "🇩🇪 "@ + decimal(correct) + " correct out of "@ + decimal(total) + "! 🇩🇪"@
}

/// One if the answer was right, else zero.
pub open spec fn hit(correct: bool) -> nat {
    if correct {
        1
    } else {
        0
    }
}

impl Tense {
    /// The name of the tense as the user sees it.
    pub open spec fn label_text(self) -> Seq<char> {
        match self {
            Tense::Infinitive => "Infinitiv"@,
            Tense::Present => "Präsens"@,
            Tense::Preterite => "Präteritum"@,
            Tense::Perfect => "Perfekt"@,
        }
    }

    /// The name of the tense as the user sees it.
    pub fn label(self) -> (text: &'static str)
        ensures
            text@ == self.label_text(),
    {
        match self {
            Tense::Infinitive => "Infinitiv",
            Tense::Present => "Präsens",
            Tense::Preterite => "Präteritum",
            Tense::Perfect => "Perfekt",
        }
    }
}

/// Writes the heading of a verb.
pub fn format_heading(verb: &Verb) -> (heading: String)
    ensures
        heading@ == heading_of(verb@),
{
    let mut heading = padded_start(verb.en.as_str(), 18);
    heading.append(" ");
    if let Some(expansion) = &verb.en_expanded {
        heading.append("(");
        heading.append(expansion.as_str());
        heading.append(")");
    }
    assert(heading@ =~= heading_of(verb@));
    heading
}

/// Writes the summary of a score.
pub fn format_summary(score: Score) -> (summary: String)
    ensures
        summary@ == summary_of(score.correct as nat, score.total as nat),
{
    let mut summary = "🇩🇪 ".to_owned();
    summary.append(decimal_text(score.correct).as_str());
    summary.append(" correct out of ");
    summary.append(decimal_text(score.total).as_str());
    summary.append("! 🇩🇪");
    summary
}

/// Whether every verb of a list can be asked.
pub fn all_quiz_ready(verbs: &Vec<Verb>) -> (ready: bool)
    ensures
        ready == forall|i: int| 0 <= i < verbs.len() ==> quiz_ready(#[trigger] verbs[i]@),
{
    let mut i: usize = 0;
    while i < verbs.len()
        invariant
            i <= verbs.len(),
            forall|k: int| 0 <= k < i ==> quiz_ready(#[trigger] verbs[k]@),
        decreases verbs.len() - i,
    {
        if verbs[i].de_forms.len() < 4 {
            assert(!quiz_ready(verbs[i as int]@));
            return false;
        }
        i += 1;
    }
    true
}

/// How far a session has come.
#[derive(Clone, Copy)]
struct Progress {
    /// The verbs that are done.
    verb: usize,
    /// The answers given for the verb that is being asked.
    step: u8,
    /// The right answers so far.
    correct: u128,
    /// The right answers for the verb that is being asked.
    verb_correct: u8,
}

/// A quiz over a list of verbs, each of which can be asked.
pub struct QuizSession {
    verbs: Vec<Verb>,
    at: Progress,
}

impl QuizSession {
    #[verifier::type_invariant]
    spec fn well_formed(&self) -> bool {
        &&& forall|i: int| 0 <= i < self.verbs.len() ==> quiz_ready(#[trigger] self.verbs[i]@)
        &&& self.at.verb <= self.verbs.len()
        &&& self.at.step < 4
        &&& self.at.verb == self.verbs.len() ==> self.at.step == 0
        &&& self.at.verb_correct <= self.at.step
        &&& self.at.verb_correct <= self.at.correct
        &&& self.at.correct <= 4 * self.at.verb + self.at.step
    }

    /// The verbs of the session, in the order asked.
    pub closed spec fn verbs(&self) -> Seq<VerbView> {
        self.verbs.deep_view()
    }

    /// The number of answers given so far.
    pub closed spec fn asked(&self) -> nat {
        (4 * self.at.verb + self.at.step) as nat
    }

    /// The number of right answers so far.
    pub closed spec fn correct(&self) -> nat {
        self.at.correct as nat
    }

    /// The number of right answers for the verb that is being asked.
    pub closed spec fn verb_correct(&self) -> nat {
        self.at.verb_correct as nat
    }

    /// Whether every question has been answered.
    pub open spec fn finished(&self) -> bool {
        self.asked() == 4 * self.verbs().len()
    }

    /// The verb that is being asked.
    pub open spec fn current_verb(&self) -> VerbView {
        self.verbs()[self.asked() as int / 4]
    }

    /// The tense that is being asked.
    pub open spec fn current_tense(&self) -> Tense {
        tense_at(self.asked() as int % 4)
    }

    /// The stored form that the next answer is held against.
    pub open spec fn current_reference(&self) -> Seq<char> {
        reference_of(self.current_verb(), self.current_tense())
    }

    /// Starts a session, if every verb can be asked.
    pub fn new(verbs: Vec<Verb>) -> (session: Option<QuizSession>)
        ensures
            session is Some == forall|i: int|
                0 <= i < verbs.len() ==> quiz_ready(#[trigger] verbs[i]@),
            session matches Some(started) ==> {
                &&& started.verbs() == verbs.deep_view()
                &&& started.asked() == 0
                &&& started.correct() == 0
                &&& started.verb_correct() == 0
            },
    {
        if all_quiz_ready(&verbs) {
            Some(
                QuizSession {
                    verbs,
                    at: Progress { verb: 0, step: 0, correct: 0, verb_correct: 0 },
                },
            )
        } else {
            None
        }
    }

    /// The score so far.
    pub fn score(&self) -> (score: Score)
        ensures
            score.correct == self.correct(),
            score.total == self.asked(),
            score.correct <= score.total <= 4 * self.verbs().len(),
    {
        proof {
            use_type_invariant(self);
        }
        let done: u128 = self.at.verb as u128;
        let step: u128 = self.at.step as u128;
        Score { correct: self.at.correct, total: 4 * done + step }
    }

    /// Whether every question has been answered.
    pub fn is_finished(&self) -> (finished: bool)
        ensures
            finished == self.finished(),
    {
        proof {
            use_type_invariant(self);
        }
        self.at.verb == self.verbs.len()
    }

    /// The heading to show before the pending question, where that question
    /// is the first one of its verb.
    pub fn heading(&self) -> (heading: Option<String>)
        ensures
            heading is Some == (!self.finished() && self.asked() % 4 == 0),
            heading matches Some(text) ==> text@ == heading_of(self.current_verb()),
    {
        proof {
            use_type_invariant(self);
        }
        if self.at.verb < self.verbs.len() && self.at.step == 0 {
            Some(format_heading(&self.verbs[self.at.verb]))
        } else {
            None
        }
    }

    /// The tense of the pending question and the stored form that its
    /// answer is held against, or nothing where the session is finished.
    pub fn pending(&self) -> (question: Option<(Tense, &String)>)
        ensures
            question is Some == !self.finished(),
            question matches Some((tense, reference)) ==> tense == self.current_tense()
                && reference@ == self.current_reference(),
    {
        proof {
            use_type_invariant(self);
        }
        if self.at.verb == self.verbs.len() {
            return None;
        }
        let verb = &self.verbs[self.at.verb];
        assert(quiz_ready(verb@));
        let question = match self.at.step {
            0 => (Tense::Infinitive, &verb.de),
            1 => (Tense::Present, &verb.de_forms[1]),
            2 => (Tense::Preterite, &verb.de_forms[2]),
            _ => (Tense::Perfect, &verb.de_forms[3]),
        };
        Some(question)
    }

    /// The line to show at the end of the session.
    pub fn summary(&self) -> (summary: String)
        ensures
            summary@ == summary_of(self.correct(), self.asked()),
    {
        format_summary(self.score())
    }

    /// Takes the answer to the pending question: judges it, counts it, and
    /// moves on to the next question. A finished session takes no answer
    /// and stays as it is.
    pub fn submit(&mut self, answer: &str) -> (feedback: Option<Feedback>)
        ensures
            final(self).verbs() == old(self).verbs(),
            feedback is Some == !old(self).finished(),
            feedback is None ==> {
                &&& final(self).asked() == old(self).asked()
                &&& final(self).correct() == old(self).correct()
                &&& final(self).verb_correct() == old(self).verb_correct()
            },
            feedback matches Some(given) ==> {
                &&& given.correct == answer_matches(answer@, old(self).current_reference())
                &&& given.row@ == feedback_row(
                    answer@,
                    old(self).current_reference(),
                    old(self).current_tense().label_text(),
                )
                &&& final(self).asked() == old(self).asked() + 1
                &&& final(self).correct() == old(self).correct() + hit(given.correct)
                &&& if old(self).asked() % 4 == 3 {
                    &&& final(self).verb_correct() == 0
                    &&& given.verb_score == Some(
                        Score {
                            correct: (old(self).verb_correct() + hit(given.correct)) as u128,
                            total: 4,
                        },
                    )
                } else {
                    &&& final(self).verb_correct() == old(self).verb_correct() + hit(
                        given.correct,
                    )
                    &&& given.verb_score is None
                }
            },
    {
        proof {
            use_type_invariant(&*self);
        }
        let at = self.at;
        let (correct, row) = match self.pending() {
            Some((tense, reference)) => (
                is_correct(answer, reference),
                format_answered(answer, reference, tense.label()),
            ),
            None => {
                return None;
            },
        };
        let gained: u8 = if correct {
            1
        } else {
            0
        };
        let verb_correct: u8 = at.verb_correct + gained;
        let total_correct: u128 = at.correct + (gained as u128);
        if at.step == 3 {
            self.at = Progress {
                verb: at.verb + 1,
                step: 0,
                correct: total_correct,
                verb_correct: 0,
            };
            Some(
                Feedback {
                    row,
                    correct,
                    verb_score: Some(Score { correct: verb_correct as u128, total: 4 }),
                },
            )
        } else {
            self.at = Progress {
                verb: at.verb,
                step: at.step + 1,
                correct: total_correct,
                verb_correct,
            };
            Some(Feedback { row, correct, verb_score: None })
        }
    }
}

} // verus!
