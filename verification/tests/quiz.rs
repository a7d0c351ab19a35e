use abfrag::quiz::{
    all_quiz_ready, format_heading, format_summary, Feedback, QuizSession, Score, Tense,
};
use abfrag::record::{Verb, Word};

fn verb(en: &str, en_expanded: Option<&str>, forms: &[&str]) -> Verb {
    let mut verb = Verb::empty();
    verb.de = forms.first().map(|s| s.to_string()).unwrap_or_default();
    verb.de_forms = forms.iter().map(|s| s.to_string()).collect();
    verb.en = en.to_string();
    verb.en_expanded = en_expanded.map(|s| s.to_string());
    verb.irregular = true;
    verb
}

fn fahren() -> Verb {
    verb("to drive", Some("by vehicle"), &["fahren", "fährt", "fuhr", "ist gefahren"])
}

fn abfahren() -> Verb {
    verb("to depart", None, &["abfahren", "ab fahren/fährt", "fuhr ab", "ist abgefahren"])
}

#[test]
fn tense_labels() {
    assert_eq!(Tense::Infinitive.label(), "Infinitiv");
    assert_eq!(Tense::Present.label(), "Präsens");
    assert_eq!(Tense::Preterite.label(), "Präteritum");
    assert_eq!(Tense::Perfect.label(), "Perfekt");
}

#[test]
fn heading_with_expansion() {
    assert_eq!(format_heading(&fahren()), "          to drive (by vehicle)");
    assert_eq!(format_heading(&fahren()), format!("{:>18} {}", "to drive", "(by vehicle)"));
}

#[test]
fn heading_without_expansion() {
    assert_eq!(format_heading(&abfahren()), "         to depart ");
    assert_eq!(format_heading(&abfahren()), format!("{:>18} {}", "to depart", ""));
}

#[test]
fn summary_line() {
    assert_eq!(format_summary(Score { correct: 3, total: 4 }), "🇩🇪 3 correct out of 4! 🇩🇪");
    assert_eq!(format_summary(Score { correct: 0, total: 0 }), "🇩🇪 0 correct out of 0! 🇩🇪");
    assert_eq!(format_summary(Score { correct: 17, total: 40 }), "🇩🇪 17 correct out of 40! 🇩🇪");
}

#[test]
fn verbs_need_four_forms() {
    assert!(all_quiz_ready(&vec![fahren(), abfahren()]));
    assert!(all_quiz_ready(&Vec::new()));
    assert!(!all_quiz_ready(&vec![fahren(), verb("x", None, &["a", "b", "c"])]));
    assert!(!all_quiz_ready(&vec![Verb::empty()]));
    assert!(all_quiz_ready(&vec![verb("x", None, &["a", "b", "c", "d", "e"])]));
}

#[test]
fn session_refuses_a_verb_without_forms() {
    assert!(QuizSession::new(vec![fahren(), Verb::empty()]).is_none());
    assert!(QuizSession::new(vec![verb("x", None, &["a", "b", "c"])]).is_none());
    assert!(QuizSession::new(vec![fahren()]).is_some());
}

#[test]
fn session_over_no_verbs_is_finished() {
    let mut session = QuizSession::new(Vec::new()).unwrap();
    assert!(session.is_finished());
    assert_eq!(session.heading(), None);
    assert_eq!(session.pending(), None);
    assert_eq!(session.submit("gehen"), None);
    assert_eq!(session.score(), Score { correct: 0, total: 0 });
    assert_eq!(session.summary(), "🇩🇪 0 correct out of 0! 🇩🇪");
}

#[test]
fn session_asks_four_forms_in_order() {
    let mut session = QuizSession::new(vec![fahren()]).unwrap();
    assert!(!session.is_finished());
    assert_eq!(session.heading(), Some("          to drive (by vehicle)".to_string()));
    assert_eq!(session.pending(), Some((Tense::Infinitive, &"fahren".to_string())));
    session.submit("fahren");
    assert_eq!(session.heading(), None);
    assert_eq!(session.pending(), Some((Tense::Present, &"fährt".to_string())));
    session.submit("fährt");
    assert_eq!(session.pending(), Some((Tense::Preterite, &"fuhr".to_string())));
    session.submit("fuhr");
    assert_eq!(session.pending(), Some((Tense::Perfect, &"ist gefahren".to_string())));
    session.submit("ist gefahren");
    assert_eq!(session.pending(), None);
    assert!(session.is_finished());
    assert_eq!(session.score(), Score { correct: 4, total: 4 });
}

#[test]
fn session_judges_and_counts() {
    let mut session = QuizSession::new(vec![fahren(), abfahren()]).unwrap();
    assert_eq!(
        session.submit("fahren"),
        Some(Feedback {
            row: "       Infinitiv │ fahren           │ ✅ fahren".to_string(),
            correct: true,
            verb_score: None,
        })
    );
    assert_eq!(session.score(), Score { correct: 1, total: 1 });
    assert_eq!(
        session.submit("fahrt"),
        Some(Feedback {
            row: "         Präsens │ fahrt            │ ❌ fährt".to_string(),
            correct: false,
            verb_score: None,
        })
    );
    assert_eq!(session.score(), Score { correct: 1, total: 2 });
    assert_eq!(
        session.submit("fuhr"),
        Some(Feedback {
            row: "      Präteritum │ fuhr             │ ✅ fuhr".to_string(),
            correct: true,
            verb_score: None,
        })
    );
    assert_eq!(
        session.submit("gefahren"),
        Some(Feedback {
            row: "         Perfekt │ gefahren         │ ❌ ist gefahren".to_string(),
            correct: false,
            verb_score: Some(Score { correct: 2, total: 4 }),
        })
    );
    assert_eq!(session.score(), Score { correct: 2, total: 4 });
    assert!(!session.is_finished());

    assert_eq!(session.heading(), Some("         to depart ".to_string()));
    let first = session.submit("abfahren").unwrap();
    assert!(first.correct);
    let second = session.submit("ab fährt").unwrap();
    assert!(second.correct);
    assert_eq!(second.row, "         Präsens │ ab fährt         │ ✅ ab fahren/fährt");
    let third = session.submit("ab fahren/fährt").unwrap();
    assert!(!third.correct);
    assert_eq!(third.verb_score, None);
    let fourth = session.submit("ist abgefahren").unwrap();
    assert!(fourth.correct);
    assert_eq!(fourth.verb_score, Some(Score { correct: 3, total: 4 }));

    assert!(session.is_finished());
    assert_eq!(session.score(), Score { correct: 5, total: 8 });
    assert_eq!(session.summary(), "🇩🇪 5 correct out of 8! 🇩🇪");
    assert_eq!(session.submit("noch eins"), None);
    assert_eq!(session.score(), Score { correct: 5, total: 8 });
}

#[test]
fn score_accepts_the_alternative_that_the_stored_form_offers() {
    let haengen = verb("to hang", None, &["hängen", "hängt", "hing/hängte", "hat gehangen"]);
    let mut session = QuizSession::new(vec![haengen]).unwrap();
    session.submit("hängen");
    session.submit("hängt");
    let preterite = session.submit("hängte").unwrap();
    assert!(preterite.correct);
    session.submit("hat gehangen");
    assert_eq!(session.score(), Score { correct: 4, total: 4 });
}
