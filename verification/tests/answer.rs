use abfrag::answer::{format_answered, is_correct};
use abfrag::text::{same_text, split_raw_word};

fn accepts(answer: &str, reference: &str) -> bool {
    is_correct(answer, &reference.to_string())
}

#[test]
fn plain_reference_accepts_only_itself() {
    assert!(accepts("gehen", "gehen"));
    assert!(!accepts("geht", "gehen"));
    assert!(!accepts("", "gehen"));
    assert!(!accepts("gehe", "gehen"));
    assert!(!accepts("gehenn", "gehen"));
}

#[test]
fn empty_reference_accepts_only_the_empty_answer() {
    assert!(accepts("", ""));
    assert!(!accepts(" ", ""));
}

#[test]
fn comparison_is_exact() {
    assert!(!accepts("Gehen", "gehen"));
    assert!(!accepts(" gehen", "gehen"));
    assert!(!accepts("gehen ", "gehen"));
    assert!(!accepts("fahrt", "fährt"));
    assert!(accepts("fährt", "fährt"));
}

#[test]
fn two_alternatives_without_space() {
    assert!(accepts("a", "a/b"));
    assert!(accepts("b", "a/b"));
    assert!(!accepts("a/b", "a/b"));
    assert!(accepts("hing", "hing/hängte"));
    assert!(accepts("hängte", "hing/hängte"));
    assert!(!accepts("hing/hängte", "hing/hängte"));
    assert!(!accepts("", "hing/hängte"));
}

#[test]
fn third_alternative_is_not_accepted() {
    assert!(accepts("a", "a/b/c"));
    assert!(accepts("b", "a/b/c"));
    assert!(!accepts("c", "a/b/c"));
    assert!(!accepts("b/c", "a/b/c"));
}

#[test]
fn empty_alternatives() {
    assert!(accepts("", "/b"));
    assert!(accepts("b", "/b"));
    assert!(accepts("a", "a/"));
    assert!(accepts("", "a/"));
    assert!(!accepts("a/", "a/"));
}

#[test]
fn article_alternatives() {
    let reference = "der/die Flasche";
    assert!(accepts("der Flasche", reference));
    assert!(accepts("die Flasche", reference));
    assert!(!accepts("der/die Flasche", reference));
    assert!(!accepts("Flasche", reference));
    assert!(!accepts("das Flasche", reference));
    assert!(!accepts("der  Flasche", reference));
    assert!(!accepts("derFlasche", reference));
}

#[test]
fn stem_alternatives() {
    let reference = "ab fahren/fährt";
    assert!(accepts("ab fahren", reference));
    assert!(accepts("ab fährt", reference));
    assert!(!accepts("ab fahren/fährt", reference));
    assert!(!accepts("fahren", reference));
    assert!(!accepts("ab", reference));
    assert!(!accepts("ab ", reference));
}

#[test]
fn alternatives_on_both_sides_fall_back_to_the_literal() {
    let reference = "a/b c/d";
    assert!(accepts("a/b c/d", reference));
    assert!(!accepts("a c", reference));
    assert!(!accepts("a d", reference));
    assert!(!accepts("b c", reference));
    assert!(!accepts("b d", reference));
}

#[test]
fn space_without_alternatives_accepts_the_literal() {
    assert!(accepts("sich waschen", "sich waschen"));
    assert!(!accepts("sich", "sich waschen"));
    assert!(!accepts("waschen", "sich waschen"));
}

#[test]
fn right_side_is_all_that_follows_the_first_space() {
    let reference = "der/die Flasche voll Wasser";
    assert!(accepts("der Flasche voll Wasser", reference));
    assert!(accepts("die Flasche voll Wasser", reference));
    assert!(!accepts("der Flasche", reference));
    assert!(!accepts("hat gehangen/hat gehängt", "hat gehangen/hat gehängt"));
    assert!(accepts("hat gehangen", "hat gehangen/hat gehängt"));
    assert!(accepts("hat hat gehängt", "hat gehangen/hat gehängt"));
}

#[test]
fn same_text_compares_characters() {
    assert!(same_text("", ""));
    assert!(same_text("fährt", "fährt"));
    assert!(!same_text("fährt", "fahrt"));
    assert!(!same_text("a", "ab"));
}

#[test]
fn split_raw_word_gives_first_and_second_piece() {
    assert_eq!(split_raw_word("a/b", '/'), ("a", Some("b")));
    assert_eq!(split_raw_word("ab", '/'), ("ab", None));
    assert_eq!(split_raw_word("a/b/c", '/'), ("a", Some("b")));
    assert_eq!(split_raw_word("/x", '/'), ("", Some("x")));
    assert_eq!(split_raw_word("a/", '/'), ("a", Some("")));
    assert_eq!(split_raw_word("", '/'), ("", None));
    assert_eq!(split_raw_word("fährt/fuhr", '/'), ("fährt", Some("fuhr")));
    assert_eq!(split_raw_word("der Hund", ' '), ("der", Some("Hund")));
}

#[test]
fn feedback_row_for_a_right_answer() {
    let row = format_answered("gehen", &"gehen".to_string(), "Infinitiv");
    assert_eq!(row, "       Infinitiv │ gehen            │ ✅ gehen");
    assert_eq!(row, format!("{:>16} │ {:16} │ ✅ {}", "Infinitiv", "gehen", "gehen"));
}

#[test]
fn feedback_row_for_a_wrong_answer() {
    let row = format_answered("gang", &"ging".to_string(), "Präteritum");
    assert_eq!(row, "      Präteritum │ gang             │ ❌ ging");
    assert_eq!(row, format!("{:>16} │ {:16} │ ❌ {}", "Präteritum", "gang", "ging"));
}

#[test]
fn feedback_row_shows_the_stored_form_as_written() {
    let row = format_answered("ab fährt", &"ab fahren/fährt".to_string(), "Präsens");
    assert_eq!(row, "         Präsens │ ab fährt         │ ✅ ab fahren/fährt");
    assert_eq!(row, format!("{:>16} │ {:16} │ ✅ {}", "Präsens", "ab fährt", "ab fahren/fährt"));
}

#[test]
fn feedback_row_does_not_cut_long_texts() {
    let answer = "ist spazieren gegangen";
    let tense = "Plusquamperfekt II";
    let row = format_answered(answer, &"x".to_string(), tense);
    assert_eq!(row, "Plusquamperfekt II │ ist spazieren gegangen │ ❌ x");
    assert_eq!(row, format!("{:>16} │ {:16} │ ❌ {}", tense, answer, "x"));
}
