use kana_practice::kana::{KanaTable, CATEGORY_COUNT};
use kana_practice::quiz::{judge, Msg, Outcome, QuizError, QuizSession};
use kana_practice::selection::CategorySelection;

fn message(o: &Outcome) -> Option<String> {
    match o {
        Outcome::Incorrect(m) => Some(m.clone()),
        _ => None,
    }
}

#[test]
fn new_session_starts_clean() {
    let s = QuizSession::new();
    assert_eq!(s.correct_count(), 0);
    assert_eq!(s.incorrect_count(), 0);
    assert_eq!(s.input(), "");
    assert!(matches!(s.last_outcome(), Outcome::NoGuess));
    assert_eq!(s.selection().flags, CategorySelection::new().flags);
    let base = KanaTable::new().glyphs_for(&CategorySelection::new());
    assert!(base.contains(&s.current_glyph()));
}

#[test]
fn uppercase_guess_is_correct() {
    let mut s = QuizSession::new();
    assert_eq!(s.advance_with(5), Ok(()));
    assert_eq!(s.current_glyph(), "か");
    let o = s.submit_guess("KA");
    assert!(matches!(o, Outcome::Correct));
    assert!(matches!(s.last_outcome(), Outcome::Correct));
    assert_eq!(s.correct_count(), 1);
    assert_eq!(s.incorrect_count(), 0);
}

#[test]
fn wrong_guess_names_the_reading() {
    let mut s = QuizSession::new();
    s.advance_with(5).unwrap();
    let o = s.submit_guess("ga");
    assert_eq!(message(&o).as_deref(), Some("か = ka"));
    assert_eq!(message(s.last_outcome()).as_deref(), Some("か = ka"));
    assert_eq!(s.correct_count(), 0);
    assert_eq!(s.incorrect_count(), 1);
}

#[test]
fn guess_is_not_trimmed() {
    let mut s = QuizSession::new();
    s.advance_with(5).unwrap();
    assert!(!s.submit_guess(" ka").is_correct());
    s.advance_with(5).unwrap();
    assert!(!s.submit_guess("ka ").is_correct());
    s.advance_with(5).unwrap();
    assert!(s.submit_guess("Ka").is_correct());
    assert_eq!(s.correct_count(), 1);
    assert_eq!(s.incorrect_count(), 2);
}

#[test]
fn judge_on_given_values() {
    let t = KanaTable::new();
    assert!(matches!(judge(&t, "し", "shi"), Outcome::Correct));
    assert_eq!(message(&judge(&t, "し", "SHI")).as_deref(), Some("し = shi"));
    assert_eq!(message(&judge(&t, "ぢ", "di")).as_deref(), Some("ぢ = ji"));
    assert!(matches!(judge(&t, "ぢ", "ji"), Outcome::Correct));
    assert_eq!(message(&judge(&t, "x", "x")).as_deref(), Some("x = "));
}

#[test]
fn advance_with_wraps_the_draw() {
    let mut s = QuizSession::new();
    s.advance_with(46 + 5).unwrap();
    assert_eq!(s.current_glyph(), "か");
    s.advance_with(0).unwrap();
    assert_eq!(s.current_glyph(), "あ");
    s.toggle_category(0);
    s.toggle_category(9);
    s.advance_with(4).unwrap();
    assert_eq!(s.current_glyph(), "オー");
}

#[test]
fn all_categories_off_is_an_error() {
    let mut s = QuizSession::new();
    s.advance_with(7).unwrap();
    let before = s.current_glyph().to_string();
    s.toggle_category(0);
    assert_eq!(s.selection().flags, [false; 10]);
    assert_eq!(s.advance(), Err(QuizError::EmptySelection));
    assert_eq!(s.advance_with(3), Err(QuizError::EmptySelection));
    assert_eq!(s.current_glyph(), before);
    assert!(matches!(s.last_outcome(), Outcome::AwaitingSelection));
}

#[test]
fn guess_with_no_categories_keeps_glyph() {
    let mut s = QuizSession::new();
    s.advance_with(5).unwrap();
    s.toggle_category(0);
    let o = s.submit_guess("ka");
    assert!(o.is_correct());
    assert_eq!(s.correct_count(), 1);
    assert_eq!(s.current_glyph(), "か");
    assert!(matches!(s.last_outcome(), Outcome::AwaitingSelection));
    s.toggle_category(6);
    assert_eq!(s.advance(), Ok(()));
    assert_eq!(KanaTable::new().lookup(s.current_glyph()).is_some(), true);
}

#[test]
fn advance_stays_in_enabled_categories() {
    let t = KanaTable::new();
    let mut s = QuizSession::new();
    s.toggle_category(0);
    s.toggle_category(2);
    s.toggle_category(7);
    let mut flags = [false; 10];
    flags[2] = true;
    flags[7] = true;
    let allowed = t.glyphs_for(&CategorySelection { flags });
    assert_eq!(allowed.len(), 42);
    for _ in 0..200 {
        assert_eq!(s.advance(), Ok(()));
        assert!(allowed.contains(&s.current_glyph()));
    }
}

#[test]
fn counters_move_one_at_a_time() {
    let mut s = QuizSession::new();
    let mut correct = 0;
    let mut incorrect = 0;
    for round in 0..30usize {
        let right = KanaTable::new().lookup(s.current_glyph()).unwrap().to_string();
        let guess = if round % 3 == 0 { "nope".to_string() } else { right.to_uppercase() };
        let o = s.submit_guess(&guess);
        if o.is_correct() {
            correct += 1;
        } else {
            incorrect += 1;
        }
        assert_eq!(s.correct_count(), correct);
        assert_eq!(s.incorrect_count(), incorrect);
        assert_eq!(s.input(), "");
    }
    assert_eq!(correct, 20);
    assert_eq!(incorrect, 10);
}

#[test]
fn messages_drive_the_session() {
    let mut s = QuizSession::new();
    s.advance_with(11).unwrap();
    assert_eq!(s.current_glyph(), "し");
    assert!(s.update(Msg::Input("SHI".to_string())));
    assert_eq!(s.input(), "SHI");
    assert!(s.update(Msg::Guess));
    assert_eq!(s.correct_count(), 1);
    assert_eq!(s.input(), "");
    assert!(s.update(Msg::Toggle(CATEGORY_COUNT - 1)));
    assert!(s.selection().is_enabled(9));
    assert!(!s.update(Msg::Ignore));
    assert!(s.update(Msg::Guess));
    assert_eq!(s.incorrect_count(), 1);
    assert_eq!(s.correct_count(), 1);
}

#[test]
fn update_input_is_verbatim() {
    let mut s = QuizSession::new();
    s.update_input("  Ka\t".to_string());
    assert_eq!(s.input(), "  Ka\t");
    let d = s.last_outcome().duplicate();
    assert!(matches!(d, Outcome::NoGuess));
}
