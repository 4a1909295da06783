use rustbot::animal::Animal;
use rustbot::question::QuestionTF;
use rustbot::quiz::{answer_message, choice_message, question_message, question_path};
use rustbot::sound::Sound;

#[test]
fn question_choices() {
    assert_eq!(QuestionTF::True.emoji(), '\u{2705}');
    assert_eq!(QuestionTF::False.emoji(), '\u{274C}');
    assert_eq!(QuestionTF::True.label(), "True");
    assert_eq!(QuestionTF::False.label(), "False");
    assert_eq!(QuestionTF::True.custom_id(), "true");
    assert_eq!(QuestionTF::False.custom_id(), "false");
}

#[test]
fn question_choices_are_read_back() {
    assert_eq!(QuestionTF::from_str("true").unwrap(), QuestionTF::True);
    assert_eq!(QuestionTF::from_str("false").unwrap(), QuestionTF::False);
    for choice in [QuestionTF::True, QuestionTF::False] {
        assert_eq!(QuestionTF::from_str(&choice.custom_id()).unwrap(), choice);
    }
}

#[test]
fn unknown_choice_is_handed_back() {
    let error = QuestionTF::from_str("True").unwrap_err();
    assert_eq!(error.0, "True");
    assert_eq!(error.message(), "Failed to parse True as component");
    assert!(QuestionTF::from_str("").is_err());
}

#[test]
fn answer_key_by_question_number() {
    assert_eq!(QuestionTF::answer_to(1), Some(QuestionTF::True));
    assert_eq!(QuestionTF::answer_to(2), Some(QuestionTF::True));
    assert_eq!(QuestionTF::answer_to(3), Some(QuestionTF::False));
    assert_eq!(QuestionTF::answer_to(4), Some(QuestionTF::False));
    assert_eq!(QuestionTF::answer_to(5), Some(QuestionTF::True));
    assert_eq!(QuestionTF::answer_to(6), Some(QuestionTF::True));
    assert_eq!(QuestionTF::answer_to(7), Some(QuestionTF::False));
    assert_eq!(QuestionTF::answer_to(0), None);
    assert_eq!(QuestionTF::answer_to(8), None);
    assert_eq!(QuestionTF::answer_to(-1), None);
    assert_eq!(QuestionTF::answer_to(i64::MAX), None);
    assert_eq!(QuestionTF::answer_to(i64::MIN), None);
}

#[test]
fn choices_are_judged_against_the_key() {
    assert!(QuestionTF::True.is_answer_to(1));
    assert!(!QuestionTF::False.is_answer_to(1));
    assert!(QuestionTF::False.is_answer_to(7));
    assert!(!QuestionTF::True.is_answer_to(8));
    assert!(!QuestionTF::False.is_answer_to(0));
}

#[test]
fn animals() {
    assert_eq!(Animal::Cat.emoji(), '\u{1F408}');
    assert_eq!(Animal::Dog.emoji(), '\u{1F415}');
    assert_eq!(Animal::Horse.emoji(), '\u{1F40E}');
    assert_eq!(Animal::Alpaca.emoji(), '\u{1F999}');
    assert_eq!(Animal::Cat.label(), "Cat");
    assert_eq!(Animal::Alpaca.label(), "Alpaca");
    assert_eq!(Animal::Horse.custom_id(), "horse");
    assert_eq!(Animal::Dog.menu_label(), "\u{1F415} Dog");
    assert_eq!(Animal::Alpaca.menu_label(), "\u{1F999} Alpaca");
    for animal in [Animal::Cat, Animal::Dog, Animal::Horse, Animal::Alpaca] {
        assert_eq!(Animal::from_str(&animal.custom_id()).unwrap(), animal);
        assert_eq!(animal.custom_id(), animal.label().to_ascii_lowercase());
        assert_eq!(animal.menu_label(), format!("{} {}", animal.emoji(), animal.label()));
    }
    let error = Animal::from_str("Cat").unwrap_err();
    assert_eq!(error.0, "Cat");
    assert_eq!(error.message(), "Failed to parse Cat as component");
}

#[test]
fn sounds() {
    assert_eq!(Sound::Meow.emoji(), Animal::Cat.emoji());
    assert_eq!(Sound::Woof.emoji(), Animal::Dog.emoji());
    assert_eq!(Sound::Neigh.emoji(), Animal::Horse.emoji());
    assert_eq!(Sound::Honk.emoji(), Animal::Alpaca.emoji());
    assert_eq!(Sound::Honk.label(), "hoooooooonk");
    for sound in [Sound::Meow, Sound::Woof, Sound::Neigh, Sound::Honk] {
        assert_eq!(Sound::from_str(&sound.label()).unwrap(), sound);
    }
    assert_eq!(Sound::from_str("honk").unwrap_err().0, "honk");
}

#[test]
fn question_files() {
    assert_eq!(question_path(1), "questions/q1.rs");
    assert_eq!(question_path(7), "questions/q7.rs");
    assert_eq!(question_path(-3), "questions/q-3.rs");
    assert_eq!(question_path(0), "questions/q0.rs");
}

#[test]
fn question_is_asked_with_its_deadline() {
    assert_eq!(
        question_message("fn main() {}\n", 1650000000),
        "Does this code compile?```rust\nfn main() {}\n```Showing answer <t:1650000030:R>"
    );
    assert_eq!(
        question_message("", 0),
        "Does this code compile?```rust\n```Showing answer <t:30:R>"
    );
    assert_eq!(
        question_message("x", 18446744073709551585),
        "Does this code compile?```rust\nx```Showing answer <t:18446744073709551615:R>"
    );
}

#[test]
fn answer_names_who_was_right() {
    let mentions = vec!["<@1>".to_string(), "<@22>".to_string()];
    assert_eq!(
        answer_message(&mentions, " ", QuestionTF::False, "let x;"),
        "The following people got the question right:\n\n<@1> <@22> \n\nThe correct answer was: False```rust\nlet x;```"
    );
    assert_eq!(
        answer_message(&Vec::new(), "", QuestionTF::True, "let x;"),
        "The following people got the question right:\n\n\n\nThe correct answer was:True```rust\nlet x;```"
    );
}

#[test]
fn choice_is_acknowledged() {
    assert_eq!(choice_message(QuestionTF::True), "You choose True");
    assert_eq!(choice_message(QuestionTF::False), "You choose False");
}
