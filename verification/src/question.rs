//! True-or-false questions and their answer key.

use vstd::prelude::*;
use vstd::string::*;

verus! {

#[derive(Clone, Copy, Debug, PartialEq, Eq, Structural)]
pub enum QuestionTF {
    True,
    False,
}

/// The text that could not be read as a component.
#[derive(Debug)]
pub struct ParseComponentError(pub String);

impl ParseComponentError {
    pub open spec fn message_text(&self) -> Seq<char> {
        "Failed to parse "@ + self.0@ + " as component"@
    }

    /// What to tell about the failure.
    pub fn message(&self) -> (text: String)
        ensures
            text@ == self.message_text(),
    {
        let mut text = String::from_str("Failed to parse ");
        text.append(self.0.as_str());
        text.append(" as component");
        text
    }
}

/// The answers of the quiz, question one first.
pub open spec fn answer_key() -> Seq<QuestionTF> {
    seq![
        QuestionTF::True,
        QuestionTF::True,
        QuestionTF::False,
        QuestionTF::False,
        QuestionTF::True,
        QuestionTF::True,
        QuestionTF::False,
    ]
}

impl QuestionTF {
    pub open spec fn emoji_char(&self) -> char {
        match self {
            QuestionTF::True => '\u{2705}',
            QuestionTF::False => '\u{274C}',
        }
    }

    /// The name as it is shown.
    pub open spec fn label_text(&self) -> Seq<char> {
        match self {
            QuestionTF::True => "True"@,
            QuestionTF::False => "False"@,
        }
    }

    /// The name as it identifies a button.
    pub open spec fn id_text(&self) -> Seq<char> {
        match self {
            QuestionTF::True => "true"@,
            QuestionTF::False => "false"@,
        }
    }

    /// The choice that an identifier stands for.
    pub open spec fn parsed(text: Seq<char>) -> Option<QuestionTF> {
        if text == "true"@ {
            Some(QuestionTF::True)
        } else if text == "false"@ {
            Some(QuestionTF::False)
        } else {
            None
        }
    }

    pub fn emoji(&self) -> (c: char)
        ensures
            c == self.emoji_char(),
    {
        match self {
            Self::True => '\u{2705}',
            Self::False => '\u{274C}',
        }
    }

    pub fn label(&self) -> (text: String)
        ensures
            text@ == self.label_text(),
    {
        match self {
            Self::True => String::from_str("True"),
            Self::False => String::from_str("False"),
        }
    }

    pub fn custom_id(&self) -> (text: String)
        ensures
            text@ == self.id_text(),
    {
        match self {
            Self::True => String::from_str("true"),
            Self::False => String::from_str("false"),
        }
    }

    /// Reads a button identifier; anything but `true` and `false` is
    /// handed back in the error.
    pub fn from_str(s: &str) -> (choice: Result<QuestionTF, ParseComponentError>)
        ensures
            match choice {
                Ok(c) => Self::parsed(s@) == Some(c),
                Err(e) => Self::parsed(s@) is None && e.0@ == s@,
            },
    {
        let owned = String::from_str(s);
        if owned == String::from_str("true") {
            Ok(Self::True)
        } else if owned == String::from_str("false") {
            Ok(Self::False)
        } else {
            Err(ParseComponentError(owned))
        }
    }

    /// The right answer to a question, counted from one; `None` for a
    /// number that the quiz does not have.
    pub fn answer_to(question_number: i64) -> (answer: Option<QuestionTF>)
        ensures
            answer == if 1 <= question_number <= answer_key().len() {
                Some(answer_key()[question_number - 1])
            } else {
                None
            },
    {
        let answers = [
            QuestionTF::True,
            QuestionTF::True,
            QuestionTF::False,
            QuestionTF::False,
            QuestionTF::True,
            QuestionTF::True,
            QuestionTF::False,
        ];
        if question_number < 1 || question_number > 7 {
            None
        } else {
            Some(answers[(question_number - 1) as usize])
        }
    }

    /// Whether this choice is the right answer to the question.
    pub fn is_answer_to(&self, question_number: i64) -> (right: bool)
        ensures
            right == (1 <= question_number <= answer_key().len() && answer_key()[question_number
                - 1] == *self),
    {
        match Self::answer_to(question_number) {
            Some(answer) => answer == *self,
            None => false,
        }
    }
}

/// Every choice is read back from its own identifier.
pub proof fn lemma_identifier_round_trip(choice: QuestionTF)
    ensures
        QuestionTF::parsed(choice.id_text()) == Some(choice),
{
    reveal_strlit("true");
    reveal_strlit("false");
    assert("true"@.len() == 4 && "false"@.len() == 5);
}

} // verus!
