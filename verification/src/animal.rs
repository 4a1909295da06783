//! The animals of the selection menu.

use vstd::prelude::*;
use vstd::string::*;

verus! {

#[derive(Clone, Copy, Debug, PartialEq, Eq, Structural)]
pub enum Animal {
    Cat,
    Dog,
    Horse,
    Alpaca,
}

/// The text that could not be read as a component.
#[derive(Debug)]
pub struct ParseComponentError(pub String);

impl ParseComponentError {
    pub open spec fn message_text(&self) -> Seq<char> {
        "Failed to parse "@ + self.0@ + " as component"@
    }

    /// What to tell about the failure.
    pub fn message(&self) -> (text: String)
        ensures
            text@ == self.message_text(),
    {
        let mut text = String::from_str("Failed to parse ");
        text.append(self.0.as_str());
        text.append(" as component");
        text
    }
}

impl Animal {
    pub open spec fn emoji_char(&self) -> char {
        match self {
            Animal::Cat => '\u{1F408}',
            Animal::Dog => '\u{1F415}',
            Animal::Horse => '\u{1F40E}',
            Animal::Alpaca => '\u{1F999}',
        }
    }

    /// The name as it is shown.
    pub open spec fn label_text(&self) -> Seq<char> {
        match self {
            Animal::Cat => "Cat"@,
            Animal::Dog => "Dog"@,
            Animal::Horse => "Horse"@,
            Animal::Alpaca => "Alpaca"@,
        }
    }

    /// The name as it identifies a menu option.
    pub open spec fn id_text(&self) -> Seq<char> {
        match self {
            Animal::Cat => "cat"@,
            Animal::Dog => "dog"@,
            Animal::Horse => "horse"@,
            Animal::Alpaca => "alpaca"@,
        }
    }

    /// The animal that an identifier stands for.
    pub open spec fn parsed(text: Seq<char>) -> Option<Animal> {
        if text == "cat"@ {
            Some(Animal::Cat)
        } else if text == "dog"@ {
            Some(Animal::Dog)
        } else if text == "horse"@ {
            Some(Animal::Horse)
        } else if text == "alpaca"@ {
            Some(Animal::Alpaca)
        } else {
            None
        }
    }

    pub fn emoji(&self) -> (c: char)
        ensures
            c == self.emoji_char(),
    {
        match self {
            Self::Cat => '\u{1F408}',
            Self::Dog => '\u{1F415}',
            Self::Horse => '\u{1F40E}',
            Self::Alpaca => '\u{1F999}',
        }
    }

    pub fn label(&self) -> (text: String)
        ensures
            text@ == self.label_text(),
    {
        match self {
            Self::Cat => String::from_str("Cat"),
            Self::Dog => String::from_str("Dog"),
            Self::Horse => String::from_str("Horse"),
            Self::Alpaca => String::from_str("Alpaca"),
        }
    }

    /// The value that identifies the menu option of this animal.
    pub fn custom_id(&self) -> (text: String)
        ensures
            text@ == self.id_text(),
    {
        match self {
            Self::Cat => String::from_str("cat"),
            Self::Dog => String::from_str("dog"),
            Self::Horse => String::from_str("horse"),
            Self::Alpaca => String::from_str("alpaca"),
        }
    }

    /// What the menu option shows: the emoji, a space, the name.
    pub fn menu_label(&self) -> (text: String)
        ensures
            text@ == seq![self.emoji_char(), ' '] + self.label_text(),
    {
        proof {
            reveal_strlit("\u{1F408} ");
            reveal_strlit("\u{1F415} ");
            reveal_strlit("\u{1F40E} ");
            reveal_strlit("\u{1F999} ");
        }
        let mut text = match self {
            Self::Cat => String::from_str("\u{1F408} "),
            Self::Dog => String::from_str("\u{1F415} "),
            Self::Horse => String::from_str("\u{1F40E} "),
            Self::Alpaca => String::from_str("\u{1F999} "),
        };
        assert(text@ =~= seq![self.emoji_char(), ' ']);
        let label = self.label();
        text.append(label.as_str());
        text
    }

    /// Reads a menu value; anything but the four identifiers is handed
    /// back in the error.
    pub fn from_str(s: &str) -> (animal: Result<Animal, ParseComponentError>)
        ensures
            match animal {
                Ok(a) => Self::parsed(s@) == Some(a),
                Err(e) => Self::parsed(s@) is None && e.0@ == s@,
            },
    {
        let owned = String::from_str(s);
        if owned == String::from_str("cat") {
            Ok(Animal::Cat)
        } else if owned == String::from_str("dog") {
            Ok(Animal::Dog)
        } else if owned == String::from_str("horse") {
            Ok(Animal::Horse)
        } else if owned == String::from_str("alpaca") {
            Ok(Animal::Alpaca)
        } else {
            Err(ParseComponentError(owned))
        }
    }
}

/// Every animal is read back from its own identifier.
pub proof fn lemma_identifier_round_trip(animal: Animal)
    ensures
        Animal::parsed(animal.id_text()) == Some(animal),
{
    reveal_strlit("cat");
    reveal_strlit("dog");
    reveal_strlit("horse");
    reveal_strlit("alpaca");
    assert("cat"@[0] == 'c' && "dog"@[0] == 'd' && "horse"@[0] == 'h' && "alpaca"@[0] == 'a');
}

} // verus!
