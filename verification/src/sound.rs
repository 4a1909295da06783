//! The sounds that the animals make.

use vstd::prelude::*;
use vstd::string::*;
use crate::animal::{Animal, ParseComponentError};

verus! {

#[derive(Clone, Copy, Debug, PartialEq, Eq, Structural)]
pub enum Sound {
    Meow,
    Woof,
    Neigh,
    Honk,
}

impl Sound {
    /// The animal that makes the sound.
    pub open spec fn animal(&self) -> Animal {
        match self {
            Sound::Meow => Animal::Cat,
            Sound::Woof => Animal::Dog,
            Sound::Neigh => Animal::Horse,
            Sound::Honk => Animal::Alpaca,
        }
    }

    /// The sound as it is shown, and as it identifies a button.
    pub open spec fn label_text(&self) -> Seq<char> {
        match self {
            Sound::Meow => "meow"@,
            Sound::Woof => "woof"@,
            Sound::Neigh => "neigh"@,
            Sound::Honk => "hoooooooonk"@,
        }
    }

    /// The sound that a text stands for.
    pub open spec fn parsed(text: Seq<char>) -> Option<Sound> {
        if text == "meow"@ {
            Some(Sound::Meow)
        } else if text == "woof"@ {
            Some(Sound::Woof)
        } else if text == "neigh"@ {
            Some(Sound::Neigh)
        } else if text == "hoooooooonk"@ {
            Some(Sound::Honk)
        } else {
            None
        }
    }

    /// The emoji of the animal that makes the sound.
    pub fn emoji(&self) -> (c: char)
        ensures
            c == self.animal().emoji_char(),
    {
        match self {
            Self::Meow => Animal::Cat.emoji(),
            Self::Woof => Animal::Dog.emoji(),
            Self::Neigh => Animal::Horse.emoji(),
            Self::Honk => Animal::Alpaca.emoji(),
        }
    }

    pub fn label(&self) -> (text: String)
        ensures
            text@ == self.label_text(),
    {
        match self {
            Self::Meow => String::from_str("meow"),
            Self::Woof => String::from_str("woof"),
            Self::Neigh => String::from_str("neigh"),
            Self::Honk => String::from_str("hoooooooonk"),
        }
    }

    /// Reads a button identifier; anything but the four sounds is handed
    /// back in the error.
    pub fn from_str(s: &str) -> (sound: Result<Sound, ParseComponentError>)
        ensures
            match sound {
                Ok(x) => Self::parsed(s@) == Some(x),
                Err(e) => Self::parsed(s@) is None && e.0@ == s@,
            },
    {
        let owned = String::from_str(s);
        if owned == String::from_str("meow") {
            Ok(Sound::Meow)
        } else if owned == String::from_str("woof") {
            Ok(Sound::Woof)
        } else if owned == String::from_str("neigh") {
            Ok(Sound::Neigh)
        } else if owned == String::from_str("hoooooooonk") {
            Ok(Sound::Honk)
        } else {
            Err(ParseComponentError(owned))
        }
    }
}

/// Every sound is read back from its own label.
pub proof fn lemma_label_round_trip(sound: Sound)
    ensures
        Sound::parsed(sound.label_text()) == Some(sound),
{
    reveal_strlit("meow");
    reveal_strlit("woof");
    reveal_strlit("neigh");
    reveal_strlit("hoooooooonk");
    assert("meow"@[0] == 'm' && "woof"@[0] == 'w' && "neigh"@[0] == 'n' && "hoooooooonk"@[0] == 'h');
}

} // verus!
