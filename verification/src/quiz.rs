//! The messages of a quiz round.

use vstd::prelude::*;
use vstd::string::*;
use crate::decimal::{decimal, decimal_text, signed_decimal, signed_text};
use crate::question::QuestionTF;

verus! {

/// How long a question stays open, in seconds.
pub const QUESTION_TIME: u64 = 30;

/// Where the text of a quiz question is kept.
pub open spec fn question_path_text(question_number: int) -> Seq<char> {
    "questions/q"@ + signed_text(question_number) + ".rs"@
}

/// The message that asks a question at time `now`, in seconds since the
/// epoch, and announces when the answer will be shown.
pub open spec fn question_message_text(contents: Seq<char>, now: nat) -> Seq<char> {
    "Does this code compile?"@ + "```rust\n"@ + contents + "```"@ + "Showing answer <t:"@
        + decimal_text(now + QUESTION_TIME as nat) + ":R>"@
}

/// The mentions in order, each followed by a space.
pub open spec fn mentions_text(mentions: Seq<Seq<char>>) -> Seq<char>
    decreases mentions.len(),
{
    if mentions.len() == 0 {
        Seq::empty()
    } else {
        mentions_text(mentions.drop_last()) + mentions.last() + seq![' ']
    }
}

/// The message that closes a question: who was right, and the answer.
pub open spec fn answer_message_text(
    mentions: Seq<Seq<char>>,
    separator: Seq<char>,
    answer: QuestionTF,
    contents: Seq<char>,
) -> Seq<char> {
    "The following people got the question right:\n\n"@ + mentions_text(mentions)
        + "\n\nThe correct answer was:"@ + separator + answer.label_text() + "```rust\n"@
        + contents + "```"@
}

pub open spec fn choice_message_text(choice: QuestionTF) -> Seq<char> {
    "You choose "@ + choice.label_text()
}

/// What each of the strings holds.
pub open spec fn texts(strings: Seq<String>) -> Seq<Seq<char>> {
    Seq::new(strings.len(), |i: int| strings[i]@)
}

pub fn question_path(question_number: i64) -> (path: String)
    ensures
        path@ == question_path_text(question_number as int),
{
    let mut path = String::from_str("questions/q");
    let digits = signed_decimal(question_number);
    path.append(digits.as_str());
    path.append(".rs");
    path
}

pub fn question_message(contents: &str, now: u64) -> (text: String)
    requires
        now + QUESTION_TIME <= u64::MAX,
    ensures
        text@ == question_message_text(contents@, now as nat),
{
    let mut text = String::from_str("Does this code compile?");
    text.append("```rust\n");
    text.append(contents);
    text.append("```");
    text.append("Showing answer <t:");
    let shown_at = decimal(now + QUESTION_TIME);
    text.append(shown_at.as_str());
    text.append(":R>");
    text
}

pub fn answer_message(
    mentions: &Vec<String>,
    separator: &str,
    answer: QuestionTF,
    contents: &str,
) -> (text: String)
    ensures
        text@ == answer_message_text(texts(mentions@), separator@, answer, contents@),
{
    proof {
        reveal_strlit(" ");
    }
    let mut text = String::from_str("The following people got the question right:\n\n");
    let ghost lead = text@;
    let mut i: usize = 0;
    assert(texts(mentions@).take(0) =~= Seq::<Seq<char>>::empty());
    assert(text@ =~= lead + mentions_text(texts(mentions@).take(0)));
    while i < mentions.len()
        invariant
            i <= mentions.len(),
            " "@ == seq![' '],
            text@ == lead + mentions_text(texts(mentions@).take(i as int)),
        decreases mentions.len() - i,
    {
        let ghost before = texts(mentions@).take(i as int);
        let ghost after = texts(mentions@).take(i + 1);
        text.append(mentions[i].as_str());
        text.append(" ");
        assert(after.drop_last() =~= before);
        assert(after.last() == mentions@[i as int]@);
        assert(text@ =~= lead + mentions_text(after));
        i = i + 1;
    }
    assert(texts(mentions@).take(i as int) =~= texts(mentions@));
    text.append("\n\nThe correct answer was:");
    text.append(separator);
    let label = answer.label();
    text.append(label.as_str());
    text.append("```rust\n");
    text.append(contents);
    text.append("```");
    text
}

pub fn choice_message(choice: QuestionTF) -> (text: String)
    ensures
        text@ == choice_message_text(choice),
{
    let mut text = String::from_str("You choose ");
    let label = choice.label();
    text.append(label.as_str());
    text
}

} // verus!
