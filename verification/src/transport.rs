//! Carrying an arbitrary payload across the shell as one inert word.

use vstd::prelude::*;
use vstd::string::*;
use crate::words::{is_inert, is_plain_line};
use crate::container::space;

verus! {

/// The character for a six-bit value in the standard base64 alphabet.
pub open spec fn sextet_char(v: int) -> char {
    if v < 26 {
        ('A' as int + v) as char
    } else if v < 52 {
        ('a' as int + (v - 26)) as char
    } else if v < 62 {
        ('0' as int + (v - 52)) as char
    } else if v == 62 {
        '+'
    } else {
        '/'
    }
}

/// The six-bit value of a character of the alphabet.
pub open spec fn sextet_of(c: char) -> Option<int> {
    if 'A' <= c <= 'Z' {
        Some(c as int - 'A' as int)
    } else if 'a' <= c <= 'z' {
        Some(c as int - 'a' as int + 26)
    } else if '0' <= c <= '9' {
        Some(c as int - '0' as int + 52)
    } else if c == '+' {
        Some(62)
    } else if c == '/' {
        Some(63)
    } else {
        None
    }
}

/// Standard base64 with padding: each three bytes become four characters,
/// and a last group of one or two bytes is filled up with `=`.
pub open spec fn encoded(bytes: Seq<u8>) -> Seq<char>
    decreases bytes.len(),
{
    if bytes.len() == 0 {
        Seq::empty()
    } else if bytes.len() == 1 {
        let a = bytes[0] as int;
        seq![sextet_char(a / 4), sextet_char(a % 4 * 16), '=', '=']
    } else if bytes.len() == 2 {
        let a = bytes[0] as int;
        let b = bytes[1] as int;
        seq![sextet_char(a / 4), sextet_char(a % 4 * 16 + b / 16), sextet_char(b % 16 * 4), '=']
    } else {
        let a = bytes[0] as int;
        let b = bytes[1] as int;
        let c = bytes[2] as int;
        seq![
            sextet_char(a / 4),
            sextet_char(a % 4 * 16 + b / 16),
            sextet_char(b % 16 * 4 + c / 64),
            sextet_char(c % 64),
        ] + encoded(bytes.skip(3))
    }
}

/// The bytes that a canonical, padded base64 text stands for.
pub open spec fn decoded(text: Seq<char>) -> Option<Seq<u8>>
    decreases text.len(),
{
    if text.len() == 0 {
        Some(Seq::empty())
    } else if text.len() < 4 {
        None
    } else {
        let p = sextet_of(text[0]);
        let q = sextet_of(text[1]);
        let r = sextet_of(text[2]);
        let s = sextet_of(text[3]);
        if text.len() == 4 && text[3] == '=' && text[2] == '=' {
            if p is Some && q is Some && q->0 % 16 == 0 {
                Some(seq![(p->0 * 4 + q->0 / 16) as u8])
            } else {
                None
            }
        } else if text.len() == 4 && text[3] == '=' {
            if p is Some && q is Some && r is Some && r->0 % 4 == 0 {
                Some(seq![(p->0 * 4 + q->0 / 16) as u8, (q->0 % 16 * 16 + r->0 / 4) as u8])
            } else {
                None
            }
        } else if p is Some && q is Some && r is Some && s is Some {
            match decoded(text.skip(4)) {
                Some(rest) => Some(
                    seq![
                        (p->0 * 4 + q->0 / 16) as u8,
                        (q->0 % 16 * 16 + r->0 / 4) as u8,
                        (r->0 % 4 * 64 + s->0) as u8,
                    ] + rest,
                ),
                None => None,
            }
        } else {
            None
        }
    }
}

/// Name of the program inside the image that decodes and runs a payload.
pub open spec fn bootstrap() -> Seq<char> {
    "trampoline"@
}

/// The in-container command for a payload: the bootstrap program and the
/// encoded payload as its only argument.
pub open spec fn payload_command(payload: Seq<u8>) -> Seq<char> {
    bootstrap() + space() + encoded(payload)
}

/// No byte slice is longer than this, and up to this length the size of
/// the encoding is certain to fit in `usize`.
pub open spec fn max_payload_len() -> int {
    isize::MAX as int
}

/// `base64::encode` on a byte slice. The contract claims that the crate
/// produces standard base64 with padding, as `encoded` spells it out, and
/// leaves out the lengths on which the crate's buffer size would overflow.
#[verifier::external_body]
fn base64_encode(bytes: &[u8]) -> (text: String)
    requires
        bytes@.len() <= max_payload_len(),
    ensures
        text@ == encoded(bytes@),
{
    base64::encode(bytes)
}

/// Builds the in-container command for `payload`.
pub fn trampoline_command(payload: &[u8]) -> (command: String)
    requires
        payload@.len() <= max_payload_len(),
    ensures
        command@ == payload_command(payload@),
{
    proof {
        reveal_strlit(" ");
    }
    let mut command = String::from_str("trampoline");
    command.append(" ");
    let text = base64_encode(payload);
    command.append(text.as_str());
    assert(" "@ =~= space());
    command
}

/// Each six-bit value and its character determine one another.
pub proof fn lemma_sextet_round_trip(v: int)
    requires
        0 <= v < 64,
    ensures
        sextet_of(sextet_char(v)) == Some(v),
        is_inert(sextet_char(v)),
        sextet_char(v) != '=',
        sextet_char(v) != '-',
{
}

/// Decoding an encoded payload gives the payload back, byte for byte.
pub proof fn lemma_decode_encode(payload: Seq<u8>)
    ensures
        decoded(encoded(payload)) == Some(payload),
    decreases payload.len(),
{
    let text = encoded(payload);
    if payload.len() == 0 {
    } else if payload.len() == 1 {
        let a = payload[0] as int;
        lemma_sextet_round_trip(a / 4);
        lemma_sextet_round_trip(a % 4 * 16);
        assert(decoded(text)->0 =~= payload);
    } else if payload.len() == 2 {
        let a = payload[0] as int;
        let b = payload[1] as int;
        lemma_sextet_round_trip(a / 4);
        lemma_sextet_round_trip(a % 4 * 16 + b / 16);
        lemma_sextet_round_trip(b % 16 * 4);
        assert(decoded(text)->0 =~= payload);
    } else {
        let a = payload[0] as int;
        let b = payload[1] as int;
        let c = payload[2] as int;
        lemma_sextet_round_trip(a / 4);
        lemma_sextet_round_trip(a % 4 * 16 + b / 16);
        lemma_sextet_round_trip(b % 16 * 4 + c / 64);
        lemma_sextet_round_trip(c % 64);
        let rest = payload.skip(3);
        lemma_decode_encode(rest);
        assert(text.skip(4) =~= encoded(rest));
        assert(text.len() >= 4);
        assert(text[3] == sextet_char(c % 64));
        assert(seq![payload[0], payload[1], payload[2]] + rest =~= payload);
    }
}

/// An encoded payload holds inert characters only, and no hyphen.
pub proof fn lemma_encoded_inert(payload: Seq<u8>)
    ensures
        forall|i: int|
            0 <= i < encoded(payload).len() ==> is_inert(#[trigger] encoded(payload)[i])
                && encoded(payload)[i] != '-',
    decreases payload.len(),
{
    let text = encoded(payload);
    if payload.len() == 0 {
    } else if payload.len() == 1 {
        let a = payload[0] as int;
        lemma_sextet_round_trip(a / 4);
        lemma_sextet_round_trip(a % 4 * 16);
    } else if payload.len() == 2 {
        let a = payload[0] as int;
        let b = payload[1] as int;
        lemma_sextet_round_trip(a / 4);
        lemma_sextet_round_trip(a % 4 * 16 + b / 16);
        lemma_sextet_round_trip(b % 16 * 4);
    } else {
        let a = payload[0] as int;
        let b = payload[1] as int;
        let c = payload[2] as int;
        lemma_sextet_round_trip(a / 4);
        lemma_sextet_round_trip(a % 4 * 16 + b / 16);
        lemma_sextet_round_trip(b % 16 * 4 + c / 64);
        lemma_sextet_round_trip(c % 64);
        let rest = payload.skip(3);
        lemma_encoded_inert(rest);
        assert forall|i: int| 0 <= i < text.len() implies is_inert(#[trigger] text[i]) && text[i]
            != '-' by {
            if i >= 4 {
                assert(text[i] == encoded(rest)[i - 4]);
            }
        }
    }
}

/// The in-container command is a plain line for every payload: nothing in
/// it is open to interpretation by a shell.
pub proof fn lemma_payload_command_plain(payload: Seq<u8>)
    ensures
        is_plain_line(payload_command(payload)),
{
    reveal_strlit("trampoline");
    lemma_encoded_inert(payload);
    let line = payload_command(payload);
    let head = bootstrap().len();
    assert forall|i: int| 0 <= i < line.len() implies (is_inert(#[trigger] line[i]) || line[i]
        == ' ') by {
        if i < head {
            assert(line[i] == bootstrap()[i]);
        } else if i > head {
            assert(line[i] == encoded(payload)[i - head - 1]);
        }
    }
}

} // verus!
