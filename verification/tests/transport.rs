use rustbot::transport::trampoline_command;
use rustbot::words::plain_word;

fn encoded_part(payload: &[u8]) -> String {
    let command = trampoline_command(payload);
    assert!(command.starts_with("trampoline "));
    command["trampoline ".len()..].to_string()
}

#[test]
fn empty_payload_gives_bare_bootstrap() {
    assert_eq!(trampoline_command(b""), "trampoline ");
}

#[test]
fn one_byte_is_padded_twice() {
    assert_eq!(trampoline_command(b"f"), "trampoline Zg==");
}

#[test]
fn two_bytes_are_padded_once() {
    assert_eq!(trampoline_command(b"fo"), "trampoline Zm8=");
}

#[test]
fn three_bytes_need_no_padding() {
    assert_eq!(trampoline_command(b"foo"), "trampoline Zm9v");
}

#[test]
fn longer_payloads_follow_the_standard() {
    assert_eq!(trampoline_command(b"foob"), "trampoline Zm9vYg==");
    assert_eq!(trampoline_command(b"fooba"), "trampoline Zm9vYmE=");
    assert_eq!(trampoline_command(b"foobar"), "trampoline Zm9vYmFy");
    assert_eq!(trampoline_command(b"hello world"), "trampoline aGVsbG8gd29ybGQ=");
}

#[test]
fn high_sextets_use_plus_and_slash() {
    assert_eq!(trampoline_command(&[0xfb, 0xff]), "trampoline +/8=");
    assert_eq!(trampoline_command(&[0xff, 0x00]), "trampoline /wA=");
    assert_eq!(trampoline_command(&[0xff, 0xff, 0xff]), "trampoline ////");
}

#[test]
fn encoding_differs_from_the_payload() {
    assert_ne!(encoded_part(b"ls"), "ls");
    assert_eq!(encoded_part(b"ls"), "bHM=");
}

#[test]
fn round_trip_of_empty_payload() {
    assert_eq!(base64::decode(encoded_part(b"")).unwrap(), b"".to_vec());
}

#[test]
fn round_trip_of_shell_metacharacters() {
    let payload = "fn main() { println!(\"`$HOME`; rm -rf / && echo 'x' | cat\\n\"); }\n\t#!~*?[]{}<>";
    assert_eq!(base64::decode(encoded_part(payload.as_bytes())).unwrap(), payload.as_bytes().to_vec());
}

#[test]
fn round_trip_of_raw_binary() {
    let mut payload: Vec<u8> = Vec::new();
    let mut b: u16 = 0;
    while b < 256 {
        payload.push(b as u8);
        b += 1;
    }
    payload.push(0);
    assert_eq!(base64::decode(encoded_part(&payload)).unwrap(), payload);
}

#[test]
fn round_trip_of_every_length_up_to_forty() {
    let mut n: usize = 0;
    while n <= 40 {
        let payload: Vec<u8> = (0..n).map(|i| (i * 37 + 11) as u8).collect();
        assert_eq!(base64::decode(encoded_part(&payload)).unwrap(), payload);
        n += 1;
    }
}

#[test]
fn encoded_payload_is_shell_inert() {
    let payload = "\"; `reboot`; $(id) \n' && true";
    let text = encoded_part(payload.as_bytes());
    assert!(plain_word(&text));
    assert!(text.chars().all(|c| c.is_ascii_alphanumeric() || c == '+' || c == '/' || c == '='));
    for c in ['"', '`', '$', '\n', ' ', '\'', '&', ';', '(', ')', '-'] {
        assert!(!text.contains(c));
    }
}

#[test]
fn plain_word_accepts_and_rejects() {
    assert!(plain_word("ghcr.io/theconner/rustbot-runner:latest"));
    assert!(plain_word("0.5"));
    assert!(plain_word("a+b,c-d.e/f:g=h@i_j"));
    assert!(!plain_word(""));
    assert!(!plain_word("a b"));
    assert!(!plain_word("a;b"));
    assert!(!plain_word("$HOME"));
    assert!(!plain_word("a\nb"));
    assert!(!plain_word("caf\u{e9}"));
    assert!(!plain_word("~"));
    assert!(!plain_word("a*"));
    assert!(!plain_word("x<y"));
    assert!(!plain_word("[a]"));
    assert!(!plain_word("a^b"));
    assert!(!plain_word("a`b"));
    assert!(!plain_word("{a}"));
}
