use rustbot::reply::{
    can_format, failure_reply, format_output, output_reply, reply_for, run_message, ReplyError,
};
use rustbot::runnable::{ExecutionOutcome, ExitStatus};

fn completed(stdout: &[u8], stderr: &[u8]) -> ExecutionOutcome {
    ExecutionOutcome::Completed {
        exit_status: ExitStatus { code: Some(0) },
        stdout: stdout.to_vec(),
        stderr: stderr.to_vec(),
    }
}

#[test]
fn short_output_is_shown_whole() {
    assert_eq!(format_output("hello".to_string()), "```\nhello\n```");
    assert_eq!(format_output(String::new()), "```\n\n```");
    let longest = "a".repeat(1989);
    assert_eq!(format_output(longest.clone()), format!("```\n{}\n```", longest));
}

#[test]
fn long_output_is_trimmed() {
    let long = "b".repeat(1990);
    let shown = format_output(long);
    assert_eq!(shown, format!("```{}[TRIMMED]```", "b".repeat(1981)));
    assert_eq!(shown.len(), 1996);
    let longer = format!("{}{}", "c".repeat(1981), "d".repeat(5000));
    assert_eq!(format_output(longer), format!("```{}[TRIMMED]```", "c".repeat(1981)));
}

#[test]
fn length_is_counted_in_bytes() {
    let text = "\u{e9}".repeat(995);
    assert_eq!(text.len(), 1990);
    assert!(!can_format(&text));
    let text = format!("a{}", "\u{e9}".repeat(995));
    assert!(can_format(&text));
    assert_eq!(format_output(text), format!("```a{}[TRIMMED]```", "\u{e9}".repeat(990)));
    assert!(can_format(&"\u{e9}".repeat(994)));
    assert!(can_format(""));
}

#[test]
fn reply_shows_the_stream_that_has_output() {
    assert_eq!(output_reply("out".to_string(), String::new()), Ok("```\nout\n```".to_string()));
    assert_eq!(output_reply(String::new(), "err".to_string()), Ok("```\nerr\n```".to_string()));
    assert_eq!(
        output_reply(String::new(), String::new()),
        Ok("Your program had no output to STDOUT or STDERR".to_string())
    );
    assert_eq!(
        output_reply("out".to_string(), "err".to_string()),
        Ok("Your program had no output to STDOUT or STDERR".to_string())
    );
}

#[test]
fn reply_refuses_to_cut_inside_a_character() {
    let text = "\u{e9}".repeat(995);
    assert_eq!(output_reply(text.clone(), String::new()), Err(ReplyError::CutInsideCharacter));
    assert_eq!(output_reply(String::new(), text.clone()), Err(ReplyError::CutInsideCharacter));
    assert_eq!(
        output_reply(text.clone(), text),
        Ok("Your program had no output to STDOUT or STDERR".to_string())
    );
}

#[test]
fn reply_to_a_run_that_did_not_complete() {
    assert_eq!(failure_reply(), "Your program took too long to run.");
    assert_eq!(
        reply_for(ExecutionOutcome::TimedOut),
        Ok("Your program took too long to run.".to_string())
    );
    assert_eq!(
        reply_for(ExecutionOutcome::LaunchFailed { cause: "No such file or directory".to_string() }),
        Ok("Your program took too long to run.".to_string())
    );
}

#[test]
fn reply_to_a_completed_run() {
    assert_eq!(reply_for(completed(b"Hello, world!\n", b"")), Ok("```\nHello, world!\n\n```".to_string()));
    assert_eq!(reply_for(completed(b"", b"error[E0425]")), Ok("```\nerror[E0425]\n```".to_string()));
    assert_eq!(
        reply_for(completed(b"", b"")),
        Ok("Your program had no output to STDOUT or STDERR".to_string())
    );
    assert_eq!(
        reply_for(completed(b"a", b"b")),
        Ok("Your program had no output to STDOUT or STDERR".to_string())
    );
    assert_eq!(reply_for(completed("h\u{e9}".as_bytes(), b"")), Ok("```\nh\u{e9}\n```".to_string()));
}

#[test]
fn reply_to_output_that_is_no_text() {
    assert_eq!(reply_for(completed(&[0xff, 0xfe], b"")), Err(ReplyError::InvalidUtf8));
    assert_eq!(reply_for(completed(b"", &[0xc3])), Err(ReplyError::InvalidUtf8));
    assert_eq!(reply_for(completed(b"fine", &[0xed, 0xa0, 0x80])), Err(ReplyError::InvalidUtf8));
    assert_eq!(reply_for(completed(&[0xc0, 0x80], b"fine")), Err(ReplyError::InvalidUtf8));
    assert_eq!(reply_for(completed(&[0xf4, 0x90, 0x80, 0x80], b"")), Err(ReplyError::InvalidUtf8));
}

#[test]
fn reply_to_long_output() {
    let long = "z".repeat(3000);
    assert_eq!(
        reply_for(completed(long.as_bytes(), b"")),
        Ok(format!("```{}[TRIMMED]```", "z".repeat(1981)))
    );
    let odd = "\u{e9}".repeat(995);
    assert_eq!(reply_for(completed(odd.as_bytes(), b"")), Err(ReplyError::CutInsideCharacter));
}

#[test]
fn message_names_who_ran_what() {
    assert_eq!(
        run_message("<@42>", "```\nfn main() {}\n```", "```\nhi\n```"),
        "<@42>Ran```\nfn main() {}\n```Output```\nhi\n```"
    );
    assert_eq!(run_message("", "", ""), "RanOutput");
}
