use ruby_flasher::channel::{Failure, Reply, Report, Request, Step};
use ruby_flasher::command::{CommandRun, RunPhase, REBOOT_MARKER};

fn lines(step: &Step) -> Vec<String> {
    let mut out = Vec::new();
    for report in &step.reports {
        match report {
            Report::Line(l) => out.push(l.clone()),
            Report::Progress { .. } => panic!("a command reports no progress"),
        }
    }
    out
}

/// Feeds `replies` to a fresh run of `command`; returns the run, every line
/// reported and every request made.
fn drive(command: &str, replies: Vec<Reply>) -> (CommandRun, Vec<String>, Vec<Request>) {
    let (mut run, first) = CommandRun::start(command);
    let mut all_lines = lines(&first);
    let mut requests = vec![first.request];
    for reply in replies {
        let step = run.step(reply);
        all_lines.extend(lines(&step));
        requests.push(step.request);
    }
    (run, all_lines, requests)
}

fn teardown() -> Vec<Reply> {
    vec![Reply::Closed, Reply::Done, Reply::Closed, Reply::Done]
}

#[test]
fn start_echoes_the_command_and_asks_for_a_channel() {
    let (run, first) = CommandRun::start("fw_printenv -n soc");
    assert_eq!(lines(&first), vec!["# fw_printenv -n soc".to_string()]);
    assert_eq!(first.request, Request::Start { command: "fw_printenv -n soc".to_string() });
    assert_eq!(run.phase(), RunPhase::Starting);
    assert!(!run.is_finished());
    assert_eq!(run.result(), None);
}

#[test]
fn a_plain_run_goes_through_the_whole_lifecycle() {
    let mut replies = vec![Reply::Done, Reply::Data(b"gk7205v300\n".to_vec()), Reply::ExitStatus(0)];
    replies.extend(teardown());
    let (run, all_lines, requests) = drive("fw_printenv -n soc", replies);
    assert_eq!(
        requests,
        vec![
            Request::Start { command: "fw_printenv -n soc".to_string() },
            Request::Receive,
            Request::Receive,
            Request::Receive,
            Request::Eof,
            Request::Drain,
            Request::Close,
            Request::Finish,
        ]
    );
    assert_eq!(
        all_lines,
        vec![
            "# fw_printenv -n soc".to_string(),
            "gk7205v300".to_string(),
            "command 'fw_printenv -n soc' done.".to_string(),
        ]
    );
    assert!(run.is_finished());
    assert_eq!(run.result(), Some(Ok("gk7205v300\n".to_string())));
}

#[test]
fn a_character_cut_by_the_transport_comes_out_whole() {
    let text = "temp: 21°C — ok\nнагрев\n";
    let bytes = text.as_bytes();
    let mut whole = vec![Reply::Done, Reply::Data(bytes.to_vec())];
    whole.extend(teardown());
    let (whole_run, _, _) = drive("status", whole);
    let expected = whole_run.result();
    assert_eq!(expected, Some(Ok(text.to_string())));
    for cut in 0..=bytes.len() {
        let mut split = vec![
            Reply::Done,
            Reply::Data(bytes[..cut].to_vec()),
            Reply::Data(bytes[cut..].to_vec()),
        ];
        split.extend(teardown());
        let (run, _, _) = drive("status", split);
        assert_eq!(run.result(), expected, "cut at {}", cut);
    }
}

#[test]
fn a_cut_character_is_held_back_until_it_is_complete() {
    let euro = "€".as_bytes();
    let (mut run, _) = CommandRun::start("x");
    run.step(Reply::Done);
    let step = run.step(Reply::Data(vec![b'a', euro[0], euro[1]]));
    assert_eq!(lines(&step), vec!["a".to_string()]);
    assert_eq!(run.output(), "a");
    let step = run.step(Reply::Data(vec![euro[2], b'\n']));
    assert_eq!(lines(&step), vec!["€".to_string()]);
    assert_eq!(run.output(), "a€\n");
}

#[test]
fn lines_are_reported_trimmed_and_blank_ones_are_skipped() {
    let (mut run, _) = CommandRun::start("x");
    run.step(Reply::Done);
    let step = run.step(Reply::Data(b"  first \r\n\n   \n\tsecond\n".to_vec()));
    assert_eq!(lines(&step), vec!["first".to_string(), "second".to_string()]);
    assert_eq!(step.request, Request::Receive);
    assert_eq!(run.output(), "  first \r\n\n   \n\tsecond\n");
}

#[test]
fn output_accumulates_in_delivery_order() {
    let mut replies = vec![
        Reply::Done,
        Reply::Data(b"one\n".to_vec()),
        Reply::Data(b"two\n".to_vec()),
        Reply::Data(b"three".to_vec()),
    ];
    replies.extend(teardown());
    let (run, all_lines, _) = drive("x", replies);
    assert_eq!(
        all_lines,
        vec![
            "# x".to_string(),
            "one".to_string(),
            "two".to_string(),
            "three".to_string(),
            "command 'x' done.".to_string(),
        ]
    );
    assert_eq!(run.result(), Some(Ok("one\ntwo\nthree".to_string())));
}

#[test]
fn non_zero_exit_status_is_an_error() {
    let mut replies = vec![Reply::Done, Reply::Data(b"oops\n".to_vec()), Reply::ExitStatus(2)];
    replies.extend(teardown());
    let (run, all_lines, _) = drive("false", replies);
    assert_eq!(all_lines.last().unwrap(), "command 'false' done.");
    assert_eq!(
        run.result(),
        Some(Err(Failure::CommandFailed { command: "false".to_string(), status: 2 }))
    );
}

#[test]
fn zero_exit_status_is_success() {
    let mut replies = vec![Reply::Done, Reply::ExitStatus(0)];
    replies.extend(teardown());
    let (run, _, _) = drive("true", replies);
    assert_eq!(run.result(), Some(Ok(String::new())));
}

#[test]
fn missing_exit_status_is_success() {
    let mut replies = vec![Reply::Done, Reply::Data(b"out".to_vec())];
    replies.extend(teardown());
    let (run, _, _) = drive("x", replies);
    assert_eq!(run.exit_status(), None);
    assert_eq!(run.result(), Some(Ok("out".to_string())));
}

#[test]
fn exit_status_does_not_end_the_stream() {
    let mut replies = vec![
        Reply::Done,
        Reply::Data(b"before\n".to_vec()),
        Reply::ExitStatus(0),
        Reply::Data(b"after\n".to_vec()),
        Reply::ExtendedData { ext: 1, data: b"late\n".to_vec() },
    ];
    replies.extend(teardown());
    let (run, all_lines, requests) = drive("x", replies);
    assert_eq!(requests[3], Request::Receive);
    assert!(all_lines.contains(&"after".to_string()));
    assert!(all_lines.contains(&"stderr: late".to_string()));
    assert_eq!(run.result(), Some(Ok("before\nafter\n".to_string())));
}

#[test]
fn data_after_a_failing_exit_status_does_not_change_the_verdict() {
    let mut replies = vec![
        Reply::Done,
        Reply::ExitStatus(1),
        Reply::Data(b"more\n".to_vec()),
        Reply::Data(b"and more\n".to_vec()),
    ];
    replies.extend(teardown());
    let (run, _, _) = drive("x", replies);
    assert_eq!(run.exit_status(), Some(1));
    assert_eq!(
        run.result(),
        Some(Err(Failure::CommandFailed { command: "x".to_string(), status: 1 }))
    );
}

#[test]
fn the_reboot_marker_ends_the_run_at_once() {
    assert_eq!(REBOOT_MARKER, "Unconditional reboot");
    let (mut run, _) = CommandRun::start("sysupgrade -z");
    run.step(Reply::Done);
    run.step(Reply::Data(b"Flashing...\n".to_vec()));
    let step =
        run.step(Reply::Data(b"done\nUnconditional reboot in 5 seconds\nnever shown\n".to_vec()));
    assert_eq!(
        lines(&step),
        vec!["done".to_string(), "Unconditional reboot in 5 seconds".to_string()]
    );
    assert_eq!(step.request, Request::Close);
    assert_eq!(run.phase(), RunPhase::Aborting);
    let step = run.step(Reply::TimedOut);
    assert_eq!(lines(&step), Vec::<String>::new());
    assert_eq!(step.request, Request::Finish);
    assert!(run.is_finished());
    assert_eq!(
        run.result(),
        Some(Ok("Flashing...\ndone\nUnconditional reboot in 5 seconds\nnever shown\n".to_string()))
    );
}

#[test]
fn the_reboot_marker_skips_the_normal_teardown() {
    let (_, all_lines, requests) = drive(
        "firstboot",
        vec![Reply::Done, Reply::Data(b"Unconditional reboot\n".to_vec()), Reply::Done],
    );
    assert_eq!(
        requests,
        vec![
            Request::Start { command: "firstboot".to_string() },
            Request::Receive,
            Request::Close,
            Request::Finish,
        ]
    );
    assert!(!requests.contains(&Request::Eof));
    assert!(!requests.contains(&Request::Drain));
    assert!(!all_lines.contains(&"command 'firstboot' done.".to_string()));
}

#[test]
fn the_reboot_marker_wins_over_a_failing_exit_status() {
    let (run, _, _) = drive(
        "reboot",
        vec![
            Reply::Done,
            Reply::ExitStatus(9),
            Reply::Data(b"  Unconditional reboot  \n".to_vec()),
            Reply::Done,
        ],
    );
    assert_eq!(run.result(), Some(Ok("  Unconditional reboot  \n".to_string())));
}

#[test]
fn a_marker_cut_in_two_is_not_seen() {
    let mut replies = vec![
        Reply::Done,
        Reply::Data(b"Unconditional re".to_vec()),
        Reply::Data(b"boot\n".to_vec()),
    ];
    replies.extend(teardown());
    let (run, _, requests) = drive("x", replies);
    assert_eq!(requests[2], Request::Receive);
    assert_eq!(requests[3], Request::Receive);
    assert_eq!(run.result(), Some(Ok("Unconditional reboot\n".to_string())));
}

#[test]
fn stderr_lines_are_prefixed_and_kept_out_of_the_output() {
    let (mut run, _) = CommandRun::start("x");
    run.step(Reply::Done);
    let step = run.step(Reply::ExtendedData { ext: 1, data: b"warn: a\n\n  b \n".to_vec() });
    assert_eq!(lines(&step), vec!["stderr: warn: a".to_string(), "stderr:   b ".to_string()]);
    assert_eq!(step.request, Request::Receive);
    assert_eq!(run.output(), "");
}

#[test]
fn stderr_is_decoded_leniently() {
    let (mut run, _) = CommandRun::start("x");
    run.step(Reply::Done);
    let step = run.step(Reply::ExtendedData { ext: 1, data: vec![b'a', 0xff, b'b'] });
    assert_eq!(lines(&step), vec!["stderr: a\u{fffd}b".to_string()]);
}

#[test]
fn other_extended_streams_are_ignored() {
    let (mut run, _) = CommandRun::start("x");
    run.step(Reply::Done);
    let step = run.step(Reply::ExtendedData { ext: 2, data: b"ignored\n".to_vec() });
    assert_eq!(lines(&step), Vec::<String>::new());
    assert_eq!(step.request, Request::Receive);
    let step = run.step(Reply::Other);
    assert_eq!(step.request, Request::Receive);
    let step = run.step(Reply::Success);
    assert_eq!(step.request, Request::Receive);
    assert_eq!(run.output(), "");
}

#[test]
fn leftover_bytes_are_decoded_leniently_at_the_end() {
    let euro = "€".as_bytes();
    let (mut run, _) = CommandRun::start("x");
    run.step(Reply::Done);
    run.step(Reply::Data(vec![b'o', b'k', b'\n', euro[0], euro[1]]));
    assert_eq!(run.output(), "ok\n");
    let step = run.step(Reply::Closed);
    assert_eq!(lines(&step), vec!["\u{fffd}".to_string()]);
    assert_eq!(step.request, Request::Eof);
    assert_eq!(run.output(), "ok\n\u{fffd}");
}

#[test]
fn an_invalid_byte_holds_back_what_follows_until_the_end() {
    let mut replies = vec![
        Reply::Done,
        Reply::Data(vec![b'a', b'\n', 0xff]),
        Reply::Data(b"tail\n".to_vec()),
    ];
    replies.extend(teardown());
    let (run, all_lines, _) = drive("x", replies);
    assert_eq!(
        all_lines,
        vec![
            "# x".to_string(),
            "a".to_string(),
            "\u{fffd}tail".to_string(),
            "command 'x' done.".to_string(),
        ]
    );
    assert_eq!(run.result(), Some(Ok("a\n\u{fffd}tail\n".to_string())));
}

#[test]
fn the_final_flush_does_not_watch_for_the_marker() {
    let mut replies = vec![Reply::Done, Reply::Data(vec![0xff])];
    replies.push(Reply::Data(b"Unconditional reboot\n".to_vec()));
    replies.extend(teardown());
    let (run, _, requests) = drive("x", replies);
    assert!(requests.contains(&Request::Eof));
    assert_eq!(run.result(), Some(Ok("\u{fffd}Unconditional reboot\n".to_string())));
}

#[test]
fn a_failed_start_is_reported_after_a_best_effort_close() {
    let (run, _, requests) = drive(
        "x",
        vec![Reply::Failed("channel open failure".to_string()), Reply::Failed("gone".to_string())],
    );
    assert_eq!(requests[1], Request::Close);
    assert_eq!(requests[2], Request::Finish);
    assert_eq!(run.result(), Some(Err(Failure::Transport("channel open failure".to_string()))));
}

#[test]
fn a_receive_timeout_fails_the_run() {
    let (run, _, requests) =
        drive("x", vec![Reply::Done, Reply::Data(b"a\n".to_vec()), Reply::TimedOut, Reply::Done]);
    assert_eq!(requests[3], Request::Close);
    assert_eq!(requests[4], Request::Finish);
    assert_eq!(run.result(), Some(Err(Failure::TimedOut)));
}

#[test]
fn drain_timeouts_are_swallowed() {
    let (run, _, requests) = drive(
        "x",
        vec![
            Reply::Done,
            Reply::Closed,
            Reply::Done,
            Reply::TimedOut,
            Reply::Data(b"late".to_vec()),
            Reply::TimedOut,
            Reply::Closed,
            Reply::Done,
        ],
    );
    assert_eq!(
        requests[3..],
        [
            Request::Drain,
            Request::Drain,
            Request::Drain,
            Request::Drain,
            Request::Close,
            Request::Finish
        ]
    );
    assert_eq!(run.result(), Some(Ok(String::new())));
}

#[test]
fn a_failed_eof_is_reported_and_the_channel_still_closed() {
    let (run, _, requests) =
        drive("x", vec![Reply::Done, Reply::Closed, Reply::TimedOut, Reply::Done]);
    assert_eq!(requests[2], Request::Eof);
    assert_eq!(requests[3], Request::Close);
    assert_eq!(run.result(), Some(Err(Failure::TimedOut)));
}

#[test]
fn a_failed_close_is_the_reported_failure() {
    let (run, all_lines, _) = drive(
        "x",
        vec![
            Reply::Done,
            Reply::ExitStatus(0),
            Reply::Closed,
            Reply::Done,
            Reply::Closed,
            Reply::Failed("close failed".to_string()),
        ],
    );
    assert!(!all_lines.contains(&"command 'x' done.".to_string()));
    assert_eq!(run.result(), Some(Err(Failure::Transport("close failed".to_string()))));
}

#[test]
fn a_cleanup_failure_does_not_mask_the_first_failure() {
    let (run, _, _) = drive(
        "x",
        vec![Reply::Done, Reply::Failed("first".to_string()), Reply::Failed("second".to_string())],
    );
    assert_eq!(run.result(), Some(Err(Failure::Transport("first".to_string()))));
}

#[test]
fn a_finished_run_stays_finished() {
    let mut replies = vec![Reply::Done];
    replies.extend(teardown());
    replies.push(Reply::Data(b"x".to_vec()));
    replies.push(Reply::Done);
    let (run, _, requests) = drive("x", replies);
    assert_eq!(requests[requests.len() - 1], Request::Finish);
    assert_eq!(requests[requests.len() - 2], Request::Finish);
    assert_eq!(run.result(), Some(Ok(String::new())));
}
