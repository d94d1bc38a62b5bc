use ruby_flasher::auth::{ConnectOutcome, ConnectionError, ErrorReport};
use ruby_flasher::channel::{Reply, Report, Request};
use ruby_flasher::command::CommandRun;
use ruby_flasher::flow::{
    extract_filename, file_name_from, Credential, Flow, FlowPhase, FlowReply, FlowRequest,
    FlowStep, Operation, Verdict, PROMPT_LINE, REFUSED_LINE,
};
use ruby_flasher::transfer::Transfer;

fn lines(step: &FlowStep) -> Vec<String> {
    step.reports
        .iter()
        .map(|r| match r {
            Report::Line(l) => l.clone(),
            Report::Progress { .. } => panic!("a flow reports no progress"),
        })
        .collect()
}

fn drive(
    operation: Operation,
    credential: Option<String>,
    replies: Vec<FlowReply>,
) -> (Flow, Vec<String>, Vec<FlowRequest>) {
    let (mut flow, first) = Flow::start(operation, "192.168.1.10", 22, credential);
    let mut all_lines = lines(&first);
    let mut requests = vec![first.request];
    for reply in replies {
        let step = flow.step(reply);
        all_lines.extend(lines(&step));
        requests.push(step.request);
    }
    (flow, all_lines, requests)
}

fn other(message: &str) -> ConnectionError {
    ConnectionError::Other(ErrorReport { message: message.to_string(), causes: vec![] })
}

fn connect(password: &str) -> FlowRequest {
    FlowRequest::Connect {
        host: "192.168.1.10".to_string(),
        port: 22,
        user: "root".to_string(),
        password: password.to_string(),
        limit_secs: 5,
    }
}

fn run(command: &str) -> FlowRequest {
    FlowRequest::Run { command: command.to_string() }
}

#[test]
fn identify_returns_the_trimmed_identifier() {
    let (flow, all_lines, requests) = drive(
        Operation::IdentifySoc,
        None,
        vec![
            FlowReply::Valid { file_name: None },
            FlowReply::Connected(ConnectOutcome::Authenticated),
            FlowReply::Output("gk7205v300\n".to_string()),
            FlowReply::Disconnected,
        ],
    );
    assert_eq!(
        requests,
        vec![
            FlowRequest::Validate { host: "192.168.1.10".to_string(), path: None },
            connect("12345"),
            run("fw_printenv -n soc"),
            FlowRequest::Disconnect,
            FlowRequest::Finish,
        ]
    );
    assert!(all_lines.is_empty());
    assert!(flow.is_finished());
    assert_eq!(flow.result(), Some(Ok(Some("gk7205v300".to_string()))));
}

#[test]
fn flash_issues_its_commands_in_the_fixed_order() {
    let (flow, all_lines, requests) = drive(
        Operation::Flash { source: "/home/me/fw/gk7205v300_rubyfpv_1.tgz".to_string() },
        Some("hunter2".to_string()),
        vec![
            FlowReply::Valid { file_name: Some("gk7205v300_rubyfpv_1.tgz".to_string()) },
            FlowReply::Connected(ConnectOutcome::Authenticated),
            FlowReply::Output(" gk7205v300 \n".to_string()),
            FlowReply::Output(String::new()),
            FlowReply::Uploaded,
            FlowReply::Output("uImage.gk7205v300\n".to_string()),
            FlowReply::Output("Unconditional reboot\n".to_string()),
            FlowReply::Disconnected,
        ],
    );
    assert_eq!(
        requests,
        vec![
            FlowRequest::Validate {
                host: "192.168.1.10".to_string(),
                path: Some("/home/me/fw/gk7205v300_rubyfpv_1.tgz".to_string()),
            },
            connect("hunter2"),
            run("fw_printenv -n soc"),
            run("ruby_stop.sh || true"),
            FlowRequest::Upload {
                source: "/home/me/fw/gk7205v300_rubyfpv_1.tgz".to_string(),
                destination: "/tmp/gk7205v300_rubyfpv_1.tgz".to_string(),
            },
            run("sh -c 'gunzip -c /tmp/gk7205v300_rubyfpv_1.tgz | tar -xvC /tmp'"),
            run(
                "sysupgrade --kernel=/tmp/uImage.gk7205v300 \
                 --rootfs=/tmp/rootfs.squashfs.gk7205v300 -z"
            ),
            FlowRequest::Disconnect,
            FlowRequest::Finish,
        ]
    );
    assert_eq!(
        all_lines,
        vec![
            "Connecting to 192.168.1.10:22...".to_string(),
            "Uploading firmware gk7205v300_rubyfpv_1.tgz...".to_string(),
        ]
    );
    assert_eq!(flow.result(), Some(Ok(None)));
}

#[test]
fn reset_runs_the_factory_reset() {
    let (flow, all_lines, requests) = drive(
        Operation::Reset,
        None,
        vec![
            FlowReply::Valid { file_name: None },
            FlowReply::Connected(ConnectOutcome::Authenticated),
            FlowReply::Output(String::new()),
            FlowReply::Disconnected,
        ],
    );
    assert_eq!(requests[2], run("firstboot"));
    assert_eq!(requests[3], FlowRequest::Disconnect);
    assert_eq!(
        all_lines,
        vec![
            "Connecting to 192.168.1.10:22...".to_string(),
            "Executing firstboot command...".to_string(),
        ]
    );
    assert_eq!(flow.result(), Some(Ok(None)));
}

#[test]
fn manual_runs_exactly_the_given_command_line() {
    let (flow, all_lines, requests) = drive(
        Operation::Manual { command: "cat /etc/os-release | head -1".to_string() },
        None,
        vec![
            FlowReply::Valid { file_name: None },
            FlowReply::Connected(ConnectOutcome::Authenticated),
            FlowReply::Output("NAME=x\n".to_string()),
            FlowReply::Disconnected,
        ],
    );
    assert_eq!(requests[2], run("cat /etc/os-release | head -1"));
    assert_eq!(
        all_lines,
        vec![
            "Connecting to 192.168.1.10:22...".to_string(),
            "Executing command: cat /etc/os-release | head -1".to_string(),
        ]
    );
    assert_eq!(flow.result(), Some(Ok(None)));
}

#[test]
fn an_invalid_endpoint_never_reaches_the_transport() {
    let (flow, all_lines, requests) = drive(
        Operation::Reset,
        Some("pw".to_string()),
        vec![FlowReply::Invalid("invalid IP address syntax".to_string())],
    );
    assert_eq!(requests.len(), 2);
    assert_eq!(requests[1], FlowRequest::Finish);
    assert!(all_lines.is_empty());
    assert_eq!(flow.result(), Some(Err(other("invalid IP address syntax"))));
}

#[test]
fn exactly_one_connection_attempt_is_made() {
    for credential in [None, Some("remembered".to_string())] {
        let expected = credential.clone().unwrap_or("12345".to_string());
        let (_, _, requests) = drive(
            Operation::IdentifySoc,
            credential,
            vec![
                FlowReply::Valid { file_name: None },
                FlowReply::Connected(ConnectOutcome::Declined),
                FlowReply::Connected(ConnectOutcome::Declined),
                FlowReply::Valid { file_name: None },
            ],
        );
        let attempts: Vec<&FlowRequest> =
            requests.iter().filter(|r| matches!(r, FlowRequest::Connect { .. })).collect();
        assert_eq!(attempts, vec![&connect(&expected)]);
    }
}

#[test]
fn a_declined_password_is_an_auth_failure() {
    let (flow, _, requests) = drive(
        Operation::IdentifySoc,
        None,
        vec![FlowReply::Valid { file_name: None }, FlowReply::Connected(ConnectOutcome::Declined)],
    );
    assert_eq!(requests[2], FlowRequest::Finish);
    assert_eq!(
        flow.result(),
        Some(Err(ConnectionError::AuthFailure(ErrorReport {
            message: "Authentication failed: invalid credentials".to_string(),
            causes: vec![],
        })))
    );
}

#[test]
fn a_connect_timeout_is_another_failure() {
    let (flow, _, _) = drive(
        Operation::IdentifySoc,
        None,
        vec![
            FlowReply::Valid { file_name: None },
            FlowReply::Connected(ConnectOutcome::Failed(ErrorReport {
                message: "deadline has elapsed".to_string(),
                causes: vec![],
            })),
        ],
    );
    assert_eq!(flow.result(), Some(Err(other("deadline has elapsed"))));
}

#[test]
fn a_failing_command_aborts_the_sequence_and_disconnects() {
    let (flow, _, requests) = drive(
        Operation::Flash { source: "fw.tgz".to_string() },
        None,
        vec![
            FlowReply::Valid { file_name: Some("fw.tgz".to_string()) },
            FlowReply::Connected(ConnectOutcome::Authenticated),
            FlowReply::Failed("command 'fw_printenv -n soc' failed with exit status: 1".to_string()),
            FlowReply::Failed("disconnect failed".to_string()),
        ],
    );
    assert_eq!(requests[3], FlowRequest::Disconnect);
    assert_eq!(requests[4], FlowRequest::Finish);
    assert_eq!(
        flow.result(),
        Some(Err(other("command 'fw_printenv -n soc' failed with exit status: 1")))
    );
}

#[test]
fn a_failing_upload_aborts_the_flash() {
    let (flow, _, requests) = drive(
        Operation::Flash { source: "fw.tgz".to_string() },
        None,
        vec![
            FlowReply::Valid { file_name: Some("fw.tgz".to_string()) },
            FlowReply::Connected(ConnectOutcome::Authenticated),
            FlowReply::Output("soc".to_string()),
            FlowReply::Output(String::new()),
            FlowReply::Failed("SCP fatal error".to_string()),
            FlowReply::Disconnected,
        ],
    );
    assert_eq!(requests[5], FlowRequest::Disconnect);
    assert_eq!(flow.result(), Some(Err(other("SCP fatal error"))));
}

#[test]
fn a_flow_is_not_finished_before_the_disconnect() {
    let (mut flow, _) = Flow::start(Operation::Reset, "10.0.0.1", 2222, None);
    assert_eq!(flow.phase(), FlowPhase::Validating);
    let step = flow.step(FlowReply::Valid { file_name: None });
    assert_eq!(lines(&step), vec!["Connecting to 10.0.0.1:2222...".to_string()]);
    flow.step(FlowReply::Connected(ConnectOutcome::Authenticated));
    flow.step(FlowReply::Output(String::new()));
    assert_eq!(flow.phase(), FlowPhase::Disconnecting);
    assert!(!flow.is_finished());
    assert_eq!(flow.result(), None);
}

#[test]
fn extract_filename_takes_the_last_component() {
    assert_eq!(extract_filename("/home/me/fw/image.tgz").unwrap(), "image.tgz");
    assert_eq!(extract_filename("image.tgz").unwrap(), "image.tgz");
    assert_eq!(extract_filename("dir/sub/").unwrap(), "sub");
    assert_eq!(extract_filename("").unwrap(), "");
    assert_eq!(extract_filename("/").unwrap(), "");
    assert_eq!(extract_filename("a/..").unwrap(), "");
}

#[test]
fn file_name_from_rejects_a_name_that_is_no_text() {
    assert_eq!(file_name_from("p", None), Ok(String::new()));
    assert_eq!(file_name_from("p", Some(Some("n".to_string()))), Ok("n".to_string()));
    assert_eq!(
        file_name_from("/tmp/x", Some(None)),
        Err(ErrorReport { message: "invalid filename: /tmp/x".to_string(), causes: vec![] })
    );
}

#[test]
fn an_auth_failure_clears_the_credential_and_asks_for_a_password() {
    let mut credential = Credential::new();
    assert_eq!(credential.remembered(), None);
    assert!(credential.answer(Some("old".to_string())));
    assert_eq!(credential.remembered(), Some("old".to_string()));
    let failure = ConnectionError::AuthFailure(ErrorReport {
        message: "Authentication failed: invalid credentials".to_string(),
        causes: vec![],
    });
    assert_eq!(credential.settle(Some(&failure)), Verdict::AskPassword);
    assert_eq!(credential.remembered(), None);
    assert_eq!(PROMPT_LINE, "Authentication failed. Please enter password when prompted.");
}

#[test]
fn a_new_password_is_remembered_for_the_retry() {
    let mut credential = Credential::new();
    assert!(credential.answer(Some("fresh".to_string())));
    assert_eq!(credential.remembered(), Some("fresh".to_string()));
    assert_eq!(credential.settle(None), Verdict::Completed);
    assert_eq!(credential.remembered(), Some("fresh".to_string()));
}

#[test]
fn a_refused_prompt_ends_the_retries_with_no_credential() {
    let mut credential = Credential::new();
    credential.answer(Some("old".to_string()));
    let failure = ConnectionError::AuthFailure(ErrorReport {
        message: "permission denied".to_string(),
        causes: vec![],
    });
    credential.settle(Some(&failure));
    assert!(!credential.answer(None));
    assert_eq!(credential.remembered(), None);
    assert_eq!(REFUSED_LINE, "Authentication failed and no password provided.");
}

#[test]
fn any_other_failure_is_shown_verbatim_and_keeps_the_credential() {
    let mut credential = Credential::new();
    credential.answer(Some("keep".to_string()));
    let failure = other("Connection refused (os error 111)");
    assert_eq!(
        credential.settle(Some(&failure)),
        Verdict::Report("Error: Connection refused (os error 111)".to_string())
    );
    assert_eq!(credential.remembered(), Some("keep".to_string()));
}

/// A scripted device: answers the flow's requests by running the real
/// machines against canned channel traffic.
#[test]
fn flashing_a_130_byte_firmware_end_to_end() {
    let file: Vec<u8> = (0..130u8).collect();
    let (mut flow, first) =
        Flow::start(Operation::Flash { source: "/fw/fw.tgz".to_string() }, "10.0.0.2", 22, None);
    let mut request = first.request;
    let mut commands: Vec<String> = Vec::new();
    let mut wire: Vec<u8> = Vec::new();
    let mut progress: Vec<(usize, usize)> = Vec::new();
    loop {
        let reply = match &request {
            FlowRequest::Validate { path, .. } => FlowReply::Valid {
                file_name: Some(extract_filename(path.as_ref().unwrap()).unwrap()),
            },
            FlowRequest::Connect { password, .. } => {
                assert_eq!(password, "12345");
                FlowReply::Connected(ConnectOutcome::Authenticated)
            },
            FlowRequest::Run { command } => {
                commands.push(command.clone());
                let (mut run, mut step) = CommandRun::start(command);
                let mut script = vec![
                    Reply::Done,
                    Reply::Data(b"gk7205v200\n".to_vec()),
                    Reply::ExitStatus(0),
                    Reply::Closed,
                    Reply::Done,
                    Reply::Closed,
                    Reply::Done,
                ]
                .into_iter();
                while step.request != Request::Finish {
                    step = run.step(script.next().unwrap());
                }
                match run.result().unwrap() {
                    Ok(text) => FlowReply::Output(text),
                    Err(f) => FlowReply::Failed(f.to_text()),
                }
            },
            FlowRequest::Upload { destination, .. } => {
                assert_eq!(destination, "/tmp/fw.tgz");
                let (mut transfer, mut step) = Transfer::start(file.clone(), destination).unwrap();
                loop {
                    for report in &step.reports {
                        if let Report::Progress { sent, total } = report {
                            progress.push((*sent, *total));
                        }
                    }
                    let reply = match &step.request {
                        Request::Send { payload } => {
                            wire.extend_from_slice(payload);
                            Reply::Done
                        },
                        Request::Receive => Reply::Data(vec![0]),
                        Request::Drain => Reply::Closed,
                        Request::Finish => break,
                        _ => Reply::Done,
                    };
                    step = transfer.step(reply);
                }
                match transfer.result().unwrap() {
                    Ok(()) => FlowReply::Uploaded,
                    Err(f) => FlowReply::Failed(f.to_text()),
                }
            },
            FlowRequest::Disconnect => FlowReply::Disconnected,
            FlowRequest::Finish => break,
        };
        request = flow.step(reply).request;
    }
    assert_eq!(
        commands,
        vec![
            "fw_printenv -n soc".to_string(),
            "ruby_stop.sh || true".to_string(),
            "sh -c 'gunzip -c /tmp/fw.tgz | tar -xvC /tmp'".to_string(),
            "sysupgrade --kernel=/tmp/uImage.gk7205v200 --rootfs=/tmp/rootfs.squashfs.gk7205v200 -z"
                .to_string(),
        ]
    );
    assert_eq!(&wire[..19], b"C0644 130 filename\n");
    assert_eq!(&wire[19..149], &file[..]);
    assert_eq!(wire[149], 0);
    assert_eq!(wire.len(), 150);
    assert_eq!(*progress.last().unwrap(), (150, 150));
    assert_eq!(flow.result(), Some(Ok(None)));
}

#[test]
fn the_password_never_shows_in_status_text() {
    let replies = || {
        vec![
            FlowReply::Valid { file_name: Some("fw.tgz".to_string()) },
            FlowReply::Connected(ConnectOutcome::Authenticated),
            FlowReply::Output("soc\n".to_string()),
            FlowReply::Output(String::new()),
            FlowReply::Uploaded,
            FlowReply::Output(String::new()),
            FlowReply::Output(String::new()),
            FlowReply::Disconnected,
        ]
    };
    let flash = || Operation::Flash { source: "fw.tgz".to_string() };
    let (_, with_default, _) = drive(flash(), None, replies());
    let (_, with_secret, _) = drive(flash(), Some("tOp-s3cret".to_string()), replies());
    assert_eq!(with_default, with_secret);
    for line in &with_secret {
        assert!(!line.contains("tOp-s3cret"));
    }
    for line in &with_default {
        assert!(!line.contains("12345"));
    }
}
