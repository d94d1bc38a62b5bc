//! The command executor: runs one remote command over a fresh channel,
//! decodes its output incrementally, forwards the error stream, tracks the
//! exit status and tears the channel down.
//!
//! `CommandRun` is a state machine. `CommandRun::start` and `CommandRun::step`
//! each hand back a `Step`: the items for the status sink and the next
//! `Request` for the driver. The transition function is `run_next`.

use vstd::prelude::*;
use crate::channel::{
    failure_from, failure_of, report_views, Failure, FailureView, Reply, ReplyView, Report,
    ReportView, Request, RequestView, Step,
};
use crate::text::{
    contains, contains_text, decode_prefix, decoded_prefix, from_utf8_lossy, lines_of,
    lossy_text_of, split_lines, texts, trim, trimmed_of, undecoded_rest,
};

verus! {

/// The phrase in a command's output that announces an unconditional reboot.
pub const REBOOT_MARKER: &'static str = "Unconditional reboot";

/// Where a command run stands.
#[derive(Debug, Clone, Copy, PartialEq, Eq, Structural)]
pub enum RunPhase {
    /// The channel is being opened and the command started.
    Starting,
    /// Messages are being received.
    Receiving,
    /// End of file is being signalled.
    SendingEof,
    /// Leftover messages are being drained.
    Draining,
    /// The channel is being closed; a failure here is reported.
    Closing,
    /// The channel is being closed on a best-effort basis.
    Aborting,
    /// The run is over.
    Finished,
}

/// Mathematical model of a `CommandRun`.
pub ghost struct CommandRunView {
    /// The command line.
    pub command: Seq<char>,
    /// The decoded output accumulated so far.
    pub output: Seq<char>,
    /// Bytes received but not yet decoded.
    pub pending: Seq<u8>,
    /// The exit status, once reported.
    pub exit_status: Option<u32>,
    /// The failure to report, once one is known.
    pub failure: Option<FailureView>,
    pub phase: RunPhase,
}

/// One move of a machine: its next state, the items for the status sink, in
/// order, and the request for the driver.
pub ghost struct Turn {
    pub state: CommandRunView,
    pub reports: Seq<ReportView>,
    pub request: RequestView,
}

/// The status lines for the pieces of one decoded chunk: each piece that is
/// not blank after trimming is reported trimmed. With `watch` set, the first
/// reported piece that holds the reboot marker ends the scan and raises the
/// flag.
pub open spec fn scan_lines(lines: Seq<Seq<char>>, watch: bool) -> (Seq<ReportView>, bool)
    decreases lines.len(),
{
    if lines.len() == 0 {
        (Seq::empty(), false)
    } else {
        let line = lines[0];
        let shown = trimmed_of(line);
        if shown.len() == 0 {
            scan_lines(lines.drop_first(), watch)
        } else if watch && contains_text(line, REBOOT_MARKER@) {
            (seq![ReportView::Line(shown)], true)
        } else {
            let rest = scan_lines(lines.drop_first(), watch);
            (seq![ReportView::Line(shown)] + rest.0, rest.1)
        }
    }
}

/// The status lines for the pieces of one error-stream chunk: each non-empty
/// piece, prefixed.
pub open spec fn stderr_reports(lines: Seq<Seq<char>>) -> Seq<ReportView>
    decreases lines.len(),
{
    if lines.len() == 0 {
        Seq::empty()
    } else if lines[0].len() == 0 {
        stderr_reports(lines.drop_first())
    } else {
        seq![ReportView::Line("stderr: "@ + lines[0])] + stderr_reports(lines.drop_first())
    }
}

/// The move that gives up with `failure`: the channel is still closed, best
/// effort, before the failure is reported.
pub open spec fn give_up(s: CommandRunView, failure: FailureView) -> Turn {
    Turn {
        state: CommandRunView { failure: Some(failure), phase: RunPhase::Aborting, ..s },
        reports: Seq::empty(),
        request: RequestView::Close,
    }
}

/// The move on a message of the primary stream: the bytes join the undecoded
/// remainder, the longest well-formed prefix is decoded and appended to the
/// output, its lines are reported, and the reboot marker ends the run early.
pub open spec fn on_data(s: CommandRunView, d: Seq<u8>) -> Turn {
    let buf = s.pending + d;
    let text = decoded_prefix(buf);
    let scan = if text.len() == 0 {
        (Seq::<ReportView>::empty(), false)
    } else {
        scan_lines(split_lines(text), true)
    };
    Turn {
        state: CommandRunView {
            output: s.output + text,
            pending: undecoded_rest(buf),
            phase: if scan.1 {
                RunPhase::Aborting
            } else {
                RunPhase::Receiving
            },
            ..s
        },
        reports: scan.0,
        request: if scan.1 {
            RequestView::Close
        } else {
            RequestView::Receive
        },
    }
}

/// The move when the channel has no further messages: what is left undecoded
/// is decoded leniently, appended and reported, then teardown begins.
pub open spec fn on_end_of_stream(s: CommandRunView) -> Turn {
    let text = lossy_text_of(s.pending);
    let flushed = s.pending.len() > 0;
    Turn {
        state: CommandRunView {
            output: if flushed {
                s.output + text
            } else {
                s.output
            },
            pending: Seq::empty(),
            phase: RunPhase::SendingEof,
            ..s
        },
        reports: if flushed {
            scan_lines(split_lines(text), false).0
        } else {
            Seq::empty()
        },
        request: RequestView::Eof,
    }
}

/// The line that closes a completed run.
pub open spec fn done_line(command: Seq<char>) -> Seq<char> {
    "command '"@ + command + "' done."@
}

/// The line that opens a run.
pub open spec fn echo_line(command: Seq<char>) -> Seq<char> {
    "# "@ + command
}

/// The failure, if any, that a recorded exit status stands for.
pub open spec fn status_failure(command: Seq<char>, exit_status: Option<u32>) -> Option<
    FailureView,
> {
    match exit_status {
        Some(status) => if status != 0 {
            Some(FailureView::CommandFailed { command, status })
        } else {
            None
        },
        None => None,
    }
}

/// The transition function of the command executor.
pub open spec fn run_next(s: CommandRunView, reply: ReplyView) -> Turn {
    match s.phase {
        RunPhase::Starting => match reply {
            ReplyView::Done => Turn {
                state: CommandRunView { phase: RunPhase::Receiving, ..s },
                reports: Seq::empty(),
                request: RequestView::Receive,
            },
            _ => give_up(s, failure_of(reply)),
        },
        RunPhase::Receiving => match reply {
            ReplyView::Data(d) => on_data(s, d),
            ReplyView::ExtendedData { ext, data } => Turn {
                state: s,
                reports: if ext == 1 {
                    stderr_reports(split_lines(lossy_text_of(data)))
                } else {
                    Seq::empty()
                },
                request: RequestView::Receive,
            },
            ReplyView::ExitStatus(status) => Turn {
                state: CommandRunView { exit_status: Some(status), ..s },
                reports: Seq::empty(),
                request: RequestView::Receive,
            },
            ReplyView::Success => Turn {
                state: s,
                reports: Seq::empty(),
                request: RequestView::Receive,
            },
            ReplyView::Other => Turn {
                state: s,
                reports: Seq::empty(),
                request: RequestView::Receive,
            },
            ReplyView::Closed => on_end_of_stream(s),
            _ => give_up(s, failure_of(reply)),
        },
        RunPhase::SendingEof => match reply {
            ReplyView::Done => Turn {
                state: CommandRunView { phase: RunPhase::Draining, ..s },
                reports: Seq::empty(),
                request: RequestView::Drain,
            },
            _ => give_up(s, failure_of(reply)),
        },
        RunPhase::Draining => match reply {
            ReplyView::Closed => Turn {
                state: CommandRunView { phase: RunPhase::Closing, ..s },
                reports: Seq::empty(),
                request: RequestView::Close,
            },
            ReplyView::Failed(m) => give_up(s, FailureView::Transport(m)),
            ReplyView::Done => give_up(s, FailureView::Unexpected),
            _ => Turn { state: s, reports: Seq::empty(), request: RequestView::Drain },
        },
        RunPhase::Closing => match reply {
            ReplyView::Done => Turn {
                state: CommandRunView {
                    failure: status_failure(s.command, s.exit_status),
                    phase: RunPhase::Finished,
                    ..s
                },
                reports: seq![ReportView::Line(done_line(s.command))],
                request: RequestView::Finish,
            },
            _ => Turn {
                state: CommandRunView {
                    failure: Some(failure_of(reply)),
                    phase: RunPhase::Finished,
                    ..s
                },
                reports: Seq::empty(),
                request: RequestView::Finish,
            },
        },
        RunPhase::Aborting => Turn {
            state: CommandRunView { phase: RunPhase::Finished, ..s },
            reports: Seq::empty(),
            request: RequestView::Finish,
        },
        RunPhase::Finished => Turn {
            state: s,
            reports: Seq::empty(),
            request: RequestView::Finish,
        },
    }
}

/// The state in which a run of `command` starts.
pub open spec fn run_start(command: Seq<char>) -> CommandRunView {
    CommandRunView {
        command,
        output: Seq::empty(),
        pending: Seq::empty(),
        exit_status: None,
        failure: None,
        phase: RunPhase::Starting,
    }
}

/// The result of a run: none before it is finished, then the failure if one
/// was recorded, else the accumulated output.
pub open spec fn run_result(s: CommandRunView) -> Option<Result<Seq<char>, FailureView>> {
    if s.phase == RunPhase::Finished {
        Some(
            match s.failure {
                Some(f) => Err(f),
                None => Ok(s.output),
            },
        )
    } else {
        None
    }
}

/// One run of one remote command.
pub struct CommandRun {
    command: String,
    output: String,
    pending: Vec<u8>,
    exit_status: Option<u32>,
    failure: Option<Failure>,
    phase: RunPhase,
}

impl View for CommandRun {
    type V = CommandRunView;

    closed spec fn view(&self) -> CommandRunView {
        CommandRunView {
            command: self.command@,
            output: self.output@,
            pending: self.pending@,
            exit_status: self.exit_status,
            failure: match self.failure {
                Some(f) => Some(f@),
                None => None,
            },
            phase: self.phase,
        }
    }
}

/// Reports the pieces of one decoded chunk, as `scan_lines` says.
fn scan(lines: &Vec<String>, watch: bool, reports: &mut Vec<Report>) -> (hit: bool)
    ensures
        report_views(final(reports)@) == report_views(old(reports)@) + scan_lines(
            texts(lines@),
            watch,
        ).0,
        hit == scan_lines(texts(lines@), watch).1,
{
    let ghost all = texts(lines@);
    let ghost before = report_views(reports@);
    let mut i: usize = 0;
    proof {
        assert(all.skip(0) =~= all);
        assert(before + Seq::<ReportView>::empty() =~= before);
    }
    while i < lines.len()
        invariant
            i <= lines.len(),
            all == texts(lines@),
            before == report_views(old(reports)@),
            scan_lines(all, watch).1 == scan_lines(all.skip(i as int), watch).1,
            before + scan_lines(all, watch).0 == report_views(reports@) + scan_lines(
                all.skip(i as int),
                watch,
            ).0,
        decreases lines.len() - i,
    {
        let ghost rest = all.skip(i as int);
        let ghost shown_before = report_views(reports@);
        proof {
            assert(rest[0] == lines@[i as int]@);
            assert(rest.drop_first() =~= all.skip(i + 1));
        }
        let line = lines[i].as_str();
        let shown = trim(line);
        if !shown.is_empty() {
            reports.push(Report::Line(shown.to_owned()));
            proof {
                assert(report_views(reports@) =~= shown_before + seq![
                    ReportView::Line(trimmed_of(rest[0])),
                ]);
            }
            if watch && contains(line, REBOOT_MARKER) {
                proof {
                    assert(rest.len() > 0);
                    assert(scan_lines(rest, watch).0 =~= seq![
                        ReportView::Line(trimmed_of(rest[0])),
                    ]);
                }
                return true;
            }
            proof {
                let tail = scan_lines(all.skip(i + 1), watch).0;
                assert(shown_before + (seq![ReportView::Line(trimmed_of(rest[0]))] + tail) =~= (
                shown_before + seq![ReportView::Line(trimmed_of(rest[0]))]) + tail);
            }
        }
        i += 1;
    }
    proof {
        assert(report_views(reports@) + Seq::<ReportView>::empty() =~= report_views(reports@));
    }
    false
}

/// Reports the pieces of one error-stream chunk, as `stderr_reports` says.
fn scan_stderr(lines: &Vec<String>, reports: &mut Vec<Report>)
    ensures
        report_views(final(reports)@) == report_views(old(reports)@) + stderr_reports(
            texts(lines@),
        ),
{
    let ghost all = texts(lines@);
    let ghost before = report_views(reports@);
    let mut i: usize = 0;
    proof {
        assert(all.skip(0) =~= all);
    }
    while i < lines.len()
        invariant
            i <= lines.len(),
            all == texts(lines@),
            before + stderr_reports(all) == report_views(reports@) + stderr_reports(
                all.skip(i as int),
            ),
        decreases lines.len() - i,
    {
        let ghost rest = all.skip(i as int);
        let ghost shown_before = report_views(reports@);
        proof {
            assert(rest[0] == lines@[i as int]@);
            assert(rest.drop_first() =~= all.skip(i + 1));
        }
        let line = lines[i].as_str();
        if !line.is_empty() {
            let mut shown = String::from_str("stderr: ");
            shown.append(line);
            reports.push(Report::Line(shown));
            proof {
                let item = seq![ReportView::Line("stderr: "@ + rest[0])];
                let tail = stderr_reports(all.skip(i + 1));
                assert(report_views(reports@) =~= shown_before + item);
                assert(shown_before + (item + tail) =~= (shown_before + item) + tail);
            }
        }
        i += 1;
    }
    proof {
        assert(report_views(reports@) + Seq::<ReportView>::empty() =~= report_views(reports@));
    }
}

impl CommandRun {
    /// Begins a run of `command`: echoes the command line and asks for a
    /// channel with the command started on it.
    pub fn start(command: &str) -> (r: (CommandRun, Step))
        ensures
            r.0@ == run_start(command@),
            report_views(r.1.reports@) == seq![ReportView::Line(echo_line(command@))],
            r.1.request@ == (RequestView::Start { command: command@ }),
    {
        let run = CommandRun {
            command: String::from_str(command),
            output: String::new(),
            pending: Vec::new(),
            exit_status: None,
            failure: None,
            phase: RunPhase::Starting,
        };
        let mut echo = String::from_str("# ");
        echo.append(command);
        let mut reports: Vec<Report> = Vec::new();
        reports.push(Report::Line(echo));
        proof {
            assert(report_views(reports@) =~= seq![ReportView::Line(echo_line(command@))]);
        }
        (run, Step { reports, request: Request::Start { command: String::from_str(command) } })
    }

    /// Whether the run is over.
    pub fn is_finished(&self) -> (r: bool)
        ensures
            r == (self@.phase == RunPhase::Finished),
    {
        match self.phase {
            RunPhase::Finished => true,
            _ => false,
        }
    }

    /// The phase the run is in.
    pub fn phase(&self) -> (r: RunPhase)
        ensures
            r == self@.phase,
    {
        self.phase
    }

    /// The exit status, once the remote end has reported one.
    pub fn exit_status(&self) -> (r: Option<u32>)
        ensures
            r == self@.exit_status,
    {
        self.exit_status
    }

    /// The output accumulated so far.
    pub fn output(&self) -> (r: &str)
        ensures
            r@ == self@.output,
    {
        self.output.as_str()
    }

    /// The result of the run: `None` until it is finished, then the failure
    /// if one was recorded, else the accumulated output.
    pub fn result(self) -> (r: Option<Result<String, Failure>>)
        ensures
            match r {
                None => run_result(self@) is None,
                Some(Ok(text)) => run_result(self@) == Some(
                    Ok::<Seq<char>, FailureView>(text@),
                ),
                Some(Err(f)) => run_result(self@) == Some(Err::<Seq<char>, FailureView>(f@)),
            },
    {
        match self.phase {
            RunPhase::Finished => match self.failure {
                Some(f) => Some(Err(f)),
                None => Some(Ok(self.output)),
            },
            _ => None,
        }
    }

    fn abandon(&mut self, failure: Failure) -> (step: Step)
        ensures
            final(self)@ == give_up(old(self)@, failure@).state,
            report_views(step.reports@) == give_up(old(self)@, failure@).reports,
            step.request@ == give_up(old(self)@, failure@).request,
    {
        self.failure = Some(failure);
        self.phase = RunPhase::Aborting;
        let reports: Vec<Report> = Vec::new();
        proof {
            assert(report_views(reports@) =~= Seq::<ReportView>::empty());
        }
        Step { reports, request: Request::Close }
    }

    fn receive_data(&mut self, d: Vec<u8>) -> (step: Step)
        ensures
            final(self)@ == on_data(old(self)@, d@).state,
            report_views(step.reports@) == on_data(old(self)@, d@).reports,
            step.request@ == on_data(old(self)@, d@).request,
    {
        self.pending.extend_from_slice(d.as_slice());
        let ghost buf = self.pending@;
        let (text, taken) = decode_prefix(self.pending.as_slice());
        proof {
            assert(buf == old(self)@.pending + d@);
            crate::text::lemma_valid_prefix_is_valid(buf);
        }
        let rest = vstd::slice::slice_to_vec(
            vstd::slice::slice_subrange(self.pending.as_slice(), taken, self.pending.len()),
        );
        proof {
            assert(rest@ =~= undecoded_rest(buf));
        }
        self.pending = rest;
        self.output.append(text.as_str());
        proof {
            assert(self.output@ == old(self)@.output + decoded_prefix(buf));
        }
        let mut reports: Vec<Report> = Vec::new();
        proof {
            assert(report_views(reports@) =~= Seq::<ReportView>::empty());
        }
        let mut hit = false;
        if !text.as_str().is_empty() {
            let lines = lines_of(text.as_str());
            hit = scan(&lines, true, &mut reports);
            proof {
                let found = scan_lines(split_lines(text@), true).0;
                assert(Seq::<ReportView>::empty() + found =~= found);
            }
        }
        if hit {
            self.phase = RunPhase::Aborting;
            Step { reports, request: Request::Close }
        } else {
            self.phase = RunPhase::Receiving;
            Step { reports, request: Request::Receive }
        }
    }

    fn end_of_stream(&mut self) -> (step: Step)
        ensures
            final(self)@ == on_end_of_stream(old(self)@).state,
            report_views(step.reports@) == on_end_of_stream(old(self)@).reports,
            step.request@ == on_end_of_stream(old(self)@).request,
    {
        let mut reports: Vec<Report> = Vec::new();
        proof {
            assert(report_views(reports@) =~= Seq::<ReportView>::empty());
        }
        if self.pending.len() > 0 {
            let text = from_utf8_lossy(self.pending.as_slice());
            self.output.append(text.as_str());
            let lines = lines_of(text.as_str());
            let _ = scan(&lines, false, &mut reports);
            proof {
                let found = scan_lines(split_lines(text@), false).0;
                assert(Seq::<ReportView>::empty() + found =~= found);
            }
        }
        self.pending = Vec::new();
        self.phase = RunPhase::SendingEof;
        Step { reports, request: Request::Eof }
    }

    /// Advances the run by the reply to its last request.
    pub fn step(&mut self, reply: Reply) -> (step: Step)
        ensures
            final(self)@ == run_next(old(self)@, reply@).state,
            report_views(step.reports@) == run_next(old(self)@, reply@).reports,
            step.request@ == run_next(old(self)@, reply@).request,
    {
        let mut reports: Vec<Report> = Vec::new();
        proof {
            assert(report_views(reports@) =~= Seq::<ReportView>::empty());
        }
        match self.phase {
            RunPhase::Starting => match reply {
                Reply::Done => {
                    self.phase = RunPhase::Receiving;
                    Step { reports, request: Request::Receive }
                },
                other => self.abandon(failure_from(other)),
            },
            RunPhase::Receiving => match reply {
                Reply::Data(d) => self.receive_data(d),
                Reply::ExtendedData { ext, data } => {
                    if ext == 1 {
                        let text = from_utf8_lossy(data.as_slice());
                        let lines = lines_of(text.as_str());
                        scan_stderr(&lines, &mut reports);
                        proof {
                            let found = stderr_reports(split_lines(text@));
                            assert(Seq::<ReportView>::empty() + found =~= found);
                        }
                    }
                    Step { reports, request: Request::Receive }
                },
                Reply::ExitStatus(status) => {
                    self.exit_status = Some(status);
                    Step { reports, request: Request::Receive }
                },
                Reply::Success => Step { reports, request: Request::Receive },
                Reply::Other => Step { reports, request: Request::Receive },
                Reply::Closed => self.end_of_stream(),
                other => self.abandon(failure_from(other)),
            },
            RunPhase::SendingEof => match reply {
                Reply::Done => {
                    self.phase = RunPhase::Draining;
                    Step { reports, request: Request::Drain }
                },
                other => self.abandon(failure_from(other)),
            },
            RunPhase::Draining => match reply {
                Reply::Closed => {
                    self.phase = RunPhase::Closing;
                    Step { reports, request: Request::Close }
                },
                Reply::Failed(m) => self.abandon(Failure::Transport(m)),
                Reply::Done => self.abandon(Failure::Unexpected),
                _ => Step { reports, request: Request::Drain },
            },
            RunPhase::Closing => match reply {
                Reply::Done => {
                    self.failure = match self.exit_status {
                        Some(status) => if status != 0 {
                            Some(
                                Failure::CommandFailed { command: self.command.clone(), status },
                            )
                        } else {
                            None
                        },
                        None => None,
                    };
                    self.phase = RunPhase::Finished;
                    let mut line = String::from_str("command '");
                    line.append(self.command.as_str());
                    line.append("' done.");
                    reports.push(Report::Line(line));
                    proof {
                        assert(report_views(reports@) =~= seq![
                            ReportView::Line(done_line(old(self)@.command)),
                        ]);
                    }
                    Step { reports, request: Request::Finish }
                },
                other => {
                    self.failure = Some(failure_from(other));
                    self.phase = RunPhase::Finished;
                    Step { reports, request: Request::Finish }
                },
            },
            RunPhase::Aborting => {
                self.phase = RunPhase::Finished;
                Step { reports, request: Request::Finish }
            },
            RunPhase::Finished => Step { reports, request: Request::Finish },
        }
    }
}

/// The bytes of a list of fragments, joined in order.
pub open spec fn joined(parts: Seq<Seq<u8>>) -> Seq<u8>
    decreases parts.len(),
{
    if parts.len() == 0 {
        Seq::empty()
    } else {
        joined(parts.drop_last()) + parts.last()
    }
}

/// The state after the primary-stream messages `parts` have been delivered
/// one after the other.
pub open spec fn after_data(s: CommandRunView, parts: Seq<Seq<u8>>) -> CommandRunView
    decreases parts.len(),
{
    if parts.len() == 0 {
        s
    } else {
        run_next(after_data(s, parts.drop_last()), ReplyView::Data(parts.last())).state
    }
}

/// Fragmentation of the primary stream is invisible in the decoded output:
/// as long as no fragment before the last one ends the run by announcing a
/// reboot, delivering the fragments one by one leaves the same output and the
/// same undecoded remainder as delivering their bytes in one message. A
/// multi-byte character cut in two by the transport comes out whole.
pub proof fn law_fragmentation_is_invisible(s: CommandRunView, parts: Seq<Seq<u8>>)
    requires
        s.phase == RunPhase::Receiving,
        parts.len() >= 1,
        after_data(s, parts.drop_last()).phase == RunPhase::Receiving,
    ensures
        after_data(s, parts).output == run_next(s, ReplyView::Data(joined(parts))).state.output,
        after_data(s, parts).pending == run_next(s, ReplyView::Data(joined(parts))).state.pending,
    decreases parts.len(),
{
    let head = parts.drop_last();
    if head.len() == 0 {
        assert(joined(parts) =~= parts.last());
    } else {
        let before = after_data(s, head.drop_last());
        assert(before.phase == RunPhase::Receiving) by {
            if before.phase != RunPhase::Receiving {
                assert(run_next(before, ReplyView::Data(head.last())).state.phase
                    != RunPhase::Receiving);
            }
        }
        law_fragmentation_is_invisible(s, head);
        crate::text::lemma_decode_in_two(s.pending + joined(head), parts.last());
        assert(s.pending + joined(parts) =~= (s.pending + joined(head)) + parts.last());
        let mid = after_data(s, head);
        assert(after_data(s, parts).output =~= s.output + decoded_prefix(
            s.pending + joined(parts),
        ));
    }
}

/// Messages of the primary stream leave a recorded exit status untouched,
/// however many arrive after it.
pub proof fn law_exit_status_outlives_data(s: CommandRunView, parts: Seq<Seq<u8>>)
    ensures
        after_data(s, parts).exit_status == s.exit_status,
        after_data(s, parts).command == s.command,
    decreases parts.len(),
{
    if parts.len() > 0 {
        law_exit_status_outlives_data(s, parts.drop_last());
    }
}

/// Once the channel has been closed without a failure, the recorded exit
/// status alone decides the result: a non-zero status is a failure that
/// names the command and the status; a zero status and no status at all are a
/// success that carries the accumulated output.
pub proof fn law_exit_status_decides(s: CommandRunView)
    requires
        s.phase == RunPhase::Closing,
    ensures
        match s.exit_status {
            Some(status) if status != 0 => run_result(run_next(s, ReplyView::Done).state)
                == Some(
                Err::<Seq<char>, FailureView>(
                    FailureView::CommandFailed { command: s.command, status },
                ),
            ),
            _ => run_result(run_next(s, ReplyView::Done).state) == Some(
                Ok::<Seq<char>, FailureView>(s.output),
            ),
        },
{
}

} // verus!
