//! The file transfer protocol: copies one file to a remote path over a fresh
//! channel, as the source side of a minimal single-file remote copy.
//!
//! On the wire go a header line, the file's bytes in chunks of at most
//! `CHUNK_SIZE`, and one null byte. The receiver acknowledges three times:
//! when it is ready, after the header, and after the null byte.
//!
//! `Transfer` is a state machine with transition function `transfer_next`.

use vstd::prelude::*;
use vstd::utf8::encode_utf8;
use crate::channel::{
    ack_result, failure_from, failure_of, report_views, wait_for_acknowledgment, Failure,
    FailureView, Reply, ReplyView, Report, ReportView, Request, RequestView, Step,
};
use crate::text::{decimal, push_decimal};

verus! {

/// The greatest number of file bytes written in one request.
pub const CHUNK_SIZE: usize = 65536;

/// Where a transfer stands.
#[derive(Debug, Clone, Copy, PartialEq, Eq, Structural)]
pub enum TransferPhase {
    /// The channel is being opened and the receiver started.
    Starting,
    /// The receiver's first acknowledgment is awaited.
    AwaitingReady,
    /// The header line is being written.
    SendingHeader,
    /// The acknowledgment of the header is awaited.
    AwaitingHeaderAck,
    /// A chunk of the file is being written.
    SendingBody,
    /// The closing null byte is being written.
    SendingTerminator,
    /// The final acknowledgment is awaited.
    AwaitingFinalAck,
    /// End of file is being signalled.
    SendingEof,
    /// Leftover messages are being drained.
    Draining,
    /// The channel is being closed; a failure here is reported.
    Closing,
    /// The channel is being closed on a best-effort basis after a failure.
    Aborting,
    /// The transfer is over.
    Finished,
}

/// Mathematical model of a `Transfer`.
pub ghost struct TransferView {
    /// The file's contents.
    pub file: Seq<u8>,
    /// The remote path.
    pub destination: Seq<char>,
    /// How many bytes of the file have been written and confirmed.
    pub offset: nat,
    /// The failure to report, once one is known.
    pub failure: Option<FailureView>,
    pub phase: TransferPhase,
}

/// One move of a transfer: its next state, the items for the status sink and
/// the request for the driver.
pub ghost struct TransferTurn {
    pub state: TransferView,
    pub reports: Seq<ReportView>,
    pub request: RequestView,
}

/// The header line for a file of `size` bytes.
pub open spec fn header_text(size: nat) -> Seq<char> {
    "C0644 "@ + decimal(size) + " filename\n"@
}

/// The header line as written to the channel.
pub open spec fn header_bytes(size: nat) -> Seq<u8> {
    encode_utf8(header_text(size))
}

/// Everything a complete transfer of `file` writes to the channel: the
/// header, the file, one null byte.
pub open spec fn wire(file: Seq<u8>) -> Seq<u8> {
    header_bytes(file.len()) + file + seq![0u8]
}

/// The command that starts the receiver for `destination`.
pub open spec fn receiver_command(destination: Seq<char>) -> Seq<char> {
    "scp -t "@ + destination
}

/// Where the chunk that starts at `offset` ends.
pub open spec fn chunk_end(file: Seq<u8>, offset: nat) -> nat {
    if offset + CHUNK_SIZE <= file.len() {
        offset + CHUNK_SIZE as nat
    } else {
        file.len()
    }
}

/// The chunk of `file` that starts at `offset`.
pub open spec fn chunk_at(file: Seq<u8>, offset: nat) -> Seq<u8> {
    file.subrange(offset as int, chunk_end(file, offset) as int)
}

/// The progress report after `confirmed` bytes of the wire have been written.
pub open spec fn progress(s: TransferView, confirmed: nat) -> ReportView {
    ReportView::Progress { sent: confirmed, total: wire(s.file).len() }
}

/// The move that gives up with `failure`: the channel is still closed, best
/// effort, before the failure is reported.
pub open spec fn transfer_give_up(s: TransferView, failure: FailureView) -> TransferTurn {
    TransferTurn {
        state: TransferView { failure: Some(failure), phase: TransferPhase::Aborting, ..s },
        reports: Seq::empty(),
        request: RequestView::Close,
    }
}

/// The move that goes on to `phase` with `request` and nothing to report.
pub open spec fn go_on(s: TransferView, phase: TransferPhase, request: RequestView)
    -> TransferTurn {
    TransferTurn { state: TransferView { phase, ..s }, reports: Seq::empty(), request }
}

/// The request that writes the next piece of the body, or the null byte once
/// the file is through, with the phase that goes with it.
pub open spec fn body_turn(s: TransferView, offset: nat, reports: Seq<ReportView>)
    -> TransferTurn {
    if offset < s.file.len() {
        TransferTurn {
            state: TransferView { offset, phase: TransferPhase::SendingBody, ..s },
            reports,
            request: RequestView::Send { payload: chunk_at(s.file, offset) },
        }
    } else {
        TransferTurn {
            state: TransferView { offset, phase: TransferPhase::SendingTerminator, ..s },
            reports,
            request: RequestView::Send { payload: seq![0u8] },
        }
    }
}

/// The transition function of the file transfer.
pub open spec fn transfer_next(s: TransferView, reply: ReplyView) -> TransferTurn {
    let header_len = header_bytes(s.file.len()).len();
    match s.phase {
        TransferPhase::Starting => match reply {
            ReplyView::Done => go_on(s, TransferPhase::AwaitingReady, RequestView::Receive),
            _ => transfer_give_up(s, failure_of(reply)),
        },
        TransferPhase::AwaitingReady => match ack_result(reply) {
            Ok(_) => go_on(
                s,
                TransferPhase::SendingHeader,
                RequestView::Send { payload: header_bytes(s.file.len()) },
            ),
            Err(f) => transfer_give_up(s, f),
        },
        TransferPhase::SendingHeader => match reply {
            ReplyView::Done => TransferTurn {
                state: TransferView { phase: TransferPhase::AwaitingHeaderAck, ..s },
                reports: seq![progress(s, header_len)],
                request: RequestView::Receive,
            },
            _ => transfer_give_up(s, failure_of(reply)),
        },
        TransferPhase::AwaitingHeaderAck => match ack_result(reply) {
            Ok(_) => body_turn(s, 0, Seq::empty()),
            Err(f) => transfer_give_up(s, f),
        },
        TransferPhase::SendingBody => match reply {
            ReplyView::Done => {
                let offset = chunk_end(s.file, s.offset);
                body_turn(s, offset, seq![progress(s, header_len + offset)])
            },
            _ => transfer_give_up(s, failure_of(reply)),
        },
        TransferPhase::SendingTerminator => match reply {
            ReplyView::Done => TransferTurn {
                state: TransferView { phase: TransferPhase::AwaitingFinalAck, ..s },
                reports: seq![progress(s, wire(s.file).len())],
                request: RequestView::Receive,
            },
            _ => transfer_give_up(s, failure_of(reply)),
        },
        TransferPhase::AwaitingFinalAck => match ack_result(reply) {
            Ok(_) => go_on(s, TransferPhase::SendingEof, RequestView::Eof),
            Err(f) => transfer_give_up(s, f),
        },
        TransferPhase::SendingEof => match reply {
            ReplyView::Done => go_on(s, TransferPhase::Draining, RequestView::Drain),
            _ => transfer_give_up(s, failure_of(reply)),
        },
        TransferPhase::Draining => match reply {
            ReplyView::Closed => go_on(s, TransferPhase::Closing, RequestView::Close),
            ReplyView::Failed(m) => transfer_give_up(s, FailureView::Transport(m)),
            ReplyView::Done => transfer_give_up(s, FailureView::Unexpected),
            _ => go_on(s, TransferPhase::Draining, RequestView::Drain),
        },
        TransferPhase::Closing => match reply {
            ReplyView::Done => TransferTurn {
                state: TransferView { phase: TransferPhase::Finished, ..s },
                reports: seq![ReportView::Line("File sent successfully!"@)],
                request: RequestView::Finish,
            },
            _ => TransferTurn {
                state: TransferView {
                    failure: Some(failure_of(reply)),
                    phase: TransferPhase::Finished,
                    ..s
                },
                reports: Seq::empty(),
                request: RequestView::Finish,
            },
        },
        TransferPhase::Aborting => go_on(s, TransferPhase::Finished, RequestView::Finish),
        TransferPhase::Finished => go_on(s, TransferPhase::Finished, RequestView::Finish),
    }
}

/// The state in which a transfer of `file` to `destination` starts.
pub open spec fn transfer_start(file: Seq<u8>, destination: Seq<char>) -> TransferView {
    TransferView { file, destination, offset: 0, failure: None, phase: TransferPhase::Starting }
}

/// The result of a transfer: none before it is finished, then the failure if
/// one was recorded, else success.
pub open spec fn transfer_result(s: TransferView) -> Option<Result<(), FailureView>> {
    if s.phase == TransferPhase::Finished {
        Some(
            match s.failure {
                Some(f) => Err(f),
                None => Ok(()),
            },
        )
    } else {
        None
    }
}

/// The header line for a file of `size` bytes, as bytes for the channel.
pub fn scp_header(size: usize) -> (r: Vec<u8>)
    ensures
        r@ == header_bytes(size as nat),
{
    let mut line = String::from_str("C0644 ");
    push_decimal(&mut line, size as u64);
    line.append(" filename\n");
    line.as_str().as_bytes_vec()
}

/// One transfer of one file.
pub struct Transfer {
    file: Vec<u8>,
    header: Vec<u8>,
    destination: String,
    offset: usize,
    failure: Option<Failure>,
    phase: TransferPhase,
}

impl View for Transfer {
    type V = TransferView;

    closed spec fn view(&self) -> TransferView {
        TransferView {
            file: self.file@,
            destination: self.destination@,
            offset: self.offset as nat,
            failure: match self.failure {
                Some(f) => Some(f@),
                None => None,
            },
            phase: self.phase,
        }
    }
}

impl Transfer {
    #[verifier::type_invariant]
    spec fn consistent(self) -> bool {
        &&& self.header@ == header_bytes(self.file@.len())
        &&& self.header@.len() + self.file@.len() + 1 <= usize::MAX
        &&& self.offset <= self.file@.len()
    }

    /// Begins a transfer of `file` to the remote path `destination`: asks for
    /// a channel with the receiver started on it. Returns `None` when the
    /// number of bytes to write does not fit the machine's word.
    pub fn start(file: Vec<u8>, destination: &str) -> (r: Option<(Transfer, Step)>)
        ensures
            r is Some <==> wire(file@).len() <= usize::MAX,
            r matches Some((t, step)) ==> {
                &&& t@ == transfer_start(file@, destination@)
                &&& report_views(step.reports@) == Seq::<ReportView>::empty()
                &&& step.request@ == (RequestView::Start {
                    command: receiver_command(destination@),
                })
            },
    {
        let header = scp_header(file.len());
        if header.len() > usize::MAX - 1 || file.len() > usize::MAX - 1 - header.len() {
            return None;
        }
        let mut command = String::from_str("scp -t ");
        command.append(destination);
        let reports: Vec<Report> = Vec::new();
        proof {
            assert(report_views(reports@) =~= Seq::<ReportView>::empty());
        }
        let transfer = Transfer {
            file,
            header,
            destination: String::from_str(destination),
            offset: 0,
            failure: None,
            phase: TransferPhase::Starting,
        };
        Some((transfer, Step { reports, request: Request::Start { command } }))
    }

    /// Whether the transfer is over.
    pub fn is_finished(&self) -> (r: bool)
        ensures
            r == (self@.phase == TransferPhase::Finished),
    {
        match self.phase {
            TransferPhase::Finished => true,
            _ => false,
        }
    }

    /// The phase the transfer is in.
    pub fn phase(&self) -> (r: TransferPhase)
        ensures
            r == self@.phase,
    {
        self.phase
    }

    /// The number of bytes a complete transfer writes to the channel.
    pub fn total_size(&self) -> (r: usize)
        ensures
            r == wire(self@.file).len(),
    {
        proof {
            use_type_invariant(self);
        }
        self.header.len() + self.file.len() + 1
    }

    /// The result of the transfer: `None` until it is finished, then the
    /// failure if one was recorded, else success.
    pub fn result(self) -> (r: Option<Result<(), Failure>>)
        ensures
            match r {
                None => transfer_result(self@) is None,
                Some(Ok(_)) => transfer_result(self@) == Some(Ok::<(), FailureView>(())),
                Some(Err(f)) => transfer_result(self@) == Some(Err::<(), FailureView>(f@)),
            },
    {
        match self.phase {
            TransferPhase::Finished => match self.failure {
                Some(f) => Some(Err(f)),
                None => Some(Ok(())),
            },
            _ => None,
        }
    }

    fn abandon(&mut self, failure: Failure) -> (step: Step)
        ensures
            final(self)@ == transfer_give_up(old(self)@, failure@).state,
            report_views(step.reports@) == transfer_give_up(old(self)@, failure@).reports,
            step.request@ == transfer_give_up(old(self)@, failure@).request,
    {
        proof {
            use_type_invariant(&*self);
        }
        self.failure = Some(failure);
        self.phase = TransferPhase::Aborting;
        let reports: Vec<Report> = Vec::new();
        proof {
            assert(report_views(reports@) =~= Seq::<ReportView>::empty());
        }
        Step { reports, request: Request::Close }
    }

    fn proceed(&mut self, phase: TransferPhase, request: Request) -> (step: Step)
        ensures
            final(self)@ == go_on(old(self)@, phase, request@).state,
            report_views(step.reports@) == go_on(old(self)@, phase, request@).reports,
            step.request@ == go_on(old(self)@, phase, request@).request,
    {
        proof {
            use_type_invariant(&*self);
        }
        self.phase = phase;
        let reports: Vec<Report> = Vec::new();
        proof {
            assert(report_views(reports@) =~= Seq::<ReportView>::empty());
        }
        Step { reports, request }
    }

    fn send_body(&mut self, offset: usize, reports: Vec<Report>) -> (step: Step)
        requires
            offset <= old(self)@.file.len(),
        ensures
            final(self)@ == body_turn(old(self)@, offset as nat, report_views(reports@)).state,
            report_views(step.reports@) == body_turn(
                old(self)@,
                offset as nat,
                report_views(reports@),
            ).reports,
            step.request@ == body_turn(
                old(self)@,
                offset as nat,
                report_views(reports@),
            ).request,
    {
        proof {
            use_type_invariant(&*self);
        }
        self.offset = offset;
        if offset < self.file.len() {
            let end: usize = if self.file.len() - offset >= CHUNK_SIZE {
                offset + CHUNK_SIZE
            } else {
                self.file.len()
            };
            let payload = vstd::slice::slice_to_vec(
                vstd::slice::slice_subrange(self.file.as_slice(), offset, end),
            );
            self.phase = TransferPhase::SendingBody;
            Step { reports, request: Request::Send { payload } }
        } else {
            let mut payload: Vec<u8> = Vec::new();
            payload.push(0u8);
            proof {
                assert(payload@ =~= seq![0u8]);
            }
            self.phase = TransferPhase::SendingTerminator;
            Step { reports, request: Request::Send { payload } }
        }
    }

    fn report_progress(&self, confirmed: usize) -> (reports: Vec<Report>)
        ensures
            report_views(reports@) == seq![progress(self@, confirmed as nat)],
    {
        proof {
            use_type_invariant(self);
        }
        let mut reports: Vec<Report> = Vec::new();
        reports.push(
            Report::Progress { sent: confirmed, total: self.header.len() + self.file.len() + 1 },
        );
        proof {
            assert(report_views(reports@) =~= seq![progress(self@, confirmed as nat)]);
        }
        reports
    }

    /// Advances the transfer by the reply to its last request.
    pub fn step(&mut self, reply: Reply) -> (step: Step)
        ensures
            final(self)@ == transfer_next(old(self)@, reply@).state,
            report_views(step.reports@) == transfer_next(old(self)@, reply@).reports,
            step.request@ == transfer_next(old(self)@, reply@).request,
    {
        proof {
            use_type_invariant(&*self);
        }
        match self.phase {
            TransferPhase::Starting => match reply {
                Reply::Done => self.proceed(TransferPhase::AwaitingReady, Request::Receive),
                other => self.abandon(failure_from(other)),
            },
            TransferPhase::AwaitingReady => match wait_for_acknowledgment(&reply) {
                Ok(_) => {
                    let payload = self.header.clone();
                    self.proceed(TransferPhase::SendingHeader, Request::Send { payload })
                },
                Err(f) => self.abandon(f),
            },
            TransferPhase::SendingHeader => match reply {
                Reply::Done => {
                    let reports = self.report_progress(self.header.len());
                    self.phase = TransferPhase::AwaitingHeaderAck;
                    Step { reports, request: Request::Receive }
                },
                other => self.abandon(failure_from(other)),
            },
            TransferPhase::AwaitingHeaderAck => match wait_for_acknowledgment(&reply) {
                Ok(_) => {
                    let reports: Vec<Report> = Vec::new();
                    proof {
                        assert(report_views(reports@) =~= Seq::<ReportView>::empty());
                    }
                    self.send_body(0, reports)
                },
                Err(f) => self.abandon(f),
            },
            TransferPhase::SendingBody => match reply {
                Reply::Done => {
                    let offset: usize = if self.file.len() - self.offset >= CHUNK_SIZE {
                        self.offset + CHUNK_SIZE
                    } else {
                        self.file.len()
                    };
                    let reports = self.report_progress(self.header.len() + offset);
                    self.send_body(offset, reports)
                },
                other => self.abandon(failure_from(other)),
            },
            TransferPhase::SendingTerminator => match reply {
                Reply::Done => {
                    let reports = self.report_progress(self.header.len() + self.file.len() + 1);
                    self.phase = TransferPhase::AwaitingFinalAck;
                    Step { reports, request: Request::Receive }
                },
                other => self.abandon(failure_from(other)),
            },
            TransferPhase::AwaitingFinalAck => match wait_for_acknowledgment(&reply) {
                Ok(_) => self.proceed(TransferPhase::SendingEof, Request::Eof),
                Err(f) => self.abandon(f),
            },
            TransferPhase::SendingEof => match reply {
                Reply::Done => self.proceed(TransferPhase::Draining, Request::Drain),
                other => self.abandon(failure_from(other)),
            },
            TransferPhase::Draining => match reply {
                Reply::Closed => self.proceed(TransferPhase::Closing, Request::Close),
                Reply::Failed(m) => self.abandon(Failure::Transport(m)),
                Reply::Done => self.abandon(Failure::Unexpected),
                _ => self.proceed(TransferPhase::Draining, Request::Drain),
            },
            TransferPhase::Closing => match reply {
                Reply::Done => {
                    self.phase = TransferPhase::Finished;
                    let mut reports: Vec<Report> = Vec::new();
                    reports.push(Report::Line(String::from_str("File sent successfully!")));
                    proof {
                        assert(report_views(reports@) =~= seq![
                            ReportView::Line("File sent successfully!"@),
                        ]);
                    }
                    Step { reports, request: Request::Finish }
                },
                other => {
                    self.failure = Some(failure_from(other));
                    self.phase = TransferPhase::Finished;
                    let reports: Vec<Report> = Vec::new();
                    proof {
                        assert(report_views(reports@) =~= Seq::<ReportView>::empty());
                    }
                    Step { reports, request: Request::Finish }
                },
            },
            TransferPhase::Aborting => self.proceed(TransferPhase::Finished, Request::Finish),
            TransferPhase::Finished => self.proceed(TransferPhase::Finished, Request::Finish),
        }
    }
}

/// What a driver has seen of a transfer after some replies: the state, all
/// bytes it was asked to write, in order, and all progress reports, in order,
/// each as bytes written and bytes in total.
pub ghost struct Trace {
    pub state: TransferView,
    pub sent: Seq<u8>,
    pub progress: Seq<(nat, nat)>,
}

/// The bytes a request asks to write.
pub open spec fn payload_of(request: RequestView) -> Seq<u8> {
    match request {
        RequestView::Send { payload } => payload,
        _ => Seq::empty(),
    }
}

/// The progress reports among `reports`, in order.
pub open spec fn progress_in(reports: Seq<ReportView>) -> Seq<(nat, nat)>
    decreases reports.len(),
{
    if reports.len() == 0 {
        Seq::empty()
    } else {
        progress_in(reports.drop_last()) + match reports.last() {
            ReportView::Progress { sent, total } => seq![(sent, total)],
            _ => Seq::empty(),
        }
    }
}

/// The trace of a transfer of `file` whose driver has answered with
/// `replies`, one per request.
pub open spec fn transfer_trace(file: Seq<u8>, destination: Seq<char>, replies: Seq<ReplyView>)
    -> Trace
    decreases replies.len(),
{
    if replies.len() == 0 {
        Trace {
            state: transfer_start(file, destination),
            sent: Seq::empty(),
            progress: Seq::empty(),
        }
    } else {
        let before = transfer_trace(file, destination, replies.drop_last());
        let turn = transfer_next(before.state, replies.last());
        Trace {
            state: turn.state,
            sent: before.sent + payload_of(turn.request),
            progress: before.progress + progress_in(turn.reports),
        }
    }
}

/// The progress reports never go back and never pass the total.
pub open spec fn steady(progress: Seq<(nat, nat)>, total: nat) -> bool {
    &&& forall|i: int| 0 <= i < progress.len() ==> (#[trigger] progress[i]).1 == total
    &&& forall|i: int| 0 <= i < progress.len() ==> (#[trigger] progress[i]).0 <= total
    &&& forall|i: int, j: int|
        0 <= i <= j < progress.len() ==> (#[trigger] progress[i]).0 <= (#[trigger] progress[j]).0
}

/// The last progress report says that `confirmed` bytes were written.
pub open spec fn last_reported(progress: Seq<(nat, nat)>, confirmed: nat) -> bool {
    progress.len() > 0 && progress.last().0 == confirmed
}

/// What holds of every trace of a transfer of `file`.
pub open spec fn trace_holds(t: Trace, file: Seq<u8>) -> bool {
    let header = header_bytes(file.len());
    let s = t.state;
    &&& s.file == file
    &&& s.offset <= file.len()
    &&& steady(t.progress, wire(file).len())
    &&& match s.phase {
        TransferPhase::Starting | TransferPhase::AwaitingReady => {
            &&& s.failure is None
            &&& t.sent == Seq::<u8>::empty()
            &&& t.progress.len() == 0
        },
        TransferPhase::SendingHeader => {
            &&& s.failure is None
            &&& t.sent == header
            &&& t.progress.len() == 0
        },
        TransferPhase::AwaitingHeaderAck => {
            &&& s.failure is None
            &&& t.sent == header
            &&& last_reported(t.progress, header.len())
        },
        TransferPhase::SendingBody => {
            &&& s.failure is None
            &&& s.offset < file.len()
            &&& t.sent == header + file.take(chunk_end(file, s.offset) as int)
            &&& (t.progress.len() > 0 ==> t.progress.last().0 <= header.len() + s.offset)
        },
        TransferPhase::SendingTerminator => {
            &&& s.failure is None
            &&& t.sent == wire(file)
            &&& (t.progress.len() > 0 ==> t.progress.last().0 < wire(file).len())
        },
        TransferPhase::AwaitingFinalAck | TransferPhase::SendingEof | TransferPhase::Draining
        | TransferPhase::Closing => {
            &&& s.failure is None
            &&& t.sent == wire(file)
            &&& last_reported(t.progress, wire(file).len())
        },
        TransferPhase::Aborting => s.failure is Some,
        TransferPhase::Finished => s.failure is None ==> {
            &&& t.sent == wire(file)
            &&& last_reported(t.progress, wire(file).len())
        },
    }
}

proof fn lemma_progress_in_none()
    ensures
        progress_in(Seq::empty()) == Seq::<(nat, nat)>::empty(),
{
}

proof fn lemma_progress_in_one(report: ReportView)
    ensures
        progress_in(seq![report]) == match report {
            ReportView::Progress { sent, total } => seq![(sent, total)],
            _ => Seq::<(nat, nat)>::empty(),
        },
{
    reveal_with_fuel(progress_in, 2);
    assert(seq![report].drop_last() =~= Seq::<ReportView>::empty());
    assert(seq![report].last() == report);
    assert(progress_in(seq![report]) =~= match report {
        ReportView::Progress { sent, total } => seq![(sent, total)],
        _ => Seq::<(nat, nat)>::empty(),
    });
}

proof fn lemma_steady_push(progress: Seq<(nat, nat)>, total: nat, confirmed: nat)
    requires
        steady(progress, total),
        confirmed <= total,
        progress.len() > 0 ==> progress.last().0 <= confirmed,
    ensures
        steady(progress + seq![(confirmed, total)], total),
        last_reported(progress + seq![(confirmed, total)], confirmed),
{
    let next = progress + seq![(confirmed, total)];
    assert forall|i: int, j: int| 0 <= i <= j < next.len() implies (#[trigger] next[i]).0 <= (
    #[trigger] next[j]).0 by {
        if j < progress.len() {
            assert(next[i] == progress[i]);
            assert(next[j] == progress[j]);
        } else if i < progress.len() {
            assert(next[i] == progress[i]);
            assert(progress[i].0 <= progress[progress.len() - 1].0);
        }
    }
    assert forall|i: int| 0 <= i < next.len() implies (#[trigger] next[i]).1 == total && next[i].0
        <= total by {
        if i < progress.len() {
            assert(next[i] == progress[i]);
        }
    }
}

/// Every step of a transfer keeps `trace_holds`.
proof fn lemma_trace_step(before: Trace, file: Seq<u8>, reply: ReplyView)
    requires
        trace_holds(before, file),
    ensures
        trace_holds(
            Trace {
                state: transfer_next(before.state, reply).state,
                sent: before.sent + payload_of(transfer_next(before.state, reply).request),
                progress: before.progress + progress_in(
                    transfer_next(before.state, reply).reports,
                ),
            },
            file,
        ),
{
    let s = before.state;
    let turn = transfer_next(s, reply);
    let header = header_bytes(file.len());
    let total = wire(file).len();
    let after = Trace {
        state: turn.state,
        sent: before.sent + payload_of(turn.request),
        progress: before.progress + progress_in(turn.reports),
    };
    lemma_progress_in_none();
    assert(total == header.len() + file.len() + 1);
    assert(before.sent + Seq::<u8>::empty() =~= before.sent);
    assert(before.progress + Seq::<(nat, nat)>::empty() =~= before.progress);
    if turn.reports.len() == 1 {
        lemma_progress_in_one(turn.reports[0]);
        assert(turn.reports =~= seq![turn.reports[0]]);
    }
    match s.phase {
        TransferPhase::SendingHeader => {
            if reply is Done {
                lemma_steady_push(before.progress, total, header.len());
            }
        },
        TransferPhase::AwaitingHeaderAck => {
            if ack_result(reply) is Ok {
                if 0 < file.len() {
                    assert(chunk_at(file, 0) =~= file.take(chunk_end(file, 0) as int));
                } else {
                    assert(header + seq![0u8] =~= wire(file));
                }
            }
        },
        TransferPhase::SendingBody => {
            if reply is Done {
                let offset = chunk_end(file, s.offset);
                lemma_steady_push(before.progress, total, header.len() + offset);
                if offset < file.len() {
                    assert(header + file.take(offset as int) + chunk_at(file, offset) =~= header
                        + file.take(chunk_end(file, offset) as int));
                } else {
                    assert(file.take(offset as int) =~= file);
                }
            }
        },
        TransferPhase::SendingTerminator => {
            if reply is Done {
                lemma_steady_push(before.progress, total, total);
            }
        },
        _ => {},
    }
}

/// `trace_holds` of every trace.
pub proof fn lemma_trace_holds(file: Seq<u8>, destination: Seq<char>, replies: Seq<ReplyView>)
    ensures
        trace_holds(transfer_trace(file, destination, replies), file),
    decreases replies.len(),
{
    if replies.len() > 0 {
        lemma_trace_holds(file, destination, replies.drop_last());
        lemma_trace_step(
            transfer_trace(file, destination, replies.drop_last()),
            file,
            replies.last(),
        );
    }
}

/// A transfer that ends in success has written exactly the header, the
/// file's bytes in order and one null byte, whatever the file's size, and
/// its last progress report shows that many bytes written out of as many.
pub proof fn law_transfer_writes_the_file(
    file: Seq<u8>,
    destination: Seq<char>,
    replies: Seq<ReplyView>,
)
    ensures
        ({
            let t = transfer_trace(file, destination, replies);
            transfer_result(t.state) == Some(Ok::<(), FailureView>(())) ==> {
                &&& t.sent == header_bytes(file.len()) + file + seq![0u8]
                &&& t.progress.len() > 0
                &&& t.progress.last() == (t.sent.len(), t.sent.len())
            }
        }),
{
    lemma_trace_holds(file, destination, replies);
}

/// The progress reports of a transfer never go back: the count of bytes
/// written never decreases from one report to the next, it never passes the
/// total, and every report names the same total.
pub proof fn law_progress_never_goes_back(
    file: Seq<u8>,
    destination: Seq<char>,
    replies: Seq<ReplyView>,
)
    ensures
        steady(transfer_trace(file, destination, replies).progress, wire(file).len()),
{
    lemma_trace_holds(file, destination, replies);
}

} // verus!
