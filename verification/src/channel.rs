//! The boundary between the protocol machines and the secure-channel
//! transport.
//!
//! A machine never touches the network. It hands its driver one `Request` at a
//! time, the driver performs it on the channel within the request's time
//! limit, and hands back a `Reply`. Text for the status sink travels beside
//! the request as a list of `Report`s.

use vstd::prelude::*;
use crate::text::{decimal, from_utf8_lossy, lossy_text_of, push_decimal};

verus! {

/// Seconds allowed for setting a channel up and for tearing it down.
pub const SHORT_LIMIT_SECS: u64 = 5;

/// Seconds allowed for an operation that carries data.
pub const LONG_LIMIT_SECS: u64 = 60;

/// What the transport reports back for one request.
#[derive(Debug, Clone, PartialEq, Eq)]
pub enum Reply {
    /// The operation completed; it yields no message.
    Done,
    /// A message of the primary data stream.
    Data(Vec<u8>),
    /// A message of an extended data stream; stream 1 is the error stream.
    ExtendedData { ext: u32, data: Vec<u8> },
    /// The remote command's exit status.
    ExitStatus(u32),
    /// The generic success signal.
    Success,
    /// A message of any other kind.
    Other,
    /// The channel has no further messages.
    Closed,
    /// The time limit elapsed.
    TimedOut,
    /// The transport raised an error, with its text.
    Failed(String),
}

/// Mathematical model of a `Reply`.
pub ghost enum ReplyView {
    Done,
    Data(Seq<u8>),
    ExtendedData { ext: u32, data: Seq<u8> },
    ExitStatus(u32),
    Success,
    Other,
    Closed,
    TimedOut,
    Failed(Seq<char>),
}

impl View for Reply {
    type V = ReplyView;

    open spec fn view(&self) -> ReplyView {
        match self {
            Reply::Done => ReplyView::Done,
            Reply::Data(d) => ReplyView::Data(d@),
            Reply::ExtendedData { ext, data } => ReplyView::ExtendedData { ext: *ext, data: data@ },
            Reply::ExitStatus(s) => ReplyView::ExitStatus(*s),
            Reply::Success => ReplyView::Success,
            Reply::Other => ReplyView::Other,
            Reply::Closed => ReplyView::Closed,
            Reply::TimedOut => ReplyView::TimedOut,
            Reply::Failed(m) => ReplyView::Failed(m@),
        }
    }
}

/// The one transport operation a machine asks for next.
#[derive(Debug, Clone, PartialEq, Eq)]
pub enum Request {
    /// Open a fresh channel and start `command` on it.
    Start { command: String },
    /// Wait for the next channel message.
    Receive,
    /// Write `payload` to the channel.
    Send { payload: Vec<u8> },
    /// Signal end of file on the channel.
    Eof,
    /// Wait for a leftover message; the machine swallows a timeout here.
    Drain,
    /// Close the channel.
    Close,
    /// Nothing more to do: the machine holds its result.
    Finish,
}

/// Mathematical model of a `Request`.
pub ghost enum RequestView {
    Start { command: Seq<char> },
    Receive,
    Send { payload: Seq<u8> },
    Eof,
    Drain,
    Close,
    Finish,
}

impl View for Request {
    type V = RequestView;

    open spec fn view(&self) -> RequestView {
        match self {
            Request::Start { command } => RequestView::Start { command: command@ },
            Request::Receive => RequestView::Receive,
            Request::Send { payload } => RequestView::Send { payload: payload@ },
            Request::Eof => RequestView::Eof,
            Request::Drain => RequestView::Drain,
            Request::Close => RequestView::Close,
            Request::Finish => RequestView::Finish,
        }
    }
}

/// The time limit of a request, in seconds: the long one for operations that
/// carry data, the short one for setup and teardown, none once finished.
pub open spec fn time_limit_of(request: RequestView) -> Option<u64> {
    match request {
        RequestView::Receive => Some(LONG_LIMIT_SECS),
        RequestView::Send { .. } => Some(LONG_LIMIT_SECS),
        RequestView::Start { .. } => Some(SHORT_LIMIT_SECS),
        RequestView::Eof => Some(SHORT_LIMIT_SECS),
        RequestView::Drain => Some(SHORT_LIMIT_SECS),
        RequestView::Close => Some(SHORT_LIMIT_SECS),
        RequestView::Finish => None,
    }
}

impl Request {
    /// Seconds the driver may spend on this request.
    pub fn time_limit(&self) -> (r: Option<u64>)
        ensures
            r == time_limit_of(self@),
    {
        match self {
            Request::Receive => Some(LONG_LIMIT_SECS),
            Request::Send { .. } => Some(LONG_LIMIT_SECS),
            Request::Start { .. } => Some(SHORT_LIMIT_SECS),
            Request::Eof => Some(SHORT_LIMIT_SECS),
            Request::Drain => Some(SHORT_LIMIT_SECS),
            Request::Close => Some(SHORT_LIMIT_SECS),
            Request::Finish => None,
        }
    }
}

/// One item for the status sink.
#[derive(Debug, Clone, PartialEq, Eq)]
pub enum Report {
    /// A line of human-readable text.
    Line(String),
    /// Transfer progress in bytes; the sink renders the percentage.
    Progress { sent: usize, total: usize },
}

/// Mathematical model of a `Report`.
pub ghost enum ReportView {
    Line(Seq<char>),
    Progress { sent: nat, total: nat },
}

impl View for Report {
    type V = ReportView;

    open spec fn view(&self) -> ReportView {
        match self {
            Report::Line(l) => ReportView::Line(l@),
            Report::Progress { sent, total } => ReportView::Progress {
                sent: *sent as nat,
                total: *total as nat,
            },
        }
    }
}

/// The views of a sequence of reports.
pub open spec fn report_views(reports: Seq<Report>) -> Seq<ReportView> {
    Seq::new(reports.len(), |i: int| reports[i]@)
}

/// Why a channel operation failed.
#[derive(Debug, Clone, PartialEq, Eq)]
pub enum Failure {
    /// The transport raised an error; its text is kept verbatim.
    Transport(String),
    /// A data-bearing or teardown step exceeded its time limit.
    TimedOut,
    /// No acknowledgment arrived within the time limit.
    AckTimedOut,
    /// The receiver acknowledged with status 1 and this detail.
    RemoteError(String),
    /// The receiver acknowledged with status 2.
    RemoteFatal,
    /// The receiver acknowledged with an unrecognized status byte.
    UnknownAck(u8),
    /// The receiver acknowledged with no bytes at all.
    EmptyAck,
    /// The channel ran out of messages while an acknowledgment was awaited.
    ClosedEarly,
    /// The remote command reported a non-zero exit status.
    CommandFailed { command: String, status: u32 },
    /// The driver answered a request with a reply that cannot follow it.
    Unexpected,
}

/// Mathematical model of a `Failure`.
pub ghost enum FailureView {
    Transport(Seq<char>),
    TimedOut,
    AckTimedOut,
    RemoteError(Seq<char>),
    RemoteFatal,
    UnknownAck(u8),
    EmptyAck,
    ClosedEarly,
    CommandFailed { command: Seq<char>, status: u32 },
    Unexpected,
}

impl View for Failure {
    type V = FailureView;

    open spec fn view(&self) -> FailureView {
        match self {
            Failure::Transport(m) => FailureView::Transport(m@),
            Failure::TimedOut => FailureView::TimedOut,
            Failure::AckTimedOut => FailureView::AckTimedOut,
            Failure::RemoteError(m) => FailureView::RemoteError(m@),
            Failure::RemoteFatal => FailureView::RemoteFatal,
            Failure::UnknownAck(b) => FailureView::UnknownAck(*b),
            Failure::EmptyAck => FailureView::EmptyAck,
            Failure::ClosedEarly => FailureView::ClosedEarly,
            Failure::CommandFailed { command, status } => FailureView::CommandFailed {
                command: command@,
                status: *status,
            },
            Failure::Unexpected => FailureView::Unexpected,
        }
    }
}

/// The user-visible text of a failure.
pub open spec fn failure_text(f: FailureView) -> Seq<char> {
    match f {
        FailureView::Transport(m) => m,
        FailureView::TimedOut => "deadline has elapsed"@,
        FailureView::AckTimedOut => "Timeout waiting for SCP acknowledgment"@,
        FailureView::RemoteError(m) => "SCP error: "@ + m,
        FailureView::RemoteFatal => "SCP fatal error"@,
        FailureView::UnknownAck(b) => "Unknown SCP response: "@ + decimal(b as nat),
        FailureView::EmptyAck => "Empty SCP response"@,
        FailureView::ClosedEarly => "Channel closed unexpectedly"@,
        FailureView::CommandFailed { command, status } => "command '"@ + command
            + "' failed with exit status: "@ + decimal(status as nat),
        FailureView::Unexpected => "Unexpected reply from the transport"@,
    }
}

impl Failure {
    /// Renders the failure as user-visible text.
    pub fn to_text(&self) -> (r: String)
        ensures
            r@ == failure_text(self@),
    {
        match self {
            Failure::Transport(m) => m.clone(),
            Failure::TimedOut => String::from_str("deadline has elapsed"),
            Failure::AckTimedOut => String::from_str("Timeout waiting for SCP acknowledgment"),
            Failure::RemoteError(m) => {
                let mut r = String::from_str("SCP error: ");
                r.append(m.as_str());
                r
            },
            Failure::RemoteFatal => String::from_str("SCP fatal error"),
            Failure::UnknownAck(b) => {
                let mut r = String::from_str("Unknown SCP response: ");
                push_decimal(&mut r, *b as u64);
                r
            },
            Failure::EmptyAck => String::from_str("Empty SCP response"),
            Failure::ClosedEarly => String::from_str("Channel closed unexpectedly"),
            Failure::CommandFailed { command, status } => {
                let mut r = String::from_str("command '");
                r.append(command.as_str());
                r.append("' failed with exit status: ");
                push_decimal(&mut r, *status as u64);
                r
            },
            Failure::Unexpected => String::from_str("Unexpected reply from the transport"),
        }
    }
}

/// How a reply counts while an acknowledgment is awaited: a data message is
/// judged by its first byte, the success signal and any other message kind
/// count as acknowledged, silence and a closed channel do not.
pub open spec fn ack_result(reply: ReplyView) -> Result<(), FailureView> {
    match reply {
        ReplyView::Data(d) => {
            if d.len() == 0 {
                Err(FailureView::EmptyAck)
            } else if d[0] == 0 {
                Ok(())
            } else if d[0] == 1 {
                Err(FailureView::RemoteError(ack_detail(d)))
            } else if d[0] == 2 {
                Err(FailureView::RemoteFatal)
            } else {
                Err(FailureView::UnknownAck(d[0]))
            }
        },
        ReplyView::Closed => Err(FailureView::ClosedEarly),
        ReplyView::TimedOut => Err(FailureView::AckTimedOut),
        ReplyView::Failed(m) => Err(FailureView::Transport(m)),
        ReplyView::Done => Err(FailureView::Unexpected),
        ReplyView::Success => Ok(()),
        ReplyView::ExtendedData { .. } => Ok(()),
        ReplyView::ExitStatus(_) => Ok(()),
        ReplyView::Other => Ok(()),
    }
}

/// The detail carried by a status-1 acknowledgment: the bytes after the
/// status byte, leniently decoded, or a fixed text when there are none.
pub open spec fn ack_detail(d: Seq<u8>) -> Seq<char> {
    if d.len() > 1 {
        lossy_text_of(d.skip(1))
    } else {
        "Unknown SCP error"@
    }
}

/// The failure announced by an acknowledgment whose status byte is `status`
/// (not 0) and whose detail, if any bytes followed, decoded to `detail`.
pub open spec fn nack_of(status: u8, detail: Option<Seq<char>>) -> FailureView {
    if status == 1 {
        FailureView::RemoteError(
            match detail {
                Some(t) => t,
                None => "Unknown SCP error"@,
            },
        )
    } else if status == 2 {
        FailureView::RemoteFatal
    } else {
        FailureView::UnknownAck(status)
    }
}

/// Builds the failure for a negative acknowledgment from its status byte and
/// its already decoded detail.
pub fn negative_acknowledgment(status: u8, detail: Option<String>) -> (r: Failure)
    ensures
        r@ == nack_of(
            status,
            match detail {
                Some(t) => Some(t@),
                None => None,
            },
        ),
{
    if status == 1 {
        match detail {
            Some(t) => Failure::RemoteError(t),
            None => Failure::RemoteError(String::from_str("Unknown SCP error")),
        }
    } else if status == 2 {
        Failure::RemoteFatal
    } else {
        Failure::UnknownAck(status)
    }
}

/// Judges the reply to a wait for an acknowledgment.
pub fn wait_for_acknowledgment(reply: &Reply) -> (r: Result<(), Failure>)
    ensures
        match r {
            Ok(_) => ack_result(reply@) is Ok,
            Err(e) => ack_result(reply@) == Err::<(), FailureView>(e@),
        },
{
    match reply {
        Reply::Data(d) => {
            if d.len() == 0 {
                Err(Failure::EmptyAck)
            } else if d[0] == 0 {
                Ok(())
            } else {
                let detail = if d[0] == 1 && d.len() > 1 {
                    let tail = vstd::slice::slice_subrange(d.as_slice(), 1, d.len());
                    proof {
                        assert(tail@ == d@.skip(1));
                    }
                    Some(from_utf8_lossy(tail))
                } else {
                    None
                };
                Err(negative_acknowledgment(d[0], detail))
            }
        },
        Reply::Closed => Err(Failure::ClosedEarly),
        Reply::TimedOut => Err(Failure::AckTimedOut),
        Reply::Failed(m) => Err(Failure::Transport(m.clone())),
        Reply::Done => Err(Failure::Unexpected),
        Reply::Success => Ok(()),
        Reply::ExtendedData { .. } => Ok(()),
        Reply::ExitStatus(_) => Ok(()),
        Reply::Other => Ok(()),
    }
}

/// What a machine hands its driver after each move.
#[derive(Debug, Clone, PartialEq, Eq)]
pub struct Step {
    /// Items for the status sink, in order.
    pub reports: Vec<Report>,
    /// The operation to perform next.
    pub request: Request,
}

/// The failure that a reply stands for when it is not the one hoped for.
pub open spec fn failure_of(reply: ReplyView) -> FailureView {
    match reply {
        ReplyView::TimedOut => FailureView::TimedOut,
        ReplyView::Failed(m) => FailureView::Transport(m),
        _ => FailureView::Unexpected,
    }
}

/// The failure that a reply stands for when it is not the one hoped for.
pub fn failure_from(reply: Reply) -> (r: Failure)
    ensures
        r@ == failure_of(reply@),
{
    match reply {
        Reply::TimedOut => Failure::TimedOut,
        Reply::Failed(m) => Failure::Transport(m),
        _ => Failure::Unexpected,
    }
}

} // verus!
