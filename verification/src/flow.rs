//! The flow orchestrator: the four user-facing operations, each a fixed
//! sequence of steps on one session, and the handling of the remembered
//! credential between attempts.
//!
//! `Flow` is a state machine with transition function `flow_next`. Its driver
//! validates the endpoint, connects, runs commands through a `CommandRun`,
//! uploads through a `Transfer`, and disconnects, as the machine asks.

use vstd::prelude::*;
use crate::auth::{
    chosen_password, connect_verdict, smart_connect, try_connect, ConnectOutcome,
    ConnectOutcomeView, ConnectionError, ConnectionErrorView, ErrorReport, ErrorReportView, USER,
    connection_error_text,
};
use crate::channel::{report_views, Report, ReportView, SHORT_LIMIT_SECS};
use crate::text::{decimal, push_decimal, trim, trimmed_of};

verus! {

/// The command that asks the device for its hardware identifier.
pub const IDENTIFY_COMMAND: &'static str = "fw_printenv -n soc";

/// The command that stops the running service; it succeeds either way.
pub const STOP_COMMAND: &'static str = "ruby_stop.sh || true";

/// The command that resets the device to its factory state.
pub const RESET_COMMAND: &'static str = "firstboot";

/// The remote directory that receives the firmware bundle.
pub const REMOTE_DIR: &'static str = "/tmp/";

/// The text reported when the driver answers with a reply that cannot follow
/// the request.
pub const UNEXPECTED_REPLY: &'static str = "Unexpected reply from the driver";

/// One of the four operations.
#[derive(Debug, Clone, PartialEq, Eq)]
pub enum Operation {
    /// Ask the device for its hardware identifier.
    IdentifySoc,
    /// Upload the firmware bundle at `source` and trigger the upgrade.
    Flash { source: String },
    /// Reset the device to its factory state.
    Reset,
    /// Run the given command line.
    Manual { command: String },
}

/// Mathematical model of an `Operation`.
pub ghost enum OperationView {
    IdentifySoc,
    Flash { source: Seq<char> },
    Reset,
    Manual { command: Seq<char> },
}

impl View for Operation {
    type V = OperationView;

    open spec fn view(&self) -> OperationView {
        match self {
            Operation::IdentifySoc => OperationView::IdentifySoc,
            Operation::Flash { source } => OperationView::Flash { source: source@ },
            Operation::Reset => OperationView::Reset,
            Operation::Manual { command } => OperationView::Manual { command: command@ },
        }
    }
}

/// What a flow asks of its driver.
#[derive(Debug, Clone, PartialEq, Eq)]
pub enum FlowRequest {
    /// Check that `host` parses as a network address and, where `path` is
    /// given, find the base name of that path.
    Validate { host: String, path: Option<String> },
    /// Connect within `limit_secs` seconds and authenticate, once.
    Connect { host: String, port: u16, user: String, password: String, limit_secs: u64 },
    /// Run `command` on the session.
    Run { command: String },
    /// Copy the local file `source` to the remote path `destination`.
    Upload { source: String, destination: String },
    /// Disconnect the session; what comes of it is not looked at.
    Disconnect,
    /// Nothing more to do: the flow holds its result.
    Finish,
}

/// Mathematical model of a `FlowRequest`.
pub ghost enum FlowRequestView {
    Validate { host: Seq<char>, path: Option<Seq<char>> },
    Connect {
        host: Seq<char>,
        port: u16,
        user: Seq<char>,
        password: Seq<char>,
        limit_secs: u64,
    },
    Run { command: Seq<char> },
    Upload { source: Seq<char>, destination: Seq<char> },
    Disconnect,
    Finish,
}

/// The view of an optional string.
pub open spec fn optional_text(t: Option<String>) -> Option<Seq<char>> {
    match t {
        Some(s) => Some(s@),
        None => None,
    }
}

impl View for FlowRequest {
    type V = FlowRequestView;

    open spec fn view(&self) -> FlowRequestView {
        match self {
            FlowRequest::Validate { host, path } => FlowRequestView::Validate {
                host: host@,
                path: optional_text(*path),
            },
            FlowRequest::Connect { host, port, user, password, limit_secs } => FlowRequestView::Connect {
                host: host@,
                port: *port,
                user: user@,
                password: password@,
                limit_secs: *limit_secs,
            },
            FlowRequest::Run { command } => FlowRequestView::Run { command: command@ },
            FlowRequest::Upload { source, destination } => FlowRequestView::Upload {
                source: source@,
                destination: destination@,
            },
            FlowRequest::Disconnect => FlowRequestView::Disconnect,
            FlowRequest::Finish => FlowRequestView::Finish,
        }
    }
}

/// What the driver answers.
#[derive(Debug, Clone, PartialEq, Eq)]
pub enum FlowReply {
    /// The endpoint is valid; the base name of the source path, where one
    /// was asked for.
    Valid { file_name: Option<String> },
    /// The input was rejected locally, with the reason.
    Invalid(String),
    /// What came of the connection attempt.
    Connected(ConnectOutcome),
    /// The command succeeded, with its output.
    Output(String),
    /// The upload succeeded.
    Uploaded,
    /// The session was let go of.
    Disconnected,
    /// The command or the upload failed, with the reason.
    Failed(String),
}

/// Mathematical model of a `FlowReply`.
pub ghost enum FlowReplyView {
    Valid { file_name: Option<Seq<char>> },
    Invalid(Seq<char>),
    Connected(ConnectOutcomeView),
    Output(Seq<char>),
    Uploaded,
    Disconnected,
    Failed(Seq<char>),
}

impl View for FlowReply {
    type V = FlowReplyView;

    open spec fn view(&self) -> FlowReplyView {
        match self {
            FlowReply::Valid { file_name } => FlowReplyView::Valid {
                file_name: optional_text(*file_name),
            },
            FlowReply::Invalid(m) => FlowReplyView::Invalid(m@),
            FlowReply::Connected(o) => FlowReplyView::Connected(o@),
            FlowReply::Output(t) => FlowReplyView::Output(t@),
            FlowReply::Uploaded => FlowReplyView::Uploaded,
            FlowReply::Disconnected => FlowReplyView::Disconnected,
            FlowReply::Failed(m) => FlowReplyView::Failed(m@),
        }
    }
}

/// Where a flow stands.
#[derive(Debug, Clone, Copy, PartialEq, Eq, Structural)]
pub enum FlowPhase {
    /// The endpoint is being validated.
    Validating,
    /// The connection attempt is under way.
    Connecting,
    /// The hardware identifier is being asked for.
    Identifying,
    /// The running service is being stopped.
    Stopping,
    /// The firmware bundle is being uploaded.
    Uploading,
    /// The bundle is being unpacked.
    Unpacking,
    /// The operation's last command is running.
    Concluding,
    /// The session is being disconnected.
    Disconnecting,
    /// The flow is over.
    Finished,
}

/// The result of a flow in the model: on success the hardware identifier,
/// where the operation asked for it.
pub type OutcomeView = Option<Result<Option<Seq<char>>, ConnectionErrorView>>;

/// Mathematical model of a `Flow`.
pub ghost struct FlowView {
    pub operation: OperationView,
    pub host: Seq<char>,
    pub port: u16,
    /// The remembered password, if any.
    pub credential: Option<Seq<char>>,
    /// The base name of the firmware bundle, once known.
    pub file_name: Seq<char>,
    /// The hardware identifier as the device printed it, once known.
    pub soc: Seq<char>,
    pub outcome: OutcomeView,
    pub phase: FlowPhase,
}

/// One move of a flow.
pub ghost struct FlowTurn {
    pub state: FlowView,
    pub reports: Seq<ReportView>,
    pub request: FlowRequestView,
}

/// What a flow hands its driver after each move.
#[derive(Debug, Clone, PartialEq, Eq)]
pub struct FlowStep {
    /// Items for the status sink, in order.
    pub reports: Vec<Report>,
    /// What to do next.
    pub request: FlowRequest,
}

/// The line that announces a connection attempt.
pub open spec fn connecting_line(host: Seq<char>, port: u16) -> Seq<char> {
    "Connecting to "@ + host + ":"@ + decimal(port as nat) + "..."@
}

/// The line that announces the upload.
pub open spec fn uploading_line(file_name: Seq<char>) -> Seq<char> {
    "Uploading firmware "@ + file_name + "..."@
}

/// The line that announces a manual command.
pub open spec fn executing_line(command: Seq<char>) -> Seq<char> {
    "Executing command: "@ + command
}

/// Where on the device the bundle named `file_name` goes.
pub open spec fn remote_path(file_name: Seq<char>) -> Seq<char> {
    REMOTE_DIR@ + file_name
}

/// The command that unpacks the bundle at `path`.
pub open spec fn unpack_command(path: Seq<char>) -> Seq<char> {
    "sh -c 'gunzip -c "@ + path + " | tar -xvC /tmp'"@
}

/// The command that triggers the upgrade for the hardware identifier `soc`,
/// given as the device printed it.
pub open spec fn upgrade_command(soc: Seq<char>) -> Seq<char> {
    "sysupgrade --kernel=/tmp/uImage."@ + trimmed_of(soc) + " --rootfs=/tmp/rootfs.squashfs."@
        + trimmed_of(soc) + " -z"@
}

/// An error with the message `text` that is no credential failure.
pub open spec fn other_error(text: Seq<char>) -> ConnectionErrorView {
    ConnectionErrorView::Other(ErrorReportView { message: text, causes: Seq::empty() })
}

/// The move that ends a flow which holds no session.
pub open spec fn end_flow(s: FlowView, outcome: Result<Option<Seq<char>>, ConnectionErrorView>)
    -> FlowTurn {
    FlowTurn {
        state: FlowView { outcome: Some(outcome), phase: FlowPhase::Finished, ..s },
        reports: Seq::empty(),
        request: FlowRequestView::Finish,
    }
}

/// The move that ends a flow which holds a session: the session is let go of
/// first, whatever the outcome.
pub open spec fn wind_up(s: FlowView, outcome: Result<Option<Seq<char>>, ConnectionErrorView>)
    -> FlowTurn {
    FlowTurn {
        state: FlowView { outcome: Some(outcome), phase: FlowPhase::Disconnecting, ..s },
        reports: Seq::empty(),
        request: FlowRequestView::Disconnect,
    }
}

/// The move that runs `command` next.
pub open spec fn run_command(
    s: FlowView,
    phase: FlowPhase,
    reports: Seq<ReportView>,
    command: Seq<char>,
) -> FlowTurn {
    FlowTurn {
        state: FlowView { phase, ..s },
        reports,
        request: FlowRequestView::Run { command },
    }
}

/// The error that a reply stands for when a session step did not succeed.
pub open spec fn step_error(reply: FlowReplyView) -> ConnectionErrorView {
    match reply {
        FlowReplyView::Failed(m) => other_error(m),
        _ => other_error(UNEXPECTED_REPLY@),
    }
}

/// The move once the endpoint is known to be valid: the connection attempt,
/// announced for every operation but the identification.
pub open spec fn on_valid(s: FlowView, file_name: Option<Seq<char>>) -> FlowTurn {
    if s.operation is Flash && file_name is None {
        end_flow(s, Err(other_error(UNEXPECTED_REPLY@)))
    } else {
        FlowTurn {
            state: FlowView {
                file_name: match file_name {
                    Some(n) => n,
                    None => Seq::empty(),
                },
                phase: FlowPhase::Connecting,
                ..s
            },
            reports: if s.operation is IdentifySoc {
                Seq::empty()
            } else {
                seq![ReportView::Line(connecting_line(s.host, s.port))]
            },
            request: FlowRequestView::Connect {
                host: s.host,
                port: s.port,
                user: USER@,
                password: chosen_password(s.credential),
                limit_secs: SHORT_LIMIT_SECS,
            },
        }
    }
}

/// The move once the session stands: the operation's first command.
pub open spec fn on_connected(s: FlowView) -> FlowTurn {
    match s.operation {
        OperationView::IdentifySoc => run_command(
            s,
            FlowPhase::Identifying,
            Seq::empty(),
            IDENTIFY_COMMAND@,
        ),
        OperationView::Flash { .. } => run_command(
            s,
            FlowPhase::Identifying,
            Seq::empty(),
            IDENTIFY_COMMAND@,
        ),
        OperationView::Reset => run_command(
            s,
            FlowPhase::Concluding,
            seq![ReportView::Line("Executing firstboot command..."@)],
            RESET_COMMAND@,
        ),
        OperationView::Manual { command } => run_command(
            s,
            FlowPhase::Concluding,
            seq![ReportView::Line(executing_line(command))],
            command,
        ),
    }
}

/// The transition function of the orchestrator.
pub open spec fn flow_next(s: FlowView, reply: FlowReplyView) -> FlowTurn {
    match s.phase {
        FlowPhase::Validating => match reply {
            FlowReplyView::Valid { file_name } => on_valid(s, file_name),
            FlowReplyView::Invalid(m) => end_flow(s, Err(other_error(m))),
            _ => end_flow(s, Err(other_error(UNEXPECTED_REPLY@))),
        },
        FlowPhase::Connecting => match reply {
            FlowReplyView::Connected(outcome) => match connect_verdict(outcome) {
                None => on_connected(s),
                Some(e) => end_flow(s, Err(e)),
            },
            _ => end_flow(s, Err(other_error(UNEXPECTED_REPLY@))),
        },
        FlowPhase::Identifying => match reply {
            FlowReplyView::Output(soc) => if s.operation is Flash {
                run_command(
                    FlowView { soc, ..s },
                    FlowPhase::Stopping,
                    Seq::empty(),
                    STOP_COMMAND@,
                )
            } else {
                wind_up(FlowView { soc, ..s }, Ok(Some(trimmed_of(soc))))
            },
            _ => wind_up(s, Err(step_error(reply))),
        },
        FlowPhase::Stopping => match (reply, s.operation) {
            (FlowReplyView::Output(_), OperationView::Flash { source }) => FlowTurn {
                state: FlowView { phase: FlowPhase::Uploading, ..s },
                reports: seq![ReportView::Line(uploading_line(s.file_name))],
                request: FlowRequestView::Upload {
                    source,
                    destination: remote_path(s.file_name),
                },
            },
            _ => wind_up(s, Err(step_error(reply))),
        },
        FlowPhase::Uploading => match reply {
            FlowReplyView::Uploaded => run_command(
                s,
                FlowPhase::Unpacking,
                Seq::empty(),
                unpack_command(remote_path(s.file_name)),
            ),
            _ => wind_up(s, Err(step_error(reply))),
        },
        FlowPhase::Unpacking => match reply {
            FlowReplyView::Output(_) => run_command(
                s,
                FlowPhase::Concluding,
                Seq::empty(),
                upgrade_command(s.soc),
            ),
            _ => wind_up(s, Err(step_error(reply))),
        },
        FlowPhase::Concluding => match reply {
            FlowReplyView::Output(_) => wind_up(s, Ok(None)),
            _ => wind_up(s, Err(step_error(reply))),
        },
        FlowPhase::Disconnecting => FlowTurn {
            state: FlowView { phase: FlowPhase::Finished, ..s },
            reports: Seq::empty(),
            request: FlowRequestView::Finish,
        },
        FlowPhase::Finished => FlowTurn {
            state: s,
            reports: Seq::empty(),
            request: FlowRequestView::Finish,
        },
    }
}

/// The state in which a flow starts.
pub open spec fn flow_start(
    operation: OperationView,
    host: Seq<char>,
    port: u16,
    credential: Option<Seq<char>>,
) -> FlowView {
    FlowView {
        operation,
        host,
        port,
        credential,
        file_name: Seq::empty(),
        soc: Seq::empty(),
        outcome: None,
        phase: FlowPhase::Validating,
    }
}

/// The request a flow starts with.
pub open spec fn first_request(operation: OperationView, host: Seq<char>) -> FlowRequestView {
    FlowRequestView::Validate {
        host,
        path: match operation {
            OperationView::Flash { source } => Some(source),
            _ => None,
        },
    }
}

/// The result of a flow: none before it is finished.
pub open spec fn flow_result(s: FlowView) -> OutcomeView {
    if s.phase == FlowPhase::Finished {
        s.outcome
    } else {
        None
    }
}

/// The model of a result held by a flow.
pub open spec fn outcome_view(o: Option<Result<Option<String>, ConnectionError>>) -> OutcomeView {
    match o {
        None => None,
        Some(Ok(t)) => Some(Ok(optional_text(t))),
        Some(Err(e)) => Some(Err(e@)),
    }
}

/// One run of one operation on one session.
pub struct Flow {
    operation: Operation,
    host: String,
    port: u16,
    credential: Option<String>,
    file_name: String,
    soc: String,
    outcome: Option<Result<Option<String>, ConnectionError>>,
    phase: FlowPhase,
}

impl View for Flow {
    type V = FlowView;

    closed spec fn view(&self) -> FlowView {
        FlowView {
            operation: self.operation@,
            host: self.host@,
            port: self.port,
            credential: optional_text(self.credential),
            file_name: self.file_name@,
            soc: self.soc@,
            outcome: outcome_view(self.outcome),
            phase: self.phase,
        }
    }
}

fn no_reports() -> (reports: Vec<Report>)
    ensures
        report_views(reports@) == Seq::<ReportView>::empty(),
{
    let reports: Vec<Report> = Vec::new();
    proof {
        assert(report_views(reports@) =~= Seq::<ReportView>::empty());
    }
    reports
}

fn one_line(line: String) -> (reports: Vec<Report>)
    ensures
        report_views(reports@) == seq![ReportView::Line(line@)],
{
    let mut reports: Vec<Report> = Vec::new();
    reports.push(Report::Line(line));
    proof {
        assert(report_views(reports@) =~= seq![ReportView::Line(line@)]);
    }
    reports
}

fn plain_other(text: &str) -> (r: ConnectionError)
    ensures
        r@ == other_error(text@),
{
    ConnectionError::Other(ErrorReport::plain(text))
}

fn error_from(reply: FlowReply) -> (r: ConnectionError)
    ensures
        r@ == step_error(reply@),
{
    match reply {
        FlowReply::Failed(m) => plain_other(m.as_str()),
        _ => plain_other(UNEXPECTED_REPLY),
    }
}

impl Flow {
    /// Begins `operation` against `host:port`, with the remembered password
    /// if there is one: asks for the endpoint to be validated.
    pub fn start(operation: Operation, host: &str, port: u16, credential: Option<String>) -> (r: (
        Flow,
        FlowStep,
    ))
        ensures
            r.0@ == flow_start(operation@, host@, port, optional_text(credential)),
            report_views(r.1.reports@) == Seq::<ReportView>::empty(),
            r.1.request@ == first_request(operation@, host@),
    {
        let source = match &operation {
            Operation::Flash { source } => Some(source.clone()),
            _ => None,
        };
        let flow = Flow {
            operation,
            host: String::from_str(host),
            port,
            credential,
            file_name: String::new(),
            soc: String::new(),
            outcome: None,
            phase: FlowPhase::Validating,
        };
        let request = FlowRequest::Validate { host: String::from_str(host), path: source };
        (flow, FlowStep { reports: no_reports(), request })
    }

    /// Whether the flow is over.
    pub fn is_finished(&self) -> (r: bool)
        ensures
            r == (self@.phase == FlowPhase::Finished),
    {
        match self.phase {
            FlowPhase::Finished => true,
            _ => false,
        }
    }

    /// The phase the flow is in.
    pub fn phase(&self) -> (r: FlowPhase)
        ensures
            r == self@.phase,
    {
        self.phase
    }

    /// The result of the flow: `None` until it is finished; on success the
    /// hardware identifier, where the operation asked for it.
    pub fn result(self) -> (r: Option<Result<Option<String>, ConnectionError>>)
        ensures
            outcome_view(r) == flow_result(self@),
    {
        match self.phase {
            FlowPhase::Finished => self.outcome,
            _ => None,
        }
    }

    fn end(&mut self, outcome: Result<Option<String>, ConnectionError>) -> (step: FlowStep)
        ensures
            final(self)@ == end_flow(old(self)@, outcome_view(Some(outcome))->0).state,
            report_views(step.reports@) == Seq::<ReportView>::empty(),
            step.request@ == FlowRequestView::Finish,
    {
        self.outcome = Some(outcome);
        self.phase = FlowPhase::Finished;
        FlowStep { reports: no_reports(), request: FlowRequest::Finish }
    }

    fn wind(&mut self, outcome: Result<Option<String>, ConnectionError>) -> (step: FlowStep)
        ensures
            final(self)@ == wind_up(old(self)@, outcome_view(Some(outcome))->0).state,
            report_views(step.reports@) == Seq::<ReportView>::empty(),
            step.request@ == FlowRequestView::Disconnect,
    {
        self.outcome = Some(outcome);
        self.phase = FlowPhase::Disconnecting;
        FlowStep { reports: no_reports(), request: FlowRequest::Disconnect }
    }

    fn run(&mut self, phase: FlowPhase, reports: Vec<Report>, command: String) -> (step: FlowStep)
        ensures
            final(self)@ == run_command(
                old(self)@,
                phase,
                report_views(reports@),
                command@,
            ).state,
            report_views(step.reports@) == report_views(reports@),
            step.request@ == (FlowRequestView::Run { command: command@ }),
    {
        self.phase = phase;
        FlowStep { reports, request: FlowRequest::Run { command } }
    }

    fn validated(&mut self, file_name: Option<String>) -> (step: FlowStep)
        ensures
            final(self)@ == on_valid(old(self)@, optional_text(file_name)).state,
            report_views(step.reports@) == on_valid(old(self)@, optional_text(file_name)).reports,
            step.request@ == on_valid(old(self)@, optional_text(file_name)).request,
    {
        let is_flash = match &self.operation {
            Operation::Flash { .. } => true,
            _ => false,
        };
        let is_identify = match &self.operation {
            Operation::IdentifySoc => true,
            _ => false,
        };
        if is_flash && file_name.is_none() {
            return self.end(Err(plain_other(UNEXPECTED_REPLY)));
        }
        self.file_name = match file_name {
            Some(n) => n,
            None => String::new(),
        };
        self.phase = FlowPhase::Connecting;
        let reports = if is_identify {
            no_reports()
        } else {
            let mut line = String::from_str("Connecting to ");
            line.append(self.host.as_str());
            line.append(":");
            push_decimal(&mut line, self.port as u64);
            line.append("...");
            one_line(line)
        };
        let attempt = match &self.credential {
            Some(p) => smart_connect(Some(p.as_str())),
            None => smart_connect(None),
        };
        FlowStep {
            reports,
            request: FlowRequest::Connect {
                host: self.host.clone(),
                port: self.port,
                user: attempt.user,
                password: attempt.password,
                limit_secs: attempt.limit_secs,
            },
        }
    }

    fn connected(&mut self) -> (step: FlowStep)
        ensures
            final(self)@ == on_connected(old(self)@).state,
            report_views(step.reports@) == on_connected(old(self)@).reports,
            step.request@ == on_connected(old(self)@).request,
    {
        match &self.operation {
            Operation::IdentifySoc => self.run(
                FlowPhase::Identifying,
                no_reports(),
                String::from_str(IDENTIFY_COMMAND),
            ),
            Operation::Flash { .. } => self.run(
                FlowPhase::Identifying,
                no_reports(),
                String::from_str(IDENTIFY_COMMAND),
            ),
            Operation::Reset => self.run(
                FlowPhase::Concluding,
                one_line(String::from_str("Executing firstboot command...")),
                String::from_str(RESET_COMMAND),
            ),
            Operation::Manual { command } => {
                let command = command.clone();
                let mut line = String::from_str("Executing command: ");
                line.append(command.as_str());
                self.run(FlowPhase::Concluding, one_line(line), command)
            },
        }
    }

    fn destination(&self) -> (r: String)
        ensures
            r@ == remote_path(self@.file_name),
    {
        let mut path = String::from_str(REMOTE_DIR);
        path.append(self.file_name.as_str());
        path
    }

    /// Advances the flow by the reply to its last request.
    pub fn step(&mut self, reply: FlowReply) -> (step: FlowStep)
        ensures
            final(self)@ == flow_next(old(self)@, reply@).state,
            report_views(step.reports@) == flow_next(old(self)@, reply@).reports,
            step.request@ == flow_next(old(self)@, reply@).request,
    {
        match self.phase {
            FlowPhase::Validating => match reply {
                FlowReply::Valid { file_name } => self.validated(file_name),
                FlowReply::Invalid(m) => self.end(Err(plain_other(m.as_str()))),
                _ => self.end(Err(plain_other(UNEXPECTED_REPLY))),
            },
            FlowPhase::Connecting => match reply {
                FlowReply::Connected(outcome) => match try_connect(outcome) {
                    Ok(_) => self.connected(),
                    Err(e) => self.end(Err(e)),
                },
                _ => self.end(Err(plain_other(UNEXPECTED_REPLY))),
            },
            FlowPhase::Identifying => match reply {
                FlowReply::Output(soc) => {
                    let is_flash = match &self.operation {
                        Operation::Flash { .. } => true,
                        _ => false,
                    };
                    if is_flash {
                        self.soc = soc;
                        self.run(
                            FlowPhase::Stopping,
                            no_reports(),
                            String::from_str(STOP_COMMAND),
                        )
                    } else {
                        let identifier = trim(soc.as_str()).to_owned();
                        self.soc = soc;
                        self.wind(Ok(Some(identifier)))
                    }
                },
                other => self.wind(Err(error_from(other))),
            },
            FlowPhase::Stopping => {
                let source = match &self.operation {
                    Operation::Flash { source } => Some(source.clone()),
                    _ => None,
                };
                match (reply, source) {
                    (FlowReply::Output(_), Some(source)) => {
                        let mut line = String::from_str("Uploading firmware ");
                        line.append(self.file_name.as_str());
                        line.append("...");
                        let destination = self.destination();
                        self.phase = FlowPhase::Uploading;
                        FlowStep {
                            reports: one_line(line),
                            request: FlowRequest::Upload { source, destination },
                        }
                    },
                    (other, _) => self.wind(Err(error_from(other))),
                }
            },
            FlowPhase::Uploading => match reply {
                FlowReply::Uploaded => {
                    let mut command = String::from_str("sh -c 'gunzip -c ");
                    command.append(self.destination().as_str());
                    command.append(" | tar -xvC /tmp'");
                    self.run(FlowPhase::Unpacking, no_reports(), command)
                },
                other => self.wind(Err(error_from(other))),
            },
            FlowPhase::Unpacking => match reply {
                FlowReply::Output(_) => {
                    let soc = trim(self.soc.as_str());
                    let mut command = String::from_str("sysupgrade --kernel=/tmp/uImage.");
                    command.append(soc);
                    command.append(" --rootfs=/tmp/rootfs.squashfs.");
                    command.append(soc);
                    command.append(" -z");
                    self.run(FlowPhase::Concluding, no_reports(), command)
                },
                other => self.wind(Err(error_from(other))),
            },
            FlowPhase::Concluding => match reply {
                FlowReply::Output(_) => self.wind(Ok(None)),
                other => self.wind(Err(error_from(other))),
            },
            FlowPhase::Disconnecting => {
                self.phase = FlowPhase::Finished;
                FlowStep { reports: no_reports(), request: FlowRequest::Finish }
            },
            FlowPhase::Finished => FlowStep { reports: no_reports(), request: FlowRequest::Finish },
        }
    }
}

/// Trusted: calls `Path::file_name` on `path` and `OsStr::to_str` on the
/// component it yields. The outer `None` stands for a path without a final
/// component, the inner one for a component that is not valid Unicode.
/// Nothing is claimed of the result: what counts as the final component
/// depends on the platform.
#[verifier::external_body]
pub(crate) fn base_name(path: &str) -> (r: Option<Option<String>>) {
    std::path::Path::new(path).file_name().map(|name| name.to_str().map(|t| t.to_owned()))
}

/// The error for a source path whose base name cannot be used.
pub open spec fn invalid_filename(source: Seq<char>) -> ErrorReportView {
    ErrorReportView { message: "invalid filename: "@ + source, causes: Seq::empty() }
}

/// The name under which the bundle at `source` is stored on the device, given
/// what was found as the final component of `source`: a path without one
/// gets the empty name, a component that is not valid Unicode is an error.
pub open spec fn file_name_of(source: Seq<char>, found: Option<Option<Seq<char>>>) -> Result<
    Seq<char>,
    ErrorReportView,
> {
    match found {
        None => Ok(Seq::empty()),
        Some(Some(name)) => Ok(name),
        Some(None) => Err(invalid_filename(source)),
    }
}

/// The model of what was found as a final component.
pub open spec fn found_view(found: Option<Option<String>>) -> Option<Option<Seq<char>>> {
    match found {
        None => None,
        Some(t) => Some(optional_text(t)),
    }
}

/// Decides the bundle's name from what was found as the final component of
/// `source`.
pub fn file_name_from(source: &str, found: Option<Option<String>>) -> (r: Result<
    String,
    ErrorReport,
>)
    ensures
        match r {
            Ok(name) => file_name_of(source@, found_view(found)) == Ok::<
                Seq<char>,
                ErrorReportView,
            >(name@),
            Err(e) => file_name_of(source@, found_view(found)) == Err::<
                Seq<char>,
                ErrorReportView,
            >(e@),
        },
{
    match found {
        None => Ok(String::new()),
        Some(Some(name)) => Ok(name),
        Some(None) => {
            let mut message = String::from_str("invalid filename: ");
            message.append(source);
            Err(ErrorReport::plain(message.as_str()))
        },
    }
}

/// The base name of the local path `source`. The only error there is says
/// that the name is invalid and quotes the path.
pub fn extract_filename(source: &str) -> (r: Result<String, ErrorReport>)
    ensures
        r matches Err(e) ==> e@ == invalid_filename(source@),
{
    let found = base_name(source);
    file_name_from(source, found)
}

/// What to do after an operation has ended.
#[derive(Debug, Clone, PartialEq, Eq)]
pub enum Verdict {
    /// The operation succeeded.
    Completed,
    /// The credential failed: ask for a new password and run the operation
    /// again from the start.
    AskPassword,
    /// Any other failure: show this line.
    Report(String),
}

/// Mathematical model of a `Verdict`.
pub ghost enum VerdictView {
    Completed,
    AskPassword,
    Report(Seq<char>),
}

impl View for Verdict {
    type V = VerdictView;

    open spec fn view(&self) -> VerdictView {
        match self {
            Verdict::Completed => VerdictView::Completed,
            Verdict::AskPassword => VerdictView::AskPassword,
            Verdict::Report(line) => VerdictView::Report(line@),
        }
    }
}

/// The line shown when a credential failure leads to a password prompt.
pub const PROMPT_LINE: &'static str = "Authentication failed. Please enter password when prompted.";

/// The line shown when the password prompt is refused.
pub const REFUSED_LINE: &'static str = "Authentication failed and no password provided.";

/// The verdict on the result of an operation.
pub open spec fn verdict_of(error: Option<ConnectionErrorView>) -> VerdictView {
    match error {
        None => VerdictView::Completed,
        Some(ConnectionErrorView::AuthFailure(_)) => VerdictView::AskPassword,
        Some(e) => VerdictView::Report("Error: "@ + connection_error_text(e)),
    }
}

/// The remembered password after the result of an operation: a credential
/// failure clears it, anything else leaves it.
pub open spec fn credential_after(remembered: Option<Seq<char>>, error: Option<ConnectionErrorView>)
    -> Option<Seq<char>> {
    match error {
        Some(ConnectionErrorView::AuthFailure(_)) => None,
        _ => remembered,
    }
}

/// The password remembered between operations.
pub struct Credential {
    remembered: Option<String>,
}

impl View for Credential {
    type V = Option<Seq<char>>;

    closed spec fn view(&self) -> Option<Seq<char>> {
        optional_text(self.remembered)
    }
}

impl Credential {
    /// No password is remembered at first.
    pub fn new() -> (r: Credential)
        ensures
            r@ is None,
    {
        Credential { remembered: None }
    }

    /// The remembered password, to start a flow with.
    pub fn remembered(&self) -> (r: Option<String>)
        ensures
            optional_text(r) == self@,
    {
        match &self.remembered {
            Some(p) => Some(p.clone()),
            None => None,
        }
    }

    /// Takes in how an operation ended: `None` for success, else its error.
    /// A credential failure clears the remembered password and asks for a
    /// new one; any other failure is reported as it is.
    pub fn settle(&mut self, error: Option<&ConnectionError>) -> (r: Verdict)
        ensures
            r@ == verdict_of(
                match error {
                    Some(e) => Some(e@),
                    None => None,
                },
            ),
            final(self)@ == credential_after(
                old(self)@,
                match error {
                    Some(e) => Some(e@),
                    None => None,
                },
            ),
    {
        match error {
            None => Verdict::Completed,
            Some(e) => {
                if e.is_auth_failure() {
                    self.remembered = None;
                    Verdict::AskPassword
                } else {
                    let mut line = String::from_str("Error: ");
                    line.append(e.to_text().as_str());
                    Verdict::Report(line)
                }
            },
        }
    }

    /// Takes in the answer to a password prompt. A new password is
    /// remembered and the operation is to be run again; a refusal leaves
    /// the credential as it is and ends the retries.
    pub fn answer(&mut self, password: Option<String>) -> (retry: bool)
        ensures
            retry == password is Some,
            final(self)@ == (match password {
                Some(p) => Some(p@),
                None => old(self)@,
            }),
    {
        match password {
            Some(p) => {
                self.remembered = Some(p);
                true
            },
            None => false,
        }
    }
}

/// What a driver has seen of a flow after some replies: the state, all
/// requests made, the first one included, and all items handed to the
/// status sink.
pub ghost struct FlowTrace {
    pub state: FlowView,
    pub requests: Seq<FlowRequestView>,
    pub reports: Seq<ReportView>,
}

/// The trace of a flow whose driver has answered with `replies`, one per
/// request.
pub open spec fn flow_trace(
    operation: OperationView,
    host: Seq<char>,
    port: u16,
    credential: Option<Seq<char>>,
    replies: Seq<FlowReplyView>,
) -> FlowTrace
    decreases replies.len(),
{
    if replies.len() == 0 {
        FlowTrace {
            state: flow_start(operation, host, port, credential),
            requests: seq![first_request(operation, host)],
            reports: Seq::empty(),
        }
    } else {
        let before = flow_trace(operation, host, port, credential, replies.drop_last());
        let turn = flow_next(before.state, replies.last());
        FlowTrace {
            state: turn.state,
            requests: before.requests.push(turn.request),
            reports: before.reports + turn.reports,
        }
    }
}

/// How many of `requests` are connection attempts.
pub open spec fn connect_count(requests: Seq<FlowRequestView>) -> nat
    decreases requests.len(),
{
    if requests.len() == 0 {
        0
    } else {
        connect_count(requests.drop_last()) + if requests.last() is Connect {
            1nat
        } else {
            0nat
        }
    }
}

/// Every connection attempt among `requests` is made as the fixed user, to
/// the given endpoint, with the remembered password or else the default.
pub open spec fn attempts_as_planned(
    requests: Seq<FlowRequestView>,
    host: Seq<char>,
    port: u16,
    credential: Option<Seq<char>>,
) -> bool {
    forall|i: int|
        0 <= i < requests.len() && (#[trigger] requests[i]) is Connect ==> requests[i]
            == (FlowRequestView::Connect {
            host,
            port,
            user: USER@,
            password: chosen_password(credential),
            limit_secs: SHORT_LIMIT_SECS,
        })
}

/// The flow holds a session, or is about to.
pub open spec fn in_session(phase: FlowPhase) -> bool {
    phase != FlowPhase::Validating && phase != FlowPhase::Finished
}

spec fn trace_holds(
    t: FlowTrace,
    host: Seq<char>,
    port: u16,
    credential: Option<Seq<char>>,
) -> bool {
    &&& t.state.host == host
    &&& t.state.port == port
    &&& t.state.credential == credential
    &&& attempts_as_planned(t.requests, host, port, credential)
    &&& connect_count(t.requests) <= 1
    &&& t.state.phase == FlowPhase::Validating ==> connect_count(t.requests) == 0
    &&& in_session(t.state.phase) ==> connect_count(t.requests) == 1
    &&& t.state.outcome matches Some(Ok(_)) ==> connect_count(t.requests) == 1
    &&& t.state.phase == FlowPhase::Validating || t.state.phase == FlowPhase::Connecting
        ==> t.state.outcome is None
}

proof fn lemma_flow_trace_holds(
    operation: OperationView,
    host: Seq<char>,
    port: u16,
    credential: Option<Seq<char>>,
    replies: Seq<FlowReplyView>,
)
    ensures
        trace_holds(flow_trace(operation, host, port, credential, replies), host, port, credential),
    decreases replies.len(),
{
    reveal_with_fuel(connect_count, 2);
    if replies.len() == 0 {
        let first = seq![first_request(operation, host)];
        assert(first.drop_last() =~= Seq::<FlowRequestView>::empty());
    } else {
        lemma_flow_trace_holds(operation, host, port, credential, replies.drop_last());
        let before = flow_trace(operation, host, port, credential, replies.drop_last());
        let turn = flow_next(before.state, replies.last());
        let after = before.requests.push(turn.request);
        assert(after.drop_last() =~= before.requests);
        assert(after.last() == turn.request);
    }
}

/// One operation makes one connection attempt: never more than one, exactly
/// one once the endpoint has passed validation and in every flow that ends
/// in success, and always as the fixed user with the remembered password,
/// or with the factory default where none is remembered.
pub proof fn law_one_attempt_per_operation(
    operation: OperationView,
    host: Seq<char>,
    port: u16,
    credential: Option<Seq<char>>,
    replies: Seq<FlowReplyView>,
)
    ensures
        ({
            let t = flow_trace(operation, host, port, credential, replies);
            &&& connect_count(t.requests) <= 1
            &&& in_session(t.state.phase) ==> connect_count(t.requests) == 1
            &&& flow_result(t.state) matches Some(Ok(_)) ==> connect_count(t.requests) == 1
            &&& attempts_as_planned(t.requests, host, port, credential)
        }),
{
    lemma_flow_trace_holds(operation, host, port, credential, replies);
}

/// An endpoint that fails validation never reaches the transport: the flow
/// ends at once with that error, and asks for nothing afterwards.
pub proof fn law_invalid_endpoint_stays_local(
    operation: OperationView,
    host: Seq<char>,
    port: u16,
    credential: Option<Seq<char>>,
    replies: Seq<FlowReplyView>,
    reason: Seq<char>,
)
    requires
        replies.len() >= 1,
        replies[0] == FlowReplyView::Invalid(reason),
    ensures
        ({
            let t = flow_trace(operation, host, port, credential, replies);
            &&& flow_result(t.state) == Some(
                Err::<Option<Seq<char>>, ConnectionErrorView>(other_error(reason)),
            )
            &&& t.requests.len() == replies.len() + 1
            &&& forall|i: int| 1 <= i < t.requests.len() ==> t.requests[i] is Finish
        }),
    decreases replies.len(),
{
    let head = replies.drop_last();
    if head.len() == 0 {
        assert(replies.last() == replies[0]);
        assert(flow_trace(operation, host, port, credential, head).requests.len() == 1);
    } else {
        assert(head[0] == replies[0]);
        law_invalid_endpoint_stays_local(operation, host, port, credential, head, reason);
    }
}

/// The remembered password never shows in status text: two flows that
/// differ in nothing but the credential hand the status sink the same items,
/// whatever the replies.
pub proof fn law_credential_is_never_echoed(
    operation: OperationView,
    host: Seq<char>,
    port: u16,
    one: Option<Seq<char>>,
    other: Option<Seq<char>>,
    replies: Seq<FlowReplyView>,
)
    ensures
        flow_trace(operation, host, port, one, replies).reports == flow_trace(
            operation,
            host,
            port,
            other,
            replies,
        ).reports,
        flow_trace(operation, host, port, one, replies).state == (FlowView {
            credential: one,
            ..flow_trace(operation, host, port, other, replies).state
        }),
    decreases replies.len(),
{
    if replies.len() > 0 {
        law_credential_is_never_echoed(operation, host, port, one, other, replies.drop_last());
    }
}

} // verus!
