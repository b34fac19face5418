//! Supervising the TPM emulator that runs beside the virtual machine.

use vstd::prelude::*;
use vstd::string::*;
use crate::host::{
    CommandLine, CommandLineView, Fault, fault_view, FaultView, judge, judgement_of, Payload,
    PayloadView, Reply, ReplyView, Request, request_view, RequestView, result_is,
};
use crate::sequence::{Sequence, SequenceView};
use crate::stop::{ProcessStop, ProcessStopView};
use crate::text::{chain, chain3, join, joined};

verus! {

/// The TPM emulator: where its process is tracked, where it listens and
/// where it keeps the state of the TPM.
#[derive(Clone, Debug, PartialEq, Eq)]
pub struct SidecarProcess {
    /// Where the emulator records its process id.
    pub pid_file_path: String,
    /// The data socket of the emulator. Its control socket is the same path
    /// followed by `.ctrl`.
    pub socket_path: String,
    /// The directory in which the emulator keeps the state of the TPM.
    pub state_directory: String,
}

/// The text of a [`SidecarProcess`].
pub struct SidecarProcessView {
    pub pid_file_path: Seq<char>,
    pub socket_path: Seq<char>,
    pub state_directory: Seq<char>,
}

impl View for SidecarProcess {
    type V = SidecarProcessView;

    open spec fn view(&self) -> SidecarProcessView {
        SidecarProcessView {
            pid_file_path: self.pid_file_path@,
            socket_path: self.socket_path@,
            state_directory: self.state_directory@,
        }
    }
}

impl SidecarProcessView {
    /// The emulator at the fixed paths of the command-line tool.
    pub open spec fn at_fixed_paths() -> SidecarProcessView {
        SidecarProcessView {
            pid_file_path: "/tmp/vtpm_pid"@,
            socket_path: "/tmp/vtpm/swtpm-sock"@,
            state_directory: "/tmp/vtpm"@,
        }
    }

    /// The arguments that start the emulator whatever else is asked: as a
    /// TPM 2 on a socket, recording its pid, keeping its state in the state
    /// directory, taking control commands on the control socket, treating
    /// the state it finds as that of a clean startup that needs no
    /// initialization, and in the background.
    pub open spec fn base_args(self) -> Seq<Seq<char>> {
        seq![
            "socket"@,
            "--tpm2"@,
            "--pid"@,
            "file="@ + self.pid_file_path,
            "--tpmstate"@,
            "dir="@ + self.state_directory,
            "--ctrl"@,
            "type=unixio,path="@ + self.socket_path + ".ctrl"@,
            "--flags"@,
            "not-need-init,startup-clear"@,
            "-d"@,
        ]
    }

    /// Starts the emulator. With `expose_server_socket` it also listens on
    /// its data socket.
    pub open spec fn start_command(self, expose_server_socket: bool) -> CommandLineView {
        CommandLineView {
            program: "swtpm"@,
            args: if expose_server_socket {
                self.base_args() + seq!["--server"@, "type=unixio,path="@ + self.socket_path]
            } else {
                self.base_args()
            },
        }
    }

    /// The steps of a start: make sure that the state directory exists,
    /// then start the emulator.
    pub open spec fn start_plan(self, expose_server_socket: bool) -> Seq<RequestView> {
        seq![
            RequestView::CreateDirAll { path: self.state_directory },
            RequestView::Run { command: self.start_command(expose_server_socket) },
        ]
    }

    /// The file in the state directory that holds the permanent state of
    /// the TPM once it has been set up.
    pub open spec fn marker_path(self) -> Seq<char> {
        joined(self.state_directory, "tpm2-00.permall"@)
    }

    /// Creates the primary key in the TPM behind the data socket.
    pub open spec fn create_primary_command(self) -> CommandLineView {
        CommandLineView {
            program: "tpm2_createprimary"@,
            args: seq!["-T"@, "swtpm:path="@ + self.socket_path, "-c"@, "srk.ctx"@],
        }
    }

    /// Reads the public part of the primary key.
    pub open spec fn read_public_command(self) -> CommandLineView {
        CommandLineView {
            program: "tpm2_readpublic"@,
            args: seq![
                "-T"@,
                "swtpm:path="@ + self.socket_path,
                "-c"@,
                "srk.ctx"@,
                "-o"@,
                "srk.pub"@,
            ],
        }
    }

    /// The steps of a key generation: create the primary key, then read
    /// its public part.
    pub open spec fn key_plan(self) -> Seq<RequestView> {
        seq![
            RequestView::Run { command: self.create_primary_command() },
            RequestView::Run { command: self.read_public_command() },
        ]
    }

    /// Removes the state directory and all that it holds.
    pub open spec fn destroy_request(self) -> RequestView {
        RequestView::RemoveDirAll { path: self.state_directory }
    }
}

impl SidecarProcess {
    /// The emulator at the fixed paths of the command-line tool.
    pub fn at_fixed_paths() -> (sidecar: SidecarProcess)
        ensures
            sidecar@ == SidecarProcessView::at_fixed_paths(),
    {
        SidecarProcess {
            pid_file_path: String::from_str("/tmp/vtpm_pid"),
            socket_path: String::from_str("/tmp/vtpm/swtpm-sock"),
            state_directory: String::from_str("/tmp/vtpm"),
        }
    }

    /// Starts the emulator.
    pub fn start_command(&self, expose_server_socket: bool) -> (command: CommandLine)
        ensures
            command@ == self@.start_command(expose_server_socket),
    {
        let base = CommandLine::new("swtpm").arg("socket").arg("--tpm2").arg("--pid").arg_owned(
            chain("file=", self.pid_file_path.as_str()),
        ).arg("--tpmstate").arg_owned(chain("dir=", self.state_directory.as_str())).arg(
            "--ctrl",
        ).arg_owned(chain3("type=unixio,path=", self.socket_path.as_str(), ".ctrl")).arg(
            "--flags",
        ).arg("not-need-init,startup-clear").arg("-d");
        assert(base@.args =~= self@.base_args());
        if expose_server_socket {
            let command = base.arg("--server").arg_owned(
                chain("type=unixio,path=", self.socket_path.as_str()),
            );
            assert(command@.args =~= self@.start_command(true).args);
            command
        } else {
            base
        }
    }

    /// The steps of a start.
    pub fn start_plan(&self, expose_server_socket: bool) -> (plan: Vec<Request>)
        ensures
            plan.deep_view() == self@.start_plan(expose_server_socket),
    {
        let mut plan: Vec<Request> = Vec::new();
        plan.push(Request::CreateDirAll { path: self.state_directory.clone() });
        plan.push(Request::Run { command: self.start_command(expose_server_socket) });
        assert(plan.deep_view() =~= self@.start_plan(expose_server_socket));
        plan
    }

    /// The file in the state directory that holds the permanent state of
    /// the TPM once it has been set up.
    pub fn marker_path(&self) -> (path: String)
        ensures
            path@ == self@.marker_path(),
    {
        join(self.state_directory.as_str(), "tpm2-00.permall")
    }

    /// Creates the primary key in the TPM behind the data socket.
    pub fn create_primary_command(&self) -> (command: CommandLine)
        ensures
            command@ == self@.create_primary_command(),
    {
        let command = CommandLine::new("tpm2_createprimary").arg("-T").arg_owned(
            chain("swtpm:path=", self.socket_path.as_str()),
        ).arg("-c").arg("srk.ctx");
        assert(command@.args =~= self@.create_primary_command().args);
        command
    }

    /// Reads the public part of the primary key.
    pub fn read_public_command(&self) -> (command: CommandLine)
        ensures
            command@ == self@.read_public_command(),
    {
        let command = CommandLine::new("tpm2_readpublic").arg("-T").arg_owned(
            chain("swtpm:path=", self.socket_path.as_str()),
        ).arg("-c").arg("srk.ctx").arg("-o").arg("srk.pub");
        assert(command@.args =~= self@.read_public_command().args);
        command
    }

    /// The steps of a key generation.
    pub fn key_plan(&self) -> (plan: Vec<Request>)
        ensures
            plan.deep_view() == self@.key_plan(),
    {
        let mut plan: Vec<Request> = Vec::new();
        plan.push(Request::Run { command: self.create_primary_command() });
        plan.push(Request::Run { command: self.read_public_command() });
        assert(plan.deep_view() =~= self@.key_plan());
        plan
    }

    /// A stop of the emulator. The emulator may remove its pid file
    /// itself, so the stop is complete once the removal has been
    /// attempted.
    pub fn stop(&self) -> (stop: ProcessStop)
        ensures
            stop@ == ProcessStopView::fresh(self@.pid_file_path, false),
    {
        ProcessStop::new(self.pid_file_path.clone(), false)
    }

    /// Removes the state directory and all that it holds. Whether the
    /// emulator is still running is not looked at: stop it first.
    pub fn destroy_request(&self) -> (request: Request)
        ensures
            request@ == self@.destroy_request(),
    {
        Request::RemoveDirAll { path: self.state_directory.clone() }
    }
}

/// A start that failed: the state directory could not be made, or the
/// emulator did not start.
#[derive(Clone, Debug, PartialEq, Eq)]
pub struct SidecarStartError {
    pub cause: Fault,
}

/// A start of the emulator in progress.
#[derive(Clone, Debug, PartialEq, Eq)]
pub struct SidecarStart {
    plan: Sequence,
}

impl View for SidecarStart {
    type V = SequenceView;

    closed spec fn view(&self) -> SequenceView {
        self.plan@
    }
}

impl SidecarStart {
    /// A start of `sidecar` that has asked for nothing yet.
    pub fn new(sidecar: &SidecarProcess, expose_server_socket: bool) -> (start: SidecarStart)
        ensures
            start@ == SequenceView::fresh(sidecar@.start_plan(expose_server_socket)),
    {
        SidecarStart { plan: Sequence::new(sidecar.start_plan(expose_server_socket)) }
    }

    /// What to ask of the host next, if anything.
    pub fn request(&self) -> (request: Option<Request>)
        ensures
            request_view(request) == self@.request(),
    {
        self.plan.request()
    }

    /// Takes in the host's reply to the pending request.
    pub fn feed(&mut self, reply: Reply)
        ensures
            final(self)@ == old(self)@.after(reply@),
    {
        self.plan.feed(reply)
    }

    /// How the start ended, if it has.
    pub fn into_result(self) -> (result: Option<Result<(), SidecarStartError>>)
        ensures
            result_is(result, |e: SidecarStartError| e.cause@, self@.outcome()),
    {
        match self.plan.into_outcome() {
            Some(Ok(())) => Some(Ok(())),
            Some(Err(cause)) => Some(Err(SidecarStartError { cause })),
            None => None,
        }
    }
}

/// What is known of the emulator from the files it leaves.
#[derive(Clone, Debug, PartialEq, Eq)]
pub enum SidecarStatus {
    /// There is no pid file and no TPM state.
    NotSetup,
    /// There is TPM state and no pid file.
    SetupNotRunning,
    /// There is a pid file, and this is what it holds. Whether the process
    /// it names is alive is not looked at.
    Running { pid: String },
}

/// The text of a [`SidecarStatus`].
pub enum SidecarStatusView {
    NotSetup,
    SetupNotRunning,
    Running { pid: Seq<char> },
}

impl View for SidecarStatus {
    type V = SidecarStatusView;

    open spec fn view(&self) -> SidecarStatusView {
        match self {
            SidecarStatus::NotSetup => SidecarStatusView::NotSetup,
            SidecarStatus::SetupNotRunning => SidecarStatusView::SetupNotRunning,
            SidecarStatus::Running { pid } => SidecarStatusView::Running { pid: pid@ },
        }
    }
}

/// The status as a function of what the pid file holds, if it is there, and
/// of whether the state marker is there: a pid file means running whatever
/// the marker; without one, the marker tells set up from not set up.
pub open spec fn status_of(pid_file: Option<Seq<char>>, marker_present: bool) -> SidecarStatusView {
    match pid_file {
        Some(pid) => SidecarStatusView::Running { pid },
        None => if marker_present {
            SidecarStatusView::SetupNotRunning
        } else {
            SidecarStatusView::NotSetup
        },
    }
}

/// The view of the contents of a file that may be absent.
pub open spec fn contents_view(contents: Option<String>) -> Option<Seq<char>> {
    match contents {
        Some(text) => Some(text@),
        None => None,
    }
}

impl SidecarStatusView {
    /// The status as a line for the user.
    pub open spec fn message(self) -> Seq<char> {
        match self {
            SidecarStatusView::NotSetup => "vTPM not setup and not running"@,
            SidecarStatusView::SetupNotRunning => "vTPM setup but not running"@,
            SidecarStatusView::Running { pid } => "vTPM is running, pid: "@ + pid,
        }
    }
}

impl SidecarStatus {
    /// The status, given what the pid file holds, if it is there, and
    /// whether the state marker is there.
    pub fn of(pid_file: Option<String>, marker_present: bool) -> (status: SidecarStatus)
        ensures
            status@ == status_of(contents_view(pid_file), marker_present),
    {
        match pid_file {
            Some(pid) => SidecarStatus::Running { pid },
            None => if marker_present {
                SidecarStatus::SetupNotRunning
            } else {
                SidecarStatus::NotSetup
            },
        }
    }

    /// The status as a line for the user.
    pub fn message(&self) -> (line: String)
        ensures
            line@ == self@.message(),
    {
        match self {
            SidecarStatus::NotSetup => String::from_str("vTPM not setup and not running"),
            SidecarStatus::SetupNotRunning => String::from_str("vTPM setup but not running"),
            SidecarStatus::Running { pid } => chain("vTPM is running, pid: ", pid.as_str()),
        }
    }
}

/// Where a status query stands.
#[derive(Clone, Debug, PartialEq, Eq)]
pub enum QueryState {
    /// The next thing to do is to read the pid file.
    ReadPid,
    /// There is no pid file to read; the next thing to do is to look for
    /// the state marker.
    ProbeMarker,
    /// The status is known.
    Known { status: SidecarStatus },
}

/// The text of a [`QueryState`].
pub enum QueryStateView {
    ReadPid,
    ProbeMarker,
    Known { status: SidecarStatusView },
}

impl View for QueryState {
    type V = QueryStateView;

    open spec fn view(&self) -> QueryStateView {
        match self {
            QueryState::ReadPid => QueryStateView::ReadPid,
            QueryState::ProbeMarker => QueryStateView::ProbeMarker,
            QueryState::Known { status } => QueryStateView::Known { status: status@ },
        }
    }
}

/// A status query in progress. It reads and looks; it changes nothing.
#[derive(Clone, Debug, PartialEq, Eq)]
pub struct StatusQuery {
    pid_file: String,
    marker: String,
    state: QueryState,
}

/// The mathematical model of a [`StatusQuery`].
pub struct StatusQueryView {
    pub pid_file: Seq<char>,
    pub marker: Seq<char>,
    pub state: QueryStateView,
}

/// What the reply to the reading of the pid file says the file holds: its
/// text, or nothing where it could not be read.
pub open spec fn pid_file_seen(pid_file: Seq<char>, reply: ReplyView) -> Option<Seq<char>> {
    match judgement_of(RequestView::ReadFile { path: pid_file }, reply) {
        Ok(PayloadView::Text { text }) => Some(text),
        _ => None,
    }
}

/// What the reply to the look for the marker says: whether it is there.
/// A look that failed counts as not there.
pub open spec fn marker_seen(marker: Seq<char>, reply: ReplyView) -> bool {
    match judgement_of(RequestView::Probe { path: marker }, reply) {
        Ok(PayloadView::Presence { present }) => present,
        _ => false,
    }
}

impl StatusQueryView {
    /// The query that has asked for nothing yet.
    pub open spec fn fresh(sidecar: SidecarProcessView) -> StatusQueryView {
        StatusQueryView {
            pid_file: sidecar.pid_file_path,
            marker: sidecar.marker_path(),
            state: QueryStateView::ReadPid,
        }
    }

    /// What the query asks of the host next, if anything.
    pub open spec fn request(self) -> Option<RequestView> {
        match self.state {
            QueryStateView::ReadPid => Some(RequestView::ReadFile { path: self.pid_file }),
            QueryStateView::ProbeMarker => Some(RequestView::Probe { path: self.marker }),
            QueryStateView::Known { .. } => None,
        }
    }

    /// The status, once it is known.
    pub open spec fn outcome(self) -> Option<SidecarStatusView> {
        match self.state {
            QueryStateView::Known { status } => Some(status),
            _ => None,
        }
    }

    /// The query after the host's reply to the pending request.
    pub open spec fn after(self, reply: ReplyView) -> StatusQueryView {
        match self.state {
            QueryStateView::ReadPid => match pid_file_seen(self.pid_file, reply) {
                Some(pid) => StatusQueryView {
                    state: QueryStateView::Known { status: status_of(Some(pid), false) },
                    ..self
                },
                None => StatusQueryView { state: QueryStateView::ProbeMarker, ..self },
            },
            QueryStateView::ProbeMarker => StatusQueryView {
                state: QueryStateView::Known {
                    status: status_of(None, marker_seen(self.marker, reply)),
                },
                ..self
            },
            QueryStateView::Known { .. } => self,
        }
    }
}

impl View for StatusQuery {
    type V = StatusQueryView;

    closed spec fn view(&self) -> StatusQueryView {
        StatusQueryView { pid_file: self.pid_file@, marker: self.marker@, state: self.state@ }
    }
}

impl StatusQuery {
    /// A query of `sidecar` that has asked for nothing yet.
    pub fn new(sidecar: &SidecarProcess) -> (query: StatusQuery)
        ensures
            query@ == StatusQueryView::fresh(sidecar@),
    {
        StatusQuery {
            pid_file: sidecar.pid_file_path.clone(),
            marker: sidecar.marker_path(),
            state: QueryState::ReadPid,
        }
    }

    /// What to ask of the host next, if anything.
    pub fn request(&self) -> (request: Option<Request>)
        ensures
            request_view(request) == self@.request(),
    {
        match &self.state {
            QueryState::ReadPid => Some(Request::ReadFile { path: self.pid_file.clone() }),
            QueryState::ProbeMarker => Some(Request::Probe { path: self.marker.clone() }),
            QueryState::Known { .. } => None,
        }
    }

    /// Takes in the host's reply to the pending request.
    pub fn feed(&mut self, reply: Reply)
        ensures
            final(self)@ == old(self)@.after(reply@),
    {
        match self.request() {
            Some(request) => {
                let judged = judge(&request, reply);
                match &self.state {
                    QueryState::ReadPid => match judged {
                        Ok(Payload::Text { text }) => {
                            self.state = QueryState::Known {
                                status: SidecarStatus::of(Some(text), false),
                            };
                        },
                        _ => {
                            self.state = QueryState::ProbeMarker;
                        },
                    },
                    QueryState::ProbeMarker => {
                        let present = match judged {
                            Ok(Payload::Presence { present }) => present,
                            _ => false,
                        };
                        self.state = QueryState::Known { status: SidecarStatus::of(None, present) };
                    },
                    QueryState::Known { .. } => {},
                }
            },
            None => {},
        }
    }

    /// The status, once it is known.
    pub fn into_status(self) -> (status: Option<SidecarStatus>)
        ensures
            match self@.outcome() {
                Some(model) => status matches Some(found) && found@ == model,
                None => status is None,
            },
    {
        match self.state {
            QueryState::Known { status } => Some(status),
            _ => None,
        }
    }
}

/// The status has exactly three cases: no pid file and no marker is not set
/// up; no pid file and a marker is set up and not running; a pid file is
/// running, with or without a marker.
pub proof fn lemma_status_table(pid: Seq<char>, marker_present: bool)
    ensures
        status_of(None, false) == SidecarStatusView::NotSetup,
        status_of(None, true) == SidecarStatusView::SetupNotRunning,
        status_of(Some(pid), marker_present) == (SidecarStatusView::Running { pid }),
{
}

/// A status query reports what the table says of what the host saw. It
/// asks for the pid file first; where that holds a pid it asks no more, and
/// otherwise it looks for the marker; and it asks for nothing but readings:
/// no request of a query has the host create, change or remove anything.
pub proof fn lemma_status_query_follows_table(
    sidecar: SidecarProcessView,
    read: ReplyView,
    probe: ReplyView,
)
    ensures
        ({
            let query = StatusQueryView::fresh(sidecar);
            let pid = pid_file_seen(sidecar.pid_file_path, read);
            let marker = marker_seen(sidecar.marker_path(), probe);
            &&& query.request() == Some(RequestView::ReadFile { path: sidecar.pid_file_path })
            &&& query.request().unwrap().target() is None
            &&& match pid {
                Some(_) => {
                    &&& query.after(read).request() is None
                    &&& query.after(read).outcome() == Some(status_of(pid, marker))
                },
                None => {
                    &&& query.after(read).request() == Some(
                        RequestView::Probe { path: sidecar.marker_path() },
                    )
                    &&& query.after(read).request().unwrap().target() is None
                    &&& query.after(read).outcome() is None
                    &&& query.after(read).after(probe).request() is None
                    &&& query.after(read).after(probe).outcome() == Some(status_of(pid, marker))
                },
            }
        }),
{
}

/// The part of a provisioning that can fail it.
#[derive(Clone, Copy, Debug, PartialEq, Eq, Structural)]
pub enum ProvisionStage {
    /// Starting the emulator.
    Start,
    /// Generating the primary key.
    KeyGeneration,
}

/// A provisioning that failed.
#[derive(Clone, Debug, PartialEq, Eq)]
pub struct ProvisionError {
    pub stage: ProvisionStage,
    pub cause: Fault,
}

/// How a provisioning ended: in success where `failure` is absent. A stop
/// that failed is reported beside it and does not make a failure.
#[derive(Clone, Debug, PartialEq, Eq)]
pub struct ProvisionReport {
    pub failure: Option<ProvisionError>,
    pub stop_failure: Option<Fault>,
}

/// The text of a [`ProvisionReport`].
pub struct ProvisionReportView {
    pub failure: Option<(ProvisionStage, FaultView)>,
    pub stop_failure: Option<FaultView>,
}

impl View for ProvisionReport {
    type V = ProvisionReportView;

    open spec fn view(&self) -> ProvisionReportView {
        ProvisionReportView {
            failure: match self.failure {
                None => None,
                Some(error) => Some((error.stage, error.cause@)),
            },
            stop_failure: fault_view(self.stop_failure),
        }
    }
}

/// A provisioning in progress: start the emulator with its data socket,
/// generate the primary key, and stop the emulator again.
#[derive(Clone, Debug, PartialEq, Eq)]
pub struct Provision {
    start: Sequence,
    keys: Sequence,
    stop: ProcessStop,
}

/// The mathematical model of a [`Provision`].
pub struct ProvisionView {
    pub start: SequenceView,
    pub keys: SequenceView,
    pub stop: ProcessStopView,
}

/// The fault of an outcome that is a failure.
pub open spec fn failure_of(outcome: Result<(), FaultView>) -> Option<FaultView> {
    match outcome {
        Ok(_) => None,
        Err(fault) => Some(fault),
    }
}

impl ProvisionView {
    /// The provisioning that has asked for nothing yet.
    pub open spec fn fresh(sidecar: SidecarProcessView) -> ProvisionView {
        ProvisionView {
            start: SequenceView::fresh(sidecar.start_plan(true)),
            keys: SequenceView::fresh(sidecar.key_plan()),
            stop: ProcessStopView::fresh(sidecar.pid_file_path, false),
        }
    }

    /// What the provisioning asks of the host next, if anything: the steps
    /// of the start; once it has succeeded, those of the key generation;
    /// and once that has ended, in success or not, those of the stop.
    pub open spec fn request(self) -> Option<RequestView> {
        match self.start.outcome() {
            None => self.start.request(),
            Some(Err(_)) => None,
            Some(Ok(_)) => match self.keys.outcome() {
                None => self.keys.request(),
                Some(_) => self.stop.request(),
            },
        }
    }

    /// The provisioning after the host's reply to the pending request.
    pub open spec fn after(self, reply: ReplyView) -> ProvisionView {
        match self.start.outcome() {
            None => ProvisionView { start: self.start.after(reply), ..self },
            Some(Err(_)) => self,
            Some(Ok(_)) => match self.keys.outcome() {
                None => ProvisionView { keys: self.keys.after(reply), ..self },
                Some(_) => ProvisionView { stop: self.stop.after(reply), ..self },
            },
        }
    }

    /// How the provisioning ended, if it has. A start that failed ends it
    /// at once. Otherwise it ends when the stop has, and fails exactly
    /// when the key generation did.
    pub open spec fn outcome(self) -> Option<ProvisionReportView> {
        match self.start.outcome() {
            None => None,
            Some(Err(fault)) => Some(
                ProvisionReportView {
                    failure: Some((ProvisionStage::Start, fault)),
                    stop_failure: None,
                },
            ),
            Some(Ok(_)) => match self.keys.outcome() {
                None => None,
                Some(keys) => match self.stop.outcome() {
                    None => None,
                    Some(stop) => Some(
                        ProvisionReportView {
                            failure: match keys {
                                Ok(_) => None,
                                Err(fault) => Some((ProvisionStage::KeyGeneration, fault)),
                            },
                            stop_failure: failure_of(stop),
                        },
                    ),
                },
            },
        }
    }
}

impl View for Provision {
    type V = ProvisionView;

    closed spec fn view(&self) -> ProvisionView {
        ProvisionView { start: self.start@, keys: self.keys@, stop: self.stop@ }
    }
}

impl Provision {
    /// A provisioning of `sidecar` that has asked for nothing yet.
    pub fn new(sidecar: &SidecarProcess) -> (provision: Provision)
        ensures
            provision@ == ProvisionView::fresh(sidecar@),
    {
        Provision {
            start: Sequence::new(sidecar.start_plan(true)),
            keys: Sequence::new(sidecar.key_plan()),
            stop: sidecar.stop(),
        }
    }

    /// What to ask of the host next, if anything.
    pub fn request(&self) -> (request: Option<Request>)
        ensures
            request_view(request) == self@.request(),
    {
        if !self.start.is_finished() {
            self.start.request()
        } else if !self.start.has_succeeded() {
            None
        } else if !self.keys.is_finished() {
            self.keys.request()
        } else {
            self.stop.request()
        }
    }

    /// Takes in the host's reply to the pending request.
    pub fn feed(&mut self, reply: Reply)
        ensures
            final(self)@ == old(self)@.after(reply@),
    {
        if !self.start.is_finished() {
            self.start.feed(reply);
        } else if !self.start.has_succeeded() {
        } else if !self.keys.is_finished() {
            self.keys.feed(reply);
        } else {
            self.stop.feed(reply);
        }
    }

    /// How the provisioning ended, if it has.
    pub fn into_report(self) -> (report: Option<ProvisionReport>)
        ensures
            match self@.outcome() {
                Some(model) => report matches Some(found) && found@ == model,
                None => report is None,
            },
    {
        match self.start.into_outcome() {
            None => None,
            Some(Err(cause)) => Some(
                ProvisionReport {
                    failure: Some(ProvisionError { stage: ProvisionStage::Start, cause }),
                    stop_failure: None,
                },
            ),
            Some(Ok(())) => match self.keys.into_outcome() {
                None => None,
                Some(keys) => match self.stop.into_outcome() {
                    None => None,
                    Some(stop) => {
                        let failure = match keys {
                            Ok(()) => None,
                            Err(cause) => Some(
                                ProvisionError { stage: ProvisionStage::KeyGeneration, cause },
                            ),
                        };
                        let stop_failure = match stop {
                            Ok(()) => None,
                            Err(fault) => Some(fault),
                        };
                        Some(ProvisionReport { failure, stop_failure })
                    },
                },
            },
        }
    }
}

/// Once the emulator has been started for a provisioning, the provisioning
/// does not end before the stop has: when the key generation has ended, in
/// success or in failure, what is asked next is what the stop asks, the
/// provisioning has ended exactly when the stop has, and then it has
/// failed exactly when the key generation has, whatever became of the stop.
pub proof fn lemma_provision_always_stops(state: ProvisionView)
    requires
        state.start.outcome() == Some(Ok::<(), FaultView>(())),
        state.keys.outcome() is Some,
    ensures
        state.request() == state.stop.request(),
        state.outcome() is Some <==> state.stop.outcome() is Some,
        state.outcome() matches Some(report) ==> {
            &&& report.failure is None <==> state.keys.outcome() == Some(Ok::<(), FaultView>(()))
            &&& report.stop_failure == failure_of(state.stop.outcome().unwrap())
        },
{
}

/// A provisioning whose start fails ends at once with that fault: no key
/// is generated and nothing is stopped.
pub proof fn lemma_provision_needs_start(state: ProvisionView)
    requires
        state.start.outcome() matches Some(Err(_)),
    ensures
        state.request() is None,
        state.outcome() == Some(
            ProvisionReportView {
                failure: Some((ProvisionStage::Start, state.start.outcome().unwrap()->Err_0)),
                stop_failure: None,
            },
        ),
{
}

/// A status query and a provisioning each ask for something exactly as
/// long as they have not ended.
pub proof fn lemma_sidecar_asks_until_done(query: StatusQueryView, provision: ProvisionView)
    ensures
        query.request() is None <==> query.outcome() is Some,
        provision.request() is None <==> provision.outcome() is Some,
{
}

} // verus!
