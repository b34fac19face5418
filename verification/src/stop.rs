//! Stopping a daemon that is tracked by a pid file.

use vstd::prelude::*;
use vstd::string::*;
use crate::host::{
    CommandLine, CommandLineView, Fault, FaultView, judge, judgement_of, judgement_view,
    Payload, PayloadView, Reply, ReplyView, Request, request_view, RequestView, result_is,
};
use crate::text::{Strip, trim, trimmed};

verus! {

/// Where a stop stands.
#[derive(Clone, Debug, PartialEq, Eq)]
pub enum StopState {
    /// The next thing to do is to read the pid file.
    ReadPid,
    /// The pid file held `pid`; the next thing to do is to ask the process
    /// to terminate.
    Signal { pid: String },
    /// The process was asked to terminate; the next thing to do is to
    /// remove the pid file.
    RemovePidFile,
    /// The stop is complete.
    Stopped,
    /// The stop failed.
    Failed { fault: Fault },
}

/// The text of a [`StopState`].
pub enum StopStateView {
    ReadPid,
    Signal { pid: Seq<char> },
    RemovePidFile,
    Stopped,
    Failed { fault: FaultView },
}

impl View for StopState {
    type V = StopStateView;

    open spec fn view(&self) -> StopStateView {
        match self {
            StopState::ReadPid => StopStateView::ReadPid,
            StopState::Signal { pid } => StopStateView::Signal { pid: pid@ },
            StopState::RemovePidFile => StopStateView::RemovePidFile,
            StopState::Stopped => StopStateView::Stopped,
            StopState::Failed { fault } => StopStateView::Failed { fault: fault@ },
        }
    }
}

/// A stop that failed: the pid file could not be read, the termination
/// request failed, or, where that matters, the pid file could not be
/// removed.
#[derive(Clone, Debug, PartialEq, Eq)]
pub struct StopError {
    pub cause: Fault,
}

/// A stop in progress: read the pid, ask the process to terminate, remove
/// the pid file.
#[derive(Clone, Debug, PartialEq, Eq)]
pub struct ProcessStop {
    pid_file: String,
    removal_must_succeed: bool,
    state: StopState,
}

/// The mathematical model of a [`ProcessStop`].
pub struct ProcessStopView {
    pub pid_file: Seq<char>,
    pub removal_must_succeed: bool,
    pub state: StopStateView,
}

/// The termination request for the process whose pid file holds `pid`: the
/// pid is passed without the white space around it.
pub open spec fn kill_command(pid: Seq<char>) -> CommandLineView {
    CommandLineView { program: "kill"@, args: seq![trimmed(pid, Strip::WhiteSpace)] }
}

impl ProcessStopView {
    /// The stop that has asked for nothing yet.
    pub open spec fn fresh(pid_file: Seq<char>, removal_must_succeed: bool) -> ProcessStopView {
        ProcessStopView { pid_file, removal_must_succeed, state: StopStateView::ReadPid }
    }

    /// What the stop asks of the host next, if anything.
    pub open spec fn request(self) -> Option<RequestView> {
        match self.state {
            StopStateView::ReadPid => Some(RequestView::ReadFile { path: self.pid_file }),
            StopStateView::Signal { pid } => Some(RequestView::Run { command: kill_command(pid) }),
            StopStateView::RemovePidFile => Some(RequestView::RemoveFile { path: self.pid_file }),
            _ => None,
        }
    }

    /// How the stop ended, if it has.
    pub open spec fn outcome(self) -> Option<Result<(), FaultView>> {
        match self.state {
            StopStateView::Stopped => Some(Ok(())),
            StopStateView::Failed { fault } => Some(Err(fault)),
            _ => None,
        }
    }

    /// The stop once the pending request has been judged.
    ///
    /// A pid file that cannot be read and a termination request that fails
    /// end the stop in failure. A pid file that cannot be removed does so
    /// only where its removal must succeed; elsewhere the stop is complete
    /// once the removal has been attempted.
    pub open spec fn advance(self, judgement: Result<PayloadView, FaultView>) -> ProcessStopView {
        match self.state {
            StopStateView::ReadPid => match judgement {
                Ok(PayloadView::Text { text }) => ProcessStopView {
                    state: StopStateView::Signal { pid: text },
                    ..self
                },
                Ok(_) => ProcessStopView {
                    state: StopStateView::Failed { fault: FaultView::Unexpected },
                    ..self
                },
                Err(fault) => ProcessStopView { state: StopStateView::Failed { fault }, ..self },
            },
            StopStateView::Signal { .. } => match judgement {
                Ok(_) => ProcessStopView { state: StopStateView::RemovePidFile, ..self },
                Err(fault) => ProcessStopView { state: StopStateView::Failed { fault }, ..self },
            },
            StopStateView::RemovePidFile => match judgement {
                Ok(_) => ProcessStopView { state: StopStateView::Stopped, ..self },
                Err(fault) => if self.removal_must_succeed {
                    ProcessStopView { state: StopStateView::Failed { fault }, ..self }
                } else {
                    ProcessStopView { state: StopStateView::Stopped, ..self }
                },
            },
            _ => self,
        }
    }

    /// The stop after the host's reply to the pending request. A reply
    /// that arrives when nothing is pending changes nothing.
    pub open spec fn after(self, reply: ReplyView) -> ProcessStopView {
        match self.request() {
            Some(request) => self.advance(judgement_of(request, reply)),
            None => self,
        }
    }
}

impl View for ProcessStop {
    type V = ProcessStopView;

    closed spec fn view(&self) -> ProcessStopView {
        ProcessStopView {
            pid_file: self.pid_file@,
            removal_must_succeed: self.removal_must_succeed,
            state: self.state@,
        }
    }
}

/// The termination request for the process whose pid file holds `pid`.
pub fn kill_command_for(pid: &str) -> (command: CommandLine)
    ensures
        command@ == kill_command(pid@),
{
    let command = CommandLine::new("kill").arg_owned(trim(pid, Strip::WhiteSpace));
    assert(command@.args =~= kill_command(pid@).args);
    command
}

impl ProcessStop {
    /// A stop of the process tracked by `pid_file` that has asked for
    /// nothing yet.
    pub fn new(pid_file: String, removal_must_succeed: bool) -> (stop: ProcessStop)
        ensures
            stop@ == ProcessStopView::fresh(pid_file@, removal_must_succeed),
    {
        ProcessStop { pid_file, removal_must_succeed, state: StopState::ReadPid }
    }

    /// What to ask of the host next, if anything.
    pub fn request(&self) -> (request: Option<Request>)
        ensures
            request_view(request) == self@.request(),
    {
        match &self.state {
            StopState::ReadPid => Some(Request::ReadFile { path: self.pid_file.clone() }),
            StopState::Signal { pid } => Some(
                Request::Run { command: kill_command_for(pid.as_str()) },
            ),
            StopState::RemovePidFile => Some(Request::RemoveFile { path: self.pid_file.clone() }),
            _ => None,
        }
    }

    /// Whether the stop has ended.
    pub fn is_finished(&self) -> (finished: bool)
        ensures
            finished == self@.outcome().is_some(),
    {
        match &self.state {
            StopState::Stopped => true,
            StopState::Failed { .. } => true,
            _ => false,
        }
    }

    /// Takes in the host's reply to the pending request.
    pub fn feed(&mut self, reply: Reply)
        ensures
            final(self)@ == old(self)@.after(reply@),
    {
        match self.request() {
            Some(request) => {
                let judged = judge(&request, reply);
                self.advance(judged);
            },
            None => {},
        }
    }

    fn advance(&mut self, judged: Result<Payload, Fault>)
        ensures
            final(self)@ == old(self)@.advance(judgement_view(judged)),
    {
        match &self.state {
            StopState::ReadPid => match judged {
                Ok(Payload::Text { text }) => {
                    self.state = StopState::Signal { pid: text };
                },
                Ok(_) => {
                    self.state = StopState::Failed { fault: Fault::Unexpected };
                },
                Err(fault) => {
                    self.state = StopState::Failed { fault };
                },
            },
            StopState::Signal { .. } => match judged {
                Ok(_) => {
                    self.state = StopState::RemovePidFile;
                },
                Err(fault) => {
                    self.state = StopState::Failed { fault };
                },
            },
            StopState::RemovePidFile => match judged {
                Ok(_) => {
                    self.state = StopState::Stopped;
                },
                Err(fault) => {
                    if self.removal_must_succeed {
                        self.state = StopState::Failed { fault };
                    } else {
                        self.state = StopState::Stopped;
                    }
                },
            },
            _ => {},
        }
    }

    /// How the stop ended, if it has.
    pub fn into_outcome(self) -> (outcome: Option<Result<(), Fault>>)
        ensures
            crate::host::outcome_is(outcome, self@.outcome()),
    {
        match self.state {
            StopState::Stopped => Some(Ok(())),
            StopState::Failed { fault } => Some(Err(fault)),
            _ => None,
        }
    }

    /// How the stop ended, if it has.
    pub fn into_result(self) -> (result: Option<Result<(), StopError>>)
        ensures
            result_is(result, |e: StopError| e.cause@, self@.outcome()),
    {
        match self.state {
            StopState::Stopped => Some(Ok(())),
            StopState::Failed { fault } => Some(Err(StopError { cause: fault })),
            _ => None,
        }
    }
}

/// A stop asks for three things in a fixed order, each only after the one
/// before it has succeeded: the pid file is read, the process whose pid it
/// held is asked to terminate, and the pid file is removed. With every
/// reply a success the stop is complete after the third.
pub proof fn lemma_stop_runs_in_order(
    pid_file: Seq<char>,
    removal_must_succeed: bool,
    pid: Seq<char>,
    exit: ReplyView,
)
    requires
        judgement_of(RequestView::Run { command: kill_command(pid) }, exit) is Ok,
    ensures
        ({
            let reading = ProcessStopView::fresh(pid_file, removal_must_succeed);
            let signalling = reading.after(ReplyView::Contents { text: pid });
            let removing = signalling.after(exit);
            let stopped = removing.after(ReplyView::Done);
            &&& reading.request() == Some(RequestView::ReadFile { path: pid_file })
            &&& signalling.request() == Some(RequestView::Run { command: kill_command(pid) })
            &&& removing.request() == Some(RequestView::RemoveFile { path: pid_file })
            &&& removing.outcome() is None
            &&& stopped.request() is None
            &&& stopped.outcome() == Some(Ok::<(), FaultView>(()))
        }),
{
}

/// A stop whose pid file cannot be read, or whose termination request
/// fails, ends at once with that fault, and the pid file is left alone.
pub proof fn lemma_stop_fails_fast(stop: ProcessStopView, reply: ReplyView)
    requires
        stop.state is ReadPid || stop.state is Signal,
        judgement_of(stop.request().unwrap(), reply) is Err,
    ensures
        stop.after(reply).request() is None,
        stop.after(reply).outcome() == Some(
            Err::<(), FaultView>(judgement_of(stop.request().unwrap(), reply)->Err_0),
        ),
{
}

/// A stop removes nothing but the pid file: of all that it asks for, only
/// the removal has the host itself create, change or remove anything, and
/// what it removes is the pid file.
pub proof fn lemma_stop_removes_only_the_pid_file(stop: ProcessStopView)
    ensures
        stop.request() matches Some(request) ==> request.target() is None || request
            == (RequestView::RemoveFile { path: stop.pid_file }),
{
}

/// A stop asks for something exactly as long as it has not ended.
pub proof fn lemma_stop_asks_until_done(stop: ProcessStopView)
    ensures
        stop.request() is None <==> stop.outcome() is Some,
{
}

} // verus!
