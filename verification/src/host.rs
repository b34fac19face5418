//! What a pipeline asks of the host, and what the host answers.
//!
//! The library never touches the operating system. It hands the caller a
//! [`Request`], the caller carries it out and hands back a [`Reply`], and
//! [`judge`] says whether that reply means the request succeeded.

use vstd::prelude::*;
use vstd::string::*;
use vstd::utf8::{decode_utf8, valid_utf8};
use crate::text::{chain, copy_bytes, copy_strings, decode};

verus! {

/// A program and its ordered arguments.
#[derive(Clone, Debug, PartialEq, Eq)]
pub struct CommandLine {
    pub program: String,
    pub args: Vec<String>,
}

/// The text of a [`CommandLine`].
pub struct CommandLineView {
    pub program: Seq<char>,
    pub args: Seq<Seq<char>>,
}

impl View for CommandLine {
    type V = CommandLineView;

    open spec fn view(&self) -> CommandLineView {
        CommandLineView { program: self.program@, args: self.args.deep_view() }
    }
}

impl CommandLine {
    /// The program alone, with no arguments yet.
    pub fn new(program: &str) -> (command: CommandLine)
        ensures
            command@.program == program@,
            command@.args == Seq::<Seq<char>>::empty(),
    {
        let command = CommandLine { program: String::from_str(program), args: Vec::new() };
        assert(command.args.deep_view() =~= Seq::<Seq<char>>::empty());
        command
    }

    /// The same command with one more argument at the end.
    pub fn arg(self, value: &str) -> (command: CommandLine)
        ensures
            command@.program == self@.program,
            command@.args == self@.args.push(value@),
    {
        self.arg_owned(String::from_str(value))
    }

    /// The same command with one more argument at the end, taken by value.
    pub fn arg_owned(self, value: String) -> (command: CommandLine)
        ensures
            command@.program == self@.program,
            command@.args == self@.args.push(value@),
    {
        let mut command = self;
        let ghost before = command.args;
        command.args.push(value);
        assert(command.args.deep_view() =~= before.deep_view().push(value@));
        command
    }

    /// An independent copy of this command.
    pub fn duplicate(&self) -> (copy: CommandLine)
        ensures
            copy@ == self@,
    {
        CommandLine { program: self.program.clone(), args: copy_strings(&self.args) }
    }
}

/// One thing for the host to do.
#[derive(Clone, Debug, PartialEq, Eq)]
pub enum Request {
    /// Run the command to completion, capturing what it prints.
    Run { command: CommandLine },
    /// Say whether the path exists.
    Probe { path: String },
    /// Wait for the given number of milliseconds.
    Sleep { millis: u64 },
    /// Create the directory and any missing parents.
    CreateDirAll { path: String },
    /// Remove the empty directory.
    RemoveDir { path: String },
    /// Remove the directory and everything under it.
    RemoveDirAll { path: String },
    /// Remove the file.
    RemoveFile { path: String },
    /// Copy the file `from` over `to`.
    CopyFile { from: String, to: String },
    /// Create or truncate the file and write the contents to it.
    WriteFile { path: String, contents: String },
    /// Read the whole file as text.
    ReadFile { path: String },
    /// Create the destination file and open the URL for reading, to be
    /// copied from for at most `byte_limit` bytes.
    OpenTransfer { url: String, destination: String, byte_limit: u64 },
    /// Copy what is left of the open transfer into its destination.
    CopyTransfer,
    /// Show the message to the user.
    Notify { message: String },
}

/// The text of a [`Request`].
pub enum RequestView {
    Run { command: CommandLineView },
    Probe { path: Seq<char> },
    Sleep { millis: u64 },
    CreateDirAll { path: Seq<char> },
    RemoveDir { path: Seq<char> },
    RemoveDirAll { path: Seq<char> },
    RemoveFile { path: Seq<char> },
    CopyFile { from: Seq<char>, to: Seq<char> },
    WriteFile { path: Seq<char>, contents: Seq<char> },
    ReadFile { path: Seq<char> },
    OpenTransfer { url: Seq<char>, destination: Seq<char>, byte_limit: u64 },
    CopyTransfer,
    Notify { message: Seq<char> },
}

impl View for Request {
    type V = RequestView;

    open spec fn view(&self) -> RequestView {
        match self {
            Request::Run { command } => RequestView::Run { command: command@ },
            Request::Probe { path } => RequestView::Probe { path: path@ },
            Request::Sleep { millis } => RequestView::Sleep { millis: *millis },
            Request::CreateDirAll { path } => RequestView::CreateDirAll { path: path@ },
            Request::RemoveDir { path } => RequestView::RemoveDir { path: path@ },
            Request::RemoveDirAll { path } => RequestView::RemoveDirAll { path: path@ },
            Request::RemoveFile { path } => RequestView::RemoveFile { path: path@ },
            Request::CopyFile { from, to } => RequestView::CopyFile { from: from@, to: to@ },
            Request::WriteFile { path, contents } => RequestView::WriteFile {
                path: path@,
                contents: contents@,
            },
            Request::ReadFile { path } => RequestView::ReadFile { path: path@ },
            Request::OpenTransfer { url, destination, byte_limit } => RequestView::OpenTransfer {
                url: url@,
                destination: destination@,
                byte_limit: *byte_limit,
            },
            Request::CopyTransfer => RequestView::CopyTransfer,
            Request::Notify { message } => RequestView::Notify { message: message@ },
        }
    }
}

impl RequestView {
    /// The path that the host itself creates, overwrites or removes when it
    /// carries the request out, if there is one. What a command that it
    /// runs does is not covered.
    pub open spec fn target(self) -> Option<Seq<char>> {
        match self {
            RequestView::CreateDirAll { path } => Some(path),
            RequestView::RemoveDir { path } => Some(path),
            RequestView::RemoveDirAll { path } => Some(path),
            RequestView::RemoveFile { path } => Some(path),
            RequestView::CopyFile { to, .. } => Some(to),
            RequestView::WriteFile { path, .. } => Some(path),
            RequestView::OpenTransfer { destination, .. } => Some(destination),
            _ => None,
        }
    }
}

impl DeepView for Request {
    type V = RequestView;

    open spec fn deep_view(&self) -> RequestView {
        self@
    }
}

impl Request {
    /// An independent copy of this request.
    pub fn duplicate(&self) -> (copy: Request)
        ensures
            copy@ == self@,
    {
        match self {
            Request::Run { command } => Request::Run { command: command.duplicate() },
            Request::Probe { path } => Request::Probe { path: path.clone() },
            Request::Sleep { millis } => Request::Sleep { millis: *millis },
            Request::CreateDirAll { path } => Request::CreateDirAll { path: path.clone() },
            Request::RemoveDir { path } => Request::RemoveDir { path: path.clone() },
            Request::RemoveDirAll { path } => Request::RemoveDirAll { path: path.clone() },
            Request::RemoveFile { path } => Request::RemoveFile { path: path.clone() },
            Request::CopyFile { from, to } => Request::CopyFile {
                from: from.clone(),
                to: to.clone(),
            },
            Request::WriteFile { path, contents } => Request::WriteFile {
                path: path.clone(),
                contents: contents.clone(),
            },
            Request::ReadFile { path } => Request::ReadFile { path: path.clone() },
            Request::OpenTransfer { url, destination, byte_limit } => Request::OpenTransfer {
                url: url.clone(),
                destination: destination.clone(),
                byte_limit: *byte_limit,
            },
            Request::CopyTransfer => Request::CopyTransfer,
            Request::Notify { message } => Request::Notify { message: message.clone() },
        }
    }
}

/// What the host reports after carrying a request out.
#[derive(Clone, Debug, PartialEq, Eq)]
pub enum Reply {
    /// The command ran and exited. `code` is absent when a signal ended it.
    Exited { code: Option<i32>, stdout: Vec<u8>, stderr: Vec<u8> },
    /// Whether the probed path exists.
    Exists { present: bool },
    /// The text of the file that was read.
    Contents { text: String },
    /// The request was carried out and there is nothing to report.
    Done,
    /// The host could not carry the request out.
    Failed { message: String },
}

/// The text of a [`Reply`].
pub enum ReplyView {
    Exited { code: Option<i32>, stdout: Seq<u8>, stderr: Seq<u8> },
    Exists { present: bool },
    Contents { text: Seq<char> },
    Done,
    Failed { message: Seq<char> },
}

impl View for Reply {
    type V = ReplyView;

    open spec fn view(&self) -> ReplyView {
        match self {
            Reply::Exited { code, stdout, stderr } => ReplyView::Exited {
                code: *code,
                stdout: stdout@,
                stderr: stderr@,
            },
            Reply::Exists { present } => ReplyView::Exists { present: *present },
            Reply::Contents { text } => ReplyView::Contents { text: text@ },
            Reply::Done => ReplyView::Done,
            Reply::Failed { message } => ReplyView::Failed { message: message@ },
        }
    }
}

/// A command that ran and did not exit with code 0.
#[derive(Clone, Debug, PartialEq, Eq)]
pub struct ExternalCommandError {
    pub program: String,
    pub arguments: Vec<String>,
    pub exit_code: Option<i32>,
    pub stderr: Vec<u8>,
}

/// The text of an [`ExternalCommandError`].
pub struct ExternalCommandErrorView {
    pub program: Seq<char>,
    pub arguments: Seq<Seq<char>>,
    pub exit_code: Option<i32>,
    pub stderr: Seq<u8>,
}

impl View for ExternalCommandError {
    type V = ExternalCommandErrorView;

    open spec fn view(&self) -> ExternalCommandErrorView {
        ExternalCommandErrorView {
            program: self.program@,
            arguments: self.arguments.deep_view(),
            exit_code: self.exit_code,
            stderr: self.stderr@,
        }
    }
}

/// A path that did not appear within the polling budget.
#[derive(Clone, Debug, PartialEq, Eq)]
pub struct ResourceNotReadyError {
    pub path: String,
}

/// The root cause of a failed step.
#[derive(Clone, Debug, PartialEq, Eq)]
pub enum Fault {
    /// A command exited with a code other than 0.
    Command { error: ExternalCommandError },
    /// A resource did not become ready in time.
    NotReady { resource: ResourceNotReadyError },
    /// The host could not carry a request out.
    Host { message: String },
    /// Captured output that had to be read was not UTF-8.
    Undecodable,
    /// The reply was of a kind that does not answer the request.
    Unexpected,
}

/// The text of a [`Fault`].
pub enum FaultView {
    Command { error: ExternalCommandErrorView },
    NotReady { path: Seq<char> },
    Host { message: Seq<char> },
    Undecodable,
    Unexpected,
}

impl View for Fault {
    type V = FaultView;

    open spec fn view(&self) -> FaultView {
        match self {
            Fault::Command { error } => FaultView::Command { error: error@ },
            Fault::NotReady { resource } => FaultView::NotReady { path: resource.path@ },
            Fault::Host { message } => FaultView::Host { message: message@ },
            Fault::Undecodable => FaultView::Undecodable,
            Fault::Unexpected => FaultView::Unexpected,
        }
    }
}

impl FaultView {
    /// The fault as a line for the user. For a command that failed it is
    /// what the command wrote to its standard error.
    pub open spec fn message(self) -> Seq<char> {
        match self {
            FaultView::Command { error } => if valid_utf8(error.stderr) {
                decode_utf8(error.stderr)
            } else {
                error.program + ": failed, and what it printed is not UTF-8"@
            },
            FaultView::NotReady { path } => path + ": not ready in time"@,
            FaultView::Host { message } => message,
            FaultView::Undecodable => "output is not UTF-8"@,
            FaultView::Unexpected => "the reply does not answer the request"@,
        }
    }
}

impl Fault {
    /// The fault as a line for the user.
    pub fn message(&self) -> (line: String)
        ensures
            line@ == self@.message(),
    {
        match self {
            Fault::Command { error } => match decode(copy_bytes(&error.stderr)) {
                Some(text) => text,
                None => chain(
                    error.program.as_str(),
                    ": failed, and what it printed is not UTF-8",
                ),
            },
            Fault::NotReady { resource } => chain(resource.path.as_str(), ": not ready in time"),
            Fault::Host { message } => message.clone(),
            Fault::Undecodable => String::from_str("output is not UTF-8"),
            Fault::Unexpected => String::from_str("the reply does not answer the request"),
        }
    }
}

impl DeepView for Fault {
    type V = FaultView;

    open spec fn deep_view(&self) -> FaultView {
        self@
    }
}

/// The view of a fault that may be absent.
pub open spec fn fault_view(fault: Option<Fault>) -> Option<FaultView> {
    match fault {
        Some(fault) => Some(fault@),
        None => None,
    }
}

/// What a successful reply carries.
#[derive(Clone, Debug, PartialEq, Eq)]
pub enum Payload {
    /// Nothing but the fact of success.
    Nothing,
    /// The standard output of a command that exited with code 0.
    Output { stdout: Vec<u8> },
    /// Whether a probed path exists.
    Presence { present: bool },
    /// The text of a file.
    Text { text: String },
}

/// The text of a [`Payload`].
pub enum PayloadView {
    Nothing,
    Output { stdout: Seq<u8> },
    Presence { present: bool },
    Text { text: Seq<char> },
}

impl View for Payload {
    type V = PayloadView;

    open spec fn view(&self) -> PayloadView {
        match self {
            Payload::Nothing => PayloadView::Nothing,
            Payload::Output { stdout } => PayloadView::Output { stdout: stdout@ },
            Payload::Presence { present } => PayloadView::Presence { present: *present },
            Payload::Text { text } => PayloadView::Text { text: text@ },
        }
    }
}

/// What a reply means for the request it answers.
///
/// A reply of `Failed` is a host fault whatever was asked. A command
/// succeeds exactly when it exited with code 0, and then yields its
/// standard output; any other exit is an [`ExternalCommandError`] that
/// names the program, its arguments, the code and the captured standard
/// error. A probe yields the presence it reports, a read yields the text,
/// and every other request succeeds on `Done`. A reply of the wrong kind is
/// `Unexpected`.
pub open spec fn judgement_of(request: RequestView, reply: ReplyView) -> Result<
    PayloadView,
    FaultView,
> {
    match reply {
        ReplyView::Failed { message } => Err(FaultView::Host { message }),
        ReplyView::Exited { code, stdout, stderr } => match request {
            RequestView::Run { command } => if code == Some(0i32) {
                Ok(PayloadView::Output { stdout })
            } else {
                Err(
                    FaultView::Command {
                        error: ExternalCommandErrorView {
                            program: command.program,
                            arguments: command.args,
                            exit_code: code,
                            stderr,
                        },
                    },
                )
            },
            _ => Err(FaultView::Unexpected),
        },
        ReplyView::Exists { present } => match request {
            RequestView::Probe { .. } => Ok(PayloadView::Presence { present }),
            _ => Err(FaultView::Unexpected),
        },
        ReplyView::Contents { text } => match request {
            RequestView::ReadFile { .. } => Ok(PayloadView::Text { text }),
            _ => Err(FaultView::Unexpected),
        },
        ReplyView::Done => match request {
            RequestView::Run { .. } | RequestView::Probe { .. } | RequestView::ReadFile { .. } => Err(
                FaultView::Unexpected,
            ),
            _ => Ok(PayloadView::Nothing),
        },
    }
}

/// The view of a judged reply: of its payload, or of its fault.
pub open spec fn judgement_view(judgement: Result<Payload, Fault>) -> Result<PayloadView, FaultView> {
    match judgement {
        Ok(payload) => Ok(payload@),
        Err(fault) => Err(fault@),
    }
}

/// The view of a request that may be absent.
pub open spec fn request_view(request: Option<Request>) -> Option<RequestView> {
    match request {
        Some(request) => Some(request@),
        None => None,
    }
}

/// Whether `outcome` is what the model says of a pipeline that yields
/// nothing but success or a fault, and that may not have finished.
pub open spec fn outcome_is(
    outcome: Option<Result<(), Fault>>,
    model: Option<Result<(), FaultView>>,
) -> bool {
    match model {
        Some(Ok(_)) => outcome == Some(Ok::<(), Fault>(())),
        Some(Err(fault)) => outcome matches Some(Err(found)) && found@ == fault,
        None => outcome is None,
    }
}

/// Whether `result` is what the model says of a pipeline whose error wraps
/// a fault, and that may not have finished; `cause` picks the fault out of
/// the error.
pub open spec fn result_is<E>(
    result: Option<Result<(), E>>,
    cause: spec_fn(E) -> FaultView,
    model: Option<Result<(), FaultView>>,
) -> bool {
    match model {
        Some(Ok(_)) => result == Some(Ok::<(), E>(())),
        Some(Err(fault)) => result matches Some(Err(error)) && cause(error) == fault,
        None => result is None,
    }
}

/// Judges the host's reply to a request.
pub fn judge(request: &Request, reply: Reply) -> (result: Result<Payload, Fault>)
    ensures
        judgement_view(result) == judgement_of(request@, reply@),
{
    match reply {
        Reply::Failed { message } => Err(Fault::Host { message }),
        Reply::Exited { code, stdout, stderr } => match request {
            Request::Run { command } => {
                let succeeded = match code {
                    Some(c) => c == 0,
                    None => false,
                };
                if succeeded {
                    Ok(Payload::Output { stdout })
                } else {
                    Err(
                        Fault::Command {
                            error: ExternalCommandError {
                                program: command.program.clone(),
                                arguments: copy_strings(&command.args),
                                exit_code: code,
                                stderr,
                            },
                        },
                    )
                }
            },
            _ => Err(Fault::Unexpected),
        },
        Reply::Exists { present } => match request {
            Request::Probe { .. } => Ok(Payload::Presence { present }),
            _ => Err(Fault::Unexpected),
        },
        Reply::Contents { text } => match request {
            Request::ReadFile { .. } => Ok(Payload::Text { text }),
            _ => Err(Fault::Unexpected),
        },
        Reply::Done => match request {
            Request::Run { .. } | Request::Probe { .. } | Request::ReadFile { .. } => Err(
                Fault::Unexpected,
            ),
            _ => Ok(Payload::Nothing),
        },
    }
}

} // verus!
