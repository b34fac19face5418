//! The commands of the tool, and the programs that each of them needs.

use vstd::prelude::*;
use vstd::string::*;
use crate::host::{
    CommandLine, CommandLineView, Fault, FaultView, judge, judgement_of, PayloadView, Reply,
    ReplyView, Request, request_view, RequestView,
};
use crate::text::chain;

verus! {

/// One command of the tool.
#[derive(Clone, Debug, PartialEq, Eq)]
pub enum Invocation {
    /// Download the image of a suite.
    ImageDownload { suite: String },
    /// Customize an image.
    ImageCustomize { image: String },
    /// Start the TPM emulator.
    TpmStart,
    /// Set up the TPM: start the emulator, generate the key, stop it.
    TpmSetup,
    /// Stop the TPM emulator.
    TpmKill,
    /// Remove the state of the TPM.
    TpmDestroy,
    /// Say what state the TPM emulator is in.
    TpmStatus,
    /// Start the virtual machine on an image.
    VmStart { image: String },
    /// Stop the virtual machine.
    VmKill,
}

/// The text of an [`Invocation`].
pub enum InvocationView {
    ImageDownload { suite: Seq<char> },
    ImageCustomize { image: Seq<char> },
    TpmStart,
    TpmSetup,
    TpmKill,
    TpmDestroy,
    TpmStatus,
    VmStart { image: Seq<char> },
    VmKill,
}

impl View for Invocation {
    type V = InvocationView;

    open spec fn view(&self) -> InvocationView {
        match self {
            Invocation::ImageDownload { suite } => InvocationView::ImageDownload { suite: suite@ },
            Invocation::ImageCustomize { image } => InvocationView::ImageCustomize {
                image: image@,
            },
            Invocation::TpmStart => InvocationView::TpmStart,
            Invocation::TpmSetup => InvocationView::TpmSetup,
            Invocation::TpmKill => InvocationView::TpmKill,
            Invocation::TpmDestroy => InvocationView::TpmDestroy,
            Invocation::TpmStatus => InvocationView::TpmStatus,
            Invocation::VmStart { image } => InvocationView::VmStart { image: image@ },
            Invocation::VmKill => InvocationView::VmKill,
        }
    }
}

/// The file that the image of a suite is downloaded to.
pub open spec fn image_file_of(suite: Seq<char>) -> Seq<char> {
    suite + ".img"@
}

/// The file that the image of a suite is downloaded to.
pub fn image_file(suite: &str) -> (file: String)
    ensures
        file@ == image_file_of(suite@),
{
    chain(suite, ".img")
}

impl InvocationView {
    /// The programs that must be installed for the command to run.
    pub open spec fn required_tools(self) -> Seq<Seq<char>> {
        match self {
            InvocationView::ImageDownload { .. } => seq!["az"@],
            InvocationView::ImageCustomize { .. } => seq!["qemu-nbd"@],
            InvocationView::TpmStart => seq!["swtpm"@],
            InvocationView::TpmSetup => seq!["swtpm"@, "tpm2"@],
            InvocationView::VmStart { .. } => seq!["qemu-system-x86_64"@, "cloud-localds"@],
            _ => Seq::empty(),
        }
    }
}

impl Invocation {
    /// The programs that must be installed for the command to run.
    pub fn required_tools(&self) -> (tools: Vec<String>)
        ensures
            tools.deep_view() == self@.required_tools(),
    {
        let mut tools: Vec<String> = Vec::new();
        match self {
            Invocation::ImageDownload { .. } => {
                tools.push(String::from_str("az"));
            },
            Invocation::ImageCustomize { .. } => {
                tools.push(String::from_str("qemu-nbd"));
            },
            Invocation::TpmStart => {
                tools.push(String::from_str("swtpm"));
            },
            Invocation::TpmSetup => {
                tools.push(String::from_str("swtpm"));
                tools.push(String::from_str("tpm2"));
            },
            Invocation::VmStart { .. } => {
                tools.push(String::from_str("qemu-system-x86_64"));
                tools.push(String::from_str("cloud-localds"));
            },
            _ => {},
        }
        assert(tools.deep_view() =~= self@.required_tools());
        tools
    }
}

/// Why a check of the required programs failed.
#[derive(Clone, Debug, PartialEq, Eq)]
pub enum DependencyError {
    /// The program is not installed.
    Missing { tool: String },
    /// The look for a program could not be carried out.
    Unchecked { cause: Fault },
}

/// The text of a [`DependencyError`].
pub enum DependencyErrorView {
    Missing { tool: Seq<char> },
    Unchecked { cause: FaultView },
}

impl View for DependencyError {
    type V = DependencyErrorView;

    open spec fn view(&self) -> DependencyErrorView {
        match self {
            DependencyError::Missing { tool } => DependencyErrorView::Missing { tool: tool@ },
            DependencyError::Unchecked { cause } => DependencyErrorView::Unchecked {
                cause: cause@,
            },
        }
    }
}

/// Looks `tool` up on the search path.
pub open spec fn which_command(tool: Seq<char>) -> CommandLineView {
    CommandLineView { program: "which"@, args: seq![tool] }
}

/// Looks `tool` up on the search path.
pub fn which_command_for(tool: &str) -> (command: CommandLine)
    ensures
        command@ == which_command(tool@),
{
    let command = CommandLine::new("which").arg(tool);
    assert(command@.args =~= which_command(tool@).args);
    command
}

/// A check, in progress, that each of a list of programs is installed. The
/// programs are looked up in order and the first that is missing ends the
/// check.
#[derive(Clone, Debug, PartialEq, Eq)]
pub struct DependencyCheck {
    tools: Vec<String>,
    cursor: usize,
    failure: Option<DependencyError>,
}

/// The mathematical model of a [`DependencyCheck`].
pub struct DependencyCheckView {
    pub tools: Seq<Seq<char>>,
    pub cursor: nat,
    pub failure: Option<DependencyErrorView>,
}

impl DependencyCheckView {
    /// The check that has looked nothing up yet.
    pub open spec fn fresh(tools: Seq<Seq<char>>) -> DependencyCheckView {
        DependencyCheckView { tools, cursor: 0, failure: None }
    }

    /// What the check asks of the host next, if anything.
    pub open spec fn request(self) -> Option<RequestView> {
        if self.failure is None && self.cursor < self.tools.len() {
            Some(RequestView::Run { command: which_command(self.tools[self.cursor as int]) })
        } else {
            None
        }
    }

    /// How the check ended, if it has.
    pub open spec fn outcome(self) -> Option<Result<(), DependencyErrorView>> {
        match self.failure {
            Some(error) => Some(Err(error)),
            None => if self.cursor >= self.tools.len() {
                Some(Ok(()))
            } else {
                None
            },
        }
    }

    /// The check once the pending look-up has been judged: a program that
    /// is found leads to the next; a look-up that exits with another code
    /// means that the program is missing; any other fault means that the
    /// look-up could not be made.
    pub open spec fn advance(self, judgement: Result<PayloadView, FaultView>) -> DependencyCheckView {
        if self.request() is None {
            self
        } else {
            match judgement {
                Ok(_) => DependencyCheckView { cursor: self.cursor + 1, ..self },
                Err(FaultView::Command { .. }) => DependencyCheckView {
                    failure: Some(
                        DependencyErrorView::Missing { tool: self.tools[self.cursor as int] },
                    ),
                    ..self
                },
                Err(cause) => DependencyCheckView {
                    failure: Some(DependencyErrorView::Unchecked { cause }),
                    ..self
                },
            }
        }
    }

    /// The check after the host's reply to the pending request. A reply
    /// that arrives when nothing is pending changes nothing.
    pub open spec fn after(self, reply: ReplyView) -> DependencyCheckView {
        match self.request() {
            Some(request) => self.advance(judgement_of(request, reply)),
            None => self,
        }
    }

    /// The check after each of the replies in turn.
    pub open spec fn run(self, replies: Seq<ReplyView>) -> DependencyCheckView
        decreases replies.len(),
    {
        if replies.len() == 0 {
            self
        } else {
            self.run(replies.drop_last()).after(replies.last())
        }
    }

    /// What the reply numbered `index` says of the program numbered
    /// `index`.
    pub open spec fn looked_up(self, replies: Seq<ReplyView>, index: int) -> Result<
        PayloadView,
        FaultView,
    > {
        judgement_of(RequestView::Run { command: which_command(self.tools[index]) }, replies[index])
    }
}

impl View for DependencyCheck {
    type V = DependencyCheckView;

    closed spec fn view(&self) -> DependencyCheckView {
        DependencyCheckView {
            tools: self.tools.deep_view(),
            cursor: self.cursor as nat,
            failure: match self.failure {
                Some(error) => Some(error@),
                None => None,
            },
        }
    }
}

impl DependencyErrorView {
    /// The error as a line for the user.
    pub open spec fn message(self) -> Seq<char> {
        match self {
            DependencyErrorView::Missing { tool } => tool + " not installed"@,
            DependencyErrorView::Unchecked { cause } => cause.message(),
        }
    }
}

impl DependencyError {
    /// The error as a line for the user.
    pub fn message(&self) -> (line: String)
        ensures
            line@ == self@.message(),
    {
        match self {
            DependencyError::Missing { tool } => chain(tool.as_str(), " not installed"),
            DependencyError::Unchecked { cause } => cause.message(),
        }
    }
}

impl DependencyCheck {
    /// A check of `tools` that has looked nothing up yet.
    pub fn new(tools: Vec<String>) -> (check: DependencyCheck)
        ensures
            check@ == DependencyCheckView::fresh(tools.deep_view()),
    {
        DependencyCheck { tools, cursor: 0, failure: None }
    }

    /// What to ask of the host next, if anything.
    pub fn request(&self) -> (request: Option<Request>)
        ensures
            request_view(request) == self@.request(),
    {
        if self.failure.is_none() && self.cursor < self.tools.len() {
            Some(Request::Run { command: which_command_for(self.tools[self.cursor].as_str()) })
        } else {
            None
        }
    }

    /// Takes in the host's reply to the pending request.
    pub fn feed(&mut self, reply: Reply)
        ensures
            final(self)@ == old(self)@.after(reply@),
    {
        if self.failure.is_none() && self.cursor < self.tools.len() {
            let request = Request::Run {
                command: which_command_for(self.tools[self.cursor].as_str()),
            };
            match judge(&request, reply) {
                Ok(_) => {
                    self.cursor = self.cursor + 1;
                },
                Err(Fault::Command { .. }) => {
                    self.failure = Some(
                        DependencyError::Missing { tool: self.tools[self.cursor].clone() },
                    );
                },
                Err(cause) => {
                    self.failure = Some(DependencyError::Unchecked { cause });
                },
            }
        }
    }

    /// How the check ended, if it has.
    pub fn into_result(self) -> (result: Option<Result<(), DependencyError>>)
        ensures
            match self@.outcome() {
                Some(Ok(_)) => result == Some(Ok::<(), DependencyError>(())),
                Some(Err(error)) => result matches Some(Err(found)) && found@ == error,
                None => result is None,
            },
    {
        match self.failure {
            Some(error) => Some(Err(error)),
            None => if self.cursor >= self.tools.len() {
                Some(Ok(()))
            } else {
                None
            },
        }
    }
}

/// The programs are looked up in the order of the list, and the first
/// look-up that does not find its program decides: every program before it
/// was found, the check names that program as missing where the look-up
/// exited with another code than 0 and reports the fault where the look-up
/// could not be made, and no program after it is looked up. Where every
/// look-up finds its program the check succeeds.
pub proof fn lemma_first_missing_is_named(tools: Seq<Seq<char>>, replies: Seq<ReplyView>)
    ensures
        ({
            let start = DependencyCheckView::fresh(tools);
            let end = start.run(replies);
            &&& end.tools == tools
            &&& end.cursor <= replies.len()
            &&& end.cursor <= tools.len()
            &&& forall|i: int| 0 <= i < end.cursor ==> #[trigger] start.looked_up(replies, i) is Ok
            &&& match end.failure {
                Some(DependencyErrorView::Missing { tool }) => {
                    &&& end.cursor < replies.len()
                    &&& tool == tools[end.cursor as int]
                    &&& start.looked_up(replies, end.cursor as int) matches Err(
                        FaultView::Command { .. },
                    )
                },
                Some(DependencyErrorView::Unchecked { cause }) => {
                    &&& end.cursor < replies.len()
                    &&& start.looked_up(replies, end.cursor as int) == Err::<
                        PayloadView,
                        FaultView,
                    >(cause)
                    &&& !(cause is Command)
                },
                None => end.cursor == replies.len() || end.cursor == tools.len(),
            }
            &&& end.outcome() == Some(Ok::<(), DependencyErrorView>(())) <==> end.failure is None
                && end.cursor == tools.len()
        }),
    decreases replies.len(),
{
    if replies.len() > 0 {
        lemma_first_missing_is_named(tools, replies.drop_last());
        let start = DependencyCheckView::fresh(tools);
        let before = start.run(replies.drop_last());
        assert forall|i: int| 0 <= i < before.cursor implies start.looked_up(replies, i)
            == start.looked_up(replies.drop_last(), i) by {}
        if before.failure is Some {
            let at = before.cursor as int;
            assert(start.looked_up(replies, at) == start.looked_up(replies.drop_last(), at));
        }
    }
}

/// A check asks for something exactly as long as it has not ended.
pub proof fn lemma_check_asks_until_done(check: DependencyCheckView)
    ensures
        check.request() is None <==> check.outcome() is Some,
{
}

} // verus!
