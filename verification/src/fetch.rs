//! Fetching a cloud image: export it from the cloud, download it, clean up.

use vstd::prelude::*;
use vstd::string::*;
use vstd::utf8::{decode_utf8, valid_utf8};
use crate::host::{
    CommandLine, CommandLineView, Fault, FaultView, judge, judgement_of, judgement_view,
    Payload, PayloadView, Reply, ReplyView, Request, request_view, RequestView, result_is,
};
use crate::retry::RetryBudget;
use crate::text::{chain3, decode, Strip, trim, trimmed};

verus! {

/// The most bytes that are copied from one download: 4 GiB.
pub const BYTE_LIMIT: u64 = 4294967296;

/// The most times that the copy of a download is attempted.
pub const COPY_ATTEMPTS: u32 = 10;

/// What to fetch, and where to.
#[derive(Clone, Debug, PartialEq, Eq)]
pub struct ImageSource {
    /// The release of the distribution, such as `jammy`.
    pub suite: String,
    /// The file to download the image to.
    pub destination: String,
    /// Whether to fetch even where the destination exists.
    pub force: bool,
    /// The cloud resource group that holds the disk while it is exported.
    pub group_name: String,
    /// The name of the disk that is exported.
    pub disk_name: String,
    /// The cloud region in which the group is created.
    pub location: String,
}

/// The text of an [`ImageSource`].
pub struct ImageSourceView {
    pub suite: Seq<char>,
    pub destination: Seq<char>,
    pub force: bool,
    pub group_name: Seq<char>,
    pub disk_name: Seq<char>,
    pub location: Seq<char>,
}

impl View for ImageSource {
    type V = ImageSourceView;

    open spec fn view(&self) -> ImageSourceView {
        ImageSourceView {
            suite: self.suite@,
            destination: self.destination@,
            force: self.force,
            group_name: self.group_name@,
            disk_name: self.disk_name@,
            location: self.location@,
        }
    }
}

/// The address in the output of the export command: the output without
/// the white space around it, and then without the quotation marks around
/// that.
pub open spec fn access_url(output: Seq<char>) -> Seq<char> {
    trimmed(trimmed(output, Strip::WhiteSpace), Strip::Exactly { unwanted: '"' })
}

impl ImageSourceView {
    /// The source with the names that the command-line tool uses in the
    /// cloud.
    pub open spec fn with_fixed_names(
        suite: Seq<char>,
        destination: Seq<char>,
        force: bool,
    ) -> ImageSourceView {
        ImageSourceView {
            suite,
            destination,
            force,
            group_name: "cvm-tools-rg4"@,
            disk_name: "cvm-tools-disk"@,
            location: "northeurope"@,
        }
    }

    /// The name under which the cloud offers the image of the suite.
    pub open spec fn image_reference(self) -> Seq<char> {
        "Canonical:0001-com-ubuntu-confidential-vm-"@ + self.suite + ":22_04-lts-cvm:latest"@
    }

    /// Creates the resource group.
    pub open spec fn create_group_command(self) -> CommandLineView {
        CommandLineView {
            program: "az"@,
            args: seq![
                "group"@,
                "create"@,
                "--location"@,
                self.location,
                "--resource-group"@,
                self.group_name,
            ],
        }
    }

    /// Creates the disk from the image.
    pub open spec fn create_disk_command(self) -> CommandLineView {
        CommandLineView {
            program: "az"@,
            args: seq![
                "disk"@,
                "create"@,
                "--resource-group"@,
                self.group_name,
                "--name"@,
                self.disk_name,
                "--hyper-v-generation"@,
                "V2"@,
                "--image-reference"@,
                self.image_reference(),
            ],
        }
    }

    /// Asks for an address from which the disk can be read for a day, and
    /// prints it.
    pub open spec fn export_disk_command(self) -> CommandLineView {
        CommandLineView {
            program: "az"@,
            args: seq![
                "disk"@,
                "grant-access"@,
                "--resource-group"@,
                self.group_name,
                "--name"@,
                self.disk_name,
                "--duration"@,
                "86400"@,
                "--query"@,
                "accessSas"@,
            ],
        }
    }

    /// Deletes the resource group, without waiting and without asking.
    pub open spec fn delete_group_command(self) -> CommandLineView {
        CommandLineView {
            program: "az"@,
            args: seq![
                "group"@,
                "delete"@,
                "--resource-group"@,
                self.group_name,
                "--no-wait"@,
                "--yes"@,
            ],
        }
    }
}

impl ImageSource {
    /// The source with the names that the command-line tool uses in the
    /// cloud.
    pub fn with_fixed_names(suite: &str, destination: &str, force: bool) -> (source: ImageSource)
        ensures
            source@ == ImageSourceView::with_fixed_names(suite@, destination@, force),
    {
        ImageSource {
            suite: String::from_str(suite),
            destination: String::from_str(destination),
            force,
            group_name: String::from_str("cvm-tools-rg4"),
            disk_name: String::from_str("cvm-tools-disk"),
            location: String::from_str("northeurope"),
        }
    }

    /// An independent copy of this source.
    pub fn duplicate(&self) -> (copy: ImageSource)
        ensures
            copy@ == self@,
    {
        ImageSource {
            suite: self.suite.clone(),
            destination: self.destination.clone(),
            force: self.force,
            group_name: self.group_name.clone(),
            disk_name: self.disk_name.clone(),
            location: self.location.clone(),
        }
    }

    /// The name under which the cloud offers the image of the suite.
    pub fn image_reference(&self) -> (reference: String)
        ensures
            reference@ == self@.image_reference(),
    {
        chain3(
            "Canonical:0001-com-ubuntu-confidential-vm-",
            self.suite.as_str(),
            ":22_04-lts-cvm:latest",
        )
    }

    /// Creates the resource group.
    pub fn create_group_command(&self) -> (command: CommandLine)
        ensures
            command@ == self@.create_group_command(),
    {
        let command = CommandLine::new("az").arg("group").arg("create").arg("--location").arg(
            self.location.as_str(),
        ).arg("--resource-group").arg(self.group_name.as_str());
        assert(command@.args =~= self@.create_group_command().args);
        command
    }

    /// Creates the disk from the image.
    pub fn create_disk_command(&self) -> (command: CommandLine)
        ensures
            command@ == self@.create_disk_command(),
    {
        let command = CommandLine::new("az").arg("disk").arg("create").arg("--resource-group").arg(
            self.group_name.as_str(),
        ).arg("--name").arg(self.disk_name.as_str()).arg("--hyper-v-generation").arg("V2").arg(
            "--image-reference",
        ).arg_owned(self.image_reference());
        assert(command@.args =~= self@.create_disk_command().args);
        command
    }

    /// Asks for an address from which the disk can be read for a day.
    pub fn export_disk_command(&self) -> (command: CommandLine)
        ensures
            command@ == self@.export_disk_command(),
    {
        let command = CommandLine::new("az").arg("disk").arg("grant-access").arg(
            "--resource-group",
        ).arg(self.group_name.as_str()).arg("--name").arg(self.disk_name.as_str()).arg(
            "--duration",
        ).arg("86400").arg("--query").arg("accessSas");
        assert(command@.args =~= self@.export_disk_command().args);
        command
    }

    /// Deletes the resource group.
    pub fn delete_group_command(&self) -> (command: CommandLine)
        ensures
            command@ == self@.delete_group_command(),
    {
        let command = CommandLine::new("az").arg("group").arg("delete").arg("--resource-group").arg(
            self.group_name.as_str(),
        ).arg("--no-wait").arg("--yes");
        assert(command@.args =~= self@.delete_group_command().args);
        command
    }
}

/// The address in the output of the export command.
pub fn parse_access_url(output: &str) -> (url: String)
    ensures
        url@ == access_url(output@),
{
    let bare = trim(output, Strip::WhiteSpace);
    trim(bare.as_str(), Strip::Exactly { unwanted: '"' })
}

/// Where a fetch stands.
#[derive(Clone, Debug, PartialEq, Eq)]
pub enum FetchState {
    /// See whether the destination is there already.
    CheckExisting,
    /// Create the resource group.
    CreateGroup,
    /// Create the disk.
    CreateDisk,
    /// Export the disk.
    ExportDisk,
    /// Tell the user that the download starts.
    Announce { url: String },
    /// Create the destination and open the address.
    OpenTransfer { url: String },
    /// Copy the download into the destination.
    CopyTransfer,
    /// Delete the resource group.
    DeleteGroup,
    /// The fetch is complete.
    Fetched,
    /// The fetch failed.
    Failed { fault: Fault },
}

/// The text of a [`FetchState`].
pub enum FetchStateView {
    CheckExisting,
    CreateGroup,
    CreateDisk,
    ExportDisk,
    Announce { url: Seq<char> },
    OpenTransfer { url: Seq<char> },
    CopyTransfer,
    DeleteGroup,
    Fetched,
    Failed { fault: FaultView },
}

impl View for FetchState {
    type V = FetchStateView;

    open spec fn view(&self) -> FetchStateView {
        match self {
            FetchState::CheckExisting => FetchStateView::CheckExisting,
            FetchState::CreateGroup => FetchStateView::CreateGroup,
            FetchState::CreateDisk => FetchStateView::CreateDisk,
            FetchState::ExportDisk => FetchStateView::ExportDisk,
            FetchState::Announce { url } => FetchStateView::Announce { url: url@ },
            FetchState::OpenTransfer { url } => FetchStateView::OpenTransfer { url: url@ },
            FetchState::CopyTransfer => FetchStateView::CopyTransfer,
            FetchState::DeleteGroup => FetchStateView::DeleteGroup,
            FetchState::Fetched => FetchStateView::Fetched,
            FetchState::Failed { fault } => FetchStateView::Failed { fault: fault@ },
        }
    }
}

/// A fetch that failed.
#[derive(Clone, Debug, PartialEq, Eq)]
pub struct FetchError {
    pub cause: Fault,
}

/// A fetch in progress.
#[derive(Clone, Debug, PartialEq, Eq)]
pub struct Fetch {
    source: ImageSource,
    state: FetchState,
    attempts: RetryBudget,
}

/// The mathematical model of a [`Fetch`].
pub struct FetchView {
    pub source: ImageSourceView,
    pub state: FetchStateView,
    /// The number of copies of the download that have been asked for.
    pub copies: nat,
    /// The number of copies that may be asked for in all.
    pub copy_limit: nat,
}

impl FetchView {
    /// The fetch that has asked for nothing yet. Unless it is forced it
    /// starts by looking for the destination.
    pub open spec fn fresh(source: ImageSourceView) -> FetchView {
        FetchView {
            source,
            state: if source.force {
                FetchStateView::CreateGroup
            } else {
                FetchStateView::CheckExisting
            },
            copies: 0,
            copy_limit: COPY_ATTEMPTS as nat,
        }
    }

    /// The fetch with one more copy on its count, if one more is allowed.
    pub open spec fn counted(self) -> FetchView {
        if self.copies < self.copy_limit {
            FetchView { copies: self.copies + 1, ..self }
        } else {
            self
        }
    }

    /// What the fetch asks of the host next, if anything.
    pub open spec fn request(self) -> Option<RequestView> {
        match self.state {
            FetchStateView::CheckExisting => Some(
                RequestView::Probe { path: self.source.destination },
            ),
            FetchStateView::CreateGroup => Some(
                RequestView::Run { command: self.source.create_group_command() },
            ),
            FetchStateView::CreateDisk => Some(
                RequestView::Run { command: self.source.create_disk_command() },
            ),
            FetchStateView::ExportDisk => Some(
                RequestView::Run { command: self.source.export_disk_command() },
            ),
            FetchStateView::Announce { .. } => Some(
                RequestView::Notify { message: "downloading disk, may take a while..."@ },
            ),
            FetchStateView::OpenTransfer { url } => Some(
                RequestView::OpenTransfer {
                    url,
                    destination: self.source.destination,
                    byte_limit: BYTE_LIMIT,
                },
            ),
            FetchStateView::CopyTransfer => Some(RequestView::CopyTransfer),
            FetchStateView::DeleteGroup => Some(
                RequestView::Run { command: self.source.delete_group_command() },
            ),
            FetchStateView::Fetched => None,
            FetchStateView::Failed { .. } => None,
        }
    }

    /// How the fetch ended, if it has.
    pub open spec fn outcome(self) -> Option<Result<(), FaultView>> {
        match self.state {
            FetchStateView::Fetched => Some(Ok(())),
            FetchStateView::Failed { fault } => Some(Err(fault)),
            _ => None,
        }
    }

    /// The fetch in the given state.
    pub open spec fn at(self, state: FetchStateView) -> FetchView {
        FetchView { state, ..self }
    }

    /// The fetch once the pending request has been judged.
    ///
    /// A destination that is there ends the fetch in success at once. The
    /// output of the export must be UTF-8, and the address is read from
    /// it. A copy that fails is asked for again until as many copies have
    /// been asked for as are allowed; after the last the fetch goes on as
    /// it does after a copy that succeeded. Every other fault ends the
    /// fetch.
    pub open spec fn advance(self, judgement: Result<PayloadView, FaultView>) -> FetchView {
        match self.state {
            FetchStateView::Fetched => self,
            FetchStateView::Failed { .. } => self,
            FetchStateView::CopyTransfer => match judgement {
                Ok(_) => self.at(FetchStateView::DeleteGroup),
                Err(_) => if self.copies < self.copy_limit {
                    self.counted()
                } else {
                    self.at(FetchStateView::DeleteGroup)
                },
            },
            _ => match judgement {
                Err(fault) => self.at(FetchStateView::Failed { fault }),
                Ok(payload) => match self.state {
                    FetchStateView::CheckExisting => match payload {
                        PayloadView::Presence { present } => if present {
                            self.at(FetchStateView::Fetched)
                        } else {
                            self.at(FetchStateView::CreateGroup)
                        },
                        _ => self.at(FetchStateView::Failed { fault: FaultView::Unexpected }),
                    },
                    FetchStateView::CreateGroup => self.at(FetchStateView::CreateDisk),
                    FetchStateView::CreateDisk => self.at(FetchStateView::ExportDisk),
                    FetchStateView::ExportDisk => match payload {
                        PayloadView::Output { stdout } => if valid_utf8(stdout) {
                            self.at(
                                FetchStateView::Announce { url: access_url(decode_utf8(stdout)) },
                            )
                        } else {
                            self.at(FetchStateView::Failed { fault: FaultView::Undecodable })
                        },
                        _ => self.at(FetchStateView::Failed { fault: FaultView::Unexpected }),
                    },
                    FetchStateView::Announce { url } => self.at(
                        FetchStateView::OpenTransfer { url },
                    ),
                    FetchStateView::OpenTransfer { .. } => self.counted().at(
                        FetchStateView::CopyTransfer,
                    ),
                    FetchStateView::DeleteGroup => self.at(FetchStateView::Fetched),
                    _ => self,
                },
            },
        }
    }

    /// The fetch after the host's reply to the pending request. A reply
    /// that arrives when nothing is pending changes nothing.
    pub open spec fn after(self, reply: ReplyView) -> FetchView {
        match self.request() {
            Some(request) => self.advance(judgement_of(request, reply)),
            None => self,
        }
    }
}

impl View for Fetch {
    type V = FetchView;

    closed spec fn view(&self) -> FetchView {
        FetchView {
            source: self.source@,
            state: self.state@,
            copies: self.attempts.spec_used(),
            copy_limit: self.attempts.spec_limit(),
        }
    }
}

impl Fetch {
    /// A fetch from `source` that has asked for nothing yet.
    pub fn new(source: ImageSource) -> (fetch: Fetch)
        ensures
            fetch@ == FetchView::fresh(source@),
    {
        let state = if source.force {
            FetchState::CreateGroup
        } else {
            FetchState::CheckExisting
        };
        Fetch { source, state, attempts: RetryBudget::new(COPY_ATTEMPTS) }
    }

    /// The number of copies of the download that have been asked for.
    pub fn copies(&self) -> (n: u32)
        ensures
            n == self@.copies,
    {
        self.attempts.used()
    }

    /// What to ask of the host next, if anything.
    pub fn request(&self) -> (request: Option<Request>)
        ensures
            request_view(request) == self@.request(),
    {
        match &self.state {
            FetchState::CheckExisting => Some(
                Request::Probe { path: self.source.destination.clone() },
            ),
            FetchState::CreateGroup => Some(
                Request::Run { command: self.source.create_group_command() },
            ),
            FetchState::CreateDisk => Some(
                Request::Run { command: self.source.create_disk_command() },
            ),
            FetchState::ExportDisk => Some(
                Request::Run { command: self.source.export_disk_command() },
            ),
            FetchState::Announce { .. } => Some(
                Request::Notify {
                    message: String::from_str("downloading disk, may take a while..."),
                },
            ),
            FetchState::OpenTransfer { url } => Some(
                Request::OpenTransfer {
                    url: url.clone(),
                    destination: self.source.destination.clone(),
                    byte_limit: BYTE_LIMIT,
                },
            ),
            FetchState::CopyTransfer => Some(Request::CopyTransfer),
            FetchState::DeleteGroup => Some(
                Request::Run { command: self.source.delete_group_command() },
            ),
            FetchState::Fetched => None,
            FetchState::Failed { .. } => None,
        }
    }

    /// Whether the fetch has ended.
    pub fn is_finished(&self) -> (finished: bool)
        ensures
            finished == self@.outcome().is_some(),
    {
        match &self.state {
            FetchState::Fetched => true,
            FetchState::Failed { .. } => true,
            _ => false,
        }
    }

    /// Takes in the host's reply to the pending request.
    pub fn feed(&mut self, reply: Reply)
        ensures
            final(self)@ == old(self)@.after(reply@),
    {
        match self.request() {
            Some(request) => {
                let judged = judge(&request, reply);
                self.advance(judged);
            },
            None => {},
        }
    }

    fn advance(&mut self, judged: Result<Payload, Fault>)
        ensures
            final(self)@ == old(self)@.advance(judgement_view(judged)),
    {
        match &self.state {
            FetchState::Fetched => {},
            FetchState::Failed { .. } => {},
            FetchState::CopyTransfer => match judged {
                Ok(_) => {
                    self.state = FetchState::DeleteGroup;
                },
                Err(_) => {
                    if !self.attempts.spend() {
                        self.state = FetchState::DeleteGroup;
                    }
                },
            },
            _ => match judged {
                Err(fault) => {
                    self.state = FetchState::Failed { fault };
                },
                Ok(payload) => {
                    let next = match &self.state {
                        FetchState::CheckExisting => match payload {
                            Payload::Presence { present } => if present {
                                FetchState::Fetched
                            } else {
                                FetchState::CreateGroup
                            },
                            _ => FetchState::Failed { fault: Fault::Unexpected },
                        },
                        FetchState::CreateGroup => FetchState::CreateDisk,
                        FetchState::CreateDisk => FetchState::ExportDisk,
                        FetchState::ExportDisk => match payload {
                            Payload::Output { stdout } => match decode(stdout) {
                                Some(text) => FetchState::Announce {
                                    url: parse_access_url(text.as_str()),
                                },
                                None => FetchState::Failed { fault: Fault::Undecodable },
                            },
                            _ => FetchState::Failed { fault: Fault::Unexpected },
                        },
                        FetchState::Announce { url } => FetchState::OpenTransfer {
                            url: url.clone(),
                        },
                        FetchState::OpenTransfer { .. } => {
                            let _ = self.attempts.spend();
                            FetchState::CopyTransfer
                        },
                        _ => FetchState::Fetched,
                    };
                    self.state = next;
                },
            },
        }
    }

    /// How the fetch ended, if it has.
    pub fn into_result(self) -> (result: Option<Result<(), FetchError>>)
        ensures
            result_is(result, |e: FetchError| e.cause@, self@.outcome()),
    {
        match self.state {
            FetchState::Fetched => Some(Ok(())),
            FetchState::Failed { fault } => Some(Err(FetchError { cause: fault })),
            _ => None,
        }
    }
}

/// A fetch that is not forced and finds its destination in place does
/// nothing: it looks for the destination, and that is all it asks before
/// it ends in success. A forced fetch does not look.
pub proof fn lemma_fetch_skips_existing(source: ImageSourceView)
    ensures
        !source.force ==> {
            let fetch = FetchView::fresh(source);
            &&& fetch.request() == Some(RequestView::Probe { path: source.destination })
            &&& fetch.after(ReplyView::Exists { present: true }).request() is None
            &&& fetch.after(ReplyView::Exists { present: true }).outcome() == Some(
                Ok::<(), FaultView>(()),
            )
        },
        source.force ==> FetchView::fresh(source).request() == Some(
            RequestView::Run { command: source.create_group_command() },
        ),
{
}

/// The copy of a download is asked for at most `COPY_ATTEMPTS` times: the
/// first copy counts as one, every copy that fails is asked for again and
/// counts as one more, and after the last one that is allowed the fetch
/// moves on to the clean-up, as it does after a copy that succeeded.
pub proof fn lemma_copy_is_bounded(fetch: FetchView, opened: ReplyView, reply: ReplyView)
    requires
        fetch.copy_limit == COPY_ATTEMPTS,
        fetch.copies <= fetch.copy_limit,
    ensures
        fetch.after(reply).copy_limit == COPY_ATTEMPTS,
        fetch.after(reply).copies <= COPY_ATTEMPTS,
        fetch.state is OpenTransfer && fetch.copies == 0 && fetch.after(opened).state
            is CopyTransfer ==> fetch.after(opened).copies == 1,
        fetch.state is CopyTransfer ==> ({
            let next = fetch.after(reply);
            let failed = judgement_of(RequestView::CopyTransfer, reply) is Err;
            if failed && fetch.copies < COPY_ATTEMPTS {
                &&& next.state is CopyTransfer
                &&& next.copies == fetch.copies + 1
            } else {
                &&& next.state is DeleteGroup
                &&& next.copies == fetch.copies
            }
        }),
        !(fetch.state is CopyTransfer) && !(fetch.state is OpenTransfer) ==> fetch.after(
            reply,
        ).copies == fetch.copies,
{
}

/// A fetch asks for something exactly as long as it has not ended.
pub proof fn lemma_fetch_asks_until_done(fetch: FetchView)
    ensures
        fetch.request() is None <==> fetch.outcome() is Some,
{
}

} // verus!
