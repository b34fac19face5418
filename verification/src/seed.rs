//! Building the cloud-init seed image.

use vstd::prelude::*;
use vstd::string::*;
use crate::host::{
    CommandLine, CommandLineView, Fault, FaultView, Reply, ReplyView, Request, request_view,
    RequestView,
};
use crate::sequence::{Sequence, SequenceView};
use crate::text::{chain, chain3};

verus! {

/// A seed image to build: a small disk that carries the cloud-init
/// configuration of the guest.
#[derive(Clone, Debug, PartialEq, Eq)]
pub struct SeedImage {
    /// The image to produce.
    pub drive_path: String,
    /// The file to write the user data to before it is packaged.
    pub user_data_path: String,
    /// The identity whose SSH keys the guest imports.
    pub key_id: String,
}

/// The text of a [`SeedImage`].
pub struct SeedImageView {
    pub drive_path: Seq<char>,
    pub user_data_path: Seq<char>,
    pub key_id: Seq<char>,
}

impl View for SeedImage {
    type V = SeedImageView;

    open spec fn view(&self) -> SeedImageView {
        SeedImageView {
            drive_path: self.drive_path@,
            user_data_path: self.user_data_path@,
            key_id: self.key_id@,
        }
    }
}

impl SeedImageView {
    /// The seed image `seed.img` for `key_id`, with its user data in the
    /// file `user_data.yaml` under the temporary directory.
    pub open spec fn under(temp_dir: Seq<char>, key_id: Seq<char>) -> SeedImageView {
        SeedImageView {
            drive_path: "seed.img"@,
            user_data_path: temp_dir + "/user_data.yaml"@,
            key_id,
        }
    }

    /// The user data: a cloud-config document that imports the SSH keys of
    /// the identity.
    pub open spec fn user_data(self) -> Seq<char> {
        "#cloud-config\nssh_import_id:\n  - "@ + self.key_id + "\n"@
    }

    /// Packages the user data as the seed image.
    pub open spec fn package_command(self) -> CommandLineView {
        CommandLineView {
            program: "cloud-localds"@,
            args: seq![self.drive_path, self.user_data_path],
        }
    }

    /// The steps of a build: write the user data, then package it.
    pub open spec fn build_plan(self) -> Seq<RequestView> {
        seq![
            RequestView::WriteFile { path: self.user_data_path, contents: self.user_data() },
            RequestView::Run { command: self.package_command() },
        ]
    }
}

impl SeedImage {
    /// The seed image `seed.img` for `key_id`, with its user data in the
    /// file `user_data.yaml` under the temporary directory.
    pub fn under(temp_dir: &str, key_id: &str) -> (seed: SeedImage)
        ensures
            seed@ == SeedImageView::under(temp_dir@, key_id@),
    {
        SeedImage {
            drive_path: String::from_str("seed.img"),
            user_data_path: chain(temp_dir, "/user_data.yaml"),
            key_id: String::from_str(key_id),
        }
    }

    /// The user data.
    pub fn user_data(&self) -> (document: String)
        ensures
            document@ == self@.user_data(),
    {
        chain3("#cloud-config\nssh_import_id:\n  - ", self.key_id.as_str(), "\n")
    }

    /// Packages the user data as the seed image.
    pub fn package_command(&self) -> (command: CommandLine)
        ensures
            command@ == self@.package_command(),
    {
        let command = CommandLine::new("cloud-localds").arg(self.drive_path.as_str()).arg(
            self.user_data_path.as_str(),
        );
        assert(command@.args =~= self@.package_command().args);
        command
    }

    /// The steps of a build.
    pub fn build_plan(&self) -> (plan: Vec<Request>)
        ensures
            plan.deep_view() == self@.build_plan(),
    {
        let mut plan: Vec<Request> = Vec::new();
        plan.push(
            Request::WriteFile { path: self.user_data_path.clone(), contents: self.user_data() },
        );
        plan.push(Request::Run { command: self.package_command() });
        assert(plan.deep_view() =~= self@.build_plan());
        plan
    }
}

/// A build that failed: the user data could not be written, or the
/// packaging tool failed.
#[derive(Clone, Debug, PartialEq, Eq)]
pub struct SeedError {
    pub cause: Fault,
}

/// A build of a seed image in progress.
#[derive(Clone, Debug, PartialEq, Eq)]
pub struct SeedBuild {
    drive_path: String,
    plan: Sequence,
}

/// The mathematical model of a [`SeedBuild`].
pub struct SeedBuildView {
    pub drive_path: Seq<char>,
    pub plan: SequenceView,
}

impl SeedBuildView {
    /// The build that has asked for nothing yet.
    pub open spec fn fresh(seed: SeedImageView) -> SeedBuildView {
        SeedBuildView { drive_path: seed.drive_path, plan: SequenceView::fresh(seed.build_plan()) }
    }

    /// What the build asks of the host next, if anything.
    pub open spec fn request(self) -> Option<RequestView> {
        self.plan.request()
    }

    /// The build after the host's reply to the pending request.
    pub open spec fn after(self, reply: ReplyView) -> SeedBuildView {
        SeedBuildView { plan: self.plan.after(reply), ..self }
    }

    /// How the build ended, if it has: with the path of the image, or with
    /// the fault that ended it.
    pub open spec fn outcome(self) -> Option<Result<Seq<char>, FaultView>> {
        match self.plan.outcome() {
            Some(Ok(_)) => Some(Ok(self.drive_path)),
            Some(Err(fault)) => Some(Err(fault)),
            None => None,
        }
    }
}

impl View for SeedBuild {
    type V = SeedBuildView;

    closed spec fn view(&self) -> SeedBuildView {
        SeedBuildView { drive_path: self.drive_path@, plan: self.plan@ }
    }
}

impl SeedBuild {
    /// A build of `seed` that has asked for nothing yet.
    pub fn new(seed: &SeedImage) -> (build: SeedBuild)
        ensures
            build@ == SeedBuildView::fresh(seed@),
    {
        SeedBuild { drive_path: seed.drive_path.clone(), plan: Sequence::new(seed.build_plan()) }
    }

    /// What to ask of the host next, if anything.
    pub fn request(&self) -> (request: Option<Request>)
        ensures
            request_view(request) == self@.request(),
    {
        self.plan.request()
    }

    /// Takes in the host's reply to the pending request.
    pub fn feed(&mut self, reply: Reply)
        ensures
            final(self)@ == old(self)@.after(reply@),
    {
        self.plan.feed(reply)
    }

    /// How the build ended, if it has.
    pub fn into_result(self) -> (result: Option<Result<String, SeedError>>)
        ensures
            match self@.outcome() {
                Some(Ok(path)) => result matches Some(Ok(found)) && found@ == path,
                Some(Err(fault)) => result matches Some(Err(error)) && error.cause@ == fault,
                None => result is None,
            },
    {
        match self.plan.into_outcome() {
            Some(Ok(())) => Some(Ok(self.drive_path)),
            Some(Err(cause)) => Some(Err(SeedError { cause })),
            None => None,
        }
    }
}

/// A build asks for something exactly as long as it has not ended.
pub proof fn lemma_build_asks_until_done(build: SeedBuildView)
    ensures
        build.request() is None <==> build.outcome() is Some,
{
}

} // verus!
