//! Customizing an image: attach it, mount its root, change it, and release
//! everything again whatever happened.

use vstd::prelude::*;
use vstd::string::*;
use crate::host::{
    CommandLine, CommandLineView, Fault, fault_view, FaultView, judge, judgement_of,
    judgement_view, Payload, PayloadView, Reply, ReplyView, Request, request_view, RequestView,
};
use crate::nbd::{Attach, AttachView, BlockDeviceHandle, BlockDeviceHandleView, ImageFormat};
use crate::text::chain;

verus! {

/// A partition mounted, or to be mounted, on a directory.
#[derive(Clone, Debug, PartialEq, Eq)]
pub struct MountHandle {
    /// The directory on which the partition is mounted.
    pub mountpoint_path: String,
    /// The partition that is mounted.
    pub source_partition_path: String,
}

/// The text of a [`MountHandle`].
pub struct MountHandleView {
    pub mountpoint_path: Seq<char>,
    pub source_partition_path: Seq<char>,
}

impl View for MountHandle {
    type V = MountHandleView;

    open spec fn view(&self) -> MountHandleView {
        MountHandleView {
            mountpoint_path: self.mountpoint_path@,
            source_partition_path: self.source_partition_path@,
        }
    }
}

impl MountHandleView {
    /// The mount of `partition` on the directory `mountpoint` under the
    /// temporary directory.
    pub open spec fn under(temp_dir: Seq<char>, partition: Seq<char>) -> MountHandleView {
        MountHandleView {
            mountpoint_path: temp_dir + "/mountpoint"@,
            source_partition_path: partition,
        }
    }

    /// Mounts the partition on the mountpoint.
    pub open spec fn mount_command(self) -> CommandLineView {
        CommandLineView {
            program: "mount"@,
            args: seq![self.source_partition_path, self.mountpoint_path],
        }
    }

    /// Unmounts the mountpoint.
    pub open spec fn unmount_command(self) -> CommandLineView {
        CommandLineView { program: "umount"@, args: seq![self.mountpoint_path] }
    }

    /// Masks the cloud platform's guest agent inside the mounted root.
    pub open spec fn mask_agent_command(self) -> CommandLineView {
        CommandLineView {
            program: "chroot"@,
            args: seq![self.mountpoint_path, "systemctl"@, "mask"@, "walinuxagent"@],
        }
    }

    /// The cloud-init file, inside the mounted root, that lists the
    /// datasources to try.
    pub open spec fn datasource_path(self) -> Seq<char> {
        self.mountpoint_path + "/etc/cloud/cloud.cfg.d/90_dpkg.cfg"@
    }

    /// Writes the datasource list, which puts the seed image first.
    pub open spec fn write_datasource(self) -> RequestView {
        RequestView::WriteFile {
            path: self.datasource_path(),
            contents: "datasource_list: [ NoCloud, Azure ]\n"@,
        }
    }
}

impl MountHandle {
    /// The mount of `partition` on the directory `mountpoint` under the
    /// temporary directory.
    pub fn under(temp_dir: &str, partition: &str) -> (mount: MountHandle)
        ensures
            mount@ == MountHandleView::under(temp_dir@, partition@),
    {
        MountHandle {
            mountpoint_path: chain(temp_dir, "/mountpoint"),
            source_partition_path: String::from_str(partition),
        }
    }

    /// Mounts the partition on the mountpoint.
    pub fn mount_command(&self) -> (command: CommandLine)
        ensures
            command@ == self@.mount_command(),
    {
        let command = CommandLine::new("mount").arg(self.source_partition_path.as_str()).arg(
            self.mountpoint_path.as_str(),
        );
        assert(command@.args =~= self@.mount_command().args);
        command
    }

    /// Unmounts the mountpoint.
    pub fn unmount_command(&self) -> (command: CommandLine)
        ensures
            command@ == self@.unmount_command(),
    {
        let command = CommandLine::new("umount").arg(self.mountpoint_path.as_str());
        assert(command@.args =~= self@.unmount_command().args);
        command
    }

    /// Masks the cloud platform's guest agent inside the mounted root.
    pub fn mask_agent_command(&self) -> (command: CommandLine)
        ensures
            command@ == self@.mask_agent_command(),
    {
        let command = CommandLine::new("chroot").arg(self.mountpoint_path.as_str()).arg(
            "systemctl",
        ).arg("mask").arg("walinuxagent");
        assert(command@.args =~= self@.mask_agent_command().args);
        command
    }

    /// Writes the datasource list.
    pub fn write_datasource(&self) -> (request: Request)
        ensures
            request@ == self@.write_datasource(),
    {
        Request::WriteFile {
            path: chain(self.mountpoint_path.as_str(), "/etc/cloud/cloud.cfg.d/90_dpkg.cfg"),
            contents: String::from_str("datasource_list: [ NoCloud, Azure ]\n"),
        }
    }
}

/// The steps that follow the attachment.
#[derive(Clone, Copy, Debug, PartialEq, Eq, Structural)]
pub enum CustomizeStage {
    /// Create the mountpoint directory.
    MakeMountpoint,
    /// Mount the partition.
    Mount,
    /// Mask the guest agent.
    MaskAgent,
    /// Write the datasource list.
    WriteDatasource,
    /// Unmount the partition.
    Unmount,
    /// Remove the mountpoint directory.
    RemoveMountpoint,
    /// Detach the block device.
    Detach,
    /// Nothing is left to do.
    Finished,
}

impl CustomizeStage {
    /// The place of the stage in the order of the pipeline.
    pub open spec fn rank(self) -> nat {
        match self {
            CustomizeStage::MakeMountpoint => 0,
            CustomizeStage::Mount => 1,
            CustomizeStage::MaskAgent => 2,
            CustomizeStage::WriteDatasource => 3,
            CustomizeStage::Unmount => 4,
            CustomizeStage::RemoveMountpoint => 5,
            CustomizeStage::Detach => 6,
            CustomizeStage::Finished => 7,
        }
    }
}

/// A customization that failed. `cause` is the first fault; the faults of
/// the release steps that were attempted after it follow in
/// `release_failures`, in the order in which they happened.
#[derive(Clone, Debug, PartialEq, Eq)]
pub struct CustomizeError {
    pub cause: Fault,
    pub release_failures: Vec<Fault>,
}

/// The text of a [`CustomizeError`].
pub struct CustomizeErrorView {
    pub cause: FaultView,
    pub release_failures: Seq<FaultView>,
}

impl View for CustomizeError {
    type V = CustomizeErrorView;

    open spec fn view(&self) -> CustomizeErrorView {
        CustomizeErrorView {
            cause: self.cause@,
            release_failures: self.release_failures.deep_view(),
        }
    }
}

/// The lines that report the release failures, one for each, in order.
pub open spec fn release_lines(failures: Seq<FaultView>) -> Seq<char>
    decreases failures.len(),
{
    if failures.len() == 0 {
        Seq::empty()
    } else {
        release_lines(failures.drop_last()) + "\nwhile releasing: "@ + failures.last().message()
    }
}

impl CustomizeErrorView {
    /// The error as lines for the user: the cause, and a line for each
    /// release failure.
    pub open spec fn message(self) -> Seq<char> {
        self.cause.message() + release_lines(self.release_failures)
    }
}

impl CustomizeError {
    /// The error as lines for the user.
    pub fn message(&self) -> (lines: String)
        ensures
            lines@ == self@.message(),
    {
        let mut lines = self.cause.message();
        let mut i: usize = 0;
        assert(self.release_failures.deep_view().take(0) =~= Seq::<FaultView>::empty());
        while i < self.release_failures.len()
            invariant
                i <= self.release_failures.len(),
                lines@ == self.cause@.message() + release_lines(
                    self.release_failures.deep_view().take(i as int),
                ),
            decreases self.release_failures.len() - i,
        {
            let ghost failures = self.release_failures.deep_view();
            assert(failures.take(i as int + 1).drop_last() =~= failures.take(i as int));
            assert(failures.take(i as int + 1).last() == self.release_failures[i as int]@);
            let line = self.release_failures[i].message();
            lines.append("\nwhile releasing: ");
            lines.append(line.as_str());
            i = i + 1;
        }
        assert(self.release_failures.deep_view().take(i as int)
            =~= self.release_failures.deep_view());
        lines
    }
}

/// A customization in progress.
#[derive(Clone, Debug, PartialEq, Eq)]
pub struct Customize {
    attach: Attach,
    mount: MountHandle,
    stage: CustomizeStage,
    cause: Option<Fault>,
    release_failures: Vec<Fault>,
}

/// The mathematical model of a [`Customize`].
pub struct CustomizeView {
    pub attach: AttachView,
    pub mount: MountHandleView,
    pub stage: CustomizeStage,
    pub cause: Option<FaultView>,
    pub release_failures: Seq<FaultView>,
}

impl CustomizeView {
    /// The customization of `image`, to be attached to `device` and mounted
    /// under `temp_dir`, that has asked for nothing yet.
    pub open spec fn fresh(
        image: Seq<char>,
        format: ImageFormat,
        device: Seq<char>,
        temp_dir: Seq<char>,
    ) -> CustomizeView {
        let handle = BlockDeviceHandleView::on(device, image);
        CustomizeView {
            attach: AttachView::fresh(handle, format),
            mount: MountHandleView::under(temp_dir, handle.partition_path),
            stage: CustomizeStage::MakeMountpoint,
            cause: None,
            release_failures: Seq::empty(),
        }
    }

    /// The request that belongs to the stage.
    pub open spec fn stage_request(self) -> Option<RequestView> {
        match self.stage {
            CustomizeStage::MakeMountpoint => Some(
                RequestView::CreateDirAll { path: self.mount.mountpoint_path },
            ),
            CustomizeStage::Mount => Some(RequestView::Run { command: self.mount.mount_command() }),
            CustomizeStage::MaskAgent => Some(
                RequestView::Run { command: self.mount.mask_agent_command() },
            ),
            CustomizeStage::WriteDatasource => Some(self.mount.write_datasource()),
            CustomizeStage::Unmount => Some(
                RequestView::Run { command: self.mount.unmount_command() },
            ),
            CustomizeStage::RemoveMountpoint => Some(
                RequestView::RemoveDir { path: self.mount.mountpoint_path },
            ),
            CustomizeStage::Detach => Some(
                RequestView::Run { command: self.attach.handle.detach_command() },
            ),
            CustomizeStage::Finished => None,
        }
    }

    /// What the customization asks of the host next, if anything: the
    /// attachment's requests until the partition is in place, then one
    /// request for each stage.
    pub open spec fn request(self) -> Option<RequestView> {
        match self.attach.outcome() {
            None => self.attach.request(),
            Some(Ok(_)) => self.stage_request(),
            Some(Err(_)) => None,
        }
    }

    /// The customization with one more fault on record and at the stage
    /// `next`. The first fault is the cause; later ones are release
    /// failures.
    pub open spec fn failed(self, fault: FaultView, next: CustomizeStage) -> CustomizeView {
        match self.cause {
            None => CustomizeView { cause: Some(fault), stage: next, ..self },
            Some(_) => CustomizeView {
                release_failures: self.release_failures.push(fault),
                stage: next,
                ..self
            },
        }
    }

    /// The stage that follows when the stage's request has succeeded.
    pub open spec fn next_on_success(stage: CustomizeStage) -> CustomizeStage {
        match stage {
            CustomizeStage::MakeMountpoint => CustomizeStage::Mount,
            CustomizeStage::Mount => CustomizeStage::MaskAgent,
            CustomizeStage::MaskAgent => CustomizeStage::WriteDatasource,
            CustomizeStage::WriteDatasource => CustomizeStage::Unmount,
            CustomizeStage::Unmount => CustomizeStage::RemoveMountpoint,
            CustomizeStage::RemoveMountpoint => CustomizeStage::Detach,
            CustomizeStage::Detach => CustomizeStage::Finished,
            CustomizeStage::Finished => CustomizeStage::Finished,
        }
    }

    /// The stage that follows when the stage's request has failed: what
    /// has been acquired so far is released. Nothing is mounted until the
    /// mount has succeeded, so a failure up to there goes straight to the
    /// detachment; a failed customization step goes to the unmount; the
    /// mountpoint is removed only after a successful unmount; and the
    /// detachment is attempted at the end of every path.
    pub open spec fn next_on_failure(stage: CustomizeStage) -> CustomizeStage {
        match stage {
            CustomizeStage::MakeMountpoint => CustomizeStage::Detach,
            CustomizeStage::Mount => CustomizeStage::Detach,
            CustomizeStage::MaskAgent => CustomizeStage::Unmount,
            CustomizeStage::WriteDatasource => CustomizeStage::Unmount,
            CustomizeStage::Unmount => CustomizeStage::Detach,
            CustomizeStage::RemoveMountpoint => CustomizeStage::Detach,
            CustomizeStage::Detach => CustomizeStage::Finished,
            CustomizeStage::Finished => CustomizeStage::Finished,
        }
    }

    /// The customization once the stage's request has been judged.
    pub open spec fn advance(self, judgement: Result<PayloadView, FaultView>) -> CustomizeView {
        match self.stage {
            CustomizeStage::Finished => self,
            _ => match judgement {
                Ok(_) => CustomizeView { stage: Self::next_on_success(self.stage), ..self },
                Err(fault) => self.failed(fault, Self::next_on_failure(self.stage)),
            },
        }
    }

    /// The customization after the host's reply to the pending request. A
    /// reply that arrives when nothing is pending changes nothing.
    pub open spec fn after(self, reply: ReplyView) -> CustomizeView {
        match self.attach.outcome() {
            None => CustomizeView { attach: self.attach.after(reply), ..self },
            Some(Ok(_)) => match self.stage_request() {
                Some(request) => self.advance(judgement_of(request, reply)),
                None => self,
            },
            Some(Err(_)) => self,
        }
    }

    /// How the customization ended, if it has. A failed attachment ends it
    /// at once: there is nothing to release. Otherwise it ends when the
    /// detachment has been attempted, in success if no step failed.
    pub open spec fn outcome(self) -> Option<Result<(), CustomizeErrorView>> {
        match self.attach.outcome() {
            None => None,
            Some(Err(cause)) => Some(
                Err(CustomizeErrorView { cause, release_failures: Seq::empty() }),
            ),
            Some(Ok(_)) => match self.stage {
                CustomizeStage::Finished => match self.cause {
                    None => Some(Ok(())),
                    Some(cause) => Some(
                        Err(CustomizeErrorView { cause, release_failures: self.release_failures }),
                    ),
                },
                _ => None,
            },
        }
    }
}

impl View for Customize {
    type V = CustomizeView;

    closed spec fn view(&self) -> CustomizeView {
        CustomizeView {
            attach: self.attach@,
            mount: self.mount@,
            stage: self.stage,
            cause: fault_view(self.cause),
            release_failures: self.release_failures.deep_view(),
        }
    }
}

impl Customize {
    /// The customization of `image`, to be attached to `device` and mounted
    /// under `temp_dir`, that has asked for nothing yet.
    pub fn new(image: &str, format: ImageFormat, device: &str, temp_dir: &str) -> (customize:
        Customize)
        ensures
            customize@ == CustomizeView::fresh(image@, format, device@, temp_dir@),
    {
        let handle = BlockDeviceHandle::on(device, image);
        let mount = MountHandle::under(temp_dir, handle.partition_path.as_str());
        let customize = Customize {
            attach: Attach::new(handle, format),
            mount,
            stage: CustomizeStage::MakeMountpoint,
            cause: None,
            release_failures: Vec::new(),
        };
        assert(customize.release_failures.deep_view() =~= Seq::<FaultView>::empty());
        customize
    }

    /// The customization of `image` on the block device that the
    /// command-line tool uses, `/dev/nbd0`.
    pub fn at_fixed_device(image: &str, format: ImageFormat, temp_dir: &str) -> (customize:
        Customize)
        ensures
            customize@ == CustomizeView::fresh(image@, format, "/dev/nbd0"@, temp_dir@),
    {
        Customize::new(image, format, "/dev/nbd0", temp_dir)
    }

    /// The stage that the customization is at once the image is attached.
    pub fn stage(&self) -> (stage: CustomizeStage)
        ensures
            stage == self@.stage,
    {
        self.stage
    }

    fn stage_request(&self) -> (request: Option<Request>)
        ensures
            request_view(request) == self@.stage_request(),
    {
        match self.stage {
            CustomizeStage::MakeMountpoint => Some(
                Request::CreateDirAll { path: self.mount.mountpoint_path.clone() },
            ),
            CustomizeStage::Mount => Some(Request::Run { command: self.mount.mount_command() }),
            CustomizeStage::MaskAgent => Some(
                Request::Run { command: self.mount.mask_agent_command() },
            ),
            CustomizeStage::WriteDatasource => Some(self.mount.write_datasource()),
            CustomizeStage::Unmount => Some(Request::Run { command: self.mount.unmount_command() }),
            CustomizeStage::RemoveMountpoint => Some(
                Request::RemoveDir { path: self.mount.mountpoint_path.clone() },
            ),
            CustomizeStage::Detach => Some(
                Request::Run { command: self.attach.handle().detach_command() },
            ),
            CustomizeStage::Finished => None,
        }
    }

    /// What to ask of the host next, if anything.
    pub fn request(&self) -> (request: Option<Request>)
        ensures
            request_view(request) == self@.request(),
    {
        if !self.attach.is_finished() {
            self.attach.request()
        } else if self.attach.has_succeeded() {
            self.stage_request()
        } else {
            None
        }
    }

    /// Whether the customization has ended.
    pub fn is_finished(&self) -> (finished: bool)
        ensures
            finished == self@.outcome().is_some(),
    {
        if !self.attach.is_finished() {
            false
        } else if self.attach.has_succeeded() {
            match self.stage {
                CustomizeStage::Finished => true,
                _ => false,
            }
        } else {
            true
        }
    }

    fn next_on_success(stage: CustomizeStage) -> (next: CustomizeStage)
        ensures
            next == CustomizeView::next_on_success(stage),
    {
        match stage {
            CustomizeStage::MakeMountpoint => CustomizeStage::Mount,
            CustomizeStage::Mount => CustomizeStage::MaskAgent,
            CustomizeStage::MaskAgent => CustomizeStage::WriteDatasource,
            CustomizeStage::WriteDatasource => CustomizeStage::Unmount,
            CustomizeStage::Unmount => CustomizeStage::RemoveMountpoint,
            CustomizeStage::RemoveMountpoint => CustomizeStage::Detach,
            CustomizeStage::Detach => CustomizeStage::Finished,
            CustomizeStage::Finished => CustomizeStage::Finished,
        }
    }

    fn next_on_failure(stage: CustomizeStage) -> (next: CustomizeStage)
        ensures
            next == CustomizeView::next_on_failure(stage),
    {
        match stage {
            CustomizeStage::MakeMountpoint => CustomizeStage::Detach,
            CustomizeStage::Mount => CustomizeStage::Detach,
            CustomizeStage::MaskAgent => CustomizeStage::Unmount,
            CustomizeStage::WriteDatasource => CustomizeStage::Unmount,
            CustomizeStage::Unmount => CustomizeStage::Detach,
            CustomizeStage::RemoveMountpoint => CustomizeStage::Detach,
            CustomizeStage::Detach => CustomizeStage::Finished,
            CustomizeStage::Finished => CustomizeStage::Finished,
        }
    }

    fn advance(&mut self, judged: Result<Payload, Fault>)
        ensures
            final(self)@ == old(self)@.advance(judgement_view(judged)),
    {
        match self.stage {
            CustomizeStage::Finished => {},
            _ => match judged {
                Ok(_) => {
                    self.stage = Self::next_on_success(self.stage);
                },
                Err(fault) => {
                    let next = Self::next_on_failure(self.stage);
                    if self.cause.is_none() {
                        self.cause = Some(fault);
                    } else {
                        let ghost before = self.release_failures;
                        self.release_failures.push(fault);
                        assert(self.release_failures.deep_view() =~= before.deep_view().push(
                            fault@,
                        ));
                    }
                    self.stage = next;
                },
            },
        }
    }

    /// Takes in the host's reply to the pending request.
    pub fn feed(&mut self, reply: Reply)
        ensures
            final(self)@ == old(self)@.after(reply@),
    {
        if !self.attach.is_finished() {
            self.attach.feed(reply);
        } else if self.attach.has_succeeded() {
            match self.stage_request() {
                Some(request) => {
                    let judged = judge(&request, reply);
                    self.advance(judged);
                },
                None => {},
            }
        }
    }

    /// How the customization ended, if it has.
    pub fn into_result(self) -> (result: Option<Result<(), CustomizeError>>)
        ensures
            match self@.outcome() {
                Some(Ok(_)) => result == Some(Ok::<(), CustomizeError>(())),
                Some(Err(error)) => result matches Some(Err(found)) && found@ == error,
                None => result is None,
            },
    {
        let finished = match self.stage {
            CustomizeStage::Finished => true,
            _ => false,
        };
        match self.attach.into_result() {
            None => None,
            Some(Err(error)) => {
                let release_failures: Vec<Fault> = Vec::new();
                assert(release_failures.deep_view() =~= Seq::<FaultView>::empty());
                Some(Err(CustomizeError { cause: error.cause, release_failures }))
            },
            Some(Ok(_)) => if finished {
                match self.cause {
                    None => Some(Ok(())),
                    Some(cause) => Some(
                        Err(CustomizeError { cause, release_failures: self.release_failures }),
                    ),
                }
            } else {
                None
            },
        }
    }
}

/// The fault that a judgement carries, as a list of one, or of none for a
/// success.
pub open spec fn fault_in(judgement: Result<PayloadView, FaultView>) -> Seq<FaultView> {
    match judgement {
        Ok(_) => Seq::empty(),
        Err(fault) => seq![fault],
    }
}

impl CustomizeView {
    /// What holds of every customization that started fresh: nothing has
    /// failed while the customization steps are still to come, and release
    /// failures are on record only behind a cause.
    pub open spec fn wf(self) -> bool {
        &&& self.stage.rank() <= CustomizeStage::WriteDatasource.rank() ==> self.cause is None
        &&& self.cause is None ==> self.release_failures.len() == 0
        &&& !(self.attach.outcome() == Some(Ok::<(), FaultView>(()))) ==> self.stage
            is MakeMountpoint
    }
}

/// A fresh customization is well-formed.
pub proof fn lemma_fresh_customize_is_wf(
    image: Seq<char>,
    format: ImageFormat,
    device: Seq<char>,
    temp_dir: Seq<char>,
)
    ensures
        CustomizeView::fresh(image, format, device, temp_dir).wf(),
{
}

/// Every reply keeps a well-formed customization well-formed.
pub proof fn lemma_customize_stays_wf(state: CustomizeView, reply: ReplyView)
    requires
        state.wf(),
    ensures
        state.after(reply).wf(),
{
}

/// Once the image is attached, every reply moves the customization to a
/// later stage, so that no step is asked twice, and along these lines only:
/// the partition is mounted only on the directory that was just created; a
/// customization step, passed or failed, is followed by the next one or by
/// the unmount, never by the detachment; the mountpoint is removed only
/// after a successful unmount; the customization ends only out of the
/// detachment; and the first fault stays the cause.
pub proof fn lemma_customize_stage_order(state: CustomizeView, reply: ReplyView)
    requires
        state.attach.outcome() == Some(Ok::<(), FaultView>(())),
        !(state.stage is Finished),
    ensures
        ({
            let next = state.after(reply);
            let judged = judgement_of(state.request().unwrap(), reply);
            &&& next.attach == state.attach
            &&& next.mount == state.mount
            &&& next.stage.rank() > state.stage.rank()
            &&& next.stage is Mount ==> state.stage is MakeMountpoint && judged is Ok
            &&& next.stage is MaskAgent ==> state.stage is Mount && judged is Ok
            &&& state.stage is MaskAgent || state.stage is WriteDatasource ==> next.stage
                is WriteDatasource || next.stage is Unmount
            &&& next.stage is RemoveMountpoint ==> state.stage is Unmount && judged is Ok
            &&& next.stage is Finished ==> state.stage is Detach
            &&& next.outcome() is Some <==> state.stage is Detach
            &&& state.cause is Some ==> next.cause == state.cause
            &&& judged is Ok ==> next.cause == state.cause && next.release_failures
                == state.release_failures
            &&& judged is Err && state.cause is None ==> next.cause == Some(judged->Err_0)
        }),
{
}

/// When a customization step fails, the partition is unmounted, the
/// mountpoint is removed if the unmount succeeded, and the device is
/// detached, whatever the host answers to each of these; only then does the
/// customization end, and it ends with the fault of the customization step
/// as its cause, followed by the faults of the release steps in the order
/// in which they were attempted.
pub proof fn lemma_failed_customization_is_released(
    state: CustomizeView,
    failure: ReplyView,
    unmount: ReplyView,
    remove: ReplyView,
    detach: ReplyView,
)
    requires
        state.wf(),
        state.attach.outcome() == Some(Ok::<(), FaultView>(())),
        state.stage is MaskAgent || state.stage is WriteDatasource,
        judgement_of(state.request().unwrap(), failure) is Err,
    ensures
        ({
            let fault = judgement_of(state.request().unwrap(), failure)->Err_0;
            let unmounting = state.after(failure);
            let unmount_request = RequestView::Run { command: state.mount.unmount_command() };
            let remove_request = RequestView::RemoveDir { path: state.mount.mountpoint_path };
            let detach_request = RequestView::Run {
                command: state.attach.handle.detach_command(),
            };
            let unmounted = unmounting.after(unmount);
            &&& unmounting.outcome() is None
            &&& unmounting.request() == Some(unmount_request)
            &&& unmounted.outcome() is None
            &&& if judgement_of(unmount_request, unmount) is Ok {
                let removed = unmounted.after(remove);
                let detached = removed.after(detach);
                &&& unmounted.request() == Some(remove_request)
                &&& removed.outcome() is None
                &&& removed.request() == Some(detach_request)
                &&& detached.request() is None
                &&& detached.outcome() == Some(
                    Err::<(), CustomizeErrorView>(
                        CustomizeErrorView {
                            cause: fault,
                            release_failures: fault_in(judgement_of(remove_request, remove))
                                + fault_in(judgement_of(detach_request, detach)),
                        },
                    ),
                )
            } else {
                let detached = unmounted.after(detach);
                &&& unmounted.request() == Some(detach_request)
                &&& detached.request() is None
                &&& detached.outcome() == Some(
                    Err::<(), CustomizeErrorView>(
                        CustomizeErrorView {
                            cause: fault,
                            release_failures: fault_in(judgement_of(unmount_request, unmount))
                                + fault_in(judgement_of(detach_request, detach)),
                        },
                    ),
                )
            }
        }),
{
    let fault = judgement_of(state.request().unwrap(), failure)->Err_0;
    let unmounting = state.after(failure);
    let unmount_request = RequestView::Run { command: state.mount.unmount_command() };
    let remove_request = RequestView::RemoveDir { path: state.mount.mountpoint_path };
    let detach_request = RequestView::Run { command: state.attach.handle.detach_command() };
    let unmounted = unmounting.after(unmount);
    assert(unmounting.release_failures =~= Seq::<FaultView>::empty());
    if judgement_of(unmount_request, unmount) is Ok {
        let removed = unmounted.after(remove);
        let detached = removed.after(detach);
        assert(detached.release_failures =~= fault_in(judgement_of(remove_request, remove))
            + fault_in(judgement_of(detach_request, detach)));
    } else {
        let detached = unmounted.after(detach);
        assert(detached.release_failures =~= fault_in(judgement_of(unmount_request, unmount))
            + fault_in(judgement_of(detach_request, detach)));
    }
}

impl CustomizeView {
    /// The customization after each of the replies in turn.
    pub open spec fn run(self, replies: Seq<ReplyView>) -> CustomizeView
        decreases replies.len(),
    {
        if replies.len() == 0 {
            self
        } else {
            self.run(replies.drop_last()).after(replies.last())
        }
    }

    /// Whether the image is attached.
    pub open spec fn attached(self) -> bool {
        self.attach.outcome() == Some(Ok::<(), FaultView>(()))
    }

    /// Whether, in a run over `replies`, the reply numbered `index` is the
    /// answer to the request to unmount the partition.
    pub open spec fn unmounts_at(self, replies: Seq<ReplyView>, index: int) -> bool {
        let state = self.run(replies.take(index));
        state.attached() && state.stage is Unmount
    }

    /// Whether, in a run over `replies`, the partition is mounted and not
    /// yet unmounted when the reply numbered `index` arrives: the mount has
    /// succeeded and a customization step is pending.
    pub open spec fn mounted_at(self, replies: Seq<ReplyView>, index: int) -> bool {
        let state = self.run(replies.take(index));
        state.attached() && (state.stage is MaskAgent || state.stage is WriteDatasource)
    }

    /// Whether, in a run over `replies`, the reply numbered `index` is the
    /// answer to the request to detach the device.
    pub open spec fn detaches_at(self, replies: Seq<ReplyView>, index: int) -> bool {
        let state = self.run(replies.take(index));
        state.attached() && state.stage is Detach
    }
}

/// While a stage's request is pending, the partition has been seen: no
/// request of a stage, the mount among them, is asked before the poll for
/// the partition has ended with the partition in place.
pub proof fn lemma_stages_need_partition(state: CustomizeView)
    ensures
        state.attached() ==> state.attach.poller.state is Ready,
        !state.attached() ==> state.request() == state.attach.request(),
        state.attach.outcome() is Some ==> state.attach.request() is None,
{
}

proof fn lemma_run_step(start: CustomizeView, replies: Seq<ReplyView>, index: int)
    requires
        0 <= index < replies.len(),
    ensures
        start.run(replies.take(index + 1)) == start.run(replies.take(index)).after(replies[index]),
{
    assert(replies.take(index + 1).drop_last() =~= replies.take(index));
}

proof fn lemma_run_stays_wf(start: CustomizeView, replies: Seq<ReplyView>, index: int)
    requires
        start.wf(),
        0 <= index <= replies.len(),
    ensures
        start.run(replies.take(index)).wf(),
    decreases index,
{
    if index > 0 {
        lemma_run_stays_wf(start, replies, index - 1);
        lemma_run_step(start, replies, index - 1);
        lemma_customize_stays_wf(start.run(replies.take(index - 1)), replies[index - 1]);
    }
}

proof fn lemma_run_moves_on(start: CustomizeView, replies: Seq<ReplyView>, from: int, to: int)
    requires
        0 <= from <= to <= replies.len(),
        start.run(replies.take(from)).attached(),
    ensures
        start.run(replies.take(to)).attached(),
        start.run(replies.take(from)).stage.rank() <= start.run(replies.take(to)).stage.rank(),
        from < to && !(start.run(replies.take(from)).stage is Finished) ==> start.run(
            replies.take(from),
        ).stage.rank() < start.run(replies.take(to)).stage.rank(),
    decreases to - from,
{
    if from < to {
        lemma_run_moves_on(start, replies, from, to - 1);
        lemma_run_step(start, replies, to - 1);
        let before = start.run(replies.take(to - 1));
        if !(before.stage is Finished) {
            lemma_customize_stage_order(before, replies[to - 1]);
        }
    }
}

proof fn lemma_run_ends_by_detaching(start: CustomizeView, replies: Seq<ReplyView>, index: int)
    requires
        start.wf(),
        start.stage is MakeMountpoint,
        0 <= index <= replies.len(),
        start.run(replies.take(index)).attached(),
        start.run(replies.take(index)).stage is Finished,
    ensures
        exists|i: int| 0 <= i < index && #[trigger] start.detaches_at(replies, i),
    decreases index,
{
    if index == 0 {
        assert(replies.take(0) =~= Seq::<ReplyView>::empty());
    } else {
        lemma_run_step(start, replies, index - 1);
        lemma_run_stays_wf(start, replies, index - 1);
        let before = start.run(replies.take(index - 1));
        if before.attached() && before.stage is Finished {
            lemma_run_ends_by_detaching(start, replies, index - 1);
        } else {
            assert(before.attached());
            lemma_customize_stage_order(before, replies[index - 1]);
            assert(start.detaches_at(replies, index - 1));
        }
    }
}

/// The device is detached exactly once for each attachment: in a run of a
/// fresh customization over any replies, at most one reply answers the
/// request to detach the device; one does whenever the image was attached
/// and the customization has ended, in success or in failure; and none
/// does while the image is not attached.
pub proof fn lemma_detached_exactly_once(
    image: Seq<char>,
    format: ImageFormat,
    device: Seq<char>,
    temp_dir: Seq<char>,
    replies: Seq<ReplyView>,
)
    ensures
        ({
            let start = CustomizeView::fresh(image, format, device, temp_dir);
            let end = start.run(replies);
            &&& forall|i: int, j: int|
                0 <= i < j < replies.len() ==> !(#[trigger] start.detaches_at(replies, i)
                    && #[trigger] start.detaches_at(replies, j))
            &&& end.attached() && end.outcome() is Some ==> exists|i: int|
                0 <= i < replies.len() && #[trigger] start.detaches_at(replies, i)
            &&& !end.attached() ==> forall|i: int|
                0 <= i <= replies.len() ==> !#[trigger] start.detaches_at(replies, i)
        }),
{
    let start = CustomizeView::fresh(image, format, device, temp_dir);
    let end = start.run(replies);
    assert(replies.take(replies.len() as int) =~= replies);
    assert forall|i: int, j: int| 0 <= i < j < replies.len() implies !(#[trigger] start.detaches_at(
        replies,
        i,
    ) && #[trigger] start.detaches_at(replies, j)) by {
        if start.detaches_at(replies, i) {
            lemma_run_moves_on(start, replies, i, j);
        }
    }
    if end.attached() && end.outcome() is Some {
        lemma_run_ends_by_detaching(start, replies, replies.len() as int);
    }
    if !end.attached() {
        assert forall|i: int| 0 <= i <= replies.len() implies !#[trigger] start.detaches_at(
            replies,
            i,
        ) by {
            if start.detaches_at(replies, i) {
                lemma_run_moves_on(start, replies, i, replies.len() as int);
            }
        }
    }
}

proof fn lemma_run_passes_unmount(
    start: CustomizeView,
    replies: Seq<ReplyView>,
    from: int,
    to: int,
)
    requires
        0 <= from <= to <= replies.len(),
        start.mounted_at(replies, from),
        start.run(replies.take(to)).stage.rank() > CustomizeStage::Unmount.rank(),
    ensures
        exists|k: int| from < k < to && #[trigger] start.unmounts_at(replies, k),
    decreases to - from,
{
    if from < to {
        lemma_run_moves_on(start, replies, from, to - 1);
        lemma_run_step(start, replies, to - 1);
        let before = start.run(replies.take(to - 1));
        if before.stage.rank() > CustomizeStage::Unmount.rank() {
            lemma_run_passes_unmount(start, replies, from, to - 1);
        } else {
            lemma_customize_stage_order(before, replies[to - 1]);
            assert(start.unmounts_at(replies, to - 1));
        }
    }
}

/// No mount is left behind: in a run of a fresh customization over any
/// replies, if the partition is mounted at some point and the
/// customization has ended, then a later reply answers the request to
/// unmount it; and at most one reply of the run answers that request.
pub proof fn lemma_mounted_is_unmounted(
    image: Seq<char>,
    format: ImageFormat,
    device: Seq<char>,
    temp_dir: Seq<char>,
    replies: Seq<ReplyView>,
)
    ensures
        ({
            let start = CustomizeView::fresh(image, format, device, temp_dir);
            let end = start.run(replies);
            &&& forall|i: int|
                0 <= i <= replies.len() && #[trigger] start.mounted_at(replies, i)
                    && end.outcome() is Some ==> exists|k: int|
                    i < k < replies.len() && #[trigger] start.unmounts_at(replies, k)
            &&& forall|i: int, j: int|
                0 <= i < j < replies.len() ==> !(#[trigger] start.unmounts_at(replies, i)
                    && #[trigger] start.unmounts_at(replies, j))
        }),
{
    let start = CustomizeView::fresh(image, format, device, temp_dir);
    let end = start.run(replies);
    assert(replies.take(replies.len() as int) =~= replies);
    assert forall|i: int|
        0 <= i <= replies.len() && #[trigger] start.mounted_at(replies, i) && end.outcome()
            is Some implies exists|k: int|
        i < k < replies.len() && #[trigger] start.unmounts_at(replies, k) by {
        lemma_run_moves_on(start, replies, i, replies.len() as int);
        lemma_run_passes_unmount(start, replies, i, replies.len() as int);
    }
    assert forall|i: int, j: int| 0 <= i < j < replies.len() implies !(#[trigger] start.unmounts_at(
        replies,
        i,
    ) && #[trigger] start.unmounts_at(replies, j)) by {
        if start.unmounts_at(replies, i) {
            lemma_run_moves_on(start, replies, i, j);
        }
    }
}

/// A customization asks for something exactly as long as it has not
/// ended.
pub proof fn lemma_customize_asks_until_done(state: CustomizeView)
    ensures
        state.request() is None <==> state.outcome() is Some,
{
}

} // verus!
