//! Attaching a disk image to a network block device, and detaching it.

use vstd::prelude::*;
use vstd::string::*;
use crate::host::{
    CommandLine, CommandLineView, Fault, FaultView, Reply, ReplyView, Request, request_view,
    RequestView,
};
use crate::retry::{Poller, PollerView, PollStateView, READINESS_INTERVAL_MILLIS, READINESS_RETRIES};
use crate::sequence::{Sequence, SequenceView};
use crate::text::chain;

verus! {

/// The on-disk format of an image.
#[derive(Clone, Copy, Debug, PartialEq, Eq, Structural)]
pub enum ImageFormat {
    /// A plain disk image.
    Raw,
    /// A virtual hard disk.
    Vhd,
}

impl ImageFormat {
    /// The name by which the block-device tool knows the format.
    pub open spec fn spec_name(self) -> Seq<char> {
        match self {
            ImageFormat::Raw => "raw"@,
            ImageFormat::Vhd => "vpc"@,
        }
    }

    /// The name by which the block-device tool knows the format.
    pub fn name(self) -> (name: &'static str)
        ensures
            name@ == self.spec_name(),
    {
        match self {
            ImageFormat::Raw => "raw",
            ImageFormat::Vhd => "vpc",
        }
    }
}

/// An image attached, or to be attached, to a block device.
#[derive(Clone, Debug, PartialEq, Eq)]
pub struct BlockDeviceHandle {
    /// The block device.
    pub device_path: String,
    /// The image behind the device.
    pub backing_image_path: String,
    /// The first partition of the device, which appears some time after
    /// the image has been connected.
    pub partition_path: String,
}

/// The text of a [`BlockDeviceHandle`].
pub struct BlockDeviceHandleView {
    pub device_path: Seq<char>,
    pub backing_image_path: Seq<char>,
    pub partition_path: Seq<char>,
}

impl View for BlockDeviceHandle {
    type V = BlockDeviceHandleView;

    open spec fn view(&self) -> BlockDeviceHandleView {
        BlockDeviceHandleView {
            device_path: self.device_path@,
            backing_image_path: self.backing_image_path@,
            partition_path: self.partition_path@,
        }
    }
}

impl BlockDeviceHandleView {
    /// The handle for `image` on `device`; the partition is `device`
    /// followed by `p1`.
    pub open spec fn on(device: Seq<char>, image: Seq<char>) -> BlockDeviceHandleView {
        BlockDeviceHandleView {
            device_path: device,
            backing_image_path: image,
            partition_path: device + "p1"@,
        }
    }

    /// Loads the block-device kernel module; harmless when it is loaded.
    pub open spec fn load_module_command() -> CommandLineView {
        CommandLineView { program: "modprobe"@, args: seq!["nbd"@] }
    }

    /// Connects the image to the device.
    pub open spec fn connect_command(self, format: ImageFormat) -> CommandLineView {
        CommandLineView {
            program: "qemu-nbd"@,
            args: seq![
                "--format"@,
                format.spec_name(),
                "--connect="@ + self.device_path,
                self.backing_image_path,
            ],
        }
    }

    /// Disconnects the device.
    pub open spec fn detach_command(self) -> CommandLineView {
        CommandLineView { program: "qemu-nbd"@, args: seq!["--disconnect"@, self.device_path] }
    }

    /// The commands of an attachment: load the module, connect the image.
    pub open spec fn connect_plan(self, format: ImageFormat) -> Seq<RequestView> {
        seq![
            RequestView::Run { command: Self::load_module_command() },
            RequestView::Run { command: self.connect_command(format) },
        ]
    }
}

impl BlockDeviceHandle {
    /// The handle for `image` on `device`.
    pub fn on(device: &str, image: &str) -> (handle: BlockDeviceHandle)
        ensures
            handle@ == BlockDeviceHandleView::on(device@, image@),
    {
        BlockDeviceHandle {
            device_path: String::from_str(device),
            backing_image_path: String::from_str(image),
            partition_path: chain(device, "p1"),
        }
    }

    /// An independent copy of this handle.
    pub fn duplicate(&self) -> (copy: BlockDeviceHandle)
        ensures
            copy@ == self@,
    {
        BlockDeviceHandle {
            device_path: self.device_path.clone(),
            backing_image_path: self.backing_image_path.clone(),
            partition_path: self.partition_path.clone(),
        }
    }

    /// Loads the block-device kernel module.
    pub fn load_module_command() -> (command: CommandLine)
        ensures
            command@ == BlockDeviceHandleView::load_module_command(),
    {
        let command = CommandLine::new("modprobe").arg("nbd");
        assert(command@.args =~= BlockDeviceHandleView::load_module_command().args);
        command
    }

    /// Connects the image to the device.
    pub fn connect_command(&self, format: ImageFormat) -> (command: CommandLine)
        ensures
            command@ == self@.connect_command(format),
    {
        let command = CommandLine::new("qemu-nbd").arg("--format").arg(format.name()).arg_owned(
            chain("--connect=", self.device_path.as_str()),
        ).arg(self.backing_image_path.as_str());
        assert(command@.args =~= self@.connect_command(format).args);
        command
    }

    /// Disconnects the device.
    pub fn detach_command(&self) -> (command: CommandLine)
        ensures
            command@ == self@.detach_command(),
    {
        let command = CommandLine::new("qemu-nbd").arg("--disconnect").arg(
            self.device_path.as_str(),
        );
        assert(command@.args =~= self@.detach_command().args);
        command
    }

    /// The commands of an attachment.
    pub fn connect_plan(&self, format: ImageFormat) -> (plan: Vec<Request>)
        ensures
            plan.deep_view() == self@.connect_plan(format),
    {
        let mut plan: Vec<Request> = Vec::new();
        plan.push(Request::Run { command: Self::load_module_command() });
        plan.push(Request::Run { command: self.connect_command(format) });
        assert(plan.deep_view() =~= self@.connect_plan(format));
        plan
    }
}

/// An attachment that failed: the module did not load, the image did not
/// connect, or the partition did not appear in time.
#[derive(Clone, Debug, PartialEq, Eq)]
pub struct AttachmentError {
    pub cause: Fault,
}

/// An attachment in progress: the two commands, then the poll for the
/// partition, which the kernel creates some time after the connect command
/// has returned.
#[derive(Clone, Debug, PartialEq, Eq)]
pub struct Attach {
    handle: BlockDeviceHandle,
    connect: Sequence,
    poller: Poller,
}

/// The mathematical model of an [`Attach`].
pub struct AttachView {
    pub handle: BlockDeviceHandleView,
    pub connect: SequenceView,
    pub poller: PollerView,
}

impl AttachView {
    /// The attachment that has asked for nothing yet.
    pub open spec fn fresh(handle: BlockDeviceHandleView, format: ImageFormat) -> AttachView {
        AttachView {
            handle,
            connect: SequenceView::fresh(handle.connect_plan(format)),
            poller: PollerView {
                path: handle.partition_path,
                interval_millis: READINESS_INTERVAL_MILLIS,
                limit: READINESS_RETRIES as nat,
                used: 0,
                state: PollStateView::Probing,
            },
        }
    }

    /// What the attachment asks of the host next, if anything: its
    /// commands first, and the poll only once both have succeeded.
    pub open spec fn request(self) -> Option<RequestView> {
        match self.connect.outcome() {
            None => self.connect.request(),
            Some(Ok(_)) => self.poller.request(),
            Some(Err(_)) => None,
        }
    }

    /// How the attachment ended, if it has.
    pub open spec fn outcome(self) -> Option<Result<(), FaultView>> {
        match self.connect.outcome() {
            None => None,
            Some(Ok(_)) => self.poller.outcome(),
            Some(Err(fault)) => Some(Err(fault)),
        }
    }

    /// The attachment after the host's reply to the pending request.
    pub open spec fn after(self, reply: ReplyView) -> AttachView {
        match self.connect.outcome() {
            None => AttachView { connect: self.connect.after(reply), ..self },
            Some(Ok(_)) => AttachView { poller: self.poller.after(reply), ..self },
            Some(Err(_)) => self,
        }
    }
}

impl View for Attach {
    type V = AttachView;

    closed spec fn view(&self) -> AttachView {
        AttachView { handle: self.handle@, connect: self.connect@, poller: self.poller@ }
    }
}

impl Attach {
    /// An attachment of `handle` that has asked for nothing yet.
    pub fn new(handle: BlockDeviceHandle, format: ImageFormat) -> (attach: Attach)
        ensures
            attach@ == AttachView::fresh(handle@, format),
    {
        let connect = Sequence::new(handle.connect_plan(format));
        let poller = Poller::standard(handle.partition_path.clone());
        Attach { handle, connect, poller }
    }

    /// What to ask of the host next, if anything.
    pub fn request(&self) -> (request: Option<Request>)
        ensures
            request_view(request) == self@.request(),
    {
        if !self.connect.is_finished() {
            self.connect.request()
        } else if self.connect.has_succeeded() {
            self.poller.request()
        } else {
            None
        }
    }

    /// Whether the attachment has ended.
    pub fn is_finished(&self) -> (finished: bool)
        ensures
            finished == self@.outcome().is_some(),
    {
        if !self.connect.is_finished() {
            false
        } else if self.connect.has_succeeded() {
            self.poller.is_finished()
        } else {
            true
        }
    }

    /// Whether the attachment has ended with the partition in place.
    pub fn has_succeeded(&self) -> (succeeded: bool)
        ensures
            succeeded == (self@.outcome() == Some(Ok::<(), FaultView>(()))),
    {
        self.connect.has_succeeded() && self.poller.has_succeeded()
    }

    /// The device that is being attached.
    pub fn handle(&self) -> (handle: &BlockDeviceHandle)
        ensures
            handle@ == self@.handle,
    {
        &self.handle
    }

    /// Takes in the host's reply to the pending request.
    pub fn feed(&mut self, reply: Reply)
        ensures
            final(self)@ == old(self)@.after(reply@),
    {
        if !self.connect.is_finished() {
            self.connect.feed(reply);
        } else if self.connect.has_succeeded() {
            self.poller.feed(reply);
        }
    }

    /// How the attachment ended, if it has: with the handle of the attached
    /// device, or with the fault that ended it.
    pub fn into_result(self) -> (result: Option<Result<BlockDeviceHandle, AttachmentError>>)
        ensures
            match self@.outcome() {
                Some(Ok(_)) => result matches Some(Ok(handle)) && handle@ == self@.handle,
                Some(Err(fault)) => result matches Some(Err(error)) && error.cause@ == fault,
                None => result is None,
            },
    {
        match self.connect.into_outcome() {
            None => None,
            Some(Err(cause)) => Some(Err(AttachmentError { cause })),
            Some(Ok(())) => match self.poller.into_outcome() {
                None => None,
                Some(Err(cause)) => Some(Err(AttachmentError { cause })),
                Some(Ok(())) => Some(Ok(self.handle)),
            },
        }
    }
}

/// An attachment asks for something exactly as long as it has not ended.
pub proof fn lemma_attach_asks_until_done(attach: AttachView)
    ensures
        attach.request() is None <==> attach.outcome() is Some,
{
}

} // verus!
