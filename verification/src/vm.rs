//! Launching the virtual machine.

use vstd::prelude::*;
use vstd::string::*;
use crate::host::{
    CommandLine, CommandLineView, Fault, Reply, Request, request_view, RequestView, result_is,
};
use crate::sequence::{Sequence, SequenceView};
use crate::stop::{ProcessStop, ProcessStopView};
use crate::text::{chain, chain3};

verus! {

/// A virtual machine: where its process is tracked and what is attached to
/// it. The machine refers to the images; it does not own them.
#[derive(Clone, Debug, PartialEq, Eq)]
pub struct VmProcess {
    /// Where the hypervisor records its process id.
    pub pid_file: String,
    /// The management socket of the hypervisor.
    pub qmp_socket: String,
    /// The disk image to boot from.
    pub disk_image: String,
    /// The cloud-init seed image.
    pub seed_image: String,
    /// The read-only firmware code image.
    pub firmware_code: String,
    /// The template of the writable firmware variables. Never attached.
    pub firmware_vars_template: String,
    /// The per-launch copy of the firmware variables, which is attached.
    pub firmware_vars_scratch: String,
    /// The socket of the TPM emulator; its control socket is beside it.
    pub tpm_socket: String,
}

/// The text of a [`VmProcess`].
pub struct VmProcessView {
    pub pid_file: Seq<char>,
    pub qmp_socket: Seq<char>,
    pub disk_image: Seq<char>,
    pub seed_image: Seq<char>,
    pub firmware_code: Seq<char>,
    pub firmware_vars_template: Seq<char>,
    pub firmware_vars_scratch: Seq<char>,
    pub tpm_socket: Seq<char>,
}

impl View for VmProcess {
    type V = VmProcessView;

    open spec fn view(&self) -> VmProcessView {
        VmProcessView {
            pid_file: self.pid_file@,
            qmp_socket: self.qmp_socket@,
            disk_image: self.disk_image@,
            seed_image: self.seed_image@,
            firmware_code: self.firmware_code@,
            firmware_vars_template: self.firmware_vars_template@,
            firmware_vars_scratch: self.firmware_vars_scratch@,
            tpm_socket: self.tpm_socket@,
        }
    }
}

impl VmProcessView {
    /// The machine at the fixed paths of the command-line tool.
    pub open spec fn at_fixed_paths(
        disk_image: Seq<char>,
        seed_image: Seq<char>,
        tpm_socket: Seq<char>,
    ) -> VmProcessView {
        VmProcessView {
            pid_file: "/tmp/qemu_pid"@,
            qmp_socket: "/tmp/qemu-qmp.sock"@,
            disk_image,
            seed_image,
            firmware_code: "/usr/share/OVMF/OVMF_CODE_4M.ms.fd"@,
            firmware_vars_template: "/usr/share/OVMF/OVMF_VARS_4M.ms.fd"@,
            firmware_vars_scratch: "/tmp/OVMF_VARS.ms.fd"@,
            tpm_socket,
        }
    }

    /// The arguments of the hypervisor: a KVM machine with 2048 MiB that
    /// daemonizes, records its pid and exposes its management socket; that
    /// never writes guest changes back to its disks; with a user-mode
    /// network that forwards host port 2222 to the guest's port 22, a TPM
    /// on the emulator's control socket, the disk image, the seed image,
    /// the firmware code read-only and the scratch copy of the firmware
    /// variables.
    pub open spec fn hypervisor_args(self) -> Seq<Seq<char>> {
        seq![
            "--cpu"@,
            "host"@,
            "-machine"@,
            "type=q35,accel=kvm"@,
            "-m"@,
            "2048"@,
            "-daemonize"@,
            "-pidfile"@,
            self.pid_file,
            "-qmp"@,
            "unix:"@ + self.qmp_socket + ",server=on,wait=off"@,
            "-snapshot"@,
            "-netdev"@,
            "id=net00,type=user,hostfwd=tcp::2222-:22"@,
            "-device"@,
            "virtio-net-pci,netdev=net00"@,
            "-chardev"@,
            "socket,id=chrtpm,path="@ + self.tpm_socket + ".ctrl"@,
            "-tpmdev"@,
            "emulator,id=tpm0,chardev=chrtpm"@,
            "-device"@,
            "tpm-tis,tpmdev=tpm0"@,
            "-drive"@,
            "if=virtio,format=raw,file="@ + self.disk_image,
            "-drive"@,
            "if=virtio,format=raw,file="@ + self.seed_image,
            "-drive"@,
            "if=pflash,format=raw,unit=0,file="@ + self.firmware_code + ",readonly=on"@,
            "-drive"@,
            "if=pflash,format=raw,unit=1,file="@ + self.firmware_vars_scratch,
        ]
    }

    /// The hypervisor invocation.
    pub open spec fn hypervisor_command(self) -> CommandLineView {
        CommandLineView { program: "qemu-system-x86_64"@, args: self.hypervisor_args() }
    }

    /// The steps of a launch: copy the firmware variables template to the
    /// scratch location, then start the hypervisor.
    pub open spec fn launch_plan(self) -> Seq<RequestView> {
        seq![
            RequestView::CopyFile {
                from: self.firmware_vars_template,
                to: self.firmware_vars_scratch,
            },
            RequestView::Run { command: self.hypervisor_command() },
        ]
    }
}

impl VmProcess {
    /// The machine at the fixed paths of the command-line tool.
    pub fn at_fixed_paths(disk_image: &str, seed_image: &str, tpm_socket: &str) -> (vm: VmProcess)
        ensures
            vm@ == VmProcessView::at_fixed_paths(disk_image@, seed_image@, tpm_socket@),
    {
        VmProcess {
            pid_file: String::from_str("/tmp/qemu_pid"),
            qmp_socket: String::from_str("/tmp/qemu-qmp.sock"),
            disk_image: String::from_str(disk_image),
            seed_image: String::from_str(seed_image),
            firmware_code: String::from_str("/usr/share/OVMF/OVMF_CODE_4M.ms.fd"),
            firmware_vars_template: String::from_str("/usr/share/OVMF/OVMF_VARS_4M.ms.fd"),
            firmware_vars_scratch: String::from_str("/tmp/OVMF_VARS.ms.fd"),
            tpm_socket: String::from_str(tpm_socket),
        }
    }

    /// The hypervisor invocation.
    pub fn hypervisor_command(&self) -> (command: CommandLine)
        ensures
            command@ == self@.hypervisor_command(),
    {
        let command = CommandLine::new("qemu-system-x86_64")
            .arg("--cpu").arg("host")
            .arg("-machine").arg("type=q35,accel=kvm")
            .arg("-m").arg("2048")
            .arg("-daemonize")
            .arg("-pidfile").arg(self.pid_file.as_str())
            .arg("-qmp").arg_owned(chain3("unix:", self.qmp_socket.as_str(), ",server=on,wait=off"))
            .arg("-snapshot")
            .arg("-netdev").arg("id=net00,type=user,hostfwd=tcp::2222-:22")
            .arg("-device").arg("virtio-net-pci,netdev=net00")
            .arg("-chardev").arg_owned(
                chain3("socket,id=chrtpm,path=", self.tpm_socket.as_str(), ".ctrl"),
            )
            .arg("-tpmdev").arg("emulator,id=tpm0,chardev=chrtpm")
            .arg("-device").arg("tpm-tis,tpmdev=tpm0")
            .arg("-drive").arg_owned(chain("if=virtio,format=raw,file=", self.disk_image.as_str()))
            .arg("-drive").arg_owned(chain("if=virtio,format=raw,file=", self.seed_image.as_str()))
            .arg("-drive").arg_owned(
                chain3(
                    "if=pflash,format=raw,unit=0,file=",
                    self.firmware_code.as_str(),
                    ",readonly=on",
                ),
            )
            .arg("-drive").arg_owned(
                chain(
                    "if=pflash,format=raw,unit=1,file=",
                    self.firmware_vars_scratch.as_str(),
                ),
            );
        assert(command@.args =~= self@.hypervisor_args());
        command
    }

    /// A stop of the hypervisor. The pid file must be gone afterwards: a
    /// removal that fails fails the stop.
    pub fn kill(&self) -> (stop: ProcessStop)
        ensures
            stop@ == ProcessStopView::fresh(self@.pid_file, true),
    {
        ProcessStop::new(self.pid_file.clone(), true)
    }

    /// The steps of a launch.
    pub fn launch_plan(&self) -> (plan: Vec<Request>)
        ensures
            plan.deep_view() == self@.launch_plan(),
    {
        let mut plan: Vec<Request> = Vec::new();
        plan.push(
            Request::CopyFile {
                from: self.firmware_vars_template.clone(),
                to: self.firmware_vars_scratch.clone(),
            },
        );
        plan.push(Request::Run { command: self.hypervisor_command() });
        assert(plan.deep_view() =~= self@.launch_plan());
        plan
    }
}

/// A stop of the hypervisor whose pid file is at the fixed path of the
/// command-line tool.
pub fn kill_at_fixed_path() -> (stop: ProcessStop)
    ensures
        stop@ == ProcessStopView::fresh("/tmp/qemu_pid"@, true),
{
    ProcessStop::new(String::from_str("/tmp/qemu_pid"), true)
}

/// A launch that failed: the firmware variables could not be copied, or the
/// hypervisor did not start.
#[derive(Clone, Debug, PartialEq, Eq)]
pub struct LaunchError {
    pub cause: Fault,
}

/// A launch in progress. The hypervisor daemonizes: once it has exited with
/// code 0 the machine counts as launched.
#[derive(Clone, Debug, PartialEq, Eq)]
pub struct Launch {
    plan: Sequence,
}

impl View for Launch {
    type V = SequenceView;

    closed spec fn view(&self) -> SequenceView {
        self.plan@
    }
}

impl Launch {
    /// A launch of `vm` that has asked for nothing yet.
    pub fn new(vm: &VmProcess) -> (launch: Launch)
        ensures
            launch@ == SequenceView::fresh(vm@.launch_plan()),
    {
        Launch { plan: Sequence::new(vm.launch_plan()) }
    }

    /// What to ask of the host next, if anything.
    pub fn request(&self) -> (request: Option<Request>)
        ensures
            request_view(request) == self@.request(),
    {
        self.plan.request()
    }

    /// Takes in the host's reply to the pending request.
    pub fn feed(&mut self, reply: Reply)
        ensures
            final(self)@ == old(self)@.after(reply@),
    {
        self.plan.feed(reply)
    }

    /// How the launch ended, if it has.
    pub fn into_result(self) -> (result: Option<Result<(), LaunchError>>)
        ensures
            result_is(result, |e: LaunchError| e.cause@, self@.outcome()),
    {
        match self.plan.into_outcome() {
            Some(Ok(())) => Some(Ok(())),
            Some(Err(cause)) => Some(Err(LaunchError { cause })),
            None => None,
        }
    }
}

/// Every launch works on a fresh copy of the firmware variables: its first
/// step copies the template to the scratch location, the hypervisor is
/// given the scratch copy as its writable variables, and, where the two
/// paths differ, no step has the host itself write to the template.
pub proof fn lemma_launch_spares_template(vm: VmProcessView)
    ensures
        vm.launch_plan().len() == 2,
        vm.launch_plan()[0] == (RequestView::CopyFile {
            from: vm.firmware_vars_template,
            to: vm.firmware_vars_scratch,
        }),
        vm.launch_plan()[1] == (RequestView::Run { command: vm.hypervisor_command() }),
        vm.hypervisor_args().last() == "if=pflash,format=raw,unit=1,file="@
            + vm.firmware_vars_scratch,
        forall|i: int|
            0 <= i < vm.launch_plan().len() && vm.firmware_vars_template
                != vm.firmware_vars_scratch ==> #[trigger] vm.launch_plan()[i].target() != Some(
                vm.firmware_vars_template,
            ),
{
}

} // verus!
