use cvm_tools::host::{CommandLine, ExternalCommandError, Fault, Reply, Request};
use cvm_tools::seed::{SeedBuild, SeedError, SeedImage};
use cvm_tools::stop::StopError;
use cvm_tools::vm::{kill_at_fixed_path, Launch, LaunchError, VmProcess};
use std::collections::BTreeMap;

fn ok() -> Reply {
    Reply::Exited { code: Some(0), stdout: Vec::new(), stderr: Vec::new() }
}

fn exit(code: i32, stderr: &str) -> Reply {
    Reply::Exited { code: Some(code), stdout: Vec::new(), stderr: stderr.as_bytes().to_vec() }
}

const HYPERVISOR_ARGS: [&str; 30] = [
    "--cpu",
    "host",
    "-machine",
    "type=q35,accel=kvm",
    "-m",
    "2048",
    "-daemonize",
    "-pidfile",
    "/tmp/qemu_pid",
    "-qmp",
    "unix:/tmp/qemu-qmp.sock,server=on,wait=off",
    "-snapshot",
    "-netdev",
    "id=net00,type=user,hostfwd=tcp::2222-:22",
    "-device",
    "virtio-net-pci,netdev=net00",
    "-chardev",
    "socket,id=chrtpm,path=/tmp/vtpm/swtpm-sock.ctrl",
    "-tpmdev",
    "emulator,id=tpm0,chardev=chrtpm",
    "-device",
    "tpm-tis,tpmdev=tpm0",
    "-drive",
    "if=virtio,format=raw,file=jammy.img",
    "-drive",
    "if=virtio,format=raw,file=seed.img",
    "-drive",
    "if=pflash,format=raw,unit=0,file=/usr/share/OVMF/OVMF_CODE_4M.ms.fd,readonly=on",
    "-drive",
    "if=pflash,format=raw,unit=1,file=/tmp/OVMF_VARS.ms.fd",
];

fn vm() -> VmProcess {
    VmProcess::at_fixed_paths("jammy.img", "seed.img", "/tmp/vtpm/swtpm-sock")
}

fn copy_vars() -> Request {
    Request::CopyFile {
        from: "/usr/share/OVMF/OVMF_VARS_4M.ms.fd".to_string(),
        to: "/tmp/OVMF_VARS.ms.fd".to_string(),
    }
}

fn hypervisor() -> Request {
    let mut command = CommandLine::new("qemu-system-x86_64");
    for a in HYPERVISOR_ARGS {
        command = command.arg(a);
    }
    Request::Run { command }
}

/// A host that keeps files in memory and plays the hypervisor: it starts
/// only if every image it is given exists, writes to its variables as a
/// guest would, and leaves a pid file.
struct FakeHost {
    files: BTreeMap<String, String>,
    asked: Vec<Request>,
    boots: u32,
}

impl FakeHost {
    fn with_images(images: &[&str]) -> FakeHost {
        let mut files = BTreeMap::new();
        files.insert("/usr/share/OVMF/OVMF_VARS_4M.ms.fd".to_string(), "pristine".to_string());
        files.insert("/usr/share/OVMF/OVMF_CODE_4M.ms.fd".to_string(), "code".to_string());
        for image in images {
            files.insert(image.to_string(), "disk".to_string());
        }
        FakeHost { files, asked: Vec::new(), boots: 0 }
    }

    fn perform(&mut self, request: &Request) -> Reply {
        self.asked.push(request.clone());
        match request {
            Request::CopyFile { from, to } => match self.files.get(from).cloned() {
                Some(contents) => {
                    self.files.insert(to.clone(), contents);
                    Reply::Done
                }
                None => Reply::Failed { message: "No such file or directory (os error 2)".to_string() },
            },
            Request::Run { command } if command.program == "qemu-system-x86_64" => {
                let mut pid_file = None;
                for (i, arg) in command.args.iter().enumerate() {
                    if arg == "-pidfile" {
                        pid_file = Some(command.args[i + 1].clone());
                    }
                    if let Some(at) = arg.find("file=") {
                        let path = arg[at + 5..].split(',').next().unwrap().to_string();
                        if !self.files.contains_key(&path) {
                            let message = format!("Could not open '{}': No such file or directory\n", path);
                            return exit(1, &message);
                        }
                        if arg.contains("unit=1") {
                            self.boots += 1;
                            self.files.insert(path, format!("written by boot {}", self.boots));
                        }
                    }
                }
                self.files.insert(pid_file.unwrap(), "31337\n".to_string());
                ok()
            }
            _ => Reply::Failed { message: "unsupported".to_string() },
        }
    }

    fn launch(&mut self, vm: &VmProcess) -> Result<(), LaunchError> {
        let mut launch = Launch::new(vm);
        while let Some(request) = launch.request() {
            let reply = self.perform(&request);
            launch.feed(reply);
        }
        launch.into_result().unwrap()
    }
}

#[test]
fn vm_fixed_paths() {
    let vm = vm();
    assert_eq!(vm.pid_file, "/tmp/qemu_pid");
    assert_eq!(vm.qmp_socket, "/tmp/qemu-qmp.sock");
    assert_eq!(vm.disk_image, "jammy.img");
    assert_eq!(vm.seed_image, "seed.img");
    assert_eq!(vm.firmware_code, "/usr/share/OVMF/OVMF_CODE_4M.ms.fd");
    assert_eq!(vm.firmware_vars_template, "/usr/share/OVMF/OVMF_VARS_4M.ms.fd");
    assert_eq!(vm.firmware_vars_scratch, "/tmp/OVMF_VARS.ms.fd");
    assert_eq!(vm.tpm_socket, "/tmp/vtpm/swtpm-sock");
}

#[test]
fn hypervisor_command_lists_every_argument() {
    let command = vm().hypervisor_command();
    assert_eq!(command.program, "qemu-system-x86_64");
    assert_eq!(command.args, HYPERVISOR_ARGS.to_vec());
}

#[test]
fn launch_plan_copies_the_variables_and_then_starts_the_hypervisor() {
    assert_eq!(vm().launch_plan(), vec![copy_vars(), hypervisor()]);
}

#[test]
fn launch_succeeds_when_the_hypervisor_daemonizes() {
    let mut launch = Launch::new(&vm());
    assert_eq!(launch.request(), Some(copy_vars()));
    launch.feed(Reply::Done);
    assert_eq!(launch.request(), Some(hypervisor()));
    assert_eq!(launch.clone().into_result(), None);
    launch.feed(ok());
    assert_eq!(launch.request(), None);
    assert_eq!(launch.into_result(), Some(Ok(())));
}

#[test]
fn launch_fails_when_the_firmware_copy_fails() {
    let mut launch = Launch::new(&vm());
    launch.feed(Reply::Failed { message: "No such file or directory (os error 2)".to_string() });
    assert_eq!(launch.request(), None);
    assert_eq!(
        launch.into_result(),
        Some(Err(LaunchError {
            cause: Fault::Host { message: "No such file or directory (os error 2)".to_string() }
        }))
    );
}

#[test]
fn launch_fails_when_the_hypervisor_cannot_be_run() {
    let mut launch = Launch::new(&vm());
    launch.feed(Reply::Done);
    launch.feed(Reply::Failed { message: "No such file or directory (os error 2)".to_string() });
    assert_eq!(
        launch.into_result(),
        Some(Err(LaunchError {
            cause: Fault::Host { message: "No such file or directory (os error 2)".to_string() }
        }))
    );
}

#[test]
fn vm_start_fails_fast_without_a_pid_file_when_the_disk_image_is_missing() {
    let mut host = FakeHost::with_images(&["seed.img"]);
    let result = host.launch(&vm());
    assert_eq!(
        result,
        Err(LaunchError {
            cause: Fault::Command {
                error: ExternalCommandError {
                    program: "qemu-system-x86_64".to_string(),
                    arguments: HYPERVISOR_ARGS.iter().map(|a| a.to_string()).collect(),
                    exit_code: Some(1),
                    stderr: b"Could not open 'jammy.img': No such file or directory\n".to_vec(),
                }
            }
        })
    );
    assert_eq!(
        result.unwrap_err().cause.message(),
        "Could not open 'jammy.img': No such file or directory\n"
    );
    assert_eq!(host.asked, vec![copy_vars(), hypervisor()]);
    assert!(!host.files.contains_key("/tmp/qemu_pid"));
}

#[test]
fn every_launch_starts_from_a_fresh_copy_and_the_template_is_never_changed() {
    let mut host = FakeHost::with_images(&["jammy.img", "seed.img"]);
    for n in 1..=5 {
        host.asked.clear();
        assert_eq!(host.launch(&vm()), Ok(()));
        assert_eq!(host.asked, vec![copy_vars(), hypervisor()]);
        assert_eq!(host.files["/usr/share/OVMF/OVMF_VARS_4M.ms.fd"], "pristine");
        assert_eq!(host.files["/tmp/OVMF_VARS.ms.fd"], format!("written by boot {}", n));
        assert_eq!(host.files["/tmp/qemu_pid"], "31337\n");
    }
    assert_eq!(host.files["jammy.img"], "disk");
}

#[test]
fn vm_kill_reads_the_pid_signals_and_removes_the_pid_file() {
    let mut stop = vm().kill();
    assert_eq!(stop.request(), Some(Request::ReadFile { path: "/tmp/qemu_pid".to_string() }));
    stop.feed(Reply::Contents { text: "31337\n".to_string() });
    assert_eq!(
        stop.request(),
        Some(Request::Run { command: CommandLine::new("kill").arg("31337") })
    );
    stop.feed(ok());
    assert_eq!(stop.request(), Some(Request::RemoveFile { path: "/tmp/qemu_pid".to_string() }));
    stop.feed(Reply::Done);
    assert_eq!(stop.into_result(), Some(Ok(())));
}

#[test]
fn vm_kill_at_the_fixed_path_is_the_kill_of_the_fixed_machine() {
    assert_eq!(kill_at_fixed_path(), vm().kill());
    assert_eq!(
        kill_at_fixed_path().request(),
        Some(Request::ReadFile { path: "/tmp/qemu_pid".to_string() })
    );
}

#[test]
fn vm_kill_fails_when_the_pid_file_cannot_be_removed() {
    let mut stop = vm().kill();
    stop.feed(Reply::Contents { text: "31337".to_string() });
    stop.feed(ok());
    stop.feed(Reply::Failed { message: "No such file".to_string() });
    assert_eq!(
        stop.into_result(),
        Some(Err(StopError { cause: Fault::Host { message: "No such file".to_string() } }))
    );
}

#[test]
fn other_vm_paths_are_used_as_given() {
    let vm = VmProcess {
        pid_file: "/run/vm.pid".to_string(),
        qmp_socket: "/run/qmp".to_string(),
        disk_image: "d.raw".to_string(),
        seed_image: "s.img".to_string(),
        firmware_code: "/fw/code".to_string(),
        firmware_vars_template: "/fw/vars".to_string(),
        firmware_vars_scratch: "/run/vars".to_string(),
        tpm_socket: "/run/tpm".to_string(),
    };
    let args = vm.hypervisor_command().args;
    assert_eq!(args[8], "/run/vm.pid");
    assert_eq!(args[10], "unix:/run/qmp,server=on,wait=off");
    assert_eq!(args[17], "socket,id=chrtpm,path=/run/tpm.ctrl");
    assert_eq!(args[23], "if=virtio,format=raw,file=d.raw");
    assert_eq!(args[25], "if=virtio,format=raw,file=s.img");
    assert_eq!(args[27], "if=pflash,format=raw,unit=0,file=/fw/code,readonly=on");
    assert_eq!(args[29], "if=pflash,format=raw,unit=1,file=/run/vars");
    assert_eq!(
        vm.launch_plan()[0],
        Request::CopyFile { from: "/fw/vars".to_string(), to: "/run/vars".to_string() }
    );
}

#[test]
fn seed_image_paths_and_user_data() {
    let seed = SeedImage::under("/tmp", "gh:gjolly");
    assert_eq!(seed.drive_path, "seed.img");
    assert_eq!(seed.user_data_path, "/tmp/user_data.yaml");
    assert_eq!(seed.key_id, "gh:gjolly");
    assert_eq!(seed.user_data(), "#cloud-config\nssh_import_id:\n  - gh:gjolly\n");
    assert_eq!(
        seed.package_command(),
        CommandLine::new("cloud-localds").arg("seed.img").arg("/tmp/user_data.yaml")
    );
}

#[test]
fn seed_build_writes_the_user_data_and_packages_it() {
    let seed = SeedImage::under("/tmp", "gh:gjolly");
    let write = Request::WriteFile {
        path: "/tmp/user_data.yaml".to_string(),
        contents: "#cloud-config\nssh_import_id:\n  - gh:gjolly\n".to_string(),
    };
    let package = Request::Run {
        command: CommandLine::new("cloud-localds").arg("seed.img").arg("/tmp/user_data.yaml"),
    };
    assert_eq!(seed.build_plan(), vec![write.clone(), package.clone()]);
    let mut build = SeedBuild::new(&seed);
    assert_eq!(build.request(), Some(write));
    build.feed(Reply::Done);
    assert_eq!(build.request(), Some(package));
    assert_eq!(build.clone().into_result(), None);
    build.feed(ok());
    assert_eq!(build.request(), None);
    assert_eq!(build.into_result(), Some(Ok("seed.img".to_string())));
}

#[test]
fn seed_build_fails_when_the_user_data_cannot_be_written() {
    let mut build = SeedBuild::new(&SeedImage::under("/nowhere", "k"));
    build.feed(Reply::Failed { message: "No such file or directory (os error 2)".to_string() });
    assert_eq!(build.request(), None);
    assert_eq!(
        build.into_result(),
        Some(Err(SeedError {
            cause: Fault::Host { message: "No such file or directory (os error 2)".to_string() }
        }))
    );
}

#[test]
fn seed_build_fails_when_the_packaging_fails() {
    let mut build = SeedBuild::new(&SeedImage::under("/tmp", "k"));
    build.feed(Reply::Done);
    build.feed(exit(1, "cloud-localds: missing genisoimage\n"));
    assert_eq!(
        build.into_result(),
        Some(Err(SeedError {
            cause: Fault::Command {
                error: ExternalCommandError {
                    program: "cloud-localds".to_string(),
                    arguments: vec!["seed.img".to_string(), "/tmp/user_data.yaml".to_string()],
                    exit_code: Some(1),
                    stderr: b"cloud-localds: missing genisoimage\n".to_vec(),
                }
            }
        }))
    );
}
