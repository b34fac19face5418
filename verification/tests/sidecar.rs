use cvm_tools::host::{judge, CommandLine, ExternalCommandError, Fault, Reply, Request};
use cvm_tools::sidecar::{
    Provision, ProvisionError, ProvisionReport, ProvisionStage, SidecarProcess, SidecarStart,
    SidecarStartError, SidecarStatus, StatusQuery,
};
use std::collections::BTreeMap;

fn ok() -> Reply {
    Reply::Exited { code: Some(0), stdout: Vec::new(), stderr: Vec::new() }
}

fn exit(code: i32, stderr: &str) -> Reply {
    Reply::Exited { code: Some(code), stdout: Vec::new(), stderr: stderr.as_bytes().to_vec() }
}

fn run(program: &str, args: &[&str]) -> Request {
    let mut command = CommandLine::new(program);
    for a in args {
        command = command.arg(a);
    }
    Request::Run { command }
}

fn failed(program: &str, args: &[&str], code: i32, stderr: &str) -> Fault {
    Fault::Command {
        error: ExternalCommandError {
            program: program.to_string(),
            arguments: args.iter().map(|a| a.to_string()).collect(),
            exit_code: Some(code),
            stderr: stderr.as_bytes().to_vec(),
        },
    }
}

const START_ARGS: [&str; 11] = [
    "socket",
    "--tpm2",
    "--pid",
    "file=/tmp/vtpm_pid",
    "--tpmstate",
    "dir=/tmp/vtpm",
    "--ctrl",
    "type=unixio,path=/tmp/vtpm/swtpm-sock.ctrl",
    "--flags",
    "not-need-init,startup-clear",
    "-d",
];

fn start_request(server: bool) -> Request {
    let mut args: Vec<&str> = START_ARGS.to_vec();
    if server {
        args.push("--server");
        args.push("type=unixio,path=/tmp/vtpm/swtpm-sock");
    }
    run("swtpm", &args)
}

fn create_primary() -> Request {
    run("tpm2_createprimary", &["-T", "swtpm:path=/tmp/vtpm/swtpm-sock", "-c", "srk.ctx"])
}

fn read_public() -> Request {
    run(
        "tpm2_readpublic",
        &["-T", "swtpm:path=/tmp/vtpm/swtpm-sock", "-c", "srk.ctx", "-o", "srk.pub"],
    )
}

/// A host that keeps files in memory and plays the emulator: starting it
/// leaves a pid file, generating the key leaves the permanent state, and a
/// termination request is granted to the pid that the pid file holds.
struct FakeHost {
    files: BTreeMap<String, String>,
    dirs: Vec<String>,
    running: Option<String>,
    asked: Vec<Request>,
    keys_fail: bool,
}

impl FakeHost {
    fn new() -> FakeHost {
        FakeHost {
            files: BTreeMap::new(),
            dirs: Vec::new(),
            running: None,
            asked: Vec::new(),
            keys_fail: false,
        }
    }

    fn perform(&mut self, request: &Request) -> Reply {
        self.asked.push(request.clone());
        match request {
            Request::Run { command } => match command.program.as_str() {
                "swtpm" => {
                    if !self.dirs.contains(&"/tmp/vtpm".to_string()) {
                        return exit(1, "swtpm: state directory missing");
                    }
                    self.files.insert("/tmp/vtpm_pid".to_string(), "4242".to_string());
                    self.running = Some("4242".to_string());
                    ok()
                }
                "tpm2_createprimary" => {
                    if self.keys_fail {
                        return exit(1, "ERROR: Esys_CreatePrimary\n");
                    }
                    self.files.insert("/tmp/vtpm/tpm2-00.permall".to_string(), "state".to_string());
                    ok()
                }
                "tpm2_readpublic" => ok(),
                "kill" => {
                    if self.running.as_deref() == Some(command.args[0].as_str()) {
                        self.running = None;
                        ok()
                    } else {
                        exit(1, "kill: No such process\n")
                    }
                }
                _ => exit(127, "command not found"),
            },
            Request::CreateDirAll { path } => {
                self.dirs.push(path.clone());
                Reply::Done
            }
            Request::ReadFile { path } => match self.files.get(path) {
                Some(text) => Reply::Contents { text: text.clone() },
                None => Reply::Failed { message: "No such file or directory (os error 2)".to_string() },
            },
            Request::Probe { path } => Reply::Exists { present: self.files.contains_key(path) },
            Request::RemoveFile { path } => match self.files.remove(path) {
                Some(_) => Reply::Done,
                None => Reply::Failed { message: "No such file or directory (os error 2)".to_string() },
            },
            Request::RemoveDirAll { path } => {
                let prefix = format!("{}/", path);
                self.files.retain(|name, _| !name.starts_with(&prefix));
                self.dirs.retain(|d| d != path);
                Reply::Done
            }
            _ => Reply::Failed { message: "unsupported".to_string() },
        }
    }

    fn status(&mut self, sidecar: &SidecarProcess) -> SidecarStatus {
        let mut query = StatusQuery::new(sidecar);
        while let Some(request) = query.request() {
            let reply = self.perform(&request);
            query.feed(reply);
        }
        query.into_status().unwrap()
    }

    fn start(&mut self, sidecar: &SidecarProcess, server: bool) -> Result<(), SidecarStartError> {
        let mut start = SidecarStart::new(sidecar, server);
        while let Some(request) = start.request() {
            let reply = self.perform(&request);
            start.feed(reply);
        }
        start.into_result().unwrap()
    }

    fn provision(&mut self, sidecar: &SidecarProcess) -> ProvisionReport {
        let mut provision = Provision::new(sidecar);
        while let Some(request) = provision.request() {
            let reply = self.perform(&request);
            provision.feed(reply);
        }
        provision.into_report().unwrap()
    }

    fn stop(&mut self, sidecar: &SidecarProcess) -> Result<(), Fault> {
        let mut stop = sidecar.stop();
        while let Some(request) = stop.request() {
            let reply = self.perform(&request);
            stop.feed(reply);
        }
        stop.into_outcome().unwrap()
    }
}

#[test]
fn sidecar_fixed_paths() {
    let sidecar = SidecarProcess::at_fixed_paths();
    assert_eq!(sidecar.pid_file_path, "/tmp/vtpm_pid");
    assert_eq!(sidecar.socket_path, "/tmp/vtpm/swtpm-sock");
    assert_eq!(sidecar.state_directory, "/tmp/vtpm");
    assert_eq!(sidecar.marker_path(), "/tmp/vtpm/tpm2-00.permall");
}

#[test]
fn start_command_without_and_with_the_server_socket() {
    let sidecar = SidecarProcess::at_fixed_paths();
    assert_eq!(Request::Run { command: sidecar.start_command(false) }, start_request(false));
    assert_eq!(Request::Run { command: sidecar.start_command(true) }, start_request(true));
    assert_eq!(sidecar.start_command(false).args.len(), 11);
    assert_eq!(sidecar.start_command(true).args.len(), 13);
}

#[test]
fn start_plan_makes_the_state_directory_first() {
    let sidecar = SidecarProcess::at_fixed_paths();
    assert_eq!(
        sidecar.start_plan(false),
        vec![Request::CreateDirAll { path: "/tmp/vtpm".to_string() }, start_request(false)]
    );
}

#[test]
fn key_commands() {
    let sidecar = SidecarProcess::at_fixed_paths();
    assert_eq!(Request::Run { command: sidecar.create_primary_command() }, create_primary());
    assert_eq!(Request::Run { command: sidecar.read_public_command() }, read_public());
    assert_eq!(sidecar.key_plan(), vec![create_primary(), read_public()]);
}

#[test]
fn destroy_removes_the_state_directory() {
    let sidecar = SidecarProcess::at_fixed_paths();
    let request = sidecar.destroy_request();
    assert_eq!(request, Request::RemoveDirAll { path: "/tmp/vtpm".to_string() });
    assert!(judge(&request, Reply::Done).is_ok());
    assert_eq!(
        judge(&request, Reply::Failed { message: "denied".to_string() }),
        Err(Fault::Host { message: "denied".to_string() })
    );
}

#[test]
fn status_truth_table() {
    assert_eq!(SidecarStatus::of(None, false), SidecarStatus::NotSetup);
    assert_eq!(SidecarStatus::of(None, true), SidecarStatus::SetupNotRunning);
    assert_eq!(
        SidecarStatus::of(Some("77\n".to_string()), false),
        SidecarStatus::Running { pid: "77\n".to_string() }
    );
    assert_eq!(
        SidecarStatus::of(Some("77\n".to_string()), true),
        SidecarStatus::Running { pid: "77\n".to_string() }
    );
}

#[test]
fn status_messages() {
    assert_eq!(SidecarStatus::NotSetup.message(), "vTPM not setup and not running");
    assert_eq!(SidecarStatus::SetupNotRunning.message(), "vTPM setup but not running");
    assert_eq!(
        SidecarStatus::Running { pid: "4242".to_string() }.message(),
        "vTPM is running, pid: 4242"
    );
}

#[test]
fn status_query_reads_the_pid_file_and_then_looks_for_the_marker() {
    let sidecar = SidecarProcess::at_fixed_paths();
    let mut query = StatusQuery::new(&sidecar);
    assert_eq!(query.request(), Some(Request::ReadFile { path: "/tmp/vtpm_pid".to_string() }));
    assert_eq!(query.clone().into_status(), None);
    query.feed(Reply::Failed { message: "No such file".to_string() });
    assert_eq!(
        query.request(),
        Some(Request::Probe { path: "/tmp/vtpm/tpm2-00.permall".to_string() })
    );
    assert_eq!(query.clone().into_status(), None);
    let mut absent = query.clone();
    absent.feed(Reply::Exists { present: false });
    assert_eq!(absent.request(), None);
    assert_eq!(absent.into_status(), Some(SidecarStatus::NotSetup));
    let mut present = query.clone();
    present.feed(Reply::Exists { present: true });
    assert_eq!(present.into_status(), Some(SidecarStatus::SetupNotRunning));
    let mut unknown = query;
    unknown.feed(Reply::Failed { message: "io".to_string() });
    assert_eq!(unknown.into_status(), Some(SidecarStatus::NotSetup));
}

#[test]
fn status_query_with_a_pid_file_asks_no_more() {
    let sidecar = SidecarProcess::at_fixed_paths();
    let mut query = StatusQuery::new(&sidecar);
    query.feed(Reply::Contents { text: "4242".to_string() });
    assert_eq!(query.request(), None);
    assert_eq!(query.into_status(), Some(SidecarStatus::Running { pid: "4242".to_string() }));
}

#[test]
fn status_query_changes_nothing_on_the_host() {
    let sidecar = SidecarProcess::at_fixed_paths();
    let mut host = FakeHost::new();
    host.files.insert("/tmp/vtpm/tpm2-00.permall".to_string(), "state".to_string());
    let before = host.files.clone();
    assert_eq!(host.status(&sidecar), SidecarStatus::SetupNotRunning);
    assert_eq!(host.files, before);
    for request in &host.asked {
        assert!(matches!(request, Request::ReadFile { .. } | Request::Probe { .. }));
    }
}

#[test]
fn start_fails_when_the_state_directory_cannot_be_made() {
    let sidecar = SidecarProcess::at_fixed_paths();
    let mut start = SidecarStart::new(&sidecar, false);
    assert_eq!(start.request(), Some(Request::CreateDirAll { path: "/tmp/vtpm".to_string() }));
    start.feed(Reply::Failed { message: "permission denied".to_string() });
    assert_eq!(start.request(), None);
    assert_eq!(
        start.into_result(),
        Some(Err(SidecarStartError { cause: Fault::Host { message: "permission denied".to_string() } }))
    );
}

#[test]
fn start_fails_when_the_emulator_exits_nonzero() {
    let sidecar = SidecarProcess::at_fixed_paths();
    let mut start = SidecarStart::new(&sidecar, false);
    start.feed(Reply::Done);
    assert_eq!(start.request(), Some(start_request(false)));
    assert_eq!(start.clone().into_result(), None);
    start.feed(exit(1, "swtpm: Could not open pidfile\n"));
    assert_eq!(
        start.into_result(),
        Some(Err(SidecarStartError {
            cause: failed("swtpm", &START_ARGS, 1, "swtpm: Could not open pidfile\n")
        }))
    );
}

#[test]
fn setup_then_status_reports_setup_not_running() {
    let sidecar = SidecarProcess::at_fixed_paths();
    let mut host = FakeHost::new();
    assert_eq!(host.status(&sidecar), SidecarStatus::NotSetup);
    host.asked.clear();
    let report = host.provision(&sidecar);
    assert_eq!(report, ProvisionReport { failure: None, stop_failure: None });
    assert_eq!(
        host.asked,
        vec![
            Request::CreateDirAll { path: "/tmp/vtpm".to_string() },
            start_request(true),
            create_primary(),
            read_public(),
            Request::ReadFile { path: "/tmp/vtpm_pid".to_string() },
            run("kill", &["4242"]),
            Request::RemoveFile { path: "/tmp/vtpm_pid".to_string() },
        ]
    );
    assert_eq!(host.running, None);
    assert_eq!(host.status(&sidecar), SidecarStatus::SetupNotRunning);
    assert_eq!(host.status(&sidecar).message(), "vTPM setup but not running");
}

#[test]
fn start_then_status_reports_running_and_kill_then_status_reports_setup_not_running() {
    let sidecar = SidecarProcess::at_fixed_paths();
    let mut host = FakeHost::new();
    assert_eq!(host.provision(&sidecar).failure, None);
    assert_eq!(host.start(&sidecar, false), Ok(()));
    let status = host.status(&sidecar);
    assert_eq!(status, SidecarStatus::Running { pid: host.files["/tmp/vtpm_pid"].clone() });
    assert_eq!(status.message(), "vTPM is running, pid: 4242");
    assert_eq!(host.stop(&sidecar), Ok(()));
    assert!(!host.files.contains_key("/tmp/vtpm_pid"));
    assert_eq!(host.status(&sidecar), SidecarStatus::SetupNotRunning);
}

#[test]
fn destroy_after_stop_leaves_nothing_set_up() {
    let sidecar = SidecarProcess::at_fixed_paths();
    let mut host = FakeHost::new();
    assert_eq!(host.provision(&sidecar).failure, None);
    let reply = host.perform(&sidecar.destroy_request());
    assert_eq!(reply, Reply::Done);
    assert_eq!(host.status(&sidecar), SidecarStatus::NotSetup);
}

#[test]
fn a_failed_key_generation_still_stops_the_emulator() {
    let sidecar = SidecarProcess::at_fixed_paths();
    let mut host = FakeHost::new();
    host.keys_fail = true;
    let report = host.provision(&sidecar);
    assert_eq!(
        report,
        ProvisionReport {
            failure: Some(ProvisionError {
                stage: ProvisionStage::KeyGeneration,
                cause: failed(
                    "tpm2_createprimary",
                    &["-T", "swtpm:path=/tmp/vtpm/swtpm-sock", "-c", "srk.ctx"],
                    1,
                    "ERROR: Esys_CreatePrimary\n"
                ),
            }),
            stop_failure: None,
        }
    );
    assert!(!host.asked.contains(&read_public()));
    assert!(host.asked.contains(&run("kill", &["4242"])));
    assert_eq!(host.running, None);
}

#[test]
fn a_failed_stop_does_not_fail_the_provisioning() {
    let sidecar = SidecarProcess::at_fixed_paths();
    let mut provision = Provision::new(&sidecar);
    provision.feed(Reply::Done);
    provision.feed(ok());
    provision.feed(ok());
    provision.feed(ok());
    assert_eq!(
        provision.request(),
        Some(Request::ReadFile { path: "/tmp/vtpm_pid".to_string() })
    );
    assert!(provision.clone().into_report().is_none());
    provision.feed(Reply::Failed { message: "No such file".to_string() });
    assert_eq!(provision.request(), None);
    assert_eq!(
        provision.into_report(),
        Some(ProvisionReport {
            failure: None,
            stop_failure: Some(Fault::Host { message: "No such file".to_string() }),
        })
    );
}

#[test]
fn a_failed_start_ends_the_provisioning_at_once() {
    let sidecar = SidecarProcess::at_fixed_paths();
    let mut provision = Provision::new(&sidecar);
    provision.feed(Reply::Done);
    provision.feed(exit(1, "swtpm: no"));
    assert_eq!(provision.request(), None);
    let before = provision.clone();
    provision.feed(ok());
    assert_eq!(provision, before);
    let mut args: Vec<&str> = START_ARGS.to_vec();
    args.push("--server");
    args.push("type=unixio,path=/tmp/vtpm/swtpm-sock");
    assert_eq!(
        provision.into_report(),
        Some(ProvisionReport {
            failure: Some(ProvisionError {
                stage: ProvisionStage::Start,
                cause: failed("swtpm", &args, 1, "swtpm: no"),
            }),
            stop_failure: None,
        })
    );
}

#[test]
fn the_sidecar_stop_tolerates_a_pid_file_that_is_already_gone() {
    let sidecar = SidecarProcess::at_fixed_paths();
    let mut stop = sidecar.stop();
    stop.feed(Reply::Contents { text: "4242\n".to_string() });
    assert_eq!(stop.request(), Some(run("kill", &["4242"])));
    stop.feed(ok());
    stop.feed(Reply::Failed { message: "No such file".to_string() });
    assert_eq!(stop.into_outcome(), Some(Ok(())));
}

#[test]
fn other_sidecar_paths_are_used_as_given() {
    let sidecar = SidecarProcess {
        pid_file_path: "/run/t.pid".to_string(),
        socket_path: "/run/t/sock".to_string(),
        state_directory: "/var/lib/t/".to_string(),
    };
    assert_eq!(sidecar.marker_path(), "/var/lib/t/tpm2-00.permall");
    assert_eq!(
        sidecar.start_command(true).args,
        vec![
            "socket",
            "--tpm2",
            "--pid",
            "file=/run/t.pid",
            "--tpmstate",
            "dir=/var/lib/t/",
            "--ctrl",
            "type=unixio,path=/run/t/sock.ctrl",
            "--flags",
            "not-need-init,startup-clear",
            "-d",
            "--server",
            "type=unixio,path=/run/t/sock"
        ]
    );
}

#[test]
fn a_stale_pid_file_is_reported_as_running() {
    let sidecar = SidecarProcess::at_fixed_paths();
    let mut host = FakeHost::new();
    host.files.insert("/tmp/vtpm_pid".to_string(), "999\n".to_string());
    assert_eq!(host.running, None);
    assert_eq!(host.status(&sidecar), SidecarStatus::Running { pid: "999\n".to_string() });
    assert_eq!(host.status(&sidecar).message(), "vTPM is running, pid: 999\n");
    assert_eq!(host.stop(&sidecar).unwrap_err().message(), "kill: No such process\n");
    assert!(host.files.contains_key("/tmp/vtpm_pid"));
}
