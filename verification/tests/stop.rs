use cvm_tools::host::{CommandLine, ExternalCommandError, Fault, Reply, Request};
use cvm_tools::stop::{kill_command_for, ProcessStop, StopError};

fn exit(code: i32, stderr: &str) -> Reply {
    Reply::Exited { code: Some(code), stdout: Vec::new(), stderr: stderr.as_bytes().to_vec() }
}

fn pid_text(s: &str) -> Reply {
    Reply::Contents { text: s.to_string() }
}

#[test]
fn kill_command_trims_the_pid() {
    assert_eq!(kill_command_for("4242\n"), CommandLine::new("kill").arg("4242"));
    assert_eq!(kill_command_for("  77\t\r\n"), CommandLine::new("kill").arg("77"));
    assert_eq!(kill_command_for("9"), CommandLine::new("kill").arg("9"));
    assert_eq!(kill_command_for(""), CommandLine::new("kill").arg(""));
}

#[test]
fn stop_reads_signals_and_removes() {
    let mut stop = ProcessStop::new("/tmp/qemu_pid".to_string(), true);
    assert_eq!(stop.request(), Some(Request::ReadFile { path: "/tmp/qemu_pid".to_string() }));
    stop.feed(pid_text("31337\n"));
    assert_eq!(
        stop.request(),
        Some(Request::Run { command: CommandLine::new("kill").arg("31337") })
    );
    assert!(!stop.is_finished());
    stop.feed(exit(0, ""));
    assert_eq!(stop.request(), Some(Request::RemoveFile { path: "/tmp/qemu_pid".to_string() }));
    stop.feed(Reply::Done);
    assert_eq!(stop.request(), None);
    assert!(stop.is_finished());
    assert_eq!(stop.clone().into_outcome(), Some(Ok(())));
    assert_eq!(stop.into_result(), Some(Ok(())));
}

#[test]
fn a_missing_pid_file_fails_the_stop() {
    let mut stop = ProcessStop::new("/tmp/vtpm_pid".to_string(), false);
    stop.feed(Reply::Failed { message: "No such file or directory (os error 2)".to_string() });
    assert_eq!(stop.request(), None);
    assert_eq!(
        stop.into_result(),
        Some(Err(StopError {
            cause: Fault::Host { message: "No such file or directory (os error 2)".to_string() }
        }))
    );
}

#[test]
fn a_failed_termination_request_fails_the_stop_and_keeps_the_pid_file() {
    let mut stop = ProcessStop::new("/tmp/vtpm_pid".to_string(), false);
    stop.feed(pid_text("12"));
    stop.feed(exit(1, "kill: (12) - No such process\n"));
    assert_eq!(stop.request(), None);
    assert_eq!(
        stop.into_result(),
        Some(Err(StopError {
            cause: Fault::Command {
                error: ExternalCommandError {
                    program: "kill".to_string(),
                    arguments: vec!["12".to_string()],
                    exit_code: Some(1),
                    stderr: b"kill: (12) - No such process\n".to_vec(),
                }
            }
        }))
    );
}

#[test]
fn a_failed_removal_fails_only_where_it_must_succeed() {
    let mut strict = ProcessStop::new("/tmp/qemu_pid".to_string(), true);
    strict.feed(pid_text("1"));
    strict.feed(exit(0, ""));
    strict.feed(Reply::Failed { message: "gone".to_string() });
    assert_eq!(
        strict.into_result(),
        Some(Err(StopError { cause: Fault::Host { message: "gone".to_string() } }))
    );

    let mut lenient = ProcessStop::new("/tmp/vtpm_pid".to_string(), false);
    lenient.feed(pid_text("1"));
    lenient.feed(exit(0, ""));
    lenient.feed(Reply::Failed { message: "gone".to_string() });
    assert_eq!(lenient.into_result(), Some(Ok(())));
}

#[test]
fn a_reply_of_the_wrong_kind_fails_the_stop() {
    let mut stop = ProcessStop::new("p".to_string(), true);
    stop.feed(Reply::Done);
    assert_eq!(stop.into_outcome(), Some(Err(Fault::Unexpected)));
}

#[test]
fn an_unfinished_stop_has_no_result() {
    let mut stop = ProcessStop::new("p".to_string(), true);
    assert_eq!(stop.clone().into_result(), None);
    stop.feed(pid_text("1"));
    assert_eq!(stop.clone().into_result(), None);
    stop.feed(exit(0, ""));
    assert_eq!(stop.into_outcome(), None);
}
