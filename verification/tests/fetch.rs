use cvm_tools::fetch::{parse_access_url, Fetch, FetchError, ImageSource, BYTE_LIMIT, COPY_ATTEMPTS};
use cvm_tools::host::{CommandLine, ExternalCommandError, Fault, Reply, Request};

fn ok_with(stdout: &[u8]) -> Reply {
    Reply::Exited { code: Some(0), stdout: stdout.to_vec(), stderr: Vec::new() }
}

fn exit(code: i32, stderr: &str) -> Reply {
    Reply::Exited { code: Some(code), stdout: Vec::new(), stderr: stderr.as_bytes().to_vec() }
}

fn run(program: &str, args: &[&str]) -> Request {
    let mut command = CommandLine::new(program);
    for a in args {
        command = command.arg(a);
    }
    Request::Run { command }
}

fn probe() -> Request {
    Request::Probe { path: "jammy.img".to_string() }
}

fn create_group() -> Request {
    run(
        "az",
        &["group", "create", "--location", "northeurope", "--resource-group", "cvm-tools-rg4"],
    )
}

fn create_disk() -> Request {
    run(
        "az",
        &[
            "disk",
            "create",
            "--resource-group",
            "cvm-tools-rg4",
            "--name",
            "cvm-tools-disk",
            "--hyper-v-generation",
            "V2",
            "--image-reference",
            "Canonical:0001-com-ubuntu-confidential-vm-jammy:22_04-lts-cvm:latest",
        ],
    )
}

fn export_disk() -> Request {
    run(
        "az",
        &[
            "disk",
            "grant-access",
            "--resource-group",
            "cvm-tools-rg4",
            "--name",
            "cvm-tools-disk",
            "--duration",
            "86400",
            "--query",
            "accessSas",
        ],
    )
}

fn announce() -> Request {
    Request::Notify { message: "downloading disk, may take a while...".to_string() }
}

fn open() -> Request {
    Request::OpenTransfer {
        url: "https://md-x.blob.core.windows.net/abc?sv=1&sig=%2F".to_string(),
        destination: "jammy.img".to_string(),
        byte_limit: 4 * 1024 * 1024 * 1024,
    }
}

fn delete_group() -> Request {
    run("az", &["group", "delete", "--resource-group", "cvm-tools-rg4", "--no-wait", "--yes"])
}

const EXPORT_OUTPUT: &[u8] = b"\"https://md-x.blob.core.windows.net/abc?sv=1&sig=%2F\"\n";

fn happy(request: &Request) -> Reply {
    if *request == export_disk() {
        return ok_with(EXPORT_OUTPUT);
    }
    match request {
        Request::Run { .. } => ok_with(b""),
        Request::Probe { .. } => Reply::Exists { present: false },
        _ => Reply::Done,
    }
}

fn drive(mut fetch: Fetch, answer: &mut dyn FnMut(&Request) -> Reply) -> (Vec<Request>, Result<(), FetchError>) {
    let mut asked = Vec::new();
    while let Some(request) = fetch.request() {
        assert!(!fetch.is_finished());
        let reply = answer(&request);
        asked.push(request);
        fetch.feed(reply);
        assert!(asked.len() < 100);
    }
    assert!(fetch.is_finished());
    (asked, fetch.into_result().unwrap())
}

fn source(force: bool) -> ImageSource {
    ImageSource::with_fixed_names("jammy", "jammy.img", force)
}

#[test]
fn fixed_names_and_limits() {
    let s = source(false);
    assert_eq!(s.suite, "jammy");
    assert_eq!(s.destination, "jammy.img");
    assert!(!s.force);
    assert_eq!(s.group_name, "cvm-tools-rg4");
    assert_eq!(s.disk_name, "cvm-tools-disk");
    assert_eq!(s.location, "northeurope");
    assert_eq!(s.duplicate(), s);
    assert_eq!(BYTE_LIMIT, 4 * 1024 * 1024 * 1024);
    assert_eq!(COPY_ATTEMPTS, 10);
}

#[test]
fn cloud_commands() {
    let s = source(false);
    assert_eq!(
        s.image_reference(),
        "Canonical:0001-com-ubuntu-confidential-vm-jammy:22_04-lts-cvm:latest"
    );
    assert_eq!(Request::Run { command: s.create_group_command() }, create_group());
    assert_eq!(Request::Run { command: s.create_disk_command() }, create_disk());
    assert_eq!(Request::Run { command: s.export_disk_command() }, export_disk());
    assert_eq!(Request::Run { command: s.delete_group_command() }, delete_group());
}

#[test]
fn access_url_is_the_output_without_space_and_quotes() {
    assert_eq!(parse_access_url("\"https://x/y\"\n"), "https://x/y");
    assert_eq!(parse_access_url("  \"https://x/y\"  \r\n"), "https://x/y");
    assert_eq!(parse_access_url("https://x/y"), "https://x/y");
    assert_eq!(parse_access_url("\"\"https://x/\"y\"\"\""), "https://x/\"y");
    assert_eq!(parse_access_url("\" https://x/y \""), " https://x/y ");
    assert_eq!(parse_access_url(""), "");
    assert_eq!(parse_access_url("\"\"\n"), "");
    for s in ["\"a\"\n", " \"\" ", "\n\"b c\"", "\"", "\u{a0}\"q\"\u{3000}"] {
        assert_eq!(parse_access_url(s), s.trim().trim_matches('"'));
    }
}

#[test]
fn an_existing_destination_is_left_alone_unless_forced() {
    let mut answer = |request: &Request| match request {
        Request::Probe { .. } => Reply::Exists { present: true },
        other => happy(other),
    };
    let (asked, result) = drive(Fetch::new(source(false)), &mut answer);
    assert_eq!(asked, vec![probe()]);
    assert_eq!(result, Ok(()));
}

#[test]
fn a_forced_fetch_does_not_look_for_the_destination() {
    let fetch = Fetch::new(source(true));
    assert_eq!(fetch.request(), Some(create_group()));
    let mut answer = |request: &Request| happy(request);
    let (asked, result) = drive(fetch, &mut answer);
    assert!(!asked.contains(&probe()));
    assert_eq!(asked.len(), 7);
    assert_eq!(result, Ok(()));
}

#[test]
fn a_fetch_exports_downloads_and_cleans_up() {
    let mut answer = |request: &Request| happy(request);
    let (asked, result) = drive(Fetch::new(source(false)), &mut answer);
    assert_eq!(
        asked,
        vec![
            probe(),
            create_group(),
            create_disk(),
            export_disk(),
            announce(),
            open(),
            Request::CopyTransfer,
            delete_group()
        ]
    );
    assert_eq!(result, Ok(()));
}

#[test]
fn the_copy_is_retried_until_it_succeeds() {
    let mut copies = 0;
    let mut answer = |request: &Request| {
        if *request == Request::CopyTransfer {
            copies += 1;
            if copies < 3 {
                return Reply::Failed { message: "connection reset".to_string() };
            }
        }
        happy(request)
    };
    let (asked, result) = drive(Fetch::new(source(false)), &mut answer);
    assert_eq!(asked.iter().filter(|r| **r == Request::CopyTransfer).count(), 3);
    assert_eq!(asked.last(), Some(&delete_group()));
    assert_eq!(result, Ok(()));
}

#[test]
fn the_copy_is_attempted_ten_times_at_most() {
    let mut answer = |request: &Request| {
        if *request == Request::CopyTransfer {
            Reply::Failed { message: "connection reset".to_string() }
        } else {
            happy(request)
        }
    };
    let (asked, result) = drive(Fetch::new(source(false)), &mut answer);
    assert_eq!(asked.iter().filter(|r| **r == Request::CopyTransfer).count(), 10);
    assert_eq!(asked.last(), Some(&delete_group()));
    assert_eq!(result, Ok(()));
}

#[test]
fn copies_are_counted() {
    let mut fetch = Fetch::new(source(true));
    assert_eq!(fetch.copies(), 0);
    for _ in 0..5 {
        let request = fetch.request().unwrap();
        fetch.feed(happy(&request));
    }
    assert_eq!(fetch.request(), Some(Request::CopyTransfer));
    assert_eq!(fetch.copies(), 1);
    fetch.feed(Reply::Failed { message: "reset".to_string() });
    assert_eq!(fetch.request(), Some(Request::CopyTransfer));
    assert_eq!(fetch.copies(), 2);
    fetch.feed(Reply::Done);
    assert_eq!(fetch.copies(), 2);
    assert_eq!(fetch.request(), Some(delete_group()));
    assert_eq!(fetch.clone().into_result(), None);
}

#[test]
fn each_command_that_fails_ends_the_fetch() {
    for failing in [create_group(), create_disk(), export_disk(), delete_group()] {
        let mut answer = |request: &Request| {
            if *request == failing {
                exit(1, "ERROR: az failed")
            } else {
                happy(request)
            }
        };
        let (asked, result) = drive(Fetch::new(source(false)), &mut answer);
        assert_eq!(asked.last(), Some(&failing));
        let (program, arguments) = match &failing {
            Request::Run { command } => (command.program.clone(), command.args.clone()),
            _ => unreachable!(),
        };
        assert_eq!(
            result,
            Err(FetchError {
                cause: Fault::Command {
                    error: ExternalCommandError {
                        program,
                        arguments,
                        exit_code: Some(1),
                        stderr: b"ERROR: az failed".to_vec(),
                    }
                }
            })
        );
    }
}

#[test]
fn a_download_that_cannot_be_opened_ends_the_fetch() {
    let mut answer = |request: &Request| match request {
        Request::OpenTransfer { .. } => Reply::Failed { message: "403 Forbidden".to_string() },
        other => happy(other),
    };
    let (asked, result) = drive(Fetch::new(source(false)), &mut answer);
    assert_eq!(asked.last(), Some(&open()));
    assert!(!asked.contains(&Request::CopyTransfer));
    assert_eq!(result, Err(FetchError { cause: Fault::Host { message: "403 Forbidden".to_string() } }));
}

#[test]
fn export_output_that_is_not_utf8_ends_the_fetch() {
    let mut answer = |request: &Request| {
        if *request == export_disk() {
            ok_with(&[b'"', 0xc3, 0x28, b'"'])
        } else {
            happy(request)
        }
    };
    let (asked, result) = drive(Fetch::new(source(false)), &mut answer);
    assert_eq!(asked.last(), Some(&export_disk()));
    assert_eq!(result, Err(FetchError { cause: Fault::Undecodable }));
}

#[test]
fn export_output_is_decoded_before_it_is_trimmed() {
    let mut answer = |request: &Request| {
        if *request == export_disk() {
            ok_with("\u{a0}\"https://h/\u{e9}\"\u{2028}".as_bytes())
        } else {
            happy(request)
        }
    };
    let (asked, _) = drive(Fetch::new(source(true)), &mut answer);
    assert_eq!(
        asked[4],
        Request::OpenTransfer {
            url: "https://h/\u{e9}".to_string(),
            destination: "jammy.img".to_string(),
            byte_limit: BYTE_LIMIT,
        }
    );
}

#[test]
fn a_look_that_fails_ends_the_fetch() {
    let mut fetch = Fetch::new(source(false));
    fetch.feed(Reply::Failed { message: "io".to_string() });
    assert_eq!(fetch.request(), None);
    assert_eq!(
        fetch.into_result(),
        Some(Err(FetchError { cause: Fault::Host { message: "io".to_string() } }))
    );
    let mut fetch = Fetch::new(source(false));
    fetch.feed(Reply::Done);
    assert_eq!(fetch.into_result(), Some(Err(FetchError { cause: Fault::Unexpected })));
}

#[test]
fn other_suites_are_referred_to_by_name() {
    let s = ImageSource::with_fixed_names("noble", "noble.img", false);
    assert_eq!(
        s.create_disk_command().args[9],
        "Canonical:0001-com-ubuntu-confidential-vm-noble:22_04-lts-cvm:latest"
    );
}
