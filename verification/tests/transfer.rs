use std::collections::{BTreeMap, BTreeSet};

use ares_core::transfer::channel::{
    Action, Event, FileKind, FileTransfer, Request, Stage, Step, Strategy, Transfer,
    TransferChannel, READ_ONLY, WRITE_NEW,
};
use ares_core::transfer::command::{
    get_command, mkdir_command, put_command, quote, quote_escaped, rm_command,
};
use ares_core::transfer::error::TransferError;

/// A device that lives in memory: with or without the file sub-protocol.
struct Device {
    sftp: bool,
    files: BTreeMap<String, Vec<u8>>,
    dirs: BTreeSet<String>,
    probes: usize,
    channels: usize,
    commands: Vec<String>,
    actions: Vec<String>,
    open: Option<String>,
    running: Option<String>,
    status: Option<i32>,
}

impl Device {
    fn new(sftp: bool) -> Device {
        Device {
            sftp,
            files: BTreeMap::new(),
            dirs: BTreeSet::new(),
            probes: 0,
            channels: 0,
            commands: Vec::new(),
            actions: Vec::new(),
            open: None,
            running: None,
            status: None,
        }
    }

    fn denied() -> Event {
        Event::Failed(libssh_rs::Error::RequestDenied(String::from("denied")))
    }

    fn word(line: &str, prefix: &str) -> Option<String> {
        let rest = line.strip_prefix(prefix)?;
        Some(rest.trim_matches('\'').to_string())
    }

    fn perform(&mut self, action: Action, source: &[u8], sink: &mut Vec<u8>) -> Event {
        self.actions.push(format!("{:?}", action));
        match action {
            Action::Probe => {
                self.probes += 1;
                if self.sftp {
                    Event::Done
                } else {
                    Device::denied()
                }
            }
            Action::Stat { path } => {
                if self.dirs.contains(&path) {
                    Event::Found(FileKind::Directory)
                } else if self.files.contains_key(&path) {
                    Event::Found(FileKind::Regular)
                } else {
                    Device::denied()
                }
            }
            Action::CreateDir { path, .. } => {
                self.dirs.insert(path);
                Event::Done
            }
            Action::Open { path, flags, .. } => {
                let creates = flags & 0o100 != 0;
                let empties = flags & 0o1000 != 0;
                if !self.files.contains_key(&path) && !creates {
                    return Device::denied();
                }
                if empties || !self.files.contains_key(&path) {
                    self.files.insert(path.clone(), Vec::new());
                }
                self.open = Some(path);
                Event::Done
            }
            Action::WriteFile => {
                let path = self.open.take().unwrap();
                self.files.insert(path, source.to_vec());
                Event::Done
            }
            Action::ReadFile => {
                let path = self.open.take().unwrap();
                sink.extend_from_slice(&self.files[&path]);
                Event::Done
            }
            Action::RemoveFile { path } => {
                if self.files.remove(&path).is_some() {
                    Event::Done
                } else {
                    Device::denied()
                }
            }
            Action::OpenChannel => {
                self.channels += 1;
                Event::Done
            }
            Action::OpenSession => Event::Done,
            Action::Exec { command } => {
                self.commands.push(command.clone());
                self.status = Some(0);
                if let Some(path) = Device::word(&command, "mkdir -p ") {
                    let path = path.split("' && ").next().unwrap().to_string();
                    self.dirs.insert(path);
                } else if let Some(path) = Device::word(&command, "rm -rf ") {
                    self.files.remove(&path);
                    self.dirs.remove(&path);
                } else if let Some(path) = Device::word(&command, "cat > ") {
                    self.running = Some(path);
                } else if let Some(path) = Device::word(&command, "cat ") {
                    if self.files.contains_key(&path) {
                        self.running = Some(path);
                    } else {
                        self.status = Some(1);
                    }
                } else {
                    self.status = Some(127);
                }
                Event::Done
            }
            Action::WriteInput => {
                let path = self.running.take().unwrap();
                self.files.insert(path, source.to_vec());
                Event::Done
            }
            Action::ReadOutput => {
                if let Some(path) = self.running.take() {
                    sink.extend_from_slice(&self.files[&path]);
                }
                Event::Done
            }
            Action::SendEof => Event::Done,
            Action::ExitStatus => match self.status.take() {
                Some(status) => Event::Status(status),
                None => Event::Done,
            },
            Action::Close => Event::Done,
        }
    }

    fn run(
        &mut self,
        channel: &mut TransferChannel,
        first: Step,
        source: &[u8],
        sink: &mut Vec<u8>,
    ) -> Result<(), TransferError> {
        let mut step = first;
        loop {
            match step {
                Step::Finish(result) => return result,
                Step::Next { transfer, action } => {
                    let event = self.perform(action, source, sink);
                    step = transfer.advance(channel, event);
                }
            }
        }
    }

    fn mkdir(&mut self, channel: &mut TransferChannel, path: &str, mode: u32) -> Result<(), TransferError> {
        let first = channel.mkdir(path, mode);
        self.run(channel, first, &[], &mut Vec::new())
    }

    fn put(&mut self, channel: &mut TransferChannel, bytes: &[u8], path: &str) -> Result<(), TransferError> {
        let first = channel.put(path);
        self.run(channel, first, bytes, &mut Vec::new())
    }

    fn get(&mut self, channel: &mut TransferChannel, path: &str) -> Result<Vec<u8>, TransferError> {
        let first = channel.get(path);
        let mut sink = Vec::new();
        self.run(channel, first, &[], &mut sink)?;
        Ok(sink)
    }

    fn rm(&mut self, channel: &mut TransferChannel, path: &str) -> Result<(), TransferError> {
        let first = channel.rm(path);
        self.run(channel, first, &[], &mut Vec::new())
    }
}

fn at(request: Request, stage: Stage) -> Transfer {
    Transfer { request, stage }
}

fn mkdir_request() -> Request {
    Request::Mkdir { path: String::from("/tmp/x/y"), mode: 0o755 }
}

#[test]
fn words_are_always_quoted() {
    assert_eq!(quote("/tmp/x/y"), "'/tmp/x/y'");
    assert_eq!(quote("plain"), "'plain'");
    assert_eq!(quote(""), "''");
    assert_eq!(quote("with space"), "'with space'");
    assert_eq!(quote("a;b"), "'a;b'");
}

#[test]
fn words_with_a_quote_are_escaped() {
    assert_eq!(quote("it's"), "\"it's\"");
    assert_eq!(quote("a\\b"), "\"a\\\\b\"");
    assert_eq!(quote("tab\there"), "\"tab\\there\"");
}

#[test]
fn quoting_goes_by_the_escaped_form() {
    assert_eq!(quote_escaped("same", String::from("same")), "'same'");
    assert_eq!(quote_escaped("word", String::from("\"other\"")), "\"other\"");
    assert_eq!(quote_escaped("", String::from("")), "''");
}

#[test]
fn fallback_commands() {
    assert_eq!(mkdir_command("/tmp/x/y", 0o755), "mkdir -p '/tmp/x/y' && chmod 755 '/tmp/x/y'");
    assert_eq!(mkdir_command("/a b", 0o40700), "mkdir -p '/a b' && chmod 40700 '/a b'");
    assert_eq!(mkdir_command("/d", 0), "mkdir -p '/d' && chmod 0 '/d'");
    assert_eq!(put_command("/media/app.ipk"), "cat > '/media/app.ipk'");
    assert_eq!(get_command("/media/app.ipk"), "cat '/media/app.ipk'");
    assert_eq!(rm_command("/media/old dir"), "rm -rf '/media/old dir'");
}

#[test]
fn mkdir_without_the_sub_protocol_runs_one_command() {
    let mut device = Device::new(false);
    let mut channel = TransferChannel::new();
    device.mkdir(&mut channel, "/tmp/x/y", 0o755).unwrap();
    assert_eq!(device.commands, ["mkdir -p '/tmp/x/y' && chmod 755 '/tmp/x/y'"]);
    assert_eq!(device.channels, 1);
    assert_eq!(
        device.actions,
        [
            "Probe",
            "OpenChannel",
            "OpenSession",
            "Exec { command: \"mkdir -p '/tmp/x/y' && chmod 755 '/tmp/x/y'\" }",
            "SendEof",
            "ExitStatus",
            "Close",
        ]
    );
    assert!(device.dirs.contains("/tmp/x/y"));
}

#[test]
fn mkdir_on_an_existing_directory_does_nothing() {
    let mut device = Device::new(true);
    device.dirs.insert(String::from("/tmp/x"));
    let mut channel = TransferChannel::new();
    device.mkdir(&mut channel, "/tmp/x", 0o755).unwrap();
    assert_eq!(device.actions, ["Probe", "Stat { path: \"/tmp/x\" }"]);
}

#[test]
fn mkdir_on_a_file_fails_with_code_one() {
    let mut device = Device::new(true);
    device.files.insert(String::from("/tmp/x"), vec![1]);
    let mut channel = TransferChannel::new();
    match device.mkdir(&mut channel, "/tmp/x", 0o755) {
        Err(TransferError::ExitCode { code, reason }) => {
            assert_eq!(code, 1);
            assert_eq!(reason, "not a directory");
        }
        other => panic!("unexpected: {:?}", other),
    }
    assert_eq!(device.actions, ["Probe", "Stat { path: \"/tmp/x\" }"]);
    assert!(!device.dirs.contains("/tmp/x"));
}

#[test]
fn mkdir_of_every_other_kind_fails_with_code_one() {
    for kind in [FileKind::Special, FileKind::Symlink, FileKind::Regular, FileKind::Unknown] {
        let mut channel = TransferChannel::new();
        let step = at(mkdir_request(), Stage::Stating).advance(&mut channel, Event::Found(kind));
        assert!(matches!(step, Step::Finish(Err(TransferError::ExitCode { code: 1, .. }))));
    }
}

#[test]
fn mkdir_creates_what_is_not_there() {
    let mut device = Device::new(true);
    let mut channel = TransferChannel::new();
    device.mkdir(&mut channel, "/tmp/new", 0o700).unwrap();
    assert_eq!(
        device.actions,
        ["Probe", "Stat { path: \"/tmp/new\" }", "CreateDir { path: \"/tmp/new\", mode: 448 }"]
    );
    assert!(device.dirs.contains("/tmp/new"));
}

#[test]
fn put_then_get_returns_the_bytes_over_the_sub_protocol() {
    let bytes: Vec<u8> = (0..=255u8).cycle().take(5000).collect();
    let mut device = Device::new(true);
    let mut channel = TransferChannel::new();
    device.put(&mut channel, &bytes, "/media/app.ipk").unwrap();
    assert_eq!(device.get(&mut channel, "/media/app.ipk").unwrap(), bytes);
    assert!(device.commands.is_empty());
}

#[test]
fn put_then_get_returns_the_bytes_through_the_shell() {
    let bytes: Vec<u8> = (0..=255u8).cycle().take(5000).collect();
    let mut device = Device::new(false);
    let mut channel = TransferChannel::new();
    device.put(&mut channel, &bytes, "/media/app.ipk").unwrap();
    assert_eq!(device.get(&mut channel, "/media/app.ipk").unwrap(), bytes);
    assert_eq!(device.commands, ["cat > '/media/app.ipk'", "cat '/media/app.ipk'"]);
    assert_eq!(device.channels, 2);
}

#[test]
fn put_empties_the_file_first() {
    let mut device = Device::new(true);
    let mut channel = TransferChannel::new();
    device.put(&mut channel, b"a long first version", "/f").unwrap();
    device.put(&mut channel, b"short", "/f").unwrap();
    assert_eq!(device.get(&mut channel, "/f").unwrap(), b"short");
}

#[test]
fn put_over_the_sub_protocol_opens_with_mode_644() {
    let channel = TransferChannel::new();
    let mut known = TransferChannel::new();
    match channel.put("/f") {
        Step::Next { transfer, action } => {
            assert!(matches!(action, Action::Probe));
            match transfer.advance(&mut known, Event::Done) {
                Step::Next { transfer, action } => {
                    assert_eq!(transfer.stage, Stage::Opening);
                    assert!(matches!(
                        action,
                        Action::Open { ref path, flags: 0o1101, mode: 0o644 } if path == "/f"
                    ));
                }
                other => panic!("unexpected: {:?}", other),
            }
        }
        other => panic!("unexpected: {:?}", other),
    }
    assert_eq!(known.strategy(), Strategy::Sftp);
}

#[test]
fn get_over_the_sub_protocol_opens_for_reading_only() {
    assert_eq!(WRITE_NEW, 0o1101);
    assert_eq!(READ_ONLY, 0);
    let mut channel = TransferChannel::new();
    let probing = Transfer { request: Request::Get { path: String::from("/f") }, stage: Stage::Probing };
    match probing.advance(&mut channel, Event::Done) {
        Step::Next { transfer, action } => {
            assert_eq!(transfer.stage, Stage::Opening);
            assert!(matches!(action, Action::Open { ref path, flags: 0, mode: 0 } if path == "/f"));
        }
        other => panic!("unexpected: {:?}", other),
    }
}

#[test]
fn get_of_a_missing_file_fails_over_the_sub_protocol() {
    let mut device = Device::new(true);
    let mut channel = TransferChannel::new();
    assert!(matches!(device.get(&mut channel, "/none"), Err(TransferError::Transport(_))));
    assert!(device.files.is_empty());
}

#[test]
fn put_through_the_shell_ends_the_input() {
    let mut device = Device::new(false);
    let mut channel = TransferChannel::new();
    device.put(&mut channel, b"x", "/f").unwrap();
    assert_eq!(
        device.actions,
        [
            "Probe",
            "OpenChannel",
            "OpenSession",
            "Exec { command: \"cat > '/f'\" }",
            "WriteInput",
            "SendEof",
            "ExitStatus",
            "Close",
        ]
    );
}

#[test]
fn get_through_the_shell_does_not_end_the_input() {
    let mut device = Device::new(false);
    device.files.insert(String::from("/f"), vec![7, 8]);
    let mut channel = TransferChannel::new();
    assert_eq!(device.get(&mut channel, "/f").unwrap(), [7, 8]);
    assert_eq!(
        device.actions,
        [
            "Probe",
            "OpenChannel",
            "OpenSession",
            "Exec { command: \"cat '/f'\" }",
            "ReadOutput",
            "ExitStatus",
            "Close",
        ]
    );
}

#[test]
fn rm_removes_one_file_over_the_sub_protocol() {
    let mut device = Device::new(true);
    device.files.insert(String::from("/f"), vec![1]);
    let mut channel = TransferChannel::new();
    device.rm(&mut channel, "/f").unwrap();
    assert!(device.files.is_empty());
    assert_eq!(device.actions, ["Probe", "RemoveFile { path: \"/f\" }"]);
}

#[test]
fn rm_runs_a_recursive_removal_through_the_shell() {
    let mut device = Device::new(false);
    device.dirs.insert(String::from("/d"));
    let mut channel = TransferChannel::new();
    device.rm(&mut channel, "/d").unwrap();
    assert_eq!(device.commands, ["rm -rf '/d'"]);
    assert!(device.dirs.is_empty());
}

#[test]
fn a_session_is_probed_once() {
    let mut device = Device::new(true);
    let mut channel = TransferChannel::new();
    assert_eq!(channel.strategy(), Strategy::Unprobed);
    device.mkdir(&mut channel, "/a", 0o755).unwrap();
    assert_eq!(channel.strategy(), Strategy::Sftp);
    device.put(&mut channel, b"x", "/a/f").unwrap();
    device.get(&mut channel, "/a/f").unwrap();
    device.rm(&mut channel, "/a/f").unwrap();
    assert_eq!(device.probes, 1);

    let mut device = Device::new(false);
    let mut channel = TransferChannel::new();
    device.mkdir(&mut channel, "/a", 0o755).unwrap();
    assert_eq!(channel.strategy(), Strategy::Shell);
    device.put(&mut channel, b"x", "/a/f").unwrap();
    assert_eq!(device.probes, 1);
    assert_eq!(device.channels, 2);
}

#[test]
fn an_exit_status_surfaces_as_it_is() {
    for (request, tool) in [
        (mkdir_request(), "mkdir"),
        (Request::Put { path: String::from("/f") }, "cat"),
        (Request::Get { path: String::from("/f") }, "cat"),
        (Request::Rm { path: String::from("/f") }, "rm"),
    ] {
        let mut channel = TransferChannel::new();
        let step = at(request, Stage::Waiting).advance(&mut channel, Event::Status(3));
        let transfer = match step {
            Step::Next { transfer, action } => {
                assert!(matches!(action, Action::Close));
                assert_eq!(transfer.stage, Stage::Closing { status: 3 });
                transfer
            }
            other => panic!("unexpected: {:?}", other),
        };
        match transfer.advance(&mut channel, Event::Done) {
            Step::Finish(Err(TransferError::ExitCode { code, reason })) => {
                assert_eq!(code, 3);
                assert_eq!(reason, format!("{} command exited with status 3", tool));
            }
            other => panic!("unexpected: {:?}", other),
        }
    }
}

#[test]
fn a_negative_exit_status_surfaces_too() {
    let mut channel = TransferChannel::new();
    let step = at(mkdir_request(), Stage::Closing { status: -2 }).advance(&mut channel, Event::Done);
    match step {
        Step::Finish(Err(TransferError::ExitCode { code, reason })) => {
            assert_eq!(code, -2);
            assert_eq!(reason, "mkdir command exited with status -2");
        }
        other => panic!("unexpected: {:?}", other),
    }
}

#[test]
fn a_missing_exit_status_counts_as_zero() {
    let mut channel = TransferChannel::new();
    let step = at(mkdir_request(), Stage::Waiting).advance(&mut channel, Event::Done);
    let transfer = match step {
        Step::Next { transfer, .. } => transfer,
        other => panic!("unexpected: {:?}", other),
    };
    assert_eq!(transfer.stage, Stage::Closing { status: 0 });
    assert!(matches!(transfer.advance(&mut channel, Event::Done), Step::Finish(Ok(()))));
}

#[test]
fn get_of_a_missing_file_fails_through_the_shell() {
    let mut device = Device::new(false);
    let mut channel = TransferChannel::new();
    match device.get(&mut channel, "/none") {
        Err(TransferError::ExitCode { code, reason }) => {
            assert_eq!(code, 1);
            assert_eq!(reason, "cat command exited with status 1");
        }
        other => panic!("unexpected: {:?}", other),
    }
}

#[test]
fn a_transport_failure_ends_the_operation() {
    for stage in [
        Stage::Creating,
        Stage::Opening,
        Stage::Copying,
        Stage::Removing,
        Stage::Connecting,
        Stage::Starting,
        Stage::Launching,
        Stage::Feeding,
        Stage::Draining,
        Stage::Ending,
        Stage::Waiting,
        Stage::Closing { status: 5 },
    ] {
        let mut channel = TransferChannel::new();
        let error = libssh_rs::Error::Fatal(String::from("gone"));
        match at(mkdir_request(), stage).advance(&mut channel, Event::Failed(error)) {
            Step::Finish(Err(TransferError::Transport(e))) => {
                assert_eq!(e, libssh_rs::Error::Fatal(String::from("gone")));
            }
            other => panic!("unexpected: {:?}", other),
        }
    }
}

#[test]
fn a_local_failure_ends_the_operation() {
    let mut channel = TransferChannel::new();
    let error = std::io::Error::new(std::io::ErrorKind::UnexpectedEof, "short");
    let put = Request::Put { path: String::from("/f") };
    match at(put, Stage::Copying).advance(&mut channel, Event::Broken(error)) {
        Step::Finish(Err(TransferError::Io(e))) => {
            assert_eq!(e.kind(), std::io::ErrorKind::UnexpectedEof);
        }
        other => panic!("unexpected: {:?}", other),
    }
}

#[test]
fn a_closing_failure_comes_before_the_exit_status() {
    let mut channel = TransferChannel::new();
    let error = libssh_rs::Error::Fatal(String::from("gone"));
    let step = at(mkdir_request(), Stage::Closing { status: 9 }).advance(&mut channel, Event::Failed(error));
    assert!(matches!(step, Step::Finish(Err(TransferError::Transport(_)))));
}

#[test]
fn a_failed_stat_leads_to_creation() {
    let mut channel = TransferChannel::new();
    let error = libssh_rs::Error::Fatal(String::from("no such file"));
    match at(mkdir_request(), Stage::Stating).advance(&mut channel, Event::Failed(error)) {
        Step::Next { transfer, action } => {
            assert_eq!(transfer.stage, Stage::Creating);
            assert!(matches!(action, Action::CreateDir { ref path, mode: 0o755 } if path == "/tmp/x/y"));
        }
        other => panic!("unexpected: {:?}", other),
    }
}

#[test]
fn only_the_probe_changes_the_strategy() {
    let mut channel = TransferChannel::new();
    let error = libssh_rs::Error::Fatal(String::from("gone"));
    let _ = at(mkdir_request(), Stage::Connecting).advance(&mut channel, Event::Failed(error));
    assert_eq!(channel.strategy(), Strategy::Unprobed);
    let error = libssh_rs::Error::RequestDenied(String::from("no sftp"));
    let _ = at(mkdir_request(), Stage::Probing).advance(&mut channel, Event::Failed(error));
    assert_eq!(channel.strategy(), Strategy::Shell);
}

#[test]
fn errors_convert_from_their_causes() {
    let io = std::io::Error::new(std::io::ErrorKind::Other, "x");
    assert!(matches!(TransferError::from(io), TransferError::Io(_)));
    let ssh = libssh_rs::Error::TryAgain;
    assert!(matches!(TransferError::from(ssh), TransferError::Transport(libssh_rs::Error::TryAgain)));
}
