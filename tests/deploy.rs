use cargo_vita::artifact::{BuildArtifact, ExecutableArtifact};
use cargo_vita::control::{control_line, run_title, CommandSequence, Reboot, Run};
use cargo_vita::meta::PackageMetadata;
use cargo_vita::stages::BuildContext;
use cargo_vita::sync::{Request, Synchronizer};
use cargo_vita::upload::{
    directory_created, eboot_uploads, vpk_uploads, ConnectionArgs, ItemKind,
    OptionalConnectionArgs, PlanError, SourceKind, TransferError, TransferItem, Upload,
};
use cargo_vita::TitleId;

fn conn() -> ConnectionArgs {
    ConnectionArgs { vita_ip: "192.168.1.2".to_string(), ftp_port: 1337, cmd_port: 1338 }
}

fn upload(source: &str, destination: &str) -> Upload {
    Upload { connection: conn(), source: source.to_string(), destination: destination.to_string() }
}

fn artifact(elf: &str, title: Option<&str>) -> ExecutableArtifact {
    let mut meta = PackageMetadata::default();
    meta.title_id = title.map(|t| TitleId::parse(t).unwrap());
    ExecutableArtifact {
        artifact: BuildArtifact {
            package_id: "p".to_string(),
            manifest_path: "/w/Cargo.toml".to_string(),
            executable: Some(elf.to_string()),
        },
        meta,
        package_name: "p".to_string(),
        elf: elf.to_string(),
    }
}

#[test]
fn single_file_to_directory_destination() {
    assert_eq!(upload("build/game.self", "ux0:/app/").root_destination().unwrap(), "ux0:/app/game.self");
}

#[test]
fn single_file_to_explicit_path() {
    assert_eq!(
        upload("build/game.self", "ux0:/app/renamed.self").root_destination().unwrap(),
        "ux0:/app/renamed.self"
    );
}

#[test]
fn source_without_file_name() {
    assert!(matches!(upload("/", "ux0:/app/").root_destination(), Err(TransferError::NoFileName)));
}

#[test]
fn directory_entry_remote_path() {
    let u = upload("/tmp/out/pkgname.vpk", "ux0:/download/");
    let root = u.root_destination().unwrap();
    assert_eq!(root, "ux0:/download/pkgname.vpk");
    assert_eq!(
        u.entry_destination(&root, "/tmp/out/pkgname.vpk/a/b/c.bin").unwrap(),
        "ux0:/download/pkgname.vpk/a/b/c.bin"
    );
    assert_eq!(u.entry_destination(&root, "/tmp/out/pkgname.vpk").unwrap(), "ux0:/download/pkgname.vpk/");
    assert!(matches!(
        u.entry_destination(&root, "/tmp/other/c.bin"),
        Err(TransferError::OutsideSource(_))
    ));
}

fn dir(remote: &str) -> TransferItem {
    TransferItem { local: String::new(), remote: remote.to_string(), kind: ItemKind::Directory }
}

fn file(local: &str, remote: &str) -> TransferItem {
    TransferItem { local: local.to_string(), remote: remote.to_string(), kind: ItemKind::File }
}

/// Drives a session, answering each request with the given rule; returns the
/// requests made and the outcome.
fn drive(items: Vec<TransferItem>, answer: impl Fn(&Request) -> bool) -> (Vec<String>, Result<(), TransferError>) {
    let mut s = Synchronizer::new(items);
    let mut log = Vec::new();
    let mut next = s.start();
    while let Some(req) = next {
        log.push(match &req {
            Request::Put { remote, .. } => format!("put {remote}"),
            Request::ChangeDir(d) => format!("cwd {d}"),
            Request::MakeDir(d) => format!("mkdir {d}"),
            Request::Quit => "quit".to_string(),
        });
        let ok = answer(&req);
        next = s.answer(ok);
    }
    (log, s.outcome())
}

#[test]
fn existing_directories_do_not_fail_a_second_upload() {
    let items = || vec![dir("ux0:/d/"), dir("ux0:/d/a"), file("/x/a/f", "ux0:/d/a/f")];
    // first run: directories are missing, creation is reported as an unexpected answer
    let (log, outcome) = drive(items(), |r| !matches!(r, Request::ChangeDir(_) | Request::MakeDir(_)));
    assert!(outcome.is_ok());
    assert_eq!(log, vec!["cwd ux0:/d/", "mkdir ux0:/d/", "cwd ux0:/d/a", "mkdir ux0:/d/a", "put ux0:/d/a/f", "quit"]);
    // second run against the same destination: creation fails again, still no error
    let (_, outcome) = drive(items(), |r| !matches!(r, Request::MakeDir(_) | Request::ChangeDir(_)));
    assert!(outcome.is_ok());
    assert!(directory_created("226 Directory created.\r\n"));
    assert!(!directory_created("550 Permission denied"));
}

#[test]
fn working_directory_is_not_changed_twice() {
    let (log, outcome) = drive(vec![dir("ux0:/d"), dir("ux0:/d"), file("/f", "ux0:/d/f")], |_| true);
    assert!(outcome.is_ok());
    assert_eq!(log, vec!["cwd ux0:/d", "put ux0:/d/f", "quit"]);
}

#[test]
fn failed_put_aborts_the_batch() {
    let items = vec![file("/a", "ux0:/a"), file("/b", "ux0:/b"), file("/c", "ux0:/c")];
    let (log, outcome) = drive(items, |r| !matches!(r, Request::Put { remote, .. } if remote == "ux0:/b"));
    assert_eq!(log, vec!["put ux0:/a", "put ux0:/b", "quit"]);
    match outcome {
        Err(TransferError::PutFailed(p)) => assert_eq!(p, "ux0:/b"),
        other => panic!("unexpected {other:?}"),
    }
}

#[test]
fn empty_batch_only_closes() {
    let (log, outcome) = drive(vec![], |_| false);
    assert_eq!(log, vec!["quit"]);
    assert!(outcome.is_ok());
}

#[test]
fn package_uploads_go_under_destination() {
    let arts = vec![artifact("/t/a.elf", None), artifact("/t/b.elf", None)];
    let items = vpk_uploads(&arts, "ux0:/download");
    assert_eq!(items[0].local, "/t/a.vpk");
    assert_eq!(items[0].remote, "ux0:/download/a.vpk");
    let items = vpk_uploads(&arts, "ux0:/download/");
    assert_eq!(items[1].remote, "ux0:/download/b.vpk");
}

#[test]
fn eboot_uploads_need_title_ids() {
    let c = BuildContext { sdk: "/sdk".to_string(), default_title_id: None };
    let arts = vec![artifact("/t/a.elf", Some("ABCD00001"))];
    let items = eboot_uploads(&c, &arts).unwrap();
    assert_eq!(items[0].local, "/t/a.self");
    assert_eq!(items[0].remote, "ux0:/app/ABCD00001/eboot.bin");
    let arts = vec![artifact("/t/a.elf", None)];
    assert!(matches!(eboot_uploads(&c, &arts), Err(TransferError::NoTitleId)));
}

#[test]
fn connection_address_is_required() {
    let o = OptionalConnectionArgs { vita_ip: None, ftp_port: 1, cmd_port: 2 };
    assert!(o.required().is_err());
    let o = OptionalConnectionArgs { vita_ip: Some("10.0.0.5".to_string()), ftp_port: 1, cmd_port: 2 };
    let c = o.required().unwrap();
    assert_eq!((c.vita_ip.as_str(), c.ftp_port, c.cmd_port), ("10.0.0.5", 1, 2));
}

#[test]
fn run_sends_destroy_then_launch() {
    let r = Run { title_id: Some(TitleId::parse("abcd00001").unwrap()), connection: conn() };
    assert_eq!(r.commands(None).unwrap(), vec!["destroy", "launch ABCD00001"]);
    let r = Run { title_id: None, connection: conn() };
    assert_eq!(
        r.commands(Some(TitleId::parse("CONF00001").unwrap())).unwrap(),
        vec!["destroy", "launch CONF00001"]
    );
    assert!(r.commands(None).is_err());
    assert_eq!(Reboot { connection: conn() }.command(), "reboot");
    assert_eq!(control_line("reboot"), "reboot\n");
}

#[test]
fn run_after_build_uses_last_artifact() {
    let c = BuildContext { sdk: "/sdk".to_string(), default_title_id: None };
    let arts = vec![artifact("/t/a.elf", Some("FIRST0001")), artifact("/t/b.elf", Some("LAST00001"))];
    assert_eq!(run_title(&c, &arts).unwrap().as_str(), "LAST00001");
    assert!(run_title(&c, &vec![]).is_none());
}

#[test]
fn plan_single_file() {
    let u = upload("out/game.self", "ux0:/app/");
    let items = u.plan(SourceKind::File, &vec![]).unwrap();
    assert_eq!(items.len(), 1);
    assert_eq!(items[0].local, "out/game.self");
    assert_eq!(items[0].remote, "ux0:/app/game.self");
    assert!(matches!(u.plan(SourceKind::Missing, &vec![]), Err(PlanError::SourceMissing)));
    assert!(matches!(u.plan(SourceKind::Other, &vec![]), Err(PlanError::Unsupported)));
}

#[test]
fn plan_directory_tree() {
    let u = upload("/tmp/out/pkgname.vpk", "ux0:/download/");
    let entries = vec![
        ("/tmp/out/pkgname.vpk".to_string(), SourceKind::Directory),
        ("/tmp/out/pkgname.vpk/a".to_string(), SourceKind::Directory),
        ("/tmp/out/pkgname.vpk/a/link".to_string(), SourceKind::Other),
        ("/tmp/out/pkgname.vpk/a/b.bin".to_string(), SourceKind::File),
    ];
    let items = u.plan(SourceKind::Directory, &entries).unwrap();
    let remotes: Vec<&str> = items.iter().map(|i| i.remote.as_str()).collect();
    assert_eq!(
        remotes,
        vec!["ux0:/download/pkgname.vpk/", "ux0:/download/pkgname.vpk/a", "ux0:/download/pkgname.vpk/a/b.bin"]
    );
    assert_eq!(items[2].kind, ItemKind::File);
    assert_eq!(items[1].kind, ItemKind::Directory);
}

#[test]
fn command_sequence_stops_at_first_failure() {
    let mut seq = CommandSequence::new(vec!["destroy".to_string(), "launch ABCD00001".to_string()]);
    assert_eq!(seq.next().as_deref(), Some("destroy"));
    seq.record(false);
    assert!(seq.next().is_none());
    assert!(seq.has_failed());

    let mut seq = CommandSequence::new(vec!["destroy".to_string(), "launch ABCD00001".to_string()]);
    let mut sent = Vec::new();
    while let Some(c) = seq.next() {
        sent.push(c);
        seq.record(true);
    }
    assert_eq!(sent, vec!["destroy", "launch ABCD00001"]);
    assert!(!seq.has_failed());
}
