use cargo_vita::artifact::{BuildArtifact, ExecutableArtifact};
use cargo_vita::commands::{Build, BuildCmd, Eboot, Vpk};
use cargo_vita::meta::{PackageMetadata, ProfileMetadata};
use cargo_vita::paths::executable_profile;
use cargo_vita::stages::{asset_args, BuildContext, Pipeline, Stage, StageError};
use cargo_vita::upload::OptionalConnectionArgs;
use cargo_vita::TitleId;

const ELF: &str = "/w/target/armv7-sony-vita-newlibeabihf/debug/hello.elf";

fn artifact(elf: &str, meta: PackageMetadata) -> ExecutableArtifact {
    ExecutableArtifact {
        artifact: BuildArtifact {
            package_id: "hello 0.1.0 (path+file:///w/hello)".to_string(),
            manifest_path: "/w/hello/Cargo.toml".to_string(),
            executable: Some(elf.to_string()),
        },
        meta,
        package_name: "hello".to_string(),
        elf: elf.to_string(),
    }
}

fn ctx(default_title_id: Option<&str>) -> BuildContext {
    BuildContext {
        sdk: "/opt/vitasdk".to_string(),
        default_title_id: default_title_id.map(|t| TitleId::parse(t).unwrap()),
    }
}

fn all_stages() -> Vec<Stage> {
    vec![Stage::Strip, Stage::Velf, Stage::Eboot, Stage::Sfo, Stage::Vpk]
}

/// Runs the pipeline against a runner that fails at one stage, counting calls.
fn run_with_failure_at(fail_at: Option<usize>) -> (usize, Option<Stage>) {
    let mut p = Pipeline::new(all_stages());
    let mut calls = 0;
    while let Some(_stage) = p.next_stage() {
        let ok = Some(calls) != fail_at;
        calls += 1;
        p.record(ok);
    }
    let failed = match p.result() {
        Ok(()) => None,
        Err(StageError::ToolFailed(stage)) => Some(stage),
        Err(other) => panic!("unexpected {other:?}"),
    };
    (calls, failed)
}

#[test]
fn pipeline_stops_at_failed_stage() {
    for k in 0..5 {
        let (calls, failed) = run_with_failure_at(Some(k));
        assert_eq!(calls, k + 1);
        assert_eq!(failed, Some(all_stages()[k]));
    }
}

#[test]
fn pipeline_runs_every_stage_when_all_succeed() {
    let (calls, failed) = run_with_failure_at(None);
    assert_eq!(calls, 5);
    assert_eq!(failed, None);
}

#[test]
fn pipeline_hands_out_stages_in_order() {
    let mut p = Pipeline::new(all_stages());
    let mut seen = Vec::new();
    while let Some(s) = p.next_stage() {
        seen.push(s);
        p.record(true);
    }
    assert_eq!(seen, all_stages());
}

#[test]
fn profile_detection() {
    assert_eq!(executable_profile(ELF), "dev");
    assert_eq!(executable_profile("/w/target/armv7-sony-vita-newlibeabihf/release/hello.elf"), "release");
    assert_eq!(executable_profile("/w/target/debug/hello.elf"), "dev");
    assert_eq!(executable_profile("/w/target/armv7-sony-vita-newlibeabihf/fast/hello.elf"), "fast");
}

#[test]
fn strip_is_skipped_for_dev_builds_by_default() {
    let c = ctx(None);
    assert!(c.strip_command(&artifact(ELF, PackageMetadata::default())).is_none());
    let release = "/w/target/armv7-sony-vita-newlibeabihf/release/hello.elf";
    let cmd = c.strip_command(&artifact(release, PackageMetadata::default())).unwrap();
    assert_eq!(cmd.program, "/opt/vitasdk/bin/arm-vita-eabi-strip");
    assert_eq!(cmd.args, vec!["-g".to_string(), release.to_string()]);
}

#[test]
fn strip_follows_profile_override() {
    let mut m = PackageMetadata::default();
    m.dev = ProfileMetadata { strip_symbols: Some(true) };
    let cmd = ctx(None).strip_command(&artifact(ELF, m)).unwrap();
    assert_eq!(cmd.args.last().unwrap(), ELF);
}

#[test]
fn velf_and_eboot_use_sibling_files() {
    let c = ctx(None);
    let a = artifact(ELF, PackageMetadata::default());
    let velf = c.velf_command(&a);
    assert_eq!(velf.program, "/opt/vitasdk/bin/vita-elf-create");
    assert_eq!(
        velf.args,
        vec![ELF.to_string(), "/w/target/armv7-sony-vita-newlibeabihf/debug/hello.velf".to_string()]
    );
    let eboot = c.eboot_command(&a);
    assert_eq!(eboot.program, "/opt/vitasdk/bin/vita-make-fself");
    assert_eq!(
        eboot.args,
        vec![
            "-s".to_string(),
            "/w/target/armv7-sony-vita-newlibeabihf/debug/hello.velf".to_string(),
            "/w/target/armv7-sony-vita-newlibeabihf/debug/hello.self".to_string(),
        ]
    );
}

#[test]
fn sfo_uses_default_title_id() {
    let c = ctx(Some("HELLO0001"));
    let cmd = c.sfo_command(&artifact(ELF, PackageMetadata::default())).unwrap();
    assert_eq!(cmd.program, "/opt/vitasdk/bin/vita-mksfoex");
    assert_eq!(
        cmd.args,
        vec![
            "-d".to_string(),
            "ATTRIBUTE2=12".to_string(),
            "-s".to_string(),
            "TITLE_ID=HELLO0001".to_string(),
            "hello".to_string(),
            "/w/target/armv7-sony-vita-newlibeabihf/debug/hello.sfo".to_string(),
        ]
    );
}

#[test]
fn sfo_without_title_id_names_the_package() {
    let c = ctx(None);
    match c.sfo_command(&artifact(ELF, PackageMetadata::default())) {
        Err(StageError::MissingTitleId(name)) => assert_eq!(name, "hello"),
        other => panic!("unexpected {other:?}"),
    }
}

#[test]
fn sfo_prefers_package_title() {
    let mut m = PackageMetadata::default();
    m.title_id = Some(TitleId::parse("PKGID0001").unwrap());
    m.title_name = Some("My Game".to_string());
    let cmd = ctx(Some("HELLO0001")).sfo_command(&artifact(ELF, m)).unwrap();
    assert_eq!(cmd.args[3], "TITLE_ID=PKGID0001");
    assert_eq!(cmd.args[4], "My Game");
}

#[test]
fn assets_without_manifest_directory() {
    let mut m = PackageMetadata::default();
    m.assets = Some("static".to_string());
    let mut a = artifact(ELF, m);
    a.artifact.manifest_path = "/".to_string();
    assert!(matches!(ctx(None).vpk_command(&a, &vec![]), Err(StageError::NoManifestDir)));
}

#[test]
fn vpk_without_assets() {
    let c = ctx(None);
    let cmd = c.vpk_command(&artifact(ELF, PackageMetadata::default()), &vec![]).unwrap();
    assert_eq!(cmd.program, "/opt/vitasdk/bin/vita-pack-vpk");
    assert_eq!(
        cmd.args,
        vec![
            "-s".to_string(),
            "/w/target/armv7-sony-vita-newlibeabihf/debug/hello.sfo".to_string(),
            "-b".to_string(),
            "/w/target/armv7-sony-vita-newlibeabihf/debug/hello.self".to_string(),
            "/w/target/armv7-sony-vita-newlibeabihf/debug/hello.vpk".to_string(),
        ]
    );
}

#[test]
fn vpk_adds_assets_relative_to_package_dir() {
    let mut m = PackageMetadata::default();
    m.assets = Some("static".to_string());
    let c = ctx(None);
    let a = artifact(ELF, m);
    assert_eq!(c.assets_root(&a).unwrap().unwrap(), "/w/hello/static");
    let files = vec![
        "/w/hello/static/sce_sys/icon0.png".to_string(),
        "/w/hello/static/data.bin".to_string(),
    ];
    let cmd = c.vpk_command(&a, &files).unwrap();
    assert_eq!(
        cmd.args[4..8].to_vec(),
        vec![
            "--add".to_string(),
            "/w/hello/static/sce_sys/icon0.png=sce_sys/icon0.png".to_string(),
            "--add".to_string(),
            "/w/hello/static/data.bin=data.bin".to_string(),
        ]
    );
}

#[test]
fn asset_outside_root_is_an_error() {
    let files = vec!["/elsewhere/file.png".to_string()];
    assert!(matches!(asset_args("/w/hello/static", &files), Err(StageError::AssetOutsideRoot(_))));
}

#[test]
fn stage_command_dispatch() {
    let c = ctx(None);
    let a = artifact(ELF, PackageMetadata::default());
    assert!(c.stage_command(Stage::Strip, &a, &vec![]).unwrap().is_none());
    assert!(c.stage_command(Stage::Velf, &a, &vec![]).unwrap().is_some());
    assert!(matches!(
        c.stage_command(Stage::Sfo, &a, &vec![]),
        Err(StageError::MissingTitleId(_))
    ));
}

#[test]
fn stages_of_each_build_kind() {
    let conn = OptionalConnectionArgs { vita_ip: None, ftp_port: 1337, cmd_port: 1338 };
    assert!(BuildCmd::Elf.stages().is_empty());
    assert_eq!(BuildCmd::Velf.stages(), vec![Stage::Strip, Stage::Velf]);
    assert_eq!(BuildCmd::Sfo.stages(), vec![Stage::Sfo]);
    let vpk = BuildCmd::Vpk(Vpk {
        eboot: Eboot { update: false, run: false, connection: conn },
        upload: false,
        destination: "ux0:/download/".to_string(),
    });
    assert_eq!(vpk.stages(), all_stages());
}

#[test]
fn cargo_invocation_arguments() {
    let b = Build {
        cmd: BuildCmd::Elf,
        default_title_id: None,
        cargo_args: vec!["--release".to_string()],
    };
    assert_eq!(
        b.cargo_arguments("std,panic_unwind"),
        vec![
            "build",
            "-Z",
            "build-std=std,panic_unwind",
            "--target",
            "armv7-sony-vita-newlibeabihf",
            "--message-format=json-render-diagnostics",
            "--release",
        ]
    );
    let g = b.unit_graph_arguments("std");
    assert_eq!(&g[g.len() - 3..], &["-Z", "unstable-options", "--unit-graph"]);
    assert!(b.context(None).is_err());
    assert_eq!(b.context(Some("/sdk".to_string())).unwrap().sdk, "/sdk");
}
