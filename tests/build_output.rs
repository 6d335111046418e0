use cargo_vita::artifact::{
    collect_artifacts, finish_build, hints_from_units, package_metadata, package_position, resolve,
    BuildArtifact,
    BuildError, BuildHints, PackageInfo, ResolveError, VitaSection,
};
use cargo_vita::meta::PackageMetadata;
use cargo_vita::TitleId;

fn artifact_line(name: &str, executable: Option<&str>) -> String {
    let exe = match executable {
        Some(e) => format!("\"{e}\""),
        None => "null".to_string(),
    };
    format!(
        "{{\"reason\":\"compiler-artifact\",\"package_id\":\"{name} 0.1.0 (path+file:///w/{name})\",\
         \"manifest_path\":\"/w/{name}/Cargo.toml\",\"target\":{{\"kind\":[\"bin\"],\"crate_types\":[\"bin\"],\
         \"name\":\"{name}\",\"src_path\":\"/w/{name}/src/main.rs\",\"edition\":\"2021\",\"doc\":true,\
         \"doctest\":false,\"test\":true}},\"profile\":{{\"opt_level\":\"0\",\"debuginfo\":2,\
         \"debug_assertions\":true,\"overflow_checks\":true,\"test\":false}},\"features\":[],\
         \"filenames\":[],\"executable\":{exe},\"fresh\":false}}"
    )
}

#[test]
fn artifacts_are_returned_last_reported_first() {
    let lines = vec![
        artifact_line("first", Some("/t/first.elf")),
        "plain text".to_string(),
        artifact_line("lib", None),
        "{\"reason\":\"build-finished\",\"success\":true}".to_string(),
        artifact_line("second", Some("/t/second.elf")),
    ];
    let arts = collect_artifacts(&lines);
    assert_eq!(arts.len(), 2);
    assert_eq!(arts[0].package_id, "second 0.1.0 (path+file:///w/second)");
    assert_eq!(arts[0].manifest_path, "/w/second/Cargo.toml");
    assert_eq!(arts[1].executable.as_deref(), Some("/t/first.elf"));
}

#[test]
fn no_artifacts_in_plain_output() {
    assert!(collect_artifacts(&vec!["Compiling".to_string(), String::new()]).is_empty());
}

fn hints(strip: Option<&str>) -> Option<BuildHints> {
    Some(BuildHints { profile: "release".to_string(), strip: strip.map(|s| s.to_string()) })
}

#[test]
fn failed_build_names_stripping_profile() {
    let lines = vec![artifact_line("a", Some("/t/a.elf"))];
    match finish_build(&lines, false, hints(Some("symbols"))) {
        Err(BuildError::Failed { strip_profile }) => assert_eq!(strip_profile.as_deref(), Some("release")),
        other => panic!("unexpected {other:?}"),
    }
    match finish_build(&lines, false, hints(Some("debuginfo"))) {
        Err(BuildError::Failed { strip_profile }) => assert!(strip_profile.is_none()),
        other => panic!("unexpected {other:?}"),
    }
    match finish_build(&lines, false, None) {
        Err(BuildError::Failed { strip_profile }) => assert!(strip_profile.is_none()),
        other => panic!("unexpected {other:?}"),
    }
    assert_eq!(finish_build(&lines, true, hints(Some("true"))).unwrap().len(), 1);
}

#[test]
fn strip_hint_values() {
    assert!(hints(Some("symbols")).unwrap().strip_symbols());
    assert!(hints(Some("true")).unwrap().strip_symbols());
    assert!(!hints(Some("none")).unwrap().strip_symbols());
    assert!(!hints(None).unwrap().strip_symbols());
}

#[test]
fn hints_come_from_last_unit() {
    assert!(hints_from_units(vec![]).is_none());
    let h = hints_from_units(vec![
        ("dev".to_string(), None),
        ("release".to_string(), Some("symbols".to_string())),
    ])
    .unwrap();
    assert_eq!(h.profile, "release");
    assert_eq!(h.strip.as_deref(), Some("symbols"));
}

fn build_artifact(id: &str, exe: Option<&str>) -> BuildArtifact {
    BuildArtifact {
        package_id: id.to_string(),
        manifest_path: "/w/Cargo.toml".to_string(),
        executable: exe.map(|e| e.to_string()),
    }
}

fn packages() -> Vec<PackageInfo> {
    let mut m = PackageMetadata::default();
    m.title_id = Some(TitleId::parse("GAME00001").unwrap());
    vec![
        PackageInfo { id: "plain".to_string(), name: "plain".to_string(), vita: VitaSection::Absent },
        PackageInfo { id: "game".to_string(), name: "game".to_string(), vita: VitaSection::Parsed(m) },
        PackageInfo {
            id: "broken".to_string(),
            name: "broken".to_string(),
            vita: VitaSection::Malformed("bad title_id".to_string()),
        },
    ]
}

#[test]
fn resolve_uses_package_configuration() {
    let x = resolve(build_artifact("game", Some("/t/game.elf")), &packages()).unwrap();
    assert_eq!(x.package_name, "game");
    assert_eq!(x.elf, "/t/game.elf");
    assert_eq!(x.meta.title_id.unwrap().as_str(), "GAME00001");
    let y = resolve(build_artifact("plain", Some("/t/plain.elf")), &packages()).unwrap();
    assert!(y.meta.title_id.is_none());
    assert_eq!(y.meta.build_std, "std,panic_unwind");
}

#[test]
fn resolve_takes_first_package_with_the_id() {
    let mut ps = packages();
    ps.push(PackageInfo { id: "game".to_string(), name: "shadow".to_string(), vita: VitaSection::Absent });
    let x = resolve(build_artifact("game", Some("/t/game.elf")), &ps).unwrap();
    assert_eq!(x.package_name, "game");
}

#[test]
fn resolve_errors() {
    assert!(matches!(resolve(build_artifact("nope", Some("/t/x")), &packages()), Err(ResolveError::NoPackage)));
    assert!(matches!(resolve(build_artifact("game", None), &packages()), Err(ResolveError::MissingExecutable)));
    match resolve(build_artifact("broken", Some("/t/x")), &packages()) {
        Err(ResolveError::Config(why)) => assert_eq!(why, "bad title_id"),
        other => panic!("unexpected {other:?}"),
    }
    assert!(package_metadata(&VitaSection::Absent).is_ok());
}

#[test]
fn package_lookup_by_id() {
    let mut ps = packages();
    assert_eq!(package_position(&ps, "game"), Some(1));
    assert_eq!(package_position(&ps, "none"), None);
    ps.push(PackageInfo { id: "plain".to_string(), name: "again".to_string(), vita: VitaSection::Absent });
    assert_eq!(package_position(&ps, "plain"), Some(0));
}

#[test]
fn deeply_nested_line_is_no_artifact() {
    let depth = 300_000;
    let line = format!("{{\"x\":{}{}}}", "[".repeat(depth), "]".repeat(depth));
    assert!(collect_artifacts(&vec![line]).is_empty());
}
