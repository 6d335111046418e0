use vstd::prelude::*;

use crate::artifact::ExecutableArtifact;
use crate::control::{Reboot, Run};
use crate::coredump::Coredump;
use crate::logs::Logs;
use crate::meta::{opt_title_view, push_all, strings_view, VITA_TARGET};
use crate::paths::{join, joined};
use crate::stages::{BuildContext, Stage};
use crate::title_id::TitleId;
use crate::upload::{
    all_titled, eboot_items, eboot_uploads, items_view, vpk_items, vpk_uploads, OptionalConnectionArgs, TransferError, TransferItem,
    Upload,
};

verus! {

/// Options of the builds that make a signed executable.
#[derive(Debug)]
pub struct Eboot {
    /// Uploads the signed executable over the installed title's.
    pub update: bool,
    /// Starts the title afterwards; with several artifacts, the last one's.
    pub run: bool,
    pub connection: OptionalConnectionArgs,
}

/// Options of the builds that make a package.
#[derive(Debug)]
pub struct Vpk {
    pub eboot: Eboot,
    /// Uploads the packages to the destination directory.
    pub upload: bool,
    pub destination: String,
}

/// How far the executable is taken.
#[derive(Debug)]
pub enum BuildCmd {
    Elf,
    Velf,
    Eboot(Eboot),
    Sfo,
    Vpk(Vpk),
}

impl BuildCmd {
    /// The stages that run on each artifact, in order.
    pub fn stages(&self) -> (r: Vec<Stage>)
        ensures
            r@ == match self {
                BuildCmd::Elf => Seq::<Stage>::empty(),
                BuildCmd::Velf => seq![Stage::Strip, Stage::Velf],
                BuildCmd::Eboot(_) => seq![Stage::Strip, Stage::Velf, Stage::Eboot],
                BuildCmd::Sfo => seq![Stage::Sfo],
                BuildCmd::Vpk(_) => seq![
                    Stage::Strip,
                    Stage::Velf,
                    Stage::Eboot,
                    Stage::Sfo,
                    Stage::Vpk,
                ],
            },
    {
        let mut v: Vec<Stage> = Vec::new();
        match self {
            BuildCmd::Elf => {},
            BuildCmd::Velf => {
                v.push(Stage::Strip);
                v.push(Stage::Velf);
            },
            BuildCmd::Eboot(_) => {
                v.push(Stage::Strip);
                v.push(Stage::Velf);
                v.push(Stage::Eboot);
            },
            BuildCmd::Sfo => {
                v.push(Stage::Sfo);
            },
            BuildCmd::Vpk(_) => {
                v.push(Stage::Strip);
                v.push(Stage::Velf);
                v.push(Stage::Eboot);
                v.push(Stage::Sfo);
                v.push(Stage::Vpk);
            },
        }
        assert(v@ =~= match self {
            BuildCmd::Elf => Seq::<Stage>::empty(),
            BuildCmd::Velf => seq![Stage::Strip, Stage::Velf],
            BuildCmd::Eboot(_) => seq![Stage::Strip, Stage::Velf, Stage::Eboot],
            BuildCmd::Sfo => seq![Stage::Sfo],
            BuildCmd::Vpk(_) => seq![Stage::Strip, Stage::Velf, Stage::Eboot, Stage::Sfo, Stage::Vpk],
        });
        v
    }

    /// The options of the builds that make a signed executable.
    pub fn eboot(&self) -> (r: Option<&Eboot>)
        ensures
            match self {
                BuildCmd::Eboot(e) => r == Some(e),
                BuildCmd::Vpk(v) => r == Some(&v.eboot),
                _ => r is None,
            },
    {
        match self {
            BuildCmd::Eboot(e) => Some(e),
            BuildCmd::Vpk(v) => Some(&v.eboot),
            _ => None,
        }
    }
}

/// Builds the executables and takes them through the stages.
#[derive(Debug)]
pub struct Build {
    pub cmd: BuildCmd,
    /// The title id of packages that configure none.
    pub default_title_id: Option<TitleId>,
    /// Passed on to cargo as they are.
    pub cargo_args: Vec<String>,
}

/// The arguments of the build: cargo's `build` for the target, building the
/// standard library as configured, with JSON messages, then the caller's
/// arguments.
pub open spec fn cargo_args_spec(build_std: Seq<char>, extra: Seq<Seq<char>>) -> Seq<Seq<char>> {
    seq![
        "build"@,
        "-Z"@,
        "build-std="@ + build_std,
        "--target"@,
        VITA_TARGET@,
        "--message-format=json-render-diagnostics"@,
    ] + extra
}

/// The SDK location was not given.
#[derive(Clone, Copy, Debug, PartialEq, Eq, Structural)]
pub struct MissingSdk;

impl Build {
    /// The arguments that start the build.
    pub fn cargo_arguments(&self, build_std: &str) -> (r: Vec<String>)
        ensures
            strings_view(r@) == cargo_args_spec(build_std@, strings_view(self.cargo_args@)),
    {
        let mut std_arg = String::from_str("build-std=");
        std_arg.append(build_std);
        let mut v: Vec<String> = Vec::new();
        v.push(String::from_str("build"));
        v.push(String::from_str("-Z"));
        v.push(std_arg);
        v.push(String::from_str("--target"));
        v.push(String::from_str(VITA_TARGET));
        v.push(String::from_str("--message-format=json-render-diagnostics"));
        let ghost head = strings_view(v@);
        push_all(&mut v, &self.cargo_args);
        assert(head =~= seq![
            "build"@,
            "-Z"@,
            "build-std="@ + build_std@,
            "--target"@,
            VITA_TARGET@,
            "--message-format=json-render-diagnostics"@,
        ]);
        v
    }

    /// The arguments that ask cargo for the build plan of the same build.
    pub fn unit_graph_arguments(&self, build_std: &str) -> (r: Vec<String>)
        ensures
            strings_view(r@) == cargo_args_spec(build_std@, strings_view(self.cargo_args@))
                + seq!["-Z"@, "unstable-options"@, "--unit-graph"@],
    {
        let mut v = self.cargo_arguments(build_std);
        v.push(String::from_str("-Z"));
        v.push(String::from_str("unstable-options"));
        v.push(String::from_str("--unit-graph"));
        assert(strings_view(v@) =~= cargo_args_spec(build_std@, strings_view(self.cargo_args@))
            + seq!["-Z"@, "unstable-options"@, "--unit-graph"@]);
        v
    }

    /// The context of the stages, given the SDK's location if it is known.
    pub fn context(&self, sdk: Option<String>) -> (r: Result<BuildContext, MissingSdk>)
        ensures
            match sdk {
                Some(s) => r matches Ok(c) && c.sdk@ == s@ && crate::meta::opt_title_view(
                    c.default_title_id,
                ) == crate::meta::opt_title_view(self.default_title_id),
                None => r is Err,
            },
    {
        match sdk {
            Some(sdk) => {
                let default_title_id = match &self.default_title_id {
                    Some(t) => Some(t.clone()),
                    None => None,
                };
                Ok(BuildContext { sdk, default_title_id })
            },
            None => Err(MissingSdk),
        }
    }

    /// What is uploaded after the stages: the packages where asked for,
    /// then the signed executables where an update is asked for.
    pub fn uploads(&self, ctx: &BuildContext, artifacts: &Vec<ExecutableArtifact>) -> (r: Result<
        Vec<TransferItem>,
        TransferError,
    >)
        ensures
            ({
                let default = opt_title_view(ctx.default_title_id);
                let update = match &self.cmd {
                    BuildCmd::Vpk(v) => v.eboot.update,
                    BuildCmd::Eboot(e) => e.update,
                    _ => false,
                };
                let packages = match &self.cmd {
                    BuildCmd::Vpk(v) => if v.upload {
                        vpk_items(artifacts@, v.destination@)
                    } else {
                        Seq::empty()
                    },
                    _ => Seq::empty(),
                };
                if update && !all_titled(artifacts@, default) {
                    r matches Err(e) && e is NoTitleId
                } else {
                    r matches Ok(items) && items_view(items@) == packages + if update {
                        eboot_items(artifacts@, default)
                    } else {
                        Seq::empty()
                    }
                }
            }),
    {
        let mut items: Vec<TransferItem> = Vec::new();
        match &self.cmd {
            BuildCmd::Vpk(v) => {
                if v.upload {
                    items = vpk_uploads(artifacts, v.destination.as_str());
                }
                if v.eboot.update {
                    let ghost before = items@;
                    let mut eboots = eboot_uploads(ctx, artifacts)?;
                    items.append(&mut eboots);
                    assert(items_view(items@) =~= items_view(before) + eboot_items(
                        artifacts@,
                        opt_title_view(ctx.default_title_id),
                    ));
                } else {
                    assert(items_view(items@) =~= items_view(items@) + Seq::empty());
                }
            },
            BuildCmd::Eboot(e) => {
                if e.update {
                    items = eboot_uploads(ctx, artifacts)?;
                    assert(items_view(items@) =~= Seq::empty() + items_view(items@));
                } else {
                    assert(items_view(items@) =~= Seq::empty());
                }
            },
            _ => {
                assert(items_view(items@) =~= Seq::empty());
            },
        }
        Ok(items)
    }
}

/// The extra flags every build gets, after those the caller set.
pub open spec fn rust_flags_spec(existing: Seq<char>) -> Seq<char> {
    existing + " --cfg mio_unsupported_force_poll_poll --cfg mio_unsupported_force_waker_pipe"@
}

pub fn rust_flags(existing: &str) -> (r: String)
    ensures
        r@ == rust_flags_spec(existing@),
{
    let mut r = String::from_str(existing);
    r.append(" --cfg mio_unsupported_force_poll_poll --cfg mio_unsupported_force_waker_pipe");
    r
}

/// The search path with the SDK's programs first.
pub fn search_path(sdk: &str, path: &str) -> (r: String)
    ensures
        r@ == joined(sdk@, "bin"@) + ":"@ + path@,
{
    let mut r = join(sdk, "bin");
    r.append(":");
    r.append(path);
    r
}

pub open spec fn pairs_view(v: Seq<(String, String)>) -> Seq<(Seq<char>, Seq<char>)> {
    v.map_values(|p: (String, String)| (p.0@, p.1@))
}

/// The environment that every build gets: the cross compilers and the
/// SDK's location.
pub fn fixed_environment(sdk: &str) -> (r: Vec<(String, String)>)
    ensures
        pairs_view(r@) == seq![
            ("TARGET_CC"@, "arm-vita-eabi-gcc"@),
            ("TARGET_CXX"@, "arm-vita-eabi-g++"@),
            ("VITASDK"@, sdk@),
        ],
{
    let mut v: Vec<(String, String)> = Vec::new();
    v.push((String::from_str("TARGET_CC"), String::from_str("arm-vita-eabi-gcc")));
    v.push((String::from_str("TARGET_CXX"), String::from_str("arm-vita-eabi-g++")));
    v.push((String::from_str("VITASDK"), String::from_str(sdk)));
    assert(pairs_view(v@) =~= seq![
        ("TARGET_CC"@, "arm-vita-eabi-gcc"@),
        ("TARGET_CXX"@, "arm-vita-eabi-g++"@),
        ("VITASDK"@, sdk@),
    ]);
    v
}

/// Variables that the build keeps from the caller's environment, with the
/// value each gets where the caller has not set it.
pub fn inherited_environment(sdk: &str) -> (r: Vec<(String, String)>)
    ensures
        pairs_view(r@) == seq![
            ("OPENSSL_LIB_DIR"@, joined(joined(sdk@, "arm-vita-eabi"@), "lib"@)),
            ("OPENSSL_INCLUDE_DIR"@, joined(joined(sdk@, "arm-vita-eabi"@), "include"@)),
            ("PKG_CONFIG"@, joined(joined(sdk@, "bin"@), "arm-vita-eabi-pkg-config"@)),
        ],
{
    let target = join(sdk, "arm-vita-eabi");
    let bin = join(sdk, "bin");
    let mut v: Vec<(String, String)> = Vec::new();
    v.push((String::from_str("OPENSSL_LIB_DIR"), join(target.as_str(), "lib")));
    v.push((String::from_str("OPENSSL_INCLUDE_DIR"), join(target.as_str(), "include")));
    v.push((String::from_str("PKG_CONFIG"), join(bin.as_str(), "arm-vita-eabi-pkg-config")));
    assert(pairs_view(v@) =~= seq![
        ("OPENSSL_LIB_DIR"@, joined(joined(sdk@, "arm-vita-eabi"@), "lib"@)),
        ("OPENSSL_INCLUDE_DIR"@, joined(joined(sdk@, "arm-vita-eabi"@), "include"@)),
        ("PKG_CONFIG"@, joined(joined(sdk@, "bin"@), "arm-vita-eabi-pkg-config"@)),
    ]);
    v
}

/// Creates an app with a title name and id.
#[derive(Debug)]
pub struct TitleArgs {
    pub title_name: String,
    pub title_id: TitleId,
}

/// An optional title id.
#[derive(Debug)]
pub struct TitleIdArg {
    pub title_id: Option<TitleId>,
}

/// The subcommands.
#[derive(Debug)]
pub enum CargoCmd {
    Build(Build),
    Upload(Upload),
    Run(Run),
    Logs(Logs),
    Coredump(Coredump),
    Reboot(Reboot),
}

/// A command line: the subcommand and how much is printed.
#[derive(Debug)]
pub struct Input {
    pub cmd: CargoCmd,
    pub verbose: u8,
    pub quiet: bool,
}

/// The `cargo vita` entry of the command line.
#[derive(Debug)]
pub enum Cargo {
    Input(Input),
}

} // verus!
