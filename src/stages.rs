use vstd::prelude::*;

use crate::artifact::ExecutableArtifact;
use crate::meta::{opt_title_view, push_all, strings_view, strips, MetadataView};
use crate::paths::{
    components_of, detect_profile, is_prefix, join, join_segments, join_slash, joined,
    parent, parent_of, path_components, profile_of, relative_segments, with_extension,
    with_extension_of,
};
use crate::title_id::TitleId;

verus! {

/// A program of the SDK with its arguments.
#[derive(Debug)]
pub struct ToolCommand {
    pub program: String,
    pub args: Vec<String>,
}

impl View for ToolCommand {
    type V = (Seq<char>, Seq<Seq<char>>);

    open spec fn view(&self) -> (Seq<char>, Seq<Seq<char>>) {
        (self.program@, strings_view(self.args@))
    }
}

/// The steps that turn an executable into an installable package, in the
/// order in which they run.
#[derive(Clone, Copy, Debug, PartialEq, Eq, Structural)]
pub enum Stage {
    /// Removes symbols from the executable, where the profile asks for it.
    Strip,
    /// Adds the loader metadata that the signer needs.
    Velf,
    /// Signs the executable.
    Eboot,
    /// Writes the title's metadata file.
    Sfo,
    /// Bundles the signed executable, the metadata and the assets.
    Vpk,
}

/// Why a stage failed.
#[derive(Debug)]
pub enum StageError {
    /// No title id is configured for the package, and no default was given.
    MissingTitleId(String),
    /// The package's manifest has no directory to resolve its assets in.
    NoManifestDir,
    /// An asset file lies outside the assets directory.
    AssetOutsideRoot(String),
    /// The stage's tool failed.
    ToolFailed(Stage),
}

/// A program in the SDK's `bin` directory.
pub open spec fn sdk_tool(sdk: Seq<char>, name: Seq<char>) -> Seq<char> {
    joined(joined(sdk, "bin"@), name)
}

/// Whether the executable is a release build, as its path shows.
pub open spec fn is_release_path(elf: Seq<char>) -> bool {
    profile_of(components_of(elf)) == "release"@
}

pub open spec fn strip_spec(sdk: Seq<char>, m: MetadataView, elf: Seq<char>) -> Option<
    (Seq<char>, Seq<Seq<char>>),
> {
    if strips(m, is_release_path(elf)) {
        Some((sdk_tool(sdk, "arm-vita-eabi-strip"@), m.vita_strip_flags.push(elf)))
    } else {
        None
    }
}

pub open spec fn velf_spec(sdk: Seq<char>, elf: Seq<char>) -> (Seq<char>, Seq<Seq<char>>) {
    (sdk_tool(sdk, "vita-elf-create"@), seq![elf, with_extension_of(elf, "velf"@)])
}

pub open spec fn eboot_spec(sdk: Seq<char>, m: MetadataView, elf: Seq<char>) -> (
    Seq<char>,
    Seq<Seq<char>>,
) {
    (
        sdk_tool(sdk, "vita-make-fself"@),
        m.vita_make_fself_flags + seq![
            with_extension_of(elf, "velf"@),
            with_extension_of(elf, "self"@),
        ],
    )
}

/// The package's title id, or the default where it has none.
pub open spec fn title_for(m: MetadataView, default: Option<Seq<char>>) -> Option<Seq<char>> {
    match m.title_id {
        Some(t) => Some(t),
        None => default,
    }
}

/// The title shown on the device: the configured one, else the package's
/// name.
pub open spec fn display_title(m: MetadataView, package_name: Seq<char>) -> Seq<char> {
    match m.title_name {
        Some(n) => n,
        None => package_name,
    }
}

pub open spec fn sfo_spec(
    sdk: Seq<char>,
    m: MetadataView,
    package_name: Seq<char>,
    elf: Seq<char>,
    title: Seq<char>,
) -> (Seq<char>, Seq<Seq<char>>) {
    (
        sdk_tool(sdk, "vita-mksfoex"@),
        m.vita_mksfoex_flags + seq![
            "-s"@,
            "TITLE_ID="@ + title,
            display_title(m, package_name),
            with_extension_of(elf, "sfo"@),
        ],
    )
}

/// The path of an asset inside the package: its components below the
/// assets directory, joined with forward slashes.
pub open spec fn asset_entry(root: Seq<char>, file: Seq<char>) -> Option<Seq<char>> {
    let r = components_of(root);
    let f = components_of(file);
    if is_prefix(r, f) {
        Some(join_slash(f.subrange(r.len() as int, f.len() as int)))
    } else {
        None
    }
}

pub open spec fn all_under(root: Seq<char>, files: Seq<Seq<char>>) -> bool {
    forall|i: int| 0 <= i < files.len() ==> (#[trigger] asset_entry(root, files[i])) is Some
}

/// The arguments that add each file to the package under its path in it.
pub open spec fn asset_args_spec(root: Seq<char>, files: Seq<Seq<char>>) -> Seq<Seq<char>>
    decreases files.len(),
{
    if files.len() == 0 {
        Seq::empty()
    } else {
        let f = files.last();
        asset_args_spec(root, files.drop_last()) + seq![
            "--add"@,
            f + "="@ + asset_entry(root, f)->0,
        ]
    }
}

/// Where a package's assets lie: its configured directory, taken relative
/// to the directory of the package's manifest.
pub open spec fn assets_root_spec(m: MetadataView, manifest: Seq<char>) -> Option<
    Option<Seq<char>>,
> {
    match m.assets {
        None => Some(None),
        Some(a) => match parent_of(manifest) {
            Some(d) => Some(Some(joined(d, a))),
            None => None,
        },
    }
}

pub open spec fn vpk_spec(sdk: Seq<char>, elf: Seq<char>, adds: Seq<Seq<char>>) -> (
    Seq<char>,
    Seq<Seq<char>>,
) {
    (
        sdk_tool(sdk, "vita-pack-vpk"@),
        seq![
            "-s"@,
            with_extension_of(elf, "sfo"@),
            "-b"@,
            with_extension_of(elf, "self"@),
        ] + adds + seq![with_extension_of(elf, "vpk"@)],
    )
}

/// Relative asset paths as the package tool expects them.
pub fn asset_args(root: &str, files: &Vec<String>) -> (r: Result<Vec<String>, StageError>)
    ensures
        all_under(root@, strings_view(files@)) ==> (r matches Ok(v) && strings_view(v@)
            == asset_args_spec(root@, strings_view(files@))),
        !all_under(root@, strings_view(files@)) ==> r matches Err(StageError::AssetOutsideRoot(_)),
{
    let ghost fs = strings_view(files@);
    let root_parts = path_components(root);
    let mut out: Vec<String> = Vec::new();
    let mut i: usize = 0;
    while i < files.len()
        invariant
            0 <= i <= files@.len(),
            fs == strings_view(files@),
            strings_view(root_parts@) == components_of(root@),
            all_under(root@, fs.subrange(0, i as int)),
            strings_view(out@) == asset_args_spec(root@, fs.subrange(0, i as int)),
        decreases files@.len() - i,
    {
        let parts = path_components(files[i].as_str());
        let rel = match relative_segments(&root_parts, &parts) {
            Some(rel) => rel,
            None => {
                proof {
                    assert(asset_entry(root@, fs[i as int]) is None);
                    assert(!all_under(root@, fs));
                }
                return Err(StageError::AssetOutsideRoot(files[i].clone()));
            },
        };
        let inside = join_segments(&rel);
        proof {
            let r = components_of(root@);
            let f = components_of(fs[i as int]);
            assert(f.subrange(r.len() as int, f.len() as int) =~= strings_view(rel@));
            assert(asset_entry(root@, fs[i as int]) == Some(inside@));
            let next = fs.subrange(0, i + 1);
            assert(next.drop_last() =~= fs.subrange(0, i as int));
            assert(next.last() == fs[i as int]);
            assert(all_under(root@, next)) by {
                assert forall|j: int| 0 <= j < next.len() implies (#[trigger] asset_entry(
                    root@,
                    next[j],
                )) is Some by {
                    if j < i {
                        assert(next[j] == fs.subrange(0, i as int)[j]);
                    }
                }
            }
        }
        let mut entry = files[i].clone();
        entry.append("=");
        entry.append(inside.as_str());
        out.push(String::from_str("--add"));
        out.push(entry);
        assert(strings_view(out@) =~= asset_args_spec(root@, fs.subrange(0, i + 1)));
        i = i + 1;
    }
    assert(fs.subrange(0, fs.len() as int) =~= fs);
    Ok(out)
}

/// What the stages need besides the artifact: the SDK's location and the
/// title id to use for packages that configure none.
#[derive(Debug)]
pub struct BuildContext {
    pub sdk: String,
    pub default_title_id: Option<TitleId>,
}

impl BuildContext {
    /// The path of a program in the SDK.
    pub fn sdk_binary(&self, name: &str) -> (r: String)
        ensures
            r@ == sdk_tool(self.sdk@, name@),
    {
        let bin = join(self.sdk.as_str(), "bin");
        join(bin.as_str(), name)
    }

    /// The title id for an artifact: its package's, else the default.
    pub fn title_id(&self, art: &ExecutableArtifact) -> (r: Option<TitleId>)
        ensures
            opt_title_view(r) == title_for(art.meta@, opt_title_view(self.default_title_id)),
    {
        match &art.meta.title_id {
            Some(t) => Some(t.clone()),
            None => match &self.default_title_id {
                Some(t) => Some(t.clone()),
                None => None,
            },
        }
    }

    /// The strip command, or `None` where the package's profile keeps the
    /// symbols.
    pub fn strip_command(&self, art: &ExecutableArtifact) -> (r: Option<ToolCommand>)
        ensures
            match r {
                Some(c) => strip_spec(self.sdk@, art.meta@, art.elf@) == Some(c@),
                None => strip_spec(self.sdk@, art.meta@, art.elf@) is None,
            },
    {
        let parts = path_components(art.elf.as_str());
        let profile = detect_profile(&parts);
        let release = String::from_str("release");
        if !art.meta.strip_symbols(profile == release) {
            return None;
        }
        let mut args: Vec<String> = Vec::new();
        push_all(&mut args, &art.meta.vita_strip_flags);
        args.push(art.elf.clone());
        assert(strings_view(args@) =~= art.meta@.vita_strip_flags.push(art.elf@));
        Some(ToolCommand { program: self.sdk_binary("arm-vita-eabi-strip"), args })
    }

    pub fn velf_command(&self, art: &ExecutableArtifact) -> (r: ToolCommand)
        ensures
            r@ == velf_spec(self.sdk@, art.elf@),
    {
        let mut args: Vec<String> = Vec::new();
        args.push(art.elf.clone());
        proof {
            reveal_strlit("velf");
        }
        args.push(with_extension(art.elf.as_str(), "velf"));
        assert(strings_view(args@) =~= velf_spec(self.sdk@, art.elf@).1);
        ToolCommand { program: self.sdk_binary("vita-elf-create"), args }
    }

    pub fn eboot_command(&self, art: &ExecutableArtifact) -> (r: ToolCommand)
        ensures
            r@ == eboot_spec(self.sdk@, art.meta@, art.elf@),
    {
        let mut args: Vec<String> = Vec::new();
        push_all(&mut args, &art.meta.vita_make_fself_flags);
        proof {
            reveal_strlit("velf");
        }
        args.push(with_extension(art.elf.as_str(), "velf"));
        proof {
            reveal_strlit("self");
        }
        args.push(with_extension(art.elf.as_str(), "self"));
        assert(strings_view(args@) =~= eboot_spec(self.sdk@, art.meta@, art.elf@).1);
        ToolCommand { program: self.sdk_binary("vita-make-fself"), args }
    }

    /// The metadata command; it fails where no title id is known.
    pub fn sfo_command(&self, art: &ExecutableArtifact) -> (r: Result<ToolCommand, StageError>)
        ensures
            match title_for(art.meta@, opt_title_view(self.default_title_id)) {
                Some(t) => r matches Ok(c) && c@ == sfo_spec(
                    self.sdk@,
                    art.meta@,
                    art.package_name@,
                    art.elf@,
                    t,
                ),
                None => r matches Err(StageError::MissingTitleId(name)) && name@
                    == art.package_name@,
            },
    {
        let title_id = match self.title_id(art) {
            Some(t) => t,
            None => {
                return Err(StageError::MissingTitleId(art.package_name.clone()));
            },
        };
        let title_name = match &art.meta.title_name {
            Some(n) => n.clone(),
            None => art.package_name.clone(),
        };
        let mut id_arg = String::from_str("TITLE_ID=");
        id_arg.append(title_id.as_str());
        let mut args: Vec<String> = Vec::new();
        push_all(&mut args, &art.meta.vita_mksfoex_flags);
        args.push(String::from_str("-s"));
        args.push(id_arg);
        args.push(title_name);
        proof {
            reveal_strlit("sfo");
        }
        args.push(with_extension(art.elf.as_str(), "sfo"));
        assert(strings_view(args@) =~= sfo_spec(
            self.sdk@,
            art.meta@,
            art.package_name@,
            art.elf@,
            title_id@,
        ).1);
        Ok(ToolCommand { program: self.sdk_binary("vita-mksfoex"), args })
    }

    /// The directory that holds the package's assets, if it has any.
    pub fn assets_root(&self, art: &ExecutableArtifact) -> (r: Result<Option<String>, StageError>)
        ensures
            match assets_root_spec(art.meta@, art.artifact.manifest_path@) {
                Some(Some(d)) => r matches Ok(Some(p)) && p@ == d,
                Some(None) => r matches Ok(None),
                None => r matches Err(StageError::NoManifestDir),
            },
    {
        match &art.meta.assets {
            None => Ok(None),
            Some(a) => match parent(art.artifact.manifest_path.as_str()) {
                Some(dir) => Ok(Some(join(dir.as_str(), a.as_str()))),
                None => Err(StageError::NoManifestDir),
            },
        }
    }

    /// The package command, with the asset files found under the assets
    /// directory; the files are not read where the package has no assets.
    pub fn vpk_command(&self, art: &ExecutableArtifact, asset_files: &Vec<String>) -> (r: Result<
        ToolCommand,
        StageError,
    >)
        ensures
            match assets_root_spec(art.meta@, art.artifact.manifest_path@) {
                None => r matches Err(StageError::NoManifestDir),
                Some(None) => r matches Ok(c) && c@ == vpk_spec(self.sdk@, art.elf@, Seq::empty()),
                Some(Some(root)) => if all_under(root, strings_view(asset_files@)) {
                    r matches Ok(c) && c@ == vpk_spec(
                        self.sdk@,
                        art.elf@,
                        asset_args_spec(root, strings_view(asset_files@)),
                    )
                } else {
                    r matches Err(StageError::AssetOutsideRoot(_))
                },
            },
    {
        let adds = match self.assets_root(art)? {
            Some(root) => asset_args(root.as_str(), asset_files)?,
            None => Vec::new(),
        };
        let mut args: Vec<String> = Vec::new();
        args.push(String::from_str("-s"));
        proof {
            reveal_strlit("sfo");
        }
        args.push(with_extension(art.elf.as_str(), "sfo"));
        args.push(String::from_str("-b"));
        proof {
            reveal_strlit("self");
        }
        args.push(with_extension(art.elf.as_str(), "self"));
        let ghost head = strings_view(args@);
        push_all(&mut args, &adds);
        let ghost middle = strings_view(args@);
        proof {
            reveal_strlit("vpk");
        }
        args.push(with_extension(art.elf.as_str(), "vpk"));
        assert(strings_view(args@) =~= middle.push(with_extension_of(art.elf@, "vpk"@)));
        assert(strings_view(args@) =~= vpk_spec(self.sdk@, art.elf@, strings_view(adds@)).1);
        Ok(ToolCommand { program: self.sdk_binary("vita-pack-vpk"), args })
    }

    /// The command of a stage; `Ok(None)` where the stage has nothing to do.
    pub fn stage_command(
        &self,
        stage: Stage,
        art: &ExecutableArtifact,
        asset_files: &Vec<String>,
    ) -> (r: Result<Option<ToolCommand>, StageError>)
        ensures
            stage == Stage::Strip ==> (r matches Ok(c) && match c {
                Some(c) => strip_spec(self.sdk@, art.meta@, art.elf@) == Some(c@),
                None => strip_spec(self.sdk@, art.meta@, art.elf@) is None,
            }),
            stage == Stage::Velf ==> (r matches Ok(Some(c)) && c@ == velf_spec(self.sdk@, art.elf@)),
            stage == Stage::Eboot ==> (r matches Ok(Some(c)) && c@ == eboot_spec(
                self.sdk@,
                art.meta@,
                art.elf@,
            )),
            stage == Stage::Sfo ==> match title_for(
                art.meta@,
                opt_title_view(self.default_title_id),
            ) {
                Some(t) => r matches Ok(Some(c)) && c@ == sfo_spec(
                    self.sdk@,
                    art.meta@,
                    art.package_name@,
                    art.elf@,
                    t,
                ),
                None => r matches Err(StageError::MissingTitleId(name)) && name@
                    == art.package_name@,
            },
            stage == Stage::Vpk ==> match assets_root_spec(art.meta@, art.artifact.manifest_path@) {
                None => r matches Err(StageError::NoManifestDir),
                Some(None) => r matches Ok(Some(c)) && c@ == vpk_spec(
                    self.sdk@,
                    art.elf@,
                    Seq::empty(),
                ),
                Some(Some(root)) => if all_under(root, strings_view(asset_files@)) {
                    r matches Ok(Some(c)) && c@ == vpk_spec(
                        self.sdk@,
                        art.elf@,
                        asset_args_spec(root, strings_view(asset_files@)),
                    )
                } else {
                    r matches Err(StageError::AssetOutsideRoot(_))
                },
            },
    {
        match stage {
            Stage::Strip => Ok(self.strip_command(art)),
            Stage::Velf => Ok(Some(self.velf_command(art))),
            Stage::Eboot => Ok(Some(self.eboot_command(art))),
            Stage::Sfo => Ok(Some(self.sfo_command(art)?)),
            Stage::Vpk => Ok(Some(self.vpk_command(art, asset_files)?)),
        }
    }
}

/// The state of a run of stages: the stages in order, how many of them have
/// succeeded, and whether the one after those failed.
pub struct PipelineView {
    pub stages: Seq<Stage>,
    pub done: nat,
    pub failed: bool,
}

/// The stage to run next, if the run goes on.
pub open spec fn current(p: PipelineView) -> Option<Stage> {
    if !p.failed && p.done < p.stages.len() {
        Some(p.stages[p.done as int])
    } else {
        None
    }
}

/// The state after the current stage succeeded or failed.
pub open spec fn step(p: PipelineView, succeeded: bool) -> PipelineView {
    if succeeded {
        PipelineView { done: p.done + 1, ..p }
    } else {
        PipelineView { failed: true, ..p }
    }
}

/// The stages handed out to run when the stages that run report `results`
/// in turn; results beyond the end of the run are never asked for.
pub open spec fn invoked(p: PipelineView, results: Seq<bool>) -> Seq<Stage>
    decreases results.len(),
{
    if results.len() == 0 {
        Seq::empty()
    } else {
        match current(p) {
            Some(s) => seq![s] + invoked(step(p, results[0]), results.drop_first()),
            None => Seq::empty(),
        }
    }
}

/// The state that a run reaches.
pub open spec fn run_to_end(p: PipelineView, results: Seq<bool>) -> PipelineView
    decreases results.len(),
{
    if results.len() == 0 {
        p
    } else {
        match current(p) {
            Some(_) => run_to_end(step(p, results[0]), results.drop_first()),
            None => p,
        }
    }
}

/// Runs stages in order and stops at the first one that fails.
#[derive(Debug)]
pub struct Pipeline {
    stages: Vec<Stage>,
    done: usize,
    failed: bool,
}

impl View for Pipeline {
    type V = PipelineView;

    closed spec fn view(&self) -> PipelineView {
        PipelineView { stages: self.stages@, done: self.done as nat, failed: self.failed }
    }
}

impl Pipeline {
    #[verifier::type_invariant]
    spec fn inv(self) -> bool {
        &&& self.done <= self.stages@.len()
        &&& self.failed ==> self.done < self.stages@.len()
    }

    pub fn new(stages: Vec<Stage>) -> (r: Pipeline)
        ensures
            r@ == (PipelineView { stages: stages@, done: 0, failed: false }),
    {
        Pipeline { stages, done: 0, failed: false }
    }

    /// The stage to run next; `None` once all have run or one has failed.
    pub fn next_stage(&self) -> (r: Option<Stage>)
        ensures
            r == current(self@),
    {
        proof {
            use_type_invariant(self);
        }
        if !self.failed && self.done < self.stages.len() {
            Some(self.stages[self.done])
        } else {
            None
        }
    }

    /// Records how the stage handed out by `next_stage` went.
    pub fn record(&mut self, succeeded: bool)
        requires
            current(old(self)@) is Some,
        ensures
            final(self)@ == step(old(self)@, succeeded),
    {
        proof {
            use_type_invariant(&*self);
        }
        let n = self.stages.len();
        assert(self.done < n);
        if succeeded {
            self.done = self.done + 1;
        } else {
            self.failed = true;
        }
    }

    /// How the run went: the stage whose tool failed, if one did.
    pub fn result(&self) -> (r: Result<(), StageError>)
        ensures
            self@.failed ==> (r matches Err(StageError::ToolFailed(s)) && s == self@.stages[self@.done as int]),
            !self@.failed ==> r is Ok,
    {
        proof {
            use_type_invariant(self);
        }
        if self.failed {
            Err(StageError::ToolFailed(self.stages[self.done]))
        } else {
            Ok(())
        }
    }
}

/// When the stage at position `k` is the first to fail, the stages that run
/// are exactly those up to and including it: no later stage is handed out,
/// and the run ends failed at that stage.
pub proof fn lemma_stops_at_first_failure(p: PipelineView, results: Seq<bool>, k: int)
    requires
        !p.failed,
        0 <= k,
        p.done + k < p.stages.len(),
        k < results.len(),
        !results[k],
        forall|j: int| 0 <= j < k ==> #[trigger] results[j],
    ensures
        invoked(p, results) == p.stages.subrange(p.done as int, p.done + k + 1),
        run_to_end(p, results).failed,
        run_to_end(p, results).done == p.done + k,
        current(run_to_end(p, results)) is None,
    decreases k,
{
    let rest = results.drop_first();
    if k == 0 {
        let q = step(p, false);
        assert(current(q) is None);
        if rest.len() > 0 {
            assert(invoked(q, rest) == Seq::<Stage>::empty());
            assert(run_to_end(q, rest) == q);
        } else {
            assert(run_to_end(q, rest) == q);
        }
        assert(run_to_end(p, results) == run_to_end(q, rest));
        assert(invoked(p, results) =~= p.stages.subrange(p.done as int, p.done + 1int));
    } else {
        assert(results[0]);
        let q = step(p, true);
        assert forall|j: int| 0 <= j < k - 1 implies #[trigger] rest[j] by {
            assert(results[j + 1]);
        }
        lemma_stops_at_first_failure(q, rest, k - 1);
        assert(run_to_end(p, results) == run_to_end(q, rest));
        assert(invoked(p, results) =~= p.stages.subrange(p.done as int, p.done + k + 1));
    }
}

} // verus!
