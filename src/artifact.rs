use vstd::prelude::*;

use cargo_metadata::Message;

use crate::meta::{default_metadata, opt_string_view, MetadataView, PackageMetadata};

verus! {

/// What one line of cargo's JSON output says of a compiled artifact: its
/// package id, the path of its manifest and the path of its executable.
/// `None` for a line that is no compiler-artifact message.
pub uninterp spec fn cargo_artifact_of(line: Seq<char>) -> Option<
    (Seq<char>, Seq<char>, Option<Seq<char>>),
>;

/// An artifact that the build reported.
#[derive(Debug)]
pub struct BuildArtifact {
    pub package_id: String,
    pub manifest_path: String,
    pub executable: Option<String>,
}

impl View for BuildArtifact {
    type V = (Seq<char>, Seq<char>, Option<Seq<char>>);

    open spec fn view(&self) -> (Seq<char>, Seq<char>, Option<Seq<char>>) {
        (self.package_id@, self.manifest_path@, opt_string_view(self.executable))
    }
}

/// Relies on serde_json::from_str for cargo_metadata's Message, with
/// serde_json's default nesting limit: the message that one line holds, of
/// which a compiler artifact is kept; a line that is no message gives `None`.
#[verifier::external_body]
fn read_artifact_message(line: &str) -> (r: Option<BuildArtifact>)
    ensures
        match r {
            Some(a) => cargo_artifact_of(line@) == Some(a@),
            None => cargo_artifact_of(line@) is None,
        },
{
    match serde_json::from_str::<Message>(line) {
        Ok(Message::CompilerArtifact(a)) => Some(BuildArtifact {
            package_id: a.package_id.repr,
            manifest_path: a.manifest_path.into_string(),
            executable: a.executable.map(|e| e.into_string()),
        }),
        _ => None,
    }
}

/// Whether a line reports an artifact with an executable.
pub open spec fn is_executable_message(line: Seq<char>) -> bool {
    cargo_artifact_of(line) matches Some(a) && a.2 is Some
}

/// The executables that the lines report, in the order of the lines.
pub open spec fn executables_of(lines: Seq<Seq<char>>) -> Seq<
    (Seq<char>, Seq<char>, Option<Seq<char>>),
>
    decreases lines.len(),
{
    if lines.len() == 0 {
        Seq::empty()
    } else {
        let before = executables_of(lines.drop_last());
        if is_executable_message(lines.last()) {
            before.push(cargo_artifact_of(lines.last())->0)
        } else {
            before
        }
    }
}

pub open spec fn lines_view(v: Seq<String>) -> Seq<Seq<char>> {
    v.map_values(|s: String| s@)
}

pub open spec fn artifacts_view(v: Seq<BuildArtifact>) -> Seq<
    (Seq<char>, Seq<char>, Option<Seq<char>>),
> {
    v.map_values(|a: BuildArtifact| a@)
}

/// The executables reported by cargo's output, last reported first: the
/// last element of the result is the first executable that was reported.
pub fn collect_artifacts(lines: &Vec<String>) -> (r: Vec<BuildArtifact>)
    ensures
        artifacts_view(r@) == executables_of(lines_view(lines@)).reverse(),
{
    let mut found: Vec<BuildArtifact> = Vec::new();
    let mut i: usize = 0;
    while i < lines.len()
        invariant
            0 <= i <= lines@.len(),
            artifacts_view(found@) == executables_of(lines_view(lines@.subrange(0, i as int))),
        decreases lines@.len() - i,
    {
        proof {
            let next = lines_view(lines@.subrange(0, i + 1));
            assert(next.drop_last() =~= lines_view(lines@.subrange(0, i as int)));
            assert(next.last() == lines@[i as int]@);
        }
        match read_artifact_message(lines[i].as_str()) {
            Some(a) => {
                if a.executable.is_some() {
                    found.push(a);
                    assert(artifacts_view(found@) =~= executables_of(
                        lines_view(lines@.subrange(0, i + 1)),
                    ));
                }
            },
            None => {},
        }
        i = i + 1;
    }
    assert(lines@.subrange(0, lines@.len() as int) =~= lines@);
    let ghost emitted = artifacts_view(found@);
    let mut r: Vec<BuildArtifact> = Vec::new();
    while found.len() > 0
        invariant
            artifacts_view(found@) + artifacts_view(r@).reverse() == emitted,
        decreases found@.len(),
    {
        let a = found.pop().unwrap();
        proof {
            assert(artifacts_view(found@.push(a)) =~= artifacts_view(found@).push(a@));
        }
        r.push(a);
        assert(artifacts_view(found@) + artifacts_view(r@).reverse() =~= emitted);
    }
    assert(artifacts_view(found@) =~= Seq::empty());
    assert(artifacts_view(r@).reverse() =~= emitted);
    assert(artifacts_view(r@) =~= emitted.reverse());
    r
}

/// What cargo's build plan says of the profile that was built.
#[derive(Debug)]
pub struct BuildHints {
    /// "dev", "release" or a custom profile.
    pub profile: String,
    /// The profile's strip setting as cargo resolved it, if it is named.
    pub strip: Option<String>,
}

/// Whether a strip setting removes the symbols that the packaging needs.
pub open spec fn strips_symbols(strip: Option<Seq<char>>) -> bool {
    strip == Some("symbols"@) || strip == Some("true"@)
}

impl BuildHints {
    /// Whether the profile strips symbols from the executable.
    pub fn strip_symbols(&self) -> (r: bool)
        ensures
            r == strips_symbols(opt_string_view(self.strip)),
    {
        match &self.strip {
            Some(s) => {
                let symbols = String::from_str("symbols");
                let yes = String::from_str("true");
                *s == symbols || *s == yes
            },
            None => false,
        }
    }
}

/// The hints of a build plan, taken from its last unit, given as its
/// profile name and its named strip setting.
pub fn hints_from_units(units: Vec<(String, Option<String>)>) -> (r: Option<BuildHints>)
    ensures
        r is None <==> units@.len() == 0,
        r matches Some(h) ==> h.profile@ == units@.last().0@ && opt_string_view(h.strip)
            == opt_string_view(units@.last().1),
{
    let mut units = units;
    match units.pop() {
        Some((profile, strip)) => Some(BuildHints { profile, strip }),
        None => None,
    }
}

/// Why the build step failed.
#[derive(Debug)]
pub enum BuildError {
    /// The build exited with a failure; `strip_profile` names the profile whose
    /// strip setting removes symbols, where the build plan shows one.
    Failed { strip_profile: Option<String> },
}

/// The outcome of a build, from its output lines, whether it succeeded and
/// the hints read from its build plan, if any could be read. The hints
/// change only what a failure says.
pub fn finish_build(lines: &Vec<String>, success: bool, hints: Option<BuildHints>) -> (r: Result<
    Vec<BuildArtifact>,
    BuildError,
>)
    ensures
        success ==> (r matches Ok(v) && artifacts_view(v@) == executables_of(
            lines_view(lines@),
        ).reverse()),
        !success ==> (r matches Err(BuildError::Failed { strip_profile }) && opt_string_view(
            strip_profile,
        ) == match hints {
            Some(h) => if strips_symbols(opt_string_view(h.strip)) {
                Some(h.profile@)
            } else {
                None
            },
            None => None,
        }),
{
    let artifacts = collect_artifacts(lines);
    if success {
        return Ok(artifacts);
    }
    let strip_profile = match hints {
        Some(h) => if h.strip_symbols() {
            Some(h.profile)
        } else {
            None
        },
        None => None,
    };
    Err(BuildError::Failed { strip_profile })
}

/// The `[package.metadata.vita]` section of a package, as cargo's metadata
/// gives it.
#[derive(Debug)]
pub enum VitaSection {
    Absent,
    Parsed(PackageMetadata),
    /// The section is there but is no valid configuration; the text says why.
    Malformed(String),
}

/// A package of the workspace.
#[derive(Debug)]
pub struct PackageInfo {
    pub id: String,
    pub name: String,
    pub vita: VitaSection,
}

/// An executable with the configuration of its package.
#[derive(Debug)]
pub struct ExecutableArtifact {
    pub artifact: BuildArtifact,
    pub meta: PackageMetadata,
    pub package_name: String,
    pub elf: String,
}

/// Why an artifact could not be tied to its package's configuration.
#[derive(Debug)]
pub enum ResolveError {
    /// No package of the workspace has the artifact's package id.
    NoPackage,
    /// The package's configuration section is malformed.
    Config(String),
    /// The artifact has no executable.
    MissingExecutable,
}

/// The configuration that a section stands for.
pub open spec fn section_metadata(s: VitaSection) -> Option<MetadataView> {
    match s {
        VitaSection::Absent => Some(default_metadata()),
        VitaSection::Parsed(m) => Some(m@),
        VitaSection::Malformed(_) => None,
    }
}

/// The configuration of a package: its own section, the defaults where it
/// has none, an error where the section is malformed.
pub fn package_metadata(section: &VitaSection) -> (r: Result<PackageMetadata, ResolveError>)
    ensures
        match section_metadata(*section) {
            Some(m) => r matches Ok(pm) && pm@ == m,
            None => r matches Err(ResolveError::Config(_)),
        },
{
    match section {
        VitaSection::Absent => Ok(PackageMetadata::default()),
        VitaSection::Parsed(m) => Ok(m.clone()),
        VitaSection::Malformed(why) => Err(ResolveError::Config(why.clone())),
    }
}

pub open spec fn package_ids(ps: Seq<PackageInfo>) -> Seq<Seq<char>> {
    ps.map_values(|p: PackageInfo| p.id@)
}

/// The first package with the given id.
pub open spec fn package_index(ps: Seq<PackageInfo>, id: Seq<char>) -> Option<int> {
    crate::paths::first_index(package_ids(ps), id)
}

/// The position of the first package with the given id.
pub fn package_position(packages: &Vec<PackageInfo>, id: &str) -> (r: Option<usize>)
    ensures
        match package_index(packages@, id@) {
            Some(i) => r == Some(i as usize),
            None => r is None,
        },
{
    let ghost ids = package_ids(packages@);
    let wanted = String::from_str(id);
    let mut i: usize = 0;
    while i < packages.len()
        invariant
            0 <= i <= packages@.len(),
            ids == package_ids(packages@),
            wanted@ == id@,
            forall|j: int| 0 <= j < i ==> ids[j] != id@,
        decreases packages@.len() - i,
    {
        if packages[i].id == wanted {
            proof {
                assert(ids[i as int] == id@);
                let k = choose|k: int|
                    0 <= k < ids.len() && ids[k] == id@ && forall|j: int| 0 <= j < k ==> ids[j] != id@;
                if k > i {
                    assert(ids[i as int] != id@);
                }
            }
            return Some(i);
        }
        i = i + 1;
    }
    proof {
        assert forall|j: int| 0 <= j < ids.len() implies ids[j] != id@ by {}
    }
    None
}

/// Ties an artifact to its package and that package's configuration.
pub fn resolve(artifact: BuildArtifact, packages: &Vec<PackageInfo>) -> (r: Result<
    ExecutableArtifact,
    ResolveError,
>)
    ensures
        package_index(packages@, artifact.package_id@) is None ==> r matches Err(
            ResolveError::NoPackage,
        ),
        package_index(packages@, artifact.package_id@) matches Some(i) ==> {
            let p = packages@[i];
            match section_metadata(p.vita) {
                None => r matches Err(ResolveError::Config(_)),
                Some(m) => match artifact.executable {
                    None => r matches Err(ResolveError::MissingExecutable),
                    Some(e) => r matches Ok(x) && x.artifact@ == artifact@ && x.meta@ == m
                        && x.package_name@ == p.name@ && x.elf@ == e@,
                },
            }
        },
{
    let ghost ids = package_ids(packages@);
    let mut i: usize = 0;
    while i < packages.len()
        invariant
            0 <= i <= packages@.len(),
            ids == package_ids(packages@),
            forall|j: int| 0 <= j < i ==> ids[j] != artifact.package_id@,
        decreases packages@.len() - i,
    {
        if packages[i].id == artifact.package_id {
            proof {
                assert(ids[i as int] == artifact.package_id@);
                let k = choose|k: int|
                    0 <= k < ids.len() && ids[k] == artifact.package_id@ && forall|j: int|
                        0 <= j < k ==> ids[j] != artifact.package_id@;
                if k > i {
                    assert(ids[i as int] != artifact.package_id@);
                }
                assert(package_index(packages@, artifact.package_id@) == Some(i as int));
            }
            let meta = package_metadata(&packages[i].vita)?;
            let elf = match &artifact.executable {
                Some(e) => e.clone(),
                None => {
                    return Err(ResolveError::MissingExecutable);
                },
            };
            let package_name = packages[i].name.clone();
            return Ok(ExecutableArtifact { artifact, meta, package_name, elf });
        }
        i = i + 1;
    }
    proof {
        assert forall|j: int| 0 <= j < ids.len() implies ids[j] != artifact.package_id@ by {}
    }
    Err(ResolveError::NoPackage)
}

} // verus!
