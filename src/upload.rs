use vstd::prelude::*;

use crate::artifact::ExecutableArtifact;
use crate::meta::{opt_title_view, strings_view};
use crate::paths::{
    components_of, ends_with_slash, file_name, file_name_of, has_trailing_slash, is_prefix,
    join_segments, join_slash, path_components, relative_segments, with_extension,
    with_extension_of,
};
use crate::stages::{title_for, BuildContext};
use crate::text::{has_prefix, starts_with};

verus! {

/// Where the device can be reached.
#[derive(Clone, Debug)]
pub struct ConnectionArgs {
    pub vita_ip: String,
    pub ftp_port: u16,
    pub cmd_port: u16,
}

/// Connection settings whose address may still be missing.
#[derive(Clone, Debug)]
pub struct OptionalConnectionArgs {
    pub vita_ip: Option<String>,
    pub ftp_port: u16,
    pub cmd_port: u16,
}

/// The device's address was given neither as an argument nor in the
/// environment.
#[derive(Clone, Copy, Debug, PartialEq, Eq, Structural)]
pub struct MissingAddress;

impl OptionalConnectionArgs {
    /// The settings with their address, which must be given.
    pub fn required(self) -> (r: Result<ConnectionArgs, MissingAddress>)
        ensures
            match self.vita_ip {
                Some(ip) => r matches Ok(c) && c.vita_ip@ == ip@ && c.ftp_port == self.ftp_port
                    && c.cmd_port == self.cmd_port,
                None => r is Err,
            },
    {
        match self.vita_ip {
            Some(vita_ip) => Ok(
                ConnectionArgs { vita_ip, ftp_port: self.ftp_port, cmd_port: self.cmd_port },
            ),
            None => Err(MissingAddress),
        }
    }
}

/// Why an upload could not be planned or did not complete.
#[derive(Debug)]
pub enum TransferError {
    /// The source path has no file name to append to a directory
    /// destination.
    NoFileName,
    /// A walked entry does not lie under the source directory.
    OutsideSource(String),
    /// The package has no title id to upload its executable under.
    NoTitleId,
    /// Uploading to this remote path failed.
    PutFailed(String),
}

/// The remote path of an uploaded item: under a destination that ends with
/// a slash, the item's own name is appended; any other destination is the
/// full remote path.
pub open spec fn item_destination(destination: Seq<char>, source: Seq<char>) -> Option<Seq<char>> {
    if ends_with_slash(destination) {
        match file_name_of(source) {
            Some(n) => Some(destination + n),
            None => None,
        }
    } else {
        Some(destination)
    }
}

/// The remote path of an entry found under an uploaded directory: the
/// directory's remote path, a slash, and the entry's components below the
/// source, joined with forward slashes.
pub open spec fn entry_destination(root: Seq<char>, source: Seq<char>, entry: Seq<char>) -> Option<
    Seq<char>,
> {
    let s = components_of(source);
    let e = components_of(entry);
    if is_prefix(s, e) {
        Some(root + "/"@ + join_slash(e.subrange(s.len() as int, e.len() as int)))
    } else {
        None
    }
}

/// Uploads a file or a directory tree to the device.
#[derive(Debug)]
pub struct Upload {
    pub connection: ConnectionArgs,
    /// A local file or directory; a directory is copied recursively.
    pub source: String,
    /// The remote path; a trailing slash makes it a directory.
    pub destination: String,
}

impl Upload {
    /// The remote path of the uploaded file or directory.
    pub fn root_destination(&self) -> (r: Result<String, TransferError>)
        ensures
            match item_destination(self.destination@, self.source@) {
                Some(d) => r matches Ok(p) && p@ == d,
                None => r matches Err(TransferError::NoFileName),
            },
    {
        if has_trailing_slash(self.destination.as_str()) {
            match file_name(self.source.as_str()) {
                Some(name) => {
                    let mut d = self.destination.clone();
                    d.append(name.as_str());
                    Ok(d)
                },
                None => Err(TransferError::NoFileName),
            }
        } else {
            Ok(self.destination.clone())
        }
    }

    /// The remote path of an entry found while walking the source directory,
    /// given the directory's remote path.
    pub fn entry_destination(&self, root: &str, entry: &str) -> (r: Result<String, TransferError>)
        ensures
            match entry_destination(root@, self.source@, entry@) {
                Some(d) => r matches Ok(p) && p@ == d,
                None => r matches Err(TransferError::OutsideSource(_)),
            },
    {
        let source_parts = path_components(self.source.as_str());
        let entry_parts = path_components(entry);
        match relative_segments(&source_parts, &entry_parts) {
            Some(rel) => {
                let inside = join_segments(&rel);
                proof {
                    let s = components_of(self.source@);
                    let e = components_of(entry@);
                    assert(e.subrange(s.len() as int, e.len() as int) =~= strings_view(rel@));
                }
                let mut d = String::from_str(root);
                d.append("/");
                d.append(inside.as_str());
                Ok(d)
            },
            None => Err(TransferError::OutsideSource(String::from_str(entry))),
        }
    }
}

/// What the source path is on the local file system.
#[derive(Debug, Clone, Copy, PartialEq, Eq, Structural)]
pub enum SourceKind {
    Missing,
    File,
    Directory,
    /// Neither a file nor a directory.
    Other,
}

/// Why an upload cannot be planned.
#[derive(Debug)]
pub enum PlanError {
    SourceMissing,
    Unsupported,
    Transfer(TransferError),
}

/// What a walked entry is; entries of other kinds are not uploaded.
pub open spec fn entry_item(
    root: Seq<char>,
    source: Seq<char>,
    entry: (Seq<char>, SourceKind),
) -> Option<(Seq<char>, Seq<char>, ItemKind)> {
    match entry.1 {
        SourceKind::File => Some((entry.0, entry_destination(root, source, entry.0)->0, ItemKind::File)),
        SourceKind::Directory => Some(
            (entry.0, entry_destination(root, source, entry.0)->0, ItemKind::Directory),
        ),
        _ => None,
    }
}

/// The items of a walked directory, in the order of the walk.
pub open spec fn tree_items(
    root: Seq<char>,
    source: Seq<char>,
    entries: Seq<(Seq<char>, SourceKind)>,
) -> Seq<(Seq<char>, Seq<char>, ItemKind)>
    decreases entries.len(),
{
    if entries.len() == 0 {
        Seq::empty()
    } else {
        let before = tree_items(root, source, entries.drop_last());
        match entry_item(root, source, entries.last()) {
            Some(item) => before.push(item),
            None => before,
        }
    }
}

pub open spec fn entries_view(v: Seq<(String, SourceKind)>) -> Seq<(Seq<char>, SourceKind)> {
    v.map_values(|e: (String, SourceKind)| (e.0@, e.1))
}

/// Whether every walked entry lies under the source directory.
pub open spec fn all_inside(source: Seq<char>, entries: Seq<(Seq<char>, SourceKind)>) -> bool {
    forall|i: int|
        0 <= i < entries.len() ==> is_prefix(components_of(source), components_of(#[trigger] entries[i].0))
}

impl Upload {
    /// The items to upload: the file itself, or every file and directory
    /// found by walking the source directory (`entries`, in walk order,
    /// the directory itself first).
    pub fn plan(&self, source: SourceKind, entries: &Vec<(String, SourceKind)>) -> (r: Result<
        Vec<TransferItem>,
        PlanError,
    >)
        ensures
            source == SourceKind::Missing ==> r matches Err(PlanError::SourceMissing),
            source != SourceKind::Missing ==> match item_destination(
                self.destination@,
                self.source@,
            ) {
                None => r matches Err(PlanError::Transfer(TransferError::NoFileName)),
                Some(root) => match source {
                    SourceKind::File => r matches Ok(v) && items_view(v@) == seq![
                        (self.source@, root, ItemKind::File),
                    ],
                    SourceKind::Directory => if all_inside(self.source@, entries_view(entries@)) {
                        r matches Ok(v) && items_view(v@) == tree_items(
                            root,
                            self.source@,
                            entries_view(entries@),
                        )
                    } else {
                        r matches Err(PlanError::Transfer(TransferError::OutsideSource(_)))
                    },
                    _ => r matches Err(PlanError::Unsupported),
                },
            },
    {
        if source == SourceKind::Missing {
            return Err(PlanError::SourceMissing);
        }
        let root = match self.root_destination() {
            Ok(root) => root,
            Err(e) => {
                return Err(PlanError::Transfer(e));
            },
        };
        match source {
            SourceKind::File => {
                let mut v: Vec<TransferItem> = Vec::new();
                v.push(TransferItem { local: self.source.clone(), remote: root, kind: ItemKind::File });
                assert(items_view(v@) =~= seq![(self.source@, root@, ItemKind::File)]);
                Ok(v)
            },
            SourceKind::Directory => {
                let ghost es = entries_view(entries@);
                let mut v: Vec<TransferItem> = Vec::new();
                let mut i: usize = 0;
                while i < entries.len()
                    invariant
                        0 <= i <= entries@.len(),
                        source == SourceKind::Directory,
                        item_destination(self.destination@, self.source@) == Some(root@),
                        es == entries_view(entries@),
                        all_inside(self.source@, es.subrange(0, i as int)),
                        items_view(v@) == tree_items(root@, self.source@, es.subrange(0, i as int)),
                    decreases entries@.len() - i,
                {
                    proof {
                        let next = es.subrange(0, i + 1);
                        assert(next.drop_last() =~= es.subrange(0, i as int));
                        assert(next.last() == es[i as int]);
                    }
                    let remote = match self.entry_destination(root.as_str(), entries[i].0.as_str()) {
                        Ok(d) => d,
                        Err(e) => {
                            proof {
                                assert(!all_inside(self.source@, es));
                            }
                            return Err(PlanError::Transfer(e));
                        },
                    };
                    proof {
                        let next = es.subrange(0, i + 1);
                        assert forall|j: int| 0 <= j < next.len() implies is_prefix(
                            components_of(self.source@),
                            components_of(#[trigger] next[j].0),
                        ) by {
                            if j < i {
                                assert(next[j] == es.subrange(0, i as int)[j]);
                            }
                        }
                    }
                    let ghost before = v@;
                    match entries[i].1 {
                        SourceKind::File => {
                            v.push(TransferItem {
                                local: entries[i].0.clone(),
                                remote,
                                kind: ItemKind::File,
                            });
                            assert(items_view(v@) =~= items_view(before).push(
                                (es[i as int].0, remote@, ItemKind::File),
                            ));
                        },
                        SourceKind::Directory => {
                            v.push(TransferItem {
                                local: entries[i].0.clone(),
                                remote,
                                kind: ItemKind::Directory,
                            });
                            assert(items_view(v@) =~= items_view(before).push(
                                (es[i as int].0, remote@, ItemKind::Directory),
                            ));
                        },
                        _ => {},
                    }
                    i = i + 1;
                }
                assert(es.subrange(0, es.len() as int) =~= es);
                Ok(v)
            },
            _ => Err(PlanError::Unsupported),
        }
    }
}

/// A file under a directory that is uploaded to a destination directory
/// lands under the directory's own name there, below it by the same
/// components, joined with forward slashes.
pub proof fn lemma_directory_entry_path(
    destination: Seq<char>,
    source: Seq<char>,
    name: Seq<char>,
    entry: Seq<char>,
    below: Seq<Seq<char>>,
)
    requires
        ends_with_slash(destination),
        file_name_of(source) == Some(name),
        components_of(entry) == components_of(source) + below,
    ensures
        item_destination(destination, source) == Some(destination + name),
        entry_destination(destination + name, source, entry) == Some(
            destination + name + "/"@ + join_slash(below),
        ),
{
    let s = components_of(source);
    let e = components_of(entry);
    assert(e.subrange(0, s.len() as int) =~= s);
    assert(e.subrange(s.len() as int, e.len() as int) =~= below);
}

/// The remote path of a package uploaded to a destination directory; a
/// slash is put between the two where the destination has none.
pub open spec fn package_destination(destination: Seq<char>, package: Seq<char>) -> Seq<char> {
    let name = match file_name_of(package) {
        Some(n) => n,
        None => Seq::empty(),
    };
    if ends_with_slash(destination) {
        destination + name
    } else {
        destination + "/"@ + name
    }
}

/// What is uploaded: a local file or directory and its remote path.
#[derive(Debug, Clone, Copy, PartialEq, Eq, Structural)]
pub enum ItemKind {
    File,
    Directory,
}

#[derive(Debug)]
pub struct TransferItem {
    pub local: String,
    pub remote: String,
    pub kind: ItemKind,
}

impl View for TransferItem {
    type V = (Seq<char>, Seq<char>, ItemKind);

    open spec fn view(&self) -> (Seq<char>, Seq<char>, ItemKind) {
        (self.local@, self.remote@, self.kind)
    }
}

pub open spec fn items_view(v: Seq<TransferItem>) -> Seq<(Seq<char>, Seq<char>, ItemKind)> {
    v.map_values(|t: TransferItem| t@)
}

/// The upload of an artifact's package to a destination directory.
pub open spec fn vpk_item(elf: Seq<char>, destination: Seq<char>) -> (Seq<char>, Seq<char>, ItemKind) {
    let vpk = with_extension_of(elf, "vpk"@);
    (vpk, package_destination(destination, vpk), ItemKind::File)
}

pub open spec fn vpk_items(artifacts: Seq<ExecutableArtifact>, destination: Seq<char>) -> Seq<
    (Seq<char>, Seq<char>, ItemKind),
> {
    Seq::new(artifacts.len(), |i: int| vpk_item(artifacts[i].elf@, destination))
}

/// The packages of the artifacts, each to be uploaded to the destination
/// directory.
pub fn vpk_uploads(artifacts: &Vec<ExecutableArtifact>, destination: &str) -> (r: Vec<TransferItem>)
    ensures
        items_view(r@) == vpk_items(artifacts@, destination@),
{
    let slash = has_trailing_slash(destination);
    let mut r: Vec<TransferItem> = Vec::new();
    let mut i: usize = 0;
    while i < artifacts.len()
        invariant
            0 <= i <= artifacts@.len(),
            slash == ends_with_slash(destination@),
            items_view(r@) == vpk_items(artifacts@.subrange(0, i as int), destination@),
        decreases artifacts@.len() - i,
    {
        proof {
            reveal_strlit("vpk");
        }
        let vpk = with_extension(artifacts[i].elf.as_str(), "vpk");
        let name = match file_name(vpk.as_str()) {
            Some(n) => n,
            None => String::new(),
        };
        let mut remote = String::from_str(destination);
        if !slash {
            remote.append("/");
        }
        remote.append(name.as_str());
        proof {
            if !slash {
                assert(remote@ == destination@ + "/"@ + (match file_name_of(vpk@) {
                    Some(n) => n,
                    None => Seq::empty(),
                }));
            }
            assert(remote@ == package_destination(destination@, vpk@));
        }
        let ghost item = (vpk@, remote@, ItemKind::File);
        assert(item == vpk_item(artifacts@[i as int].elf@, destination@));
        let ghost before = r@;
        r.push(TransferItem { local: vpk, remote, kind: ItemKind::File });
        assert(items_view(r@) =~= items_view(before).push(item));
        assert(vpk_items(artifacts@.subrange(0, i + 1), destination@) =~= vpk_items(
            artifacts@.subrange(0, i as int),
            destination@,
        ).push(item));
        i = i + 1;
    }
    assert(artifacts@.subrange(0, artifacts@.len() as int) =~= artifacts@);
    r
}

/// The remote path of a title's executable.
pub open spec fn eboot_destination(title: Seq<char>) -> Seq<char> {
    "ux0:/app/"@ + title + "/eboot.bin"@
}

/// Whether every artifact has a title id, its package's or the default.
pub open spec fn all_titled(artifacts: Seq<ExecutableArtifact>, default: Option<Seq<char>>) -> bool {
    forall|i: int|
        0 <= i < artifacts.len() ==> (#[trigger] title_for(artifacts[i].meta@, default)) is Some
}

/// The upload of an artifact's signed executable over its title's.
pub open spec fn eboot_item(a: ExecutableArtifact, default: Option<Seq<char>>) -> (
    Seq<char>,
    Seq<char>,
    ItemKind,
) {
    (
        with_extension_of(a.elf@, "self"@),
        eboot_destination(title_for(a.meta@, default)->0),
        ItemKind::File,
    )
}

pub open spec fn eboot_items(artifacts: Seq<ExecutableArtifact>, default: Option<Seq<char>>) -> Seq<
    (Seq<char>, Seq<char>, ItemKind),
> {
    Seq::new(artifacts.len(), |i: int| eboot_item(artifacts[i], default))
}

/// The signed executables of the artifacts, each to be uploaded over the
/// installed title's executable; every artifact needs a title id.
pub fn eboot_uploads(ctx: &BuildContext, artifacts: &Vec<ExecutableArtifact>) -> (r: Result<
    Vec<TransferItem>,
    TransferError,
>)
    ensures
        all_titled(artifacts@, opt_title_view(ctx.default_title_id)) <==> r is Ok,
        r matches Ok(v) ==> items_view(v@) == eboot_items(
            artifacts@,
            opt_title_view(ctx.default_title_id),
        ),
        r matches Err(e) ==> e is NoTitleId,
{
    let ghost default = opt_title_view(ctx.default_title_id);
    let mut r: Vec<TransferItem> = Vec::new();
    let mut i: usize = 0;
    while i < artifacts.len()
        invariant
            0 <= i <= artifacts@.len(),
            default == opt_title_view(ctx.default_title_id),
            all_titled(artifacts@.subrange(0, i as int), default),
            items_view(r@) == eboot_items(artifacts@.subrange(0, i as int), default),
        decreases artifacts@.len() - i,
    {
        let title = match ctx.title_id(&artifacts[i]) {
            Some(t) => t,
            None => {
                assert(title_for(artifacts@[i as int].meta@, default) is None);
                return Err(TransferError::NoTitleId);
            },
        };
        let mut remote = String::from_str("ux0:/app/");
        remote.append(title.as_str());
        remote.append("/eboot.bin");
        proof {
            reveal_strlit("self");
        }
        let local = with_extension(artifacts[i].elf.as_str(), "self");
        let ghost item = (local@, remote@, ItemKind::File);
        assert(item == eboot_item(artifacts@[i as int], default));
        let ghost before = r@;
        r.push(TransferItem { local, remote, kind: ItemKind::File });
        assert(items_view(r@) =~= items_view(before).push(item));
        assert(eboot_items(artifacts@.subrange(0, i + 1), default) =~= eboot_items(
            artifacts@.subrange(0, i as int),
            default,
        ).push(item));
        assert(all_titled(artifacts@.subrange(0, i + 1), default)) by {
            assert forall|j: int| 0 <= j < i + 1 implies (#[trigger] title_for(
                artifacts@.subrange(0, i + 1)[j].meta@,
                default,
            )) is Some by {
                if j < i {
                    assert(artifacts@.subrange(0, i + 1)[j] == artifacts@.subrange(0, i as int)[j]);
                }
            }
        }
        i = i + 1;
    }
    assert(artifacts@.subrange(0, artifacts@.len() as int) =~= artifacts@);
    Ok(r)
}

/// Whether an answer to a directory creation reports that the directory
/// was created, though the client took the answer for an unexpected one.
pub open spec fn is_directory_created(body: Seq<char>) -> bool {
    starts_with(body, "226 Directory created."@)
}

pub fn directory_created(body: &str) -> (r: bool)
    ensures
        r == is_directory_created(body@),
{
    has_prefix(body, "226 Directory created.")
}

} // verus!
