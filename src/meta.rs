use vstd::prelude::*;

use crate::title_id::TitleId;

verus! {

/// The target triple that every build is made for.
pub const VITA_TARGET: &'static str = "armv7-sony-vita-newlibeabihf";

/// The views of a list of strings.
pub open spec fn strings_view(v: Seq<String>) -> Seq<Seq<char>> {
    v.map_values(|s: String| s@)
}

pub open spec fn opt_string_view(o: Option<String>) -> Option<Seq<char>> {
    match o {
        Some(s) => Some(s@),
        None => None,
    }
}

pub open spec fn opt_title_view(o: Option<TitleId>) -> Option<Seq<char>> {
    match o {
        Some(t) => Some(t@),
        None => None,
    }
}

/// A copy of a list of strings.
pub fn clone_strings(v: &Vec<String>) -> (r: Vec<String>)
    ensures
        strings_view(r@) == strings_view(v@),
{
    let mut r: Vec<String> = Vec::new();
    let mut i: usize = 0;
    while i < v.len()
        invariant
            0 <= i <= v@.len(),
            r@.len() == i,
            forall|j: int| 0 <= j < i ==> (#[trigger] r@[j])@ == v@[j]@,
        decreases v@.len() - i,
    {
        let s = v[i].clone();
        r.push(s);
        i = i + 1;
    }
    assert(strings_view(r@) =~= strings_view(v@));
    r
}

/// Appends copies of `more` to `v`.
pub fn push_all(v: &mut Vec<String>, more: &Vec<String>)
    ensures
        strings_view(final(v)@) == strings_view(old(v)@) + strings_view(more@),
{
    let ghost start = v@;
    let mut i: usize = 0;
    while i < more.len()
        invariant
            0 <= i <= more@.len(),
            v@.len() == start.len() + i,
            forall|j: int| 0 <= j < start.len() ==> (#[trigger] v@[j]) == start[j],
            forall|j: int| 0 <= j < i ==> (#[trigger] v@[start.len() + j])@ == more@[j]@,
        decreases more@.len() - i,
    {
        let s = more[i].clone();
        v.push(s);
        i = i + 1;
    }
    assert(strings_view(v@) =~= strings_view(start) + strings_view(more@)) by {
        assert forall|j: int| start.len() <= j < v@.len() implies v@[j]@ == more@[j - start.len()]@ by {
            assert(v@[start.len() + (j - start.len())] == v@[j]);
        }
    }
}

pub fn clone_opt_string(o: &Option<String>) -> (r: Option<String>)
    ensures
        opt_string_view(r) == opt_string_view(*o),
{
    match o {
        Some(s) => Some(s.clone()),
        None => None,
    }
}

pub fn clone_opt_title(o: &Option<TitleId>) -> (r: Option<TitleId>)
    ensures
        opt_title_view(r) == opt_title_view(*o),
{
    match o {
        Some(t) => Some(t.clone()),
        None => None,
    }
}

/// The library used for the standard library build when none is configured.
pub fn default_build_std() -> (r: String)
    ensures
        r@ == "std,panic_unwind"@,
{
    String::from_str("std,panic_unwind")
}

/// Flags handed to the symbol stripper when none are configured.
pub fn default_vita_strip_flags() -> (r: Vec<String>)
    ensures
        strings_view(r@) == seq!["-g"@],
{
    let mut r: Vec<String> = Vec::new();
    r.push(String::from_str("-g"));
    assert(strings_view(r@) =~= seq!["-g"@]);
    r
}

/// Flags handed to the signer when none are configured.
pub fn default_vita_make_fself_flags() -> (r: Vec<String>)
    ensures
        strings_view(r@) == seq!["-s"@],
{
    let mut r: Vec<String> = Vec::new();
    r.push(String::from_str("-s"));
    assert(strings_view(r@) =~= seq!["-s"@]);
    r
}

/// Flags handed to the metadata tool when none are configured.
pub fn default_vita_mksfoex_flags() -> (r: Vec<String>)
    ensures
        strings_view(r@) == seq!["-d"@, "ATTRIBUTE2=12"@],
{
    let mut r: Vec<String> = Vec::new();
    r.push(String::from_str("-d"));
    r.push(String::from_str("ATTRIBUTE2=12"));
    assert(strings_view(r@) =~= seq!["-d"@, "ATTRIBUTE2=12"@]);
    r
}

/// Settings of one build profile.
#[derive(Clone, Copy, Debug, PartialEq, Eq, Structural)]
pub struct ProfileMetadata {
    /// Whether the executable is stripped before it is packaged; unset means
    /// the profile's default.
    pub strip_symbols: Option<bool>,
}

impl Default for ProfileMetadata {
    fn default() -> (r: ProfileMetadata)
        ensures
            r.strip_symbols is None,
    {
        ProfileMetadata { strip_symbols: None }
    }
}

/// The mathematical value of a package's configuration.
pub struct MetadataView {
    pub title_id: Option<Seq<char>>,
    pub title_name: Option<Seq<char>>,
    pub assets: Option<Seq<char>>,
    pub build_std: Seq<char>,
    pub vita_strip_flags: Seq<Seq<char>>,
    pub vita_make_fself_flags: Seq<Seq<char>>,
    pub vita_mksfoex_flags: Seq<Seq<char>>,
    pub dev: Option<bool>,
    pub release: Option<bool>,
}

/// The deployment configuration of one package.
#[derive(Debug)]
pub struct PackageMetadata {
    pub title_id: Option<TitleId>,
    pub title_name: Option<String>,
    pub assets: Option<String>,
    pub build_std: String,
    pub vita_strip_flags: Vec<String>,
    pub vita_make_fself_flags: Vec<String>,
    pub vita_mksfoex_flags: Vec<String>,
    pub dev: ProfileMetadata,
    pub release: ProfileMetadata,
}

impl View for PackageMetadata {
    type V = MetadataView;

    open spec fn view(&self) -> MetadataView {
        MetadataView {
            title_id: opt_title_view(self.title_id),
            title_name: opt_string_view(self.title_name),
            assets: opt_string_view(self.assets),
            build_std: self.build_std@,
            vita_strip_flags: strings_view(self.vita_strip_flags@),
            vita_make_fself_flags: strings_view(self.vita_make_fself_flags@),
            vita_mksfoex_flags: strings_view(self.vita_mksfoex_flags@),
            dev: self.dev.strip_symbols,
            release: self.release.strip_symbols,
        }
    }
}

/// The configuration of a package that has none of its own.
pub open spec fn default_metadata() -> MetadataView {
    MetadataView {
        title_id: None,
        title_name: None,
        assets: None,
        build_std: "std,panic_unwind"@,
        vita_strip_flags: seq!["-g"@],
        vita_make_fself_flags: seq!["-s"@],
        vita_mksfoex_flags: seq!["-d"@, "ATTRIBUTE2=12"@],
        dev: None,
        release: None,
    }
}

/// Whether a build of the given kind is stripped: a release build unless
/// its profile turns it off, a development build only if its profile turns
/// it on.
pub open spec fn strips(m: MetadataView, release: bool) -> bool {
    if release {
        match m.release {
            Some(b) => b,
            None => true,
        }
    } else {
        match m.dev {
            Some(b) => b,
            None => false,
        }
    }
}

impl Default for PackageMetadata {
    fn default() -> (r: PackageMetadata)
        ensures
            r@ == default_metadata(),
    {
        PackageMetadata {
            title_id: None,
            title_name: None,
            assets: None,
            build_std: default_build_std(),
            vita_strip_flags: default_vita_strip_flags(),
            vita_make_fself_flags: default_vita_make_fself_flags(),
            vita_mksfoex_flags: default_vita_mksfoex_flags(),
            release: ProfileMetadata::default(),
            dev: ProfileMetadata::default(),
        }
    }
}

impl Clone for PackageMetadata {
    fn clone(&self) -> (r: PackageMetadata)
        ensures
            r@ == self@,
    {
        PackageMetadata {
            title_id: clone_opt_title(&self.title_id),
            title_name: clone_opt_string(&self.title_name),
            assets: clone_opt_string(&self.assets),
            build_std: self.build_std.clone(),
            vita_strip_flags: clone_strings(&self.vita_strip_flags),
            vita_make_fself_flags: clone_strings(&self.vita_make_fself_flags),
            vita_mksfoex_flags: clone_strings(&self.vita_mksfoex_flags),
            dev: self.dev,
            release: self.release,
        }
    }
}

impl PackageMetadata {
    /// Whether the executable of a release (or development) build is
    /// stripped before packaging.
    pub fn strip_symbols(&self, release: bool) -> (r: bool)
        ensures
            r == strips(self@, release),
    {
        if release {
            match self.release.strip_symbols {
                Some(b) => b,
                None => true,
            }
        } else {
            match self.dev.strip_symbols {
                Some(b) => b,
                None => false,
            }
        }
    }
}

} // verus!
