use vstd::prelude::*;

use cargo_metadata::camino::Utf8Path;

use crate::meta::{opt_string_view, strings_view, VITA_TARGET};

verus! {

/// The components of a path, as camino splits it.
pub uninterp spec fn components_of(p: Seq<char>) -> Seq<Seq<char>>;

/// The last component of a path, if it names a file or directory.
pub uninterp spec fn file_name_of(p: Seq<char>) -> Option<Seq<char>>;

/// A path with its extension replaced.
pub uninterp spec fn with_extension_of(p: Seq<char>, ext: Seq<char>) -> Seq<char>;

/// A path joined onto a base path.
pub uninterp spec fn joined(base: Seq<char>, part: Seq<char>) -> Seq<char>;

/// The path without its last component.
pub uninterp spec fn parent_of(p: Seq<char>) -> Option<Seq<char>>;

/// Relies on camino's Utf8Path::components: the path split into its
/// components, each given as text.
#[verifier::external_body]
pub(crate) fn path_components(p: &str) -> (r: Vec<String>)
    ensures
        strings_view(r@) == components_of(p@),
{
    Utf8Path::new(p).components().map(|c| c.as_str().to_string()).collect()
}

/// Relies on camino's Utf8Path::file_name.
#[verifier::external_body]
pub(crate) fn file_name(p: &str) -> (r: Option<String>)
    ensures
        opt_string_view(r) == file_name_of(p@),
{
    Utf8Path::new(p).file_name().map(|s| s.to_string())
}

/// Whether a text holds no path separator.
pub open spec fn no_separator(s: Seq<char>) -> bool {
    forall|i: int| 0 <= i < s.len() ==> s[i] != '/' && s[i] != '\\'
}

/// Relies on camino's Utf8Path::with_extension: the sibling path that
/// differs in its extension. std panics on an extension that holds a path
/// separator, so such an extension is not admitted.
#[verifier::external_body]
pub(crate) fn with_extension(p: &str, ext: &str) -> (r: String)
    requires
        no_separator(ext@),
    ensures
        r@ == with_extension_of(p@, ext@),
{
    Utf8Path::new(p).with_extension(ext).into_string()
}

/// Relies on camino's Utf8Path::join.
#[verifier::external_body]
pub(crate) fn join(base: &str, part: &str) -> (r: String)
    ensures
        r@ == joined(base@, part@),
{
    Utf8Path::new(base).join(part).into_string()
}

/// Relies on camino's Utf8Path::parent.
#[verifier::external_body]
pub(crate) fn parent(p: &str) -> (r: Option<String>)
    ensures
        opt_string_view(r) == parent_of(p@),
{
    Utf8Path::new(p).parent().map(|q| q.as_str().to_string())
}

/// Whether a text ends with a forward slash.
pub open spec fn ends_with_slash(s: Seq<char>) -> bool {
    s.len() > 0 && s.last() == '/'
}

pub fn has_trailing_slash(s: &str) -> (r: bool)
    ensures
        r == ends_with_slash(s@),
{
    let n = s.unicode_len();
    n > 0 && s.get_char(n - 1) == '/'
}

/// The segments joined with forward slashes.
pub open spec fn join_slash(segs: Seq<Seq<char>>) -> Seq<char>
    decreases segs.len(),
{
    if segs.len() == 0 {
        Seq::empty()
    } else if segs.len() == 1 {
        segs[0]
    } else {
        join_slash(segs.drop_last()) + "/"@ + segs.last()
    }
}

pub fn join_segments(segs: &Vec<String>) -> (r: String)
    ensures
        r@ == join_slash(strings_view(segs@)),
{
    let mut r = String::new();
    let mut i: usize = 0;
    while i < segs.len()
        invariant
            0 <= i <= segs@.len(),
            r@ == join_slash(strings_view(segs@.subrange(0, i as int))),
        decreases segs@.len() - i,
    {
        proof {
            let pre = strings_view(segs@.subrange(0, i as int));
            let next = strings_view(segs@.subrange(0, i + 1));
            assert(next.drop_last() =~= pre);
            assert(next.last() == segs@[i as int]@);
        }
        if i > 0 {
            r.append("/");
        }
        r.append(segs[i].as_str());
        i = i + 1;
    }
    assert(segs@.subrange(0, segs@.len() as int) =~= segs@);
    r
}

/// Whether `pre` is a prefix of `s`.
pub open spec fn is_prefix(pre: Seq<Seq<char>>, s: Seq<Seq<char>>) -> bool {
    pre.len() <= s.len() && s.subrange(0, pre.len() as int) == pre
}

/// The components of `path` below `root`, when `root` is a prefix of it.
pub fn relative_segments(root: &Vec<String>, path: &Vec<String>) -> (r: Option<Vec<String>>)
    ensures
        r is Some <==> is_prefix(strings_view(root@), strings_view(path@)),
        r matches Some(rel) ==> strings_view(path@) == strings_view(root@) + strings_view(rel@),
{
    if root.len() > path.len() {
        return None;
    }
    let mut i: usize = 0;
    while i < root.len()
        invariant
            root@.len() <= path@.len(),
            0 <= i <= root@.len(),
            forall|j: int| 0 <= j < i ==> (#[trigger] root@[j])@ == path@[j]@,
        decreases root@.len() - i,
    {
        if root[i] != path[i] {
            proof {
                let sub = strings_view(path@).subrange(0, root@.len() as int);
                assert(sub[i as int] == path@[i as int]@);
                assert(strings_view(root@)[i as int] == root@[i as int]@);
            }
            return None;
        }
        i = i + 1;
    }
    let mut rel: Vec<String> = Vec::new();
    let mut k: usize = root.len();
    while k < path.len()
        invariant
            root@.len() <= k <= path@.len(),
            rel@.len() == k - root@.len(),
            forall|j: int| 0 <= j < rel@.len() ==> (#[trigger] rel@[j])@ == path@[j + root@.len()]@,
        decreases path@.len() - k,
    {
        rel.push(path[k].clone());
        k = k + 1;
    }
    assert(strings_view(path@).subrange(0, root@.len() as int) =~= strings_view(root@));
    assert(strings_view(path@) =~= strings_view(root@) + strings_view(rel@));
    Some(rel)
}

/// The index of the first occurrence of `x` in `s`, if any.
pub open spec fn first_index(s: Seq<Seq<char>>, x: Seq<char>) -> Option<int> {
    if exists|i: int| 0 <= i < s.len() && s[i] == x {
        let i = choose|i: int|
            0 <= i < s.len() && s[i] == x && forall|j: int| 0 <= j < i ==> s[j] != x;
        Some(i)
    } else {
        None
    }
}

/// The build profile read off an executable's path components: the
/// component after the target triple, with cargo's "debug" directory read
/// as the "dev" profile, and "dev" where the triple does not occur.
pub open spec fn profile_of(cs: Seq<Seq<char>>) -> Seq<char> {
    match first_index(cs, VITA_TARGET@) {
        Some(i) => if i + 1 < cs.len() && cs[i + 1] != "debug"@ {
            cs[i + 1]
        } else {
            "dev"@
        },
        None => "dev"@,
    }
}

/// The build profile of an executable, read off its path components.
pub fn detect_profile(cs: &Vec<String>) -> (r: String)
    ensures
        r@ == profile_of(strings_view(cs@)),
{
    let ghost v = strings_view(cs@);
    let target = String::from_str(VITA_TARGET);
    let mut i: usize = 0;
    while i < cs.len()
        invariant
            0 <= i <= cs@.len(),
            v == strings_view(cs@),
            target@ == VITA_TARGET@,
            forall|j: int| 0 <= j < i ==> v[j] != VITA_TARGET@,
        decreases cs@.len() - i,
    {
        if cs[i] == target {
            proof {
                assert(v[i as int] == VITA_TARGET@);
                let k = choose|k: int|
                    0 <= k < v.len() && v[k] == VITA_TARGET@ && forall|j: int|
                        0 <= j < k ==> v[j] != VITA_TARGET@;
                if k < i {
                } else if k > i {
                    assert(v[i as int] != VITA_TARGET@);
                }
                assert(first_index(v, VITA_TARGET@) == Some(i as int));
            }
            let dev = String::from_str("dev");
            if i + 1 < cs.len() {
                let debug = String::from_str("debug");
                if cs[i + 1] == debug {
                    return dev;
                }
                return cs[i + 1].clone();
            }
            return dev;
        }
        i = i + 1;
    }
    assert(first_index(v, VITA_TARGET@) is None);
    String::from_str("dev")
}

/// The build profile of an executable, read off its path.
pub fn executable_profile(elf: &str) -> (r: String)
    ensures
        r@ == profile_of(components_of(elf@)),
{
    let parts = path_components(elf);
    detect_profile(&parts)
}

/// The profile is read off the component that follows the target triple;
/// cargo's "debug" directory means the "dev" profile, and a path without
/// the triple is taken for a "dev" build.
pub proof fn lemma_profile_resolution(before: Seq<Seq<char>>, after: Seq<Seq<char>>)
    requires
        forall|j: int| 0 <= j < before.len() ==> before[j] != VITA_TARGET@,
    ensures
        profile_of(before + seq![VITA_TARGET@, "debug"@] + after) == "dev"@,
        profile_of(before + seq![VITA_TARGET@, "release"@] + after) == "release"@,
        profile_of(before) == "dev"@,
{
    reveal_strlit("debug");
    reveal_strlit("release");
    let n = before.len() as int;
    let a = before + seq![VITA_TARGET@, "debug"@] + after;
    let b = before + seq![VITA_TARGET@, "release"@] + after;
    assert(a[n] == VITA_TARGET@);
    assert(b[n] == VITA_TARGET@);
    assert(forall|j: int| 0 <= j < n ==> a[j] == before[j]);
    assert(forall|j: int| 0 <= j < n ==> b[j] == before[j]);
    let ka = choose|k: int|
        0 <= k < a.len() && a[k] == VITA_TARGET@ && forall|j: int| 0 <= j < k ==> a[j] != VITA_TARGET@;
    if ka > n {
        assert(a[n] != VITA_TARGET@);
    }
    let kb = choose|k: int|
        0 <= k < b.len() && b[k] == VITA_TARGET@ && forall|j: int| 0 <= j < k ==> b[j] != VITA_TARGET@;
    if kb > n {
        assert(b[n] != VITA_TARGET@);
    }
    assert(a[n + 1] == "debug"@);
    assert(b[n + 1] == "release"@);
    assert("release"@ != "debug"@) by {
        assert("release"@.len() != "debug"@.len());
    }
}

} // verus!
