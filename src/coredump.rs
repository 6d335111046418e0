use vstd::prelude::*;

use crate::meta::{strings_view, VITA_TARGET};
use crate::paths::{join, joined, with_extension, with_extension_of};
use crate::text::{contains, ends_with, has_prefix, has_substring, has_suffix, starts_with};
use crate::upload::ConnectionArgs;

verus! {

/// The text after the last space of a line (all of it where it has none).
pub open spec fn last_word(s: Seq<char>) -> Seq<char>
    decreases s.len(),
{
    if s.len() == 0 || s.last() == ' ' {
        Seq::empty()
    } else {
        last_word(s.drop_last()).push(s.last())
    }
}

/// Whether a file name is that of a coredump.
pub open spec fn is_coredump_name(name: Seq<char>) -> bool {
    starts_with(name, "psp2core-"@) && ends_with(name, ".bin.psp2dmp"@)
}

/// The coredump names in the lines of a directory listing, in order.
pub open spec fn coredumps_of(lines: Seq<Seq<char>>) -> Seq<Seq<char>>
    decreases lines.len(),
{
    if lines.len() == 0 {
        Seq::empty()
    } else {
        let name = last_word(lines.last());
        if is_coredump_name(name) {
            coredumps_of(lines.drop_last()).push(name)
        } else {
            coredumps_of(lines.drop_last())
        }
    }
}

/// The last word of a line.
pub fn line_last_word(line: &str) -> (r: String)
    ensures
        r@ == last_word(line@),
{
    let n = line.unicode_len();
    let mut k: usize = n;
    assert(line@.subrange(0, n as int) =~= line@);
    assert(line@.subrange(n as int, n as int) =~= Seq::<char>::empty());
    while k > 0 && line.get_char(k - 1) != ' '
        invariant
            n == line@.len(),
            0 <= k <= n,
            last_word(line@) == last_word(line@.subrange(0, k as int)) + line@.subrange(
                k as int,
                n as int,
            ),
        decreases k,
    {
        proof {
            let pre = line@.subrange(0, k as int);
            assert(pre.drop_last() =~= line@.subrange(0, k - 1));
            assert(last_word(pre) == last_word(pre.drop_last()).push(pre.last()));
            assert(line@.subrange(k - 1, n as int) =~= seq![line@[k - 1]] + line@.subrange(
                k as int,
                n as int,
            ));
        }
        k = k - 1;
    }
    assert(last_word(line@.subrange(0, k as int)) == Seq::<char>::empty());
    assert(last_word(line@) =~= line@.subrange(k as int, n as int));
    line.substring_char(k, n).to_owned()
}

/// The coredump files named in a directory listing, one entry per line
/// with the name as its last word.
pub fn find_core_dumps(files: &Vec<String>) -> (r: Vec<String>)
    ensures
        strings_view(r@) == coredumps_of(strings_view(files@)),
{
    let mut r: Vec<String> = Vec::new();
    let mut i: usize = 0;
    while i < files.len()
        invariant
            0 <= i <= files@.len(),
            strings_view(r@) == coredumps_of(strings_view(files@.subrange(0, i as int))),
        decreases files@.len() - i,
    {
        proof {
            let next = strings_view(files@.subrange(0, i + 1));
            assert(next.drop_last() =~= strings_view(files@.subrange(0, i as int)));
            assert(next.last() == files@[i as int]@);
        }
        let name = line_last_word(files[i].as_str());
        if has_prefix(name.as_str(), "psp2core-") && has_suffix(name.as_str(), ".bin.psp2dmp") {
            r.push(name);
            assert(strings_view(r@) =~= coredumps_of(strings_view(files@.subrange(0, i + 1))));
        }
        i = i + 1;
    }
    assert(files@.subrange(0, files@.len() as int) =~= files@);
    r
}

/// Lexicographic order of texts by their characters, which is the order of
/// their UTF-8 bytes.
pub open spec fn lex_lt(a: Seq<char>, b: Seq<char>) -> bool
    decreases a.len(),
{
    if a.len() == 0 {
        b.len() > 0
    } else if b.len() == 0 {
        false
    } else if a[0] != b[0] {
        (a[0] as int) < (b[0] as int)
    } else {
        lex_lt(a.drop_first(), b.drop_first())
    }
}

pub fn less_than(a: &str, b: &str) -> (r: bool)
    ensures
        r == lex_lt(a@, b@),
{
    let n = a.unicode_len();
    let m = b.unicode_len();
    let mut i: usize = 0;
    assert(a@.subrange(0, n as int) =~= a@);
    assert(b@.subrange(0, m as int) =~= b@);
    while i < n && i < m && a.get_char(i) == b.get_char(i)
        invariant
            n == a@.len(),
            m == b@.len(),
            0 <= i <= n,
            i <= m,
            lex_lt(a@, b@) == lex_lt(a@.subrange(i as int, n as int), b@.subrange(i as int, m as int)),
        decreases n - i,
    {
        proof {
            let x = a@.subrange(i as int, n as int);
            let y = b@.subrange(i as int, m as int);
            assert(x.drop_first() =~= a@.subrange(i + 1, n as int));
            assert(y.drop_first() =~= b@.subrange(i + 1, m as int));
        }
        i = i + 1;
    }
    if i == n {
        i < m
    } else if i == m {
        false
    } else {
        (a.get_char(i) as u32) < (b.get_char(i) as u32)
    }
}

pub proof fn lemma_lex_irreflexive(a: Seq<char>)
    ensures
        !lex_lt(a, a),
    decreases a.len(),
{
    if a.len() > 0 {
        lemma_lex_irreflexive(a.drop_first());
    }
}

pub proof fn lemma_lex_asymmetric(a: Seq<char>, b: Seq<char>)
    ensures
        lex_lt(a, b) ==> !lex_lt(b, a),
    decreases a.len(),
{
    if a.len() > 0 && b.len() > 0 && a[0] == b[0] {
        lemma_lex_asymmetric(a.drop_first(), b.drop_first());
    }
}

pub proof fn lemma_lex_transitive(a: Seq<char>, b: Seq<char>, c: Seq<char>)
    requires
        !lex_lt(a, b),
        !lex_lt(b, c),
    ensures
        !lex_lt(a, c),
    decreases a.len(),
{
    if a.len() == 0 || b.len() == 0 || c.len() == 0 {
    } else if a[0] == b[0] && b[0] == c[0] {
        lemma_lex_transitive(a.drop_first(), b.drop_first(), c.drop_first());
    } else {
        assert((a[0] as int) >= (b[0] as int));
        assert((b[0] as int) >= (c[0] as int));
        if a[0] == c[0] {
            assert(a[0] == b[0]);
        }
    }
}

/// The greatest name, the latest coredump by the naming of its files.
pub fn latest(names: &Vec<String>) -> (r: Option<String>)
    ensures
        names@.len() == 0 <==> r is None,
        r matches Some(x) ==> (exists|i: int| 0 <= i < names@.len() && names@[i]@ == x@) && (
        forall|i: int| 0 <= i < names@.len() ==> !lex_lt(x@, #[trigger] names@[i]@)),
{
    if names.len() == 0 {
        return None;
    }
    let mut best: usize = 0;
    let mut i: usize = 1;
    proof {
        lemma_lex_irreflexive(names@[0]@);
    }
    while i < names.len()
        invariant
            1 <= i <= names@.len(),
            0 <= best < i,
            forall|j: int| 0 <= j < i ==> !lex_lt(names@[best as int]@, #[trigger] names@[j]@),
        decreases names@.len() - i,
    {
        if !less_than(names[i].as_str(), names[best].as_str()) {
            proof {
                let nb = names@[best as int]@;
                let ni = names@[i as int]@;
                assert forall|j: int| 0 <= j < i + 1 implies !lex_lt(ni, #[trigger] names@[j]@) by {
                    if j < i {
                        lemma_lex_transitive(ni, nb, names@[j]@);
                    } else {
                        lemma_lex_irreflexive(ni);
                    }
                }
            }
            best = i;
        } else {
            proof {
                lemma_lex_asymmetric(names@[i as int]@, names@[best as int]@);
            }
        }
        i = i + 1;
    }
    Some(names[best].clone())
}

/// Whether an unexpected answer to a deletion reports the file deleted.
pub open spec fn is_file_deleted(body: Seq<char>) -> bool {
    contains(body, "226 File deleted"@)
}

pub fn file_deleted(body: &str) -> (r: bool)
    ensures
        r == is_file_deleted(body@),
{
    has_substring(body, "226 File deleted")
}

/// The directory on the device where coredumps are written.
pub fn coredump_dir() -> (r: String)
    ensures
        r@ == "ux0:/data/"@,
{
    String::from_str("ux0:/data/")
}

/// Where the executable of a package's build of a profile lies.
pub open spec fn elf_path(target_dir: Seq<char>, profile: Seq<char>, package: Seq<char>) -> Seq<
    char,
> {
    with_extension_of(joined(joined(joined(target_dir, VITA_TARGET@), profile), package), "elf"@)
}

/// Parses the latest coredump against an executable.
#[derive(Debug)]
pub struct Parse {
    /// The executable; guessed from the profile where not given.
    pub elf: Option<String>,
    pub profile: String,
    /// Whether the downloaded coredump is kept on disk.
    pub persist: bool,
    pub connection: ConnectionArgs,
}

impl Parse {
    /// The executable to parse against, given the target directory and the
    /// package's name.
    pub fn elf_for(&self, target_dir: &str, package: &str) -> (r: String)
        ensures
            match self.elf {
                Some(e) => r@ == e@,
                None => r@ == elf_path(target_dir@, self.profile@, package@),
            },
    {
        match &self.elf {
            Some(e) => e.clone(),
            None => {
                let t = join(target_dir, VITA_TARGET);
                let p = join(t.as_str(), self.profile.as_str());
                let f = join(p.as_str(), package);
                proof {
                    reveal_strlit("elf");
                }
                with_extension(f.as_str(), "elf")
            },
        }
    }
}

/// Deletes every coredump on the device.
#[derive(Debug)]
pub struct Clean {
    pub connection: ConnectionArgs,
}

#[derive(Debug)]
pub enum CoredumpCmd {
    Parse(Parse),
    Clean(Clean),
}

/// Fetches or removes coredumps.
#[derive(Debug)]
pub struct Coredump {
    pub cmd: CoredumpCmd,
}

} // verus!
