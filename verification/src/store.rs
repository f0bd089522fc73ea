//! The entry store's planning logic: allocate a free identifier for a new
//! entry, plan an addition as a (file name, artifact body) pair, decode a
//! directory listing into entries, and plan a batch removal.
//!
//! The caller owns the filesystem: it hands the current directory listing
//! and file contents in, and carries the returned plans out.

use vstd::prelude::*;

use crate::StartupError;
use crate::codec::{decode_entry, encode, encode_spec, entry_of_spec};
use crate::parser::{base_name_spec, extract_name_from_cmd, first_token_spec};
use crate::platform::Platform;
use crate::text::{
    CharClass, dec_str, lemma_first_match_props, lemma_last_before_props, opt_view, push_dec,
    trim_spec,
};

verus! {

/// The candidate file name that the allocator probes at attempt `i`: the
/// base name, the attempt number when it is not the first attempt, and
/// the platform's extension.
pub open spec fn candidate_spec(name: Seq<char>, i: int, ext: Seq<char>) -> Seq<char> {
    if i == 0 {
        name + ext
    } else {
        name + dec_str(i) + ext
    }
}

/// Whether the directory listing `existing` holds the file name `f`.
pub open spec fn taken_spec(existing: Seq<Seq<char>>, f: Seq<char>) -> bool {
    exists|k: int| 0 <= k < existing.len() && existing[k] == f
}

/// The first attempt number in `i ..= 999` whose candidate name is not
/// taken, or `1000` when every candidate is.
pub open spec fn first_free_spec(
    name: Seq<char>,
    ext: Seq<char>,
    existing: Seq<Seq<char>>,
    i: int,
) -> int
    decreases 1000 - i
    when 0 <= i <= 1000
{
    if i >= 1000 {
        1000
    } else if !taken_spec(existing, candidate_spec(name, i, ext)) {
        i
    } else {
        first_free_spec(name, ext, existing, i + 1)
    }
}

pub proof fn lemma_first_free_is(
    name: Seq<char>,
    ext: Seq<char>,
    existing: Seq<Seq<char>>,
    i: int,
    r: int,
)
    requires
        0 <= i <= r <= 1000,
        forall|j: int| i <= j < r ==> taken_spec(existing, candidate_spec(name, j, ext)),
        r < 1000 ==> !taken_spec(existing, candidate_spec(name, r, ext)),
    ensures
        first_free_spec(name, ext, existing, i) == r,
    decreases r - i,
{
    if i < r {
        lemma_first_free_is(name, ext, existing, i + 1, r);
    }
}

/// Whether the listing `existing` holds the file name `f`.
fn contains_name(existing: &Vec<String>, f: &String) -> (b: bool)
    ensures
        b == taken_spec(existing.deep_view(), f@),
{
    let n = existing.len();
    let mut k: usize = 0;
    while k < n
        invariant
            k <= n,
            n == existing@.len(),
            forall|j: int| 0 <= j < k ==> existing.deep_view()[j] != f@,
        decreases n - k,
    {
        if existing[k] == *f {
            assert(existing.deep_view()[k as int] == f@);
            return true;
        }
        k = k + 1;
    }
    false
}

/// Build the candidate file name of attempt `i`.
fn candidate(name: &str, i: u32, ext: &str) -> (c: String)
    requires
        i < 1000,
    ensures
        c@ == candidate_spec(name@, i as int, ext@),
{
    let mut c = String::from_str(name);
    if i > 0 {
        push_dec(&mut c, i);
    }
    c.append(ext);
    c
}

/// Find a file name for a new startup entry that does not collide with
/// the listing `existing` of the autostart directory: the base name
/// itself, else the first of `name1`, `name2`, ... `name999` that is
/// free. When every candidate is taken the allocation is reported
/// exhausted.
pub fn find_writable_path(name: &str, p: Platform, existing: &Vec<String>) -> (r: Result<
    String,
    StartupError,
>)
    ensures
        (r is Ok) == (first_free_spec(name@, p.file_ext_spec(), existing.deep_view(), 0) < 1000),
        r matches Ok(f) ==> f@ == candidate_spec(
            name@,
            first_free_spec(name@, p.file_ext_spec(), existing.deep_view(), 0),
            p.file_ext_spec(),
        ) && !taken_spec(existing.deep_view(), f@),
        r matches Err(e) ==> e == StartupError::AllocationExhausted,
{
    let ext = p.file_ext();
    let mut i: u32 = 0;
    while i < 1000
        invariant
            i <= 1000,
            ext@ == p.file_ext_spec(),
            forall|j: int|
                0 <= j < i ==> taken_spec(
                    existing.deep_view(),
                    candidate_spec(name@, j, ext@),
                ),
        decreases 1000 - i,
    {
        let c = candidate(name, i, ext);
        if !contains_name(existing, &c) {
            proof {
                lemma_first_free_is(name@, ext@, existing.deep_view(), 0, i as int);
            }
            return Ok(c);
        }
        i = i + 1;
    }
    proof {
        lemma_first_free_is(name@, ext@, existing.deep_view(), 0, 1000);
    }
    Err(StartupError::AllocationExhausted)
}

/// The base name under which an added entry is filed: the given name when
/// one is supplied (the command must still be parseable), else the name
/// extracted from the command. `None` when the addition is invalid.
pub open spec fn add_base_spec(cmd: Seq<char>, name: Option<Seq<char>>) -> Option<Seq<char>> {
    match name {
        Some(n) => if trim_spec(cmd).len() > 0 {
            Some(n)
        } else {
            None
        },
        None => base_name_spec(cmd),
    }
}

/// A command with an extractable base name is not whitespace-only.
proof fn lemma_base_name_needs_content(cmd: Seq<char>)
    requires
        base_name_spec(cmd) is Some,
    ensures
        trim_spec(cmd).len() > 0,
{
    lemma_first_match_props(cmd, CharClass::Space, false, 0);
    lemma_last_before_props(cmd, CharClass::Space, false, cmd.len() as int);
    assert(first_token_spec(cmd) is Some);
}

/// Plan the addition of a new startup entry: validate the command,
/// allocate a free file name for it, and produce the artifact body to
/// write there.
///
/// `self_bin` is the path of this tool's own binary, used only by the
/// startup-script artifact kind. The caller writes the returned body
/// under the returned file name in the autostart directory, whose current
/// listing it passed as `existing`.
pub fn add_item(
    cmd: &str,
    name: Option<&str>,
    stdout: Option<&str>,
    stderr: Option<&str>,
    p: Platform,
    self_bin: &str,
    existing: &Vec<String>,
) -> (r: Result<(String, String), StartupError>)
    ensures
        (add_base_spec(cmd@, opt_view(name)) is None) == (r == Err::<(String, String), StartupError>(
            StartupError::InvalidCommand,
        )),
        add_base_spec(cmd@, opt_view(name)) matches Some(base) ==> {
            &&& (r is Ok) == (first_free_spec(base, p.file_ext_spec(), existing.deep_view(), 0)
                < 1000)
            &&& (r is Err && first_free_spec(base, p.file_ext_spec(), existing.deep_view(), 0)
                == 1000) ==> r == Err::<(String, String), StartupError>(
                StartupError::AllocationExhausted,
            )
        },
        r matches Ok(pair) ==> add_base_spec(cmd@, opt_view(name)) matches Some(base) && pair.0@
            == candidate_spec(
            base,
            first_free_spec(base, p.file_ext_spec(), existing.deep_view(), 0),
            p.file_ext_spec(),
        ) && pair.1@ == encode_spec(
            p,
            cmd@,
            None,
            opt_view(stdout),
            opt_view(stderr),
            self_bin@,
        ),
{
    let base: String = match name {
        Some(n) => {
            let t = crate::text::trim_of(cmd);
            if t.unicode_len() == 0 {
                return Err(StartupError::InvalidCommand);
            }
            String::from_str(n)
        },
        None => match extract_name_from_cmd(cmd) {
            Ok(b) => b,
            Err(e) => {
                return Err(e);
            },
        },
    };
    proof {
        if opt_view(name) is None {
            lemma_base_name_needs_content(cmd@);
        }
    }
    let file = match find_writable_path(base.as_str(), p, existing) {
        Ok(f) => f,
        Err(e) => {
            return Err(e);
        },
    };
    let content = encode(p, cmd, None, stdout, stderr, self_bin);
    Ok((file, content))
}

/// The entries that a directory listing yields, in listing order: each
/// file of the platform's artifact kind whose first meaningful line
/// follows the comment convention becomes an (identifier, command) pair;
/// every other file is ignored.
pub open spec fn list_from_spec(
    p: Platform,
    files: Seq<(Seq<char>, Seq<char>)>,
    i: int,
) -> Seq<(Seq<char>, Seq<char>)>
    decreases files.len() - i
    when 0 <= i <= files.len()
{
    if i >= files.len() {
        Seq::empty()
    } else {
        match entry_of_spec(p, files[i].0, files[i].1) {
            Some(e) => seq![e] + list_from_spec(p, files, i + 1),
            None => list_from_spec(p, files, i + 1),
        }
    }
}

/// The entries of the whole listing.
pub open spec fn list_spec(p: Platform, files: Seq<(Seq<char>, Seq<char>)>) -> Seq<
    (Seq<char>, Seq<char>),
> {
    list_from_spec(p, files, 0)
}

/// Get the list of startup entries from a directory listing.
///
/// `files` pairs each file name of the autostart directory with that
/// file's contents; the result pairs each recognized entry's identifier
/// with its recovered command, in the order given.
pub fn get_items_list(p: Platform, files: &Vec<(String, String)>) -> (res: Vec<(String, String)>)
    ensures
        res.deep_view() == list_spec(p, files.deep_view()),
{
    let n = files.len();
    let mut res: Vec<(String, String)> = Vec::new();
    proof {
        assert(res.deep_view() + list_from_spec(p, files.deep_view(), 0) =~= list_spec(
            p,
            files.deep_view(),
        ));
    }
    let mut i: usize = 0;
    while i < n
        invariant
            i <= n,
            n == files@.len(),
            res.deep_view() + list_from_spec(p, files.deep_view(), i as int) == list_spec(
                p,
                files.deep_view(),
            ),
        decreases n - i,
    {
        let ghost before = res.deep_view();
        match decode_entry(p, files[i].0.as_str(), files[i].1.as_str()) {
            Some(e) => {
                res.push(e);
                proof {
                    assert(res.deep_view() =~= before.push(
                        entry_of_spec(
                            p,
                            files.deep_view()[i as int].0,
                            files.deep_view()[i as int].1,
                        )->Some_0,
                    ));
                    assert(res.deep_view() + list_from_spec(p, files.deep_view(), i + 1)
                        =~= before + list_from_spec(p, files.deep_view(), i as int));
                }
            },
            None => {},
        }
        i = i + 1;
    }
    proof {
        assert(res.deep_view() =~= res.deep_view() + list_from_spec(
            p,
            files.deep_view(),
            n as int,
        ));
    }
    res
}

/// One step of a removal plan: the artifact file to delete for an
/// identifier, and whether the listing holds it at all.
pub struct Removal {
    /// The artifact file name derived from the identifier.
    pub file_name: String,
    /// Whether the autostart directory holds that file. A missing entry
    /// is reported, never fatal.
    pub found: bool,
}

/// Plan the removal of the entries named by `ids` against the listing
/// `existing` of the autostart directory: every identifier yields a step,
/// in the given order; one that is not found does not disturb the steps
/// after it.
pub fn remove_items(p: Platform, ids: &Vec<String>, existing: &Vec<String>) -> (res: Vec<Removal>)
    ensures
        res@.len() == ids@.len(),
        forall|i: int|
            0 <= i < ids@.len() ==> (#[trigger] res@[i]).file_name@ == ids.deep_view()[i]
                + p.file_ext_spec() && res@[i].found == taken_spec(
                existing.deep_view(),
                ids.deep_view()[i] + p.file_ext_spec(),
            ),
{
    let ext = p.file_ext();
    let n = ids.len();
    let mut res: Vec<Removal> = Vec::new();
    let mut i: usize = 0;
    while i < n
        invariant
            i <= n,
            n == ids@.len(),
            res@.len() == i,
            ext@ == p.file_ext_spec(),
            forall|j: int|
                0 <= j < i ==> (#[trigger] res@[j]).file_name@ == ids.deep_view()[j]
                    + p.file_ext_spec() && res@[j].found == taken_spec(
                    existing.deep_view(),
                    ids.deep_view()[j] + p.file_ext_spec(),
                ),
        decreases n - i,
    {
        let mut file_name = String::from_str(ids[i].as_str());
        file_name.append(ext);
        let found = contains_name(existing, &file_name);
        res.push(Removal { file_name, found });
        i = i + 1;
    }
    res
}

} // verus!
