//! Choice of the one compiled artifact that a build is meant to produce.

use vstd::prelude::*;

use crate::text::{same_text, views};

verus! {

/// Kinds of compilation targets.
#[derive(Clone, Copy, Debug, PartialEq, Eq, Structural)]
pub enum TargetKind {
    Bin,
    Lib,
    Example,
    Test,
    Bench,
    CustomBuild,
    Other,
}

/// One artifact that the compiler reported.
#[derive(Clone, Debug, PartialEq, Eq)]
pub struct ArtifactRecord {
    pub package_id: String,
    pub target_name: String,
    pub target_kinds: Vec<TargetKind>,
    /// The executable produced, for targets that produce one.
    pub executable: Option<String>,
    pub filenames: Vec<String>,
}

/// Why a build gave no artifact to package.
#[derive(Clone, Copy, Debug, PartialEq, Eq, Structural)]
pub enum BuildError {
    /// The compiler exited with a failure status.
    BuildFailed,
    /// No artifact matched the selection rule.
    NoArtifactProduced,
    /// More than one artifact matched the selection rule.
    AmbiguousArtifact,
    /// The selected artifact names no output file.
    NoOutputFile,
}

/// The view of an optional target name.
pub open spec fn opt_view(o: Option<&str>) -> Option<Seq<char>> {
    match o {
        Some(s) => Some(s@),
        None => None,
    }
}

/// The selection rule. With a target name: an artifact of a workspace member
/// for that target, with an executable. Without one: an artifact of a binary
/// target.
pub open spec fn selected_by(
    a: ArtifactRecord,
    members: Seq<Seq<char>>,
    bin: Option<Seq<char>>,
) -> bool {
    match bin {
        Some(n) => members.contains(a.package_id@) && a.target_name@ == n && a.executable is Some,
        None => a.target_kinds@.contains(TargetKind::Bin),
    }
}

/// The artifacts of `s` that the selection rule picks, in order.
pub open spec fn selected(
    s: Seq<ArtifactRecord>,
    members: Seq<Seq<char>>,
    bin: Option<Seq<char>>,
) -> Seq<ArtifactRecord>
    decreases s.len(),
{
    if s.len() == 0 {
        Seq::empty()
    } else if selected_by(s.last(), members, bin) {
        selected(s.drop_last(), members, bin).push(s.last())
    } else {
        selected(s.drop_last(), members, bin)
    }
}

/// Whether `id` is among `members`.
fn is_member(members: &Vec<String>, id: &String) -> (r: bool)
    ensures
        r == views(members@).contains(id@),
{
    let mut i: usize = 0;
    while i < members.len()
        invariant
            i <= members@.len(),
            forall|j: int| 0 <= j < i ==> members@[j]@ != id@,
        decreases members.len() - i,
    {
        if members[i] == *id {
            assert(views(members@)[i as int] == id@);
            return true;
        }
        i = i + 1;
    }
    proof {
        if views(members@).contains(id@) {
            let j = choose|j: int| 0 <= j < views(members@).len() && views(members@)[j] == id@;
            assert(members@[j]@ == id@);
        }
    }
    false
}

/// Whether `kinds` holds the binary kind.
fn has_bin_kind(kinds: &Vec<TargetKind>) -> (r: bool)
    ensures
        r == kinds@.contains(TargetKind::Bin),
{
    let mut i: usize = 0;
    while i < kinds.len()
        invariant
            i <= kinds@.len(),
            forall|j: int| 0 <= j < i ==> kinds@[j] != TargetKind::Bin,
        decreases kinds.len() - i,
    {
        if kinds[i] == TargetKind::Bin {
            return true;
        }
        i = i + 1;
    }
    false
}

/// Whether the selection rule picks `a`.
pub fn is_selected(a: &ArtifactRecord, members: &Vec<String>, bin: Option<&str>) -> (r: bool)
    ensures
        r == selected_by(*a, views(members@), opt_view(bin)),
{
    match bin {
        Some(n) => is_member(members, &a.package_id) && same_text(a.target_name.as_str(), n)
            && a.executable.is_some(),
        None => has_bin_kind(&a.target_kinds),
    }
}

/// Chooses the artifact of a build. A failed build is refused whatever it
/// reported; otherwise exactly one reported artifact must match the selection
/// rule, and that one is returned.
pub fn select_artifact(
    artifacts: Vec<ArtifactRecord>,
    workspace_members: &Vec<String>,
    bin: Option<&str>,
    build_succeeded: bool,
) -> (r: Result<ArtifactRecord, BuildError>)
    ensures
        !build_succeeded ==> r == Err::<ArtifactRecord, BuildError>(BuildError::BuildFailed),
        build_succeeded ==> {
            let m = selected(artifacts@, views(workspace_members@), opt_view(bin));
            &&& m.len() == 0 <==> r == Err::<ArtifactRecord, BuildError>(
                BuildError::NoArtifactProduced,
            )
            &&& m.len() >= 2 <==> r == Err::<ArtifactRecord, BuildError>(
                BuildError::AmbiguousArtifact,
            )
            &&& m.len() == 1 <==> r == Ok::<ArtifactRecord, BuildError>(m[0])
        },
{
    if !build_succeeded {
        return Err(BuildError::BuildFailed);
    }
    let ghost members = views(workspace_members@);
    let ghost b = opt_view(bin);
    let mut pool = artifacts;
    let ghost all = pool@;
    let mut found: Option<usize> = None;
    let mut i: usize = 0;
    while i < pool.len()
        invariant
            build_succeeded,
            members == views(workspace_members@),
            b == opt_view(bin),
            pool@ == all,
            all == artifacts@,
            i <= all.len(),
            selected(all.subrange(0, i as int), members, b).len() <= 1,
            found is None <==> selected(all.subrange(0, i as int), members, b).len() == 0,
            found matches Some(k) ==> k < all.len() && all[k as int] == selected(
                all.subrange(0, i as int),
                members,
                b,
            )[0],
        decreases pool.len() - i,
    {
        let ghost prev = selected(all.subrange(0, i as int), members, b);
        assert(all.subrange(0, i + 1).drop_last() =~= all.subrange(0, i as int));
        assert(all.subrange(0, i + 1).last() == all[i as int]);
        let picked = is_selected(&pool[i], workspace_members, bin);
        assert(selected(all.subrange(0, i + 1), members, b) == if picked {
            prev.push(all[i as int])
        } else {
            prev
        });
        if picked {
            if found.is_some() {
                proof {
                    lemma_selected_grows(all, members, b, i as int + 1);
                }
                return Err(BuildError::AmbiguousArtifact);
            }
            found = Some(i);
        }
        i = i + 1;
    }
    assert(all.subrange(0, all.len() as int) =~= all);
    match found {
        None => Err(BuildError::NoArtifactProduced),
        Some(k) => Ok(pool.swap_remove(k)),
    }
}

/// Selections only grow as more artifacts are reported.
proof fn lemma_selected_grows(
    s: Seq<ArtifactRecord>,
    members: Seq<Seq<char>>,
    bin: Option<Seq<char>>,
    n: int,
)
    requires
        0 <= n <= s.len(),
    ensures
        selected(s, members, bin).len() >= selected(s.subrange(0, n), members, bin).len(),
    decreases s.len() - n,
{
    if n < s.len() {
        lemma_selected_grows(s, members, bin, n + 1);
        assert(s.subrange(0, n + 1).drop_last() =~= s.subrange(0, n));
    } else {
        assert(s.subrange(0, n) =~= s);
    }
}

/// The file to package from an artifact: its executable, or else the first
/// file it lists, which by the toolchain's convention is the compiled
/// library.
pub fn artifact_file(a: &ArtifactRecord) -> (r: Result<String, BuildError>)
    ensures
        a.executable matches Some(e) ==> r == Ok::<String, BuildError>(e),
        a.executable is None && a.filenames@.len() > 0 ==> r == Ok::<String, BuildError>(
            a.filenames@[0],
        ),
        a.executable is None && a.filenames@.len() == 0 ==> r == Err::<String, BuildError>(
            BuildError::NoOutputFile,
        ),
{
    match &a.executable {
        Some(e) => Ok(e.clone()),
        None => {
            if a.filenames.len() > 0 {
                Ok(a.filenames[0].clone())
            } else {
                Err(BuildError::NoOutputFile)
            }
        },
    }
}

/// The verbosity flag handed to the tools: a dash and one `v` for each level
/// above the first.
pub open spec fn verbosity_flag(verbosity: u64) -> Seq<char> {
    seq!['-'] + Seq::new((verbosity - 1) as nat, |i: int| 'v')
}

/// The verbosity arguments: the flag, from the second level on.
pub open spec fn verbosity_args(verbosity: u64) -> Seq<Seq<char>> {
    if verbosity > 1 {
        seq![verbosity_flag(verbosity)]
    } else {
        seq![]
    }
}

/// The arguments of a release build that reports structured messages,
/// restricted to one binary target when one is named.
pub open spec fn cargo_args(bin: Option<Seq<char>>, verbosity: u64) -> Seq<Seq<char>> {
    seq!["build"@, "--release"@] + (match bin {
        Some(b) => seq!["--bin"@, b],
        None => seq![],
    }) + seq!["--message-format=json"@] + verbosity_args(verbosity)
}

/// The verbosity arguments for a tool invocation.
pub fn verbosity_arguments(verbosity: u64) -> (r: Vec<String>)
    ensures
        views(r@) == verbosity_args(verbosity),
{
    let mut r: Vec<String> = Vec::new();
    if verbosity > 1 {
        let mut flag = String::from_str("-");
        proof {
            reveal_strlit("-");
        }
        let mut k: u64 = 1;
        while k < verbosity
            invariant
                1 <= k <= verbosity,
                flag@ == seq!['-'] + Seq::new((k - 1) as nat, |i: int| 'v'),
            decreases verbosity - k,
        {
            flag.append("v");
            proof {
                reveal_strlit("v");
            }
            assert(flag@ =~= seq!['-'] + Seq::new(k as nat, |i: int| 'v'));
            k = k + 1;
        }
        r.push(flag);
    }
    assert(views(r@) =~= verbosity_args(verbosity));
    r
}

/// The arguments of the compiler invocation for one build target.
pub fn cargo_build_args(bin: Option<&str>, verbosity: u64) -> (r: Vec<String>)
    ensures
        views(r@) == cargo_args(opt_view(bin), verbosity),
{
    let mut r: Vec<String> = Vec::new();
    r.push(String::from_str("build"));
    r.push(String::from_str("--release"));
    if let Some(b) = bin {
        r.push(String::from_str("--bin"));
        r.push(b.to_owned());
    }
    r.push(String::from_str("--message-format=json"));
    let mut v = verbosity_arguments(verbosity);
    r.append(&mut v);
    assert(views(r@) =~= cargo_args(opt_view(bin), verbosity));
    r
}

} // verus!
