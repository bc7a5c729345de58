//! Project templates: where they are fetched from, which folder of the
//! template archive serves a chip, and what is filled in after copying.

use vstd::prelude::*;

use crate::chips::{
    board_chip, board_name, chip_at, chip_family_id, chip_index, chip_name, chip_split_support,
    chip_variants, family_id_of, get_chip, Board, Chip, CHIP_COUNT,
};
use crate::config::{
    template_folder, template_key, uf2_key, uf2_key_of, ConfigError, ProjectInfo,
};
use crate::text::{
    contains_text, has_prefix, insert_sorted, join3, replace_spaces, same_text, sorted_unique,
    starts_with, strictly_sorted, underscored, views,
};

verus! {

/// The address of a zip archive of a repository on GitHub, at a commit or at
/// the head of the main branch.
pub open spec fn archive_url(user: Seq<char>, repo: Seq<char>, commit_or_branch: Seq<char>) -> Seq<
    char,
> {
    "https://github.com/"@ + user + "/"@ + repo + if commit_or_branch == "main"@ {
        "/archive/refs/heads/main.zip"@
    } else {
        "/archive/"@ + commit_or_branch + ".zip"@
    }
}

/// Builds the address of a zip archive of a GitHub repository, at a commit
/// or, for `main`, at the head of the main branch.
pub fn build_github_archive_url(user: &str, repo: &str, commit_or_branch: &str) -> (r: String)
    ensures
        r@ == archive_url(user@, repo@, commit_or_branch@),
{
    let mut r = join3("https://github.com/", user, "/");
    r.append(repo);
    if same_text(commit_or_branch, "main") {
        r.append("/archive/refs/heads/main.zip");
    } else {
        r.append("/archive/");
        r.append(commit_or_branch);
        r.append(".zip");
    }
    r
}

/// The folders of the template archive to try, in order, for a folder name:
/// the name itself, then for an STM32 chip its seven-character series and
/// the generic STM32 template.
pub open spec fn folder_candidates(folder: Seq<char>) -> Seq<Seq<char>> {
    if has_prefix(folder, "stm32"@) {
        seq![folder] + (if folder.len() > 7 {
            seq![folder.subrange(0, 7)]
        } else {
            seq![]
        }) + seq!["stm32"@]
    } else {
        seq![folder]
    }
}

/// The folders of the template archive to try, in order.
pub fn template_folder_candidates(folder: &str) -> (r: Vec<String>)
    ensures
        views(r@) == folder_candidates(folder@),
{
    let mut r: Vec<String> = Vec::new();
    r.push(folder.to_owned());
    if starts_with(folder, "stm32") {
        if folder.unicode_len() > 7 {
            r.push(folder.substring_char(0, 7).to_owned());
        }
        r.push(String::from_str("stm32"));
    }
    assert(views(r@) =~= folder_candidates(folder@));
    r
}

/// Where an archive entry lands: an entry whose path runs through `folder`
/// right below the archive's root is placed at the rest of its path.
pub open spec fn entry_destination(segments: Seq<Seq<char>>, folder: Seq<char>) -> Option<
    Seq<Seq<char>>,
> {
    if segments.len() > 1 && segments[1] == folder {
        Some(segments.subrange(2, segments.len() as int))
    } else {
        None
    }
}

/// The path, below the project directory, of an archive entry taken from
/// `folder`, or `None` for an entry of another folder.
pub fn template_entry_destination(segments: &Vec<String>, folder: &str) -> (r: Option<Vec<String>>)
    ensures
        match (r, entry_destination(views(segments@), folder@)) {
            (Some(v), Some(d)) => views(v@) == d,
            (None, None) => true,
            _ => false,
        },
{
    if segments.len() > 1 && same_text(segments[1].as_str(), folder) {
        let mut out: Vec<String> = Vec::new();
        let mut i: usize = 2;
        while i < segments.len()
            invariant
                2 <= i <= segments@.len(),
                views(out@) == views(segments@).subrange(2, i as int),
            decreases segments.len() - i,
        {
            let item = segments[i].clone();
            let ghost prev = out@;
            out.push(item);
            assert(views(out@) =~= views(prev).push(views(segments@)[i as int]));
            assert(views(out@) =~= views(segments@).subrange(2, i + 1));
            i = i + 1;
        }
        Some(out)
    } else {
        None
    }
}

/// Reads the chip named on the command line: a chip name, or a board name
/// that stands for the chip the board carries.
pub fn parse_target_name(s: &str) -> (r: Result<Chip, ConfigError>)
    ensures
        r matches Ok(c) ==> chip_name(c) == s@ || exists|b: Board|
            board_name(b) == s@ && board_chip(b) == c,
        (exists|c: Chip| chip_name(c) == s@) ==> r is Ok && chip_name(r->Ok_0) == s@,
        r is Err <==> (forall|c: Chip| chip_name(c) != s@) && (forall|b: Board|
            board_name(b) != s@),
{
    match Chip::from_name(s) {
        Some(c) => Ok(c),
        None => match Board::from_name(s) {
            Some(b) => Ok(get_chip(&b)),
            None => crate::config::parse_chip(s),
        },
    }
}

/// Which chips are offered for a new project: those that support split
/// keyboards when the keyboard is split, all chips otherwise.
pub open spec fn offered(split: bool) -> spec_fn(Chip) -> bool {
    |c: Chip| !split || chip_split_support(c)
}

/// All chips, in declaration order.
pub open spec fn all_chips() -> Seq<Chip> {
    Seq::new(CHIP_COUNT as nat, |i: int| chip_at(i))
}

/// The chips offered for a new project, in declaration order, each once.
pub fn chip_options(split: bool) -> (r: Vec<Chip>)
    ensures
        r@ == all_chips().filter(offered(split)),
        forall|c: Chip| #[trigger] r@.contains(c) <==> (!split || chip_split_support(c)),
{
    let variants = chip_variants();
    let mut r: Vec<Chip> = Vec::new();
    let mut k: usize = 0;
    assert(all_chips().subrange(0, 0).filter(offered(split)) =~= Seq::<Chip>::empty());
    while k < variants.len()
        invariant
            variants@.len() == CHIP_COUNT,
            forall|i: int| 0 <= i < CHIP_COUNT ==> variants@[i] == chip_at(i),
            k <= variants@.len(),
            r@ == all_chips().subrange(0, k as int).filter(offered(split)),
        decreases variants.len() - k,
    {
        let c = variants[k];
        let keep = match c {
            Chip::NRF52840 | Chip::RP2040 => true,
            _ => !split,
        };
        proof {
            let next = all_chips().subrange(0, k + 1);
            assert(all_chips().len() == CHIP_COUNT);
            assert(next.len() == k + 1);
            reveal_with_fuel(Seq::<Chip>::filter, 1);
            assert(next.drop_last() =~= all_chips().subrange(0, k as int));
            assert(next.last() == c);
            assert(keep == offered(split)(c));
            assert(next.filter(offered(split)) == if keep {
                all_chips().subrange(0, k as int).filter(offered(split)).push(c)
            } else {
                all_chips().subrange(0, k as int).filter(offered(split))
            });
        }
        if keep {
            r.push(c);
        }
        k = k + 1;
    }
    proof {
        assert(all_chips().subrange(0, CHIP_COUNT as int) =~= all_chips());
        assert forall|c: Chip| #[trigger] r@.contains(c) <==> (!split || chip_split_support(c)) by {
            crate::chips::lemma_chip_index(c);
            let i = chip_index(c);
            if !split || chip_split_support(c) {
                assert(all_chips()[i] == c);
                all_chips().lemma_filter_contains(offered(split), i);
            }
            if r@.contains(c) {
                let j = choose|j: int| 0 <= j < r@.len() && r@[j] == c;
                all_chips().lemma_filter_pred(offered(split), j);
            }
        }
    }
    r
}

/// The disabled default features of a new project: the column-to-row
/// scanning when the diodes run from rows to columns.
pub open spec fn init_disabled_features(row2col: bool) -> Seq<Seq<char>> {
    if row2col {
        seq!["col2row"@]
    } else {
        seq![]
    }
}

/// Describes a new project created from command-line choices.
pub fn init_project_info(project_name: &str, chip: Chip, split: bool, row2col: bool) -> (r:
    ProjectInfo)
    ensures
        r.project_name@ == underscored(project_name@),
        r.chip == chip,
        r.family_id == chip_family_id(chip),
        r.split == split,
        r.row2col == row2col,
        r.remote_folder@ == template_key(chip, split),
        r.uf2_key@ == uf2_key_of(chip),
        views(r.disabled_default_feature@) == init_disabled_features(row2col),
        r.enabled_feature@.len() == 0,
{
    let mut disabled: Vec<String> = Vec::new();
    if row2col {
        disabled.push(String::from_str("col2row"));
    }
    assert(views(disabled@) =~= init_disabled_features(row2col));
    ProjectInfo {
        project_name: replace_spaces(project_name),
        remote_folder: template_folder(&chip, split),
        chip,
        family_id: family_id_of(&chip),
        split,
        row2col,
        uf2_key: uf2_key(&chip),
        disabled_default_feature: disabled,
        enabled_feature: Vec::new(),
    }
}

/// A placeholder to replace in the files of a template with a given
/// extension.
#[derive(Clone, Debug, PartialEq, Eq)]
pub struct Substitution {
    pub extension: String,
    pub placeholder: String,
    pub value: String,
}

/// The view of a substitution: extension, placeholder, value.
pub open spec fn sub_view(s: Substitution) -> (Seq<char>, Seq<char>, Seq<char>) {
    (s.extension@, s.placeholder@, s.value@)
}

/// The placeholders filled in after a template is copied: the project name
/// in TOML and JSON files, the chip name and the UF2 key in TOML files.
pub open spec fn substitutions_of(p: ProjectInfo) -> Seq<(Seq<char>, Seq<char>, Seq<char>)> {
    seq![
        ("toml"@, "{{ project_name }}"@, p.project_name@),
        ("json"@, "{{ project_name }}"@, p.project_name@),
        ("toml"@, "{{ chip_name }}"@, chip_name(p.chip)),
        ("toml"@, "{{ uf2_key }}"@, p.uf2_key@),
    ]
}

fn substitution(extension: &str, placeholder: &str, value: &str) -> (r: Substitution)
    ensures
        sub_view(r) == (extension@, placeholder@, value@),
{
    Substitution {
        extension: extension.to_owned(),
        placeholder: placeholder.to_owned(),
        value: value.to_owned(),
    }
}

/// The placeholders to fill in after a template is copied, in order.
pub fn post_process_substitutions(p: &ProjectInfo) -> (r: Vec<Substitution>)
    ensures
        r@.map_values(|s: Substitution| sub_view(s)) == substitutions_of(*p),
{
    let mut r: Vec<Substitution> = Vec::new();
    r.push(substitution("toml", "{{ project_name }}", p.project_name.as_str()));
    r.push(substitution("json", "{{ project_name }}", p.project_name.as_str()));
    let chip = p.chip.to_string();
    r.push(substitution("toml", "{{ chip_name }}", chip.as_str()));
    r.push(substitution("toml", "{{ uf2_key }}", p.uf2_key.as_str()));
    assert(r@.map_values(|s: Substitution| sub_view(s)) =~= substitutions_of(*p));
    r
}

/// The features of the firmware dependency once its defaults are turned off:
/// those it already lists, and the defaults that are not to be disabled;
/// sorted, each once.
pub fn merged_rmk_features(existing: &Vec<String>, defaults: &Vec<String>, disabled: &Vec<String>) -> (r:
    Vec<String>)
    ensures
        strictly_sorted(views(r@)),
        forall|x: Seq<char>| #[trigger]
            views(r@).contains(x) <==> views(existing@).contains(x) || (views(defaults@).contains(x)
                && !views(disabled@).contains(x)),
{
    let mut r = sorted_unique(existing);
    let mut i: usize = 0;
    while i < defaults.len()
        invariant
            i <= defaults@.len(),
            strictly_sorted(views(r@)),
            forall|x: Seq<char>| #[trigger]
                views(r@).contains(x) <==> views(existing@).contains(x) || (views(
                    defaults@,
                ).subrange(0, i as int).contains(x) && !views(disabled@).contains(x)),
        decreases defaults.len() - i,
    {
        let ghost before = views(r@);
        let ghost p = views(defaults@).subrange(0, i as int);
        let ghost d = views(defaults@)[i as int];
        if !contains_text(disabled, defaults[i].as_str()) {
            insert_sorted(&mut r, defaults[i].clone());
        }
        proof {
            assert(views(defaults@).subrange(0, i + 1) =~= p.push(d));
            assert forall|x: Seq<char>| #[trigger] p.push(d).contains(x) <==> p.contains(x) || x == d by {
                if p.push(d).contains(x) {
                    let j = choose|j: int| 0 <= j < p.len() + 1 && p.push(d)[j] == x;
                    if j < p.len() {
                        assert(p[j] == x);
                    }
                }
                if p.contains(x) {
                    let j = choose|j: int| 0 <= j < p.len() && p[j] == x;
                    assert(p.push(d)[j] == x);
                }
                if x == d {
                    assert(p.push(d)[p.len() as int] == x);
                }
            }
        }
        i = i + 1;
    }
    assert(views(defaults@).subrange(0, defaults@.len() as int) =~= views(defaults@));
    r
}

/// Why a template version was refused.
#[derive(Clone, Debug, PartialEq, Eq)]
pub enum VersionError {
    /// The version is not in the published mapping; the known versions are
    /// listed sorted.
    UnknownVersion { version: String, available: Vec<String> },
}

/// The commit a version maps to: that of the first entry for it.
pub open spec fn version_commit(mapping: Seq<(String, String)>, version: Seq<char>) -> Option<Seq<char>>
    decreases mapping.len(),
{
    if mapping.len() == 0 {
        None
    } else if mapping[0].0@ == version {
        Some(mapping[0].1@)
    } else {
        version_commit(mapping.subrange(1, mapping.len() as int), version)
    }
}

/// The versions a mapping names.
pub open spec fn mapping_versions(mapping: Seq<(String, String)>) -> Seq<Seq<char>> {
    mapping.map_values(|e: (String, String)| e.0@)
}

/// In a mapping whose versions are distinct, as in a map, the commit of a
/// version is that of its one entry.
proof fn lemma_version_commit_unique(mapping: Seq<(String, String)>, i: int)
    requires
        0 <= i < mapping.len(),
        mapping_versions(mapping).no_duplicates(),
    ensures
        version_commit(mapping, mapping[i].0@) == Some(mapping[i].1@),
    decreases mapping.len(),
{
    if mapping[0].0@ != mapping[i].0@ {
        let rest = mapping.subrange(1, mapping.len() as int);
        assert(rest[i - 1] == mapping[i]);
        assert forall|a: int, b: int|
            0 <= a < mapping_versions(rest).len() && 0 <= b < mapping_versions(rest).len() && a != b
                implies mapping_versions(rest)[a] != mapping_versions(rest)[b] by {
            assert(mapping_versions(rest)[a] == mapping_versions(mapping)[a + 1]);
            assert(mapping_versions(rest)[b] == mapping_versions(mapping)[b + 1]);
        }
        lemma_version_commit_unique(rest, i - 1);
    } else if i != 0 {
        assert(mapping_versions(mapping)[0] == mapping_versions(mapping)[i]);
    }
}

/// Chooses the template revision: the head of `main` when no version is
/// asked for, else the commit the mapping gives for the version. The mapping
/// comes from a map, so its versions are distinct; were one repeated, its
/// first entry would count.
pub fn pick_template_version(version: Option<&str>, mapping: &Vec<(String, String)>) -> (r: Result<
    String,
    VersionError,
>)
    ensures
        version is None ==> (r is Ok && r->Ok_0@ == "main"@),
        version matches Some(v) ==> forall|i: int|
            0 <= i < mapping@.len() && #[trigger] mapping@[i].0@ == v@ && mapping_versions(
                mapping@,
            ).no_duplicates() ==> r is Ok && r->Ok_0@ == mapping@[i].1@,
        version matches Some(v) ==> match version_commit(mapping@, v@) {
            Some(c) => r is Ok && r->Ok_0@ == c,
            None => r is Err,
        },
        r matches Err(VersionError::UnknownVersion { version: given, available }) ==> {
            &&& version is Some
            &&& given@ == version->0@
            &&& version_commit(mapping@, given@) is None
            &&& strictly_sorted(views(available@))
            &&& forall|x: Seq<char>| #[trigger]
                views(available@).contains(x) <==> mapping_versions(mapping@).contains(x)
        },
{
    let v = match version {
        None => {
            return Ok(String::from_str("main"));
        },
        Some(v) => v,
    };
    proof {
        assert forall|i: int|
            0 <= i < mapping@.len() && #[trigger] mapping@[i].0@ == v@ && mapping_versions(
                mapping@,
            ).no_duplicates() implies version_commit(mapping@, v@) == Some(mapping@[i].1@) by {
            lemma_version_commit_unique(mapping@, i);
        }
    }
    let mut i: usize = 0;
    assert(mapping@.subrange(0, mapping@.len() as int) =~= mapping@);
    while i < mapping.len()
        invariant
            version == Some(v),
            i <= mapping@.len(),
            forall|k: int|
                0 <= k < mapping@.len() && #[trigger] mapping@[k].0@ == v@ && mapping_versions(
                    mapping@,
                ).no_duplicates() ==> version_commit(mapping@, v@) == Some(mapping@[k].1@),
            version_commit(mapping@, v@) == version_commit(mapping@.subrange(i as int, mapping@.len() as int), v@),
        decreases mapping.len() - i,
    {
        let ghost rest = mapping@.subrange(i as int, mapping@.len() as int);
        assert(rest.subrange(1, rest.len() as int) =~= mapping@.subrange(i + 1, mapping@.len() as int));
        assert(rest[0] == mapping@[i as int]);
        if same_text(mapping[i].0.as_str(), v) {
            let commit = mapping[i].1.clone();
            assert(commit@ == rest[0].1@);
            return Ok(commit);
        }
        i = i + 1;
    }
    let mut keys: Vec<String> = Vec::new();
    let mut j: usize = 0;
    while j < mapping.len()
        invariant
            version == Some(v),
            version_commit(mapping@, v@) is None,
            j <= mapping@.len(),
            views(keys@) == mapping_versions(mapping@).subrange(0, j as int),
        decreases mapping.len() - j,
    {
        let key = mapping[j].0.clone();
        let ghost prev = keys@;
        keys.push(key);
        assert(views(keys@) =~= views(prev).push(mapping_versions(mapping@)[j as int]));
        assert(views(keys@) =~= mapping_versions(mapping@).subrange(0, j + 1));
        j = j + 1;
    }
    assert(mapping_versions(mapping@).subrange(0, mapping@.len() as int) =~= mapping_versions(
        mapping@,
    ));
    let available = sorted_unique(&keys);
    Err(VersionError::UnknownVersion { version: v.to_owned(), available })
}

} // verus!
