//! The build pipeline: one build and conversion pass per build target.

use vstd::prelude::*;

use crate::artifact::{
    artifact_file, cargo_args, cargo_build_args, opt_view, select_artifact, selected,
    ArtifactRecord, BuildError,
};
use crate::chips::{chip_formats, get_info, is_info_of, ChipInfo, FirmwareFormat};
use crate::config::{
    config_error, effective_chip, resolve_project, resolves_to, ConfigError, DeviceConfig,
    ProjectInfo,
};
use crate::convert::{
    format_admitted, output_name_of, package_plan, plans, target_format, target_format_of,
    PackagePlan,
};
use crate::text::views;

verus! {

/// One build target of a project.
#[derive(Clone, Debug, PartialEq, Eq)]
pub struct BuildPass {
    /// The binary target to build, if the project has several.
    pub binary: Option<String>,
    /// The name the packaged image is written under.
    pub output_name: String,
    /// The arguments of the compiler invocation.
    pub cargo_args: Vec<String>,
}

/// Everything needed to build and package a project.
#[derive(Clone, Debug)]
pub struct BuildPlan {
    pub project: ProjectInfo,
    pub chip: ChipInfo,
    pub format: FirmwareFormat,
    pub passes: Vec<BuildPass>,
}

/// The build targets of a project: the central and the peripheral half of a
/// split keyboard, in this order, or the one default target.
pub open spec fn sides(split: bool) -> Seq<Option<Seq<char>>> {
    if split {
        seq![Some("central"@), Some("peripheral"@)]
    } else {
        seq![None]
    }
}

/// The view of an optional string.
pub open spec fn opt_string_view(o: Option<String>) -> Option<Seq<char>> {
    match o {
        Some(s) => Some(s@),
        None => None,
    }
}

/// `p` is the pass that builds target `side` of project `name`.
pub open spec fn is_pass(p: BuildPass, name: Seq<char>, side: Option<Seq<char>>, verbosity: u64) -> bool {
    &&& opt_string_view(p.binary) == side
    &&& p.output_name@ == output_name_of(name, side)
    &&& views(p.cargo_args@) == cargo_args(side, verbosity)
}

/// The error that planning the build of `cfg` meets first, if any: one of
/// resolution, or a requested format that the chip does not admit.
pub open spec fn plan_error(cfg: DeviceConfig) -> Option<ConfigError> {
    if config_error(cfg) is Some {
        config_error(cfg)
    } else if cfg.firmware_format matches Some(f) && !format_admitted(
        f,
        chip_formats(effective_chip(cfg)),
    ) {
        Some(
            ConfigError::UnsupportedFirmwareFormat {
                chip: effective_chip(cfg),
                format: cfg.firmware_format->0,
            },
        )
    } else {
        None
    }
}

/// The pass that builds one target of a project.
fn make_pass(project_name: &str, side: Option<&str>, verbosity: u64) -> (r: BuildPass)
    ensures
        is_pass(r, project_name@, opt_view(side), verbosity),
{
    let output_name = match side {
        Some(s) => crate::text::join3(project_name, "_", s),
        None => project_name.to_owned(),
    };
    let binary = match side {
        Some(s) => Some(s.to_owned()),
        None => None,
    };
    BuildPass { binary, output_name, cargo_args: cargo_build_args(side, verbosity) }
}

/// Plans the build of a keyboard description: resolves it once, chooses the
/// image format, then gives one pass for each build target, central first
/// for a split keyboard.
pub fn build_rmk(verbosity: u64, cfg: &DeviceConfig) -> (r: Result<BuildPlan, ConfigError>)
    ensures
        r is Err <==> plan_error(*cfg) is Some,
        r matches Err(e) ==> plan_error(*cfg) == Some(e),
        r matches Ok(plan) ==> {
            &&& resolves_to(*cfg, plan.project)
            &&& is_info_of(plan.chip, plan.project.chip)
            &&& plan.format == target_format_of(cfg.firmware_format, chip_formats(plan.project.chip))
            &&& plan.passes@.len() == sides(plan.project.split).len()
            &&& forall|i: int|
                0 <= i < plan.passes@.len() ==> is_pass(
                    #[trigger] plan.passes@[i],
                    plan.project.project_name@,
                    sides(plan.project.split)[i],
                    verbosity,
                )
        },
{
    let project = resolve_project(cfg)?;
    let chip = get_info(&project.chip);
    let format = match target_format(cfg.firmware_format, &chip) {
        Some(f) => f,
        None => {
            return Err(
                ConfigError::UnsupportedFirmwareFormat {
                    chip: project.chip,
                    format: cfg.firmware_format.unwrap(),
                },
            );
        },
    };
    let mut passes: Vec<BuildPass> = Vec::new();
    if project.split {
        passes.push(make_pass(project.project_name.as_str(), Some("central"), verbosity));
        passes.push(make_pass(project.project_name.as_str(), Some("peripheral"), verbosity));
    } else {
        passes.push(make_pass(project.project_name.as_str(), None, verbosity));
    }
    Ok(BuildPlan { project, chip, format, passes })
}

/// Plans the packaging of one pass once its build has run: picks the
/// artifact the build reported for the pass's target, then the converter
/// stages for the project's format.
pub fn package_pass(
    plan: &BuildPlan,
    pass: &BuildPass,
    artifacts: Vec<ArtifactRecord>,
    workspace_members: &Vec<String>,
    build_succeeded: bool,
    verbosity: u64,
) -> (r: Result<PackagePlan, BuildError>)
    ensures
        !build_succeeded ==> r == Err::<PackagePlan, BuildError>(BuildError::BuildFailed),
        build_succeeded ==> {
            let m = selected(artifacts@, views(workspace_members@), opt_string_view(pass.binary));
            &&& m.len() == 0 <==> r == Err::<PackagePlan, BuildError>(
                BuildError::NoArtifactProduced,
            )
            &&& m.len() >= 2 <==> r == Err::<PackagePlan, BuildError>(
                BuildError::AmbiguousArtifact,
            )
            &&& m.len() == 1 ==> {
                let a = m[0];
                &&& a.executable is None && a.filenames@.len() == 0 <==> r == Err::<
                    PackagePlan,
                    BuildError,
                >(BuildError::NoOutputFile)
                &&& r matches Ok(p) ==> plans(
                    p,
                    if a.executable is Some {
                        a.executable->0@
                    } else {
                        a.filenames@[0]@
                    },
                    pass.output_name@,
                    plan.format,
                    plan.chip.family_id,
                    verbosity,
                )
                &&& r is Ok <==> a.executable is Some || a.filenames@.len() > 0
            }
        },
{
    let bin: Option<&str> = match &pass.binary {
        Some(b) => Some(b.as_str()),
        None => None,
    };
    let artifact = select_artifact(artifacts, workspace_members, bin, build_succeeded)?;
    let file = artifact_file(&artifact)?;
    let project_name = pass.output_name.as_str();
    let p = package_plan(file.as_str(), project_name, None, plan.format, &plan.chip, verbosity);
    Ok(p)
}

} // verus!
