use rmkit::artifact::{ArtifactRecord, BuildError, TargetKind};
use rmkit::chips::{Chip, FirmwareFormat};
use rmkit::config::{ConfigError, DeviceConfig, LightPins, MatrixSection, SplitSection};
use rmkit::convert::hex_to_uf2_image;
use rmkit::pipeline::{build_rmk, package_pass};

fn description(split: bool, format: Option<FirmwareFormat>) -> DeviceConfig {
    DeviceConfig {
        name: "kb".to_string(),
        board: None,
        chip: Some(Chip::NRF52840),
        matrix: if split { None } else { Some(MatrixSection { row2col: false }) },
        split: if split {
            Some(SplitSection {
                central: MatrixSection { row2col: false },
                peripherals: vec![MatrixSection { row2col: false }],
            })
        } else {
            None
        },
        storage_enabled: true,
        defmt_log: true,
        vial_enabled: true,
        light: LightPins::default(),
        firmware_format: format,
    }
}

fn bin_artifact(name: &str) -> ArtifactRecord {
    ArtifactRecord {
        package_id: "kb 0.1.0".to_string(),
        target_name: name.to_string(),
        target_kinds: vec![TargetKind::Bin],
        executable: Some(format!("target/release/{name}")),
        filenames: vec![format!("target/release/{name}")],
    }
}

#[test]
fn unibody_uf2_end_to_end() {
    let plan = build_rmk(0, &description(false, Some(FirmwareFormat::Uf2))).unwrap();
    assert_eq!(plan.passes.len(), 1);
    let pass = &plan.passes[0];
    assert_eq!(pass.binary, None);
    assert_eq!(pass.output_name, "kb");
    assert_eq!(pass.cargo_args, vec!["build", "--release", "--message-format=json"]);
    let members = vec!["kb 0.1.0".to_string()];
    let pkg = package_pass(&plan, pass, vec![bin_artifact("kb")], &members, true, 0).unwrap();
    let call = pkg.objcopy.unwrap();
    assert_eq!(call.args, vec!["target/release/kb", "-O", "ihex", "kb.hex"]);
    let uf2 = pkg.uf2.unwrap();
    assert_eq!(uf2.output_path, "kb.uf2");
    assert_eq!(uf2.family_id, 0xada52840);
    let hex = vec![
        ":020000041000EA".to_string(),
        ":1000000000B5324B212058609868022188439860DF".to_string(),
        ":00000001FF".to_string(),
    ];
    let image = hex_to_uf2_image(&hex, &plan.chip).unwrap();
    assert_eq!(&image[28..32], &plan.chip.family_id.to_le_bytes());
}

#[test]
fn split_builds_two_passes() {
    let plan = build_rmk(0, &description(true, Some(FirmwareFormat::Uf2))).unwrap();
    assert_eq!(plan.passes.len(), 2);
    assert_eq!(plan.passes[0].binary.as_deref(), Some("central"));
    assert_eq!(plan.passes[0].output_name, "kb_central");
    assert_eq!(plan.passes[1].binary.as_deref(), Some("peripheral"));
    assert_eq!(plan.passes[1].output_name, "kb_peripheral");
    assert_eq!(
        plan.passes[1].cargo_args,
        vec!["build", "--release", "--bin", "peripheral", "--message-format=json"]
    );
}

#[test]
fn split_passes_are_independent() {
    let plan = build_rmk(0, &description(true, Some(FirmwareFormat::Uf2))).unwrap();
    let members = vec!["kb 0.1.0".to_string()];
    let central =
        package_pass(&plan, &plan.passes[0], vec![bin_artifact("central")], &members, true, 0);
    let peripheral =
        package_pass(&plan, &plan.passes[1], vec![bin_artifact("peripheral")], &members, false, 0);
    let central = central.unwrap();
    assert_eq!(central.uf2.unwrap().output_path, "kb_central.uf2");
    assert_eq!(peripheral, Err(BuildError::BuildFailed));
}

#[test]
fn ambiguous_build_is_refused() {
    let plan = build_rmk(0, &description(false, None)).unwrap();
    let members = vec!["kb 0.1.0".to_string()];
    let r = package_pass(
        &plan,
        &plan.passes[0],
        vec![bin_artifact("a"), bin_artifact("b")],
        &members,
        true,
        0,
    );
    assert_eq!(r, Err(BuildError::AmbiguousArtifact));
}

#[test]
fn native_format_has_no_stage() {
    let plan = build_rmk(2, &description(false, None)).unwrap();
    assert_eq!(plan.format, FirmwareFormat::Elf);
    assert_eq!(
        plan.passes[0].cargo_args,
        vec!["build", "--release", "--message-format=json", "-v"]
    );
    let members = vec!["kb 0.1.0".to_string()];
    let pkg = package_pass(&plan, &plan.passes[0], vec![bin_artifact("kb")], &members, true, 2)
        .unwrap();
    assert!(pkg.objcopy.is_none() && pkg.uf2.is_none());
}

#[test]
fn invalid_description_is_refused_before_building() {
    let mut cfg = description(false, None);
    cfg.matrix = None;
    assert_eq!(build_rmk(0, &cfg).unwrap_err(), ConfigError::MissingMatrixSpecification);
}

#[test]
fn unsupported_format_message() {
    let e = ConfigError::UnsupportedFirmwareFormat {
        chip: Chip::RP2040,
        format: FirmwareFormat::Bin,
    };
    assert_eq!(e.message(), "The chip 'rp2040' does not support the firmware format 'bin'");
    assert_eq!(FirmwareFormat::Uf2.to_string(), "uf2");
}
