use rmkit::chips::{Board, Chip};
use rmkit::config::{
    parse_board, parse_chip, resolve_project, ConfigError, DeviceConfig, LightPins,
    MatrixSection, SplitSection,
};

fn unibody(board: Option<Board>, chip: Option<Chip>) -> DeviceConfig {
    DeviceConfig {
        name: "My Keyboard".to_string(),
        board,
        chip,
        matrix: Some(MatrixSection { row2col: false }),
        split: None,
        storage_enabled: true,
        defmt_log: true,
        vial_enabled: true,
        light: LightPins::default(),
        firmware_format: None,
    }
}

fn split_cfg(chip: Chip) -> DeviceConfig {
    DeviceConfig {
        matrix: None,
        split: Some(SplitSection {
            central: MatrixSection { row2col: true },
            peripherals: vec![MatrixSection { row2col: false }],
        }),
        ..unibody(None, Some(chip))
    }
}

#[test]
fn board_and_matching_chip_resolve() {
    let p = resolve_project(&unibody(Some(Board::NiceNano), Some(Chip::NRF52840))).unwrap();
    assert_eq!(p.chip, Chip::NRF52840);
    assert_eq!(p.family_id, 0xada52840);
    assert_eq!(p.project_name, "My_Keyboard");
}

#[test]
fn board_alone_resolves() {
    let p = resolve_project(&unibody(Some(Board::Liatris), None)).unwrap();
    assert_eq!(p.chip, Chip::RP2040);
    assert_eq!(p.remote_folder, "rp2040");
}

#[test]
fn conflicting_chip_names_both() {
    let e = resolve_project(&unibody(Some(Board::NiceNano), Some(Chip::RP2040))).unwrap_err();
    assert_eq!(
        e,
        ConfigError::ConflictingChipSpecification {
            board: Board::NiceNano,
            chip: Chip::RP2040,
            board_chip: Chip::NRF52840,
        }
    );
    let msg = e.message();
    assert!(msg.contains("nice-nano"));
    assert!(msg.contains("rp2040"));
    assert!(msg.contains("nrf52840"));
}

#[test]
fn missing_chip() {
    let e = resolve_project(&unibody(None, None)).unwrap_err();
    assert_eq!(e, ConfigError::MissingChipSpecification);
    assert_eq!(e.message(), "Either 'board' or 'chip' must be specified in keyboard.toml");
}

#[test]
fn missing_matrix() {
    let mut cfg = unibody(None, Some(Chip::NRF52840));
    cfg.matrix = None;
    assert_eq!(resolve_project(&cfg).unwrap_err(), ConfigError::MissingMatrixSpecification);
}

#[test]
fn conflicting_matrix() {
    let mut cfg = split_cfg(Chip::NRF52840);
    cfg.matrix = Some(MatrixSection { row2col: false });
    assert_eq!(resolve_project(&cfg).unwrap_err(), ConfigError::ConflictingMatrixSpecification);
}

#[test]
fn chip_errors_come_before_matrix_errors() {
    let mut cfg = unibody(None, None);
    cfg.matrix = None;
    assert_eq!(resolve_project(&cfg).unwrap_err(), ConfigError::MissingChipSpecification);
}

#[test]
fn template_key_split_and_unibody() {
    let p = resolve_project(&split_cfg(Chip::NRF52840)).unwrap();
    assert_eq!(p.remote_folder, "nrf52840_split");
    assert!(p.split);
    assert!(p.row2col);
    let q = resolve_project(&unibody(None, Some(Chip::NRF52840))).unwrap();
    assert_eq!(q.remote_folder, "nrf52840");
    assert!(!q.split);
    assert!(!q.row2col);
}

#[test]
fn uf2_key_of_stm32_is_series() {
    let p = resolve_project(&unibody(None, Some(Chip::STM32F411xC))).unwrap();
    assert_eq!(p.uf2_key, "stm32f4");
    let q = resolve_project(&unibody(None, Some(Chip::STM32F4))).unwrap();
    assert_eq!(q.uf2_key, "stm32f4");
    let r = resolve_project(&unibody(None, Some(Chip::RP2040))).unwrap();
    assert_eq!(r.uf2_key, "rp2040");
}

#[test]
fn light_pin_enables_controller() {
    let mut cfg = unibody(None, Some(Chip::NRF52840));
    assert!(resolve_project(&cfg).unwrap().enabled_feature.is_empty());
    cfg.light.scrolllock = true;
    assert_eq!(resolve_project(&cfg).unwrap().enabled_feature, vec!["controller".to_string()]);
    let mut cfg = unibody(None, Some(Chip::NRF52840));
    cfg.light.capslock = true;
    let p = resolve_project(&cfg).unwrap();
    assert_eq!(p.enabled_feature, vec!["controller".to_string()]);
    assert!(!p.disabled_default_feature.contains(&"controller".to_string()));
}

#[test]
fn disabled_default_features_follow_toggles() {
    let mut cfg = unibody(None, Some(Chip::NRF52840));
    assert!(resolve_project(&cfg).unwrap().disabled_default_feature.is_empty());
    cfg.storage_enabled = false;
    cfg.defmt_log = false;
    cfg.vial_enabled = false;
    assert_eq!(
        resolve_project(&cfg).unwrap().disabled_default_feature,
        vec!["storage", "defmt", "vial", "vial_lock"]
    );
    cfg.storage_enabled = true;
    assert_eq!(
        resolve_project(&cfg).unwrap().disabled_default_feature,
        vec!["defmt", "vial", "vial_lock"]
    );
}

#[test]
fn unknown_names_list_valid_options() {
    assert_eq!(parse_chip("nrf52840"), Ok(Chip::NRF52840));
    assert_eq!(parse_board("xiao-ble"), Ok(Board::XiaoBle));
    match parse_chip("z80") {
        Err(ConfigError::UnknownIdentifier { given, valid }) => {
            assert_eq!(given, "z80");
            assert_eq!(valid.len(), 68);
            assert!(valid.contains(&"rp2040".to_string()));
        }
        other => panic!("unexpected {:?}", other),
    }
    let e = parse_board("nano").unwrap_err();
    let msg = e.message();
    assert!(msg.starts_with("Unknown name 'nano'. Valid names: nrf-micro, blue-micro840"));
    assert!(msg.ends_with("elite-c, pro-micro"));
}

#[test]
fn directory_error_message() {
    let e = ConfigError::ProjectDirectoryError {
        path: "kb".to_string(),
        reason: "denied".to_string(),
    };
    assert_eq!(e.message(), "Failed to create project directory kb: denied");
}
