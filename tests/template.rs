use rmkit::chips::Chip;
use rmkit::config::ConfigError;
use rmkit::template::{
    build_github_archive_url, chip_options, init_project_info, merged_rmk_features,
    parse_target_name, pick_template_version, post_process_substitutions,
    template_entry_destination, template_folder_candidates, VersionError,
};

fn strings(v: &[&str]) -> Vec<String> {
    v.iter().map(|s| s.to_string()).collect()
}

#[test]
fn archive_urls() {
    assert_eq!(
        build_github_archive_url("HaoboGu", "rmk-template", "main"),
        "https://github.com/HaoboGu/rmk-template/archive/refs/heads/main.zip"
    );
    assert_eq!(
        build_github_archive_url("HaoboGu", "rmk-template", "abc123"),
        "https://github.com/HaoboGu/rmk-template/archive/abc123.zip"
    );
}

#[test]
fn folder_fallbacks() {
    assert_eq!(template_folder_candidates("nrf52840"), strings(&["nrf52840"]));
    assert_eq!(
        template_folder_candidates("stm32f411xc"),
        strings(&["stm32f411xc", "stm32f4", "stm32"])
    );
    assert_eq!(template_folder_candidates("stm32f4"), strings(&["stm32f4", "stm32"]));
}

#[test]
fn archive_entries() {
    let segs = strings(&["rmk-template-main", "nrf52840", "src", "main.rs"]);
    assert_eq!(template_entry_destination(&segs, "nrf52840"), Some(strings(&["src", "main.rs"])));
    assert_eq!(template_entry_destination(&segs, "rp2040"), None);
    assert_eq!(template_entry_destination(&strings(&["root"]), "root"), None);
}

#[test]
fn target_names() {
    assert_eq!(parse_target_name("rp2040"), Ok(Chip::RP2040));
    assert_eq!(parse_target_name("nice-nano"), Ok(Chip::NRF52840));
    assert!(matches!(
        parse_target_name("pico"),
        Err(ConfigError::UnknownIdentifier { .. })
    ));
}

#[test]
fn split_options_are_split_capable() {
    let split = chip_options(true);
    assert_eq!(split, vec![Chip::NRF52840, Chip::RP2040]);
    let all = chip_options(false);
    assert_eq!(all.len(), 68);
    assert_eq!(all, rmkit::chips::chip_variants());
}

#[test]
fn init_info() {
    let p = init_project_info("my kb", Chip::STM32F411xE, true, true);
    assert_eq!(p.project_name, "my_kb");
    assert_eq!(p.remote_folder, "stm32f411xe_split");
    assert_eq!(p.uf2_key, "stm32f4");
    assert_eq!(p.family_id, 0x2dc309c5);
    assert_eq!(p.disabled_default_feature, strings(&["col2row"]));
    let q = init_project_info("kb", Chip::RP2040, false, false);
    assert!(q.disabled_default_feature.is_empty());
    assert_eq!(q.remote_folder, "rp2040");
}

#[test]
fn substitutions() {
    let p = init_project_info("kb", Chip::NRF52840, false, false);
    let subs = post_process_substitutions(&p);
    let flat: Vec<(String, String, String)> = subs
        .into_iter()
        .map(|s| (s.extension, s.placeholder, s.value))
        .collect();
    assert_eq!(
        flat,
        vec![
            ("toml".to_string(), "{{ project_name }}".to_string(), "kb".to_string()),
            ("json".to_string(), "{{ project_name }}".to_string(), "kb".to_string()),
            ("toml".to_string(), "{{ chip_name }}".to_string(), "nrf52840".to_string()),
            ("toml".to_string(), "{{ uf2_key }}".to_string(), "nrf52840".to_string()),
        ]
    );
}

#[test]
fn merged_features() {
    let r = merged_rmk_features(
        &strings(&["split", "async_matrix"]),
        &strings(&["storage", "defmt", "col2row", "vial", "split"]),
        &strings(&["col2row", "defmt"]),
    );
    assert_eq!(r, strings(&["async_matrix", "split", "storage", "vial"]));
    let empty = merged_rmk_features(&vec![], &vec![], &vec![]);
    assert!(empty.is_empty());
}

#[test]
fn template_versions() {
    let mapping = vec![
        ("0.8".to_string(), "c8".to_string()),
        ("0.7".to_string(), "c7".to_string()),
    ];
    assert_eq!(pick_template_version(None, &mapping), Ok("main".to_string()));
    assert_eq!(pick_template_version(Some("0.7"), &mapping), Ok("c7".to_string()));
    assert_eq!(pick_template_version(Some("0.8"), &mapping), Ok("c8".to_string()));
    assert_eq!(
        pick_template_version(Some("0.1"), &mapping),
        Err(VersionError::UnknownVersion {
            version: "0.1".to_string(),
            available: strings(&["0.7", "0.8"]),
        })
    );
}
