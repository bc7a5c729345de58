use rmkit::chips::{get_info, Chip, FirmwareFormat};
use rmkit::convert::{
    accept_uf2_image, cargo_objcopy, check_family_tags, check_hex_line, hex_to_uf2_image,
    package_plan, target_format, ConvertError,
};

fn sample_hex() -> Vec<String> {
    vec![
        ":020000041000EA".to_string(),
        ":1000000000B5324B212058609868022188439860DF".to_string(),
        ":00000001FF".to_string(),
    ]
}

#[test]
fn uf2_image_carries_family_id() {
    let chip = get_info(&Chip::NRF52840);
    let image = hex_to_uf2_image(&sample_hex(), &chip).unwrap();
    assert_eq!(image.len(), 512);
    assert_eq!(&image[0..4], &0x0A324655u32.to_le_bytes());
    assert_eq!(&image[8..12], &0x2000u32.to_le_bytes());
    assert_eq!(&image[12..16], &0x10000000u32.to_le_bytes());
    assert_eq!(&image[28..32], &0xada52840u32.to_le_bytes());
    assert_eq!(image[32], 0x00);
    assert_eq!(image[33], 0xB5);
    assert_eq!(&image[508..512], &0x0AB16F30u32.to_le_bytes());
}

#[test]
fn uf2_image_of_another_chip() {
    let chip = get_info(&Chip::RP2040);
    let image = hex_to_uf2_image(&sample_hex(), &chip).unwrap();
    assert_eq!(&image[28..32], &0xe48bff56u32.to_le_bytes());
}

#[test]
fn uf2_refuses_bad_records() {
    let chip = get_info(&Chip::NRF52840);
    let bad = vec![":0".to_string()];
    assert_eq!(hex_to_uf2_image(&bad, &chip), Err(ConvertError::InvalidHex));
    assert!(!check_hex_line(":0"));
    assert!(!check_hex_line(":0500000000B5324B2120DF"));
    assert!(check_hex_line("not a record"));
    assert!(check_hex_line(":00000001FF"));
    assert!(!check_hex_line(":02000004FFFFFC"));
}

#[test]
fn uf2_refuses_mismatched_registry_entry() {
    let mut chip = get_info(&Chip::NRF52840);
    chip.family_id = 1;
    assert_eq!(hex_to_uf2_image(&sample_hex(), &chip), Err(ConvertError::FamilyMismatch));
}

#[test]
fn objcopy_plans() {
    let call = cargo_objcopy("target/kb", "kb", 0, FirmwareFormat::Hex).unwrap();
    assert_eq!(call.output_path, "kb.hex");
    assert_eq!(call.args, vec!["target/kb", "-O", "ihex", "kb.hex"]);
    let call = cargo_objcopy("target/kb", "kb", 2, FirmwareFormat::Bin).unwrap();
    assert_eq!(call.output_path, "kb.bin");
    assert_eq!(call.args, vec!["target/kb", "-O", "binary", "kb.bin", "-v"]);
    assert_eq!(
        cargo_objcopy("target/kb", "kb", 0, FirmwareFormat::Uf2),
        Err(ConvertError::UnsupportedObjcopyFormat)
    );
    assert_eq!(
        cargo_objcopy("target/kb", "kb", 0, FirmwareFormat::Elf),
        Err(ConvertError::UnsupportedObjcopyFormat)
    );
}

#[test]
fn uf2_plan_has_two_stages() {
    let chip = get_info(&Chip::NRF52840);
    let plan = package_plan("target/kb", "kb", None, FirmwareFormat::Uf2, &chip, 0);
    assert_eq!(plan.output_name, "kb");
    let call = plan.objcopy.unwrap();
    assert_eq!(call.output_path, "kb.hex");
    let uf2 = plan.uf2.unwrap();
    assert_eq!(uf2.input_path, "kb.hex");
    assert_eq!(uf2.output_path, "kb.uf2");
    assert_eq!(uf2.family_id, 0xada52840);
}

#[test]
fn native_plan_has_no_stage() {
    let chip = get_info(&Chip::NRF52840);
    let plan = package_plan("target/kb", "kb", Some("central"), FirmwareFormat::Elf, &chip, 0);
    assert_eq!(plan.output_name, "kb_central");
    assert!(plan.objcopy.is_none());
    assert!(plan.uf2.is_none());
    let bin = package_plan("target/kb", "kb", None, FirmwareFormat::Bin, &chip, 0);
    assert!(bin.objcopy.is_some());
    assert!(bin.uf2.is_none());
}

#[test]
fn format_choice() {
    let mut chip = get_info(&Chip::NRF52840);
    assert_eq!(target_format(None, &chip), Some(FirmwareFormat::Elf));
    assert_eq!(target_format(Some(FirmwareFormat::Hex), &chip), Some(FirmwareFormat::Hex));
    chip.firmware_formats = vec![FirmwareFormat::Elf, FirmwareFormat::Hex, FirmwareFormat::Uf2];
    assert_eq!(target_format(None, &chip), Some(FirmwareFormat::Uf2));
    assert_eq!(target_format(Some(FirmwareFormat::Hex), &chip), Some(FirmwareFormat::Hex));
    assert_eq!(target_format(Some(FirmwareFormat::Bin), &chip), None);
}

#[test]
fn packer_result_is_checked() {
    assert_eq!(accept_uf2_image(None, 7), Err(ConvertError::ConversionFailed));
    let mut block = vec![0u8; 512];
    assert_eq!(accept_uf2_image(Some(block.clone()), 7), Err(ConvertError::FamilyMismatch));
    block[28] = 7;
    assert!(check_family_tags(&block, 7));
    assert_eq!(accept_uf2_image(Some(block.clone()), 7), Ok(block.clone()));
    let mut two = block.clone();
    two.extend(vec![0u8; 512]);
    assert!(!check_family_tags(&two, 7));
    assert!(check_family_tags(&vec![], 7));
}
