use rmkit::chips::{
    board_names, chip_names, chip_variants, get_all_chip_info, get_chip, get_info, Board, Chip,
    BOARD_COUNT, CHIP_COUNT,
};

#[test]
fn family_ids_are_pairwise_distinct() {
    let all = get_all_chip_info();
    assert_eq!(all.len(), CHIP_COUNT);
    for i in 0..all.len() {
        for j in 0..all.len() {
            if i != j {
                assert_ne!(all[i].family_id, all[j].family_id);
            }
        }
    }
}

#[test]
fn every_chip_has_one_entry() {
    let all = get_all_chip_info();
    let variants = chip_variants();
    for (info, chip) in all.iter().zip(variants.iter()) {
        assert_eq!(info.chip, *chip);
        assert_eq!(info.name, chip.to_string());
    }
}

#[test]
fn board_lookup_is_stable() {
    let boards = [
        Board::NrfMicro,
        Board::BlueMicro840,
        Board::PuchiBle,
        Board::NiceNano,
        Board::NiceNanoV2,
        Board::XiaoBle,
        Board::Liatris,
        Board::EliteC,
        Board::ProMicro,
    ];
    for b in boards.iter() {
        assert_eq!(get_chip(b), get_chip(b));
    }
    assert_eq!(get_chip(&Board::NiceNano), Chip::NRF52840);
    assert_eq!(get_chip(&Board::Liatris), Chip::RP2040);
    assert_eq!(get_chip(&Board::ProMicro), Chip::ATMEGA32);
}

#[test]
fn known_family_ids() {
    assert_eq!(get_info(&Chip::NRF52840).family_id, 0xada52840);
    assert_eq!(get_info(&Chip::RP2040).family_id, 0xe48bff56);
    assert_eq!(get_info(&Chip::STM32F4).family_id, 0x57755a57);
    assert_eq!(get_info(&Chip::ESP32).family_id, 0x1c5f21b0);
    assert_eq!(get_info(&Chip::Rp2350ArmNs).family_id, 0xe48bff5b);
}

#[test]
fn split_support_and_names() {
    let nrf = get_info(&Chip::NRF52840);
    assert!(nrf.split_support);
    assert_eq!(nrf.name, "nrf52840");
    assert!(nrf.firmware_formats.is_empty());
    assert!(get_info(&Chip::RP2040).split_support);
    assert!(!get_info(&Chip::STM32F4).split_support);
    assert_eq!(get_info(&Chip::NRF52832xxAA).name, "nrf52832xxaa");
    assert_eq!(get_info(&Chip::MaixPlayU4).name, "maixplayu4");
}

#[test]
fn names_parse_back() {
    assert_eq!(Chip::from_name("rp2040"), Some(Chip::RP2040));
    assert_eq!(Chip::from_name("stm32f411xe"), Some(Chip::STM32F411xE));
    assert_eq!(Chip::from_name("RP2040"), None);
    assert_eq!(Board::from_name("nice-nano-v2"), Some(Board::NiceNanoV2));
    assert_eq!(Board::from_name("blue-micro840"), Some(Board::BlueMicro840));
    assert_eq!(Board::from_name("nice_nano"), None);
    assert_eq!(Board::NiceNano.to_string(), "nice-nano");
    for name in chip_names() {
        assert_eq!(Chip::from_name(&name).map(|c| c.to_string()), Some(name.clone()));
    }
    assert_eq!(chip_names().len(), CHIP_COUNT);
    assert_eq!(board_names().len(), BOARD_COUNT);
}
