//! Registry of the supported boards and chip families.
//!
//! Every chip family has one entry: the 32-bit family identifier that tags
//! its UF2 images, its lower-case name, the firmware formats it lists and
//! whether it may serve as one half of a split keyboard.  Every board maps
//! to exactly one chip.

use vstd::prelude::*;

use crate::text::same_text;

verus! {

/// All known boards.
#[derive(Clone, Copy, Debug, PartialEq, Eq, Structural)]
pub enum Board {
    NrfMicro,
    BlueMicro840,
    PuchiBle,
    NiceNano,
    NiceNanoV2,
    XiaoBle,
    Liatris,
    EliteC,
    ProMicro,
}

/// All known chip families.
#[allow(non_camel_case_types)]
#[derive(Clone, Copy, Debug, PartialEq, Eq, Structural)]
pub enum Chip {
    AT32F415,
    ATMEGA32,
    BK7231N,
    BK7231U,
    BK7251,
    BL602,
    CH32V,
    CSK4,
    CSK6,
    ESP32,
    ESP32C2,
    ESP32C3,
    ESP32C5,
    ESP32C6,
    ESP32C61,
    ESP32H2,
    ESP32P4,
    ESP32S2,
    ESP32S3,
    ESP8266,
    FX2,
    GD32F350,
    GD32VF103,
    KL32L2,
    LPC55,
    M0SENSE,
    MIMXRT10XX,
    MaixPlayU4,
    NRF52,
    NRF52832xxAA,
    NRF52832xxAB,
    NRF52833,
    NRF52840,
    RA4M1,
    RP2040,
    Rp2350ArmNs,
    Rp2350ArmS,
    Rp2350Riscv,
    Rp2xxxAbsolute,
    Rp2xxxData,
    RTL8710A,
    RTL8710B,
    RTL8720C,
    RTL8720D,
    RZA1LU,
    SAMD21,
    SAMD51,
    SAML21,
    STM32F0,
    STM32F1,
    STM32F2,
    STM32F3,
    STM32F4,
    STM32F407,
    STM32F407VG,
    STM32F411xC,
    STM32F411xE,
    STM32F7,
    STM32G0,
    STM32G4,
    STM32H7,
    STM32L0,
    STM32L1,
    STM32L4,
    STM32L5,
    STM32WB,
    STM32WL,
    XR809,
}

/// Container formats of a firmware image.
#[derive(Clone, Copy, Debug, PartialEq, Eq, Structural)]
pub enum FirmwareFormat {
    Bin,
    Elf,
    Hex,
    Uf2,
}

/// Everything the registry knows of one chip family.
#[derive(Debug, Clone)]
pub struct ChipInfo {
    pub family_id: u32,
    pub name: String,
    pub firmware_formats: Vec<FirmwareFormat>,
    pub split_support: bool,
    pub chip: Chip,
}

/// Number of chip families in the registry.
pub const CHIP_COUNT: usize = 68;

/// Number of boards in the registry.
pub const BOARD_COUNT: usize = 9;

/// The chip that a board carries.
pub open spec fn board_chip(b: Board) -> Chip {
    match b {
        Board::NrfMicro => Chip::NRF52840,
        Board::BlueMicro840 => Chip::NRF52840,
        Board::PuchiBle => Chip::NRF52840,
        Board::NiceNano => Chip::NRF52840,
        Board::NiceNanoV2 => Chip::NRF52840,
        Board::XiaoBle => Chip::NRF52840,
        Board::Liatris => Chip::RP2040,
        Board::EliteC => Chip::ATMEGA32,
        Board::ProMicro => Chip::ATMEGA32,
    }
}

/// The name of a board, in kebab case.
pub open spec fn board_name(b: Board) -> Seq<char> {
    match b {
        Board::NrfMicro => "nrf-micro"@,
        Board::BlueMicro840 => "blue-micro840"@,
        Board::PuchiBle => "puchi-ble"@,
        Board::NiceNano => "nice-nano"@,
        Board::NiceNanoV2 => "nice-nano-v2"@,
        Board::XiaoBle => "xiao-ble"@,
        Board::Liatris => "liatris"@,
        Board::EliteC => "elite-c"@,
        Board::ProMicro => "pro-micro"@,
    }
}

/// Boards in declaration order.
pub open spec fn board_at(i: int) -> Board {
    if i == 0 {
        Board::NrfMicro
    } else if i == 1 {
        Board::BlueMicro840
    } else if i == 2 {
        Board::PuchiBle
    } else if i == 3 {
        Board::NiceNano
    } else if i == 4 {
        Board::NiceNanoV2
    } else if i == 5 {
        Board::XiaoBle
    } else if i == 6 {
        Board::Liatris
    } else if i == 7 {
        Board::EliteC
    } else {
        Board::ProMicro
    }
}

/// Position of a board in declaration order.
pub open spec fn board_index(b: Board) -> int {
    match b {
        Board::NrfMicro => 0,
        Board::BlueMicro840 => 1,
        Board::PuchiBle => 2,
        Board::NiceNano => 3,
        Board::NiceNanoV2 => 4,
        Board::XiaoBle => 5,
        Board::Liatris => 6,
        Board::EliteC => 7,
        Board::ProMicro => 8,
    }
}

/// Chips in declaration order.
pub open spec fn chip_at(i: int) -> Chip {
    if i == 0 {
        Chip::AT32F415
    } else if i == 1 {
        Chip::ATMEGA32
    } else if i == 2 {
        Chip::BK7231N
    } else if i == 3 {
        Chip::BK7231U
    } else if i == 4 {
        Chip::BK7251
    } else if i == 5 {
        Chip::BL602
    } else if i == 6 {
        Chip::CH32V
    } else if i == 7 {
        Chip::CSK4
    } else if i == 8 {
        Chip::CSK6
    } else if i == 9 {
        Chip::ESP32
    } else if i == 10 {
        Chip::ESP32C2
    } else if i == 11 {
        Chip::ESP32C3
    } else if i == 12 {
        Chip::ESP32C5
    } else if i == 13 {
        Chip::ESP32C6
    } else if i == 14 {
        Chip::ESP32C61
    } else if i == 15 {
        Chip::ESP32H2
    } else if i == 16 {
        Chip::ESP32P4
    } else if i == 17 {
        Chip::ESP32S2
    } else if i == 18 {
        Chip::ESP32S3
    } else if i == 19 {
        Chip::ESP8266
    } else if i == 20 {
        Chip::FX2
    } else if i == 21 {
        Chip::GD32F350
    } else if i == 22 {
        Chip::GD32VF103
    } else if i == 23 {
        Chip::KL32L2
    } else if i == 24 {
        Chip::LPC55
    } else if i == 25 {
        Chip::M0SENSE
    } else if i == 26 {
        Chip::MIMXRT10XX
    } else if i == 27 {
        Chip::MaixPlayU4
    } else if i == 28 {
        Chip::NRF52
    } else if i == 29 {
        Chip::NRF52832xxAA
    } else if i == 30 {
        Chip::NRF52832xxAB
    } else if i == 31 {
        Chip::NRF52833
    } else if i == 32 {
        Chip::NRF52840
    } else if i == 33 {
        Chip::RA4M1
    } else if i == 34 {
        Chip::RP2040
    } else if i == 35 {
        Chip::Rp2350ArmNs
    } else if i == 36 {
        Chip::Rp2350ArmS
    } else if i == 37 {
        Chip::Rp2350Riscv
    } else if i == 38 {
        Chip::Rp2xxxAbsolute
    } else if i == 39 {
        Chip::Rp2xxxData
    } else if i == 40 {
        Chip::RTL8710A
    } else if i == 41 {
        Chip::RTL8710B
    } else if i == 42 {
        Chip::RTL8720C
    } else if i == 43 {
        Chip::RTL8720D
    } else if i == 44 {
        Chip::RZA1LU
    } else if i == 45 {
        Chip::SAMD21
    } else if i == 46 {
        Chip::SAMD51
    } else if i == 47 {
        Chip::SAML21
    } else if i == 48 {
        Chip::STM32F0
    } else if i == 49 {
        Chip::STM32F1
    } else if i == 50 {
        Chip::STM32F2
    } else if i == 51 {
        Chip::STM32F3
    } else if i == 52 {
        Chip::STM32F4
    } else if i == 53 {
        Chip::STM32F407
    } else if i == 54 {
        Chip::STM32F407VG
    } else if i == 55 {
        Chip::STM32F411xC
    } else if i == 56 {
        Chip::STM32F411xE
    } else if i == 57 {
        Chip::STM32F7
    } else if i == 58 {
        Chip::STM32G0
    } else if i == 59 {
        Chip::STM32G4
    } else if i == 60 {
        Chip::STM32H7
    } else if i == 61 {
        Chip::STM32L0
    } else if i == 62 {
        Chip::STM32L1
    } else if i == 63 {
        Chip::STM32L4
    } else if i == 64 {
        Chip::STM32L5
    } else if i == 65 {
        Chip::STM32WB
    } else if i == 66 {
        Chip::STM32WL
    } else {
        Chip::XR809
    }
}

/// Position of a chip in declaration order.
pub open spec fn chip_index(c: Chip) -> int {
    match c {
        Chip::AT32F415 => 0,
        Chip::ATMEGA32 => 1,
        Chip::BK7231N => 2,
        Chip::BK7231U => 3,
        Chip::BK7251 => 4,
        Chip::BL602 => 5,
        Chip::CH32V => 6,
        Chip::CSK4 => 7,
        Chip::CSK6 => 8,
        Chip::ESP32 => 9,
        Chip::ESP32C2 => 10,
        Chip::ESP32C3 => 11,
        Chip::ESP32C5 => 12,
        Chip::ESP32C6 => 13,
        Chip::ESP32C61 => 14,
        Chip::ESP32H2 => 15,
        Chip::ESP32P4 => 16,
        Chip::ESP32S2 => 17,
        Chip::ESP32S3 => 18,
        Chip::ESP8266 => 19,
        Chip::FX2 => 20,
        Chip::GD32F350 => 21,
        Chip::GD32VF103 => 22,
        Chip::KL32L2 => 23,
        Chip::LPC55 => 24,
        Chip::M0SENSE => 25,
        Chip::MIMXRT10XX => 26,
        Chip::MaixPlayU4 => 27,
        Chip::NRF52 => 28,
        Chip::NRF52832xxAA => 29,
        Chip::NRF52832xxAB => 30,
        Chip::NRF52833 => 31,
        Chip::NRF52840 => 32,
        Chip::RA4M1 => 33,
        Chip::RP2040 => 34,
        Chip::Rp2350ArmNs => 35,
        Chip::Rp2350ArmS => 36,
        Chip::Rp2350Riscv => 37,
        Chip::Rp2xxxAbsolute => 38,
        Chip::Rp2xxxData => 39,
        Chip::RTL8710A => 40,
        Chip::RTL8710B => 41,
        Chip::RTL8720C => 42,
        Chip::RTL8720D => 43,
        Chip::RZA1LU => 44,
        Chip::SAMD21 => 45,
        Chip::SAMD51 => 46,
        Chip::SAML21 => 47,
        Chip::STM32F0 => 48,
        Chip::STM32F1 => 49,
        Chip::STM32F2 => 50,
        Chip::STM32F3 => 51,
        Chip::STM32F4 => 52,
        Chip::STM32F407 => 53,
        Chip::STM32F407VG => 54,
        Chip::STM32F411xC => 55,
        Chip::STM32F411xE => 56,
        Chip::STM32F7 => 57,
        Chip::STM32G0 => 58,
        Chip::STM32G4 => 59,
        Chip::STM32H7 => 60,
        Chip::STM32L0 => 61,
        Chip::STM32L1 => 62,
        Chip::STM32L4 => 63,
        Chip::STM32L5 => 64,
        Chip::STM32WB => 65,
        Chip::STM32WL => 66,
        Chip::XR809 => 67,
    }
}

/// The UF2 family identifier of a chip.
pub open spec fn chip_family_id(c: Chip) -> u32 {
    match c {
        Chip::AT32F415 => 0xa0c97b8e,
        Chip::ATMEGA32 => 0x16573617,
        Chip::BK7231N => 0x7b3ef230,
        Chip::BK7231U => 0x675a40b0,
        Chip::BK7251 => 0x6a82cc42,
        Chip::BL602 => 0xde1270b7,
        Chip::CH32V => 0x699b62ec,
        Chip::CSK4 => 0x4f6ace52,
        Chip::CSK6 => 0x6e7348a8,
        Chip::ESP32 => 0x1c5f21b0,
        Chip::ESP32C2 => 0x2b88d29c,
        Chip::ESP32C3 => 0xd42ba06c,
        Chip::ESP32C5 => 0xf71c0343,
        Chip::ESP32C6 => 0x540ddf62,
        Chip::ESP32C61 => 0x77d850c4,
        Chip::ESP32H2 => 0x332726f6,
        Chip::ESP32P4 => 0x3d308e94,
        Chip::ESP32S2 => 0xbfdd4eee,
        Chip::ESP32S3 => 0xc47e5767,
        Chip::ESP8266 => 0x7eab61ed,
        Chip::FX2 => 0x5a18069b,
        Chip::GD32F350 => 0x31d228c6,
        Chip::GD32VF103 => 0x9af03e33,
        Chip::KL32L2 => 0x7f83e793,
        Chip::LPC55 => 0x2abc77ec,
        Chip::M0SENSE => 0x11de784a,
        Chip::MIMXRT10XX => 0x4fb2d5bd,
        Chip::MaixPlayU4 => 0x4b684d71,
        Chip::NRF52 => 0x1b57745f,
        Chip::NRF52832xxAA => 0x72721d4e,
        Chip::NRF52832xxAB => 0x6f752678,
        Chip::NRF52833 => 0x621e937a,
        Chip::NRF52840 => 0xada52840,
        Chip::RA4M1 => 0x7be8976d,
        Chip::RP2040 => 0xe48bff56,
        Chip::Rp2350ArmNs => 0xe48bff5b,
        Chip::Rp2350ArmS => 0xe48bff59,
        Chip::Rp2350Riscv => 0xe48bff5a,
        Chip::Rp2xxxAbsolute => 0xe48bff57,
        Chip::Rp2xxxData => 0xe48bff58,
        Chip::RTL8710A => 0x9fffd543,
        Chip::RTL8710B => 0x22e0d6fc,
        Chip::RTL8720C => 0xe08f7564,
        Chip::RTL8720D => 0x3379cfe2,
        Chip::RZA1LU => 0x9517422f,
        Chip::SAMD21 => 0x68ed2b88,
        Chip::SAMD51 => 0x55114460,
        Chip::SAML21 => 0x1851780a,
        Chip::STM32F0 => 0x647824b6,
        Chip::STM32F1 => 0x5ee21072,
        Chip::STM32F2 => 0x5d1a0a2e,
        Chip::STM32F3 => 0x6b846188,
        Chip::STM32F4 => 0x57755a57,
        Chip::STM32F407 => 0x6d0922fa,
        Chip::STM32F407VG => 0x8fb060fe,
        Chip::STM32F411xC => 0x06d1097b,
        Chip::STM32F411xE => 0x2dc309c5,
        Chip::STM32F7 => 0x53b80f00,
        Chip::STM32G0 => 0x300f5633,
        Chip::STM32G4 => 0x4c71240a,
        Chip::STM32H7 => 0x6db66082,
        Chip::STM32L0 => 0x202e3a91,
        Chip::STM32L1 => 0x1e1f432d,
        Chip::STM32L4 => 0x00ff6919,
        Chip::STM32L5 => 0x04240bdf,
        Chip::STM32WB => 0x70d16653,
        Chip::STM32WL => 0x21460ff0,
        Chip::XR809 => 0x51e903a8,
    }
}

/// The chip whose family identifier is `id`, if any.
pub open spec fn chip_of_family_id(id: u32) -> Option<Chip> {
    if id == 0xa0c97b8e {
        Some(Chip::AT32F415)
    } else if id == 0x16573617 {
        Some(Chip::ATMEGA32)
    } else if id == 0x7b3ef230 {
        Some(Chip::BK7231N)
    } else if id == 0x675a40b0 {
        Some(Chip::BK7231U)
    } else if id == 0x6a82cc42 {
        Some(Chip::BK7251)
    } else if id == 0xde1270b7 {
        Some(Chip::BL602)
    } else if id == 0x699b62ec {
        Some(Chip::CH32V)
    } else if id == 0x4f6ace52 {
        Some(Chip::CSK4)
    } else if id == 0x6e7348a8 {
        Some(Chip::CSK6)
    } else if id == 0x1c5f21b0 {
        Some(Chip::ESP32)
    } else if id == 0x2b88d29c {
        Some(Chip::ESP32C2)
    } else if id == 0xd42ba06c {
        Some(Chip::ESP32C3)
    } else if id == 0xf71c0343 {
        Some(Chip::ESP32C5)
    } else if id == 0x540ddf62 {
        Some(Chip::ESP32C6)
    } else if id == 0x77d850c4 {
        Some(Chip::ESP32C61)
    } else if id == 0x332726f6 {
        Some(Chip::ESP32H2)
    } else if id == 0x3d308e94 {
        Some(Chip::ESP32P4)
    } else if id == 0xbfdd4eee {
        Some(Chip::ESP32S2)
    } else if id == 0xc47e5767 {
        Some(Chip::ESP32S3)
    } else if id == 0x7eab61ed {
        Some(Chip::ESP8266)
    } else if id == 0x5a18069b {
        Some(Chip::FX2)
    } else if id == 0x31d228c6 {
        Some(Chip::GD32F350)
    } else if id == 0x9af03e33 {
        Some(Chip::GD32VF103)
    } else if id == 0x7f83e793 {
        Some(Chip::KL32L2)
    } else if id == 0x2abc77ec {
        Some(Chip::LPC55)
    } else if id == 0x11de784a {
        Some(Chip::M0SENSE)
    } else if id == 0x4fb2d5bd {
        Some(Chip::MIMXRT10XX)
    } else if id == 0x4b684d71 {
        Some(Chip::MaixPlayU4)
    } else if id == 0x1b57745f {
        Some(Chip::NRF52)
    } else if id == 0x72721d4e {
        Some(Chip::NRF52832xxAA)
    } else if id == 0x6f752678 {
        Some(Chip::NRF52832xxAB)
    } else if id == 0x621e937a {
        Some(Chip::NRF52833)
    } else if id == 0xada52840 {
        Some(Chip::NRF52840)
    } else if id == 0x7be8976d {
        Some(Chip::RA4M1)
    } else if id == 0xe48bff56 {
        Some(Chip::RP2040)
    } else if id == 0xe48bff5b {
        Some(Chip::Rp2350ArmNs)
    } else if id == 0xe48bff59 {
        Some(Chip::Rp2350ArmS)
    } else if id == 0xe48bff5a {
        Some(Chip::Rp2350Riscv)
    } else if id == 0xe48bff57 {
        Some(Chip::Rp2xxxAbsolute)
    } else if id == 0xe48bff58 {
        Some(Chip::Rp2xxxData)
    } else if id == 0x9fffd543 {
        Some(Chip::RTL8710A)
    } else if id == 0x22e0d6fc {
        Some(Chip::RTL8710B)
    } else if id == 0xe08f7564 {
        Some(Chip::RTL8720C)
    } else if id == 0x3379cfe2 {
        Some(Chip::RTL8720D)
    } else if id == 0x9517422f {
        Some(Chip::RZA1LU)
    } else if id == 0x68ed2b88 {
        Some(Chip::SAMD21)
    } else if id == 0x55114460 {
        Some(Chip::SAMD51)
    } else if id == 0x1851780a {
        Some(Chip::SAML21)
    } else if id == 0x647824b6 {
        Some(Chip::STM32F0)
    } else if id == 0x5ee21072 {
        Some(Chip::STM32F1)
    } else if id == 0x5d1a0a2e {
        Some(Chip::STM32F2)
    } else if id == 0x6b846188 {
        Some(Chip::STM32F3)
    } else if id == 0x57755a57 {
        Some(Chip::STM32F4)
    } else if id == 0x6d0922fa {
        Some(Chip::STM32F407)
    } else if id == 0x8fb060fe {
        Some(Chip::STM32F407VG)
    } else if id == 0x06d1097b {
        Some(Chip::STM32F411xC)
    } else if id == 0x2dc309c5 {
        Some(Chip::STM32F411xE)
    } else if id == 0x53b80f00 {
        Some(Chip::STM32F7)
    } else if id == 0x300f5633 {
        Some(Chip::STM32G0)
    } else if id == 0x4c71240a {
        Some(Chip::STM32G4)
    } else if id == 0x6db66082 {
        Some(Chip::STM32H7)
    } else if id == 0x202e3a91 {
        Some(Chip::STM32L0)
    } else if id == 0x1e1f432d {
        Some(Chip::STM32L1)
    } else if id == 0x00ff6919 {
        Some(Chip::STM32L4)
    } else if id == 0x04240bdf {
        Some(Chip::STM32L5)
    } else if id == 0x70d16653 {
        Some(Chip::STM32WB)
    } else if id == 0x21460ff0 {
        Some(Chip::STM32WL)
    } else if id == 0x51e903a8 {
        Some(Chip::XR809)
    } else {
        None
    }
}

/// The name of a chip, in lower case.
pub open spec fn chip_name(c: Chip) -> Seq<char> {
    match c {
        Chip::AT32F415 => "at32f415"@,
        Chip::ATMEGA32 => "atmega32"@,
        Chip::BK7231N => "bk7231n"@,
        Chip::BK7231U => "bk7231u"@,
        Chip::BK7251 => "bk7251"@,
        Chip::BL602 => "bl602"@,
        Chip::CH32V => "ch32v"@,
        Chip::CSK4 => "csk4"@,
        Chip::CSK6 => "csk6"@,
        Chip::ESP32 => "esp32"@,
        Chip::ESP32C2 => "esp32c2"@,
        Chip::ESP32C3 => "esp32c3"@,
        Chip::ESP32C5 => "esp32c5"@,
        Chip::ESP32C6 => "esp32c6"@,
        Chip::ESP32C61 => "esp32c61"@,
        Chip::ESP32H2 => "esp32h2"@,
        Chip::ESP32P4 => "esp32p4"@,
        Chip::ESP32S2 => "esp32s2"@,
        Chip::ESP32S3 => "esp32s3"@,
        Chip::ESP8266 => "esp8266"@,
        Chip::FX2 => "fx2"@,
        Chip::GD32F350 => "gd32f350"@,
        Chip::GD32VF103 => "gd32vf103"@,
        Chip::KL32L2 => "kl32l2"@,
        Chip::LPC55 => "lpc55"@,
        Chip::M0SENSE => "m0sense"@,
        Chip::MIMXRT10XX => "mimxrt10xx"@,
        Chip::MaixPlayU4 => "maixplayu4"@,
        Chip::NRF52 => "nrf52"@,
        Chip::NRF52832xxAA => "nrf52832xxaa"@,
        Chip::NRF52832xxAB => "nrf52832xxab"@,
        Chip::NRF52833 => "nrf52833"@,
        Chip::NRF52840 => "nrf52840"@,
        Chip::RA4M1 => "ra4m1"@,
        Chip::RP2040 => "rp2040"@,
        Chip::Rp2350ArmNs => "rp2350armns"@,
        Chip::Rp2350ArmS => "rp2350arms"@,
        Chip::Rp2350Riscv => "rp2350riscv"@,
        Chip::Rp2xxxAbsolute => "rp2xxxabsolute"@,
        Chip::Rp2xxxData => "rp2xxxdata"@,
        Chip::RTL8710A => "rtl8710a"@,
        Chip::RTL8710B => "rtl8710b"@,
        Chip::RTL8720C => "rtl8720c"@,
        Chip::RTL8720D => "rtl8720d"@,
        Chip::RZA1LU => "rza1lu"@,
        Chip::SAMD21 => "samd21"@,
        Chip::SAMD51 => "samd51"@,
        Chip::SAML21 => "saml21"@,
        Chip::STM32F0 => "stm32f0"@,
        Chip::STM32F1 => "stm32f1"@,
        Chip::STM32F2 => "stm32f2"@,
        Chip::STM32F3 => "stm32f3"@,
        Chip::STM32F4 => "stm32f4"@,
        Chip::STM32F407 => "stm32f407"@,
        Chip::STM32F407VG => "stm32f407vg"@,
        Chip::STM32F411xC => "stm32f411xc"@,
        Chip::STM32F411xE => "stm32f411xe"@,
        Chip::STM32F7 => "stm32f7"@,
        Chip::STM32G0 => "stm32g0"@,
        Chip::STM32G4 => "stm32g4"@,
        Chip::STM32H7 => "stm32h7"@,
        Chip::STM32L0 => "stm32l0"@,
        Chip::STM32L1 => "stm32l1"@,
        Chip::STM32L4 => "stm32l4"@,
        Chip::STM32L5 => "stm32l5"@,
        Chip::STM32WB => "stm32wb"@,
        Chip::STM32WL => "stm32wl"@,
        Chip::XR809 => "xr809"@,
    }
}

/// Whether a chip may act as one half of a split keyboard.
pub open spec fn chip_split_support(c: Chip) -> bool {
    c == Chip::NRF52840 || c == Chip::RP2040
}

/// The firmware formats that the registry lists for a chip.
pub open spec fn chip_formats(c: Chip) -> Seq<FirmwareFormat> {
    Seq::empty()
}

/// `info` is the registry entry of `c`.
pub open spec fn is_info_of(info: ChipInfo, c: Chip) -> bool {
    &&& info.chip == c
    &&& info.family_id == chip_family_id(c)
    &&& info.name@ == chip_name(c)
    &&& info.firmware_formats@ == chip_formats(c)
    &&& info.split_support == chip_split_support(c)
}

/// Returns the chip that a board carries.
pub fn get_chip(board: &Board) -> (r: Chip)
    ensures
        r == board_chip(*board),
{
    match board {
        Board::NrfMicro
        | Board::BlueMicro840
        | Board::PuchiBle
        | Board::NiceNano
        | Board::NiceNanoV2
        | Board::XiaoBle => Chip::NRF52840,
        Board::Liatris => Chip::RP2040,
        Board::EliteC | Board::ProMicro => Chip::ATMEGA32,
    }
}

impl Board {
    /// The board's name in kebab case.
    pub fn to_string(&self) -> (r: String)
        ensures
            r@ == board_name(*self),
    {
        match self {
            Board::NrfMicro => String::from_str("nrf-micro"),
            Board::BlueMicro840 => String::from_str("blue-micro840"),
            Board::PuchiBle => String::from_str("puchi-ble"),
            Board::NiceNano => String::from_str("nice-nano"),
            Board::NiceNanoV2 => String::from_str("nice-nano-v2"),
            Board::XiaoBle => String::from_str("xiao-ble"),
            Board::Liatris => String::from_str("liatris"),
            Board::EliteC => String::from_str("elite-c"),
            Board::ProMicro => String::from_str("pro-micro"),
        }
    }
}

impl Chip {
    /// The chip's name in lower case.
    pub fn to_string(&self) -> (r: String)
        ensures
            r@ == chip_name(*self),
    {
        match self {
            Chip::AT32F415 => String::from_str("at32f415"),
            Chip::ATMEGA32 => String::from_str("atmega32"),
            Chip::BK7231N => String::from_str("bk7231n"),
            Chip::BK7231U => String::from_str("bk7231u"),
            Chip::BK7251 => String::from_str("bk7251"),
            Chip::BL602 => String::from_str("bl602"),
            Chip::CH32V => String::from_str("ch32v"),
            Chip::CSK4 => String::from_str("csk4"),
            Chip::CSK6 => String::from_str("csk6"),
            Chip::ESP32 => String::from_str("esp32"),
            Chip::ESP32C2 => String::from_str("esp32c2"),
            Chip::ESP32C3 => String::from_str("esp32c3"),
            Chip::ESP32C5 => String::from_str("esp32c5"),
            Chip::ESP32C6 => String::from_str("esp32c6"),
            Chip::ESP32C61 => String::from_str("esp32c61"),
            Chip::ESP32H2 => String::from_str("esp32h2"),
            Chip::ESP32P4 => String::from_str("esp32p4"),
            Chip::ESP32S2 => String::from_str("esp32s2"),
            Chip::ESP32S3 => String::from_str("esp32s3"),
            Chip::ESP8266 => String::from_str("esp8266"),
            Chip::FX2 => String::from_str("fx2"),
            Chip::GD32F350 => String::from_str("gd32f350"),
            Chip::GD32VF103 => String::from_str("gd32vf103"),
            Chip::KL32L2 => String::from_str("kl32l2"),
            Chip::LPC55 => String::from_str("lpc55"),
            Chip::M0SENSE => String::from_str("m0sense"),
            Chip::MIMXRT10XX => String::from_str("mimxrt10xx"),
            Chip::MaixPlayU4 => String::from_str("maixplayu4"),
            Chip::NRF52 => String::from_str("nrf52"),
            Chip::NRF52832xxAA => String::from_str("nrf52832xxaa"),
            Chip::NRF52832xxAB => String::from_str("nrf52832xxab"),
            Chip::NRF52833 => String::from_str("nrf52833"),
            Chip::NRF52840 => String::from_str("nrf52840"),
            Chip::RA4M1 => String::from_str("ra4m1"),
            Chip::RP2040 => String::from_str("rp2040"),
            Chip::Rp2350ArmNs => String::from_str("rp2350armns"),
            Chip::Rp2350ArmS => String::from_str("rp2350arms"),
            Chip::Rp2350Riscv => String::from_str("rp2350riscv"),
            Chip::Rp2xxxAbsolute => String::from_str("rp2xxxabsolute"),
            Chip::Rp2xxxData => String::from_str("rp2xxxdata"),
            Chip::RTL8710A => String::from_str("rtl8710a"),
            Chip::RTL8710B => String::from_str("rtl8710b"),
            Chip::RTL8720C => String::from_str("rtl8720c"),
            Chip::RTL8720D => String::from_str("rtl8720d"),
            Chip::RZA1LU => String::from_str("rza1lu"),
            Chip::SAMD21 => String::from_str("samd21"),
            Chip::SAMD51 => String::from_str("samd51"),
            Chip::SAML21 => String::from_str("saml21"),
            Chip::STM32F0 => String::from_str("stm32f0"),
            Chip::STM32F1 => String::from_str("stm32f1"),
            Chip::STM32F2 => String::from_str("stm32f2"),
            Chip::STM32F3 => String::from_str("stm32f3"),
            Chip::STM32F4 => String::from_str("stm32f4"),
            Chip::STM32F407 => String::from_str("stm32f407"),
            Chip::STM32F407VG => String::from_str("stm32f407vg"),
            Chip::STM32F411xC => String::from_str("stm32f411xc"),
            Chip::STM32F411xE => String::from_str("stm32f411xe"),
            Chip::STM32F7 => String::from_str("stm32f7"),
            Chip::STM32G0 => String::from_str("stm32g0"),
            Chip::STM32G4 => String::from_str("stm32g4"),
            Chip::STM32H7 => String::from_str("stm32h7"),
            Chip::STM32L0 => String::from_str("stm32l0"),
            Chip::STM32L1 => String::from_str("stm32l1"),
            Chip::STM32L4 => String::from_str("stm32l4"),
            Chip::STM32L5 => String::from_str("stm32l5"),
            Chip::STM32WB => String::from_str("stm32wb"),
            Chip::STM32WL => String::from_str("stm32wl"),
            Chip::XR809 => String::from_str("xr809"),
        }
    }
}

/// The family identifier of a chip.
pub fn family_id_of(c: &Chip) -> (r: u32)
    ensures
        r == chip_family_id(*c),
{
    match c {
        Chip::AT32F415 => 0xa0c97b8e,
        Chip::ATMEGA32 => 0x16573617,
        Chip::BK7231N => 0x7b3ef230,
        Chip::BK7231U => 0x675a40b0,
        Chip::BK7251 => 0x6a82cc42,
        Chip::BL602 => 0xde1270b7,
        Chip::CH32V => 0x699b62ec,
        Chip::CSK4 => 0x4f6ace52,
        Chip::CSK6 => 0x6e7348a8,
        Chip::ESP32 => 0x1c5f21b0,
        Chip::ESP32C2 => 0x2b88d29c,
        Chip::ESP32C3 => 0xd42ba06c,
        Chip::ESP32C5 => 0xf71c0343,
        Chip::ESP32C6 => 0x540ddf62,
        Chip::ESP32C61 => 0x77d850c4,
        Chip::ESP32H2 => 0x332726f6,
        Chip::ESP32P4 => 0x3d308e94,
        Chip::ESP32S2 => 0xbfdd4eee,
        Chip::ESP32S3 => 0xc47e5767,
        Chip::ESP8266 => 0x7eab61ed,
        Chip::FX2 => 0x5a18069b,
        Chip::GD32F350 => 0x31d228c6,
        Chip::GD32VF103 => 0x9af03e33,
        Chip::KL32L2 => 0x7f83e793,
        Chip::LPC55 => 0x2abc77ec,
        Chip::M0SENSE => 0x11de784a,
        Chip::MIMXRT10XX => 0x4fb2d5bd,
        Chip::MaixPlayU4 => 0x4b684d71,
        Chip::NRF52 => 0x1b57745f,
        Chip::NRF52832xxAA => 0x72721d4e,
        Chip::NRF52832xxAB => 0x6f752678,
        Chip::NRF52833 => 0x621e937a,
        Chip::NRF52840 => 0xada52840,
        Chip::RA4M1 => 0x7be8976d,
        Chip::RP2040 => 0xe48bff56,
        Chip::Rp2350ArmNs => 0xe48bff5b,
        Chip::Rp2350ArmS => 0xe48bff59,
        Chip::Rp2350Riscv => 0xe48bff5a,
        Chip::Rp2xxxAbsolute => 0xe48bff57,
        Chip::Rp2xxxData => 0xe48bff58,
        Chip::RTL8710A => 0x9fffd543,
        Chip::RTL8710B => 0x22e0d6fc,
        Chip::RTL8720C => 0xe08f7564,
        Chip::RTL8720D => 0x3379cfe2,
        Chip::RZA1LU => 0x9517422f,
        Chip::SAMD21 => 0x68ed2b88,
        Chip::SAMD51 => 0x55114460,
        Chip::SAML21 => 0x1851780a,
        Chip::STM32F0 => 0x647824b6,
        Chip::STM32F1 => 0x5ee21072,
        Chip::STM32F2 => 0x5d1a0a2e,
        Chip::STM32F3 => 0x6b846188,
        Chip::STM32F4 => 0x57755a57,
        Chip::STM32F407 => 0x6d0922fa,
        Chip::STM32F407VG => 0x8fb060fe,
        Chip::STM32F411xC => 0x06d1097b,
        Chip::STM32F411xE => 0x2dc309c5,
        Chip::STM32F7 => 0x53b80f00,
        Chip::STM32G0 => 0x300f5633,
        Chip::STM32G4 => 0x4c71240a,
        Chip::STM32H7 => 0x6db66082,
        Chip::STM32L0 => 0x202e3a91,
        Chip::STM32L1 => 0x1e1f432d,
        Chip::STM32L4 => 0x00ff6919,
        Chip::STM32L5 => 0x04240bdf,
        Chip::STM32WB => 0x70d16653,
        Chip::STM32WL => 0x21460ff0,
        Chip::XR809 => 0x51e903a8,
    }
}

/// Returns the registry entry of a chip family.
pub fn get_info(family: &Chip) -> (r: ChipInfo)
    ensures
        is_info_of(r, *family),
{
    let split_support = match family {
        Chip::NRF52840 | Chip::RP2040 => true,
        _ => false,
    };
    ChipInfo {
        family_id: family_id_of(family),
        name: family.to_string(),
        firmware_formats: Vec::new(),
        split_support,
        chip: *family,
    }
}

/// Each chip sits at its own position in declaration order.
pub proof fn lemma_chip_index(c: Chip)
    ensures
        0 <= chip_index(c) < CHIP_COUNT,
        chip_at(chip_index(c)) == c,
{
}

/// Distinct positions hold distinct chips.
proof fn lemma_chip_at_injective()
    ensures
        forall|i: int| 0 <= i < CHIP_COUNT ==> #[trigger] chip_index(chip_at(i)) == i,
{
}

/// Each board sits at its own position in declaration order.
proof fn lemma_board_index(b: Board)
    ensures
        0 <= board_index(b) < BOARD_COUNT,
        board_at(board_index(b)) == b,
{
}

/// A family identifier names at most one chip.
proof fn lemma_family_id_identifies(c: Chip)
    ensures
        chip_of_family_id(chip_family_id(c)) == Some(c),
{
}

/// No two chip families share a family identifier.
pub proof fn lemma_family_ids_distinct(a: Chip, b: Chip)
    requires
        a != b,
    ensures
        chip_family_id(a) != chip_family_id(b),
{
    lemma_family_id_identifies(a);
    lemma_family_id_identifies(b);
}

/// The board lookup is a function of the board alone: equal boards give the
/// same chip, and every board gives a chip of the registry.
pub proof fn lemma_board_lookup_deterministic(a: Board, b: Board)
    requires
        a == b,
    ensures
        board_chip(a) == board_chip(b),
        0 <= chip_index(board_chip(a)) < CHIP_COUNT,
{
    lemma_chip_index(board_chip(a));
}

/// All chips, in declaration order.
pub fn chip_variants() -> (r: Vec<Chip>)
    ensures
        r@.len() == CHIP_COUNT,
        forall|i: int| 0 <= i < CHIP_COUNT ==> r@[i] == chip_at(i),
{
    let mut v: Vec<Chip> = Vec::new();
    v.push(Chip::AT32F415);
    v.push(Chip::ATMEGA32);
    v.push(Chip::BK7231N);
    v.push(Chip::BK7231U);
    v.push(Chip::BK7251);
    v.push(Chip::BL602);
    v.push(Chip::CH32V);
    v.push(Chip::CSK4);
    v.push(Chip::CSK6);
    v.push(Chip::ESP32);
    v.push(Chip::ESP32C2);
    v.push(Chip::ESP32C3);
    v.push(Chip::ESP32C5);
    v.push(Chip::ESP32C6);
    v.push(Chip::ESP32C61);
    v.push(Chip::ESP32H2);
    v.push(Chip::ESP32P4);
    v.push(Chip::ESP32S2);
    v.push(Chip::ESP32S3);
    v.push(Chip::ESP8266);
    v.push(Chip::FX2);
    v.push(Chip::GD32F350);
    v.push(Chip::GD32VF103);
    v.push(Chip::KL32L2);
    v.push(Chip::LPC55);
    v.push(Chip::M0SENSE);
    v.push(Chip::MIMXRT10XX);
    v.push(Chip::MaixPlayU4);
    v.push(Chip::NRF52);
    v.push(Chip::NRF52832xxAA);
    v.push(Chip::NRF52832xxAB);
    v.push(Chip::NRF52833);
    v.push(Chip::NRF52840);
    v.push(Chip::RA4M1);
    v.push(Chip::RP2040);
    v.push(Chip::Rp2350ArmNs);
    v.push(Chip::Rp2350ArmS);
    v.push(Chip::Rp2350Riscv);
    v.push(Chip::Rp2xxxAbsolute);
    v.push(Chip::Rp2xxxData);
    v.push(Chip::RTL8710A);
    v.push(Chip::RTL8710B);
    v.push(Chip::RTL8720C);
    v.push(Chip::RTL8720D);
    v.push(Chip::RZA1LU);
    v.push(Chip::SAMD21);
    v.push(Chip::SAMD51);
    v.push(Chip::SAML21);
    v.push(Chip::STM32F0);
    v.push(Chip::STM32F1);
    v.push(Chip::STM32F2);
    v.push(Chip::STM32F3);
    v.push(Chip::STM32F4);
    v.push(Chip::STM32F407);
    v.push(Chip::STM32F407VG);
    v.push(Chip::STM32F411xC);
    v.push(Chip::STM32F411xE);
    v.push(Chip::STM32F7);
    v.push(Chip::STM32G0);
    v.push(Chip::STM32G4);
    v.push(Chip::STM32H7);
    v.push(Chip::STM32L0);
    v.push(Chip::STM32L1);
    v.push(Chip::STM32L4);
    v.push(Chip::STM32L5);
    v.push(Chip::STM32WB);
    v.push(Chip::STM32WL);
    v.push(Chip::XR809);
    assert(v@ =~= Seq::new(CHIP_COUNT as nat, |i: int| chip_at(i)));
    v
}

/// All boards, in declaration order.
pub fn board_variants() -> (r: Vec<Board>)
    ensures
        r@.len() == BOARD_COUNT,
        forall|i: int| 0 <= i < BOARD_COUNT ==> r@[i] == board_at(i),
{
    let mut v: Vec<Board> = Vec::new();
    v.push(Board::NrfMicro);
    v.push(Board::BlueMicro840);
    v.push(Board::PuchiBle);
    v.push(Board::NiceNano);
    v.push(Board::NiceNanoV2);
    v.push(Board::XiaoBle);
    v.push(Board::Liatris);
    v.push(Board::EliteC);
    v.push(Board::ProMicro);
    assert(v@ =~= Seq::new(BOARD_COUNT as nat, |i: int| board_at(i)));
    v
}

/// Returns the registry entries of all chip families, in declaration order.
/// Every chip has exactly one entry, and no two entries share a family
/// identifier.
pub fn get_all_chip_info() -> (r: Vec<ChipInfo>)
    ensures
        r@.len() == CHIP_COUNT,
        forall|i: int| 0 <= i < r@.len() ==> is_info_of(#[trigger] r@[i], chip_at(i)),
        forall|c: Chip| #[trigger] chip_index(c) < r@.len() && r@[chip_index(c)].chip == c,
        forall|i: int, j: int|
            0 <= i < r@.len() && 0 <= j < r@.len() && i != j ==> r@[i].family_id
                != r@[j].family_id,
{
    let variants = chip_variants();
    let mut r: Vec<ChipInfo> = Vec::new();
    let mut k: usize = 0;
    while k < variants.len()
        invariant
            variants@.len() == CHIP_COUNT,
            forall|i: int| 0 <= i < CHIP_COUNT ==> variants@[i] == chip_at(i),
            k <= variants@.len(),
            r@.len() == k,
            forall|i: int| 0 <= i < k ==> is_info_of(#[trigger] r@[i], chip_at(i)),
        decreases variants.len() - k,
    {
        r.push(get_info(&variants[k]));
        k = k + 1;
    }
    proof {
        assert forall|c: Chip| #[trigger] chip_index(c) < r@.len() && r@[chip_index(c)].chip == c by {
            lemma_chip_index(c);
        }
        lemma_chip_at_injective();
        assert forall|i: int, j: int|
            0 <= i < r@.len() && 0 <= j < r@.len() && i != j implies r@[i].family_id
                != r@[j].family_id by {
            assert(chip_index(chip_at(i)) == i);
            assert(chip_index(chip_at(j)) == j);
            lemma_family_ids_distinct(chip_at(i), chip_at(j));
        }
    }
    r
}

impl Chip {
    /// The chip whose lower-case name is `s`, if any.
    pub fn from_name(s: &str) -> (r: Option<Chip>)
        ensures
            r matches Some(c) ==> chip_name(c) == s@,
            r is None ==> forall|c: Chip| chip_name(c) != s@,
    {
        let variants = chip_variants();
        let mut k: usize = 0;
        while k < variants.len()
            invariant
                variants@.len() == CHIP_COUNT,
                forall|i: int| 0 <= i < CHIP_COUNT ==> variants@[i] == chip_at(i),
                k <= variants@.len(),
                forall|i: int| 0 <= i < k ==> chip_name(#[trigger] chip_at(i)) != s@,
            decreases variants.len() - k,
        {
            let name = variants[k].to_string();
            if same_text(name.as_str(), s) {
                return Some(variants[k]);
            }
            k = k + 1;
        }
        proof {
            assert forall|c: Chip| chip_name(c) != s@ by {
                lemma_chip_index(c);
                assert(chip_name(chip_at(chip_index(c))) != s@);
            }
        }
        None
    }
}

impl Board {
    /// The board whose kebab-case name is `s`, if any.
    pub fn from_name(s: &str) -> (r: Option<Board>)
        ensures
            r matches Some(b) ==> board_name(b) == s@,
            r is None ==> forall|b: Board| board_name(b) != s@,
    {
        let variants = board_variants();
        let mut k: usize = 0;
        while k < variants.len()
            invariant
                variants@.len() == BOARD_COUNT,
                forall|i: int| 0 <= i < BOARD_COUNT ==> variants@[i] == board_at(i),
                k <= variants@.len(),
                forall|i: int| 0 <= i < k ==> board_name(#[trigger] board_at(i)) != s@,
            decreases variants.len() - k,
        {
            let name = variants[k].to_string();
            if same_text(name.as_str(), s) {
                return Some(variants[k]);
            }
            k = k + 1;
        }
        proof {
            assert forall|b: Board| board_name(b) != s@ by {
                lemma_board_index(b);
                assert(board_name(board_at(board_index(b))) != s@);
            }
        }
        None
    }
}

/// The names of all chips, in declaration order.
pub fn chip_names() -> (r: Vec<String>)
    ensures
        r@.len() == CHIP_COUNT,
        forall|i: int| 0 <= i < CHIP_COUNT ==> (#[trigger] r@[i])@ == chip_name(chip_at(i)),
{
    let variants = chip_variants();
    let mut r: Vec<String> = Vec::new();
    let mut k: usize = 0;
    while k < variants.len()
        invariant
            variants@.len() == CHIP_COUNT,
            forall|i: int| 0 <= i < CHIP_COUNT ==> variants@[i] == chip_at(i),
            k <= variants@.len(),
            r@.len() == k,
            forall|i: int| 0 <= i < k ==> (#[trigger] r@[i])@ == chip_name(chip_at(i)),
        decreases variants.len() - k,
    {
        r.push(variants[k].to_string());
        k = k + 1;
    }
    r
}

/// The names of all boards, in declaration order.
pub fn board_names() -> (r: Vec<String>)
    ensures
        r@.len() == BOARD_COUNT,
        forall|i: int| 0 <= i < BOARD_COUNT ==> (#[trigger] r@[i])@ == board_name(board_at(i)),
{
    let variants = board_variants();
    let mut r: Vec<String> = Vec::new();
    let mut k: usize = 0;
    while k < variants.len()
        invariant
            variants@.len() == BOARD_COUNT,
            forall|i: int| 0 <= i < BOARD_COUNT ==> variants@[i] == board_at(i),
            k <= variants@.len(),
            r@.len() == k,
            forall|i: int| 0 <= i < k ==> (#[trigger] r@[i])@ == board_name(board_at(i)),
        decreases variants.len() - k,
    {
        r.push(variants[k].to_string());
        k = k + 1;
    }
    r
}

/// The name of a firmware format, in lower case.
pub open spec fn format_name(f: FirmwareFormat) -> Seq<char> {
    match f {
        FirmwareFormat::Bin => "bin"@,
        FirmwareFormat::Elf => "elf"@,
        FirmwareFormat::Hex => "hex"@,
        FirmwareFormat::Uf2 => "uf2"@,
    }
}

impl FirmwareFormat {
    /// The format's name in lower case.
    pub fn to_string(&self) -> (r: String)
        ensures
            r@ == format_name(*self),
    {
        match self {
            FirmwareFormat::Bin => String::from_str("bin"),
            FirmwareFormat::Elf => String::from_str("elf"),
            FirmwareFormat::Hex => String::from_str("hex"),
            FirmwareFormat::Uf2 => String::from_str("uf2"),
        }
    }
}

} // verus!
