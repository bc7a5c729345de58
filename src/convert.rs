//! Conversion of a compiled artifact into the firmware image a bootloader
//! takes: the plan of converter stages, and the UF2 packing of Intel HEX.

use vstd::prelude::*;

use hex_to_uf2::families::ChipFamily;

use crate::artifact::{verbosity_args, verbosity_arguments};
use crate::chips::{chip_family_id, Chip, ChipInfo, FirmwareFormat};
use crate::text::{join3, views};

verus! {

/// The chip families of the UF2 packer, hex_to_uf2::families::ChipFamily: a
/// plain enum whose variants the library names to choose the family tag.
#[verifier::external_type_specification]
pub struct ExChipFamily(ChipFamily);

/// Why an artifact could not be converted.
#[derive(Clone, Debug, PartialEq, Eq)]
pub enum ConvertError {
    /// The object copier cannot write this format.
    UnsupportedObjcopyFormat,
    /// A record of the Intel HEX input is malformed or out of range.
    InvalidHex,
    /// The UF2 packer refused the input.
    ConversionFailed,
    /// A UF2 block carries another family identifier than the chip's.
    FamilyMismatch,
    /// An external converter exited with a failure status.
    ConverterExited { output_path: String },
}

/// One run of the object copier.
#[derive(Clone, Debug, PartialEq, Eq)]
pub struct ObjcopyCall {
    pub args: Vec<String>,
    pub output_path: String,
}

/// The UF2 packing of an intermediate hex file.
#[derive(Clone, Debug, PartialEq, Eq)]
pub struct Uf2Step {
    pub input_path: String,
    pub output_path: String,
    pub family_id: u32,
}

/// The converter stages that turn one artifact into its firmware image.
#[derive(Clone, Debug, PartialEq, Eq)]
pub struct PackagePlan {
    pub output_name: String,
    pub objcopy: Option<ObjcopyCall>,
    pub uf2: Option<Uf2Step>,
}

/// The intermediate format that the object copier writes for a target
/// format: none for the native object format, a hex file for UF2.
pub open spec fn intermediate_of(f: FirmwareFormat) -> Option<FirmwareFormat> {
    match f {
        FirmwareFormat::Bin => Some(FirmwareFormat::Bin),
        FirmwareFormat::Elf => None,
        FirmwareFormat::Hex | FirmwareFormat::Uf2 => Some(FirmwareFormat::Hex),
    }
}

/// The object copier's name of an intermediate format, and the file ending.
pub open spec fn objcopy_names(f: FirmwareFormat) -> Option<(Seq<char>, Seq<char>)> {
    match f {
        FirmwareFormat::Bin => Some(("binary"@, "bin"@)),
        FirmwareFormat::Hex => Some(("ihex"@, "hex"@)),
        _ => None,
    }
}

/// The arguments of an object copier run that writes `out` in format `fmt`.
pub open spec fn objcopy_args(
    input: Seq<char>,
    fmt: Seq<char>,
    out: Seq<char>,
    verbosity: u64,
) -> Seq<Seq<char>> {
    seq![input, "-O"@, fmt, out] + verbosity_args(verbosity)
}

/// Plans the object copier run that writes `file` as `{out_name}.{ending}`.
pub fn cargo_objcopy(file: &str, out_name: &str, verbosity: u64, format: FirmwareFormat) -> (r:
    Result<ObjcopyCall, ConvertError>)
    ensures
        objcopy_names(format) is None <==> r == Err::<ObjcopyCall, ConvertError>(
            ConvertError::UnsupportedObjcopyFormat,
        ),
        objcopy_names(format) matches Some((fmt, ending)) ==> r matches Ok(call) && call.output_path@
            == out_name@ + "."@ + ending && views(call.args@) == objcopy_args(
            file@,
            fmt,
            out_name@ + "."@ + ending,
            verbosity,
        ),
{
    let (fmt, ending) = match format {
        FirmwareFormat::Bin => ("binary", "bin"),
        FirmwareFormat::Hex => ("ihex", "hex"),
        FirmwareFormat::Elf | FirmwareFormat::Uf2 => {
            return Err(ConvertError::UnsupportedObjcopyFormat);
        },
    };
    Ok(objcopy_call(file, out_name, verbosity, fmt, ending))
}

/// The object copier run that writes `file` as `{out_name}.{ending}` in the
/// copier's format `fmt`.
fn objcopy_call(file: &str, out_name: &str, verbosity: u64, fmt: &str, ending: &str) -> (r:
    ObjcopyCall)
    ensures
        r.output_path@ == out_name@ + "."@ + ending@,
        views(r.args@) == objcopy_args(file@, fmt@, out_name@ + "."@ + ending@, verbosity),
{
    let output_path = join3(out_name, ".", ending);
    let mut args: Vec<String> = Vec::new();
    args.push(file.to_owned());
    args.push(String::from_str("-O"));
    args.push(fmt.to_owned());
    args.push(output_path.clone());
    let mut v = verbosity_arguments(verbosity);
    args.append(&mut v);
    assert(views(args@) =~= objcopy_args(file@, fmt@, output_path@, verbosity));
    ObjcopyCall { args, output_path }
}

/// Whether a chip admits a requested format: the chip lists it, or lists no
/// format at all and so leaves the choice to the description.
pub open spec fn format_admitted(f: FirmwareFormat, listed: Seq<FirmwareFormat>) -> bool {
    listed.len() == 0 || listed.contains(f)
}

/// The format an image is packaged in: the one the description asks for, or
/// else the chip's declared final format, the last of the chain of formats
/// it lists, or else, for a chip that lists none, the native object format.
pub open spec fn target_format_of(requested: Option<FirmwareFormat>, listed: Seq<FirmwareFormat>) -> FirmwareFormat {
    match requested {
        Some(f) => f,
        None => if listed.len() > 0 {
            listed.last()
        } else {
            FirmwareFormat::Elf
        },
    }
}

/// Chooses the format an image is packaged in; `None` when the description
/// asks for a format the chip does not admit.
pub fn target_format(requested: Option<FirmwareFormat>, chip: &ChipInfo) -> (r: Option<FirmwareFormat>)
    ensures
        r is None <==> (requested matches Some(f) && !format_admitted(f, chip.firmware_formats@)),
        r matches Some(f) ==> f == target_format_of(requested, chip.firmware_formats@),
{
    let n = chip.firmware_formats.len();
    match requested {
        Some(f) => {
            if n == 0 {
                return Some(f);
            }
            let mut i: usize = 0;
            while i < n
                invariant
                    requested == Some(f),
                    n == chip.firmware_formats@.len(),
                    i <= n,
                    forall|j: int| 0 <= j < i ==> chip.firmware_formats@[j] != f,
                decreases n - i,
            {
                if chip.firmware_formats[i] == f {
                    assert(chip.firmware_formats@[i as int] == f);
                    return Some(f);
                }
                i = i + 1;
            }
            None
        },
        None => {
            if n > 0 {
                Some(chip.firmware_formats[n - 1])
            } else {
                Some(FirmwareFormat::Elf)
            }
        },
    }
}

/// The output name of a build target: the project name, followed by
/// `_{binary}` when a binary target is named.
pub open spec fn output_name_of(project: Seq<char>, binary: Option<Seq<char>>) -> Seq<char> {
    match binary {
        Some(b) => project + "_"@ + b,
        None => project,
    }
}

/// `p` is the plan that packages `file` as `format` for `chip`.
pub open spec fn plans(
    p: PackagePlan,
    file: Seq<char>,
    name: Seq<char>,
    format: FirmwareFormat,
    family_id: u32,
    verbosity: u64,
) -> bool {
    &&& p.output_name@ == name
    &&& match intermediate_of(format) {
        None => p.objcopy is None && p.uf2 is None,
        Some(i) => {
            let (fmt, ending) = objcopy_names(i)->0;
            let out = name + "."@ + ending;
            &&& p.objcopy matches Some(call)
            &&& call.output_path@ == out
            &&& views(call.args@) == objcopy_args(file, fmt, out, verbosity)
            &&& (format == FirmwareFormat::Uf2) == p.uf2 is Some
            &&& p.uf2 matches Some(step) ==> step.input_path@ == out && step.output_path@ == name
                + ".uf2"@ && step.family_id == family_id
        },
    }
}

/// Number of external converter runs in a plan.
pub open spec fn stage_count(p: PackagePlan) -> nat {
    (if p.objcopy is Some { 1nat } else { 0nat }) + (if p.uf2 is Some { 1nat } else { 0nat })
}

/// Plans the conversion of one build target's artifact `file` into the
/// image `format`. The native object format needs no stage; a raw binary or
/// hex image one object copier run; a UF2 image a hex file packed into UF2
/// blocks tagged with the chip's family identifier.
pub fn package_plan(
    file: &str,
    project_name: &str,
    binary: Option<&str>,
    format: FirmwareFormat,
    chip: &ChipInfo,
    verbosity: u64,
) -> (r: PackagePlan)
    ensures
        plans(
            r,
            file@,
            output_name_of(project_name@, crate::artifact::opt_view(binary)),
            format,
            chip.family_id,
            verbosity,
        ),
        stage_count(r) == match format {
            FirmwareFormat::Elf => 0nat,
            FirmwareFormat::Bin | FirmwareFormat::Hex => 1nat,
            FirmwareFormat::Uf2 => 2nat,
        },
{
    let output_name = match binary {
        Some(b) => join3(project_name, "_", b),
        None => project_name.to_owned(),
    };
    let (fmt, ending) = match format {
        FirmwareFormat::Elf => {
            return PackagePlan { output_name, objcopy: None, uf2: None };
        },
        FirmwareFormat::Bin => ("binary", "bin"),
        FirmwareFormat::Hex | FirmwareFormat::Uf2 => ("ihex", "hex"),
    };
    let call = objcopy_call(file, output_name.as_str(), verbosity, fmt, ending);
    let uf2 = match format {
        FirmwareFormat::Uf2 => Some(
            Uf2Step {
                input_path: call.output_path.clone(),
                output_path: {
                    let mut out = output_name.clone();
                    out.append(".uf2");
                    out
                },
                family_id: chip.family_id,
            },
        ),
        _ => None,
    };
    PackagePlan { output_name, objcopy: Some(call), uf2 }
}


/// Whether `c` is a hexadecimal digit.
pub open spec fn is_hex_digit(c: char) -> bool {
    ('0' <= c && c <= '9') || ('a' <= c && c <= 'f') || ('A' <= c && c <= 'F')
}

/// The value of a hexadecimal digit.
pub open spec fn hex_digit_value(c: char) -> int {
    if '0' <= c && c <= '9' {
        c as int - '0' as int
    } else if 'a' <= c && c <= 'f' {
        c as int - 'a' as int + 10
    } else {
        c as int - 'A' as int + 10
    }
}

/// Number of byte pairs the packer reads from a record line.
pub open spec fn pair_count(line: Seq<char>) -> int {
    (line.len() - 1) / 2
}

/// The `k`-th byte of a record line.
pub open spec fn record_byte(line: Seq<char>, k: int) -> int {
    hex_digit_value(line[1 + 2 * k]) * 16 + hex_digit_value(line[2 + 2 * k])
}

/// Whether the packer takes a line without fault. A line that does not start
/// with a colon is skipped. A record must be ASCII, hold at least five
/// hexadecimal byte pairs, announce the number of data bytes it holds, keep
/// its data within one 64 KiB segment, and carry the two bytes that a
/// segment or linear address record reads; a linear address record must stay
/// below the topmost segment.
pub open spec fn hex_line_accepted(line: Seq<char>) -> bool {
    line.len() > 0 && line[0] == ':' ==> {
        let n = pair_count(line);
        &&& forall|i: int| 0 <= i < line.len() ==> (line[i] as int) < 128
        &&& n >= 5
        &&& forall|k: int| 1 <= k <= 2 * n ==> is_hex_digit(#[trigger] line[k])
        &&& record_byte(line, 0) == n - 5
        &&& record_byte(line, 3) == 0 ==> record_byte(line, 1) * 256 + record_byte(line, 2) + (n - 5)
            <= 0x10000
        &&& (record_byte(line, 3) == 2 || record_byte(line, 3) == 4) ==> n >= 6
        &&& record_byte(line, 3) == 4 ==> record_byte(line, 4) * 256 + record_byte(line, 5) < 0xffff
    }
}

/// Whether the packer takes every line without fault.
pub open spec fn hex_lines_accepted(lines: Seq<Seq<char>>) -> bool {
    forall|i: int| 0 <= i < lines.len() ==> hex_line_accepted(#[trigger] lines[i])
}

/// The `j`-th byte, least significant first, of a 32-bit value.
pub open spec fn le_byte(v: u32, j: int) -> u8 {
    if j == 0 {
        (v % 0x100) as u8
    } else if j == 1 {
        ((v / 0x100) % 0x100) as u8
    } else if j == 2 {
        ((v / 0x10000) % 0x100) as u8
    } else {
        (v / 0x1000000) as u8
    }
}

/// Every block of `image` carries `family_id` in its family field.
pub open spec fn tagged_with(image: Seq<u8>, family_id: u32) -> bool {
    &&& image.len() % 512 == 0
    &&& forall|b: int, j: int|
        0 <= b < image.len() / 512 && 0 <= j < 4 ==> #[trigger] image[512 * b + 28 + j] == le_byte(
            family_id,
            j,
        )
}

/// Whether `c` is a hexadecimal digit.
fn hex_digit(c: char) -> (r: bool)
    ensures
        r == is_hex_digit(c),
{
    ('0' <= c && c <= '9') || ('a' <= c && c <= 'f') || ('A' <= c && c <= 'F')
}

/// The value of a hexadecimal digit.
fn digit_value(c: char) -> (r: u32)
    requires
        is_hex_digit(c),
    ensures
        r == hex_digit_value(c),
        r < 16,
{
    if '0' <= c && c <= '9' {
        (c as u32) - ('0' as u32)
    } else if 'a' <= c && c <= 'f' {
        (c as u32) - ('a' as u32) + 10
    } else {
        (c as u32) - ('A' as u32) + 10
    }
}

/// Whether the packer takes a line without fault.
pub fn check_hex_line(line: &str) -> (r: bool)
    ensures
        r == hex_line_accepted(line@),
{
    let len = line.unicode_len();
    if len == 0 || line.get_char(0) != ':' {
        return true;
    }
    let mut i: usize = 0;
    while i < len
        invariant
            len == line@.len(),
            len > 0,
            line@[0] == ':',
            i <= len,
            forall|j: int| 0 <= j < i ==> (line@[j] as int) < 128,
        decreases len - i,
    {
        if (line.get_char(i) as u32) >= 128 {
            assert(!((line@[i as int] as int) < 128));
            return false;
        }
        i = i + 1;
    }
    let n = (len - 1) / 2;
    if n < 5 {
        return false;
    }
    let mut k: usize = 1;
    while k <= 2 * n
        invariant
            len == line@.len(),
            line@[0] == ':',
            forall|j: int| 0 <= j < len ==> (line@[j] as int) < 128,
            n == pair_count(line@),
            2 * n < len,
            1 <= k <= 2 * n + 1,
            forall|j: int| 1 <= j < k ==> is_hex_digit(#[trigger] line@[j]),
        decreases 2 * n + 1 - k,
    {
        if !hex_digit(line.get_char(k)) {
            assert(!is_hex_digit(line@[k as int]));
            return false;
        }
        k = k + 1;
    }
    let mut bytes: Vec<u32> = Vec::new();
    let mut b: usize = 0;
    while b < 6 && b < n
        invariant
            len == line@.len(),
            n == pair_count(line@),
            2 * n < len,
            b <= 6,
            b <= n,
            forall|j: int| 1 <= j <= 2 * n ==> is_hex_digit(#[trigger] line@[j]),
            bytes@.len() == b,
            forall|j: int| 0 <= j < b ==> bytes@[j] == record_byte(line@, j) && bytes@[j] < 256,
        decreases 6 - b,
    {
        let hi = digit_value(line.get_char(1 + 2 * b));
        let lo = digit_value(line.get_char(2 + 2 * b));
        bytes.push(hi * 16 + lo);
        b = b + 1;
    }
    if bytes[0] as usize != n - 5 {
        return false;
    }
    let kind = bytes[3];
    if kind == 0 && bytes[1] as usize * 256 + bytes[2] as usize + (n - 5) > 0x10000 {
        return false;
    }
    if (kind == 2 || kind == 4) && n < 6 {
        return false;
    }
    if kind == 4 && bytes[4] * 256 + bytes[5] >= 0xffff {
        return false;
    }
    true
}

/// Whether the packer takes every line without fault.
pub fn check_hex_lines(lines: &Vec<String>) -> (r: bool)
    ensures
        r == hex_lines_accepted(views(lines@)),
{
    let mut i: usize = 0;
    while i < lines.len()
        invariant
            i <= lines@.len(),
            forall|j: int| 0 <= j < i ==> hex_line_accepted(#[trigger] views(lines@)[j]),
        decreases lines.len() - i,
    {
        if !check_hex_line(lines[i].as_str()) {
            assert(!hex_line_accepted(views(lines@)[i as int]));
            return false;
        }
        i = i + 1;
    }
    true
}

/// The UF2 image the packer makes of Intel HEX lines for a family
/// identifier.
pub uninterp spec fn uf2_image_of(lines: Seq<Seq<char>>, family_id: u32) -> Seq<u8>;

/// The chip of the registry that a family of the UF2 packer stands for:
/// the variant of the same name.
pub open spec fn chip_of_uf2_family(f: ChipFamily) -> Chip {
    match f {
        ChipFamily::AT32F415 => Chip::AT32F415,
        ChipFamily::ATMEGA32 => Chip::ATMEGA32,
        ChipFamily::BK7231N => Chip::BK7231N,
        ChipFamily::BK7231U => Chip::BK7231U,
        ChipFamily::BK7251 => Chip::BK7251,
        ChipFamily::BL602 => Chip::BL602,
        ChipFamily::CH32V => Chip::CH32V,
        ChipFamily::CSK4 => Chip::CSK4,
        ChipFamily::CSK6 => Chip::CSK6,
        ChipFamily::ESP32 => Chip::ESP32,
        ChipFamily::ESP32C2 => Chip::ESP32C2,
        ChipFamily::ESP32C3 => Chip::ESP32C3,
        ChipFamily::ESP32C5 => Chip::ESP32C5,
        ChipFamily::ESP32C6 => Chip::ESP32C6,
        ChipFamily::ESP32C61 => Chip::ESP32C61,
        ChipFamily::ESP32H2 => Chip::ESP32H2,
        ChipFamily::ESP32P4 => Chip::ESP32P4,
        ChipFamily::ESP32S2 => Chip::ESP32S2,
        ChipFamily::ESP32S3 => Chip::ESP32S3,
        ChipFamily::ESP8266 => Chip::ESP8266,
        ChipFamily::FX2 => Chip::FX2,
        ChipFamily::GD32F350 => Chip::GD32F350,
        ChipFamily::GD32VF103 => Chip::GD32VF103,
        ChipFamily::KL32L2 => Chip::KL32L2,
        ChipFamily::LPC55 => Chip::LPC55,
        ChipFamily::M0SENSE => Chip::M0SENSE,
        ChipFamily::MIMXRT10XX => Chip::MIMXRT10XX,
        ChipFamily::MaixPlayU4 => Chip::MaixPlayU4,
        ChipFamily::NRF52 => Chip::NRF52,
        ChipFamily::NRF52832xxAA => Chip::NRF52832xxAA,
        ChipFamily::NRF52832xxAB => Chip::NRF52832xxAB,
        ChipFamily::NRF52833 => Chip::NRF52833,
        ChipFamily::NRF52840 => Chip::NRF52840,
        ChipFamily::RA4M1 => Chip::RA4M1,
        ChipFamily::RP2040 => Chip::RP2040,
        ChipFamily::Rp2350ArmNs => Chip::Rp2350ArmNs,
        ChipFamily::Rp2350ArmS => Chip::Rp2350ArmS,
        ChipFamily::Rp2350Riscv => Chip::Rp2350Riscv,
        ChipFamily::Rp2xxxAbsolute => Chip::Rp2xxxAbsolute,
        ChipFamily::Rp2xxxData => Chip::Rp2xxxData,
        ChipFamily::RTL8710A => Chip::RTL8710A,
        ChipFamily::RTL8710B => Chip::RTL8710B,
        ChipFamily::RTL8720C => Chip::RTL8720C,
        ChipFamily::RTL8720D => Chip::RTL8720D,
        ChipFamily::RZA1LU => Chip::RZA1LU,
        ChipFamily::SAMD21 => Chip::SAMD21,
        ChipFamily::SAMD51 => Chip::SAMD51,
        ChipFamily::SAML21 => Chip::SAML21,
        ChipFamily::STM32F0 => Chip::STM32F0,
        ChipFamily::STM32F1 => Chip::STM32F1,
        ChipFamily::STM32F2 => Chip::STM32F2,
        ChipFamily::STM32F3 => Chip::STM32F3,
        ChipFamily::STM32F4 => Chip::STM32F4,
        ChipFamily::STM32F407 => Chip::STM32F407,
        ChipFamily::STM32F407VG => Chip::STM32F407VG,
        ChipFamily::STM32F411xC => Chip::STM32F411xC,
        ChipFamily::STM32F411xE => Chip::STM32F411xE,
        ChipFamily::STM32F7 => Chip::STM32F7,
        ChipFamily::STM32G0 => Chip::STM32G0,
        ChipFamily::STM32G4 => Chip::STM32G4,
        ChipFamily::STM32H7 => Chip::STM32H7,
        ChipFamily::STM32L0 => Chip::STM32L0,
        ChipFamily::STM32L1 => Chip::STM32L1,
        ChipFamily::STM32L4 => Chip::STM32L4,
        ChipFamily::STM32L5 => Chip::STM32L5,
        ChipFamily::STM32WB => Chip::STM32WB,
        ChipFamily::STM32WL => Chip::STM32WL,
        ChipFamily::XR809 => Chip::XR809,
    }
}

/// Relies on hex_to_uf2::hex_to_uf2: it packs the data records of Intel HEX
/// lines into UF2 blocks, which Block::encode writes as exactly 512 bytes
/// each, with the family identifier that get_family_id gives at bytes 28 to
/// 31; get_family_id gives the same identifier as the registry for the chip
/// of the same name. Its only failure is a record whose byte count disagrees
/// with its length, which `requires` rules out, as it rules out the lines the
/// packer would panic on. The result depends on the lines and the family
/// identifier alone.
#[verifier::external_body]
fn pack_uf2(lines: &Vec<String>, family: ChipFamily) -> (r: Option<Vec<u8>>)
    requires
        hex_lines_accepted(views(lines@)),
    ensures
        r is Some,
        r matches Some(image) ==> image@ == uf2_image_of(
            views(lines@),
            chip_family_id(chip_of_uf2_family(family)),
        ),
        r matches Some(image) ==> tagged_with(image@, chip_family_id(chip_of_uf2_family(family))),
{
    hex_to_uf2::hex_to_uf2(lines.iter(), Some(family)).ok()
}

/// The family of the UF2 packer that stands for a chip.
fn uf2_family(chip: &Chip) -> (r: ChipFamily)
    ensures
        chip_of_uf2_family(r) == *chip,
{
    match chip {
        Chip::AT32F415 => ChipFamily::AT32F415,
        Chip::ATMEGA32 => ChipFamily::ATMEGA32,
        Chip::BK7231N => ChipFamily::BK7231N,
        Chip::BK7231U => ChipFamily::BK7231U,
        Chip::BK7251 => ChipFamily::BK7251,
        Chip::BL602 => ChipFamily::BL602,
        Chip::CH32V => ChipFamily::CH32V,
        Chip::CSK4 => ChipFamily::CSK4,
        Chip::CSK6 => ChipFamily::CSK6,
        Chip::ESP32 => ChipFamily::ESP32,
        Chip::ESP32C2 => ChipFamily::ESP32C2,
        Chip::ESP32C3 => ChipFamily::ESP32C3,
        Chip::ESP32C5 => ChipFamily::ESP32C5,
        Chip::ESP32C6 => ChipFamily::ESP32C6,
        Chip::ESP32C61 => ChipFamily::ESP32C61,
        Chip::ESP32H2 => ChipFamily::ESP32H2,
        Chip::ESP32P4 => ChipFamily::ESP32P4,
        Chip::ESP32S2 => ChipFamily::ESP32S2,
        Chip::ESP32S3 => ChipFamily::ESP32S3,
        Chip::ESP8266 => ChipFamily::ESP8266,
        Chip::FX2 => ChipFamily::FX2,
        Chip::GD32F350 => ChipFamily::GD32F350,
        Chip::GD32VF103 => ChipFamily::GD32VF103,
        Chip::KL32L2 => ChipFamily::KL32L2,
        Chip::LPC55 => ChipFamily::LPC55,
        Chip::M0SENSE => ChipFamily::M0SENSE,
        Chip::MIMXRT10XX => ChipFamily::MIMXRT10XX,
        Chip::MaixPlayU4 => ChipFamily::MaixPlayU4,
        Chip::NRF52 => ChipFamily::NRF52,
        Chip::NRF52832xxAA => ChipFamily::NRF52832xxAA,
        Chip::NRF52832xxAB => ChipFamily::NRF52832xxAB,
        Chip::NRF52833 => ChipFamily::NRF52833,
        Chip::NRF52840 => ChipFamily::NRF52840,
        Chip::RA4M1 => ChipFamily::RA4M1,
        Chip::RP2040 => ChipFamily::RP2040,
        Chip::Rp2350ArmNs => ChipFamily::Rp2350ArmNs,
        Chip::Rp2350ArmS => ChipFamily::Rp2350ArmS,
        Chip::Rp2350Riscv => ChipFamily::Rp2350Riscv,
        Chip::Rp2xxxAbsolute => ChipFamily::Rp2xxxAbsolute,
        Chip::Rp2xxxData => ChipFamily::Rp2xxxData,
        Chip::RTL8710A => ChipFamily::RTL8710A,
        Chip::RTL8710B => ChipFamily::RTL8710B,
        Chip::RTL8720C => ChipFamily::RTL8720C,
        Chip::RTL8720D => ChipFamily::RTL8720D,
        Chip::RZA1LU => ChipFamily::RZA1LU,
        Chip::SAMD21 => ChipFamily::SAMD21,
        Chip::SAMD51 => ChipFamily::SAMD51,
        Chip::SAML21 => ChipFamily::SAML21,
        Chip::STM32F0 => ChipFamily::STM32F0,
        Chip::STM32F1 => ChipFamily::STM32F1,
        Chip::STM32F2 => ChipFamily::STM32F2,
        Chip::STM32F3 => ChipFamily::STM32F3,
        Chip::STM32F4 => ChipFamily::STM32F4,
        Chip::STM32F407 => ChipFamily::STM32F407,
        Chip::STM32F407VG => ChipFamily::STM32F407VG,
        Chip::STM32F411xC => ChipFamily::STM32F411xC,
        Chip::STM32F411xE => ChipFamily::STM32F411xE,
        Chip::STM32F7 => ChipFamily::STM32F7,
        Chip::STM32G0 => ChipFamily::STM32G0,
        Chip::STM32G4 => ChipFamily::STM32G4,
        Chip::STM32H7 => ChipFamily::STM32H7,
        Chip::STM32L0 => ChipFamily::STM32L0,
        Chip::STM32L1 => ChipFamily::STM32L1,
        Chip::STM32L4 => ChipFamily::STM32L4,
        Chip::STM32L5 => ChipFamily::STM32L5,
        Chip::STM32WB => ChipFamily::STM32WB,
        Chip::STM32WL => ChipFamily::STM32WL,
        Chip::XR809 => ChipFamily::XR809,
    }
}

/// Whether every block of `image` carries `family_id` in its family field.
pub fn check_family_tags(image: &Vec<u8>, family_id: u32) -> (r: bool)
    requires
        image@.len() % 512 == 0,
    ensures
        r == tagged_with(image@, family_id),
{
    let tag: [u8; 4] = [
        (family_id % 0x100) as u8,
        ((family_id / 0x100) % 0x100) as u8,
        ((family_id / 0x10000) % 0x100) as u8,
        (family_id / 0x1000000) as u8,
    ];
    let total = image.len();
    let blocks = total / 512;
    let mut b: usize = 0;
    while b < blocks
        invariant
            total == image@.len(),
            blocks == image@.len() / 512,
            image@.len() % 512 == 0,
            b <= blocks,
            forall|j: int| 0 <= j < 4 ==> tag@[j] == le_byte(family_id, j),
            forall|bb: int, j: int|
                0 <= bb < b && 0 <= j < 4 ==> #[trigger] image@[512 * bb + 28 + j] == le_byte(
                    family_id,
                    j,
                ),
        decreases blocks - b,
    {
        let mut j: usize = 0;
        while j < 4
            invariant
                total == image@.len(),
                blocks == image@.len() / 512,
                b < blocks,
                j <= 4,
                forall|jj: int| 0 <= jj < 4 ==> tag@[jj] == le_byte(family_id, jj),
                forall|bb: int, jj: int|
                    0 <= bb < b && 0 <= jj < 4 ==> #[trigger] image@[512 * bb + 28 + jj]
                        == le_byte(family_id, jj),
                forall|jj: int| 0 <= jj < j ==> #[trigger] image@[512 * b + 28 + jj] == le_byte(family_id, jj),
            decreases 4 - j,
        {
            assert(512 * b + 28 + j < image@.len()) by (nonlinear_arith)
                requires
                    b < blocks,
                    blocks == image@.len() / 512,
                    j < 4,
            ;
            if image[512 * b + 28 + j] != tag[j] {
                return false;
            }
            j = j + 1;
        }
        b = b + 1;
    }
    true
}

/// Accepts what the UF2 packer returned: an image only if every block
/// carries `family_id`.
pub fn accept_uf2_image(packed: Option<Vec<u8>>, family_id: u32) -> (r: Result<Vec<u8>, ConvertError>)
    requires
        packed matches Some(image) ==> image@.len() % 512 == 0,
    ensures
        packed is None ==> r == Err::<Vec<u8>, ConvertError>(ConvertError::ConversionFailed),
        packed matches Some(image) ==> if tagged_with(image@, family_id) {
            r == Ok::<Vec<u8>, ConvertError>(image)
        } else {
            r == Err::<Vec<u8>, ConvertError>(ConvertError::FamilyMismatch)
        },
{
    match packed {
        None => Err(ConvertError::ConversionFailed),
        Some(image) => {
            if check_family_tags(&image, family_id) {
                Ok(image)
            } else {
                Err(ConvertError::FamilyMismatch)
            }
        },
    }
}

/// Packs Intel HEX lines into a UF2 image for a chip. Lines the packer would
/// fault on are refused; an image is returned only if every block carries the
/// chip's family identifier, which holds for every registry entry.
pub fn hex_to_uf2_image(lines: &Vec<String>, chip: &ChipInfo) -> (r: Result<Vec<u8>, ConvertError>)
    ensures
        !hex_lines_accepted(views(lines@)) <==> r == Err::<Vec<u8>, ConvertError>(
            ConvertError::InvalidHex,
        ),
        r matches Ok(image) ==> tagged_with(image@, chip.family_id),
        hex_lines_accepted(views(lines@)) && chip.family_id == chip_family_id(chip.chip) ==> (
        r matches Ok(image) && image@ == uf2_image_of(views(lines@), chip.family_id)),
{
    if !check_hex_lines(lines) {
        return Err(ConvertError::InvalidHex);
    }
    let packed = pack_uf2(lines, uf2_family(&chip.chip));
    accept_uf2_image(packed, chip.family_id)
}

} // verus!
