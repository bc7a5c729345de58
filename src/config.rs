//! Resolution of a keyboard description into the facts a project needs.

use vstd::prelude::*;

use crate::chips::{
    board_chip, board_name, chip_family_id, chip_name, family_id_of, format_name, get_chip, Board, Chip,
    FirmwareFormat,
};
use crate::chips::{board_at, board_names, chip_at, chip_names, BOARD_COUNT, CHIP_COUNT};
use crate::text::{has_prefix, join, join3, joined, replace_spaces, starts_with, underscored, views};

verus! {

/// The key matrix of one board.
#[derive(Clone, Copy, Debug, PartialEq, Eq)]
pub struct MatrixSection {
    /// Whether the diodes run from rows to columns.
    pub row2col: bool,
}

/// The two halves of a split keyboard.
#[derive(Clone, Debug, PartialEq, Eq)]
pub struct SplitSection {
    pub central: MatrixSection,
    pub peripherals: Vec<MatrixSection>,
}

/// Which lighting indicator pins are assigned.
#[derive(Clone, Copy, Debug, PartialEq, Eq, Default)]
pub struct LightPins {
    pub capslock: bool,
    pub scrolllock: bool,
    pub numslock: bool,
}

/// A keyboard description as the user wrote it.
#[derive(Clone, Debug, PartialEq, Eq)]
pub struct DeviceConfig {
    pub name: String,
    pub board: Option<Board>,
    pub chip: Option<Chip>,
    pub matrix: Option<MatrixSection>,
    pub split: Option<SplitSection>,
    pub storage_enabled: bool,
    pub defmt_log: bool,
    pub vial_enabled: bool,
    pub light: LightPins,
    pub firmware_format: Option<FirmwareFormat>,
}

/// Why a keyboard description was refused.
#[derive(Clone, Debug, PartialEq, Eq)]
pub enum ConfigError {
    /// Neither a board nor a chip is given.
    MissingChipSpecification,
    /// The chip given differs from the chip the board carries.
    ConflictingChipSpecification { board: Board, chip: Chip, board_chip: Chip },
    /// Neither a matrix nor a split section is given.
    MissingMatrixSpecification,
    /// Both a matrix and a split section are given.
    ConflictingMatrixSpecification,
    /// A board or chip name that the registry does not know.
    UnknownIdentifier { given: String, valid: Vec<String> },
    /// The description asks for a firmware format that the chip does not
    /// admit.
    UnsupportedFirmwareFormat { chip: Chip, format: FirmwareFormat },
    /// The project directory could not be created.
    ProjectDirectoryError { path: String, reason: String },
}

/// All that is needed to create and build a project.
#[derive(Clone, Debug, PartialEq, Eq)]
pub struct ProjectInfo {
    /// Project name, with spaces turned into underscores.
    pub project_name: String,
    /// Folder of the template repository that holds the project template.
    pub remote_folder: String,
    pub chip: Chip,
    pub family_id: u32,
    pub split: bool,
    pub row2col: bool,
    /// Key that selects the UF2 settings of the chip.
    pub uf2_key: String,
    /// Default features of the firmware crate to turn off.
    pub disabled_default_feature: Vec<String>,
    /// Features of the firmware crate, off by default, to turn on.
    pub enabled_feature: Vec<String>,
}

/// Whether the description fixes a chip without contradiction.
pub open spec fn chip_determined(cfg: DeviceConfig) -> bool {
    match (cfg.board, cfg.chip) {
        (None, None) => false,
        (Some(b), Some(c)) => board_chip(b) == c,
        _ => true,
    }
}

/// The chip a description selects, where `chip_determined` holds.
pub open spec fn effective_chip(cfg: DeviceConfig) -> Chip {
    match (cfg.board, cfg.chip) {
        (_, Some(c)) => c,
        (Some(b), None) => board_chip(b),
        (None, None) => Chip::NRF52840,
    }
}

/// Whether exactly one of the matrix and split sections is given.
pub open spec fn topology_determined(cfg: DeviceConfig) -> bool {
    cfg.matrix is Some != cfg.split is Some
}

/// The wiring orientation of the active matrix.
pub open spec fn row2col_of(cfg: DeviceConfig) -> bool {
    match cfg.matrix {
        Some(m) => m.row2col,
        None => match cfg.split {
            Some(s) => s.central.row2col,
            None => false,
        },
    }
}

/// The template folder of a chip: its name, with `_split` for split keyboards.
pub open spec fn template_key(c: Chip, split: bool) -> Seq<char> {
    if split {
        chip_name(c) + "_split"@
    } else {
        chip_name(c)
    }
}

/// The UF2 key of a chip: the series (first seven characters) of an STM32
/// chip, the chip name otherwise.
pub open spec fn uf2_key_of(c: Chip) -> Seq<char> {
    if has_prefix(chip_name(c), "stm32"@) && chip_name(c).len() >= 7 {
        chip_name(c).subrange(0, 7)
    } else {
        chip_name(c)
    }
}

/// Default features that the description turns off, in this order: storage,
/// defmt, then vial and vial_lock.
pub open spec fn disabled_features(cfg: DeviceConfig) -> Seq<Seq<char>> {
    (if cfg.storage_enabled { seq![] } else { seq!["storage"@] }) + (if cfg.defmt_log {
        seq![]
    } else {
        seq!["defmt"@]
    }) + (if cfg.vial_enabled { seq![] } else { seq!["vial"@, "vial_lock"@] })
}

/// Whether any lighting indicator pin is assigned.
pub open spec fn any_light_pin(l: LightPins) -> bool {
    l.capslock || l.scrolllock || l.numslock
}

/// Features, off by default, that the description turns on: the controller
/// feature exactly when a lighting indicator pin is assigned.
pub open spec fn enabled_features(cfg: DeviceConfig) -> Seq<Seq<char>> {
    if any_light_pin(cfg.light) {
        seq!["controller"@]
    } else {
        seq![]
    }
}

/// `p` is the project that a valid description `cfg` resolves to.
pub open spec fn resolves_to(cfg: DeviceConfig, p: ProjectInfo) -> bool {
    let c = effective_chip(cfg);
    &&& p.project_name@ == underscored(cfg.name@)
    &&& p.chip == c
    &&& p.family_id == chip_family_id(c)
    &&& p.split == cfg.split is Some
    &&& p.row2col == row2col_of(cfg)
    &&& p.remote_folder@ == template_key(c, cfg.split is Some)
    &&& p.uf2_key@ == uf2_key_of(c)
    &&& views(p.disabled_default_feature@) == disabled_features(cfg)
    &&& views(p.enabled_feature@) == enabled_features(cfg)
}

/// The error that resolving `cfg` meets first, if any.
pub open spec fn config_error(cfg: DeviceConfig) -> Option<ConfigError> {
    if cfg.board is None && cfg.chip is None {
        Some(ConfigError::MissingChipSpecification)
    } else if cfg.board is Some && cfg.chip is Some && board_chip(cfg.board->0) != cfg.chip->0 {
        Some(
            ConfigError::ConflictingChipSpecification {
                board: cfg.board->0,
                chip: cfg.chip->0,
                board_chip: board_chip(cfg.board->0),
            },
        )
    } else if cfg.matrix is None && cfg.split is None {
        Some(ConfigError::MissingMatrixSpecification)
    } else if cfg.matrix is Some && cfg.split is Some {
        Some(ConfigError::ConflictingMatrixSpecification)
    } else {
        None
    }
}

/// The template folder of a chip.
pub fn template_folder(chip: &Chip, split: bool) -> (r: String)
    ensures
        r@ == template_key(*chip, split),
{
    let mut r = chip.to_string();
    if split {
        r.append("_split");
    }
    r
}

/// The UF2 key of a chip.
pub fn uf2_key(chip: &Chip) -> (r: String)
    ensures
        r@ == uf2_key_of(*chip),
{
    let name = chip.to_string();
    if starts_with(name.as_str(), "stm32") && name.as_str().unicode_len() >= 7 {
        name.as_str().substring_char(0, 7).to_owned()
    } else {
        name
    }
}

/// Default features that a description turns off.
pub fn disabled_default_features(cfg: &DeviceConfig) -> (r: Vec<String>)
    ensures
        views(r@) == disabled_features(*cfg),
{
    let mut r: Vec<String> = Vec::new();
    if !cfg.storage_enabled {
        r.push(String::from_str("storage"));
    }
    if !cfg.defmt_log {
        r.push(String::from_str("defmt"));
    }
    if !cfg.vial_enabled {
        r.push(String::from_str("vial"));
        r.push(String::from_str("vial_lock"));
    }
    assert(views(r@) =~= disabled_features(*cfg));
    r
}

/// Features, off by default, that a description turns on.
pub fn enabled_non_default_features(cfg: &DeviceConfig) -> (r: Vec<String>)
    ensures
        views(r@) == enabled_features(*cfg),
{
    let mut r: Vec<String> = Vec::new();
    if cfg.light.capslock || cfg.light.scrolllock || cfg.light.numslock {
        r.push(String::from_str("controller"));
    }
    assert(views(r@) =~= enabled_features(*cfg));
    r
}

/// Resolves a keyboard description. The checks run in this order: a board or
/// a chip must be given, and agree when both are; then exactly one of the
/// matrix and split sections must be given.
pub fn resolve_project(cfg: &DeviceConfig) -> (r: Result<ProjectInfo, ConfigError>)
    ensures
        (cfg.board is None && cfg.chip is None) <==> r == Err::<ProjectInfo, ConfigError>(
            ConfigError::MissingChipSpecification,
        ),
        (cfg.board matches Some(b) && cfg.chip matches Some(c) && board_chip(b) != c) ==> r
            == Err::<ProjectInfo, ConfigError>(
            ConfigError::ConflictingChipSpecification {
                board: cfg.board->0,
                chip: cfg.chip->0,
                board_chip: board_chip(cfg.board->0),
            },
        ),
        (chip_determined(*cfg) && cfg.matrix is None && cfg.split is None) <==> r
            == Err::<ProjectInfo, ConfigError>(ConfigError::MissingMatrixSpecification),
        (chip_determined(*cfg) && cfg.matrix is Some && cfg.split is Some) <==> r
            == Err::<ProjectInfo, ConfigError>(ConfigError::ConflictingMatrixSpecification),
        r is Ok <==> chip_determined(*cfg) && topology_determined(*cfg),
        r is Ok <==> config_error(*cfg) is None,
        r matches Err(e) ==> config_error(*cfg) == Some(e),
        r matches Ok(p) ==> resolves_to(*cfg, p),
{
    let chip = match (&cfg.board, &cfg.chip) {
        (None, None) => {
            return Err(ConfigError::MissingChipSpecification);
        },
        (Some(board), None) => get_chip(board),
        (None, Some(chip)) => *chip,
        (Some(board), Some(chip)) => {
            let board_chip = get_chip(board);
            if *chip == board_chip {
                *chip
            } else {
                return Err(
                    ConfigError::ConflictingChipSpecification {
                        board: *board,
                        chip: *chip,
                        board_chip,
                    },
                );
            }
        },
    };
    let split = match (&cfg.matrix, &cfg.split) {
        (None, None) => {
            return Err(ConfigError::MissingMatrixSpecification);
        },
        (None, Some(_)) => true,
        (Some(_), None) => false,
        (Some(_), Some(_)) => {
            return Err(ConfigError::ConflictingMatrixSpecification);
        },
    };
    let row2col = match &cfg.matrix {
        Some(m) => m.row2col,
        None => match &cfg.split {
            Some(s) => s.central.row2col,
            None => false,
        },
    };
    Ok(
        ProjectInfo {
            project_name: replace_spaces(cfg.name.as_str()),
            remote_folder: template_folder(&chip, split),
            chip,
            family_id: family_id_of(&chip),
            split,
            row2col,
            uf2_key: uf2_key(&chip),
            disabled_default_feature: disabled_default_features(cfg),
            enabled_feature: enabled_non_default_features(cfg),
        },
    )
}

/// The message shown for a refused description.
pub open spec fn error_message(e: ConfigError) -> Seq<char> {
    match e {
        ConfigError::MissingChipSpecification => "Either 'board' or 'chip' must be specified in keyboard.toml"@,
        ConfigError::ConflictingChipSpecification { board, chip, board_chip } => "The board '"@
            + board_name(board) + "' usually uses the chip '"@ + chip_name(board_chip)
            + "', but you specified the chip '"@ + chip_name(chip)
            + "'. Consider removing the board config from keyboard.toml."@,
        ConfigError::MissingMatrixSpecification => "Either 'matrix' or 'split' section must be specified in keyboard.toml"@,
        ConfigError::ConflictingMatrixSpecification => "'matrix' and 'split' cannot both be specified in keyboard.toml"@,
        ConfigError::UnknownIdentifier { given, valid } => "Unknown name '"@ + given@
            + "'. Valid names: "@ + joined(views(valid@), ", "@),
        ConfigError::UnsupportedFirmwareFormat { chip, format } => "The chip '"@ + chip_name(chip)
            + "' does not support the firmware format '"@ + format_name(format) + "'"@,
        ConfigError::ProjectDirectoryError { path, reason } => "Failed to create project directory "@
            + path@ + ": "@ + reason@,
    }
}

impl ConfigError {
    /// A message that names the offending values and, for a conflict, the
    /// value that would resolve it.
    pub fn message(&self) -> (r: String)
        ensures
            r@ == error_message(*self),
    {
        match self {
            ConfigError::MissingChipSpecification => String::from_str(
                "Either 'board' or 'chip' must be specified in keyboard.toml",
            ),
            ConfigError::ConflictingChipSpecification { board, chip, board_chip } => {
                let mut r = join3(
                    "The board '",
                    board.to_string().as_str(),
                    "' usually uses the chip '",
                );
                r.append(board_chip.to_string().as_str());
                r.append("', but you specified the chip '");
                r.append(chip.to_string().as_str());
                r.append("'. Consider removing the board config from keyboard.toml.");
                r
            },
            ConfigError::MissingMatrixSpecification => String::from_str(
                "Either 'matrix' or 'split' section must be specified in keyboard.toml",
            ),
            ConfigError::ConflictingMatrixSpecification => String::from_str(
                "'matrix' and 'split' cannot both be specified in keyboard.toml",
            ),
            ConfigError::UnknownIdentifier { given, valid } => {
                let mut r = join3("Unknown name '", given.as_str(), "'. Valid names: ");
                r.append(join(valid, ", ").as_str());
                r
            },
            ConfigError::UnsupportedFirmwareFormat { chip, format } => {
                let mut r = join3(
                    "The chip '",
                    chip.to_string().as_str(),
                    "' does not support the firmware format '",
                );
                r.append(format.to_string().as_str());
                r.append("'");
                r
            },
            ConfigError::ProjectDirectoryError { path, reason } => {
                let mut r = join3("Failed to create project directory ", path.as_str(), ": ");
                r.append(reason.as_str());
                r
            },
        }
    }
}

/// Reads a chip name; an unknown name is refused with the list of known ones.
pub fn parse_chip(s: &str) -> (r: Result<Chip, ConfigError>)
    ensures
        r matches Ok(c) ==> chip_name(c) == s@,
        r is Err <==> forall|c: Chip| chip_name(c) != s@,
        r is Err ==> r == Err::<Chip, ConfigError>(
            ConfigError::UnknownIdentifier { given: r->Err_0->given, valid: r->Err_0->valid },
        ),
        r matches Err(ConfigError::UnknownIdentifier { given, valid }) ==> given@ == s@ && views(
            valid@,
        ) == Seq::new(CHIP_COUNT as nat, |i: int| chip_name(chip_at(i))),
{
    match Chip::from_name(s) {
        Some(c) => Ok(c),
        None => {
            let valid = chip_names();
            assert(views(valid@) =~= Seq::new(CHIP_COUNT as nat, |i: int| chip_name(chip_at(i))));
            Err(ConfigError::UnknownIdentifier { given: s.to_owned(), valid })
        },
    }
}

/// Reads a board name; an unknown name is refused with the list of known ones.
pub fn parse_board(s: &str) -> (r: Result<Board, ConfigError>)
    ensures
        r matches Ok(b) ==> board_name(b) == s@,
        r is Err <==> forall|b: Board| board_name(b) != s@,
        r is Err ==> r == Err::<Board, ConfigError>(
            ConfigError::UnknownIdentifier { given: r->Err_0->given, valid: r->Err_0->valid },
        ),
        r matches Err(ConfigError::UnknownIdentifier { given, valid }) ==> given@ == s@ && views(
            valid@,
        ) == Seq::new(BOARD_COUNT as nat, |i: int| board_name(board_at(i))),
{
    match Board::from_name(s) {
        Some(b) => Ok(b),
        None => {
            let valid = board_names();
            assert(views(valid@) =~= Seq::new(BOARD_COUNT as nat, |i: int| board_name(board_at(i))));
            Err(ConfigError::UnknownIdentifier { given: s.to_owned(), valid })
        },
    }
}

/// A description that names a board and the very chip that board carries,
/// with one matrix topology, resolves to that chip.
pub proof fn lemma_board_with_its_chip(cfg: DeviceConfig, b: Board)
    requires
        cfg.board == Some(b),
        cfg.chip == Some(board_chip(b)),
        topology_determined(cfg),
    ensures
        config_error(cfg) is None,
        effective_chip(cfg) == board_chip(b),
{
}

/// A description that names a board and another chip than the board
/// carries is refused, and the message names the board, the chip given and
/// the chip the board carries.
pub proof fn lemma_board_with_other_chip(cfg: DeviceConfig, b: Board, c: Chip)
    requires
        cfg.board == Some(b),
        cfg.chip == Some(c),
        board_chip(b) != c,
    ensures
        config_error(cfg) == Some(
            ConfigError::ConflictingChipSpecification { board: b, chip: c, board_chip: board_chip(b) },
        ),
        error_message(config_error(cfg)->0) == "The board '"@ + board_name(b)
            + "' usually uses the chip '"@ + chip_name(board_chip(b))
            + "', but you specified the chip '"@ + chip_name(c)
            + "'. Consider removing the board config from keyboard.toml."@,
{
}

} // verus!
