use vstd::prelude::*;

use crate::machine::{cartridge_loaded, model_clock, GameBoyCore};
use crate::runtime::RuntimeControl;
use crate::rom::{MemoryBankController, RomProperties};

verus! {

/// Smallest file that can hold a cartridge: two 16 KiB banks.
pub const MIN_ROM_BYTES: usize = 32_768;
pub const HEADER_TITLE_START: usize = 0x0134;
pub const HEADER_TITLE_LEN: usize = 16;
pub const SGB_FLAG_INDEX: usize = 0x0146;
pub const CART_TYPE_INDEX: usize = 0x0147;
pub const ROM_SIZE_INDEX: usize = 0x0148;
pub const RAM_SIZE_INDEX: usize = 0x0149;
pub const HEADER_CHECKSUM_INDEX: usize = 0x014d;

/// Why a cartridge header was refused.
#[derive(Clone, Copy, Debug, PartialEq, Eq, Structural)]
pub enum RomHeaderError {
    /// The file is shorter than two ROM banks.
    NotGameBoyRom,
    /// The cartridge type byte names no supported controller.
    UnsupportedCartridgeType(u8),
    /// The ROM size byte names no supported size.
    UnsupportedRomSize(u8),
    /// The RAM size byte names no supported size.
    UnsupportedRamSize(u8),
    /// The header declares more ROM than the file holds.
    DeclaredSizeTooLarge { declared: i32, actual: usize },
}

/// The controller, battery RAM and rumble that a cartridge type byte names, if it is supported.
pub open spec fn spec_cartridge(cart_type: u8) -> Option<(MemoryBankController, bool, bool)> {
    if cart_type == 0x00 {
        Some((MemoryBankController::RomOnly, false, false))
    } else if cart_type == 0x08 || cart_type == 0x09 {
        Some((MemoryBankController::RomOnly, true, false))
    } else if cart_type == 0x01 {
        Some((MemoryBankController::Mbc1, false, false))
    } else if cart_type == 0x02 || cart_type == 0x03 {
        Some((MemoryBankController::Mbc1, true, false))
    } else if cart_type == 0x05 || cart_type == 0x06 {
        Some((MemoryBankController::Mbc2, false, false))
    } else if cart_type == 0x0f || cart_type == 0x11 {
        Some((MemoryBankController::Mbc3, false, false))
    } else if cart_type == 0x10 || cart_type == 0x12 || cart_type == 0x13 {
        Some((MemoryBankController::Mbc3, true, false))
    } else if cart_type == 0x19 {
        Some((MemoryBankController::Mbc5, false, false))
    } else if cart_type == 0x1a || cart_type == 0x1b {
        Some((MemoryBankController::Mbc5, true, false))
    } else if cart_type == 0x1c {
        Some((MemoryBankController::Mbc5, false, true))
    } else if cart_type == 0x1d || cart_type == 0x1e {
        Some((MemoryBankController::Mbc5, true, true))
    } else {
        None
    }
}

/// The ROM size in bytes and the bank select mask that a ROM size byte names, if supported.
pub open spec fn spec_rom_size(size_enum: u8) -> Option<(i32, u32)> {
    if size_enum == 0x00 {
        Some((32_768, 0x00))
    } else if size_enum == 0x01 {
        Some((65_536, 0x03))
    } else if size_enum == 0x02 {
        Some((131_072, 0x07))
    } else if size_enum == 0x03 {
        Some((262_144, 0x0f))
    } else if size_enum == 0x04 {
        Some((524_288, 0x1f))
    } else if size_enum == 0x05 {
        Some((1_048_576, 0x3f))
    } else if size_enum == 0x06 {
        Some((2_097_152, 0x7f))
    } else if size_enum == 0x07 {
        Some((4_194_304, 0xff))
    } else if size_enum == 0x08 {
        Some((8_388_608, 0x1ff))
    } else if size_enum == 0x52 {
        Some((1_179_648, 0x7f))
    } else if size_enum == 0x53 {
        Some((1_310_720, 0x7f))
    } else if size_enum == 0x54 {
        Some((1_572_864, 0x7f))
    } else {
        None
    }
}

/// Whether a RAM size byte is supported: no RAM, or one to four 8 KiB banks.
pub open spec fn ram_size_supported(size_enum: u8) -> bool {
    size_enum <= 0x03
}

/// Whether the last title byte marks a Game Boy Color cartridge.
pub open spec fn spec_cgb_flag(bytes: Seq<u8>) -> bool {
    bytes[HEADER_TITLE_START + 15] == 0x80 || bytes[HEADER_TITLE_START + 15] == 0xc0
}

/// The 17-byte title buffer: the 16 header title bytes and a terminating zero; on a Color
/// cartridge byte 11, where the manufacturer code begins, is cleared.
pub open spec fn spec_header_title(bytes: Seq<u8>) -> Seq<u8> {
    Seq::new(
        17,
        |i: int|
            if i < 16 && !(i == 11 && spec_cgb_flag(bytes)) {
                bytes[HEADER_TITLE_START + i]
            } else {
                0u8
            },
    )
}

/// What the first failing header check reports, if any check fails.
pub open spec fn spec_header_error(bytes: Seq<u8>) -> Option<RomHeaderError> {
    if bytes.len() < MIN_ROM_BYTES {
        Some(RomHeaderError::NotGameBoyRom)
    } else if spec_cartridge(bytes[CART_TYPE_INDEX as int]) is None {
        Some(RomHeaderError::UnsupportedCartridgeType(bytes[CART_TYPE_INDEX as int]))
    } else if spec_rom_size(bytes[ROM_SIZE_INDEX as int]) is None {
        Some(RomHeaderError::UnsupportedRomSize(bytes[ROM_SIZE_INDEX as int]))
    } else if !ram_size_supported(bytes[RAM_SIZE_INDEX as int]) {
        Some(RomHeaderError::UnsupportedRamSize(bytes[RAM_SIZE_INDEX as int]))
    } else {
        None
    }
}

/// The properties that an accepted header describes.
pub open spec fn header_properties_match(bytes: Seq<u8>, properties: RomProperties) -> bool {
    let cart_type = bytes[CART_TYPE_INDEX as int];
    let size_enum = bytes[ROM_SIZE_INDEX as int];
    let (mbc, has_sram, has_rumble) = spec_cartridge(cart_type)->0;
    let (size_bytes, bank_select_mask) = spec_rom_size(size_enum)->0;
    &&& properties.valid
    &&& properties.title@ == spec_header_title(bytes)
    &&& properties.cgb_flag == spec_cgb_flag(bytes)
    &&& properties.sgb_flag == (bytes[SGB_FLAG_INDEX as int] == 0x03 && !spec_cgb_flag(bytes))
    &&& properties.mbc == mbc
    &&& properties.has_sram == (has_sram || mbc == MemoryBankController::Mbc2)
    &&& properties.has_rumble == has_rumble
    &&& properties.size_bytes == size_bytes
    &&& properties.bank_select_mask == bank_select_mask
    &&& properties.mbc_mode == 0
    &&& properties.cart_type == cart_type as u32
    &&& properties.size_enum == size_enum as u32
    &&& properties.check_sum == bytes[HEADER_CHECKSUM_INDEX as int] as u32
}

/// Sets the controller, battery RAM and rumble that the cartridge type byte names; an
/// unsupported type is an error and leaves the properties as they were.
pub fn apply_cartridge_type(cart_type: u8, properties: &mut RomProperties) -> (result: Result<
    (),
    RomHeaderError,
>)
    ensures
        match spec_cartridge(cart_type) {
            Some((mbc, has_sram, has_rumble)) => {
                &&& result is Ok
                &&& *final(properties) == (RomProperties {
                    mbc,
                    has_sram: old(properties).has_sram || has_sram,
                    has_rumble: old(properties).has_rumble || has_rumble,
                    ..*old(properties)
                })
            },
            None => {
                &&& result == Err::<(), RomHeaderError>(RomHeaderError::UnsupportedCartridgeType(cart_type))
                &&& *final(properties) == *old(properties)
            },
        },
{
    match cart_type {
        0x00 => properties.mbc = MemoryBankController::RomOnly,
        0x08 | 0x09 => {
            properties.mbc = MemoryBankController::RomOnly;
            properties.has_sram = true;
        },
        0x01 => properties.mbc = MemoryBankController::Mbc1,
        0x02 | 0x03 => {
            properties.mbc = MemoryBankController::Mbc1;
            properties.has_sram = true;
        },
        0x05 | 0x06 => properties.mbc = MemoryBankController::Mbc2,
        0x0f | 0x11 => properties.mbc = MemoryBankController::Mbc3,
        0x10 | 0x12 | 0x13 => {
            properties.mbc = MemoryBankController::Mbc3;
            properties.has_sram = true;
        },
        0x19 => properties.mbc = MemoryBankController::Mbc5,
        0x1a | 0x1b => {
            properties.mbc = MemoryBankController::Mbc5;
            properties.has_sram = true;
        },
        0x1c => {
            properties.mbc = MemoryBankController::Mbc5;
            properties.has_rumble = true;
        },
        0x1d | 0x1e => {
            properties.mbc = MemoryBankController::Mbc5;
            properties.has_sram = true;
            properties.has_rumble = true;
        },
        _ => {
            return Err(RomHeaderError::UnsupportedCartridgeType(cart_type));
        },
    }
    Ok(())
}

/// Sets the ROM size and bank select mask that the ROM size byte names; an unsupported size
/// is an error and leaves the properties as they were.
pub fn apply_rom_size(size_enum: u8, properties: &mut RomProperties) -> (result: Result<(), RomHeaderError>)
    ensures
        match spec_rom_size(size_enum) {
            Some((size_bytes, bank_select_mask)) => {
                &&& result is Ok
                &&& *final(properties) == (RomProperties { size_bytes, bank_select_mask, ..*old(properties) })
            },
            None => {
                &&& result == Err::<(), RomHeaderError>(RomHeaderError::UnsupportedRomSize(size_enum))
                &&& *final(properties) == *old(properties)
            },
        },
{
    let (size_bytes, bank_select_mask): (i32, u32) = match size_enum {
        0x00 => (32_768, 0x00),
        0x01 => (65_536, 0x03),
        0x02 => (131_072, 0x07),
        0x03 => (262_144, 0x0f),
        0x04 => (524_288, 0x1f),
        0x05 => (1_048_576, 0x3f),
        0x06 => (2_097_152, 0x7f),
        0x07 => (4_194_304, 0xff),
        0x08 => (8_388_608, 0x1ff),
        0x52 => (1_179_648, 0x7f),
        0x53 => (1_310_720, 0x7f),
        0x54 => (1_572_864, 0x7f),
        _ => {
            return Err(RomHeaderError::UnsupportedRomSize(size_enum));
        },
    };
    properties.size_bytes = size_bytes;
    properties.bank_select_mask = bank_select_mask;
    Ok(())
}

/// Checks the RAM size byte; an MBC2 cartridge always has its built-in RAM.
pub fn apply_ram_size(size_enum: u8, properties: &mut RomProperties) -> (result: Result<(), RomHeaderError>)
    ensures
        ram_size_supported(size_enum) ==> result is Ok && *final(properties) == (RomProperties {
            has_sram: old(properties).has_sram || old(properties).mbc == MemoryBankController::Mbc2,
            ..*old(properties)
        }),
        !ram_size_supported(size_enum) ==> result == Err::<(), RomHeaderError>(
            RomHeaderError::UnsupportedRamSize(size_enum),
        ) && *final(properties) == *old(properties),
{
    if size_enum > 0x03 {
        return Err(RomHeaderError::UnsupportedRamSize(size_enum));
    }
    if properties.mbc == MemoryBankController::Mbc2 {
        properties.has_sram = true;
    }
    Ok(())
}

/// Reads the cartridge header: title, Color and Super Game Boy flags, controller, ROM size
/// and header checksum. Files shorter than two banks and unsupported header codes are
/// refused, the first failing check deciding the error.
pub fn parse_rom_properties(bytes: &[u8]) -> (result: Result<RomProperties, RomHeaderError>)
    ensures
        match spec_header_error(bytes@) {
            Some(error) => result == Err::<RomProperties, RomHeaderError>(error),
            None => result is Ok && header_properties_match(bytes@, result->Ok_0),
        },
{
    if bytes.len() < MIN_ROM_BYTES {
        return Err(RomHeaderError::NotGameBoyRom);
    }
    let mut title = [0u8; 17];
    let mut i: usize = 0;
    while i < HEADER_TITLE_LEN
        invariant
            i <= HEADER_TITLE_LEN,
            bytes@.len() >= MIN_ROM_BYTES,
            forall|j: int| 0 <= j < i ==> #[trigger] title@[j] == bytes@[HEADER_TITLE_START + j],
            forall|j: int| i <= j < 17 ==> #[trigger] title@[j] == 0u8,
        decreases HEADER_TITLE_LEN - i,
    {
        title[i] = bytes[HEADER_TITLE_START + i];
        i += 1;
    }
    let last_title_byte = title[15];
    let cgb_flag = last_title_byte == 0x80 || last_title_byte == 0xc0;
    if cgb_flag {
        title[11] = 0;
    }
    assert(title@ =~= spec_header_title(bytes@));
    let cart_type = bytes[CART_TYPE_INDEX];
    let size_enum = bytes[ROM_SIZE_INDEX];
    let ram_size_enum = bytes[RAM_SIZE_INDEX];
    let sgb_flag = bytes[SGB_FLAG_INDEX] == 0x03 && !cgb_flag;
    let mut properties = RomProperties {
        valid: true,
        title,
        mbc: MemoryBankController::RomOnly,
        cgb_flag,
        sgb_flag,
        has_sram: false,
        has_rumble: false,
        size_bytes: 0,
        bank_select_mask: 0,
        mbc_mode: 0,
        cart_type: cart_type as u32,
        check_sum: bytes[HEADER_CHECKSUM_INDEX] as u32,
        size_enum: size_enum as u32,
    };
    apply_cartridge_type(cart_type, &mut properties)?;
    apply_rom_size(size_enum, &mut properties)?;
    apply_ram_size(ram_size_enum, &mut properties)?;
    Ok(properties)
}

/// Reads the cartridge header and checks that the file holds as much ROM as the header
/// declares.
pub fn checked_rom_properties(bytes: &[u8]) -> (result: Result<RomProperties, RomHeaderError>)
    ensures
        match spec_header_error(bytes@) {
            Some(error) => result == Err::<RomProperties, RomHeaderError>(error),
            None => {
                let size = spec_rom_size(bytes@[ROM_SIZE_INDEX as int])->0;
                let declared = size.0;
                if declared > bytes@.len() {
                    result == Err::<RomProperties, RomHeaderError>(
                        RomHeaderError::DeclaredSizeTooLarge { declared, actual: bytes@.len() as usize },
                    )
                } else {
                    result is Ok && header_properties_match(bytes@, result->Ok_0)
                }
            },
        },
{
    let properties = parse_rom_properties(bytes)?;
    if properties.size_bytes as usize > bytes.len() {
        return Err(RomHeaderError::DeclaredSizeTooLarge { declared: properties.size_bytes, actual: bytes.len() });
    }
    Ok(properties)
}

/// A cartridge image fetched for loading: the catalogue file name, the name it was opened
/// under, its bytes and its identity.
pub struct LoadedRomBytes {
    pub file_name: String,
    pub opened_file_name: String,
    pub bytes: Vec<u8>,
    pub rom_id: String,
}

/// The ROM size that the header of `bytes` declares.
pub open spec fn declared_rom_bytes(bytes: Seq<u8>) -> i32 {
    let size = spec_rom_size(bytes[ROM_SIZE_INDEX as int])->0;
    size.0
}

/// Whether `bytes` pass the header checks, including that the file holds the declared size.
pub open spec fn rom_accepted(bytes: Seq<u8>) -> bool {
    &&& spec_header_error(bytes) is None
    &&& declared_rom_bytes(bytes) <= bytes.len()
}

/// Loads a cartridge into the emulator: the header is checked, the machine is reset for the
/// cartridge, and the CPU clock rate of its model is returned. A refused header leaves the
/// emulator as it was.
pub fn load_rom_into_emulator(loaded: &LoadedRomBytes, core: &mut GameBoyCore) -> (result: Result<i64, RomHeaderError>)
    requires
        old(core).wf(),
    ensures
        final(core).wf(),
        result is Ok <==> rom_accepted(loaded.bytes@),
        match result {
            Ok(clock_frequency_hz) => {
                &&& header_properties_match(loaded.bytes@, final(core).rom.properties)
                &&& cartridge_loaded(
                    old(core),
                    final(core),
                    final(core).rom.properties,
                    loaded.rom_id@,
                    loaded.opened_file_name@,
                    loaded.bytes@,
                )
                &&& final(core).rom.current_rom_id@ == loaded.rom_id@
                &&& final(core).rom.current_opened_file@ == loaded.opened_file_name@
                &&& clock_frequency_hz == model_clock(final(core).rom.properties)
                &&& clock_frequency_hz == final(core).cpu_timing.clock_frequency_hz
                &&& forall|i: int|
                    0 <= i < crate::constants::ROM_CAPACITY_BYTES ==> #[trigger] final(core).memory.rom@[i] == if i
                        < loaded.bytes@.len() {
                        loaded.bytes@[i]
                    } else {
                        0u8
                    }
            },
            Err(error) => {
                &&& *final(core) == *old(core)
                &&& match spec_header_error(loaded.bytes@) {
                    Some(header_error) => error == header_error,
                    None => error == (RomHeaderError::DeclaredSizeTooLarge {
                        declared: declared_rom_bytes(loaded.bytes@),
                        actual: loaded.bytes@.len() as usize,
                    }),
                }
            },
        },
{
    let properties = checked_rom_properties(loaded.bytes.as_slice())?;
    let loaded_into_memory = core.reset_for_rom_load(
        properties,
        loaded.rom_id.clone(),
        loaded.opened_file_name.clone(),
        loaded.bytes.as_slice(),
    );
    assert(loaded_into_memory);
    Ok(core.cpu_timing.clock_frequency_hz)
}

/// What installing a fetched cartridge does when its header is accepted: the cartridge is
/// loaded as `cartridge_loaded` says, with the header's properties and the model's clock,
/// and the audio unit starts over at that clock rate.
pub open spec fn cartridge_installed(before: &GameBoyCore, after: &GameBoyCore, loaded: &LoadedRomBytes) -> bool {
    &&& header_properties_match(loaded.bytes@, after.rom.properties)
    &&& cartridge_loaded(
        before,
        &GameBoyCore { audio_unit: before.audio_unit, ..*after },
        after.rom.properties,
        loaded.rom_id@,
        loaded.opened_file_name@,
        loaded.bytes@,
    )
    &&& after.cpu_timing.clock_frequency_hz == model_clock(after.rom.properties)
    &&& crate::audio_unit::AudioUnitState::reset_for_load(&after.audio_unit, after.cpu_timing.clock_frequency_hz)
}

/// Puts a fetched cartridge into the emulator: on success the audio unit starts over at the
/// model's clock rate; a refused cartridge stops the emulator and changes nothing else.
pub fn install_loaded_rom(loaded: &LoadedRomBytes, core: &mut GameBoyCore) -> (result: Result<(), RomHeaderError>)
    requires
        old(core).wf(),
    ensures
        final(core).wf(),
        result is Ok <==> rom_accepted(loaded.bytes@),
        result is Ok ==> cartridge_installed(old(core), final(core), loaded),
        result is Ok ==> final(core).audio_unit.base_running_speed == final(core).cpu_timing.clock_frequency_hz,
        result matches Err(error) ==> {
            &&& *final(core) == (GameBoyCore {
                runtime: RuntimeControl { is_running: false, ..old(core).runtime },
                ..*old(core)
            })
            &&& match spec_header_error(loaded.bytes@) {
                Some(header_error) => error == header_error,
                None => error == (RomHeaderError::DeclaredSizeTooLarge {
                    declared: declared_rom_bytes(loaded.bytes@),
                    actual: loaded.bytes@.len() as usize,
                }),
            }
        },
{
    match load_rom_into_emulator(loaded, core) {
        Ok(clock_frequency_hz) => {
            let ghost loaded_core = *core;
            core.audio_unit.reset_for_rom_load(clock_frequency_hz);
            assert(loaded_core == (GameBoyCore { audio_unit: loaded_core.audio_unit, ..*core }));
            Ok(())
        },
        Err(error) => {
            core.runtime.is_running = false;
            Err(error)
        },
    }
}

} // verus!
