use shining_emulator::loader::{
    apply_ram_size, checked_rom_properties, parse_rom_properties, RomHeaderError,
    CART_TYPE_INDEX, HEADER_CHECKSUM_INDEX, HEADER_TITLE_LEN, HEADER_TITLE_START, MIN_ROM_BYTES,
    RAM_SIZE_INDEX, ROM_SIZE_INDEX, SGB_FLAG_INDEX,
};
use shining_emulator::rom::{MemoryBankController, RomProperties};

const OFFICIAL_LOGO: [u8; 48] = [
    0xce, 0xed, 0x66, 0x66, 0xcc, 0x0d, 0x00, 0x0b, 0x03, 0x73, 0x00, 0x83, 0x00, 0x0c, 0x00, 0x0d,
    0x00, 0x08, 0x11, 0x1f, 0x88, 0x89, 0x00, 0x0e, 0xdc, 0xcc, 0x6e, 0xe6, 0xdd, 0xdd, 0xd9, 0x99,
    0xbb, 0xbb, 0x67, 0x63, 0x6e, 0x0e, 0xec, 0xcc, 0xdd, 0xdc, 0x99, 0x9f, 0xbb, 0xb9, 0x33, 0x3e,
];

fn minimal_rom(cart_type: u8, rom_size: u8, ram_size: u8) -> Vec<u8> {
    let mut rom = vec![0; MIN_ROM_BYTES];
    rom[0x0104..0x0104 + OFFICIAL_LOGO.len()].copy_from_slice(&OFFICIAL_LOGO);
    rom[HEADER_TITLE_START..HEADER_TITLE_START + 4].copy_from_slice(b"TEST");
    rom[SGB_FLAG_INDEX] = 0x00;
    rom[CART_TYPE_INDEX] = cart_type;
    rom[ROM_SIZE_INDEX] = rom_size;
    rom[RAM_SIZE_INDEX] = ram_size;
    rom[HEADER_CHECKSUM_INDEX] = 0x00;
    rom
}

#[test]
fn minimal_rom_header_loads_as_plain_game_boy_rom() {
    let rom = minimal_rom(0x00, 0x00, 0x00);

    let properties = parse_rom_properties(&rom).expect("minimal ROM should parse");

    assert!(properties.valid);
    assert_eq!(properties.mbc, MemoryBankController::RomOnly);
    assert_eq!(properties.size_bytes, MIN_ROM_BYTES as i32);
    assert!(!properties.cgb_flag);
    assert!(!properties.sgb_flag);
}

#[test]
fn unsupported_cartridge_type_is_a_header_error() {
    let rom = minimal_rom(0xff, 0x00, 0x00);

    let error = parse_rom_properties(&rom).expect_err("cartridge type should fail");

    assert!(matches!(error, RomHeaderError::UnsupportedCartridgeType(_)));
}

#[test]
fn short_files_are_not_game_boy_roms() {
    let rom = vec![0u8; MIN_ROM_BYTES - 1];
    assert_eq!(parse_rom_properties(&rom).unwrap_err(), RomHeaderError::NotGameBoyRom);
    assert_eq!(parse_rom_properties(&[]).unwrap_err(), RomHeaderError::NotGameBoyRom);
}

#[test]
fn unsupported_sizes_are_header_errors_in_check_order() {
    let rom = minimal_rom(0x01, 0x09, 0x00);
    assert_eq!(parse_rom_properties(&rom).unwrap_err(), RomHeaderError::UnsupportedRomSize(0x09));
    let rom = minimal_rom(0x01, 0x00, 0x04);
    assert_eq!(parse_rom_properties(&rom).unwrap_err(), RomHeaderError::UnsupportedRamSize(0x04));
    let rom = minimal_rom(0xff, 0x09, 0x04);
    assert_eq!(
        parse_rom_properties(&rom).unwrap_err(),
        RomHeaderError::UnsupportedCartridgeType(0xff)
    );
}

#[test]
fn cartridge_types_select_controllers_and_features() {
    let properties = parse_rom_properties(&minimal_rom(0x03, 0x01, 0x03)).unwrap();
    assert_eq!(properties.mbc, MemoryBankController::Mbc1);
    assert!(properties.has_sram);
    assert!(!properties.has_rumble);
    assert_eq!(properties.size_bytes, 65_536);
    assert_eq!(properties.bank_select_mask, 0x03);

    let properties = parse_rom_properties(&minimal_rom(0x05, 0x00, 0x00)).unwrap();
    assert_eq!(properties.mbc, MemoryBankController::Mbc2);
    assert!(properties.has_sram);

    let properties = parse_rom_properties(&minimal_rom(0x1e, 0x54, 0x00)).unwrap();
    assert_eq!(properties.mbc, MemoryBankController::Mbc5);
    assert!(properties.has_sram);
    assert!(properties.has_rumble);
    assert_eq!(properties.size_bytes, 1_572_864);
    assert_eq!(properties.bank_select_mask, 0x7f);
    assert_eq!(properties.cart_type, 0x1e);
    assert_eq!(properties.size_enum, 0x54);
}

#[test]
fn title_and_model_flags_come_from_the_header() {
    let mut rom = minimal_rom(0x00, 0x00, 0x00);
    rom[SGB_FLAG_INDEX] = 0x03;
    rom[HEADER_CHECKSUM_INDEX] = 0x5a;
    let properties = parse_rom_properties(&rom).unwrap();
    assert!(properties.sgb_flag);
    assert!(!properties.cgb_flag);
    assert_eq!(properties.check_sum, 0x5a);
    assert_eq!(&properties.title[..5], b"TEST\0");

    for (i, byte) in b"COLOURGAMEAB".iter().enumerate() {
        rom[HEADER_TITLE_START + i] = *byte;
    }
    rom[HEADER_TITLE_START + HEADER_TITLE_LEN - 1] = 0xc0;
    let properties = parse_rom_properties(&rom).unwrap();
    assert!(properties.cgb_flag);
    assert!(!properties.sgb_flag);
    assert_eq!(properties.title[10], b'A');
    assert_eq!(properties.title[11], 0);
    assert_eq!(properties.title[15], 0xc0);
    assert_eq!(properties.title[16], 0);
}

#[test]
fn declared_rom_size_must_fit_in_the_file() {
    let rom = minimal_rom(0x01, 0x01, 0x00);
    assert_eq!(
        checked_rom_properties(&rom).unwrap_err(),
        RomHeaderError::DeclaredSizeTooLarge { declared: 65_536, actual: MIN_ROM_BYTES }
    );
    let mut rom = minimal_rom(0x01, 0x01, 0x00);
    rom.resize(65_536, 0);
    assert!(checked_rom_properties(&rom).is_ok());
}

#[test]
fn ram_size_check_gives_mbc2_its_ram() {
    let mut properties = RomProperties::default();
    properties.mbc = MemoryBankController::Mbc2;
    assert!(apply_ram_size(0x00, &mut properties).is_ok());
    assert!(properties.has_sram);
    let mut properties = RomProperties::default();
    assert_eq!(apply_ram_size(0x05, &mut properties), Err(RomHeaderError::UnsupportedRamSize(0x05)));
    assert!(!properties.has_sram);
}

#[test]
fn loading_a_cartridge_resets_the_emulator_for_it() {
    let mut rom = minimal_rom(0x00, 0x00, 0x00);
    rom[0x0150] = 0x77;
    let loaded = shining_emulator::loader::LoadedRomBytes {
        file_name: "test.gb".to_string(),
        opened_file_name: "test.gb".to_string(),
        bytes: rom,
        rom_id: "rom-id".to_string(),
    };
    let mut core = shining_emulator::machine::GameBoyCore::default();

    assert!(shining_emulator::loader::install_loaded_rom(&loaded, &mut core).is_ok());

    assert_eq!(core.rom.current_rom_id, "rom-id");
    assert_eq!(core.memory.rom[0x0150], 0x77);
    assert_eq!(core.cpu_registers.pc, 0x0100);
    assert!(core.runtime.is_running);
    assert_eq!(core.audio_unit.base_running_speed as i64, core.cpu_timing.clock_frequency_hz);
}

#[test]
fn loading_a_cartridge_clears_its_ram_and_the_super_game_boy_state() {
    let rom = minimal_rom(0x03, 0x00, 0x02);
    let loaded = shining_emulator::loader::LoadedRomBytes {
        file_name: "battery.gb".to_string(),
        opened_file_name: "battery.gb".to_string(),
        bytes: rom,
        rom_id: "battery".to_string(),
    };
    let mut core = shining_emulator::machine::GameBoyCore::default();
    core.sram.data[3] = 0x55;
    core.sram.dirty = true;
    core.sgb.freeze_screen = true;
    core.sgb.packet_errors = 7;
    core.memory.oam[10] = 0x99;

    assert!(shining_emulator::loader::install_loaded_rom(&loaded, &mut core).is_ok());

    assert_eq!(core.sram.data[3], 0);
    assert!(!core.sram.dirty);
    assert!(core.sram.has_battery);
    assert_eq!(core.sram.size_bytes, 0x2000);
    assert!(!core.sgb.freeze_screen);
    assert_eq!(core.sgb.packet_errors, 0);
    assert_eq!(core.memory.oam[10], 0);
}

#[test]
fn a_refused_cartridge_stops_the_emulator() {
    let loaded = shining_emulator::loader::LoadedRomBytes {
        file_name: "short.gb".to_string(),
        opened_file_name: "short.gb".to_string(),
        bytes: vec![0; 16],
        rom_id: "short".to_string(),
    };
    let mut core = shining_emulator::machine::GameBoyCore::default();
    core.runtime.is_running = true;

    assert_eq!(
        shining_emulator::loader::load_rom_into_emulator(&loaded, &mut core),
        Err(RomHeaderError::NotGameBoyRom)
    );
    assert_eq!(
        shining_emulator::loader::install_loaded_rom(&loaded, &mut core),
        Err(RomHeaderError::NotGameBoyRom)
    );
    assert!(!core.runtime.is_running);
}
