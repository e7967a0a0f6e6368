use shining_emulator::rom::{MemoryBankController, RomProperties};
use shining_emulator::sram::{
    masked_timer_value, SramState, RAM_SIZE_INDEX, RTC_DAY_HIGH_CARRY, RTC_DAY_HIGH_DAY_BIT, RTC_DAY_HIGH_HALT,
    RTC_DAY_HIGH_INDEX, RTC_DAY_LOW_INDEX, RTC_HOURS_INDEX, RTC_MINUTES_INDEX, RTC_SECONDS_INDEX, RTC_SECOND_CLOCKS,
};

#[test]
fn battery_sram_loads_bytes_and_tracks_dirty_writes() {
    let mut sram = SramState {
        has_battery: true,
        size_bytes: 8_192,
        ..Default::default()
    };
    let mut saved_data = vec![0; 8_192];
    saved_data[0x0123] = 0x5a;

    sram.load_save_data(&saved_data);
    assert_eq!(sram.read_data(0x0123), 0x5a);
    assert!(!sram.is_dirty());

    sram.write_data(0x0123, 0x99);
    assert!(sram.is_dirty());
    assert_eq!(sram.save_data().and_then(|data| data.get(0x0123)), Some(&0x99));
}

#[test]
fn large_header_ram_sizes_are_backed_by_sram() {
    let mut rom = vec![0; 0x150];
    rom[RAM_SIZE_INDEX] = 0x04;
    let mut sram = SramState::default();

    sram.reset_for_rom_load(
        &RomProperties {
            mbc: MemoryBankController::Mbc5,
            ..Default::default()
        },
        &rom,
    );

    assert_eq!(sram.size_bytes, 131_072);
    assert_eq!(sram.bank_select_mask, 0x0f);

    rom[RAM_SIZE_INDEX] = 0x05;
    sram.reset_for_rom_load(
        &RomProperties {
            mbc: MemoryBankController::Mbc5,
            ..Default::default()
        },
        &rom,
    );

    assert_eq!(sram.size_bytes, 65_536);
    assert_eq!(sram.bank_select_mask, 0x07);
}

#[test]
fn mbc2_ram_uses_nibbles_and_echoes_bottom_nine_address_bits() {
    let mut sram = SramState {
        size_bytes: 512,
        ..Default::default()
    };

    sram.write_data(0xa000, 0xab);

    assert_eq!(sram.read_data(0xa000), 0xfb);
    assert_eq!(sram.read_data(0xa200), 0xfb);
}

#[test]
fn mbc3_rtc_ticks_latches_halts_and_carries_days() {
    let mut sram = SramState {
        has_timer: true,
        ..Default::default()
    };

    sram.write_timer_data(RTC_SECONDS_INDEX, 58);
    sram.advance_rtc(RTC_SECOND_CLOCKS);
    assert_eq!(sram.read_timer_data(RTC_SECONDS_INDEX), 59);

    sram.latch_timer_data(0);
    sram.latch_timer_data(1);
    sram.advance_rtc(RTC_SECOND_CLOCKS);
    assert_eq!(sram.read_timer_data(RTC_SECONDS_INDEX), 59);
    assert_eq!(sram.timer_data[RTC_SECONDS_INDEX], 0);
    assert_eq!(sram.timer_data[RTC_MINUTES_INDEX], 1);

    sram.latch_timer_data(0);
    sram.latch_timer_data(1);
    assert_eq!(sram.read_timer_data(RTC_SECONDS_INDEX), 0);
    assert_eq!(sram.read_timer_data(RTC_MINUTES_INDEX), 1);

    sram.write_timer_data(RTC_DAY_HIGH_INDEX, RTC_DAY_HIGH_HALT);
    sram.advance_rtc(RTC_SECOND_CLOCKS);
    assert_eq!(sram.timer_data[RTC_SECONDS_INDEX], 0);

    sram.write_timer_data(RTC_DAY_LOW_INDEX, 0xff);
    sram.write_timer_data(RTC_DAY_HIGH_INDEX, RTC_DAY_HIGH_DAY_BIT);
    sram.write_timer_data(RTC_HOURS_INDEX, 23);
    sram.write_timer_data(RTC_MINUTES_INDEX, 59);
    sram.write_timer_data(RTC_SECONDS_INDEX, 59);
    sram.advance_rtc(RTC_SECOND_CLOCKS);

    assert_eq!(sram.timer_data[RTC_DAY_LOW_INDEX], 0);
    assert_eq!(sram.timer_data[RTC_DAY_HIGH_INDEX] & RTC_DAY_HIGH_CARRY, RTC_DAY_HIGH_CARRY);
}

#[test]
fn rtc_registers_keep_only_their_valid_bits() {
    assert_eq!(masked_timer_value(RTC_SECONDS_INDEX, 0xff), 0x3f);
    assert_eq!(masked_timer_value(RTC_MINUTES_INDEX, 0xff), 0x3f);
    assert_eq!(masked_timer_value(RTC_HOURS_INDEX, 0xff), 0x1f);
    assert_eq!(masked_timer_value(RTC_DAY_LOW_INDEX, 0xff), 0xff);
    assert_eq!(masked_timer_value(RTC_DAY_HIGH_INDEX, 0xff), 0xc1);
}

#[test]
fn read_after_write_returns_the_written_byte() {
    let mut sram = SramState {
        size_bytes: 8_192,
        ..Default::default()
    };

    sram.write_data(0xa010, 0x42);

    assert_eq!(sram.read_data(0xa010), 0x42);
}

#[test]
fn sram_without_size_reads_open_bus() {
    let sram = SramState::default();

    assert_eq!(sram.read_data(0xa000), 0xff);
    assert_eq!(sram.persistence_len(), None);
}

#[test]
fn clearing_the_dirty_flag_marks_the_ram_saved() {
    let mut sram = SramState {
        has_battery: true,
        size_bytes: 2_048,
        ..Default::default()
    };
    sram.write_data(0xa000, 1);
    assert!(sram.is_dirty());

    sram.clear_dirty();

    assert!(!sram.is_dirty());
}
