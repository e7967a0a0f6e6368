use vstd::prelude::*;

use crate::constants::INITIAL_ROM_BANK_OFFSET;

verus! {

/// The memory bank controller named by a cartridge header.
#[derive(Clone, Copy, Debug, PartialEq, Eq, Structural)]
pub enum MemoryBankController {
    RomOnly,
    Mbc1,
    Mbc2,
    Mbc3,
    Mbc4,
    Mbc5,
    Mmm01,
}

impl Default for MemoryBankController {
    fn default() -> (controller: Self)
        ensures
            controller == MemoryBankController::RomOnly,
    {
        MemoryBankController::RomOnly
    }
}

/// Properties read from a cartridge header.
#[derive(Clone, Copy, Debug)]
pub struct RomProperties {
    pub valid: bool,
    pub title: [u8; 17],
    pub mbc: MemoryBankController,
    pub cgb_flag: bool,
    pub sgb_flag: bool,
    pub has_sram: bool,
    pub has_rumble: bool,
    pub size_bytes: i32,
    pub bank_select_mask: u32,
    pub mbc_mode: u32,
    pub cart_type: u32,
    pub check_sum: u32,
    pub size_enum: u32,
}

impl RomProperties {
    /// Properties of a header that has not been read: every flag clear and every number zero.
    pub open spec fn is_blank(self) -> bool {
        &&& !self.valid
        &&& (forall|i: int| 0 <= i < 17 ==> self.title@[i] == 0u8)
        &&& self.mbc == MemoryBankController::RomOnly
        &&& !self.cgb_flag
        &&& !self.sgb_flag
        &&& !self.has_sram
        &&& !self.has_rumble
        &&& self.size_bytes == 0
        &&& self.bank_select_mask == 0
        &&& self.mbc_mode == 0
        &&& self.cart_type == 0
        &&& self.check_sum == 0
        &&& self.size_enum == 0
    }
}

impl Default for RomProperties {
    fn default() -> (properties: Self)
        ensures
            properties.is_blank(),
    {
        RomProperties {
            valid: false,
            title: [0u8; 17],
            mbc: MemoryBankController::RomOnly,
            cgb_flag: false,
            sgb_flag: false,
            has_sram: false,
            has_rumble: false,
            size_bytes: 0,
            bank_select_mask: 0,
            mbc_mode: 0,
            cart_type: 0,
            check_sum: 0,
            size_enum: 0,
        }
    }
}

/// The cartridge that is loaded and the state of its bank registers.
#[derive(Debug)]
pub struct RomState {
    pub properties: RomProperties,
    pub fixed_bank_offset: u32,
    pub bank_offset: u32,
    pub mbc1_lower_bank: u8,
    pub mbc1_upper_bank: u8,
    pub suspicious_mbc_warning_logged: bool,
    pub current_rom_id: String,
    pub current_opened_file: String,
}

impl RomState {
    /// The bank registers as they stand right after a cartridge is loaded.
    pub open spec fn has_initial_banks(self) -> bool {
        &&& self.fixed_bank_offset == 0
        &&& self.bank_offset == INITIAL_ROM_BANK_OFFSET
        &&& self.mbc1_lower_bank == 1
        &&& self.mbc1_upper_bank == 0
        &&& !self.suspicious_mbc_warning_logged
    }

    /// Records a newly loaded cartridge and puts the bank registers back to their power-on values.
    pub fn reset_for_rom_load(
        &mut self,
        properties: RomProperties,
        current_rom_id: String,
        current_opened_file: String,
    )
        ensures
            final(self).has_initial_banks(),
            final(self).properties == properties,
            final(self).current_rom_id@ == current_rom_id@,
            final(self).current_opened_file@ == current_opened_file@,
    {
        self.properties = properties;
        self.fixed_bank_offset = 0;
        self.bank_offset = INITIAL_ROM_BANK_OFFSET;
        self.mbc1_lower_bank = 1;
        self.mbc1_upper_bank = 0;
        self.suspicious_mbc_warning_logged = false;
        self.current_rom_id = current_rom_id;
        self.current_opened_file = current_opened_file;
    }
}

impl RomState {
    /// The state that `default` gives.
    pub open spec fn is_default(&self) -> bool {
        &&& self.has_initial_banks()
        &&& self.properties.is_blank()
        &&& self.current_rom_id@.len() == 0
        &&& self.current_opened_file@.len() == 0
    }
}

impl Default for RomState {
    fn default() -> (rom: Self)
        ensures
            rom.is_default(),
    {
        RomState {
            properties: RomProperties::default(),
            fixed_bank_offset: 0,
            bank_offset: INITIAL_ROM_BANK_OFFSET,
            mbc1_lower_bank: 1,
            mbc1_upper_bank: 0,
            suspicious_mbc_warning_logged: false,
            current_rom_id: String::new(),
            current_opened_file: String::new(),
        }
    }
}

} // verus!
