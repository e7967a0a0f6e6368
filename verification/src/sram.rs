use vstd::prelude::*;

use crate::constants::{GB_CLOCK_HZ, SRAM_CAPACITY_BYTES};
use crate::rom::{MemoryBankController, RomProperties};

verus! {

/// Header offset of the cartridge RAM size code.
pub const RAM_SIZE_INDEX: usize = 0x0149;
pub const RTC_REGISTER_COUNT: usize = 5;
pub const RTC_SECONDS_INDEX: usize = 0;
pub const RTC_MINUTES_INDEX: usize = 1;
pub const RTC_HOURS_INDEX: usize = 2;
pub const RTC_DAY_LOW_INDEX: usize = 3;
pub const RTC_DAY_HIGH_INDEX: usize = 4;
pub const RTC_DAY_HIGH_DAY_BIT: u8 = 0x01;
pub const RTC_DAY_HIGH_HALT: u8 = 0x40;
pub const RTC_DAY_HIGH_CARRY: u8 = 0x80;
/// CPU clocks in one real-time-clock second.
pub const RTC_SECOND_CLOCKS: u32 = 4_194_304;

/// Cartridge RAM, its battery, and the MBC3 real-time clock.
#[derive(Debug)]
pub struct SramState {
    pub data: Vec<u8>,
    pub has_battery: bool,
    pub has_timer: bool,
    pub timer_data: [u8; 5],
    pub latched_timer_data: [u8; 5],
    pub timer_latched: bool,
    pub timer_clock_accumulator: u32,
    pub timer_mode: u32,
    pub timer_latch: u32,
    pub bank_offset: u32,
    pub size_enum: u8,
    pub size_bytes: u32,
    pub bank_select_mask: u8,
    pub enable_flag: bool,
    pub dirty: bool,
}

/// Bytes of cartridge RAM that a header RAM size code names.
pub open spec fn sram_size_for_code(size_enum: u8, mbc: MemoryBankController) -> u32 {
    if size_enum == 0x00 && mbc == MemoryBankController::Mbc2 {
        512
    } else if size_enum == 0x01 {
        2_048
    } else if size_enum == 0x02 {
        8_192
    } else if size_enum == 0x03 {
        32_768
    } else if size_enum == 0x04 {
        131_072
    } else if size_enum == 0x05 {
        65_536
    } else {
        0
    }
}

/// Mask of the RAM bank number for a given RAM size.
pub open spec fn sram_bank_mask_for_size(size_bytes: u32) -> u8 {
    if size_bytes <= 8_192 {
        0
    } else if size_bytes == 32_768 {
        0x03
    } else if size_bytes == 65_536 {
        0x07
    } else if size_bytes == 131_072 {
        0x0f
    } else {
        0
    }
}

/// Cartridge types whose RAM is kept by a battery.
pub open spec fn cart_type_has_battery(cart_type: u8) -> bool {
    cart_type == 0x09 || cart_type == 0x03 || cart_type == 0x06 || cart_type == 0x0f
        || cart_type == 0x10 || cart_type == 0x13 || cart_type == 0x1b || cart_type == 0x1e
}

/// Cartridge types with an MBC3 real-time clock.
pub open spec fn cart_type_has_timer(cart_type: u8) -> bool {
    cart_type == 0x0f || cart_type == 0x10
}

/// The value kept when `value` is written to real-time-clock register `timer_index`.
pub open spec fn spec_masked_timer_value(timer_index: usize, value: u8) -> u8 {
    if timer_index == RTC_SECONDS_INDEX || timer_index == RTC_MINUTES_INDEX {
        value & 0x3f
    } else if timer_index == RTC_HOURS_INDEX {
        value & 0x1f
    } else if timer_index == RTC_DAY_LOW_INDEX {
        value
    } else if timer_index == RTC_DAY_HIGH_INDEX {
        value & 0xc1
    } else {
        0xff
    }
}

/// Index into the RAM data that a cartridge address reaches, if any.
pub open spec fn spec_data_index(bank_offset: u32, size_bytes: u32, address: usize) -> Option<int> {
    if size_bytes == 0 {
        None
    } else {
        let window: int = if size_bytes < 0x2000 { size_bytes as int } else { 0x2000 };
        let offset: int = (address & 0x1fff) as int % window;
        let index: int = bank_offset as int + offset;
        if index > usize::MAX || index >= size_bytes {
            None
        } else {
            Some(index)
        }
    }
}

/// The day counter held in the two day registers.
pub open spec fn rtc_day(low: u8, high: u8) -> int {
    low as int + 256 * (if high & 0x01 == 0x01 { 1int } else { 0int })
}

/// Register values after one second with the two-step wrap of the day counter.
pub open spec fn rtc_increment_day(r: Seq<u8>) -> Seq<u8> {
    let day_high = r[4];
    let day = rtc_day(r[3], day_high);
    if day == 0x01ff {
        r.update(4, (day_high | 0x80) & 0xc0).update(3, 0u8)
    } else {
        let next = day + 1;
        r.update(4, ((day_high & 0xc0) | (if next >= 256 { 1u8 } else { 0u8 }))).update(
            3,
            (next % 256) as u8,
        )
    }
}

/// The real-time-clock registers after one more second has passed.
pub open spec fn rtc_increment_second(r: Seq<u8>) -> Seq<u8> {
    let s = if r[0] == 255 { 255u8 } else { (r[0] + 1) as u8 };
    if s < 60 {
        r.update(0, s)
    } else {
        let r1 = r.update(0, 0u8);
        let m = if r1[1] == 255 { 255u8 } else { (r1[1] + 1) as u8 };
        if m < 60 {
            r1.update(1, m)
        } else {
            let r2 = r1.update(1, 0u8);
            let h = if r2[2] == 255 { 255u8 } else { (r2[2] + 1) as u8 };
            if h < 24 {
                r2.update(2, h)
            } else {
                rtc_increment_day(r2.update(2, 0u8))
            }
        }
    }
}

/// The real-time-clock registers after `n` more seconds.
pub open spec fn rtc_increment_seconds(r: Seq<u8>, n: nat) -> Seq<u8>
    decreases n,
{
    if n == 0 {
        r
    } else {
        rtc_increment_second(rtc_increment_seconds(r, (n - 1) as nat))
    }
}

/// Seconds since day zero that a register set in range holds.
pub open spec fn rtc_total_seconds(r: Seq<u8>) -> int {
    r[0] as int + 60 * r[1] as int + 3600 * r[2] as int + 86400 * rtc_day(r[3], r[4])
}

/// A register set whose fields all lie in their counting ranges.
pub open spec fn rtc_in_range(r: Seq<u8>) -> bool {
    r.len() == 5 && r[0] < 60 && r[1] < 60 && r[2] < 24
}

/// Seconds in the 512 days that the day counter spans.
pub open spec fn rtc_period() -> int {
    512int * 86400int
}

/// Saturating addition of two `u32` values.
pub open spec fn u32_saturating_add(a: u32, b: u32) -> u32 {
    if a + b > u32::MAX { u32::MAX } else { (a + b) as u32 }
}

/// The real-time clock counts seconds: for registers in range, one more second adds one to the
/// seconds since day zero, modulo the 512 days of the day counter; the registers stay in range,
/// the halt flag is kept, and the carry flag is set exactly when the count wraps (or was set).
pub proof fn lemma_rtc_second_counts_one(r: Seq<u8>)
    requires
        rtc_in_range(r),
    ensures
        rtc_in_range(rtc_increment_second(r)),
        rtc_total_seconds(rtc_increment_second(r)) == (rtc_total_seconds(r) + 1) % rtc_period(),
        rtc_increment_second(r)[4] & 0x40 == r[4] & 0x40,
        (rtc_increment_second(r)[4] & 0x80 == 0x80) == (r[4] & 0x80 == 0x80
            || rtc_total_seconds(r) + 1 == rtc_period()),
{
    let high = r[4];
    let low = r[3];
    assert((high & 0x01 == 0x01 || high & 0x01 == 0) && ((high | 0x80) & 0xc0) & 0x01 == 0 && ((high | 0x80) & 0xc0)
        & 0x40 == high & 0x40 && ((high | 0x80) & 0xc0) & 0x80 == 0x80 && ((high & 0xc0) | 1) & 0x01 == 0x01 && ((high
        & 0xc0) | 0) & 0x01 == 0 && ((high & 0xc0) | 1) & 0x40 == high & 0x40 && ((high & 0xc0) | 0) & 0x40 == high
        & 0x40 && ((high & 0xc0) | 1) & 0x80 == high & 0x80 && ((high & 0xc0) | 0) & 0x80 == high & 0x80 && (high
        & 0x80 == 0x80 || high & 0x80 == 0)) by (bit_vector);
    let day = rtc_day(low, high);
    assert(0 <= day <= 511);
    let t = rtc_total_seconds(r);
    assert(0 <= t < rtc_period());
    let n = rtc_increment_second(r);
    if r[0] < 59 {
        assert(rtc_total_seconds(n) == t + 1);
    } else if r[1] < 59 {
        assert(rtc_total_seconds(n) == t + 1);
    } else if r[2] < 23 {
        assert(rtc_total_seconds(n) == t + 1);
    } else if day == 511 {
        assert(t + 1 == rtc_period());
        assert(rtc_total_seconds(n) == 0);
    } else {
        assert(rtc_total_seconds(n) == t + 1);
    }
    assert(t + 1 < rtc_period() ==> (t + 1) % rtc_period() == t + 1);
}

/// A read of cartridge RAM gives back what the last write to that address wrote (only its low
/// nibble, under a set upper nibble, on 512-byte MBC2 RAM); an address outside the RAM reads 0xff.
pub proof fn lemma_sram_read_after_write(
    before: &SramState,
    after: &SramState,
    address: usize,
    value: u8,
)
    requires
        after.same_configuration(before),
        after.data@ == before.spec_written_data(address, value),
    ensures
        after.spec_read_data(address) == (match spec_data_index(
            before.bank_offset,
            before.size_bytes,
            address,
        ) {
            Some(index) => if index < before.data@.len() {
                if before.size_bytes == 512 {
                    0xf0 | (value & 0x0f)
                } else {
                    value
                }
            } else {
                0xffu8
            },
            None => 0xffu8,
        }),
{
    assert((value & 0x0f) & 0x0f == value & 0x0f && 0xf0u8 | (0xffu8 & 0x0fu8) == 0xffu8) by (bit_vector);
    match spec_data_index(before.bank_offset, before.size_bytes, address) {
        Some(index) => {
            if index < before.data@.len() {
                if before.data@[index] != value {
                    assert(after.data@[index] == (if before.size_bytes == 512 {
                        value & 0x0f
                    } else {
                        value
                    }));
                } else {
                    assert(after.data@[index] == value);
                }
                assert(spec_data_index(after.bank_offset, after.size_bytes, address) == Some(index));
                assert(index < after.data@.len());
                if before.size_bytes == 512 {
                    assert(0xf0 | (after.data@[index] & 0x0f) == 0xf0 | (value & 0x0f));
                } else {
                    assert(after.data@[index] == value);
                }
            }
        },
        None => {},
    }
}

impl SramState {
    /// Bytes of cartridge RAM that a battery keeps, if they are kept at all.
    pub open spec fn spec_persistence_len(&self) -> Option<int> {
        if !self.has_battery || self.size_bytes == 0 {
            None
        } else if self.size_bytes as int <= self.data@.len() {
            Some(self.size_bytes as int)
        } else {
            Some(self.data@.len() as int)
        }
    }

    /// The value that a read of cartridge RAM at `address` gives.
    pub open spec fn spec_read_data(&self, address: usize) -> u8 {
        match spec_data_index(self.bank_offset, self.size_bytes, address) {
            None => 0xff,
            Some(index) => {
                let value: u8 = if index < self.data@.len() { self.data@[index] } else { 0xff };
                if self.size_bytes == 512 {
                    0xf0 | (value & 0x0f)
                } else {
                    value
                }
            },
        }
    }

    /// Whether a write of `value` at `address` reaches a RAM slot that holds another value.
    pub open spec fn spec_write_changes_slot(&self, address: usize, value: u8) -> bool {
        match spec_data_index(self.bank_offset, self.size_bytes, address) {
            Some(index) => index < self.data@.len() && self.data@[index] != value,
            None => false,
        }
    }

    /// The RAM data after `value` is written at `address`.
    pub open spec fn spec_written_data(&self, address: usize, value: u8) -> Seq<u8> {
        match spec_data_index(self.bank_offset, self.size_bytes, address) {
            Some(index) => if index < self.data@.len() && self.data@[index] != value {
                self.data@.update(index, if self.size_bytes == 512 { value & 0x0f } else { value })
            } else {
                self.data@
            },
            None => self.data@,
        }
    }

    /// The value that a read of real-time-clock register `timer_index` gives.
    pub open spec fn spec_read_timer_data(&self, timer_index: usize) -> u8 {
        if timer_index >= RTC_REGISTER_COUNT {
            0xff
        } else if self.timer_latched {
            self.latched_timer_data@[timer_index as int]
        } else {
            self.timer_data@[timer_index as int]
        }
    }

    /// Fields of cartridge RAM other than its contents and clock are unchanged.
    pub open spec fn same_configuration(&self, other: &SramState) -> bool {
        &&& self.has_battery == other.has_battery
        &&& self.has_timer == other.has_timer
        &&& self.timer_mode == other.timer_mode
        &&& self.bank_offset == other.bank_offset
        &&& self.size_enum == other.size_enum
        &&& self.size_bytes == other.size_bytes
        &&& self.bank_select_mask == other.bank_select_mask
        &&& self.enable_flag == other.enable_flag
    }

    /// The clock fields are unchanged.
    pub open spec fn same_clock(&self, other: &SramState) -> bool {
        &&& self.timer_data == other.timer_data
        &&& self.latched_timer_data == other.latched_timer_data
        &&& self.timer_latched == other.timer_latched
        &&& self.timer_clock_accumulator == other.timer_clock_accumulator
        &&& self.timer_latch == other.timer_latch
    }

    /// The cartridge RAM that loading a cartridge with header `properties` and image
    /// `rom_bytes` sets up: cleared, its battery and clock from the cartridge type, its size
    /// from the header, disabled and clean.
    pub open spec fn loaded_for(&self, properties: &RomProperties, rom_bytes: Seq<u8>) -> bool {
        &&& self.data@ =~= Seq::new(SRAM_CAPACITY_BYTES as nat, |i: int| 0u8)
        &&& self.has_battery == cart_type_has_battery(properties.cart_type as u8)
        &&& self.has_timer == cart_type_has_timer(properties.cart_type as u8)
        &&& self.timer_data@ =~= seq![0u8, 0u8, 0u8, 0u8, 0u8]
        &&& self.latched_timer_data@ =~= seq![0u8, 0u8, 0u8, 0u8, 0u8]
        &&& !self.timer_latched
        &&& self.timer_clock_accumulator == 0
        &&& self.timer_mode == 0
        &&& self.timer_latch == 0
        &&& self.bank_offset == 0
        &&& self.size_enum == (if RAM_SIZE_INDEX < rom_bytes.len() {
            rom_bytes[RAM_SIZE_INDEX as int]
        } else {
            0u8
        })
        &&& self.size_bytes == sram_size_for_code(self.size_enum, properties.mbc)
        &&& self.bank_select_mask == sram_bank_mask_for_size(self.size_bytes)
        &&& !self.enable_flag
        &&& !self.dirty
    }

    /// Clears cartridge RAM and reads its size, battery and clock from a new cartridge header.
    pub fn reset_for_rom_load(&mut self, properties: &RomProperties, rom_bytes: &[u8])
        ensures
            final(self).loaded_for(properties, rom_bytes@),
    {
        if self.data.len() == SRAM_CAPACITY_BYTES {
            let mut i: usize = 0;
            while i < self.data.len()
                invariant
                    self.data@.len() == SRAM_CAPACITY_BYTES,
                    i <= self.data@.len(),
                    forall|j: int| 0 <= j < i ==> self.data@[j] == 0u8,
                decreases self.data@.len() - i,
            {
                self.data[i] = 0;
                i += 1;
            }
            assert(self.data@ =~= Seq::new(SRAM_CAPACITY_BYTES as nat, |i: int| 0u8));
        } else {
            self.data = vec![0u8; SRAM_CAPACITY_BYTES];
            assert(self.data@ =~= Seq::new(SRAM_CAPACITY_BYTES as nat, |i: int| 0u8));
        }
        self.has_battery = false;
        self.has_timer = false;
        self.timer_data = [0u8; 5];
        self.latched_timer_data = [0u8; 5];
        self.timer_latched = false;
        self.timer_clock_accumulator = 0;
        self.timer_mode = 0;
        self.timer_latch = 0;
        self.bank_offset = 0;
        self.size_enum = 0;
        self.size_bytes = 0;
        self.bank_select_mask = 0;
        self.enable_flag = false;
        self.dirty = false;

        let cart_type = properties.cart_type as u8;
        let size_enum: u8 = if RAM_SIZE_INDEX < rom_bytes.len() {
            rom_bytes[RAM_SIZE_INDEX]
        } else {
            0
        };
        self.size_enum = size_enum;
        self.has_battery = cart_type == 0x09 || cart_type == 0x03 || cart_type == 0x06
            || cart_type == 0x0f || cart_type == 0x10 || cart_type == 0x13 || cart_type == 0x1b
            || cart_type == 0x1e;
        self.has_timer = cart_type == 0x0f || cart_type == 0x10;
        self.size_bytes = if size_enum == 0x00 && properties.mbc == MemoryBankController::Mbc2 {
            512
        } else if size_enum == 0x01 {
            2_048
        } else if size_enum == 0x02 {
            8_192
        } else if size_enum == 0x03 {
            32_768
        } else if size_enum == 0x04 {
            131_072
        } else if size_enum == 0x05 {
            65_536
        } else {
            0
        };
        self.bank_select_mask = if self.size_bytes <= 8_192 {
            0
        } else if self.size_bytes == 32_768 {
            0x03
        } else if self.size_bytes == 65_536 {
            0x07
        } else if self.size_bytes == 131_072 {
            0x0f
        } else {
            0
        };
    }

    /// Bytes of cartridge RAM that are saved: none without a battery or RAM, else the RAM size.
    pub fn persistence_len(&self) -> (len: Option<usize>)
        ensures
            match len {
                None => self.spec_persistence_len() is None,
                Some(n) => self.spec_persistence_len() == Some(n as int),
            },
    {
        if !self.has_battery || self.size_bytes == 0 {
            return None;
        }
        let size_bytes = self.size_bytes as usize;
        if size_bytes <= self.data.len() {
            Some(size_bytes)
        } else {
            Some(self.data.len())
        }
    }

    /// Loads saved battery RAM: copies as many bytes as both sides hold and marks the RAM clean.
    pub fn load_save_data(&mut self, saved_data: &[u8])
        ensures
            match old(self).spec_persistence_len() {
                None => *final(self) == *old(self),
                Some(n) => {
                    let copy_len = if saved_data@.len() < n { saved_data@.len() as int } else { n };
                    &&& final(self).data@ == saved_data@.subrange(0, copy_len) + old(self).data@.subrange(
                        copy_len,
                        old(self).data@.len() as int,
                    )
                    &&& !final(self).dirty
                    &&& final(self).same_configuration(old(self))
                    &&& final(self).same_clock(old(self))
                },
            },
    {
        let size_bytes = match self.persistence_len() {
            None => return ,
            Some(n) => n,
        };
        let copy_len = if saved_data.len() < size_bytes {
            saved_data.len()
        } else {
            size_bytes
        };
        let ghost old_data = self.data@;
        let mut i: usize = 0;
        while i < copy_len
            invariant
                copy_len <= saved_data@.len(),
                copy_len <= old_data.len(),
                self.data@.len() == old_data.len(),
                i <= copy_len,
                forall|j: int| 0 <= j < i ==> self.data@[j] == saved_data@[j],
                forall|j: int| i <= j < old_data.len() ==> self.data@[j] == old_data[j],
                self.same_configuration(old(self)),
                self.same_clock(old(self)),
            decreases copy_len - i,
        {
            self.data[i] = saved_data[i];
            i += 1;
        }
        assert(self.data@ =~= saved_data@.subrange(0, copy_len as int) + old_data.subrange(
            copy_len as int,
            old_data.len() as int,
        ));
        self.dirty = false;
    }

    /// The battery-kept bytes of cartridge RAM, if the cartridge keeps any.
    pub fn save_data(&self) -> (saved: Option<&[u8]>)
        ensures
            match self.spec_persistence_len() {
                None => saved is None,
                Some(n) => saved is Some && saved.unwrap()@ == self.data@.subrange(0, n),
            },
    {
        match self.persistence_len() {
            None => None,
            Some(n) => Some(vstd::slice::slice_subrange(self.data.as_slice(), 0, n)),
        }
    }

    /// Whether cartridge RAM has changed since it was last saved.
    pub fn is_dirty(&self) -> (dirty: bool)
        ensures
            dirty == self.dirty,
    {
        self.dirty
    }

    /// Marks cartridge RAM as saved.
    pub fn clear_dirty(&mut self)
        ensures
            !final(self).dirty,
            final(self).data == old(self).data,
            final(self).same_configuration(old(self)),
            final(self).same_clock(old(self)),
    {
        self.dirty = false;
    }

    /// Sets whether cartridge RAM counts as changed since it was last saved.
    pub fn set_dirty(&mut self, dirty: bool)
        ensures
            final(self).dirty == dirty,
            final(self).data == old(self).data,
            final(self).same_configuration(old(self)),
            final(self).same_clock(old(self)),
    {
        self.dirty = dirty;
    }

    /// Reads cartridge RAM; MBC2 RAM holds nibbles, read back with the upper four bits set.
    pub fn read_data(&self, address: usize) -> (value: u8)
        ensures
            value == self.spec_read_data(address),
    {
        let index = match self.data_index(address) {
            None => return 0xff,
            Some(index) => index,
        };
        let value: u8 = if index < self.data.len() {
            self.data[index]
        } else {
            0xff
        };
        if self.size_bytes == 512 {
            0xf0 | (value & 0x0f)
        } else {
            value
        }
    }

    /// Writes cartridge RAM; MBC2 RAM keeps the low nibble; a change marks battery RAM dirty.
    pub fn write_data(&mut self, address: usize, value: u8)
        ensures
            final(self).same_configuration(old(self)),
            final(self).same_clock(old(self)),
            final(self).data@ == old(self).spec_written_data(address, value),
            final(self).dirty == (old(self).dirty || (old(self).has_battery
                && old(self).spec_write_changes_slot(address, value))),
    {
        let index = match self.data_index(address) {
            None => return ,
            Some(index) => index,
        };
        if index < self.data.len() {
            if self.data[index] == value {
                return ;
            }
            let value = if self.size_bytes == 512 {
                value & 0x0f
            } else {
                value
            };
            self.data[index] = value;
            self.dirty = self.dirty || self.has_battery;
        }
    }

    /// Reads a real-time-clock register: the latched copy once a latch has happened.
    pub fn read_timer_data(&self, timer_index: usize) -> (value: u8)
        ensures
            value == self.spec_read_timer_data(timer_index),
    {
        if timer_index >= RTC_REGISTER_COUNT {
            return 0xff;
        }
        if self.timer_latched {
            self.latched_timer_data[timer_index]
        } else {
            self.timer_data[timer_index]
        }
    }

    /// Writes a real-time-clock register, keeping only the bits that register has.
    pub fn write_timer_data(&mut self, timer_index: usize, value: u8)
        ensures
            final(self).timer_data@ == (if timer_index < RTC_REGISTER_COUNT {
                old(self).timer_data@.update(
                    timer_index as int,
                    spec_masked_timer_value(timer_index, value),
                )
            } else {
                old(self).timer_data@
            }),
            final(self).latched_timer_data == old(self).latched_timer_data,
            final(self).timer_latched == old(self).timer_latched,
            final(self).timer_clock_accumulator == old(self).timer_clock_accumulator,
            final(self).timer_latch == old(self).timer_latch,
            final(self).data == old(self).data,
            final(self).dirty == old(self).dirty,
            final(self).same_configuration(old(self)),
    {
        if timer_index < RTC_REGISTER_COUNT {
            self.timer_data[timer_index] = masked_timer_value(timer_index, value);
        }
    }

    /// Handles a write to the latch register: a 0 then 1 copies the clock into the latched registers.
    pub fn latch_timer_data(&mut self, value: u8)
        ensures
            final(self).timer_latch == (value & 0x01) as u32,
            (old(self).timer_latch == 0 && value & 0x01 == 1) ==> {
                &&& final(self).latched_timer_data == old(self).timer_data
                &&& final(self).timer_latched
            },
            !(old(self).timer_latch == 0 && value & 0x01 == 1) ==> {
                &&& final(self).latched_timer_data == old(self).latched_timer_data
                &&& final(self).timer_latched == old(self).timer_latched
            },
            final(self).timer_data == old(self).timer_data,
            final(self).timer_clock_accumulator == old(self).timer_clock_accumulator,
            final(self).data == old(self).data,
            final(self).dirty == old(self).dirty,
            final(self).same_configuration(old(self)),
    {
        let latch: u32 = (value & 0x01) as u32;
        if self.timer_latch == 0 && latch == 1 {
            self.latched_timer_data = self.timer_data;
            self.timer_latched = true;
        }
        self.timer_latch = latch;
    }

    /// What letting `clocks` CPU clocks pass on the real-time clock does: nothing when it is
    /// absent or halted; otherwise the clocks accumulate and every whole second counts on.
    pub open spec fn rtc_advanced(&self, new: &Self, clocks: u32) -> bool {
        &&& (!self.has_timer || self.timer_data@[4] & 0x40 != 0) ==> *new == *self
        &&& (self.has_timer && self.timer_data@[4] & 0x40 == 0) ==> {
            let total = u32_saturating_add(self.timer_clock_accumulator, clocks);
            &&& new.timer_clock_accumulator == total % RTC_SECOND_CLOCKS
            &&& new.timer_data@ == rtc_increment_seconds(self.timer_data@, (total / RTC_SECOND_CLOCKS) as nat)
            &&& new.latched_timer_data == self.latched_timer_data
            &&& new.timer_latched == self.timer_latched
            &&& new.timer_latch == self.timer_latch
            &&& new.data == self.data
            &&& new.dirty == self.dirty
            &&& new.same_configuration(self)
        }
    }

    /// Lets `clocks` CPU clocks pass on the real-time clock, unless it is absent or halted.
    pub fn advance_rtc(&mut self, clocks: u32)
        ensures
            old(self).rtc_advanced(final(self), clocks),
    {
        if !self.has_timer || self.timer_data[RTC_DAY_HIGH_INDEX] & RTC_DAY_HIGH_HALT != 0 {
            return ;
        }
        let total = self.timer_clock_accumulator.saturating_add(clocks);
        self.timer_clock_accumulator = total;
        let ghost start = self.timer_data@;
        let ghost mut ticks: nat = 0;
        while self.timer_clock_accumulator >= RTC_SECOND_CLOCKS
            invariant
                self.timer_clock_accumulator as int + ticks * RTC_SECOND_CLOCKS == total as int,
                self.timer_data@ == rtc_increment_seconds(start, ticks),
                self.timer_data@.len() == 5,
                self.latched_timer_data == old(self).latched_timer_data,
                self.timer_latched == old(self).timer_latched,
                self.timer_latch == old(self).timer_latch,
                self.data == old(self).data,
                self.dirty == old(self).dirty,
                self.same_configuration(old(self)),
            decreases self.timer_clock_accumulator,
        {
            self.timer_clock_accumulator = self.timer_clock_accumulator - RTC_SECOND_CLOCKS;
            self.increment_rtc_second();
            proof {
                ticks = ticks + 1;
            }
        }
        assert(total as int == self.timer_clock_accumulator as int + ticks * RTC_SECOND_CLOCKS);
        assert(ticks == total / RTC_SECOND_CLOCKS) by (nonlinear_arith)
            requires
                total as int == self.timer_clock_accumulator as int + ticks * RTC_SECOND_CLOCKS,
                self.timer_clock_accumulator < RTC_SECOND_CLOCKS,
        ;
    }

    /// Counts one second on the real-time clock, carrying into minutes, hours and days.
    pub fn increment_rtc_second(&mut self)
        ensures
            final(self).timer_data@ == rtc_increment_second(old(self).timer_data@),
            final(self).latched_timer_data == old(self).latched_timer_data,
            final(self).timer_latched == old(self).timer_latched,
            final(self).timer_clock_accumulator == old(self).timer_clock_accumulator,
            final(self).timer_latch == old(self).timer_latch,
            final(self).data == old(self).data,
            final(self).dirty == old(self).dirty,
            final(self).same_configuration(old(self)),
    {
        let ghost r = self.timer_data@;
        self.timer_data[RTC_SECONDS_INDEX] = self.timer_data[RTC_SECONDS_INDEX].saturating_add(1);
        if self.timer_data[RTC_SECONDS_INDEX] < 60 {
            assert(self.timer_data@ =~= rtc_increment_second(r));
            return ;
        }
        self.timer_data[RTC_SECONDS_INDEX] = 0;
        self.timer_data[RTC_MINUTES_INDEX] = self.timer_data[RTC_MINUTES_INDEX].saturating_add(1);
        if self.timer_data[RTC_MINUTES_INDEX] < 60 {
            assert(self.timer_data@ =~= rtc_increment_second(r));
            return ;
        }
        self.timer_data[RTC_MINUTES_INDEX] = 0;
        self.timer_data[RTC_HOURS_INDEX] = self.timer_data[RTC_HOURS_INDEX].saturating_add(1);
        if self.timer_data[RTC_HOURS_INDEX] < 24 {
            assert(self.timer_data@ =~= rtc_increment_second(r));
            return ;
        }
        self.timer_data[RTC_HOURS_INDEX] = 0;
        let ghost r2 = self.timer_data@;
        self.increment_rtc_day();
        assert(self.timer_data@ =~= rtc_increment_second(r));
    }

    /// Counts one day; after day 511 the counter wraps to 0 and sets the carry flag.
    pub fn increment_rtc_day(&mut self)
        ensures
            final(self).timer_data@ == rtc_increment_day(old(self).timer_data@),
            final(self).latched_timer_data == old(self).latched_timer_data,
            final(self).timer_latched == old(self).timer_latched,
            final(self).timer_clock_accumulator == old(self).timer_clock_accumulator,
            final(self).timer_latch == old(self).timer_latch,
            final(self).data == old(self).data,
            final(self).dirty == old(self).dirty,
            final(self).same_configuration(old(self)),
    {
        let ghost r = self.timer_data@;
        let day_high = self.timer_data[RTC_DAY_HIGH_INDEX];
        let low = self.timer_data[RTC_DAY_LOW_INDEX];
        let mut day: u16 = (low as u16) | (((day_high & RTC_DAY_HIGH_DAY_BIT) as u16) << 8);
        assert((low as u16) | (((day_high & 0x01) as u16) << 8) == low as u16 + 256 * (if day_high & 0x01 == 0x01 {
            1u16
        } else {
            0u16
        }) && (day_high & 0x01 == 0x01 || day_high & 0x01 == 0) && 0x40u8 | 0x80u8 == 0xc0u8) by (bit_vector);
        if day == 0x01ff {
            day = 0;
            self.timer_data[RTC_DAY_HIGH_INDEX] = (day_high | RTC_DAY_HIGH_CARRY) & 0xc0;
            self.timer_data[RTC_DAY_LOW_INDEX] = 0;
        } else {
            day = day + 1;
            assert(day <= 0x1ff);
            let high_bit: u8 = (#[verifier::truncate] ((day >> 8) as u8)) & RTC_DAY_HIGH_DAY_BIT;
            assert((day <= 0x1ff ==> (#[verifier::truncate] ((day >> 8) as u8)) & 0x01 == (if day >= 256 {
                1u8
            } else {
                0u8
            })) && (#[verifier::truncate] (day as u8)) == (day as int % 256)) by (bit_vector);
            self.timer_data[RTC_DAY_HIGH_INDEX] = (day_high & (RTC_DAY_HIGH_HALT | RTC_DAY_HIGH_CARRY))
                | high_bit;
            let low_byte: u8 = #[verifier::truncate] (day as u8);
            self.timer_data[RTC_DAY_LOW_INDEX] = low_byte;
        }
        assert(self.timer_data@ =~= rtc_increment_day(r));
    }

    /// Where a cartridge RAM address lands in the RAM data, if it lands inside the RAM.
    pub fn data_index(&self, address: usize) -> (index: Option<usize>)
        ensures
            match index {
                None => spec_data_index(self.bank_offset, self.size_bytes, address) is None,
                Some(i) => spec_data_index(self.bank_offset, self.size_bytes, address) == Some(
                    i as int,
                ),
            },
    {
        if self.size_bytes == 0 {
            return None;
        }
        let bank_offset = self.bank_offset as usize;
        let size = self.size_bytes as usize;
        let window: usize = if size < 0x2000 {
            size
        } else {
            0x2000
        };
        let offset = (address & 0x1fff) % window;
        match bank_offset.checked_add(offset) {
            None => None,
            Some(index) => if index < size {
                Some(index)
            } else {
                None
            },
        }
    }
}

/// The value kept when `value` is written to real-time-clock register `timer_index`.
pub fn masked_timer_value(timer_index: usize, value: u8) -> (masked: u8)
    ensures
        masked == spec_masked_timer_value(timer_index, value),
{
    if timer_index == RTC_SECONDS_INDEX || timer_index == RTC_MINUTES_INDEX {
        value & 0x3f
    } else if timer_index == RTC_HOURS_INDEX {
        value & 0x1f
    } else if timer_index == RTC_DAY_LOW_INDEX {
        value
    } else if timer_index == RTC_DAY_HIGH_INDEX {
        assert(0x01u8 | 0x40u8 | 0x80u8 == 0xc1u8) by (bit_vector);
        value & (RTC_DAY_HIGH_DAY_BIT | RTC_DAY_HIGH_HALT | RTC_DAY_HIGH_CARRY)
    } else {
        0xff
    }
}

impl SramState {
    /// The state that `default` gives.
    pub open spec fn is_default(&self) -> bool {
        &&& self.data@ == Seq::new(SRAM_CAPACITY_BYTES as nat, |i: int| 0u8)
        &&& !self.has_battery
        &&& !self.has_timer
        &&& self.timer_data@ == seq![0u8, 0u8, 0u8, 0u8, 0u8]
        &&& self.latched_timer_data@ == seq![0u8, 0u8, 0u8, 0u8, 0u8]
        &&& !self.timer_latched
        &&& self.timer_clock_accumulator == 0
        &&& self.timer_mode == 0
        &&& self.timer_latch == 0
        &&& self.bank_offset == 0
        &&& self.size_enum == 0
        &&& self.size_bytes == 0
        &&& self.bank_select_mask == 0
        &&& !self.enable_flag
        &&& !self.dirty
    }
}

impl Default for SramState {
    fn default() -> (sram: Self)
        ensures
            sram.is_default(),
    {
        let data = vec![0u8; SRAM_CAPACITY_BYTES];
        assert(data@ =~= Seq::new(SRAM_CAPACITY_BYTES as nat, |i: int| 0u8));
        let sram = SramState {
            data,
            has_battery: false,
            has_timer: false,
            timer_data: [0u8; 5],
            latched_timer_data: [0u8; 5],
            timer_latched: false,
            timer_clock_accumulator: 0,
            timer_mode: 0,
            timer_latch: 0,
            bank_offset: 0,
            size_enum: 0,
            size_bytes: 0,
            bank_select_mask: 0,
            enable_flag: false,
            dirty: false,
        };
        assert(sram.timer_data@ =~= seq![0u8, 0u8, 0u8, 0u8, 0u8]);
        assert(sram.latched_timer_data@ =~= seq![0u8, 0u8, 0u8, 0u8, 0u8]);
        sram
    }
}

} // verus!
