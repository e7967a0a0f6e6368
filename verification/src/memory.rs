use vstd::prelude::*;

use crate::constants::{
    IO_PORT_BYTES, OAM_BYTES, ROM_CAPACITY_BYTES, TILE_SET_PIXELS, VRAM_BYTES, WRAM_BYTES,
};

verus! {

/// The memories of the console: cartridge ROM, work RAM, video RAM, I/O ports, OAM, and the
/// tile set decoded from video RAM (one colour index per pixel).
#[derive(Debug)]
pub struct GameBoyMemory {
    pub rom: Vec<u8>,
    pub wram: Vec<u8>,
    pub vram: Vec<u8>,
    pub io_ports: Vec<u8>,
    pub oam: [u8; 160],
    pub tile_set: Vec<u32>,
}

/// The I/O port values that the boot ROM leaves behind, by port index.
pub open spec fn initial_io_port(index: int) -> Option<u8> {
    if index == 0x00 { Some(0xcfu8) }
    else if index == 0x01 { Some(0x00u8) }
    else if index == 0x02 { Some(0x7eu8) }
    else if index == 0x05 { Some(0x00u8) }
    else if index == 0x06 { Some(0x00u8) }
    else if index == 0x07 { Some(0xf8u8) }
    else if index == 0x0f { Some(0xe1u8) }
    else if index == 0x10 { Some(0x80u8) }
    else if index == 0x11 { Some(0xbfu8) }
    else if index == 0x12 { Some(0xf3u8) }
    else if index == 0x13 { Some(0xffu8) }
    else if index == 0x14 { Some(0xbfu8) }
    else if index == 0x16 { Some(0x3fu8) }
    else if index == 0x17 { Some(0x00u8) }
    else if index == 0x18 { Some(0xffu8) }
    else if index == 0x19 { Some(0xbfu8) }
    else if index == 0x1a { Some(0x7fu8) }
    else if index == 0x1b { Some(0xffu8) }
    else if index == 0x1c { Some(0x9fu8) }
    else if index == 0x1d { Some(0xffu8) }
    else if index == 0x1e { Some(0xbfu8) }
    else if index == 0x20 { Some(0xffu8) }
    else if index == 0x21 { Some(0x00u8) }
    else if index == 0x22 { Some(0x00u8) }
    else if index == 0x23 { Some(0xbfu8) }
    else if index == 0x24 { Some(0x77u8) }
    else if index == 0x25 { Some(0xf3u8) }
    else if index == 0x26 { Some(0xf1u8) }
    else if index == 0x40 { Some(0x91u8) }
    else if index == 0x41 { Some(0x85u8) }
    else if index == 0x42 { Some(0x00u8) }
    else if index == 0x43 { Some(0x00u8) }
    else if index == 0x45 { Some(0x00u8) }
    else if index == 0x46 { Some(0xffu8) }
    else if index == 0x47 { Some(0xfcu8) }
    else if index == 0x48 { Some(0xffu8) }
    else if index == 0x49 { Some(0xffu8) }
    else if index == 0x4a { Some(0x00u8) }
    else if index == 0x4b { Some(0x00u8) }
    else if index == 0x50 { Some(0x01u8) }
    else if index == 0x55 { Some(0xffu8) }
    else if index == 0xff { Some(0x00u8) }
    else { None }
}

/// Colour index (0 to 3) of pixel `pixel` (0 is the leftmost) of a tile row stored as two bytes:
/// the low bit comes from the first byte, the high bit from the second.
pub open spec fn tile_row_pixel(byte1: u8, byte2: u8, pixel: int) -> u32 {
    let shift = (7 - pixel) as u8;
    ((((byte2 >> shift) & 0x01) << 1u8) | ((byte1 >> shift) & 0x01)) as u32
}

/// Where the decoded pixels of the tile row at `row_address` of a VRAM bank start.
pub open spec fn tile_row_output(bank_offset: usize, row_address: int) -> int {
    row_address * 4 + if bank_offset != 0 { 24_576int } else { 0int }
}

/// Whether every decoded pixel is a colour index, 0 to 3.
pub open spec fn tile_indices_valid(tile_set: Seq<u32>) -> bool {
    forall|i: int| 0 <= i < tile_set.len() ==> #[trigger] tile_set[i] < 4
}

/// A decoded tile pixel is a colour index.
proof fn lemma_tile_row_pixel_valid(byte1: u8, byte2: u8, pixel: int)
    requires
        0 <= pixel < 8,
    ensures
        tile_row_pixel(byte1, byte2, pixel) < 4,
{
    let shift = (7 - pixel) as u8;
    assert(((((byte2 >> shift) & 0x01) << 1u8) | ((byte1 >> shift) & 0x01)) < 4u8) by (bit_vector);
}

/// Decoding a tile row again keeps every decoded pixel a colour index.
pub proof fn lemma_decoded_tiles_valid(vram: Seq<u8>, tile_set: Seq<u32>, bank_offset: usize, relative_address: usize)
    requires
        tile_indices_valid(tile_set),
    ensures
        tile_indices_valid(spec_decoded_tile_set(vram, tile_set, bank_offset, relative_address)),
{
    let row = (relative_address & 0x1ffe) as int;
    let first = bank_offset + row;
    let output = tile_row_output(bank_offset, row);
    let decoded = spec_decoded_tile_set(vram, tile_set, bank_offset, relative_address);
    if first + 1 < vram.len() && output + 8 <= tile_set.len() {
        assert forall|i: int| 0 <= i < decoded.len() implies #[trigger] decoded[i] < 4 by {
            if output <= i < output + 8 {
                lemma_tile_row_pixel_valid(vram[first], vram[first + 1], i - output);
            }
        }
    }
}

/// The I/O port value at `index`, or 0 past the ports.
pub open spec fn spec_io(memory: &GameBoyMemory, index: int) -> u8 {
    if 0 <= index < memory.io_ports@.len() {
        memory.io_ports@[index]
    } else {
        0
    }
}

/// A sequence of `len` zeros.
pub open spec fn zeros<T>(len: nat, zero: T) -> Seq<T> {
    Seq::new(len, |i: int| zero)
}

/// The tile set after the tile row holding `relative_address` of a VRAM bank is decoded again.
pub open spec fn spec_decoded_tile_set(
    vram: Seq<u8>,
    tile_set: Seq<u32>,
    bank_offset: usize,
    relative_address: usize,
) -> Seq<u32> {
    let row = (relative_address & 0x1ffe) as int;
    let first = bank_offset + row;
    let output = tile_row_output(bank_offset, row);
    if first + 1 < vram.len() && output + 8 <= tile_set.len() {
        Seq::new(
            tile_set.len(),
            |i: int|
                if output <= i < output + 8 {
                    tile_row_pixel(vram[first], vram[first + 1], i - output)
                } else {
                    tile_set[i]
                },
        )
    } else {
        tile_set
    }
}

impl GameBoyMemory {
    /// Clears every memory and copies as much of `rom_bytes` as fits into the cartridge ROM.
    pub fn reset_for_rom_load(&mut self, rom_bytes: &[u8]) -> (loaded: bool)
        ensures
            loaded,
            final(self).rom@.len() == old(self).rom@.len(),
            forall|i: int|
                0 <= i < final(self).rom@.len() ==> #[trigger] final(self).rom@[i] == if i
                    < rom_bytes@.len() {
                    rom_bytes@[i]
                } else {
                    0u8
                },
            final(self).wram@ == zeros(old(self).wram@.len(), 0u8),
            final(self).vram@ == zeros(old(self).vram@.len(), 0u8),
            final(self).io_ports@ == zeros(old(self).io_ports@.len(), 0u8),
            final(self).oam@ == zeros(160, 0u8),
            final(self).tile_set@ == zeros(old(self).tile_set@.len(), 0u32),
    {
        fill_u8(&mut self.rom);
        fill_u8(&mut self.wram);
        fill_u8(&mut self.vram);
        fill_u8(&mut self.io_ports);
        self.oam = [0u8; 160];
        fill_u32(&mut self.tile_set);
        assert(self.oam@ =~= zeros(160, 0u8));
        let ghost cleared_wram = self.wram@;
        let ghost cleared_vram = self.vram@;
        let ghost cleared_io = self.io_ports@;
        let ghost cleared_tiles = self.tile_set@;
        let copy_len = if rom_bytes.len() < self.rom.len() {
            rom_bytes.len()
        } else {
            self.rom.len()
        };
        let mut i: usize = 0;
        while i < copy_len
            invariant
                copy_len <= rom_bytes@.len(),
                copy_len <= self.rom@.len(),
                copy_len == rom_bytes@.len() || copy_len == self.rom@.len(),
                self.rom@.len() == old(self).rom@.len(),
                i <= copy_len,
                forall|j: int| 0 <= j < i ==> self.rom@[j] == rom_bytes@[j],
                forall|j: int| i <= j < self.rom@.len() ==> self.rom@[j] == 0u8,
                self.wram@ == cleared_wram,
                self.vram@ == cleared_vram,
                self.io_ports@ == cleared_io,
                self.tile_set@ == cleared_tiles,
                self.oam@ == zeros(160, 0u8),
            decreases copy_len - i,
        {
            self.rom[i] = rom_bytes[i];
            i += 1;
        }
        true
    }

    /// Writes the I/O port values that the boot ROM leaves behind.
    pub fn reset_io_ports_for_rom_load(&mut self)
        ensures
            final(self).io_ports@.len() == old(self).io_ports@.len(),
            forall|i: int|
                0 <= i < final(self).io_ports@.len() ==> #[trigger] final(self).io_ports@[i]
                    == match initial_io_port(i) {
                    Some(value) => value,
                    None => old(self).io_ports@[i],
                },
            final(self).rom == old(self).rom,
            final(self).wram == old(self).wram,
            final(self).vram == old(self).vram,
            final(self).oam == old(self).oam,
            final(self).tile_set == old(self).tile_set,
    {
        self.write_io_port(0x00, 0xcf);
        self.write_io_port(0x01, 0x00);
        self.write_io_port(0x02, 0x7e);
        self.write_io_port(0x05, 0x00);
        self.write_io_port(0x06, 0x00);
        self.write_io_port(0x07, 0xf8);
        self.write_io_port(0x0f, 0xe1);
        self.write_io_port(0x10, 0x80);
        self.write_io_port(0x11, 0xbf);
        self.write_io_port(0x12, 0xf3);
        self.write_io_port(0x13, 0xff);
        self.write_io_port(0x14, 0xbf);
        self.write_io_port(0x16, 0x3f);
        self.write_io_port(0x17, 0x00);
        self.write_io_port(0x18, 0xff);
        self.write_io_port(0x19, 0xbf);
        self.write_io_port(0x1a, 0x7f);
        self.write_io_port(0x1b, 0xff);
        self.write_io_port(0x1c, 0x9f);
        self.write_io_port(0x1d, 0xff);
        self.write_io_port(0x1e, 0xbf);
        self.write_io_port(0x20, 0xff);
        self.write_io_port(0x21, 0x00);
        self.write_io_port(0x22, 0x00);
        self.write_io_port(0x23, 0xbf);
        self.write_io_port(0x24, 0x77);
        self.write_io_port(0x25, 0xf3);
        self.write_io_port(0x26, 0xf1);
        self.write_io_port(0x40, 0x91);
        self.write_io_port(0x41, 0x85);
        self.write_io_port(0x42, 0x00);
        self.write_io_port(0x43, 0x00);
        self.write_io_port(0x45, 0x00);
        self.write_io_port(0x46, 0xff);
        self.write_io_port(0x47, 0xfc);
        self.write_io_port(0x48, 0xff);
        self.write_io_port(0x49, 0xff);
        self.write_io_port(0x4a, 0x00);
        self.write_io_port(0x4b, 0x00);
        self.write_io_port(0x50, 0x01);
        self.write_io_port(0x55, 0xff);
        self.write_io_port(0xff, 0x00);
        assert(self.io_ports@.len() == old(self).io_ports@.len());
    }

    /// Writes I/O port `index`, if there is such a port.
    pub fn write_io_port(&mut self, index: usize, value: u8)
        ensures
            final(self).io_ports@ == if index < old(self).io_ports@.len() {
                old(self).io_ports@.update(index as int, value)
            } else {
                old(self).io_ports@
            },
            final(self).rom == old(self).rom,
            final(self).wram == old(self).wram,
            final(self).vram == old(self).vram,
            final(self).oam == old(self).oam,
            final(self).tile_set == old(self).tile_set,
    {
        if index < self.io_ports.len() {
            self.io_ports[index] = value;
        }
    }

    /// Writes VRAM in the selected bank and decodes the tile row again when the write is inside
    /// the tile data area.
    pub fn write_vram(&mut self, vram_bank_offset: u32, address: u16, value: u8)
        ensures
            ({
                let relative = (address & 0x1fff) as usize;
                let index = vram_bank_offset as int + relative;
                if index < old(self).vram@.len() {
                    let vram = old(self).vram@.update(index, value);
                    &&& final(self).vram@ == vram
                    &&& final(self).tile_set@ == if relative < 0x1800 {
                        spec_decoded_tile_set(vram, old(self).tile_set@, vram_bank_offset as usize, relative)
                    } else {
                        old(self).tile_set@
                    }
                } else {
                    &&& final(self).vram@ == old(self).vram@
                    &&& final(self).tile_set@ == old(self).tile_set@
                }
            }),
            final(self).rom == old(self).rom,
            final(self).wram == old(self).wram,
            final(self).io_ports == old(self).io_ports,
            final(self).oam == old(self).oam,
            tile_indices_valid(old(self).tile_set@) ==> tile_indices_valid(final(self).tile_set@),
    {
        proof {
            let relative = (address & 0x1fff) as usize;
            let index = vram_bank_offset as int + relative;
            if index < self.vram@.len() && relative < 0x1800 && tile_indices_valid(self.tile_set@) {
                lemma_decoded_tiles_valid(
                    self.vram@.update(index, value),
                    self.tile_set@,
                    vram_bank_offset as usize,
                    relative,
                );
            }
        }
        let relative_address = (address & 0x1fff) as usize;
        assert(address & 0x1fff <= 0x1fff) by (bit_vector);
        let bank_offset = vram_bank_offset as usize;
        let vram_len = self.vram.len();
        let vram_index = match bank_offset.checked_add(relative_address) {
            None => return ,
            Some(index) => index,
        };
        if vram_index >= self.vram.len() {
            return ;
        }
        self.vram[vram_index] = value;
        if relative_address < 0x1800 {
            self.decode_tile_row(bank_offset, relative_address);
        }
    }

    /// Decodes the tile row that holds `relative_address` of a VRAM bank into colour indices.
    pub fn decode_tile_row(&mut self, bank_offset: usize, relative_address: usize)
        requires
            relative_address < 0x2000,
            bank_offset + relative_address < usize::MAX,
        ensures
            final(self).tile_set@ == spec_decoded_tile_set(
                old(self).vram@,
                old(self).tile_set@,
                bank_offset,
                relative_address,
            ),
            final(self).rom == old(self).rom,
            final(self).wram == old(self).wram,
            final(self).vram == old(self).vram,
            final(self).io_ports == old(self).io_ports,
            final(self).oam == old(self).oam,
    {
        let row_address = relative_address & 0x1ffe;
        assert(relative_address & 0x1ffe <= 0x1ffe && relative_address & 0x1ffe <= relative_address)
            by (bit_vector);
        if bank_offset + row_address >= self.vram.len() {
            return ;
        }
        let byte1 = self.vram[bank_offset + row_address];
        if bank_offset + row_address + 1 >= self.vram.len() {
            return ;
        }
        let byte2 = self.vram[bank_offset + row_address + 1];
        let output_address: usize = if bank_offset != 0 {
            row_address * 4 + 24_576
        } else {
            row_address * 4
        };
        assert(output_address <= 0x7ff8 + 24_576);
        if output_address.saturating_add(8) > self.tile_set.len() {
            return ;
        }
        let ghost old_tiles = self.tile_set@;
        let mut pixel: usize = 0;
        while pixel < 8
            invariant
                pixel <= 8,
                output_address + 8 <= self.tile_set@.len(),
                output_address <= 0x7ff8 + 24_576,
                self.tile_set@.len() == old_tiles.len(),
                forall|i: int|
                    0 <= i < self.tile_set@.len() ==> #[trigger] self.tile_set@[i] == if output_address
                        <= i < output_address + pixel {
                        tile_row_pixel(byte1, byte2, i - output_address)
                    } else {
                        old_tiles[i]
                    },
                self.rom == old(self).rom,
                self.wram == old(self).wram,
                self.vram == old(self).vram,
                self.io_ports == old(self).io_ports,
                self.oam == old(self).oam,
            decreases 8 - pixel,
        {
            let shift: u8 = 7u8 - pixel as u8;
            let low = (byte1 >> shift) & 0x01;
            let high = ((byte2 >> shift) & 0x01) << 1;
            self.tile_set[output_address + pixel] = (high | low) as u32;
            pixel += 1;
        }
        assert(self.tile_set@ =~= spec_decoded_tile_set(
            old(self).vram@,
            old(self).tile_set@,
            bank_offset,
            relative_address,
        ));
    }
}

pub fn fill_u8(bytes: &mut Vec<u8>)
    ensures
        final(bytes)@ == zeros(old(bytes)@.len(), 0u8),
{
    let mut i: usize = 0;
    while i < bytes.len()
        invariant
            bytes@.len() == old(bytes)@.len(),
            i <= bytes@.len(),
            forall|j: int| 0 <= j < i ==> bytes@[j] == 0u8,
        decreases bytes@.len() - i,
    {
        bytes[i] = 0;
        i += 1;
    }
    assert(bytes@ =~= zeros(old(bytes)@.len(), 0u8));
}

pub fn fill_u32(values: &mut Vec<u32>)
    ensures
        final(values)@ == zeros(old(values)@.len(), 0u32),
{
    let mut i: usize = 0;
    while i < values.len()
        invariant
            values@.len() == old(values)@.len(),
            i <= values@.len(),
            forall|j: int| 0 <= j < i ==> values@[j] == 0u32,
        decreases values@.len() - i,
    {
        values[i] = 0;
        i += 1;
    }
    assert(values@ =~= zeros(old(values)@.len(), 0u32));
}

/// A zero-filled byte buffer of length `len`.
pub fn zeroed_bytes(len: usize) -> (bytes: Vec<u8>)
    ensures
        bytes@ == zeros(len as nat, 0u8),
{
    let bytes = vec![0u8; len];
    assert(bytes@ =~= zeros(len as nat, 0u8));
    bytes
}

/// A zero-filled buffer of `len` 32-bit values.
pub fn zeroed_u32s(len: usize) -> (values: Vec<u32>)
    ensures
        values@ == zeros(len as nat, 0u32),
{
    let values = vec![0u32; len];
    assert(values@ =~= zeros(len as nat, 0u32));
    values
}

impl GameBoyMemory {
    /// The state that `default` gives.
    pub open spec fn is_default(&self) -> bool {
        &&& self.rom@ == zeros(ROM_CAPACITY_BYTES as nat, 0u8)
        &&& self.wram@ == zeros(WRAM_BYTES as nat, 0u8)
        &&& self.vram@ == zeros(VRAM_BYTES as nat, 0u8)
        &&& self.io_ports@ == zeros(IO_PORT_BYTES as nat, 0u8)
        &&& self.oam@ == zeros(OAM_BYTES as nat, 0u8)
        &&& self.tile_set@ == zeros(TILE_SET_PIXELS as nat, 0u32)
    }
}

impl Default for GameBoyMemory {
    fn default() -> (memory: Self)
        ensures
            memory.is_default(),
    {
        let memory = GameBoyMemory {
            rom: zeroed_bytes(ROM_CAPACITY_BYTES),
            wram: zeroed_bytes(WRAM_BYTES),
            vram: zeroed_bytes(VRAM_BYTES),
            io_ports: zeroed_bytes(IO_PORT_BYTES),
            oam: [0u8; 160],
            tile_set: zeroed_u32s(TILE_SET_PIXELS),
        };
        assert(memory.oam@ =~= zeros(OAM_BYTES as nat, 0u8));
        memory
    }
}

} // verus!
