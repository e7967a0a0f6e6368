use vstd::prelude::*;

use crate::constants::{
    SGB_ATTRIBUTE_FILE_ENTRIES, SGB_CHARACTER_PALETTE_ENTRIES, SGB_MONO_PIXELS,
    SGB_PALETTE_COLORS, SGB_SYSTEM_PALETTE_COLORS, SGB_TRANSFER_VRAM_BYTES,
};
use crate::memory::{GameBoyMemory, fill_u32, fill_u8, spec_io, zeros};

verus! {

pub const SGBCOM_PAL01: u32 = 0x00;
pub const SGBCOM_PAL23: u32 = 0x01;
pub const SGBCOM_PAL03: u32 = 0x02;
pub const SGBCOM_PAL12: u32 = 0x03;
pub const SGBCOM_ATTR_BLK: u32 = 0x04;
pub const SGBCOM_ATTR_DIV: u32 = 0x06;
pub const SGBCOM_ATTR_CHR: u32 = 0x07;
pub const SGBCOM_PAL_SET: u32 = 0x0a;
pub const SGBCOM_PAL_TRN: u32 = 0x0b;
pub const SGBCOM_MLT_REQ: u32 = 0x11;
pub const SGBCOM_MASK_EN: u32 = 0x17;

/// The four colours that every SGB display palette shows before any command sets them.
pub const DEFAULT_SGB_PALETTE: [u32; 4] = [0xffff_ffff, 0xff88_b0b0, 0xff50_7878, 0xff00_0000];

/// Colour `colour` of the default SGB display palette.
pub open spec fn default_sgb_colour(colour: int) -> u32 {
    if colour == 0 {
        0xffff_ffffu32
    } else if colour == 1 {
        0xff88_b0b0u32
    } else if colour == 2 {
        0xff50_7878u32
    } else {
        0xff00_0000u32
    }
}

/// State of the Super Game Boy: the command packet being received, the display palettes, the
/// attribute map of the screen, and the monochrome frame it colours.
#[derive(Debug)]
pub struct SgbState {
    pub reading_command: bool,
    pub awaiting_stop_bit: bool,
    pub stop_bit_received: bool,
    pub command_bytes: [[u32; 16]; 7],
    pub command_bits: [u8; 8],
    pub command: u32,
    pub read_command_bits: i32,
    pub read_command_bytes: i32,
    pub freeze_screen: bool,
    pub freeze_mode: u32,
    pub mult_enabled: bool,
    pub player_count: u32,
    pub packets_sent: u32,
    pub packets_to_send: u32,
    pub completed_commands: u32,
    pub last_command: u32,
    pub packet_errors: u32,
    pub read_joypad_id: u32,
    pub mono_data: Vec<u32>,
    pub transfer_vram: Vec<u8>,
    pub palettes: Vec<u32>,
    pub system_palettes: Vec<u32>,
    pub character_palettes: Vec<u32>,
    pub attribute_files: Vec<u32>,
}

/// The 0xAARRGGBB colour of a little-endian 15-bit BGR colour, each channel scaled to 0..=255.
pub open spec fn spec_remap_555_8888(lo: u32, hi: u32) -> u32 {
    let value = lo | (hi << 8u32);
    let red = (value & 0x1f) * 255 / 31;
    let green = ((value >> 5u32) & 0x1f) * 255 / 31;
    let blue = ((value >> 10u32) & 0x1f) * 255 / 31;
    0xff00_0000u32 | ((red as u32) << 16u32) | ((green as u32) << 8u32) | (blue as u32)
}

/// The byte assembled from the first `n` received bits, least significant bit first.
pub open spec fn assembled_bits(bits: Seq<u8>, n: int) -> u32
    decreases n,
{
    if n <= 0 {
        0
    } else {
        assembled_bits(bits, n - 1) | ((bits[n - 1] as u32) << ((n - 1) as u32))
    }
}

/// Byte `byte` of packet `packet` of the received command, or 0 outside the packets.
pub open spec fn spec_packet_byte(command_bytes: [[u32; 16]; 7], packet: int, byte: int) -> u32 {
    if 0 <= packet < 7 && 0 <= byte < 16 {
        command_bytes@[packet]@[byte]
    } else {
        0
    }
}

/// The packet cursor moved on to the next packet once a packet's bytes are used up.
pub open spec fn spec_advanced_cursor(packet: int, byte: int) -> (int, int) {
    if byte >= 16 {
        (if packet + 1 < 6 { packet + 1 } else { 6 }, 0)
    } else {
        (packet, byte)
    }
}

/// `a` capped at `b`.
pub open spec fn min_u32(a: u32, b: u32) -> u32 {
    if a < b { a } else { b }
}

impl SgbState {
    /// Every buffer has the length that the hardware gives it.
    pub open spec fn wf(&self) -> bool {
        &&& self.mono_data@.len() == SGB_MONO_PIXELS
        &&& self.transfer_vram@.len() == SGB_TRANSFER_VRAM_BYTES
        &&& self.palettes@.len() == SGB_PALETTE_COLORS
        &&& self.system_palettes@.len() == SGB_SYSTEM_PALETTE_COLORS
        &&& self.character_palettes@.len() == SGB_CHARACTER_PALETTE_ENTRIES
    }

    /// Whether every buffer has its hardware size, as `wf` says.
    pub fn buffers_sized(&self) -> (ok: bool)
        ensures
            ok == self.wf(),
    {
        self.mono_data.len() == SGB_MONO_PIXELS && self.transfer_vram.len() == SGB_TRANSFER_VRAM_BYTES
            && self.palettes.len() == SGB_PALETTE_COLORS && self.system_palettes.len() == SGB_SYSTEM_PALETTE_COLORS
            && self.character_palettes.len() == SGB_CHARACTER_PALETTE_ENTRIES
    }

    /// The display palettes all hold the default palette.
    pub open spec fn has_default_palettes(&self) -> bool {
        forall|i: int| 0 <= i < self.palettes@.len() ==> #[trigger] self.palettes@[i] == default_sgb_colour(i % 4)
    }

    /// The fields that only the command receiver changes are equal in both states.
    pub open spec fn same_receiver(&self, other: &SgbState) -> bool {
        &&& self.reading_command == other.reading_command
        &&& self.awaiting_stop_bit == other.awaiting_stop_bit
        &&& self.stop_bit_received == other.stop_bit_received
        &&& self.command_bytes == other.command_bytes
        &&& self.command_bits == other.command_bits
        &&& self.command == other.command
        &&& self.read_command_bits == other.read_command_bits
        &&& self.read_command_bytes == other.read_command_bytes
        &&& self.packets_sent == other.packets_sent
        &&& self.packets_to_send == other.packets_to_send
        &&& self.packet_errors == other.packet_errors
    }

    /// The fields that only commands change are equal in both states.
    pub open spec fn same_effects(&self, other: &SgbState) -> bool {
        &&& self.freeze_screen == other.freeze_screen
        &&& self.freeze_mode == other.freeze_mode
        &&& self.mult_enabled == other.mult_enabled
        &&& self.player_count == other.player_count
        &&& self.completed_commands == other.completed_commands
        &&& self.last_command == other.last_command
        &&& self.read_joypad_id == other.read_joypad_id
        &&& self.mono_data == other.mono_data
        &&& self.transfer_vram == other.transfer_vram
        &&& self.palettes == other.palettes
        &&& self.system_palettes == other.system_palettes
        &&& self.character_palettes == other.character_palettes
        &&& self.attribute_files == other.attribute_files
    }

    /// Both states are equal but for the monochrome frame.
    pub open spec fn same_except_mono(&self, other: &SgbState) -> bool {
        &&& self.same_receiver(other)
        &&& self.freeze_screen == other.freeze_screen
        &&& self.freeze_mode == other.freeze_mode
        &&& self.mult_enabled == other.mult_enabled
        &&& self.player_count == other.player_count
        &&& self.completed_commands == other.completed_commands
        &&& self.last_command == other.last_command
        &&& self.read_joypad_id == other.read_joypad_id
        &&& self.transfer_vram == other.transfer_vram
        &&& self.palettes == other.palettes
        &&& self.system_palettes == other.system_palettes
        &&& self.character_palettes == other.character_palettes
        &&& self.attribute_files == other.attribute_files
    }

    /// `self` is `before` cleared for a new cartridge: no command in progress, effects off,
    /// the buffers zeroed and the display palettes back at the default; the controller
    /// number is left aside.
    pub open spec fn cleared_from(&self, before: &SgbState) -> bool {
        &&& !self.reading_command
        &&& !self.awaiting_stop_bit
        &&& !self.stop_bit_received
        &&& forall|p: int, b: int|
            0 <= p < 7 && 0 <= b < 16 ==> self.command_bytes@[p]@[b] == 0u32
        &&& self.command_bits@ == zeros(8, 0u8)
        &&& self.command == 0
        &&& self.read_command_bits == 0
        &&& self.read_command_bytes == 0
        &&& !self.freeze_screen
        &&& self.freeze_mode == 0
        &&& !self.mult_enabled
        &&& self.player_count == 0
        &&& self.packets_sent == 0
        &&& self.packets_to_send == 0
        &&& self.completed_commands == 0
        &&& self.last_command == 0
        &&& self.packet_errors == 0
        &&& self.mono_data@ == zeros(before.mono_data@.len(), 0u32)
        &&& self.transfer_vram@ == zeros(before.transfer_vram@.len(), 0u8)
        &&& self.palettes@.len() == before.palettes@.len()
        &&& forall|i: int|
            0 <= i < before.palettes@.len() - before.palettes@.len() % 4
                ==> #[trigger] self.palettes@[i] == default_sgb_colour(i % 4)
        &&& self.system_palettes@ == zeros(before.system_palettes@.len(), 0u32)
        &&& self.character_palettes@ == zeros(before.character_palettes@.len(), 0u32)
        &&& self.attribute_files@ == zeros(before.attribute_files@.len(), 0u32)
        &&& before.wf() ==> self.wf() && self.has_default_palettes()
    }

    /// Clears every command, palette and buffer for a new cartridge; display palettes go back to
    /// the default palette.
    pub fn reset_for_rom_load(&mut self)
        ensures
            final(self).cleared_from(old(self)),
            final(self).read_joypad_id == 0,
    {
        self.reading_command = false;
        self.awaiting_stop_bit = false;
        self.stop_bit_received = false;
        self.command_bytes = [[0u32; 16]; 7];
        self.command_bits = [0u8; 8];
        self.command = 0;
        self.read_command_bits = 0;
        self.read_command_bytes = 0;
        self.freeze_screen = false;
        self.freeze_mode = 0;
        self.mult_enabled = false;
        self.player_count = 0;
        self.packets_sent = 0;
        self.packets_to_send = 0;
        self.completed_commands = 0;
        self.last_command = 0;
        self.packet_errors = 0;
        self.read_joypad_id = 0;
        fill_u32(&mut self.mono_data);
        fill_u8(&mut self.transfer_vram);
        self.reset_display_palettes();
        fill_u32(&mut self.system_palettes);
        fill_u32(&mut self.character_palettes);
        fill_u32(&mut self.attribute_files);
        assert(forall|p: int, b: int| 0 <= p < 7 && 0 <= b < 16 ==> self.command_bytes@[p]@[b] == 0u32);
        assert(self.command_bits@ =~= zeros(8, 0u8));
    }

    /// Writes the default palette into every whole group of four display palette colours.
    pub fn reset_display_palettes(&mut self)
        ensures
            final(self).palettes@.len() == old(self).palettes@.len(),
            forall|i: int|
                0 <= i < old(self).palettes@.len() ==> #[trigger] final(self).palettes@[i] == if i
                    < old(self).palettes@.len() - old(self).palettes@.len() % 4 {
                    default_sgb_colour(i % 4)
                } else {
                    old(self).palettes@[i]
                },
            final(self).same_receiver(old(self)),
            final(self).mono_data == old(self).mono_data,
            final(self).transfer_vram == old(self).transfer_vram,
            final(self).system_palettes == old(self).system_palettes,
            final(self).character_palettes == old(self).character_palettes,
            final(self).attribute_files == old(self).attribute_files,
            final(self).freeze_screen == old(self).freeze_screen,
            final(self).freeze_mode == old(self).freeze_mode,
            final(self).mult_enabled == old(self).mult_enabled,
            final(self).player_count == old(self).player_count,
            final(self).completed_commands == old(self).completed_commands,
            final(self).last_command == old(self).last_command,
            final(self).read_joypad_id == old(self).read_joypad_id,
    {
        let len = self.palettes.len();
        let whole = len - len % 4;
        let mut i: usize = 0;
        while i < whole
            invariant
                whole == len - len % 4,
                len == old(self).palettes@.len(),
                self.palettes@.len() == len,
                i <= whole,
                forall|j: int|
                    0 <= j < len ==> #[trigger] self.palettes@[j] == if j < i {
                        default_sgb_colour(j % 4)
                    } else {
                        old(self).palettes@[j]
                    },
                self.same_receiver(old(self)),
                self.mono_data == old(self).mono_data,
                self.transfer_vram == old(self).transfer_vram,
                self.system_palettes == old(self).system_palettes,
                self.character_palettes == old(self).character_palettes,
                self.attribute_files == old(self).attribute_files,
                self.freeze_screen == old(self).freeze_screen,
                self.freeze_mode == old(self).freeze_mode,
                self.mult_enabled == old(self).mult_enabled,
                self.player_count == old(self).player_count,
                self.completed_commands == old(self).completed_commands,
                self.last_command == old(self).last_command,
                self.read_joypad_id == old(self).read_joypad_id,
            decreases whole - i,
        {
            self.palettes[i] = DEFAULT_SGB_PALETTE[i % 4];
            i += 1;
        }
    }

    /// `new` is `self` after a reset pulse: a command starts unless one is being received.
    pub open spec fn command_begun(&self, new: &SgbState) -> bool {
        &&& self.reading_command ==> *new == *self
        &&& !self.reading_command ==> {
            &&& new.reading_command
            &&& new.read_command_bits == 0
            &&& new.read_command_bytes == 0
            &&& new.packets_sent == 0
            &&& new.packets_to_send == 1
            &&& new.awaiting_stop_bit == self.awaiting_stop_bit
            &&& new.stop_bit_received == self.stop_bit_received
            &&& new.command_bytes == self.command_bytes
            &&& new.command_bits == self.command_bits
            &&& new.command == self.command
            &&& new.packet_errors == self.packet_errors
            &&& new.same_effects(self)
        }
    }

    /// Starts receiving a command (a reset pulse on the joypad lines), unless one is being received.
    pub fn begin_command(&mut self)
        ensures
            old(self).command_begun(final(self)),
    {
        if self.reading_command {
            return ;
        }
        self.reading_command = true;
        self.read_command_bits = 0;
        self.read_command_bytes = 0;
        self.packets_sent = 0;
        self.packets_to_send = 1;
    }

    /// `new` is `self` after receiving command bit `bit`: a ninth byte of a packet is an error
    /// that ends the command; every eighth bit completes a byte.
    pub open spec fn command_bit_received(&self, new: &SgbState, bit: u8) -> bool {
        &&& !self.reading_command ==> *new == *self
        &&& (self.reading_command && self.read_command_bytes >= 16) ==> {
            &&& new.packet_errors == (if self.packet_errors == u32::MAX {
                u32::MAX
            } else {
                (self.packet_errors + 1) as u32
            })
            &&& !new.reading_command
            &&& new.command_bits == self.command_bits
            &&& new.command_bytes == self.command_bytes
            &&& new.read_command_bits == self.read_command_bits
            &&& new.read_command_bytes == self.read_command_bytes
        }
        &&& (self.reading_command && self.read_command_bytes < 16) ==> {
            let index = if self.read_command_bits < 0 {
                0int
            } else {
                self.read_command_bits as int
            };
            let bits = if index < 8 {
                self.command_bits@.update(index, bit & 0x01)
            } else {
                self.command_bits@
            };
            &&& new.command_bits@ == bits
            &&& new.packet_errors == self.packet_errors
            &&& new.reading_command
            &&& if self.read_command_bits + 1 >= 8 {
                new.spec_after_byte(self, bits)
            } else {
                &&& new.read_command_bits == self.read_command_bits + 1
                &&& new.command_bytes == self.command_bytes
                &&& new.read_command_bytes == self.read_command_bytes
                &&& new.command == self.command
                &&& new.packets_to_send == self.packets_to_send
            }
        }
        &&& new.awaiting_stop_bit == self.awaiting_stop_bit
        &&& new.stop_bit_received == self.stop_bit_received
        &&& new.packets_sent == self.packets_sent
        &&& new.same_effects(self)
    }

    /// Receives one bit of a command packet; a ninth byte of a packet is an error that ends the
    /// command; every eighth bit completes a byte.
    pub fn receive_command_bit(&mut self, bit: u8)
        requires
            old(self).read_command_bits < i32::MAX,
            old(self).read_command_bytes < i32::MAX,
        ensures
            old(self).command_bit_received(final(self), bit),
    {
        if !self.reading_command {
            return ;
        }
        if self.read_command_bytes >= 16 {
            self.packet_errors = self.packet_errors.saturating_add(1);
            self.reading_command = false;
            return ;
        }
        let bit_index: usize = if self.read_command_bits < 0 {
            0
        } else {
            self.read_command_bits as usize
        };
        if bit_index < 8 {
            self.command_bits[bit_index] = bit & 0x01;
        }
        self.read_command_bits = self.read_command_bits + 1;
        if self.read_command_bits >= 8 {
            self.check_byte();
        }
    }

    /// `self` is `before` with one more command byte assembled from `bits` and stored.
    pub open spec fn spec_after_byte(&self, before: &SgbState, bits: Seq<u8>) -> bool {
        let byte = assembled_bits(bits, 8);
        let packet = if before.packets_sent < 6 { before.packets_sent as int } else { 6 };
        let index = if before.read_command_bytes < 0 {
            0int
        } else if before.read_command_bytes < 15 {
            before.read_command_bytes as int
        } else {
            15
        };
        &&& forall|p: int, b: int|
            0 <= p < 7 && 0 <= b < 16 ==> #[trigger] self.command_bytes@[p]@[b] == if p == packet
                && b == index {
                byte
            } else {
                before.command_bytes@[p]@[b]
            }
        &&& self.read_command_bits == 0
        &&& self.read_command_bytes == before.read_command_bytes + 1
        &&& if self.read_command_bytes == 1 && before.packets_sent == 0 {
            let first = if packet == 0 && index == 0 { byte } else { before.command_bytes@[0]@[0] };
            &&& self.packets_to_send == if first & 0x07 > 1 { first & 0x07 } else { 1 }
            &&& self.command == (first >> 3u32) & 0x1f
        } else {
            &&& self.packets_to_send == before.packets_to_send
            &&& self.command == before.command
        }
    }

    /// `new` is `self` with the packet finished when all sixteen of its bytes have arrived, else
    /// unchanged.
    pub open spec fn packet_finished_if_ready(&self, new: &SgbState, memory: &GameBoyMemory) -> bool {
        if self.reading_command && self.read_command_bits == 0 && self.read_command_bytes >= 16 {
            new.spec_after_packet(self, memory)
        } else {
            *new == *self
        }
    }

    /// Finishes the packet once all sixteen of its bytes have been received.
    pub fn finish_packet_if_ready(&mut self, memory: &GameBoyMemory)
        requires
            old(self).wf(),
            old(self).command == SGBCOM_MLT_REQ ==> old(self).command_bytes@[0]@[1] < u32::MAX,
        ensures
            final(self).wf(),
            old(self).packet_finished_if_ready(final(self), memory),
    {
        if !self.reading_command || self.read_command_bits != 0 || self.read_command_bytes < 16 {
            return ;
        }
        self.finish_packet(memory);
    }

    /// Assembles the eight received bits into a byte, stores it in the current packet, and reads
    /// the command and packet count from the first byte of the first packet.
    pub fn check_byte(&mut self)
        requires
            old(self).read_command_bytes < i32::MAX,
        ensures
            final(self).spec_after_byte(old(self), old(self).command_bits@),
            final(self).command_bits == old(self).command_bits,
            final(self).reading_command == old(self).reading_command,
            final(self).awaiting_stop_bit == old(self).awaiting_stop_bit,
            final(self).stop_bit_received == old(self).stop_bit_received,
            final(self).packets_sent == old(self).packets_sent,
            final(self).packet_errors == old(self).packet_errors,
            final(self).same_effects(old(self)),
    {
        self.read_command_bits = 0;
        let mut byte: u32 = 0;
        let mut bit: usize = 0;
        while bit < 8
            invariant
                bit <= 8,
                byte == assembled_bits(self.command_bits@, bit as int),
            decreases 8 - bit,
        {
            byte = byte | ((self.command_bits[bit] as u32) << (bit as u32));
            bit += 1;
        }
        let packet: usize = if self.packets_sent < 6 {
            self.packets_sent as usize
        } else {
            6
        };
        let byte_index: usize = if self.read_command_bytes < 0 {
            0
        } else if self.read_command_bytes < 15 {
            self.read_command_bytes as usize
        } else {
            15
        };
        let mut row = self.command_bytes[packet];
        row[byte_index] = byte;
        self.command_bytes[packet] = row;
        self.read_command_bytes = self.read_command_bytes + 1;
        if self.read_command_bytes == 1 && self.packets_sent == 0 {
            let first = self.command_bytes[0][0];
            self.packets_to_send = if first & 0x07 > 1 {
                first & 0x07
            } else {
                1
            };
            self.command = (first >> 3) & 0x1f;
        }
    }

    /// `self` is `before` after the current packet is complete, with the command applied once
    /// every packet has arrived.
    pub open spec fn spec_after_packet(&self, before: &SgbState, memory: &GameBoyMemory) -> bool {
        let sent = if before.packets_sent == u32::MAX { u32::MAX } else { (before.packets_sent + 1) as u32 };
        &&& self.packets_sent == sent
        &&& self.read_command_bytes == 0
        &&& self.read_command_bits == 0
        &&& self.command_bytes == before.command_bytes
        &&& self.command_bits == before.command_bits
        &&& self.command == before.command
        &&& self.packets_to_send == before.packets_to_send
        &&& self.packet_errors == before.packet_errors
        &&& self.awaiting_stop_bit == before.awaiting_stop_bit
        &&& self.stop_bit_received == before.stop_bit_received
        &&& if sent >= before.packets_to_send {
            &&& !self.reading_command
            &&& self.spec_command_applied(before, memory)
        } else {
            &&& self.reading_command == before.reading_command
            &&& self.same_effects(before)
        }
    }

    /// Counts a packet as sent and applies the command once all of its packets have arrived.
    pub fn finish_packet(&mut self, memory: &GameBoyMemory)
        requires
            old(self).wf(),
            old(self).command == SGBCOM_MLT_REQ ==> old(self).command_bytes@[0]@[1] < u32::MAX,
        ensures
            final(self).wf(),
            final(self).spec_after_packet(old(self), memory),
    {
        self.packets_sent = self.packets_sent.saturating_add(1);
        self.read_command_bytes = 0;
        self.read_command_bits = 0;
        if self.packets_sent >= self.packets_to_send {
            let ghost before = *self;
            self.check_packets(memory);
            self.reading_command = false;
            proof {
                assert(self.spec_command_applied(&before, memory));
            }
        }
    }

    /// Byte `byte` of packet `packet`, or 0 outside the received packets.
    pub fn packet_byte(&self, packet: usize, byte: usize) -> (value: u32)
        ensures
            value == spec_packet_byte(self.command_bytes, packet as int, byte as int),
    {
        if packet < 7 && byte < 16 {
            self.command_bytes[packet][byte]
        } else {
            0
        }
    }
}

/// A region of the 20 by 18 character grid of the screen.
#[derive(Clone, Copy, Debug)]
pub enum CellRegion {
    /// Cells with `top <= y <= bottom` and `left <= x <= right`.
    Inside { top: u32, bottom: u32, left: u32, right: u32 },
    /// Cells not in the `Inside` rectangle with these bounds.
    Outside { top: u32, bottom: u32, left: u32, right: u32 },
    /// Cells with `top < y < bottom` and `left < x < right`.
    Interior { top: u32, bottom: u32, left: u32, right: u32 },
    /// Cells of the rectangle's edge: inside it but not in its interior.
    Border { top: u32, bottom: u32, left: u32, right: u32 },
}

/// Whether the character cell in row `y` and column `x` lies in `region`.
pub open spec fn region_contains(region: CellRegion, y: int, x: int) -> bool {
    match region {
        CellRegion::Inside { top, bottom, left, right } => top <= y <= bottom && left <= x <= right,
        CellRegion::Outside { top, bottom, left, right } => !(top <= y <= bottom && left <= x
            <= right),
        CellRegion::Interior { top, bottom, left, right } => top < y < bottom && left < x < right,
        CellRegion::Border { top, bottom, left, right } => (top <= y <= bottom && left <= x
            <= right) && !(top < y < bottom && left < x < right),
    }
}

/// The attribute map with every cell of `region` set to `palette`.
pub open spec fn spec_paint(cells: Seq<u32>, region: CellRegion, palette: u32) -> Seq<u32> {
    Seq::new(
        cells.len(),
        |i: int|
            if i < 360 && region_contains(region, i / 20, i % 20) {
                palette
            } else {
                cells[i]
            },
    )
}

/// The display palettes after the command's colour 0 becomes colour 0 of all four palettes.
pub open spec fn spec_common_colour(palettes: Seq<u32>, command_bytes: [[u32; 16]; 7]) -> Seq<u32> {
    let colour = spec_remap_555_8888(command_bytes@[0]@[1], command_bytes@[0]@[2]);
    palettes.update(0, colour).update(4, colour).update(8, colour).update(12, colour)
}

/// The display palettes after colours `start..=end` are read from colour group `group` of the
/// command.
pub open spec fn spec_palette_range(
    palettes: Seq<u32>,
    command_bytes: [[u32; 16]; 7],
    group: int,
    start: int,
    end: int,
) -> Seq<u32> {
    Seq::new(
        palettes.len(),
        |i: int|
            if start <= i <= end {
                let source = 3 + group * 6 + 2 * (i - start);
                spec_remap_555_8888(command_bytes@[0]@[source], command_bytes@[0]@[source + 1])
            } else {
                palettes[i]
            },
    )
}

/// The system palette that PAL_SET picks for display palette `palette`.
pub open spec fn pal_set_source(command_bytes: [[u32; 16]; 7], palette: int) -> u32 {
    command_bytes@[0]@[palette * 2 + 1] | ((command_bytes@[0]@[palette * 2 + 2] & 0x01) << 8u32)
}

/// The display palettes after PAL_SET copies four system palettes into them.
pub open spec fn spec_pal_set(
    palettes: Seq<u32>,
    system_palettes: Seq<u32>,
    command_bytes: [[u32; 16]; 7],
) -> Seq<u32> {
    Seq::new(
        palettes.len(),
        |i: int|
            if i < 16 {
                let source = pal_set_source(command_bytes, i / 4) as int * 4 + i % 4;
                if source < system_palettes.len() {
                    system_palettes[source]
                } else {
                    palettes[i]
                }
            } else {
                palettes[i]
            },
    )
}

/// The attribute map after ATTR_DIV splits the screen into three bands.
pub open spec fn spec_attr_div(cells: Seq<u32>, command_bytes: [[u32; 16]; 7]) -> Seq<u32> {
    let control = command_bytes@[0]@[1];
    let before = (control & 0x0c) >> 2u32;
    let on = (control & 0x30) >> 4u32;
    let after = control & 0x03;
    if control & 0x40 != 0 {
        let h = min_u32(command_bytes@[0]@[2], 17);
        spec_paint(
            spec_paint(
                spec_paint(cells, CellRegion::Inside { top: 0, bottom: h, left: 0, right: 19 }, before),
                CellRegion::Inside { top: h, bottom: h, left: 0, right: 19 },
                on,
            ),
            CellRegion::Inside { top: (h + 1) as u32, bottom: 17, left: 0, right: 19 },
            after,
        )
    } else {
        let v = min_u32(command_bytes@[0]@[2], 19);
        spec_paint(
            spec_paint(
                spec_paint(cells, CellRegion::Inside { top: 0, bottom: 17, left: 0, right: v }, before),
                CellRegion::Inside { top: 0, bottom: 17, left: v, right: v },
                on,
            ),
            CellRegion::Inside { top: 0, bottom: 17, left: (v + 1) as u32, right: 19 },
            after,
        )
    }
}

/// The attribute map after one ATTR_BLK data group with the given control code, palette codes
/// and rectangle.
pub open spec fn spec_attr_blk_group(
    cells: Seq<u32>,
    control: u32,
    codes: u32,
    left: u32,
    top: u32,
    right: u32,
    bottom: u32,
) -> Seq<u32> {
    let step1 = if control > 3 {
        spec_paint(cells, CellRegion::Outside { top, bottom, left, right }, (codes & 0x30) >> 4u32)
    } else {
        cells
    };
    let step2 = if control & 0x01 != 0 {
        spec_paint(step1, CellRegion::Interior { top, bottom, left, right }, codes & 0x03)
    } else {
        step1
    };
    if control > 0 && control != 5 {
        let palette = if control == 1 {
            codes & 0x03
        } else if control == 4 {
            (codes & 0x30) >> 4u32
        } else {
            (codes & 0x0c) >> 2u32
        };
        spec_paint(step2, CellRegion::Border { top, bottom, left, right }, palette)
    } else {
        step2
    }
}

/// Law: one ATTR_BLK data group on the 20 by 18 attribute map (cell `(x, y)` at `y * 20 + x`)
/// with control code `control` (0 to 7), palette codes `codes` and the rectangle from
/// `(left, top)` to `(right, bottom)`:
/// - a cell strictly inside the rectangle takes palette `codes % 4` when bit 0 of the control
///   is set, and keeps its palette otherwise;
/// - a cell outside the rectangle takes palette `(codes / 16) % 4` when bit 2 is set, and
///   keeps its palette otherwise;
/// - a cell on the rectangle's edge takes `codes % 4` for control 1, `(codes / 16) % 4` for
///   control 4, `(codes / 4) % 4` for controls 2, 3, 6 and 7, and keeps its palette for 0 and 5.
pub proof fn lemma_attr_blk_group_regions(
    cells: Seq<u32>,
    control: u32,
    codes: u32,
    left: u32,
    top: u32,
    right: u32,
    bottom: u32,
    x: int,
    y: int,
)
    requires
        cells.len() >= 360,
        control <= 7,
        0 <= x < 20,
        0 <= y < 18,
    ensures
        ({
            let result = spec_attr_blk_group(cells, control, codes, left, top, right, bottom);
            let cell = y * 20 + x;
            let inside = top <= y <= bottom && left <= x <= right;
            let interior = top < y < bottom && left < x < right;
            &&& result.len() == cells.len()
            &&& interior ==> result[cell] == if control % 2 == 1 { codes % 4 } else { cells[cell] }
            &&& !inside ==> result[cell] == if control >= 4 { (codes / 16) % 4 } else { cells[cell] }
            &&& (inside && !interior) ==> result[cell] == if control == 1 {
                codes % 4
            } else if control == 4 {
                (codes / 16) % 4
            } else if control == 0 || control == 5 {
                cells[cell]
            } else {
                (codes / 4) % 4
            }
        }),
{
    crate::bits::lemma_small_masks(0, codes);
    crate::bits::lemma_small_masks(0, control);
    let cell = y * 20 + x;
    assert(cell / 20 == y && cell % 20 == x);
    assert(0 <= cell < 360);
}

/// The attribute map after the remaining `groups` data groups of ATTR_BLK, read from the packet
/// cursor `(packet, byte)`; a group with an empty rectangle ends the command.
pub open spec fn spec_attr_blk_from(
    command_bytes: [[u32; 16]; 7],
    cells: Seq<u32>,
    packet: int,
    byte: int,
    groups: nat,
) -> Seq<u32>
    decreases groups,
{
    if groups == 0 {
        cells
    } else {
        let control = spec_packet_byte(command_bytes, packet, byte) & 0x07;
        let codes = spec_packet_byte(command_bytes, packet, byte + 1) & 0x3f;
        let c1 = spec_advanced_cursor(packet, byte + 2);
        let left = min_u32(spec_packet_byte(command_bytes, c1.0, c1.1), 19);
        let top = min_u32(spec_packet_byte(command_bytes, c1.0, c1.1 + 1), 17);
        let c2 = spec_advanced_cursor(c1.0, c1.1 + 2);
        let right = min_u32(spec_packet_byte(command_bytes, c2.0, c2.1), 19);
        let bottom = min_u32(spec_packet_byte(command_bytes, c2.0, c2.1 + 1), 17);
        let c3 = spec_advanced_cursor(c2.0, c2.1 + 2);
        if left > right || top > bottom {
            cells
        } else {
            spec_attr_blk_from(
                command_bytes,
                spec_attr_blk_group(cells, control, codes, left, top, right, bottom),
                c3.0,
                c3.1,
                (groups - 1) as nat,
            )
        }
    }
}

/// The palette number in two-bit field `nibble` (0 is the highest) of a data byte.
pub open spec fn chr_palette(value: u32, nibble: int) -> u32 {
    if nibble == 0 {
        (value & 0xc0) >> 6u32
    } else if nibble == 1 {
        (value & 0x30) >> 4u32
    } else if nibble == 2 {
        (value & 0x0c) >> 2u32
    } else {
        value & 0x03
    }
}

/// The attribute map after ATTR_CHR writes up to `remaining` more cells, starting at cell
/// `(x, y)`, reading two-bit palette numbers from the packet cursor; writing goes down columns or
/// along rows and stops at the edge of the screen.
pub open spec fn spec_attr_chr_from(
    command_bytes: [[u32; 16]; 7],
    cells: Seq<u32>,
    start_x: int,
    start_y: int,
    vertical: bool,
    x: int,
    y: int,
    packet: int,
    byte: int,
    nibble: int,
    remaining: nat,
) -> Seq<u32>
    decreases remaining,
{
    if remaining == 0 {
        cells
    } else {
        let value = spec_packet_byte(command_bytes, packet, byte);
        let next = cells.update(y * 20 + x, chr_palette(value, nibble));
        let (nx, ny) = if vertical {
            if y + 1 >= 18 { (x + 1, start_y) } else { (x, y + 1) }
        } else {
            if x + 1 >= 20 { (start_x, y + 1) } else { (x + 1, y) }
        };
        if nx >= 20 || ny >= 18 {
            next
        } else if nibble + 1 >= 4 {
            let c = spec_advanced_cursor(packet, byte + 1);
            spec_attr_chr_from(command_bytes, next, start_x, start_y, vertical, nx, ny, c.0, c.1, 0, (remaining - 1) as nat)
        } else {
            spec_attr_chr_from(command_bytes, next, start_x, start_y, vertical, nx, ny, packet, byte, nibble + 1, (remaining - 1) as nat)
        }
    }
}

/// The attribute map after ATTR_CHR.
pub open spec fn spec_attr_chr(cells: Seq<u32>, command_bytes: [[u32; 16]; 7]) -> Seq<u32> {
    let start_x = command_bytes@[0]@[1];
    let start_y = command_bytes@[0]@[2];
    if start_x > 19 || start_y > 17 {
        cells
    } else {
        let data_sets = (command_bytes@[0]@[3] | ((command_bytes@[0]@[4] & 0x01) << 8u32)) as int;
        let count = if data_sets * 4 > usize::MAX { usize::MAX as int } else { data_sets * 4 };
        spec_attr_chr_from(
            command_bytes,
            cells,
            start_x as int,
            start_y as int,
            command_bytes@[0]@[5] & 0x01 != 0,
            start_x as int,
            start_y as int,
            0,
            6,
            0,
            count as nat,
        )
    }
}

/// The byte of the transfer buffer at `d` after the screen's tiles are copied into it in
/// character order (20 characters per row, 16 bytes per character).
pub open spec fn spec_transfer_byte(transfer: Seq<u8>, memory: &GameBoyMemory, d: int) -> u8 {
    let lcd_control = spec_io(memory, 0x40);
    let map_start: int = if lcd_control & 0x08 != 0 { 0x1c00 } else { 0x1800 };
    let chars_start: int = if lcd_control & 0x10 != 0 { 0 } else { 0x0800 };
    let inverter: u8 = if lcd_control & 0x10 != 0 { 0 } else { 0x80 };
    if d < 360 * 16 {
        let character = d / 16;
        let map_index = map_start + (character / 20) * 32 + character % 20;
        let tile: u8 = if map_index < memory.vram@.len() { memory.vram@[map_index] } else { 0 };
        let source = chars_start + ((tile ^ inverter) as int) * 16 + d % 16;
        if source < memory.vram@.len() {
            memory.vram@[source]
        } else {
            transfer[d]
        }
    } else {
        transfer[d]
    }
}

/// The transfer buffer after the screen's tiles are copied into it.
pub open spec fn spec_mapped_transfer(transfer: Seq<u8>, memory: &GameBoyMemory) -> Seq<u8> {
    Seq::new(transfer.len(), |d: int| spec_transfer_byte(transfer, memory, d))
}

/// The system palettes read by PAL_TRN from a transfer buffer of 4096 bytes.
pub open spec fn spec_system_palettes_from(transfer: Seq<u8>) -> Seq<u32> {
    Seq::new(
        SGB_SYSTEM_PALETTE_COLORS as nat,
        |i: int| spec_remap_555_8888(transfer[2 * i] as u32, transfer[2 * i + 1] as u32),
    )
}

impl SgbState {
    /// `self` is `before` with the received command applied.
    pub open spec fn spec_command_applied(&self, before: &SgbState, memory: &GameBoyMemory) -> bool {
        let cb = before.command_bytes;
        let command = before.command;
        &&& self.completed_commands == (if before.completed_commands == u32::MAX {
            u32::MAX
        } else {
            (before.completed_commands + 1) as u32
        })
        &&& self.last_command == command
        &&& self.mono_data == before.mono_data
        &&& self.attribute_files == before.attribute_files
        &&& self.palettes@ == if command == SGBCOM_PAL01 {
            spec_palette_range(spec_palette_range(spec_common_colour(before.palettes@, cb), cb, 0, 1, 3), cb, 1, 5, 7)
        } else if command == SGBCOM_PAL23 {
            spec_palette_range(spec_palette_range(spec_common_colour(before.palettes@, cb), cb, 0, 9, 11), cb, 1, 13, 15)
        } else if command == SGBCOM_PAL03 {
            spec_palette_range(spec_palette_range(spec_common_colour(before.palettes@, cb), cb, 0, 1, 3), cb, 1, 13, 15)
        } else if command == SGBCOM_PAL12 {
            spec_palette_range(spec_palette_range(spec_common_colour(before.palettes@, cb), cb, 0, 5, 7), cb, 1, 9, 11)
        } else if command == SGBCOM_PAL_SET {
            spec_pal_set(before.palettes@, before.system_palettes@, cb)
        } else {
            before.palettes@
        }
        &&& self.character_palettes@ == if command == SGBCOM_ATTR_BLK {
            spec_attr_blk_from(cb, before.character_palettes@, 0, 2, (cb@[0]@[1] & 0x1f) as nat)
        } else if command == SGBCOM_ATTR_DIV {
            spec_attr_div(before.character_palettes@, cb)
        } else if command == SGBCOM_ATTR_CHR {
            spec_attr_chr(before.character_palettes@, cb)
        } else {
            before.character_palettes@
        }
        &&& if command == SGBCOM_PAL_TRN && spec_io(memory, 0x40) & 0x80 != 0 {
            let transfer = spec_mapped_transfer(before.transfer_vram@, memory);
            &&& self.transfer_vram@ == transfer
            &&& self.system_palettes@ == spec_system_palettes_from(transfer)
        } else {
            &&& self.transfer_vram == before.transfer_vram
            &&& self.system_palettes == before.system_palettes
        }
        &&& if command == SGBCOM_MLT_REQ {
            &&& self.mult_enabled == (cb@[0]@[1] & 0x01 != 0)
            &&& self.player_count == (cb@[0]@[1] + 1) as u32
            &&& self.read_joypad_id == 0x0f
        } else {
            &&& self.mult_enabled == before.mult_enabled
            &&& self.player_count == before.player_count
            &&& self.read_joypad_id == before.read_joypad_id
        }
        &&& if command == SGBCOM_MASK_EN {
            &&& self.freeze_mode == cb@[0]@[1]
            &&& self.freeze_screen == (1 <= cb@[0]@[1] < 4)
        } else if command == SGBCOM_PAL_SET && cb@[0]@[9] & 0x40 != 0 {
            &&& self.freeze_mode == 0
            &&& !self.freeze_screen
        } else {
            &&& self.freeze_mode == before.freeze_mode
            &&& self.freeze_screen == before.freeze_screen
        }
    }
}

/// Whether the character cell in row `y` and column `x` lies in `region`.
pub fn cell_in_region(region: CellRegion, y: u32, x: u32) -> (inside: bool)
    ensures
        inside == region_contains(region, y as int, x as int),
{
    match region {
        CellRegion::Inside { top, bottom, left, right } => top <= y && y <= bottom && left <= x
            && x <= right,
        CellRegion::Outside { top, bottom, left, right } => !(top <= y && y <= bottom && left <= x
            && x <= right),
        CellRegion::Interior { top, bottom, left, right } => top < y && y < bottom && left < x && x
            < right,
        CellRegion::Border { top, bottom, left, right } => (top <= y && y <= bottom && left <= x
            && x <= right) && !(top < y && y < bottom && left < x && x < right),
    }
}

/// Sets every cell of `region` of the attribute map to `palette`.
pub fn paint_cells(cells: &mut Vec<u32>, region: CellRegion, palette: u32)
    requires
        old(cells)@.len() == SGB_CHARACTER_PALETTE_ENTRIES,
    ensures
        final(cells)@ == spec_paint(old(cells)@, region, palette),
{
    let mut k: usize = 0;
    while k < 360
        invariant
            k <= 360,
            cells@.len() == 360,
            forall|i: int|
                0 <= i < 360 ==> #[trigger] cells@[i] == if i < k && region_contains(
                    region,
                    i / 20,
                    i % 20,
                ) {
                    palette
                } else {
                    old(cells)@[i]
                },
        decreases 360 - k,
    {
        let y = (k / 20) as u32;
        let x = (k % 20) as u32;
        if cell_in_region(region, y, x) {
            cells[k] = palette;
        }
        k += 1;
    }
    assert(cells@ =~= spec_paint(old(cells)@, region, palette));
}

impl SgbState {
    /// Applies the command whose packets have all arrived.
    pub fn check_packets(&mut self, memory: &GameBoyMemory)
        requires
            old(self).wf(),
            old(self).command == SGBCOM_MLT_REQ ==> old(self).command_bytes@[0]@[1] < u32::MAX,
        ensures
            final(self).wf(),
            final(self).spec_command_applied(old(self), memory),
            final(self).same_receiver(old(self)),
    {
        self.completed_commands = self.completed_commands.saturating_add(1);
        self.last_command = self.command;
        let command = self.command;
        if command == SGBCOM_PAL01 {
            self.set_common_colour();
            self.set_palette_range(0, 1, 3);
            self.set_palette_range(1, 5, 7);
        } else if command == SGBCOM_PAL23 {
            self.set_common_colour();
            self.set_palette_range(0, 9, 11);
            self.set_palette_range(1, 13, 15);
        } else if command == SGBCOM_PAL03 {
            self.set_common_colour();
            self.set_palette_range(0, 1, 3);
            self.set_palette_range(1, 13, 15);
        } else if command == SGBCOM_PAL12 {
            self.set_common_colour();
            self.set_palette_range(0, 5, 7);
            self.set_palette_range(1, 9, 11);
        } else if command == SGBCOM_ATTR_BLK {
            self.apply_attr_blk();
        } else if command == SGBCOM_ATTR_DIV {
            self.apply_attr_div();
        } else if command == SGBCOM_ATTR_CHR {
            self.apply_attr_chr();
        } else if command == SGBCOM_PAL_SET {
            self.apply_pal_set();
        } else if command == SGBCOM_PAL_TRN {
            self.apply_pal_trn(memory);
        } else if command == SGBCOM_MLT_REQ {
            self.mult_enabled = self.command_bytes[0][1] & 0x01 != 0;
            self.player_count = self.command_bytes[0][1] + 1;
            self.read_joypad_id = 0x0f;
        } else if command == SGBCOM_MASK_EN {
            self.freeze_mode = self.command_bytes[0][1];
            self.freeze_screen = 1 <= self.freeze_mode && self.freeze_mode < 4;
        }
    }

    /// Sets colour 0 of all four display palettes to the command's first colour.
    pub fn set_common_colour(&mut self)
        requires
            old(self).wf(),
        ensures
            final(self).wf(),
            final(self).palettes@ == spec_common_colour(old(self).palettes@, old(self).command_bytes),
            final(self).same_receiver(old(self)),
            final(self).character_palettes == old(self).character_palettes,
            final(self).system_palettes == old(self).system_palettes,
            final(self).transfer_vram == old(self).transfer_vram,
            final(self).mono_data == old(self).mono_data,
            final(self).attribute_files == old(self).attribute_files,
            final(self).completed_commands == old(self).completed_commands,
            final(self).last_command == old(self).last_command,
            final(self).freeze_mode == old(self).freeze_mode,
            final(self).freeze_screen == old(self).freeze_screen,
            final(self).mult_enabled == old(self).mult_enabled,
            final(self).player_count == old(self).player_count,
            final(self).read_joypad_id == old(self).read_joypad_id,
    {
        let colour = remap_555_8888(self.command_bytes[0][1], self.command_bytes[0][2]);
        self.palettes[0] = colour;
        self.palettes[4] = colour;
        self.palettes[8] = colour;
        self.palettes[12] = colour;
    }

    /// Sets display colours `destination_start..=destination_end` from the consecutive colours of
    /// colour group `source_group` of the command.
    pub fn set_palette_range(
        &mut self,
        source_group: usize,
        destination_start: usize,
        destination_end: usize,
    )
        requires
            old(self).wf(),
            source_group <= 1,
            destination_end < 16,
            destination_start <= destination_end + 1,
            destination_end - destination_start <= 2,
        ensures
            final(self).wf(),
            final(self).palettes@ == spec_palette_range(
                old(self).palettes@,
                old(self).command_bytes,
                source_group as int,
                destination_start as int,
                destination_end as int,
            ),
            final(self).same_receiver(old(self)),
            final(self).character_palettes == old(self).character_palettes,
            final(self).system_palettes == old(self).system_palettes,
            final(self).transfer_vram == old(self).transfer_vram,
            final(self).mono_data == old(self).mono_data,
            final(self).attribute_files == old(self).attribute_files,
            final(self).completed_commands == old(self).completed_commands,
            final(self).last_command == old(self).last_command,
            final(self).freeze_mode == old(self).freeze_mode,
            final(self).freeze_screen == old(self).freeze_screen,
            final(self).mult_enabled == old(self).mult_enabled,
            final(self).player_count == old(self).player_count,
            final(self).read_joypad_id == old(self).read_joypad_id,
    {
        assert(source_group * 6 == if source_group == 0 { 0usize } else { 6usize });
        let mut source = 3 + source_group * 6;
        let mut destination = destination_start;
        while destination <= destination_end
            invariant
                destination_start <= destination <= destination_end + 1,
                destination_end < 16,
                destination_end - destination_start <= 2,
                source_group <= 1,
                old(self).wf(),
                source == 3 + (if source_group == 0 { 0int } else { 6int }) + 2 * (destination
                    - destination_start),
                self.wf(),
                forall|i: int|
                    0 <= i < 16 ==> #[trigger] self.palettes@[i] == if destination_start <= i
                        < destination {
                        spec_palette_range(
                            old(self).palettes@,
                            old(self).command_bytes,
                            source_group as int,
                            destination_start as int,
                            destination_end as int,
                        )[i]
                    } else {
                        old(self).palettes@[i]
                    },
                self.same_receiver(old(self)),
                self.command_bytes == old(self).command_bytes,
                self.character_palettes == old(self).character_palettes,
                self.system_palettes == old(self).system_palettes,
                self.transfer_vram == old(self).transfer_vram,
                self.mono_data == old(self).mono_data,
                self.attribute_files == old(self).attribute_files,
                self.completed_commands == old(self).completed_commands,
                self.last_command == old(self).last_command,
                self.freeze_mode == old(self).freeze_mode,
                self.freeze_screen == old(self).freeze_screen,
                self.mult_enabled == old(self).mult_enabled,
                self.player_count == old(self).player_count,
                self.read_joypad_id == old(self).read_joypad_id,
            decreases destination_end + 1 - destination,
        {
            let colour = remap_555_8888(
                self.command_bytes[0][source],
                self.command_bytes[0][source + 1],
            );
            assert(spec_palette_range(
                old(self).palettes@,
                old(self).command_bytes,
                source_group as int,
                destination_start as int,
                destination_end as int,
            )[destination as int] == colour);
            self.palettes[destination] = colour;
            source += 2;
            destination += 1;
        }
        assert(self.palettes@ =~= spec_palette_range(
            old(self).palettes@,
            old(self).command_bytes,
            source_group as int,
            destination_start as int,
            destination_end as int,
        ));
    }

    /// Copies the four system palettes that PAL_SET names into the display palettes; bit 6 of
    /// the command's ninth byte unfreezes the screen.
    pub fn apply_pal_set(&mut self)
        requires
            old(self).wf(),
        ensures
            final(self).wf(),
            final(self).palettes@ == spec_pal_set(
                old(self).palettes@,
                old(self).system_palettes@,
                old(self).command_bytes,
            ),
            old(self).command_bytes@[0]@[9] & 0x40 != 0 ==> final(self).freeze_mode == 0
                && !final(self).freeze_screen,
            old(self).command_bytes@[0]@[9] & 0x40 == 0 ==> final(self).freeze_mode == old(
                self,
            ).freeze_mode && final(self).freeze_screen == old(self).freeze_screen,
            final(self).same_receiver(old(self)),
            final(self).character_palettes == old(self).character_palettes,
            final(self).system_palettes == old(self).system_palettes,
            final(self).transfer_vram == old(self).transfer_vram,
            final(self).mono_data == old(self).mono_data,
            final(self).attribute_files == old(self).attribute_files,
            final(self).completed_commands == old(self).completed_commands,
            final(self).last_command == old(self).last_command,
            final(self).mult_enabled == old(self).mult_enabled,
            final(self).player_count == old(self).player_count,
            final(self).read_joypad_id == old(self).read_joypad_id,
    {
        let mut destination: usize = 0;
        while destination < 16
            invariant
                destination <= 16,
                self.wf(),
                old(self).wf(),
                forall|i: int|
                    0 <= i < 16 ==> #[trigger] self.palettes@[i] == if i < destination {
                        spec_pal_set(
                            old(self).palettes@,
                            old(self).system_palettes@,
                            old(self).command_bytes,
                        )[i]
                    } else {
                        old(self).palettes@[i]
                    },
                self.same_receiver(old(self)),
                self.character_palettes == old(self).character_palettes,
                self.system_palettes == old(self).system_palettes,
                self.transfer_vram == old(self).transfer_vram,
                self.mono_data == old(self).mono_data,
                self.attribute_files == old(self).attribute_files,
                self.completed_commands == old(self).completed_commands,
                self.last_command == old(self).last_command,
                self.freeze_mode == old(self).freeze_mode,
                self.freeze_screen == old(self).freeze_screen,
                self.mult_enabled == old(self).mult_enabled,
                self.player_count == old(self).player_count,
                self.read_joypad_id == old(self).read_joypad_id,
            decreases 16 - destination,
        {
            let palette = destination / 4;
            let colour = destination % 4;
            let source_palette = self.command_bytes[0][palette * 2 + 1] | ((
            self.command_bytes[0][palette * 2 + 2] & 0x01) << 8);
            let source: u64 = source_palette as u64 * 4 + colour as u64;
            let ghost expected = spec_pal_set(
                old(self).palettes@,
                old(self).system_palettes@,
                old(self).command_bytes,
            )[destination as int];
            assert(source_palette == pal_set_source(old(self).command_bytes, (destination / 4) as int));
            if source < self.system_palettes.len() as u64 {
                assert(expected == self.system_palettes@[source as int]);
                self.palettes[destination] = self.system_palettes[source as usize];
            } else {
                assert(expected == old(self).palettes@[destination as int]);
            }
            destination += 1;
        }
        assert(self.palettes@ =~= spec_pal_set(
            old(self).palettes@,
            old(self).system_palettes@,
            old(self).command_bytes,
        ));
        if self.command_bytes[0][9] & 0x40 != 0 {
            self.freeze_mode = 0;
            self.freeze_screen = false;
        }
    }

    /// Sets the whole rows `start..=end` (the part on screen) of the attribute map to `palette`.
    pub fn fill_character_rows(&mut self, start: u32, end: u32, palette: u32)
        requires
            old(self).wf(),
        ensures
            final(self).wf(),
            final(self).character_palettes@ == spec_paint(
                old(self).character_palettes@,
                CellRegion::Inside { top: start, bottom: end, left: 0, right: 19 },
                palette,
            ),
            final(self).same_receiver(old(self)),
            final(self).same_outputs_but_attributes(old(self)),
    {
        if start > end || start > 17 {
            assert(self.character_palettes@ =~= spec_paint(
                old(self).character_palettes@,
                CellRegion::Inside { top: start, bottom: end, left: 0, right: 19 },
                palette,
            ));
            return ;
        }
        paint_cells(
            &mut self.character_palettes,
            CellRegion::Inside { top: start, bottom: end, left: 0, right: 19 },
            palette,
        );
    }

    /// Sets the whole columns `start..=end` (the part on screen) of the attribute map to `palette`.
    pub fn fill_character_columns(&mut self, start: u32, end: u32, palette: u32)
        requires
            old(self).wf(),
        ensures
            final(self).wf(),
            final(self).character_palettes@ == spec_paint(
                old(self).character_palettes@,
                CellRegion::Inside { top: 0, bottom: 17, left: start, right: end },
                palette,
            ),
            final(self).same_receiver(old(self)),
            final(self).same_outputs_but_attributes(old(self)),
    {
        if start > end || start > 19 {
            assert(self.character_palettes@ =~= spec_paint(
                old(self).character_palettes@,
                CellRegion::Inside { top: 0, bottom: 17, left: start, right: end },
                palette,
            ));
            return ;
        }
        paint_cells(
            &mut self.character_palettes,
            CellRegion::Inside { top: 0, bottom: 17, left: start, right: end },
            palette,
        );
    }

    /// Everything but the attribute map is equal in both states.
    pub open spec fn same_outputs_but_attributes(&self, other: &SgbState) -> bool {
        &&& self.palettes == other.palettes
        &&& self.system_palettes == other.system_palettes
        &&& self.transfer_vram == other.transfer_vram
        &&& self.mono_data == other.mono_data
        &&& self.attribute_files == other.attribute_files
        &&& self.completed_commands == other.completed_commands
        &&& self.last_command == other.last_command
        &&& self.freeze_mode == other.freeze_mode
        &&& self.freeze_screen == other.freeze_screen
        &&& self.mult_enabled == other.mult_enabled
        &&& self.player_count == other.player_count
        &&& self.read_joypad_id == other.read_joypad_id
    }

    /// ATTR_DIV: splits the screen at a row (or column) into the part before, the dividing line,
    /// and the part after, each with its own palette.
    pub fn apply_attr_div(&mut self)
        requires
            old(self).wf(),
        ensures
            final(self).wf(),
            final(self).character_palettes@ == spec_attr_div(
                old(self).character_palettes@,
                old(self).command_bytes,
            ),
            final(self).same_receiver(old(self)),
            final(self).same_outputs_but_attributes(old(self)),
    {
        let control = self.command_bytes[0][1];
        if control & 0x40 != 0 {
            let h = if self.command_bytes[0][2] < 17 {
                self.command_bytes[0][2]
            } else {
                17
            };
            self.fill_character_rows(0, h, (control & 0x0c) >> 2);
            self.fill_character_rows(h, h, (control & 0x30) >> 4);
            self.fill_character_rows(h + 1, 17, control & 0x03);
        } else {
            let v = if self.command_bytes[0][2] < 19 {
                self.command_bytes[0][2]
            } else {
                19
            };
            self.fill_character_columns(0, v, (control & 0x0c) >> 2);
            self.fill_character_columns(v, v, (control & 0x30) >> 4);
            self.fill_character_columns(v + 1, 19, control & 0x03);
        }
    }
}

impl SgbState {
    /// ATTR_BLK: applies up to 31 data groups, each painting the inside, the edge and/or the
    /// outside of a rectangle of the attribute map.
    pub fn apply_attr_blk(&mut self)
        requires
            old(self).wf(),
        ensures
            final(self).wf(),
            final(self).character_palettes@ == spec_attr_blk_from(
                old(self).command_bytes,
                old(self).character_palettes@,
                0,
                2,
                (old(self).command_bytes@[0]@[1] & 0x1f) as nat,
            ),
            final(self).same_receiver(old(self)),
            final(self).same_outputs_but_attributes(old(self)),
    {
        let data_groups = self.command_bytes[0][1] & 0x1f;
        let ghost cb = self.command_bytes;
        let ghost target = spec_attr_blk_from(cb, self.character_palettes@, 0, 2, data_groups as nat);
        let mut packet: usize = 0;
        let mut byte: usize = 2;
        let mut group: u32 = 0;
        let mut done = false;
        while group < data_groups && !done
            invariant
                group <= data_groups,
                packet <= 6,
                byte < 16,
                self.wf(),
                self.command_bytes == cb,
                done ==> self.character_palettes@ == target,
                !done ==> spec_attr_blk_from(
                    cb,
                    self.character_palettes@,
                    packet as int,
                    byte as int,
                    (data_groups - group) as nat,
                ) == target,
                self.same_receiver(old(self)),
                self.same_outputs_but_attributes(old(self)),
            decreases data_groups - group,
        {
            let (control, codes, left, top, right, bottom, next_packet, next_byte) =
                self.read_attr_blk_group(packet, byte);
            if left > right || top > bottom {
                done = true;
            } else {
                self.apply_attr_blk_group(control, codes, left, top, right, bottom);
                packet = next_packet;
                byte = next_byte;
            }
            group += 1;
        }
    }

    /// Reads one ATTR_BLK data group at the packet cursor: control code, palette codes, and the
    /// rectangle's left, top, right and bottom (capped to the screen), with the cursor after it.
    pub fn read_attr_blk_group(&self, packet: usize, byte: usize) -> (group: (
        u32,
        u32,
        u32,
        u32,
        u32,
        u32,
        usize,
        usize,
    ))
        requires
            packet <= 6,
            byte < 16,
        ensures
            ({
                let cb = self.command_bytes;
                let c1 = spec_advanced_cursor(packet as int, byte + 2);
                let c2 = spec_advanced_cursor(c1.0, c1.1 + 2);
                let c3 = spec_advanced_cursor(c2.0, c2.1 + 2);
                &&& group.0 == spec_packet_byte(cb, packet as int, byte as int) & 0x07
                &&& group.1 == spec_packet_byte(cb, packet as int, byte + 1) & 0x3f
                &&& group.2 == min_u32(spec_packet_byte(cb, c1.0, c1.1), 19)
                &&& group.3 == min_u32(spec_packet_byte(cb, c1.0, c1.1 + 1), 17)
                &&& group.4 == min_u32(spec_packet_byte(cb, c2.0, c2.1), 19)
                &&& group.5 == min_u32(spec_packet_byte(cb, c2.0, c2.1 + 1), 17)
                &&& group.6 == c3.0
                &&& group.7 == c3.1
            }),
            group.6 <= 6,
            group.7 < 16,
    {
        let mut packet = packet;
        let mut byte = byte;
        let control = self.packet_byte(packet, byte) & 0x07;
        byte += 1;
        let palette_codes = self.packet_byte(packet, byte) & 0x3f;
        byte += 1;
        advance_packet_cursor(&mut packet, &mut byte);
        let x_left_raw = self.packet_byte(packet, byte);
        let x_left = if x_left_raw < 19 { x_left_raw } else { 19 };
        byte += 1;
        let y_top_raw = self.packet_byte(packet, byte);
        let y_top = if y_top_raw < 17 { y_top_raw } else { 17 };
        byte += 1;
        advance_packet_cursor(&mut packet, &mut byte);
        let x_right_raw = self.packet_byte(packet, byte);
        let x_right = if x_right_raw < 19 { x_right_raw } else { 19 };
        byte += 1;
        let y_bottom_raw = self.packet_byte(packet, byte);
        let y_bottom = if y_bottom_raw < 17 { y_bottom_raw } else { 17 };
        byte += 1;
        advance_packet_cursor(&mut packet, &mut byte);
        (control, palette_codes, x_left, y_top, x_right, y_bottom, packet, byte)
    }

    /// Applies one ATTR_BLK data group: the outside of the rectangle (control above 3), its
    /// interior (control bit 0), and its edge (control not 0 or 5).
    pub fn apply_attr_blk_group(
        &mut self,
        control: u32,
        palette_codes: u32,
        left: u32,
        top: u32,
        right: u32,
        bottom: u32,
    )
        requires
            old(self).wf(),
        ensures
            final(self).wf(),
            final(self).character_palettes@ == spec_attr_blk_group(
                old(self).character_palettes@,
                control,
                palette_codes,
                left,
                top,
                right,
                bottom,
            ),
            final(self).command_bytes == old(self).command_bytes,
            final(self).same_receiver(old(self)),
            final(self).same_outputs_but_attributes(old(self)),
    {
        if control > 3 {
            paint_cells(
                &mut self.character_palettes,
                CellRegion::Outside { top, bottom, left, right },
                (palette_codes & 0x30) >> 4,
            );
        }
        if control & 0x01 != 0 {
            paint_cells(
                &mut self.character_palettes,
                CellRegion::Interior { top, bottom, left, right },
                palette_codes & 0x03,
            );
        }
        if control > 0 && control != 5 {
            let palette = if control == 1 {
                palette_codes & 0x03
            } else if control == 4 {
                (palette_codes & 0x30) >> 4
            } else {
                (palette_codes & 0x0c) >> 2
            };
            paint_cells(
                &mut self.character_palettes,
                CellRegion::Border { top, bottom, left, right },
                palette,
            );
        }
    }

    /// ATTR_CHR: writes the palette numbers of consecutive cells of the attribute map, along
    /// rows or down columns, from a start cell.
    pub fn apply_attr_chr(&mut self)
        requires
            old(self).wf(),
        ensures
            final(self).wf(),
            final(self).character_palettes@ == spec_attr_chr(
                old(self).character_palettes@,
                old(self).command_bytes,
            ),
            final(self).same_receiver(old(self)),
            final(self).same_outputs_but_attributes(old(self)),
    {
        let start_x = self.command_bytes[0][1];
        let start_y = self.command_bytes[0][2];
        if start_x > 19 || start_y > 17 {
            return ;
        }
        let data_sets = (self.command_bytes[0][3] | ((self.command_bytes[0][4] & 0x01) << 8)) as usize;
        let vertical = self.command_bytes[0][5] & 0x01 != 0;
        let count: usize = if data_sets > usize::MAX / 4 {
            usize::MAX
        } else {
            data_sets * 4
        };
        let ghost cb = self.command_bytes;
        let ghost target = spec_attr_chr(self.character_palettes@, cb);
        let mut x = start_x;
        let mut y = start_y;
        let mut packet: usize = 0;
        let mut byte: usize = 6;
        let mut nibble: u8 = 0;
        let mut step: usize = 0;
        let mut done = false;
        while step < count && !done
            invariant
                step <= count,
                start_x <= 19,
                start_y <= 17,
                x < 20,
                y < 18,
                packet <= 6,
                byte < 16,
                nibble < 4,
                self.wf(),
                self.command_bytes == cb,
                done ==> self.character_palettes@ == target,
                !done ==> spec_attr_chr_from(
                    cb,
                    self.character_palettes@,
                    start_x as int,
                    start_y as int,
                    vertical,
                    x as int,
                    y as int,
                    packet as int,
                    byte as int,
                    nibble as int,
                    (count - step) as nat,
                ) == target,
                self.same_receiver(old(self)),
                self.same_outputs_but_attributes(old(self)),
            decreases count - step,
        {
            let value = self.packet_byte(packet, byte);
            let palette = if nibble == 0 {
                (value & 0xc0) >> 6
            } else if nibble == 1 {
                (value & 0x30) >> 4
            } else if nibble == 2 {
                (value & 0x0c) >> 2
            } else {
                value & 0x03
            };
            self.character_palettes[y as usize * 20 + x as usize] = palette;
            let (next_x, next_y) = if vertical {
                if y + 1 >= 18 {
                    (x + 1, start_y)
                } else {
                    (x, y + 1)
                }
            } else {
                if x + 1 >= 20 {
                    (start_x, y + 1)
                } else {
                    (x + 1, y)
                }
            };
            if next_x >= 20 || next_y >= 18 {
                done = true;
            } else {
                x = next_x;
                y = next_y;
                nibble += 1;
                if nibble >= 4 {
                    nibble = 0;
                    byte += 1;
                    advance_packet_cursor(&mut packet, &mut byte);
                }
            }
            step += 1;
        }
    }

    /// PAL_TRN: with the display on, copies the screen's tiles into the transfer buffer and
    /// reads the 512 system palettes from it.
    pub fn apply_pal_trn(&mut self, memory: &GameBoyMemory)
        requires
            old(self).wf(),
        ensures
            final(self).wf(),
            spec_io(memory, 0x40) & 0x80 == 0 ==> *final(self) == *old(self),
            spec_io(memory, 0x40) & 0x80 != 0 ==> {
                let transfer = spec_mapped_transfer(old(self).transfer_vram@, memory);
                &&& final(self).transfer_vram@ == transfer
                &&& final(self).system_palettes@ == spec_system_palettes_from(transfer)
            },
            final(self).same_receiver(old(self)),
            final(self).palettes == old(self).palettes,
            final(self).character_palettes == old(self).character_palettes,
            final(self).mono_data == old(self).mono_data,
            final(self).attribute_files == old(self).attribute_files,
            final(self).completed_commands == old(self).completed_commands,
            final(self).last_command == old(self).last_command,
            final(self).freeze_mode == old(self).freeze_mode,
            final(self).freeze_screen == old(self).freeze_screen,
            final(self).mult_enabled == old(self).mult_enabled,
            final(self).player_count == old(self).player_count,
            final(self).read_joypad_id == old(self).read_joypad_id,
    {
        let lcd_control: u8 = if 0x40 < memory.io_ports.len() {
            memory.io_ports[0x40]
        } else {
            0
        };
        if lcd_control & 0x80 == 0 {
            return ;
        }
        self.map_vram_for_transfer(memory);
        let ghost transfer = self.transfer_vram@;
        let mut i: usize = 0;
        while i < 2048
            invariant
                i <= 2048,
                self.wf(),
                self.transfer_vram@ == transfer,
                transfer.len() == 4096,
                forall|j: int|
                    0 <= j < 2048 ==> #[trigger] self.system_palettes@[j] == if j < i {
                        spec_remap_555_8888(transfer[2 * j] as u32, transfer[2 * j + 1] as u32)
                    } else {
                        old(self).system_palettes@[j]
                    },
                self.same_receiver(old(self)),
                self.palettes == old(self).palettes,
                self.character_palettes == old(self).character_palettes,
                self.mono_data == old(self).mono_data,
                self.attribute_files == old(self).attribute_files,
                self.completed_commands == old(self).completed_commands,
                self.last_command == old(self).last_command,
                self.freeze_mode == old(self).freeze_mode,
                self.freeze_screen == old(self).freeze_screen,
                self.mult_enabled == old(self).mult_enabled,
                self.player_count == old(self).player_count,
                self.read_joypad_id == old(self).read_joypad_id,
            decreases 2048 - i,
        {
            let lo = self.transfer_vram[2 * i];
            let hi = self.transfer_vram[2 * i + 1];
            self.system_palettes[i] = remap_555_8888(lo as u32, hi as u32);
            i += 1;
        }
        assert(self.system_palettes@ =~= spec_system_palettes_from(transfer));
    }

    /// Copies the tiles shown on screen, in character order, into the transfer buffer.
    pub fn map_vram_for_transfer(&mut self, memory: &GameBoyMemory)
        ensures
            final(self).transfer_vram@ == spec_mapped_transfer(old(self).transfer_vram@, memory),
            final(self).same_receiver(old(self)),
            final(self).palettes == old(self).palettes,
            final(self).system_palettes == old(self).system_palettes,
            final(self).character_palettes == old(self).character_palettes,
            final(self).mono_data == old(self).mono_data,
            final(self).attribute_files == old(self).attribute_files,
            final(self).completed_commands == old(self).completed_commands,
            final(self).last_command == old(self).last_command,
            final(self).freeze_mode == old(self).freeze_mode,
            final(self).freeze_screen == old(self).freeze_screen,
            final(self).mult_enabled == old(self).mult_enabled,
            final(self).player_count == old(self).player_count,
            final(self).read_joypad_id == old(self).read_joypad_id,
    {
        let lcd_control: u8 = if 0x40 < memory.io_ports.len() {
            memory.io_ports[0x40]
        } else {
            0
        };
        let map_start: usize = if lcd_control & 0x08 != 0 {
            0x1c00
        } else {
            0x1800
        };
        let chars_start: usize = if lcd_control & 0x10 != 0 {
            0x0000
        } else {
            0x0800
        };
        let char_code_inverter: u8 = if lcd_control & 0x10 != 0 {
            0x00
        } else {
            0x80
        };
        let mut d: usize = 0;
        while d < 5760
            invariant
                d <= 5760,
                self.transfer_vram@.len() == old(self).transfer_vram@.len(),
                forall|j: int|
                    0 <= j < self.transfer_vram@.len() ==> #[trigger] self.transfer_vram@[j] == if j
                        < d {
                        spec_transfer_byte(old(self).transfer_vram@, memory, j)
                    } else {
                        old(self).transfer_vram@[j]
                    },
                map_start == (if lcd_control & 0x08 != 0 { 0x1c00usize } else { 0x1800usize }),
                chars_start == (if lcd_control & 0x10 != 0 { 0usize } else { 0x0800usize }),
                char_code_inverter == (if lcd_control & 0x10 != 0 { 0u8 } else { 0x80u8 }),
                lcd_control == spec_io(memory, 0x40),
                self.same_receiver(old(self)),
                self.palettes == old(self).palettes,
                self.system_palettes == old(self).system_palettes,
                self.character_palettes == old(self).character_palettes,
                self.mono_data == old(self).mono_data,
                self.attribute_files == old(self).attribute_files,
                self.completed_commands == old(self).completed_commands,
                self.last_command == old(self).last_command,
                self.freeze_mode == old(self).freeze_mode,
                self.freeze_screen == old(self).freeze_screen,
                self.mult_enabled == old(self).mult_enabled,
                self.player_count == old(self).player_count,
                self.read_joypad_id == old(self).read_joypad_id,
            decreases 5760 - d,
        {
            let character = d / 16;
            let map_index = map_start + (character / 20) * 32 + character % 20;
            let tile: u8 = if map_index < memory.vram.len() {
                memory.vram[map_index]
            } else {
                0
            };
            let source = chars_start + ((tile ^ char_code_inverter) as usize) * 16 + d % 16;
            if d < self.transfer_vram.len() && source < memory.vram.len() {
                self.transfer_vram[d] = memory.vram[source];
            }
            d += 1;
        }
        assert(self.transfer_vram@ =~= spec_mapped_transfer(old(self).transfer_vram@, memory));
    }
}

impl SgbState {
    /// The state that `default` gives.
    pub open spec fn is_default(&self) -> bool {
        &&& self.wf()
        &&& self.has_default_palettes()
        &&& !self.reading_command
        &&& self.command == 0
        &&& self.read_command_bits == 0
        &&& self.read_command_bytes == 0
        &&& self.packets_sent == 0
        &&& self.packets_to_send == 0
        &&& self.completed_commands == 0
        &&& self.read_joypad_id == 0
        &&& !self.awaiting_stop_bit
        &&& !self.stop_bit_received
        &&& forall|p: int, b: int| 0 <= p < 7 && 0 <= b < 16 ==> #[trigger] self.command_bytes@[p]@[b] == 0
        &&& forall|i: int| 0 <= i < 8 ==> #[trigger] self.command_bits@[i] == 0
        &&& !self.freeze_screen
        &&& self.freeze_mode == 0
        &&& !self.mult_enabled
        &&& self.player_count == 0
        &&& self.last_command == 0
        &&& self.packet_errors == 0
        &&& self.mono_data@ == zeros(SGB_MONO_PIXELS as nat, 0u32)
        &&& self.transfer_vram@ == zeros(SGB_TRANSFER_VRAM_BYTES as nat, 0u8)
        &&& self.system_palettes@ == zeros(SGB_SYSTEM_PALETTE_COLORS as nat, 0u32)
        &&& self.character_palettes@ == zeros(SGB_CHARACTER_PALETTE_ENTRIES as nat, 0u32)
        &&& self.attribute_files@ == zeros(SGB_ATTRIBUTE_FILE_ENTRIES as nat, 0u32)
    }
}

impl Default for SgbState {
    fn default() -> (sgb: Self)
        ensures
            sgb.is_default(),
    {
        let mut sgb = SgbState {
            reading_command: false,
            awaiting_stop_bit: false,
            stop_bit_received: false,
            command_bytes: [[0u32; 16]; 7],
            command_bits: [0u8; 8],
            command: 0,
            read_command_bits: 0,
            read_command_bytes: 0,
            freeze_screen: false,
            freeze_mode: 0,
            mult_enabled: false,
            player_count: 0,
            packets_sent: 0,
            packets_to_send: 0,
            completed_commands: 0,
            last_command: 0,
            packet_errors: 0,
            read_joypad_id: 0,
            mono_data: crate::memory::zeroed_u32s(SGB_MONO_PIXELS),
            transfer_vram: crate::memory::zeroed_bytes(SGB_TRANSFER_VRAM_BYTES),
            palettes: crate::memory::zeroed_u32s(SGB_PALETTE_COLORS),
            system_palettes: crate::memory::zeroed_u32s(SGB_SYSTEM_PALETTE_COLORS),
            character_palettes: crate::memory::zeroed_u32s(SGB_CHARACTER_PALETTE_ENTRIES),
            attribute_files: crate::memory::zeroed_u32s(SGB_ATTRIBUTE_FILE_ENTRIES),
        };
        sgb.reset_display_palettes();
        sgb
    }
}

/// Moves the packet cursor to the start of the next packet (at most the seventh) once a
/// packet's sixteen bytes are used up.
pub fn advance_packet_cursor(packet: &mut usize, byte: &mut usize)
    requires
        *old(packet) < usize::MAX,
    ensures
        (*final(packet)) as int == spec_advanced_cursor((*old(packet)) as int, (*old(byte)) as int).0,
        (*final(byte)) as int == spec_advanced_cursor((*old(packet)) as int, (*old(byte)) as int).1,
{
    if *byte >= 16 {
        *byte = 0;
        *packet = if *packet + 1 < 6 {
            *packet + 1
        } else {
            6
        };
    }
}

/// The 0xAARRGGBB colour of a little-endian 15-bit BGR colour, each channel scaled to 0..=255.
pub fn remap_555_8888(lo: u32, hi: u32) -> (colour: u32)
    ensures
        colour == spec_remap_555_8888(lo, hi),
{
    let value = lo | (hi << 8);
    assert(value & 0x1f <= 0x1f && (value >> 5u32) & 0x1f <= 0x1f && (value >> 10u32) & 0x1f <= 0x1f)
        by (bit_vector);
    let red = (value & 0x1f) * 255 / 31;
    let green = ((value >> 5) & 0x1f) * 255 / 31;
    let blue = ((value >> 10) & 0x1f) * 255 / 31;
    0xff00_0000 | (red << 16) | (green << 8) | blue
}

/// One received bit in the middle of a byte: the bit is stored at its place and the count
/// moves on; the bytes received so far and the packet count stay.
proof fn lemma_bit_stored(before: &SgbState, after: &SgbState, bit: u8, index: int)
    requires
        before.command_bit_received(after, bit),
        before.reading_command,
        0 <= before.read_command_bytes < 16,
        before.read_command_bits == index,
        0 <= index < 7,
    ensures
        after.reading_command,
        after.read_command_bits == index + 1,
        after.read_command_bytes == before.read_command_bytes,
        after.command_bytes == before.command_bytes,
        after.packets_sent == before.packets_sent,
        after.packet_errors == before.packet_errors,
        after.command_bits@ == before.command_bits@.update(index, bit & 0x01),
{
}

/// Law: eight command bits received in a row while a packet is read assemble one byte, least
/// significant bit first, stored at the packet's next byte; the byte count moves on by one,
/// the bit count starts over, and no error is counted.
pub proof fn lemma_command_byte_received(
    s0: SgbState,
    s1: SgbState,
    s2: SgbState,
    s3: SgbState,
    s4: SgbState,
    s5: SgbState,
    s6: SgbState,
    s7: SgbState,
    s8: SgbState,
    b0: u8,
    b1: u8,
    b2: u8,
    b3: u8,
    b4: u8,
    b5: u8,
    b6: u8,
    b7: u8,
)
    requires
        s0.reading_command,
        s0.read_command_bits == 0,
        0 <= s0.read_command_bytes < 16,
        s0.command_bit_received(&s1, b0),
        s1.command_bit_received(&s2, b1),
        s2.command_bit_received(&s3, b2),
        s3.command_bit_received(&s4, b3),
        s4.command_bit_received(&s5, b4),
        s5.command_bit_received(&s6, b5),
        s6.command_bit_received(&s7, b6),
        s7.command_bit_received(&s8, b7),
    ensures
        ({
            let packet = if s0.packets_sent < 6 { s0.packets_sent as int } else { 6 };
            s8.command_bytes@[packet]@[s0.read_command_bytes as int] == assembled_bits(
                seq![b0 & 0x01, b1 & 0x01, b2 & 0x01, b3 & 0x01, b4 & 0x01, b5 & 0x01, b6 & 0x01, b7 & 0x01],
                8,
            )
        }),
        s8.read_command_bytes == s0.read_command_bytes + 1,
        s8.read_command_bits == 0,
        s8.reading_command,
        s8.packet_errors == s0.packet_errors,
{
    lemma_bit_stored(&s0, &s1, b0, 0);
    lemma_bit_stored(&s1, &s2, b1, 1);
    lemma_bit_stored(&s2, &s3, b2, 2);
    lemma_bit_stored(&s3, &s4, b3, 3);
    lemma_bit_stored(&s4, &s5, b4, 4);
    lemma_bit_stored(&s5, &s6, b5, 5);
    lemma_bit_stored(&s6, &s7, b6, 6);
    let bits = s7.command_bits@.update(7, b7 & 0x01);
    let masked = seq![b0 & 0x01, b1 & 0x01, b2 & 0x01, b3 & 0x01, b4 & 0x01, b5 & 0x01, b6 & 0x01, b7 & 0x01];
    assert(bits =~= masked);
    let packet = if s0.packets_sent < 6 { s0.packets_sent as int } else { 6 };
    assert(s8.command_bytes@[packet]@[s0.read_command_bytes as int] == assembled_bits(bits, 8));
}

} // verus!
