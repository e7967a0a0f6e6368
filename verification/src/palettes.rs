use vstd::prelude::*;

verus! {

/// Resolved colours of every palette, as 0xAARRGGBB values.
#[derive(Clone, Copy, Debug)]
pub struct PaletteState {
    pub translated_bg: [u32; 4],
    pub translated_obj: [u32; 8],
    pub sgb_translation_bg: [u32; 4],
    pub sgb_translation_obj: [u32; 8],
    pub cgb_bg: [u32; 32],
    pub cgb_obj: [u32; 32],
}

impl PaletteState {
    /// Every colour of every palette is zero.
    pub open spec fn is_cleared(self) -> bool {
        &&& (forall|i: int| 0 <= i < 4 ==> self.translated_bg@[i] == 0u32)
        &&& (forall|i: int| 0 <= i < 8 ==> self.translated_obj@[i] == 0u32)
        &&& (forall|i: int| 0 <= i < 4 ==> self.sgb_translation_bg@[i] == 0u32)
        &&& (forall|i: int| 0 <= i < 8 ==> self.sgb_translation_obj@[i] == 0u32)
        &&& (forall|i: int| 0 <= i < 32 ==> self.cgb_bg@[i] == 0u32)
        &&& (forall|i: int| 0 <= i < 32 ==> self.cgb_obj@[i] == 0u32)
    }
}

/// The shade (0 lightest to 3 darkest) that a DMG palette register gives colour index `index`.
pub open spec fn palette_shade(value: u8, index: int) -> u32 {
    ((value as int / (if index == 0 { 1int } else if index == 1 { 4 } else if index == 2 { 16 } else { 64 })) % 4) as u32
}

/// The greyscale 0xAARRGGBB colour of a DMG shade.
pub open spec fn shade_colour(shade: u32) -> u32 {
    if shade == 0 {
        0xffff_ffff
    } else if shade == 1 {
        0xffaa_aaaa
    } else if shade == 2 {
        0xff55_5555
    } else {
        0xff00_0000
    }
}

/// The greyscale colour of a DMG shade.
pub fn shade_to_colour(shade: u32) -> (colour: u32)
    ensures
        colour == shade_colour(shade),
{
    if shade == 0 {
        0xffff_ffff
    } else if shade == 1 {
        0xffaa_aaaa
    } else if shade == 2 {
        0xff55_5555
    } else {
        0xff00_0000
    }
}

/// The shade that palette register `value` gives colour index `index` (0 to 3).
pub fn shade_of(value: u8, index: u8) -> (shade: u32)
    requires
        index < 4,
    ensures
        shade == palette_shade(value, index as int),
        shade < 4,
{
    assert(((value >> 0u8) & 3) as int == (value as int / 1) % 4 && ((value >> 2u8) & 3) as int == (value as int / 4) % 4
        && ((value >> 4u8) & 3) as int == (value as int / 16) % 4 && ((value >> 6u8) & 3) as int == (value as int / 64)
        % 4) by (bit_vector);
    ((value >> (2 * index)) & 3) as u32
}

impl PaletteState {
    /// Resolves the background palette register: each colour index gets its shade, as a
    /// greyscale colour and as the Super Game Boy's monochrome value.
    pub fn translate_bg(&mut self, value: u8)
        ensures
            forall|i: int|
                0 <= i < 4 ==> #[trigger] final(self).translated_bg@[i] == shade_colour(palette_shade(value, i)),
            forall|i: int| 0 <= i < 4 ==> #[trigger] final(self).sgb_translation_bg@[i] == palette_shade(value, i),
            final(self).translated_obj == old(self).translated_obj,
            final(self).sgb_translation_obj == old(self).sgb_translation_obj,
            final(self).cgb_bg == old(self).cgb_bg,
            final(self).cgb_obj == old(self).cgb_obj,
    {
        let mut index: u8 = 0;
        while index < 4
            invariant
                index <= 4,
                forall|i: int| 0 <= i < index ==> #[trigger] self.translated_bg@[i] == shade_colour(palette_shade(value, i)),
                forall|i: int| 0 <= i < index ==> #[trigger] self.sgb_translation_bg@[i] == palette_shade(value, i),
                self.translated_obj == old(self).translated_obj,
                self.sgb_translation_obj == old(self).sgb_translation_obj,
                self.cgb_bg == old(self).cgb_bg,
                self.cgb_obj == old(self).cgb_obj,
            decreases 4 - index,
        {
            let shade = shade_of(value, index);
            self.translated_bg[index as usize] = shade_to_colour(shade);
            self.sgb_translation_bg[index as usize] = shade;
            index += 1;
        }
    }

    /// Resolves object palette register `value` into the object colours from `start` on
    /// (0 for the first object palette, 4 for the second).
    fn translate_obj_from(&mut self, value: u8, start: usize)
        requires
            start == 0 || start == 4,
        ensures
            forall|i: int|
                0 <= i < 8 ==> #[trigger] final(self).translated_obj@[i] == if start <= i < start + 4 {
                    shade_colour(palette_shade(value, i - start))
                } else {
                    old(self).translated_obj@[i]
                },
            forall|i: int|
                0 <= i < 8 ==> #[trigger] final(self).sgb_translation_obj@[i] == if start <= i < start + 4 {
                    palette_shade(value, i - start)
                } else {
                    old(self).sgb_translation_obj@[i]
                },
            final(self).translated_bg == old(self).translated_bg,
            final(self).sgb_translation_bg == old(self).sgb_translation_bg,
            final(self).cgb_bg == old(self).cgb_bg,
            final(self).cgb_obj == old(self).cgb_obj,
    {
        let mut index: u8 = 0;
        while index < 4
            invariant
                start == 0 || start == 4,
                index <= 4,
                forall|i: int|
                    0 <= i < 8 ==> #[trigger] self.translated_obj@[i] == if start <= i < start + index {
                        shade_colour(palette_shade(value, i - start))
                    } else {
                        old(self).translated_obj@[i]
                    },
                forall|i: int|
                    0 <= i < 8 ==> #[trigger] self.sgb_translation_obj@[i] == if start <= i < start + index {
                        palette_shade(value, i - start)
                    } else {
                        old(self).sgb_translation_obj@[i]
                    },
                self.translated_bg == old(self).translated_bg,
                self.sgb_translation_bg == old(self).sgb_translation_bg,
                self.cgb_bg == old(self).cgb_bg,
                self.cgb_obj == old(self).cgb_obj,
            decreases 4 - index,
        {
            let shade = shade_of(value, index);
            self.translated_obj[start + index as usize] = shade_to_colour(shade);
            self.sgb_translation_obj[start + index as usize] = shade;
            index += 1;
        }
    }

    /// Resolves the first object palette register into object colours 0 to 3.
    pub fn translate_obj1(&mut self, value: u8)
        ensures
            forall|i: int|
                0 <= i < 8 ==> #[trigger] final(self).translated_obj@[i] == if i < 4 {
                    shade_colour(palette_shade(value, i))
                } else {
                    old(self).translated_obj@[i]
                },
            forall|i: int|
                0 <= i < 8 ==> #[trigger] final(self).sgb_translation_obj@[i] == if i < 4 {
                    palette_shade(value, i)
                } else {
                    old(self).sgb_translation_obj@[i]
                },
            final(self).translated_bg == old(self).translated_bg,
            final(self).sgb_translation_bg == old(self).sgb_translation_bg,
            final(self).cgb_bg == old(self).cgb_bg,
            final(self).cgb_obj == old(self).cgb_obj,
    {
        self.translate_obj_from(value, 0);
    }

    /// Resolves the second object palette register into object colours 4 to 7.
    pub fn translate_obj2(&mut self, value: u8)
        ensures
            forall|i: int|
                0 <= i < 8 ==> #[trigger] final(self).translated_obj@[i] == if 4 <= i {
                    shade_colour(palette_shade(value, i - 4))
                } else {
                    old(self).translated_obj@[i]
                },
            forall|i: int|
                0 <= i < 8 ==> #[trigger] final(self).sgb_translation_obj@[i] == if 4 <= i {
                    palette_shade(value, i - 4)
                } else {
                    old(self).sgb_translation_obj@[i]
                },
            final(self).translated_bg == old(self).translated_bg,
            final(self).sgb_translation_bg == old(self).sgb_translation_bg,
            final(self).cgb_bg == old(self).cgb_bg,
            final(self).cgb_obj == old(self).cgb_obj,
    {
        self.translate_obj_from(value, 4);
    }
}

impl PaletteState {
    /// The palettes that the palette registers in `io_ports` give: BGP, OBP0 and OBP1
    /// translated to shades and colours, the CGB palettes cleared.
    pub open spec fn translated_from(&self, io_ports: Seq<u8>) -> bool {
        &&& ({
            let bgp = if 0x47 < io_ports.len() { io_ports[0x47] } else { 0u8 };
            let obp0 = if 0x48 < io_ports.len() { io_ports[0x48] } else { 0u8 };
            let obp1 = if 0x49 < io_ports.len() { io_ports[0x49] } else { 0u8 };
            &&& forall|i: int|
                0 <= i < 4 ==> #[trigger] self.translated_bg@[i] == shade_colour(palette_shade(bgp, i))
                    && self.sgb_translation_bg@[i] == palette_shade(bgp, i)
            &&& forall|i: int|
                0 <= i < 8 ==> #[trigger] self.translated_obj@[i] == shade_colour(
                    palette_shade(if i < 4 { obp0 } else { obp1 }, i % 4),
                ) && self.sgb_translation_obj@[i] == palette_shade(if i < 4 { obp0 } else { obp1 }, i % 4)
            &&& forall|i: int| 0 <= i < 32 ==> #[trigger] self.cgb_bg@[i] == 0u32
            &&& forall|i: int| 0 <= i < 32 ==> #[trigger] self.cgb_obj@[i] == 0u32
        })
    }
}

impl PaletteState {
    /// Starts the palettes of a newly loaded cartridge: the Color palettes clear and the three
    /// DMG palettes are resolved from the palette registers BGP, OBP0 and OBP1 (0 past the
    /// ports).
    pub fn reset_for_rom_load(&mut self, io_ports: &[u8])
        ensures
            final(self).translated_from(io_ports@),
    {
        *self = PaletteState::default();
        let bgp = crate::audio::io(io_ports, 0x47);
        let obp0 = crate::audio::io(io_ports, 0x48);
        let obp1 = crate::audio::io(io_ports, 0x49);
        self.translate_bg(bgp);
        self.translate_obj1(obp0);
        let ghost after_obj1 = self.translated_obj@;
        self.translate_obj2(obp1);
        assert forall|i: int| 0 <= i < 8 implies #[trigger] self.translated_obj@[i] == shade_colour(
            palette_shade(if i < 4 { obp0 } else { obp1 }, i % 4),
        ) && self.sgb_translation_obj@[i] == palette_shade(if i < 4 { obp0 } else { obp1 }, i % 4) by {
            if i < 4 {
                assert(i % 4 == i);
            } else {
                assert(i % 4 == i - 4);
            }
        }
    }
}

impl PaletteState {
    /// The state that `default` gives.
    pub open spec fn is_default(&self) -> bool {
        &&& self.is_cleared()
    }
}

impl Default for PaletteState {
    fn default() -> (palettes: Self)
        ensures
            palettes.is_default(),
    {
        PaletteState {
            translated_bg: [0u32; 4],
            translated_obj: [0u32; 8],
            sgb_translation_bg: [0u32; 4],
            sgb_translation_obj: [0u32; 8],
            cgb_bg: [0u32; 32],
            cgb_obj: [0u32; 32],
        }
    }
}

/// The CGB colour palette memories and their index registers.
#[derive(Clone, Copy, Debug)]
pub struct CgbPaletteRegisters {
    pub bg_data: [u8; 64],
    pub bg_index: u32,
    pub bg_increment: u32,
    pub obj_data: [u8; 64],
    pub obj_index: u32,
    pub obj_increment: u32,
}

impl CgbPaletteRegisters {
    /// Palette memories and index registers all hold zero.
    pub open spec fn is_cleared(self) -> bool {
        &&& (forall|i: int| 0 <= i < 64 ==> self.bg_data@[i] == 0u8)
        &&& (forall|i: int| 0 <= i < 64 ==> self.obj_data@[i] == 0u8)
        &&& self.bg_index == 0
        &&& self.bg_increment == 0
        &&& self.obj_index == 0
        &&& self.obj_increment == 0
    }

    /// Clears both palette memories and their index registers.
    pub fn reset_for_rom_load(&mut self)
        ensures
            final(self).is_cleared(),
    {
        self.bg_data = [0u8; 64];
        self.bg_index = 0;
        self.bg_increment = 0;
        self.obj_data = [0u8; 64];
        self.obj_index = 0;
        self.obj_increment = 0;
    }
}

impl CgbPaletteRegisters {
    /// The state that `default` gives.
    pub open spec fn is_default(&self) -> bool {
        &&& self.is_cleared()
    }
}

impl Default for CgbPaletteRegisters {
    fn default() -> (registers: Self)
        ensures
            registers.is_default(),
    {
        CgbPaletteRegisters {
            bg_data: [0u8; 64],
            bg_index: 0,
            bg_increment: 0,
            obj_data: [0u8; 64],
            obj_index: 0,
            obj_increment: 0,
        }
    }
}

} // verus!
