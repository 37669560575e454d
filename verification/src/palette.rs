//! The fixed 64-entry 2C02 NTSC palette.

use vstd::prelude::*;

verus! {

/// The fixed 2C02 NTSC palette: the RGB triple for a 6-bit color index.
pub open spec fn spec_palette_rgb(c: int) -> (u8, u8, u8) {
    if c == 0 {
        (124u8, 124u8, 124u8)
    } else if c == 1 {
        (0u8, 0u8, 252u8)
    } else if c == 2 {
        (0u8, 0u8, 188u8)
    } else if c == 3 {
        (68u8, 40u8, 188u8)
    } else if c == 4 {
        (148u8, 0u8, 132u8)
    } else if c == 5 {
        (168u8, 0u8, 32u8)
    } else if c == 6 {
        (168u8, 16u8, 0u8)
    } else if c == 7 {
        (136u8, 20u8, 0u8)
    } else if c == 8 {
        (80u8, 48u8, 0u8)
    } else if c == 9 {
        (0u8, 120u8, 0u8)
    } else if c == 10 {
        (0u8, 104u8, 0u8)
    } else if c == 11 {
        (0u8, 88u8, 0u8)
    } else if c == 12 {
        (0u8, 64u8, 88u8)
    } else if c == 13 {
        (0u8, 0u8, 0u8)
    } else if c == 14 {
        (0u8, 0u8, 0u8)
    } else if c == 15 {
        (0u8, 0u8, 0u8)
    } else if c == 16 {
        (188u8, 188u8, 188u8)
    } else if c == 17 {
        (0u8, 120u8, 248u8)
    } else if c == 18 {
        (0u8, 88u8, 248u8)
    } else if c == 19 {
        (104u8, 68u8, 252u8)
    } else if c == 20 {
        (216u8, 0u8, 204u8)
    } else if c == 21 {
        (228u8, 0u8, 88u8)
    } else if c == 22 {
        (248u8, 56u8, 0u8)
    } else if c == 23 {
        (228u8, 92u8, 16u8)
    } else if c == 24 {
        (172u8, 124u8, 0u8)
    } else if c == 25 {
        (0u8, 184u8, 0u8)
    } else if c == 26 {
        (0u8, 168u8, 0u8)
    } else if c == 27 {
        (0u8, 168u8, 68u8)
    } else if c == 28 {
        (0u8, 136u8, 136u8)
    } else if c == 29 {
        (0u8, 0u8, 0u8)
    } else if c == 30 {
        (0u8, 0u8, 0u8)
    } else if c == 31 {
        (0u8, 0u8, 0u8)
    } else if c == 32 {
        (248u8, 248u8, 248u8)
    } else if c == 33 {
        (60u8, 188u8, 252u8)
    } else if c == 34 {
        (104u8, 136u8, 252u8)
    } else if c == 35 {
        (152u8, 120u8, 248u8)
    } else if c == 36 {
        (248u8, 120u8, 248u8)
    } else if c == 37 {
        (248u8, 88u8, 152u8)
    } else if c == 38 {
        (248u8, 120u8, 88u8)
    } else if c == 39 {
        (252u8, 160u8, 68u8)
    } else if c == 40 {
        (248u8, 184u8, 0u8)
    } else if c == 41 {
        (184u8, 248u8, 24u8)
    } else if c == 42 {
        (88u8, 216u8, 84u8)
    } else if c == 43 {
        (88u8, 248u8, 152u8)
    } else if c == 44 {
        (0u8, 232u8, 216u8)
    } else if c == 45 {
        (120u8, 120u8, 120u8)
    } else if c == 46 {
        (0u8, 0u8, 0u8)
    } else if c == 47 {
        (0u8, 0u8, 0u8)
    } else if c == 48 {
        (252u8, 252u8, 252u8)
    } else if c == 49 {
        (164u8, 228u8, 252u8)
    } else if c == 50 {
        (184u8, 184u8, 248u8)
    } else if c == 51 {
        (216u8, 184u8, 248u8)
    } else if c == 52 {
        (248u8, 184u8, 248u8)
    } else if c == 53 {
        (248u8, 164u8, 192u8)
    } else if c == 54 {
        (240u8, 208u8, 176u8)
    } else if c == 55 {
        (252u8, 224u8, 168u8)
    } else if c == 56 {
        (248u8, 216u8, 120u8)
    } else if c == 57 {
        (216u8, 248u8, 120u8)
    } else if c == 58 {
        (184u8, 248u8, 184u8)
    } else if c == 59 {
        (184u8, 248u8, 216u8)
    } else if c == 60 {
        (0u8, 252u8, 252u8)
    } else if c == 61 {
        (248u8, 216u8, 248u8)
    } else if c == 62 {
        (0u8, 0u8, 0u8)
    } else if c == 63 {
        (0u8, 0u8, 0u8)
    } else {
        (0u8, 0u8, 0u8)
    }
}

/// The fixed 2C02 NTSC palette, as an executable lookup.
pub fn palette_rgb(c: u8) -> (rgb: (u8, u8, u8))
    ensures
        rgb == spec_palette_rgb(c as int),
{
    if c == 0 {
        (124, 124, 124)
    } else if c == 1 {
        (0, 0, 252)
    } else if c == 2 {
        (0, 0, 188)
    } else if c == 3 {
        (68, 40, 188)
    } else if c == 4 {
        (148, 0, 132)
    } else if c == 5 {
        (168, 0, 32)
    } else if c == 6 {
        (168, 16, 0)
    } else if c == 7 {
        (136, 20, 0)
    } else if c == 8 {
        (80, 48, 0)
    } else if c == 9 {
        (0, 120, 0)
    } else if c == 10 {
        (0, 104, 0)
    } else if c == 11 {
        (0, 88, 0)
    } else if c == 12 {
        (0, 64, 88)
    } else if c == 13 {
        (0, 0, 0)
    } else if c == 14 {
        (0, 0, 0)
    } else if c == 15 {
        (0, 0, 0)
    } else if c == 16 {
        (188, 188, 188)
    } else if c == 17 {
        (0, 120, 248)
    } else if c == 18 {
        (0, 88, 248)
    } else if c == 19 {
        (104, 68, 252)
    } else if c == 20 {
        (216, 0, 204)
    } else if c == 21 {
        (228, 0, 88)
    } else if c == 22 {
        (248, 56, 0)
    } else if c == 23 {
        (228, 92, 16)
    } else if c == 24 {
        (172, 124, 0)
    } else if c == 25 {
        (0, 184, 0)
    } else if c == 26 {
        (0, 168, 0)
    } else if c == 27 {
        (0, 168, 68)
    } else if c == 28 {
        (0, 136, 136)
    } else if c == 29 {
        (0, 0, 0)
    } else if c == 30 {
        (0, 0, 0)
    } else if c == 31 {
        (0, 0, 0)
    } else if c == 32 {
        (248, 248, 248)
    } else if c == 33 {
        (60, 188, 252)
    } else if c == 34 {
        (104, 136, 252)
    } else if c == 35 {
        (152, 120, 248)
    } else if c == 36 {
        (248, 120, 248)
    } else if c == 37 {
        (248, 88, 152)
    } else if c == 38 {
        (248, 120, 88)
    } else if c == 39 {
        (252, 160, 68)
    } else if c == 40 {
        (248, 184, 0)
    } else if c == 41 {
        (184, 248, 24)
    } else if c == 42 {
        (88, 216, 84)
    } else if c == 43 {
        (88, 248, 152)
    } else if c == 44 {
        (0, 232, 216)
    } else if c == 45 {
        (120, 120, 120)
    } else if c == 46 {
        (0, 0, 0)
    } else if c == 47 {
        (0, 0, 0)
    } else if c == 48 {
        (252, 252, 252)
    } else if c == 49 {
        (164, 228, 252)
    } else if c == 50 {
        (184, 184, 248)
    } else if c == 51 {
        (216, 184, 248)
    } else if c == 52 {
        (248, 184, 248)
    } else if c == 53 {
        (248, 164, 192)
    } else if c == 54 {
        (240, 208, 176)
    } else if c == 55 {
        (252, 224, 168)
    } else if c == 56 {
        (248, 216, 120)
    } else if c == 57 {
        (216, 248, 120)
    } else if c == 58 {
        (184, 248, 184)
    } else if c == 59 {
        (184, 248, 216)
    } else if c == 60 {
        (0, 252, 252)
    } else if c == 61 {
        (248, 216, 248)
    } else if c == 62 {
        (0, 0, 0)
    } else if c == 63 {
        (0, 0, 0)
    } else {
        (0, 0, 0)
    }
}

} // verus!
