//! Palettes: lookup tables from hardware color codes to RGBA pixels.
use vstd::prelude::*;

use image::Rgba;

verus! {

/// Relies on `image::Rgba<T>` being a tuple struct whose one public field
/// holds the four channels red, green, blue and alpha, so that verified code
/// can build pixels and read their channels.
#[verifier::external_type_specification]
pub struct ExRgba<T>(Rgba<T>);

/// A lookup table from color codes to RGBA pixels.
pub type Palette = Vec<Rgba<u8>>;

/// The fully opaque pixel whose channels are taken from the three low bytes of
/// `value`, most significant first.
pub open spec fn color_of(value: u32) -> Rgba<u8> {
    Rgba([
        (value as int / 0x10000 % 0x100) as u8,
        (value as int / 0x100 % 0x100) as u8,
        (value as int % 0x100) as u8,
        0xFFu8,
    ])
}

/// One pixel per packed color, in input order.
pub open spec fn palette_of(colors: Seq<u32>) -> Seq<Rgba<u8>> {
    colors.map_values(|v: u32| color_of(v))
}

/// The palette of `colors` with every entry repeated once, so that codes
/// `2 * i` and `2 * i + 1` both resolve to entry `i`.
pub open spec fn tia_palette_of(colors: Seq<u32>) -> Seq<Rgba<u8>> {
    Seq::new(2 * colors.len(), |i: int| color_of(colors[i / 2]))
}

/// Builds the pixel for one packed `0xRRGGBB` value; bits above the low 24
/// are ignored and alpha is fully opaque.
pub fn color_from_packed(value: u32) -> (r: Rgba<u8>)
    ensures
        r == color_of(value),
{
    let red = (value / 0x10000 % 0x100) as u8;
    let green = (value / 0x100 % 0x100) as u8;
    let blue = (value % 0x100) as u8;
    Rgba([red, green, blue, 0xFF])
}

/// Creates a palette of RGBA colors out of packed `0xRRGGBB` values, one
/// entry per value and in the same order.
pub fn create_palette(colors: &[u32]) -> (r: Palette)
    ensures
        r@ == palette_of(colors@),
{
    let mut palette: Palette = Vec::new();
    let mut i: usize = 0;
    while i < colors.len()
        invariant
            i <= colors@.len(),
            palette@ == palette_of(colors@.subrange(0, i as int)),
        decreases colors@.len() - i,
    {
        palette.push(color_from_packed(colors[i]));
        i = i + 1;
        assert(palette@ =~= palette_of(colors@.subrange(0, i as int)));
    }
    assert(colors@.subrange(0, colors@.len() as int) =~= colors@);
    palette
}

/// Creates a TIA palette of RGBA colors out of packed `0xRRGGBB` values.
///
/// The TIA encodes a color in bits 1 to 7 of its color code and ignores bit 0,
/// so each entry is stored twice: a raw code with bit 0 either clear or set
/// resolves to the same pixel, with no masking at lookup time.
pub fn create_tia_palette(colors: &[u32]) -> (r: Palette)
    ensures
        r@ == tia_palette_of(colors@),
{
    let single = create_palette(colors);
    let mut palette: Palette = Vec::new();
    let mut i: usize = 0;
    while i < single.len()
        invariant
            single@ == palette_of(colors@),
            i <= single@.len(),
            palette@ == tia_palette_of(colors@.subrange(0, i as int)),
        decreases single@.len() - i,
    {
        let c = single[i];
        palette.push(c);
        palette.push(c);
        i = i + 1;
        assert(palette@ =~= tia_palette_of(colors@.subrange(0, i as int)));
    }
    assert(colors@.subrange(0, colors@.len() as int) =~= colors@);
    palette
}

/// Each entry of a TIA palette sits at two neighbouring codes, and both hold
/// the plain palette's entry for the same packed color: the TIA palette is
/// twice as long, and `t[2i] == t[2i + 1] == p[i]` for every `i`.
pub proof fn lemma_tia_palette_duplicates(colors: Seq<u32>)
    ensures
        tia_palette_of(colors).len() == 2 * palette_of(colors).len(),
        forall|i: int|
            0 <= i < colors.len() ==> {
                &&& #[trigger] tia_palette_of(colors)[2 * i] == palette_of(colors)[i]
                &&& tia_palette_of(colors)[2 * i + 1] == palette_of(colors)[i]
            },
{
    assert forall|i: int| 0 <= i < colors.len() implies {
        &&& #[trigger] tia_palette_of(colors)[2 * i] == palette_of(colors)[i]
        &&& tia_palette_of(colors)[2 * i + 1] == palette_of(colors)[i]
    } by {
        assert((2 * i) / 2 == i);
        assert((2 * i + 1) / 2 == i);
    }
}

/// The NTSC colors of the TIA, one per color code with bit 0 dropped.
pub open spec fn ntsc_colors() -> Seq<u32> {
    seq![
        0x000000, 0x404040, 0x6C6C6C, 0x909090, 0xB0B0B0, 0xC8C8C8, 0xDCDCDC, 0xECECEC,
        0x444400, 0x646410, 0x848424, 0xA0A034, 0xB8B840, 0xD0D050, 0xE8E85C, 0xFCFC68,
        0x702800, 0x844414, 0x985C28, 0xAC783C, 0xBC8C4C, 0xCCA05C, 0xDCB468, 0xECC878,
        0x841800, 0x983418, 0xAC5030, 0xC06848, 0xD0805C, 0xE09470, 0xECA880, 0xFCBC94,
        0x880000, 0x9C2020, 0xB03C3C, 0xC05858, 0xD07070, 0xE08888, 0xECA0A0, 0xFCB4B4,
        0x78005C, 0x8C2074, 0xA03C88, 0xB0589C, 0xC070B0, 0xD084C0, 0xDC9CD0, 0xECB0E0,
        0x480078, 0x602090, 0x783CA4, 0x8C58B8, 0xA070CC, 0xB484DC, 0xC49CEC, 0xD4B0FC,
        0x140084, 0x302098, 0x4C3CAC, 0x6858C0, 0x7C70D0, 0x9488E0, 0xA8A0EC, 0xBCB4FC,
        0x000088, 0x1C209C, 0x3840B0, 0x505CC0, 0x6874D0, 0x7C8CE0, 0x90A4EC, 0xA4B8FC,
        0x00187C, 0x1C3890, 0x3854A8, 0x5070BC, 0x6888CC, 0x7C9CDC, 0x90B4EC, 0xA4C8FC,
        0x002C5C, 0x1C4C78, 0x386890, 0x5084AC, 0x689CC0, 0x7CB4D4, 0x90CCE8, 0xA4E0FC,
        0x003C2C, 0x1C5C48, 0x387C64, 0x509C80, 0x68B494, 0x7CD0AC, 0x90E4C0, 0xA4FCD4,
        0x003C00, 0x205C20, 0x407C40, 0x5C9C5C, 0x74B474, 0x8CD08C, 0xA4E4A4, 0xB8FCB8,
        0x143800, 0x345C1C, 0x507C38, 0x6C9850, 0x84B468, 0x9CCC7C, 0xB4E490, 0xC8FCA4,
        0x2C3000, 0x4C501C, 0x687034, 0x848C4C, 0x9CA864, 0xB4C078, 0xCCD488, 0xE0EC9C,
        0x442800, 0x644818, 0x846830, 0xA08444, 0xB89C58, 0xD0B46C, 0xE8CC7C, 0xFCE08C,
    ]
}

/// Another published measurement of the TIA's NTSC colors.
pub open spec fn ntsc_colors_alternative() -> Seq<u32> {
    seq![
        0x000000, 0x1A1A1A, 0x393939, 0x5B5B5B, 0x7E7E7E, 0xA2A2A2, 0xC7C7C7, 0xEDEDED,
        0x190200, 0x3A1F00, 0x5D4100, 0x826400, 0xA78800, 0xCCAD00, 0xF2D219, 0xFEFA40,
        0x370000, 0x5E0800, 0x832700, 0xA94900, 0xCF6C00, 0xF58F17, 0xFEB438, 0xFEDF6F,
        0x470000, 0x730000, 0x981300, 0xBE3216, 0xE45335, 0xFE7657, 0xFE9C81, 0xFEC6BB,
        0x440008, 0x6F001F, 0x960640, 0xBB2462, 0xE14585, 0xFE67AA, 0xFE8CD6, 0xFEB7F6,
        0x2D004A, 0x570067, 0x7D058C, 0xA122B1, 0xC743D7, 0xED65FE, 0xFE8AF6, 0xFEB5F7,
        0x0D0082, 0x3300A2, 0x550FC9, 0x782DF0, 0x9C4EFE, 0xC372FE, 0xEB98FE, 0xFEC0F9,
        0x000091, 0x0A05BD, 0x2822E4, 0x4842FE, 0x6B64FE, 0x908AFE, 0xB7B0FE, 0xDFD8FE,
        0x000072, 0x001CAB, 0x033CD6, 0x205EFD, 0x4081FE, 0x64A6FE, 0x89CEFE, 0xB0F6FE,
        0x00103A, 0x00316E, 0x0055A2, 0x0579C8, 0x239DEE, 0x44C2FE, 0x68E9FE, 0x8FFEFE,
        0x001F02, 0x004326, 0x006957, 0x008D7A, 0x1BB19E, 0x3BD7C3, 0x5DFEE9, 0x86FEFE,
        0x002403, 0x004A05, 0x00700C, 0x09952B, 0x28BA4C, 0x49E06E, 0x6CFE92, 0x97FEB5,
        0x002102, 0x004604, 0x086B00, 0x289000, 0x49B509, 0x6BDB28, 0x8FFE49, 0xBBFE69,
        0x001501, 0x103600, 0x305900, 0x537E00, 0x76A300, 0x9AC800, 0xBFEE1E, 0xE8FE3E,
        0x1A0200, 0x3B1F00, 0x5E4100, 0x836400, 0xA88800, 0xCEAD00, 0xF4D218, 0xFEFA40,
        0x380000, 0x5F0800, 0x842700, 0xAA4900, 0xD06B00, 0xF68F18, 0xFEB439, 0xFEDF70,
    ]
}

/// Returns the TIA's NTSC palette (see <http://www.qotile.net/minidig/docs/tia_color.html>).
pub fn ntsc_palette() -> (r: Palette)
    ensures
        r@ == tia_palette_of(ntsc_colors()),
{
    let colors: [u32; 128] = [
        0x000000, 0x404040, 0x6C6C6C, 0x909090, 0xB0B0B0, 0xC8C8C8, 0xDCDCDC, 0xECECEC,
        0x444400, 0x646410, 0x848424, 0xA0A034, 0xB8B840, 0xD0D050, 0xE8E85C, 0xFCFC68,
        0x702800, 0x844414, 0x985C28, 0xAC783C, 0xBC8C4C, 0xCCA05C, 0xDCB468, 0xECC878,
        0x841800, 0x983418, 0xAC5030, 0xC06848, 0xD0805C, 0xE09470, 0xECA880, 0xFCBC94,
        0x880000, 0x9C2020, 0xB03C3C, 0xC05858, 0xD07070, 0xE08888, 0xECA0A0, 0xFCB4B4,
        0x78005C, 0x8C2074, 0xA03C88, 0xB0589C, 0xC070B0, 0xD084C0, 0xDC9CD0, 0xECB0E0,
        0x480078, 0x602090, 0x783CA4, 0x8C58B8, 0xA070CC, 0xB484DC, 0xC49CEC, 0xD4B0FC,
        0x140084, 0x302098, 0x4C3CAC, 0x6858C0, 0x7C70D0, 0x9488E0, 0xA8A0EC, 0xBCB4FC,
        0x000088, 0x1C209C, 0x3840B0, 0x505CC0, 0x6874D0, 0x7C8CE0, 0x90A4EC, 0xA4B8FC,
        0x00187C, 0x1C3890, 0x3854A8, 0x5070BC, 0x6888CC, 0x7C9CDC, 0x90B4EC, 0xA4C8FC,
        0x002C5C, 0x1C4C78, 0x386890, 0x5084AC, 0x689CC0, 0x7CB4D4, 0x90CCE8, 0xA4E0FC,
        0x003C2C, 0x1C5C48, 0x387C64, 0x509C80, 0x68B494, 0x7CD0AC, 0x90E4C0, 0xA4FCD4,
        0x003C00, 0x205C20, 0x407C40, 0x5C9C5C, 0x74B474, 0x8CD08C, 0xA4E4A4, 0xB8FCB8,
        0x143800, 0x345C1C, 0x507C38, 0x6C9850, 0x84B468, 0x9CCC7C, 0xB4E490, 0xC8FCA4,
        0x2C3000, 0x4C501C, 0x687034, 0x848C4C, 0x9CA864, 0xB4C078, 0xCCD488, 0xE0EC9C,
        0x442800, 0x644818, 0x846830, 0xA08444, 0xB89C58, 0xD0B46C, 0xE8CC7C, 0xFCE08C,
    ];
    assert(colors@ =~= ntsc_colors());
    create_tia_palette(colors.as_slice())
}

/// Returns an alternative NTSC palette (see
/// <https://www.randomterrain.com/atari-2600-memories-tutorial-andrew-davie-11.html>).
pub fn _ntsc_palette_alternative() -> (r: Palette)
    ensures
        r@ == tia_palette_of(ntsc_colors_alternative()),
{
    let colors: [u32; 128] = [
        0x000000, 0x1A1A1A, 0x393939, 0x5B5B5B, 0x7E7E7E, 0xA2A2A2, 0xC7C7C7, 0xEDEDED,
        0x190200, 0x3A1F00, 0x5D4100, 0x826400, 0xA78800, 0xCCAD00, 0xF2D219, 0xFEFA40,
        0x370000, 0x5E0800, 0x832700, 0xA94900, 0xCF6C00, 0xF58F17, 0xFEB438, 0xFEDF6F,
        0x470000, 0x730000, 0x981300, 0xBE3216, 0xE45335, 0xFE7657, 0xFE9C81, 0xFEC6BB,
        0x440008, 0x6F001F, 0x960640, 0xBB2462, 0xE14585, 0xFE67AA, 0xFE8CD6, 0xFEB7F6,
        0x2D004A, 0x570067, 0x7D058C, 0xA122B1, 0xC743D7, 0xED65FE, 0xFE8AF6, 0xFEB5F7,
        0x0D0082, 0x3300A2, 0x550FC9, 0x782DF0, 0x9C4EFE, 0xC372FE, 0xEB98FE, 0xFEC0F9,
        0x000091, 0x0A05BD, 0x2822E4, 0x4842FE, 0x6B64FE, 0x908AFE, 0xB7B0FE, 0xDFD8FE,
        0x000072, 0x001CAB, 0x033CD6, 0x205EFD, 0x4081FE, 0x64A6FE, 0x89CEFE, 0xB0F6FE,
        0x00103A, 0x00316E, 0x0055A2, 0x0579C8, 0x239DEE, 0x44C2FE, 0x68E9FE, 0x8FFEFE,
        0x001F02, 0x004326, 0x006957, 0x008D7A, 0x1BB19E, 0x3BD7C3, 0x5DFEE9, 0x86FEFE,
        0x002403, 0x004A05, 0x00700C, 0x09952B, 0x28BA4C, 0x49E06E, 0x6CFE92, 0x97FEB5,
        0x002102, 0x004604, 0x086B00, 0x289000, 0x49B509, 0x6BDB28, 0x8FFE49, 0xBBFE69,
        0x001501, 0x103600, 0x305900, 0x537E00, 0x76A300, 0x9AC800, 0xBFEE1E, 0xE8FE3E,
        0x1A0200, 0x3B1F00, 0x5E4100, 0x836400, 0xA88800, 0xCEAD00, 0xF4D218, 0xFEFA40,
        0x380000, 0x5F0800, 0x842700, 0xAA4900, 0xD06B00, 0xF68F18, 0xFEB439, 0xFEDF70,
    ];
    assert(colors@ =~= ntsc_colors_alternative());
    create_tia_palette(colors.as_slice())
}

} // verus!
