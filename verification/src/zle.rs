use std::marker::PhantomData;
use std::rc::Rc;
use vstd::prelude::*;

verus! {

/// Attribute bit: a foreground colour is set (zsh's `TXTFGCOLOUR`).
pub const TXTFGCOLOUR: u64 = 0x0008;

/// Attribute bit: a background colour is set (zsh's `TXTBGCOLOUR`).
pub const TXTBGCOLOUR: u64 = 0x0010;

/// Attribute bit: the foreground colour is a 24-bit colour.
pub const TXT_ATTR_FG_24BIT: u64 = 0x4000;

/// Attribute bit: the background colour is a 24-bit colour.
pub const TXT_ATTR_BG_24BIT: u64 = 0x8000;

/// Position of the foreground colour in an attribute word.
pub const TXT_ATTR_FG_COL_SHIFT: u64 = 16;

/// Position of the background colour in an attribute word.
pub const TXT_ATTR_BG_COL_SHIFT: u64 = 40;

/// Number of entries at the front of zsh's `region_highlights` that zle keeps
/// for itself (region, isearch, suffix, paste).
pub const N_SPECIAL_HIGHLIGHTS: usize = 4;

/// Zero-sized capability: "you are called from a zle widget". It is neither
/// `Send` nor `Sync`, and making one allocates nothing.
pub struct Zle<'z> {
    _no_send_sync: PhantomData<Rc<()>>,
    _scope: PhantomData<&'z mut ()>,
}

impl<'z> Zle<'z> {
    /// Makes the capability; only the widget trampolines call this.
    pub fn new() -> Self {
        Zle { _no_send_sync: PhantomData, _scope: PhantomData }
    }
}

/// A 24-bit colour, one byte per channel.
#[derive(Default, Debug)]
pub struct HighlightColor {
    pub red: u8,
    pub green: u8,
    pub blue: u8,
}

/// The colour packed as `0xRRGGBB`.
pub open spec fn rgb_value(red: u8, green: u8, blue: u8) -> int {
    red * 65536 + green * 256 + blue
}

impl HighlightColor {
    pub open spec fn spec_rgb(&self) -> int {
        rgb_value(self.red, self.green, self.blue)
    }

    /// Packs the colour into the low 24 bits of a `u32`, red highest.
    pub fn as_rgb(&self) -> (rgb: u32)
        ensures
            rgb == self.spec_rgb(),
            rgb < 0x100_0000,
    {
        let r = self.red as u32;
        let g = self.green as u32;
        let b = self.blue as u32;
        assert(r << 8u32 == r * 256) by (bit_vector)
            requires
                r < 256,
        ;
        let rg = (r << 8) + g;
        assert(rg << 8u32 == rg * 256) by (bit_vector)
            requires
                rg < 65536,
        ;
        (rg << 8) + b
    }
}

/// A span of the edit buffer, in characters, with the colours to show it in.
#[derive(Default, Debug)]
pub struct RegionHighlight {
    pub start: usize,
    pub end: usize,
    pub foreground: Option<HighlightColor>,
    pub background: Option<HighlightColor>,
}

/// The bits that a foreground colour adds to an attribute word.
pub open spec fn fg_bits(c: Option<HighlightColor>) -> int {
    match c {
        Some(c) => TXTFGCOLOUR + TXT_ATTR_FG_24BIT + c.spec_rgb() * 0x1_0000,
        None => 0,
    }
}

/// The bits that a background colour adds to an attribute word.
pub open spec fn bg_bits(c: Option<HighlightColor>) -> int {
    match c {
        Some(c) => TXTBGCOLOUR + TXT_ATTR_BG_24BIT + c.spec_rgb() * 0x100_0000_0000,
        None => 0,
    }
}

/// The zsh attribute word of a highlighted region.
pub open spec fn spec_attr(r: RegionHighlight) -> int {
    fg_bits(r.foreground) + bg_bits(r.background)
}

impl RegionHighlight {
    /// The attribute word that zle is given for this region: the colour flags
    /// and the 24-bit colours of the foreground and background, where set.
    pub fn zsh_attr(&self) -> (atr: u64)
        ensures
            atr == spec_attr(*self),
    {
        let mut atr: u64 = 0;
        let mut x: u64 = 0;
        if let Some(color) = &self.foreground {
            x = color.as_rgb() as u64;
            assert(TXTFGCOLOUR | TXT_ATTR_FG_24BIT | (x << TXT_ATTR_FG_COL_SHIFT) == 0x4008 + x
                * 0x1_0000) by (bit_vector)
                requires
                    x < 0x100_0000,
            ;
            atr = TXTFGCOLOUR | TXT_ATTR_FG_24BIT | (x << TXT_ATTR_FG_COL_SHIFT);
        }
        if let Some(color) = &self.background {
            let y = color.as_rgb() as u64;
            let a = atr;
            assert(a | (TXTBGCOLOUR | TXT_ATTR_BG_24BIT | (y << TXT_ATTR_BG_COL_SHIFT)) == a
                + 0x8010 + y * 0x100_0000_0000) by (bit_vector)
                requires
                    y < 0x100_0000,
                    x < 0x100_0000,
                    a == 0 || a == 0x4008 + x * 0x1_0000,
            ;
            atr = atr | (TXTBGCOLOUR | TXT_ATTR_BG_24BIT | (y << TXT_ATTR_BG_COL_SHIFT));
        }
        atr
    }
}

/// One record of zsh's `region_highlights` array, as a region is written into it.
pub struct ZleRegion {
    pub atr: u64,
    pub start: i32,
    pub end: i32,
}

/// The record that a region becomes: its attribute word, and its bounds
/// converted to C `int`s as `as` converts them.
pub open spec fn zle_region_of(r: RegionHighlight) -> ZleRegion {
    ZleRegion { atr: spec_attr(r) as u64, start: r.start as i32, end: r.end as i32 }
}

/// Law: a region whose bounds fit in a C `int` keeps them in its record.
pub proof fn lemma_region_bounds_kept(r: RegionHighlight)
    requires
        r.start <= i32::MAX,
        r.end <= i32::MAX,
    ensures
        zle_region_of(r).start == r.start,
        zle_region_of(r).end == r.end,
{
}

/// What is to be done to zsh's `region_highlights` so that it shows `ranges`:
/// its new length, the slots that growing it adds (to be zeroed), and the
/// records to write from index `N_SPECIAL_HIGHLIGHTS` on.
pub struct RegionHighlightUpdate {
    pub count: i32,
    pub cleared_from: usize,
    pub cleared_len: usize,
    pub entries: Vec<ZleRegion>,
}

impl RegionHighlightUpdate {
    /// The update leaves the special entries alone and sets each of the others
    /// from the region at the same place in `ranges`; slots that are new when the
    /// array grows are zeroed first.
    pub open spec fn shows(self, ranges: Seq<RegionHighlight>, current_count: int) -> bool {
        &&& self.count == ranges.len() + N_SPECIAL_HIGHLIGHTS
        &&& self.count > current_count ==> self.cleared_from == current_count
            && self.cleared_len == self.count - current_count
        &&& self.count <= current_count ==> self.cleared_from == self.count
            && self.cleared_len == 0
        &&& self.entries@.len() == ranges.len()
        &&& forall|i: int|
            0 <= i < ranges.len() ==> #[trigger] self.entries@[i] == zle_region_of(ranges[i])
    }
}

/// Plans the update of zsh's `region_highlights` from `ranges`, given the
/// array's current length.
pub fn region_highlight_update(ranges: &[RegionHighlight], current_count: i32) -> (u:
    RegionHighlightUpdate)
    requires
        ranges@.len() + N_SPECIAL_HIGHLIGHTS <= i32::MAX,
        0 <= current_count,
    ensures
        u.shows(ranges@, current_count as int),
{
    let n = ranges.len() + N_SPECIAL_HIGHLIGHTS;
    let count = n as i32;
    let diffsize = count - current_count;
    let (cleared_from, cleared_len) = if diffsize > 0 {
        (n - diffsize as usize, diffsize as usize)
    } else {
        (n, 0)
    };
    let mut entries: Vec<ZleRegion> = Vec::new();
    for i in 0..ranges.len()
        invariant
            entries@.len() == i,
            forall|j: int| 0 <= j < i ==> #[trigger] entries@[j] == zle_region_of(ranges@[j]),
    {
        let range = &ranges[i];
        entries.push(ZleRegion { atr: range.zsh_attr(), start: range.start as i32, end: range.end as i32 });
    }
    RegionHighlightUpdate { count, cleared_from, cleared_len, entries }
}

/// The bits `0xRRGGBB` of an attribute word starting at `shift`.
pub open spec fn colour_field(atr: u64, shift: u64) -> u64 {
    (atr >> shift) & 0xFF_FFFF
}

/// The bit `bit` of an attribute word is set.
pub open spec fn flag_set(atr: u64, bit: u64) -> bool {
    atr & bit != 0
}

/// Law: the attribute word of a region fits in 64 bits, and both colours,
/// and whether each of them is set, can be read back from it.
pub proof fn lemma_attr_decodes(r: RegionHighlight)
    ensures
        0 <= spec_attr(r) < 0x1_0000_0000_0000_0000,
        flag_set(spec_attr(r) as u64, TXTFGCOLOUR) <==> r.foreground is Some,
        flag_set(spec_attr(r) as u64, TXT_ATTR_FG_24BIT) <==> r.foreground is Some,
        flag_set(spec_attr(r) as u64, TXTBGCOLOUR) <==> r.background is Some,
        flag_set(spec_attr(r) as u64, TXT_ATTR_BG_24BIT) <==> r.background is Some,
        r.foreground matches Some(c) ==> colour_field(spec_attr(r) as u64, TXT_ATTR_FG_COL_SHIFT)
            == c.spec_rgb(),
        r.background matches Some(c) ==> colour_field(spec_attr(r) as u64, TXT_ATTR_BG_COL_SHIFT)
            == c.spec_rgb(),
{
    let x: u64 = match r.foreground {
        Some(c) => c.spec_rgb() as u64,
        None => 0,
    };
    let y: u64 = match r.background {
        Some(c) => c.spec_rgb() as u64,
        None => 0,
    };
    let f: u64 = if r.foreground is Some { 1 } else { 0 };
    let g: u64 = if r.background is Some { 1 } else { 0 };
    assert(x < 0x100_0000 && y < 0x100_0000);
    let a = spec_attr(r);
    assert(a == f * (0x4008 + x * 0x1_0000) + g * (0x8010 + y * 0x100_0000_0000)) by (nonlinear_arith)
        requires
            a == fg_bits(r.foreground) + bg_bits(r.background),
            r.foreground is Some ==> fg_bits(r.foreground) == 0x4008 + x * 0x1_0000,
            r.foreground is None ==> fg_bits(r.foreground) == 0,
            r.background is Some ==> bg_bits(r.background) == 0x8010 + y * 0x100_0000_0000,
            r.background is None ==> bg_bits(r.background) == 0,
            f == (if r.foreground is Some { 1u64 } else { 0u64 }),
            g == (if r.background is Some { 1u64 } else { 0u64 }),
    ;
    assert({
        let w = (f * (0x4008 + x * 0x1_0000) + g * (0x8010 + y * 0x100_0000_0000)) as u64;
        &&& f * (0x4008 + x * 0x1_0000) + g * (0x8010 + y * 0x100_0000_0000) < 0x1_0000_0000_0000_0000
        &&& (w & 0x8 != 0 <==> f == 1)
        &&& (w & 0x4000 != 0 <==> f == 1)
        &&& (w & 0x10 != 0 <==> g == 1)
        &&& (w & 0x8000 != 0 <==> g == 1)
        &&& (f == 1 ==> (w >> 16u64) & 0xFF_FFFF == x)
        &&& (g == 1 ==> (w >> 40u64) & 0xFF_FFFF == y)
    }) by (bit_vector)
        requires
            x < 0x100_0000,
            y < 0x100_0000,
            f == 0 || f == 1,
            g == 0 || g == 1,
    ;
}

} // verus!
