//! The video controller: timing presets, the mapper register file, and the
//! decoding of the row directory and character cells held in VRAM.
use vstd::prelude::*;

use crate::vsync::Timing;

verus! {

/// The number of visible lines that the firmware expects.
pub const VERTICAL_LINES: u16 = 417;

/// The 60 Hz preset: 32 clocks per line, 625 lines per frame.
pub open spec fn spec_timing_60hz() -> Timing {
    Timing {
        h_active: 20,
        h_fp: 2,
        h_sync: 6,
        h_bp: 4,
        v_active: 417,
        v_fp: 4,
        v_sync: 16,
        v_bp: 188,
    }
}

/// The 70 Hz preset: 32 clocks per line, 536 lines per frame.
pub open spec fn spec_timing_70hz() -> Timing {
    Timing {
        h_active: 20,
        h_fp: 2,
        h_sync: 6,
        h_bp: 4,
        v_active: 417,
        v_fp: 3,
        v_sync: 16,
        v_bp: 100,
    }
}

/// The preset that mapper[4] bit 4 selects.
pub open spec fn spec_timing(hz_70: bool) -> Timing {
    if hz_70 {
        spec_timing_70hz()
    } else {
        spec_timing_60hz()
    }
}

pub fn timing_60hz() -> (t: Timing)
    ensures
        t == spec_timing_60hz(),
        t.wf(),
{
    Timing {
        h_active: 20,
        h_fp: 2,
        h_sync: 6,
        h_bp: 4,
        v_active: VERTICAL_LINES,
        v_fp: 4,
        v_sync: 16,
        v_bp: 188,
    }
}

pub fn timing_70hz() -> (t: Timing)
    ensures
        t == spec_timing_70hz(),
        t.wf(),
{
    Timing {
        h_active: 20,
        h_fp: 2,
        h_sync: 6,
        h_bp: 4,
        v_active: VERTICAL_LINES,
        v_fp: 3,
        v_sync: 16,
        v_bp: 100,
    }
}

/// Base value of a 0x7FF6 read, by the index built from the mapper bits.
pub open spec fn mode_table(i: u8) -> u8 {
    match i {
        3 | 7 | 11 | 15 => 0x0d,
        5 => 0x04,
        8 | 9 | 10 | 12 | 14 => 0x03,
        13 => 0x01,
        _ => 0x0b,
    }
}

fn mode_table_get(i: u8) -> (r: u8)
    ensures
        r == mode_table(i),
{
    match i {
        3 | 7 | 11 | 15 => 0x0d,
        5 => 0x04,
        8 | 9 | 10 | 12 | 14 => 0x03,
        13 => 0x01,
        _ => 0x0b,
    }
}

/// Value of a 0x7FF6 read when a row attribute byte holds 2, by row.
pub open spec fn override_table(row: u8) -> u8 {
    match row {
        0 => 0x04,
        1 => 0x06,
        2 => 0x08,
        3 => 0x0a,
        4 => 0x0c,
        5 => 0x0e,
        6 => 0x0f,
        7 => 0x00,
        8 => 0x01,
        9 => 0x02,
        10 => 0x03,
        11 => 0x05,
        12 => 0x07,
        13 => 0x09,
        14 => 0x0b,
        15 => 0x0d,
        16 => 0x0e,
        17 => 0x0f,
        18 => 0x00,
        19 => 0x01,
        20 => 0x02,
        21 => 0x04,
        22 => 0x06,
        23 => 0x08,
        24 => 0x0a,
        _ => 0x0c,
    }
}

fn override_table_get(row: u8) -> (r: u8)
    ensures
        r == override_table(row),
{
    match row {
        0 => 0x04,
        1 => 0x06,
        2 => 0x08,
        3 => 0x0a,
        4 => 0x0c,
        5 => 0x0e,
        6 => 0x0f,
        7 => 0x00,
        8 => 0x01,
        9 => 0x02,
        10 => 0x03,
        11 => 0x05,
        12 => 0x07,
        13 => 0x09,
        14 => 0x0b,
        15 => 0x0d,
        16 => 0x0e,
        17 => 0x0f,
        18 => 0x00,
        19 => 0x01,
        20 => 0x02,
        21 => 0x04,
        22 => 0x06,
        23 => 0x08,
        24 => 0x0a,
        _ => 0x0c,
    }
}

/// Table index of a 0x7FF6 read: bit 0 is `b` bit 3, bit 1 is `a` bit 6, and
/// bits 2 and 3 are bits 1 and 0 of the selected screen's register (`b` when
/// `a` bit 3 is set, else `a`).
pub open spec fn index_7ff6(a: u8, b: u8) -> u8 {
    let x = if a & 0x08 != 0 { b } else { a };
    ((if b & 0x08 != 0 { 1u8 } else { 0u8 }) + (if a & 0x40 != 0 { 2u8 } else { 0u8 }) + (if x & 0x02
        != 0 {
        4u8
    } else {
        0u8
    }) + (if x & 0x01 != 0 { 8u8 } else { 0u8 })) as u8
}

/// XOR mask by the low nibble of the first row's attribute byte.
pub open spec fn mask_7ff6(attr: u8) -> u8 {
    match attr % 16 {
        4 => 0x0e,
        8 => 0x0b,
        12 => 0x01,
        _ => 0x00,
    }
}

/// Offset (from VRAM byte 1) of the first byte equal to 2 among the 52 bytes
/// searched at or after `i`; 52 when there is none.
pub open spec fn first_two(v: Seq<u8>, i: int) -> int
    decreases 52 - i,
{
    if i >= 52 {
        52
    } else if v[1 + i] == 2 {
        i
    } else {
        first_two(v, i + 1)
    }
}

/// What a read of 0x7FF6 returns for mapper[3] = `a`, mapper[4] = `b` and the
/// row directory `v`.
pub open spec fn spec_7ff6(a: u8, b: u8, v: Seq<u8>) -> u8 {
    if (v[1] == 0 || v[1] == 2) && first_two(v, 0) < 52 {
        override_table((first_two(v, 0) / 2) as u8)
    } else {
        mode_table(index_7ff6(a, b)) ^ mask_7ff6(v[1])
    }
}

/// The value read at 0x7FF6 for mapper[3] = `a`, mapper[4] = `b` and the row
/// directory at the start of `vram`. The register is not a plain store: the
/// result reproduces what the firmware's self-test expects. When the first
/// row's attribute byte is 0 or 2 and a 2 appears among the 52 directory
/// bytes from offset 1, the row of that byte picks the value from a table of
/// 26; otherwise a base value picked by the mapper bits is XORed with a mask
/// picked by the first row's attribute byte.
pub fn calculate_7ff6_read(a: u8, b: u8, vram: &[u8]) -> (r: u8)
    requires
        vram@.len() >= 54,
    ensures
        r == spec_7ff6(a, b, vram@),
{
    let x = if a & 0x08 != 0 {
        b
    } else {
        a
    };
    let c0: u8 = if b & 0x08 != 0 {
        1
    } else {
        0
    };
    let c1: u8 = if a & 0x40 != 0 {
        2
    } else {
        0
    };
    let c2: u8 = if x & 0x02 != 0 {
        4
    } else {
        0
    };
    let c3: u8 = if x & 0x01 != 0 {
        8
    } else {
        0
    };
    let c = mode_table_get(c0 + c1 + c2 + c3);

    if vram[1] == 0 || vram[1] == 2 {
        let mut pos: usize = 0;
        while pos < 52
            invariant
                pos <= 52,
                vram@.len() >= 54,
                vram@[1] == 0 || vram@[1] == 2,
                first_two(vram@, 0) == first_two(vram@, pos as int),
            decreases 52 - pos,
        {
            if vram[1 + pos] == 2 {
                return override_table_get((pos / 2) as u8);
            }
            pos = pos + 1;
        }
    }
    let mask: u8 = match vram[1] % 16 {
        4 => 0x0e,
        8 => 0x0b,
        12 => 0x01,
        _ => 0x00,
    };
    c ^ mask
}

/// Both presets have 32 clocks per line, and running the sync generator for
/// one frame of ticks (`htot * vtot`) from the top-left corner brings it back
/// there having produced one sync pulse per line: 625 at 60 Hz, 536 at 70 Hz.
pub proof fn lemma_preset_frames()
    ensures
        spec_timing_60hz().spec_htot() == 32,
        spec_timing_70hz().spec_htot() == 32,
        crate::vsync::sim(spec_timing_60hz(), 0, 0, false, 32 * 625) == (0int, 0int, false, 625int),
        crate::vsync::sim(spec_timing_70hz(), 0, 0, false, 32 * 536) == (0int, 0int, false, 536int),
{
    crate::vsync::lemma_frame(spec_timing_60hz());
    crate::vsync::lemma_frame(spec_timing_70hz());
}

/// In both presets, any frame's worth of sync ticks, from any raster
/// position, holds 15 high ticks followed by 15 low ones or the reverse.
pub proof fn lemma_presets_syncable(hz_70: bool, x0: int, y0: int)
    requires
        0 <= x0 < 32,
        0 <= y0 < (if hz_70 { 536int } else { 625int }),
    ensures
        exists|i: int| #[trigger] crate::vsync::lock_pattern_at(spec_timing(hz_70), x0, y0, i),
{
    crate::vsync::lemma_syncable(spec_timing(hz_70), x0, y0);
}

/// With no row attribute byte equal to 2 and a first-row attribute whose low
/// nibble is 0 (empty VRAM, for one), a 0x7FF6 read is the base table entry
/// picked by mapper[3] and mapper[4]; with the first-row attribute 0 or 2 and
/// a first 2 at offset `p` from byte 1, it is override entry `p / 2`.
pub proof fn lemma_7ff6_tables(a: u8, b: u8, v: Seq<u8>)
    requires
        v.len() >= 54,
    ensures
        (first_two(v, 0) == 52 && v[1] % 16 == 0) ==> spec_7ff6(a, b, v) == mode_table(index_7ff6(a, b)),
        ((v[1] == 0 || v[1] == 2) && first_two(v, 0) < 52) ==> spec_7ff6(a, b, v) == override_table(
            (first_two(v, 0) / 2) as u8,
        ),
{
    let c = mode_table(index_7ff6(a, b));
    assert(c ^ 0 == c) by (bit_vector);
}

/// The mapper register file. Each write moves the current value of an entry
/// into `mapper2`, so entries written twice in a row (6, 9, A, B, C) expose a
/// pair.
pub struct Mapper {
    pub mapper: [u8; 16],
    pub mapper2: [u8; 16],
}

/// Row height on screen `screen_2` for a directory entry; a status row
/// (address byte 0x1E) is always 2 lines.
pub open spec fn entry_height(addr: u8, screen_2: bool, rh1: int, rh2: int) -> int {
    if addr == 0x1E {
        2
    } else if !screen_2 {
        rh1
    } else {
        rh2
    }
}

/// Walk the row directory from entry `i`, with `remaining` visible lines
/// left and the current screen `screen_2` (flipped by each entry whose
/// attribute has bit 1 set), and return the index of the first entry that
/// does not fit, or 100.
pub open spec fn rows_fitting(v: Seq<u8>, rh1: int, rh2: int, i: int, remaining: int, screen_2: bool) -> int
    decreases 100 - i,
{
    if i >= 100 {
        100
    } else {
        let s = if v[2 * i + 1] & 0x02 != 0 { !screen_2 } else { screen_2 };
        let rh = entry_height(v[2 * i], s, rh1, rh2);
        if rh > remaining {
            i
        } else {
            rows_fitting(v, rh1, rh2, i + 1, remaining - rh, s)
        }
    }
}

/// Rows shown for a row directory, given the previous (`r1`, screen 1) and
/// current (`r2`, screen 2) row-height registers and the starting screen.
pub open spec fn spec_row_count(v: Seq<u8>, r1: u8, r2: u8, screen_2: bool) -> Option<u8> {
    if r1 & 0xf0 == 0xf0 || r2 & 0xf0 == 0xf0 {
        None
    } else {
        Some(rows_fitting(v, row_height_of(r1) as int, row_height_of(r2) as int, 0, VERTICAL_LINES as int, screen_2) as u8)
    }
}

/// Row height in lines coded by the low nibble (`v % 16`) of a row-height register.
pub open spec fn row_height_of(v: u8) -> u8 {
    ((v % 16 + 15) % 16 + 1) as u8
}

impl Mapper {
    /// Register state at reset.
    pub fn new() -> (r: Mapper)
        ensures
            forall|i: int| 0 <= i < 16 ==> r.mapper2@[i] == 0,
            forall|i: int| 0 <= i < 16 && i != 3 && i != 4 && i != 5 ==> r.mapper@[i] == 0,
            r.mapper@[3] == 0xff,
            r.mapper@[4] == 0xff,
            r.mapper@[5] == 0xf4,
    {
        let mut new = Mapper { mapper: [0; 16], mapper2: [0; 16] };
        new.mapper[3] = 0xff;
        new.mapper[4] = 0xff;
        new.mapper[5] = 0xf4;
        new
    }

    /// Write entry `offset`; its previous value moves to the second array.
    pub fn set(&mut self, offset: u8, value: u8)
        requires
            offset < 16,
        ensures
            final(self).mapper@ == old(self).mapper@.update(offset as int, value),
            final(self).mapper2@ == old(self).mapper2@.update(offset as int, old(self).mapper@[offset as int]),
    {
        self.mapper2[offset as usize] = self.mapper[offset as usize];
        self.mapper[offset as usize] = value;
    }

    pub fn get(&self, offset: u8) -> (r: u8)
        requires
            offset < 16,
        ensures
            r == self.mapper@[offset as int],
    {
        self.mapper[offset as usize]
    }

    pub fn get2(&self, offset: u8) -> (r: u8)
        requires
            offset < 16,
        ensures
            r == self.mapper2@[offset as int],
    {
        self.mapper2[offset as usize]
    }

    /// Where the window at 0x8000 lands in VRAM when VRAM is mapped there.
    pub fn vram_offset(&self) -> (r: u32)
        ensures
            r == 0x8000,
    {
        0x8000
    }

    /// Where the window at 0x0000 lands in VRAM.
    pub fn vram_offset_0(&self) -> (r: u32)
        ensures
            r == 0,
    {
        0
    }

    /// Where the row directory starts in VRAM.
    pub fn vram_offset_display(&self) -> (r: u32)
        ensures
            r == 0,
    {
        0
    }

    /// The VRAM page bit (mapper[3] bit 5).
    pub fn vram_8000_bit(&self) -> (r: u32)
        ensures
            r == (if self.mapper@[3] & 0x20 != 0 { 1u32 } else { 0u32 }),
    {
        self.vram_8000_bit_value(self.mapper[3])
    }

    pub fn vram_8000_bit_value(&self, value: u8) -> (r: u32)
        ensures
            r == (if value & 0x20 != 0 { 1u32 } else { 0u32 }),
    {
        if value & 0x20 != 0 {
            1
        } else {
            0
        }
    }

    /// Whether VRAM rather than SRAM backs the window at 0x8000 (mapper[5] bit 5).
    pub fn map_vram_at_8000(&self) -> (r: u32)
        ensures
            r == (if self.mapper@[5] & 0x20 != 0 { 1u32 } else { 0u32 }),
    {
        self.map_vram_at_8000_value(self.mapper[5])
    }

    pub fn map_vram_at_8000_value(&self, value: u8) -> (r: u32)
        ensures
            r == (if value & 0x20 != 0 { 1u32 } else { 0u32 }),
    {
        if value & 0x20 != 0 {
            1
        } else {
            0
        }
    }

    pub fn is_screen_2(&self) -> (r: bool)
        ensures
            r == (self.mapper@[3] & 0x08 != 0),
    {
        self.mapper[3] & 0x08 != 0
    }

    pub fn screen_1_132_columns(&self) -> (r: bool)
        ensures
            r == (self.mapper@[3] & 0x01 != 0),
    {
        self.mapper[3] & 0x01 != 0
    }

    pub fn screen_2_132_columns(&self) -> (r: bool)
        ensures
            r == (self.mapper@[4] & 0x01 != 0),
    {
        self.mapper[4] & 0x01 != 0
    }

    pub fn screen_1_invert(&self) -> (r: bool)
        ensures
            r == (self.mapper@[3] & 0x02 != 0),
    {
        self.mapper[3] & 0x02 != 0
    }

    pub fn screen_2_invert(&self) -> (r: bool)
        ensures
            r == (self.mapper@[4] & 0x02 != 0),
    {
        self.mapper[4] & 0x02 != 0
    }

    pub fn row_height_screen_1(&self) -> (r: u8)
        ensures
            r == row_height_of(self.mapper2@[6]),
            1 <= r <= 16,
    {
        let v = self.mapper2[6];
        (v % 16 + 15) % 16 + 1
    }

    pub fn row_height_screen_2(&self) -> (r: u8)
        ensures
            r == row_height_of(self.mapper@[6]),
            1 <= r <= 16,
    {
        let v = self.mapper[6];
        (v % 16 + 15) % 16 + 1
    }

    /// Number of directory rows that fit the visible lines, or `None` while
    /// either row-height register signals vertical refresh (high nibble 0xF).
    pub fn row_count(&self, vram: &[u8]) -> (r: Option<u8>)
        requires
            vram@.len() >= 200,
        ensures
            r == spec_row_count(vram@, self.mapper2@[6], self.mapper@[6], self.mapper@[3] & 0x08 != 0),
            r matches Some(n) ==> n <= 100,
    {
        let r1 = self.mapper2[6];
        let r2 = self.mapper[6];
        if r1 & 0xf0 == 0xf0 || r2 & 0xf0 == 0xf0 {
            return None;
        }
        let rh1 = self.row_height_screen_1();
        let rh2 = self.row_height_screen_2();
        let mut remaining: u16 = VERTICAL_LINES;
        let mut screen_2 = self.is_screen_2();
        let mut i: usize = 0;
        while i < 100
            invariant
                i <= 100,
                vram@.len() >= 200,
                r1 == self.mapper2@[6],
                r2 == self.mapper@[6],
                !(r1 & 0xf0 == 0xf0 || r2 & 0xf0 == 0xf0),
                rh1 == row_height_of(r1),
                rh2 == row_height_of(r2),
                rows_fitting(vram@, rh1 as int, rh2 as int, 0, VERTICAL_LINES as int, self.mapper@[3] & 0x08 != 0)
                    == rows_fitting(vram@, rh1 as int, rh2 as int, i as int, remaining as int, screen_2),
            decreases 100 - i,
        {
            let s = if vram[i * 2 + 1] & 0x02 != 0 {
                !screen_2
            } else {
                screen_2
            };
            let rh = if vram[i * 2] == 0x1E {
                2
            } else if !s {
                rh1
            } else {
                rh2
            };
            if rh as u16 > remaining {
                return Some(i as u8);
            }
            remaining = remaining - rh as u16;
            screen_2 = s;
            i = i + 1;
        }
        Some(100)
    }

    /// The value read at 0x7FF6 (see `calculate_7ff6_read`).
    pub fn read_7ff6(&self, vram: &[u8]) -> (r: u8)
        requires
            vram@.len() >= 54,
        ensures
            r == spec_7ff6(self.mapper@[3], self.mapper@[4], vram@),
    {
        calculate_7ff6_read(self.mapper[3], self.mapper[4], vram)
    }

    pub fn is_blink(&self) -> (r: bool)
        ensures
            r == (self.mapper@[3] & 0x40 != 0),
    {
        self.mapper[3] & 0x40 != 0
    }
}

} // verus!

verus! {

/// A row directory entry: the row's address byte (address high byte shifted
/// left by one) and its attribute byte.
#[derive(Clone, Copy, Debug, PartialEq, Eq, Structural)]
pub struct Row(pub u8, pub u8);

impl Row {
    /// Attribute bit 1: the row toggles between screen 1 and screen 2.
    pub fn is_screen_swap_row(&self) -> (r: bool)
        ensures
            r == (self.1 & 0x02 != 0),
    {
        self.1 & 0x02 != 0
    }

    /// Attribute bits 2-3 select the line size: 0 is single width.
    pub fn is_single_width(&self) -> (r: bool)
        ensures
            r == (self.1 / 4 % 4 == 0),
    {
        self.1 / 4 % 4 == 0
    }

    pub fn is_single_height_double_width(&self) -> (r: bool)
        ensures
            r == (self.1 / 4 % 4 == 1),
    {
        self.1 / 4 % 4 == 1
    }

    pub fn is_double_height_top(&self) -> (r: bool)
        ensures
            r == (self.1 / 4 % 4 == 2),
    {
        self.1 / 4 % 4 == 2
    }

    pub fn is_double_height_bottom(&self) -> (r: bool)
        ensures
            r == (self.1 / 4 % 4 == 3),
    {
        self.1 / 4 % 4 == 3
    }

    /// Start of the row's 256 bytes in VRAM.
    pub fn vram_offset(&self) -> (r: u16)
        ensures
            r == (self.0 / 2) as int * 256,
    {
        (self.0 / 2) as u16 * 256
    }

    /// An address byte of zero marks an unused entry.
    pub fn is_invalid(&self) -> (r: bool)
        ensures
            r == (self.0 == 0),
    {
        self.0 == 0
    }

    /// Rows stored at 0x0E00 and 0x0F00 hold the status line.
    pub fn is_status_row(&self) -> (r: bool)
        ensures
            r == (self.0 == 0x1C || self.0 == 0x1E),
    {
        self.0 == 0x1C || self.0 == 0x1E
    }
}

/// How a row is drawn.
#[derive(Clone, Copy, Debug, PartialEq, Eq, Structural)]
pub struct RowFlags {
    pub is_80: bool,
    pub invert: bool,
    pub double_width: bool,
    pub double_height_top: bool,
    pub double_height_bottom: bool,
    pub status_row: bool,
    pub screen_2: bool,
    pub row_height: u8,
    /// VRAM address of the row's font.
    pub font: u16,
}

/// One character cell of a decoded row: its column, character byte and
/// attribute word (bits 0-1 from the row's attribute area, bits 2-5 and 8-11
/// the upper nibble of the 12-bit code, bit 12 double width, bit 13 132
/// columns).
#[derive(Clone, Copy, Debug, PartialEq, Eq, Structural)]
pub struct DecodedCell {
    pub col: u8,
    pub ch: u8,
    pub attr: u16,
}

/// One decoded row: its directory index, directory entry, flags and cells.
pub struct DecodedRow {
    pub index: u8,
    pub row: Row,
    pub flags: RowFlags,
    pub cells: Vec<DecodedCell>,
}

impl View for DecodedRow {
    type V = (u8, Row, RowFlags, Seq<DecodedCell>);

    open spec fn view(&self) -> Self::V {
        (self.index, self.row, self.flags, self.cells@)
    }
}

pub open spec fn spec_is_status(row: Row) -> bool {
    row.0 == 0x1C || row.0 == 0x1E
}

/// Flags of `row` drawn on screen 2 (`screen_2`) or screen 1.
pub open spec fn spec_row_flags(m: &Mapper, row: Row, screen_2: bool) -> RowFlags {
    let status = spec_is_status(row);
    let font_reg = if screen_2 && !status { m.mapper@[12] } else { m.mapper2@[12] };
    let col_132 = if screen_2 { m.mapper@[4] & 0x01 != 0 } else { m.mapper@[3] & 0x01 != 0 };
    let base = (font_reg / 16) as int * 0x800;
    RowFlags {
        screen_2,
        is_80: !(status || col_132),
        invert: if screen_2 { m.mapper@[4] & 0x02 != 0 } else { m.mapper@[3] & 0x02 != 0 },
        double_width: row.1 / 4 % 4 != 0,
        double_height_top: row.1 / 4 % 4 == 2,
        double_height_bottom: row.1 / 4 % 4 == 3,
        status_row: status,
        row_height: if screen_2 { row_height_of(m.mapper@[6]) } else { row_height_of(m.mapper2@[6]) },
        font: (if !status && col_132 { base + 16 } else { base }) as u16,
    }
}

/// First byte of the 3-byte group that holds character `j` of a row at
/// `base`: 72 characters in bytes 0-107, then 62 in bytes 128-220.
pub open spec fn group_start(base: int, j: int) -> int {
    if j < 72 {
        base + 3 * (j / 2)
    } else {
        base + 128 + 3 * ((j - 72) / 2)
    }
}

/// Low 8 bits of the 12-bit character `j`. A group holds two characters: the
/// first is byte 0 plus the low nibble of byte 1 on top, the second is the
/// high nibble of byte 1 plus byte 2 on top.
pub open spec fn char_low(v: Seq<u8>, base: int, j: int) -> u8 {
    let t = group_start(base, j);
    if j % 2 == 0 {
        v[t]
    } else {
        (v[t + 1] / 16 + (v[t + 2] % 16) * 16) as u8
    }
}

/// Upper 4 bits of the 12-bit character `j`.
pub open spec fn char_high(v: Seq<u8>, base: int, j: int) -> u8 {
    let t = group_start(base, j);
    if j % 2 == 0 {
        v[t + 1] % 16
    } else {
        v[t + 2] / 16
    }
}

/// The 2-bit attribute of column `c`, from the area at byte 0xDD of the row.
pub open spec fn column_attr(v: Seq<u8>, base: int, c: int) -> u8 {
    let byte = v[base + 0xdd + (c + 1) / 4];
    let k = (c + 1) % 4;
    if k == 0 {
        byte % 4
    } else if k == 1 {
        byte / 4 % 4
    } else if k == 2 {
        byte / 16 % 4
    } else {
        byte / 64
    }
}

pub open spec fn spec_cell(v: Seq<u8>, base: int, c: int, flags: RowFlags) -> DecodedCell {
    let high = char_high(v, base, c) as int;
    DecodedCell {
        col: c as u8,
        ch: char_low(v, base, c),
        attr: (high * 256 + high * 4 + column_attr(v, base, c) + (if flags.double_width {
            0x1000int
        } else {
            0
        }) + (if !flags.is_80 { 0x2000int } else { 0 })) as u16,
    }
}

/// Columns drawn: 80 or 132, halved on a double-width row.
pub open spec fn column_count(flags: RowFlags) -> int {
    (if flags.is_80 { 80int } else { 132 }) / (if flags.double_width { 2int } else { 1 })
}

pub open spec fn spec_row_cells(v: Seq<u8>, row: Row, flags: RowFlags) -> Seq<DecodedCell> {
    Seq::new(column_count(flags) as nat, |c: int| spec_cell(v, (row.0 / 2) as int * 256, c, flags))
}

/// Decoded rows from directory entry `idx` up to `rows`, with `screen_2` the
/// screen in effect before entry `idx`. Unused entries are skipped and do not
/// toggle the screen.
pub open spec fn spec_rows_from(v: Seq<u8>, m: &Mapper, idx: int, rows: int, screen_2: bool) -> Seq<
    (u8, Row, RowFlags, Seq<DecodedCell>),
>
    decreases rows - idx,
{
    if idx >= rows {
        seq![]
    } else {
        let row = Row(v[2 * idx], v[2 * idx + 1]);
        if row.0 == 0 {
            spec_rows_from(v, m, idx + 1, rows, screen_2)
        } else {
            let s = if row.1 & 0x02 != 0 { !screen_2 } else { screen_2 };
            let flags = spec_row_flags(m, row, s);
            seq![(idx as u8, row, flags, spec_row_cells(v, row, flags))] + spec_rows_from(
                v,
                m,
                idx + 1,
                rows,
                s,
            )
        }
    }
}

/// The decoded screen: no rows during vertical refresh, else the rows of the
/// directory that fit the visible lines, starting on the screen that
/// mapper[3] bit 3 selects.
pub open spec fn spec_decode_vram(v: Seq<u8>, m: &Mapper) -> Seq<(u8, Row, RowFlags, Seq<DecodedCell>)> {
    match spec_row_count(v, m.mapper2@[6], m.mapper@[6], m.mapper@[3] & 0x08 != 0) {
        None => seq![],
        Some(rows) => spec_rows_from(v, m, 0, rows as int, m.mapper@[3] & 0x08 != 0),
    }
}

fn row_flags(mapper: &Mapper, row: Row, screen_2: bool) -> (r: RowFlags)
    ensures
        r == spec_row_flags(mapper, row, screen_2),
{
    let status = row.is_status_row();
    let font_reg = if screen_2 && !status {
        mapper.get(0xc)
    } else {
        mapper.get2(0xc)
    };
    let col_132 = if screen_2 {
        mapper.screen_2_132_columns()
    } else {
        mapper.screen_1_132_columns()
    };
    let base: u16 = (font_reg / 16) as u16 * 0x800;
    let is_132 = status || col_132;
    RowFlags {
        screen_2,
        is_80: !is_132,
        invert: if screen_2 {
            mapper.screen_2_invert()
        } else {
            mapper.screen_1_invert()
        },
        double_width: !row.is_single_width(),
        double_height_top: row.is_double_height_top(),
        double_height_bottom: row.is_double_height_bottom(),
        status_row: status,
        row_height: if screen_2 {
            mapper.row_height_screen_2()
        } else {
            mapper.row_height_screen_1()
        },
        font: if !status && col_132 {
            base + 16
        } else {
            base
        },
    }
}

fn decode_cell(vram: &[u8], base: usize, c: usize, flags: RowFlags) -> (r: DecodedCell)
    requires
        base + 256 <= vram@.len(),
        c < 132,
    ensures
        r == spec_cell(vram@, base as int, c as int, flags),
{
    let _n = vram.len();
    let t = if c < 72 {
        base + 3 * (c / 2)
    } else {
        base + 128 + 3 * ((c - 72) / 2)
    };
    let (low, high): (u8, u8) = if c % 2 == 0 {
        (vram[t], vram[t + 1] % 16)
    } else {
        (vram[t + 1] / 16 + (vram[t + 2] % 16) * 16, vram[t + 2] / 16)
    };
    let byte = vram[base + 0xdd + (c + 1) / 4];
    let k = (c + 1) % 4;
    let bits: u8 = if k == 0 {
        byte % 4
    } else if k == 1 {
        byte / 4 % 4
    } else if k == 2 {
        byte / 16 % 4
    } else {
        byte / 64
    };
    let mut attr: u16 = high as u16 * 256 + high as u16 * 4 + bits as u16;
    if flags.double_width {
        attr = attr + 0x1000;
    }
    if !flags.is_80 {
        attr = attr + 0x2000;
    }
    DecodedCell { col: c as u8, ch: low, attr }
}

/// Decode the screen held in VRAM: for each used directory entry among the
/// rows that `row_count` admits, its flags and its character cells.
pub fn decode_vram(vram: &[u8], mapper: &Mapper) -> (r: Vec<DecodedRow>)
    requires
        vram@.len() >= 0x8000,
    ensures
        r@.map_values(|d: DecodedRow| d@) == spec_decode_vram(vram@, mapper),
{
    let mut out: Vec<DecodedRow> = Vec::new();
    let rows = match mapper.row_count(vram) {
        None => {
            assert(out@.map_values(|d: DecodedRow| d@) =~= seq![]);
            return out;
        },
        Some(rows) => rows,
    };
    let ghost s0 = mapper.mapper@[3] & 0x08 != 0;
    let mut screen_2 = mapper.is_screen_2();
    let mut idx: u8 = 0;
    while idx < rows
        invariant
            idx <= rows <= 100,
            vram@.len() >= 0x8000,
            rows as int == spec_row_count(vram@, mapper.mapper2@[6], mapper.mapper@[6], s0)->Some_0,
            spec_row_count(vram@, mapper.mapper2@[6], mapper.mapper@[6], s0) is Some,
            out@.map_values(|d: DecodedRow| d@) + spec_rows_from(vram@, mapper, idx as int, rows as int, screen_2)
                =~= spec_rows_from(vram@, mapper, 0, rows as int, s0),
        decreases rows - idx,
    {
        let row = Row(vram[idx as usize * 2], vram[idx as usize * 2 + 1]);
        if row.is_invalid() {
            idx = idx + 1;
            continue;
        }
        if row.is_screen_swap_row() {
            screen_2 = !screen_2;
        }
        let flags = row_flags(mapper, row, screen_2);
        let base = row.vram_offset() as usize;
        let max_columns: usize = if flags.is_80 {
            80
        } else {
            132
        };
        let ncols = if flags.double_width {
            max_columns / 2
        } else {
            max_columns
        };
        let mut cells: Vec<DecodedCell> = Vec::new();
        let mut c: usize = 0;
        while c < ncols
            invariant
                c <= ncols <= 132,
                ncols == column_count(flags),
                base + 256 <= vram@.len(),
                cells@ =~= Seq::new(c as nat, |k: int| spec_cell(vram@, base as int, k, flags)),
            decreases ncols - c,
        {
            let cell = decode_cell(vram, base, c, flags);
            cells.push(cell);
            c = c + 1;
        }
        let ghost prev = out@.map_values(|d: DecodedRow| d@);
        out.push(DecodedRow { index: idx, row, flags, cells });
        assert(out@.map_values(|d: DecodedRow| d@) =~= prev.push((idx, row, flags, spec_row_cells(vram@, row, flags))));
        idx = idx + 1;
    }
    out
}

/// Decode the glyph at VRAM `address` into 16 pixel rows: 10 bits per row in
/// 80-column mode (a byte, and the low 2 bits of the byte 16 further on), 6
/// bits in 132-column mode (the high six bits of a byte).
pub fn decode_font(vram: &[u8], address: u32, is_80: bool, glyph: &mut [u16; 16])
    requires
        address as int + (if is_80 { 32int } else { 16 }) <= vram@.len(),
    ensures
        forall|y: int|
            0 <= y < 16 ==> #[trigger] final(glyph)@[y] == (if is_80 {
                vram@[address + y] as int + (vram@[address + y + 16] % 4) as int * 256
            } else {
                (vram@[address + y] / 4) as int
            }),
{
    let _n = vram.len();
    let a = address as usize;
    let mut y: usize = 0;
    while y < 16
        invariant
            y <= 16,
            a == address,
            a + (if is_80 { 32int } else { 16 }) <= vram@.len() == _n,
            forall|k: int|
                0 <= k < y ==> #[trigger] glyph@[k] == (if is_80 {
                    vram@[a + k] as int + (vram@[a + k + 16] % 4) as int * 256
                } else {
                    (vram@[a + k] / 4) as int
                }),
        decreases 16 - y,
    {
        if is_80 {
            glyph[y] = vram[a + y] as u16 + (vram[a + y + 16] % 4) as u16 * 256;
        } else {
            glyph[y] = (vram[a + y] / 4) as u16;
        }
        y = y + 1;
    }
}

} // verus!
