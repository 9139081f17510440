//! What happens on the board after each CPU instruction, and the NVRAM image
//! and screen text that the host reads and writes.
use vstd::prelude::*;

use std::cell::Cell;
use std::rc::Rc;

use crate::channel::flag_set;
use crate::duart::{ChannelIo, DUART};
use crate::lk201::{spec_process, LK201};
use crate::memory::{DiagnosticMonitor, VideoProcessor, P3_INT1, P3_T0, RAM};
use crate::vsync::{csync_level, next_x, next_y};
use crate::nvr::Nvr;
use crate::video::{decode_vram, spec_decode_vram, DecodedRow, Mapper};

verus! {

/// Size of the NVRAM image.
pub const NVR_SIZE: usize = 128;

/// Settings of the NVRAM image used when no file is given: model, refresh
/// rate and port parameters with their checksums.
pub open spec fn default_nvr_settings() -> Seq<u8> {
    seq![
        0x65u8, 0x44, 0x88, 0x1e, 0x1e, 0x85, 0x54, 0x88, 0x85, 0x54, 0x00, 0x00, 0x04, 0x50, 0x00, 0x00,
        0x00, 0x00, 0x00, 0x00, 0x00, 0x00, 0x00, 0x00, 0x00, 0x00, 0x00, 0x00, 0x00, 0x00, 0x00, 0x00,
        0x00, 0x00, 0x00, 0x00, 0x00, 0x00, 0x00, 0x00, 0x00, 0x00, 0x00, 0x00, 0x00, 0x00, 0x00, 0x00,
        0x03, 0x00, 0xc0, 0x25, 0x00, 0x24, 0x01, 0x00, 0x00, 0x00, 0x02, 0x98, 0x00, 0x00, 0x00, 0x00,
        0x01, 0x01, 0x01, 0x01, 0x01, 0x01, 0x01, 0x01, 0x01, 0x01, 0x01, 0x01, 0x01, 0x01, 0x01, 0x01,
        0x4a, 0x00, 0xc0, 0x25, 0x00, 0x24, 0x01, 0x00, 0x00, 0x00, 0x02, 0x98, 0x00, 0x00, 0x00, 0x00,
        0x01, 0x01, 0x01, 0x01, 0x01, 0x01, 0x01, 0x01, 0x01, 0x01, 0x01, 0x01, 0x01, 0x01, 0x01, 0x01,
        0x4a,
    ]
}

/// The NVRAM image used when no file is given: the default settings, then
/// 0xFF.
pub fn default_nvr_image() -> (r: Vec<u8>)
    ensures
        r@ == default_nvr_settings() + Seq::new((NVR_SIZE - default_nvr_settings().len()) as nat, |i: int| 0xffu8),
{
    let settings: [u8; 113] = [
        0x65, 0x44, 0x88, 0x1e, 0x1e, 0x85, 0x54, 0x88, 0x85, 0x54, 0x00, 0x00, 0x04, 0x50, 0x00, 0x00,
        0x00, 0x00, 0x00, 0x00, 0x00, 0x00, 0x00, 0x00, 0x00, 0x00, 0x00, 0x00, 0x00, 0x00, 0x00, 0x00,
        0x00, 0x00, 0x00, 0x00, 0x00, 0x00, 0x00, 0x00, 0x00, 0x00, 0x00, 0x00, 0x00, 0x00, 0x00, 0x00,
        0x03, 0x00, 0xc0, 0x25, 0x00, 0x24, 0x01, 0x00, 0x00, 0x00, 0x02, 0x98, 0x00, 0x00, 0x00, 0x00,
        0x01, 0x01, 0x01, 0x01, 0x01, 0x01, 0x01, 0x01, 0x01, 0x01, 0x01, 0x01, 0x01, 0x01, 0x01, 0x01,
        0x4a, 0x00, 0xc0, 0x25, 0x00, 0x24, 0x01, 0x00, 0x00, 0x00, 0x02, 0x98, 0x00, 0x00, 0x00, 0x00,
        0x01, 0x01, 0x01, 0x01, 0x01, 0x01, 0x01, 0x01, 0x01, 0x01, 0x01, 0x01, 0x01, 0x01, 0x01, 0x01,
        0x4a,
    ];
    assert(settings@ =~= default_nvr_settings());
    let mut v: Vec<u8> = Vec::new();
    let mut i: usize = 0;
    while i < NVR_SIZE
        invariant
            i <= NVR_SIZE,
            settings@ == default_nvr_settings(),
            v@ =~= (default_nvr_settings() + Seq::new((NVR_SIZE - default_nvr_settings().len()) as nat, |k: int| 0xffu8)).take(i as int),
        decreases NVR_SIZE - i,
    {
        if i < 113 {
            v.push(settings[i]);
        } else {
            v.push(0xff);
        }
        i = i + 1;
    }
    v
}

/// An NVRAM image from file contents: cut to 128 bytes, or filled up to 128
/// with 0xFF.
pub fn nvr_image_from_file(bytes: &Vec<u8>) -> (r: Vec<u8>)
    ensures
        r@.len() == NVR_SIZE,
        forall|i: int| 0 <= i < NVR_SIZE ==> #[trigger] r@[i] == (if i < bytes@.len() { bytes@[i] } else { 0xffu8 }),
{
    let mut v: Vec<u8> = Vec::new();
    let mut i: usize = 0;
    while i < NVR_SIZE
        invariant
            i <= NVR_SIZE,
            v@.len() == i,
            forall|k: int| 0 <= k < i ==> #[trigger] v@[k] == (if k < bytes@.len() { bytes@[k] } else { 0xffu8 }),
        decreases NVR_SIZE - i,
    {
        if i < bytes.len() {
            v.push(bytes[i]);
        } else {
            v.push(0xff);
        }
        i = i + 1;
    }
    v
}

impl Nvr {
    /// Load a 128-byte image into the memory.
    pub fn load(&mut self, image: &Vec<u8>)
        requires
            old(self).wf(),
            image@.len() == NVR_SIZE,
        ensures
            final(self).wf(),
            final(self).mem@ == image@,
            final(self).write_count == old(self).write_count,
            final(self).state == old(self).state,
            final(self).w_enable == old(self).w_enable,
    {
        let mut i: usize = 0;
        while i < NVR_SIZE
            invariant
                i <= NVR_SIZE,
                image@.len() == NVR_SIZE,
                self.mem@.len() == NVR_SIZE,
                self.state == old(self).state,
                crate::nvr::state_wf(self.state),
                self.write_count == old(self).write_count,
                self.w_enable == old(self).w_enable,
                forall|k: int| 0 <= k < i ==> #[trigger] self.mem@[k] == image@[k],
            decreases NVR_SIZE - i,
        {
            self.mem[i] = image[i];
            i = i + 1;
        }
        assert(self.mem@ =~= image@);
    }

    /// The memory as a byte vector, for writing to the NVR file.
    pub fn image(&self) -> (r: Vec<u8>)
        ensures
            r@ == self.mem@,
    {
        let mut v: Vec<u8> = Vec::new();
        let mut i: usize = 0;
        while i < NVR_SIZE
            invariant
                i <= NVR_SIZE,
                v@ == self.mem@.take(i as int),
            decreases NVR_SIZE - i,
        {
            v.push(self.mem[i]);
            i = i + 1;
            assert(v@ =~= self.mem@.take(i as int));
        }
        assert(self.mem@.take(NVR_SIZE as int) =~= self.mem@);
        v
    }
}

/// The screen as text bytes: a newline before each decoded row, then the
/// character byte of each of its cells.
pub open spec fn spec_screen_text(rows: Seq<(u8, crate::video::Row, crate::video::RowFlags, Seq<crate::video::DecodedCell>)>) -> Seq<u8>
    decreases rows.len(),
{
    if rows.len() == 0 {
        seq![]
    } else {
        spec_screen_text(rows.drop_last()) + seq![0x0au8] + rows.last().3.map_values(
            |c: crate::video::DecodedCell| c.ch,
        )
    }
}

/// The decoded screen as text bytes (see `spec_screen_text`).
pub fn screen_text(vram: &[u8], mapper: &Mapper) -> (r: Vec<u8>)
    requires
        vram@.len() >= 0x8000,
    ensures
        r@ == spec_screen_text(spec_decode_vram(vram@, mapper)),
{
    let rows = decode_vram(vram, mapper);
    let ghost views = rows@.map_values(|d: DecodedRow| d@);
    let mut out: Vec<u8> = Vec::new();
    let mut i: usize = 0;
    while i < rows.len()
        invariant
            i <= rows@.len(),
            views == rows@.map_values(|d: DecodedRow| d@),
            out@ == spec_screen_text(views.take(i as int)),
        decreases rows@.len() - i,
    {
        out.push(0x0a);
        let cells = &rows[i].cells;
        let mut c: usize = 0;
        while c < cells.len()
            invariant
                i < rows@.len(),
                c <= cells@.len(),
                cells == &rows@[i as int].cells,
                views == rows@.map_values(|d: DecodedRow| d@),
                out@ == spec_screen_text(views.take(i as int)) + seq![0x0au8] + cells@.take(c as int).map_values(
                    |x: crate::video::DecodedCell| x.ch,
                ),
            decreases cells@.len() - c,
        {
            out.push(cells[c].ch);
            c = c + 1;
            assert(cells@.take(c as int).map_values(|x: crate::video::DecodedCell| x.ch) =~= cells@.take(
                (c - 1) as int,
            ).map_values(|x: crate::video::DecodedCell| x.ch).push(cells@[c - 1].ch));
        }
        assert(cells@.take(cells@.len() as int) =~= cells@);
        assert(views.take((i + 1) as int).drop_last() =~= views.take(i as int));
        i = i + 1;
    }
    assert(views.take(rows@.len() as int) =~= views);
    out
}

/// What one board step did towards the host.
pub struct BoardStep {
    /// The NVRAM was written since it was last reported.
    pub nvr_written: bool,
    /// The DTR levels handed to the host flags of channels A and B.
    pub dtr_a: bool,
    pub dtr_b: bool,
    /// What the DUART did on the host links of channels A and B.
    pub serial_a: ChannelIo,
    pub serial_b: ChannelIo,
    /// Bytes the keyboard took from the terminal, and the answer it sent.
    pub keyboard_in: Vec<u8>,
    pub keyboard_out: Vec<u8>,
}

/// The devices that run alongside the CPU: the bus, the video processor's
/// ports, the diagnostic monitor and the keyboard, plus the host DTR flags.
pub struct Board {
    pub memory: RAM,
    pub video_row: VideoProcessor,
    pub diagnostic_monitor: DiagnosticMonitor,
    pub keyboard: LK201,
    pub dtr_a: Rc<Cell<bool>>,
    pub dtr_b: Rc<Cell<bool>>,
    /// The NVRAM write count already persisted.
    pub nvr_write: usize,
}

impl Board {
    pub open spec fn wf(&self) -> bool {
        self.memory.wf()
    }

    /// A board around `duart` and `keyboard`, whose DTR lines drive the host
    /// flags `dtr_a` and `dtr_b`, and whose NVRAM holds `nvr_image`.
    pub fn new(duart: DUART, keyboard: LK201, dtr_a: Rc<Cell<bool>>, dtr_b: Rc<Cell<bool>>, nvr_image: &Vec<u8>) -> (r: Board)
        requires
            nvr_image@.len() == NVR_SIZE,
        ensures
            r.wf(),
            r.memory.nvr.mem@ == nvr_image@,
            r.nvr_write == 0,
            r.memory.nvr.write_count == 0,
    {
        let mut memory = RAM::new(duart);
        memory.nvr.load(nvr_image);
        Board {
            memory,
            video_row: VideoProcessor::new(),
            diagnostic_monitor: DiagnosticMonitor::new(),
            keyboard,
            dtr_a,
            dtr_b,
            nvr_write: 0,
        }
    }

    /// The devices' part of one machine step, after the CPU's instruction:
    /// the bus (NVRAM and DUART), the keyboard, the DUART interrupt onto P3
    /// INT1, the DTR bits (output bits 1 and 7) onto the host flags, and the
    /// sync generator onto P3 T0. Returns what the step did towards the host,
    /// including whether the NVRAM was written since the last step that said
    /// so, so the host can save it.
    pub fn tick(&mut self) -> (r: BoardStep)
        requires
            old(self).wf(),
        ensures
            final(self).wf(),
            crate::memory::bus_ticked(&old(self).memory, &final(self).memory, (r.serial_a, r.serial_b)),
            final(self).memory.sram@ == old(self).memory.sram@,
            final(self).memory.vram@ == old(self).memory.vram@,
            final(self).memory.mapper.mapper@ == old(self).memory.mapper.mapper@,
            final(self).memory.mapper.mapper2@ == old(self).memory.mapper.mapper2@,
            final(self).memory.peripheral@ == old(self).memory.peripheral@,
            final(self).memory.bank == old(self).memory.bank,
            final(self).memory.sync.hz_70 == old(self).memory.sync.hz_70,
            final(self).diagnostic_monitor.ram@ == old(self).diagnostic_monitor.ram@,
            (final(self).keyboard.queue(), r.keyboard_out@) == spec_process(old(self).keyboard.queue(), r.keyboard_in@),
            r.dtr_a == (final(self).memory.duart.output_bits_inv & 0x02 != 0),
            r.dtr_b == (final(self).memory.duart.output_bits_inv & 0x80 != 0),
            ({
                let g = old(self).memory.sync.sync_gen;
                let int1 = if final(self).memory.duart.interrupt {
                    old(self).video_row.p3_read & !P3_INT1
                } else {
                    old(self).video_row.p3_read | P3_INT1
                };
                &&& final(self).memory.sync.sync_gen.x == next_x(g.t, g.x as int)
                &&& final(self).memory.sync.sync_gen.y == next_y(g.t, g.x as int, g.y as int)
                &&& final(self).video_row.p3_read == (int1 & !P3_T0) | (if csync_level(g.t, g.x as int, g.y as int) {
                    P3_T0
                } else {
                    0
                })
            }),
            final(self).video_row.p1 == old(self).video_row.p1,
            final(self).video_row.p2 == old(self).video_row.p2,
            final(self).video_row.p3 == old(self).video_row.p3,
            r.nvr_written == (final(self).memory.nvr.write_count > old(self).nvr_write),
            final(self).nvr_write == (if r.nvr_written {
                final(self).memory.nvr.write_count
            } else {
                old(self).nvr_write
            }),
    {
        let (serial_a, serial_b) = self.memory.tick();
        let (keyboard_in, keyboard_out) = self.keyboard.tick();
        self.video_row.set_int1(self.memory.duart.interrupt);
        let dtr_a = self.memory.duart.output_bits_inv & 0x02 != 0;
        let dtr_b = self.memory.duart.output_bits_inv & 0x80 != 0;
        flag_set(&self.dtr_a, dtr_a);
        flag_set(&self.dtr_b, dtr_b);
        self.video_row.tick(&mut self.memory.sync);
        let nvr_written = if self.memory.nvr.write_count > self.nvr_write {
            self.nvr_write = self.memory.nvr.write_count;
            true
        } else {
            false
        };
        BoardStep { nvr_written, dtr_a, dtr_b, serial_a, serial_b, keyboard_in, keyboard_out }
    }

    /// The decoded screen as text bytes.
    pub fn screen_text(&self) -> (r: Vec<u8>)
        requires
            self.wf(),
        ensures
            r@ == spec_screen_text(spec_decode_vram(self.memory.vram@, &self.memory.mapper)),
    {
        screen_text(self.memory.vram.as_slice(), &self.memory.mapper)
    }
}

} // verus!
