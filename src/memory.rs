//! The VT420 bus: the external data (xdata) address space with its SRAM,
//! VRAM, mapper, DUART and peripheral windows; the banked firmware ROM; and
//! the port-mapped devices the CPU reads through its SFRs.
use vstd::prelude::*;

use crate::duart::{ChannelIo, spec_read, spec_read_register, spec_write, spec_write_register, DuartModel, DUART, ReadRegister, WriteRegister};
use crate::nvr::{spec_tick, Nvr};
use crate::video::{spec_7ff6, timing_60hz, timing_70hz, Mapper};
use crate::vsync::SyncGen;

verus! {

/// Port P1 in SFR space.
pub const SFR_P1: u8 = 0x90;

/// Port P2 in SFR space.
pub const SFR_P2: u8 = 0xA0;

/// Port P3 in SFR space.
pub const SFR_P3: u8 = 0xB0;

/// P3 bit 3: external interrupt 1.
pub const P3_INT1: u8 = 0x08;

/// P3 bit 4: timer 0 input, where the composite-sync level appears.
pub const P3_T0: u8 = 0x10;

pub const SRAM_SIZE: usize = 0x8000;

pub const VRAM_SIZE: usize = 0x20000;

/// Size of one ROM bank.
pub const BANK_SIZE: usize = 0x10000;

/// The 0x0200-0x03FF window is swizzled (bit 8 flipped) while mapper[3]
/// bit 4 is set; other addresses pass through.
pub open spec fn spec_swizzle(addr: u16, bits: u8) -> u16 {
    if bits & 0x10 != 0 && 0x200 <= addr < 0x400 {
        addr ^ 0x0100
    } else {
        addr
    }
}

/// Apply the VRAM swizzle selected by `bits` (mapper[3]) to `addr`.
pub fn swizzle_video_ram(addr: u16, bits: u8) -> (r: u16)
    ensures
        r == spec_swizzle(addr, bits),
{
    if bits & 0x10 == 0 {
        addr
    } else if 0x200 <= addr && addr < 0x400 {
        addr ^ 0x0100
    } else {
        addr
    }
}

/// The swizzle moves nothing outside 0x200-0x3FF; inside it flips bit 8,
/// stays inside, and undoes itself.
pub proof fn lemma_swizzle(addr: u16, bits: u8)
    ensures
        !(0x200 <= addr < 0x400) ==> spec_swizzle(addr, bits) == addr,
        (0x200 <= addr < 0x400 && bits & 0x10 != 0) ==> spec_swizzle(addr, bits) == addr ^ 0x0100,
        0x200 <= addr < 0x400 ==> 0x200 <= spec_swizzle(addr, bits) < 0x400,
        spec_swizzle(spec_swizzle(addr, bits), bits) == addr,
{
    assert(0x200 <= addr < 0x400 ==> 0x200 <= addr ^ 0x0100 < 0x400) by (bit_vector);
    assert((addr ^ 0x0100) ^ 0x0100 == addr) by (bit_vector);
}

/// Which device an xdata access reaches.
#[derive(Clone, Copy, Debug, PartialEq, Eq, Structural)]
pub enum MemoryTarget {
    SRAM,
    VRAM,
    Mapper,
    DUART,
    Peripheral,
}

/// Decode of an xdata address, given mapper[3] (`m3`) and mapper[5] (`m5`):
/// the device and the offset within it. The mapper, DUART and peripheral
/// windows take precedence; the rest of the low half is VRAM (swizzled);
/// the high half is SRAM, or VRAM from 0x8000 when mapper[5] bit 5 is set.
pub open spec fn spec_target(m3: u8, m5: u8, addr: u16) -> (MemoryTarget, u32) {
    if 0x7ff0 <= addr <= 0x7fff {
        (MemoryTarget::Mapper, (addr % 16) as u32)
    } else if 0x7fe0 <= addr <= 0x7fef {
        (MemoryTarget::DUART, (addr % 16) as u32)
    } else if 0x7e00 <= addr <= 0x7eff {
        (MemoryTarget::Peripheral, (addr % 256) as u32)
    } else if addr < 0x8000 {
        (MemoryTarget::VRAM, spec_swizzle(addr, m3) as u32)
    } else if m5 & 0x20 != 0 {
        (MemoryTarget::VRAM, (addr - 0x8000 + 0x8000) as u32)
    } else {
        (MemoryTarget::SRAM, (addr - 0x8000) as u32)
    }
}

/// The ROM bank bit, as the CPU's program-counter extension.
pub struct Bank {
    pub bank: bool,
}

impl Bank {
    pub fn new() -> (r: Bank)
        ensures
            !r.bank,
    {
        Bank { bank: false }
    }

    /// The bit that extends the program counter to 17 bits.
    pub fn pc_extension(&self) -> (r: u16)
        ensures
            r == (if self.bank { 1u16 } else { 0u16 }),
    {
        if self.bank {
            1
        } else {
            0
        }
    }
}

/// The sync generator and the preset it runs (60 or 70 Hz, from mapper[4]
/// bit 4).
pub struct SyncHolder {
    pub hz_70: bool,
    pub sync_gen: SyncGen,
}

impl SyncHolder {
    pub open spec fn wf(&self) -> bool {
        &&& self.sync_gen.wf()
        &&& self.sync_gen.t == (if self.hz_70 {
            crate::video::spec_timing_70hz()
        } else {
            crate::video::spec_timing_60hz()
        })
    }

    /// The 60 Hz preset at the top of the frame.
    pub fn new() -> (r: SyncHolder)
        ensures
            r.wf(),
            !r.hz_70,
            r.sync_gen.x == 0,
            r.sync_gen.y == 0,
    {
        SyncHolder { hz_70: false, sync_gen: SyncGen::new(timing_60hz()) }
    }

    /// Select the preset; a change restarts the generator at the top of the
    /// frame, no change leaves it running.
    pub fn set_hz_70(&mut self, value: bool)
        requires
            old(self).wf(),
        ensures
            final(self).wf(),
            final(self).hz_70 == value,
            value == old(self).hz_70 ==> final(self).sync_gen == old(self).sync_gen,
            value != old(self).hz_70 ==> final(self).sync_gen.x == 0 && final(self).sync_gen.y == 0,
    {
        if self.hz_70 != value {
            self.sync_gen = SyncGen::new(
                if value {
                    timing_70hz()
                } else {
                    timing_60hz()
                },
            );
            self.hz_70 = value;
        }
    }
}

/// The video processor's ports P1-P3: output latches, and the levels the CPU
/// reads back (P3 carries the sync level on T0 and the DUART interrupt on
/// INT1).
pub struct VideoProcessor {
    pub p1: u8,
    pub p1_read: u8,
    pub p2: u8,
    pub p3: u8,
    pub p3_read: u8,
}

impl VideoProcessor {
    pub fn new() -> (r: VideoProcessor)
        ensures
            r.p1 == 0xff && r.p1_read == 0xff && r.p2 == 0xff && r.p3 == 0xff && r.p3_read == 0xff,
    {
        VideoProcessor { p1: 0xff, p1_read: 0xff, p2: 0xff, p3: 0xff, p3_read: 0xff }
    }

    /// Advance the sync generator one clock and show its level on P3 bit 4.
    pub fn tick(&mut self, sync: &mut SyncHolder)
        requires
            old(sync).wf(),
        ensures
            final(sync).wf(),
            final(sync).hz_70 == old(sync).hz_70,
            final(sync).sync_gen.x == crate::vsync::next_x(old(sync).sync_gen.t, old(sync).sync_gen.x as int),
            final(sync).sync_gen.y == crate::vsync::next_y(
                old(sync).sync_gen.t,
                old(sync).sync_gen.x as int,
                old(sync).sync_gen.y as int,
            ),
            final(self).p3_read == (old(self).p3_read & !P3_T0) | (if crate::vsync::csync_level(
                old(sync).sync_gen.t,
                old(sync).sync_gen.x as int,
                old(sync).sync_gen.y as int,
            ) {
                P3_T0
            } else {
                0
            }),
            final(self).p1 == old(self).p1 && final(self).p1_read == old(self).p1_read,
            final(self).p2 == old(self).p2 && final(self).p3 == old(self).p3,
    {
        let level = sync.sync_gen.tick();
        self.p3_read = (self.p3_read & !P3_T0) | (if level {
            P3_T0
        } else {
            0
        });
    }

    /// The ports this device answers for.
    pub fn interest(&self, addr: u8) -> (r: bool)
        ensures
            r == (addr == SFR_P1 || addr == SFR_P2 || addr == SFR_P3),
    {
        addr == SFR_P1 || addr == SFR_P2 || addr == SFR_P3
    }

    /// A pin read.
    pub fn read(&self, addr: u8) -> (r: u8)
        ensures
            r == (if addr == SFR_P1 {
                self.p1_read
            } else if addr == SFR_P2 {
                self.p2
            } else if addr == SFR_P3 {
                self.p3_read
            } else {
                0xff
            }),
    {
        if addr == SFR_P1 {
            self.p1_read
        } else if addr == SFR_P2 {
            self.p2
        } else if addr == SFR_P3 {
            self.p3_read
        } else {
            0xff
        }
    }

    /// A latch read (read-modify-write instructions).
    pub fn read_latch(&self, addr: u8) -> (r: u8)
        ensures
            r == (if addr == SFR_P1 {
                self.p1
            } else if addr == SFR_P2 {
                self.p2
            } else if addr == SFR_P3 {
                self.p3
            } else {
                0xff
            }),
    {
        if addr == SFR_P1 {
            self.p1
        } else if addr == SFR_P2 {
            self.p2
        } else if addr == SFR_P3 {
            self.p3
        } else {
            0xff
        }
    }

    /// Write an output latch.
    pub fn write(&mut self, addr: u8, value: u8)
        ensures
            final(self).p1 == (if addr == SFR_P1 { value } else { old(self).p1 }),
            final(self).p2 == (if addr == SFR_P2 { value } else { old(self).p2 }),
            final(self).p3 == (if addr == SFR_P3 { value } else { old(self).p3 }),
            final(self).p1_read == old(self).p1_read,
            final(self).p3_read == old(self).p3_read,
    {
        if addr == SFR_P1 {
            self.p1 = value;
        } else if addr == SFR_P2 {
            self.p2 = value;
        } else if addr == SFR_P3 {
            self.p3 = value;
        }
    }

    /// Show the DUART's interrupt line on P3 INT1 (active low).
    pub fn set_int1(&mut self, interrupt: bool)
        ensures
            final(self).p3_read == (if interrupt {
                old(self).p3_read & !P3_INT1
            } else {
                old(self).p3_read | P3_INT1
            }),
            final(self).p1 == old(self).p1 && final(self).p1_read == old(self).p1_read,
            final(self).p2 == old(self).p2 && final(self).p3 == old(self).p3,
    {
        if interrupt {
            self.p3_read = self.p3_read & !P3_INT1;
        } else {
            self.p3_read = self.p3_read | P3_INT1;
        }
    }
}

/// A 256-byte store behind the diagnostic ports 0x1F and 0x7E.
pub struct DiagnosticMonitor {
    pub ram: [u8; 256],
}

impl DiagnosticMonitor {
    pub fn new() -> (r: DiagnosticMonitor)
        ensures
            forall|i: int| 0 <= i < 256 ==> r.ram@[i] == 0,
    {
        DiagnosticMonitor { ram: [0; 256] }
    }

    pub fn interest(&self, addr: u8) -> (r: bool)
        ensures
            r == (addr == 0x1f || addr == 0x7e),
    {
        addr == 0x1f || addr == 0x7e
    }

    pub fn read(&self, addr: u8) -> (r: u8)
        ensures
            r == self.ram@[addr as int],
    {
        self.ram[addr as usize]
    }

    pub fn write(&mut self, addr: u8, value: u8)
        ensures
            final(self).ram@ == old(self).ram@.update(addr as int, value),
    {
        self.ram[addr as usize] = value;
    }
}

/// One bus step, from `old` to `new`: the NVRAM sees CS, SK and DI from the
/// DUART's output bits 4, 5 and 6 (active low), its DO and READY land on
/// DUART inputs 3 and 4, and the DUART ticks.
pub open spec fn bus_ticked(old: &RAM, new: &RAM, io: (ChannelIo, ChannelIo)) -> bool {
    let o = old.duart.output_bits_inv;
    let n = spec_tick(old.nvr@, o & 0x10 == 0, o & 0x20 == 0, o & 0x40 == 0);
    let inputs = (old.duart.input_bits & !0x18u8) | (if n.ready() { 0x10u8 } else { 0 }) | (if n.do_line {
        0x08u8
    } else {
        0
    });
    &&& new.nvr@ == n
    &&& crate::duart::spec_tick(DuartModel { input_bits: inputs, ..old.duart@ }, new.duart@, io.0, io.1)
}

/// Everything on the xdata bus.
pub struct RAM {
    pub sram: Vec<u8>,
    pub vram: Vec<u8>,
    pub mapper: Mapper,
    pub peripheral: [u8; 256],
    /// The ROM bank bit (mapper[5] bit 2).
    pub bank: Bank,
    pub sync: SyncHolder,
    pub nvr: Nvr,
    pub duart: DUART,
}

impl RAM {
    pub open spec fn wf(&self) -> bool {
        &&& self.sram@.len() == SRAM_SIZE
        &&& self.vram@.len() == VRAM_SIZE
        &&& self.sync.wf()
        &&& self.nvr.wf()
    }

    /// Cleared memories, the reset mapper, a blank NVRAM and the given DUART.
    pub fn new(duart: DUART) -> (r: RAM)
        ensures
            r.wf(),
            forall|i: int| 0 <= i < SRAM_SIZE ==> r.sram@[i] == 0,
            forall|i: int| 0 <= i < VRAM_SIZE ==> r.vram@[i] == 0,
            !r.bank.bank,
            !r.sync.hz_70,
            forall|i: int| 0 <= i < 256 ==> r.peripheral@[i] == 0,
            r.nvr@.mem == Seq::new(128, |i: int| 0u8),
            r.nvr.write_count == 0,
            r.nvr.state == crate::nvr::NvrState::Idle,
            !r.nvr.w_enable,
            forall|i: int| 0 <= i < 16 ==> r.mapper.mapper2@[i] == 0,
            forall|i: int| 0 <= i < 16 && i != 3 && i != 4 && i != 5 ==> r.mapper.mapper@[i] == 0,
            r.mapper.mapper@[3] == 0xff,
            r.mapper.mapper@[4] == 0xff,
            r.mapper.mapper@[5] == 0xf4,
            r.duart@ == duart@,
    {
        RAM {
            sram: vec![0u8; SRAM_SIZE],
            vram: vec![0u8; VRAM_SIZE],
            mapper: Mapper::new(),
            peripheral: [0; 256],
            bank: Bank::new(),
            sync: SyncHolder::new(),
            nvr: Nvr::new(),
            duart,
        }
    }

    /// The device and offset that `addr` reaches.
    pub fn target_for_addr(&self, addr: u16) -> (r: (MemoryTarget, u32))
        ensures
            r == spec_target(self.mapper.mapper@[3], self.mapper.mapper@[5], addr),
    {
        if 0x7ff0 <= addr && addr <= 0x7fff {
            (MemoryTarget::Mapper, (addr % 16) as u32)
        } else if 0x7fe0 <= addr && addr <= 0x7fef {
            (MemoryTarget::DUART, (addr % 16) as u32)
        } else if 0x7e00 <= addr && addr <= 0x7eff {
            (MemoryTarget::Peripheral, (addr % 256) as u32)
        } else if addr < 0x8000 {
            (MemoryTarget::VRAM, self.mapper.vram_offset_0() + swizzle_video_ram(addr, self.mapper.mapper[3]) as u32)
        } else if self.mapper.map_vram_at_8000() == 1 {
            (MemoryTarget::VRAM, (addr - 0x8000) as u32 + self.mapper.vram_offset())
        } else {
            (MemoryTarget::SRAM, (addr - 0x8000) as u32)
        }
    }

    /// Number of bytes of SRAM and VRAM together.
    pub fn len(&self) -> (r: u32)
        requires
            self.wf(),
        ensures
            r == SRAM_SIZE + VRAM_SIZE,
    {
        (self.sram.len() + self.vram.len()) as u32
    }

    /// An xdata read. A read of mapper offset 6 returns the computed 0x7FF6
    /// value; DUART reads may consume state (mode pointer, received byte).
    pub fn read(&mut self, addr: u16) -> (r: u8)
        requires
            old(self).wf(),
        ensures
            final(self).wf(),
            final(self).sram@ == old(self).sram@,
            final(self).vram@ == old(self).vram@,
            final(self).mapper.mapper@ == old(self).mapper.mapper@,
            final(self).mapper.mapper2@ == old(self).mapper.mapper2@,
            final(self).peripheral@ == old(self).peripheral@,
            final(self).bank == old(self).bank,
            final(self).sync.hz_70 == old(self).sync.hz_70,
            final(self).sync.sync_gen == old(self).sync.sync_gen,
            final(self).nvr@ == old(self).nvr@,
            ({
                let (t, off) = spec_target(old(self).mapper.mapper@[3], old(self).mapper.mapper@[5], addr);
                match t {
                    MemoryTarget::Mapper => final(self).duart@ == old(self).duart@ && r == (if off == 6 {
                        spec_7ff6(old(self).mapper.mapper@[3], old(self).mapper.mapper@[4], old(self).vram@)
                    } else {
                        old(self).mapper.mapper@[off as int]
                    }),
                    MemoryTarget::DUART => (final(self).duart@, r) == spec_read(
                        old(self).duart@,
                        spec_read_register(off as u8),
                    ),
                    MemoryTarget::Peripheral => final(self).duart@ == old(self).duart@ && r
                        == old(self).peripheral@[off as int],
                    MemoryTarget::VRAM => final(self).duart@ == old(self).duart@ && r
                        == old(self).vram@[off as int],
                    MemoryTarget::SRAM => final(self).duart@ == old(self).duart@ && r
                        == old(self).sram@[off as int],
                }
            }),
    {
        let (target, offset) = self.target_for_addr(addr);
        match target {
            MemoryTarget::Mapper => {
                if offset == 6 {
                    self.mapper.read_7ff6(self.vram.as_slice())
                } else {
                    self.mapper.get(offset as u8)
                }
            },
            MemoryTarget::DUART => {
                let register = match ReadRegister::from_offset(offset as u8) {
                    Ok(r) => r,
                    Err(_) => ReadRegister::StopCounterCommand,
                };
                self.duart.read(register)
            },
            MemoryTarget::Peripheral => self.peripheral[offset as usize],
            MemoryTarget::VRAM => self.vram[offset as usize],
            MemoryTarget::SRAM => self.sram[offset as usize],
        }
    }

    /// An xdata write. Mapper writes also switch the ROM bank (mapper[5]
    /// bit 2) and the sync preset (mapper[4] bit 4).
    pub fn write(&mut self, addr: u16, value: u8)
        requires
            old(self).wf(),
        ensures
            final(self).wf(),
            final(self).nvr@ == old(self).nvr@,
            final(self).sync.hz_70 == old(self).sync.hz_70 ==> final(self).sync.sync_gen
                == old(self).sync.sync_gen,
            final(self).sync.hz_70 != old(self).sync.hz_70 ==> final(self).sync.sync_gen.x == 0
                && final(self).sync.sync_gen.y == 0,
            ({
                let (t, off) = spec_target(old(self).mapper.mapper@[3], old(self).mapper.mapper@[5], addr);
                &&& t == MemoryTarget::Mapper ==> {
                    &&& final(self).mapper.mapper@ == old(self).mapper.mapper@.update(off as int, value)
                    &&& final(self).mapper.mapper2@ == old(self).mapper.mapper2@.update(
                        off as int,
                        old(self).mapper.mapper@[off as int],
                    )
                    &&& final(self).bank.bank == (if off == 5 {
                        value & 0x04 != 0
                    } else {
                        old(self).bank.bank
                    })
                    &&& final(self).sync.hz_70 == (if off == 4 {
                        value & 0x10 != 0
                    } else {
                        old(self).sync.hz_70
                    })
                }
                &&& t != MemoryTarget::Mapper ==> final(self).mapper.mapper@ == old(self).mapper.mapper@
                    && final(self).mapper.mapper2@ == old(self).mapper.mapper2@
                    && final(self).bank == old(self).bank && final(self).sync.hz_70
                    == old(self).sync.hz_70
                &&& final(self).duart@ == (if t == MemoryTarget::DUART {
                    spec_write(old(self).duart@, spec_write_register(off as u8), value)
                } else {
                    old(self).duart@
                })
                &&& final(self).peripheral@ == (if t == MemoryTarget::Peripheral {
                    old(self).peripheral@.update(off as int, value)
                } else {
                    old(self).peripheral@
                })
                &&& final(self).vram@ == (if t == MemoryTarget::VRAM {
                    old(self).vram@.update(off as int, value)
                } else {
                    old(self).vram@
                })
                &&& final(self).sram@ == (if t == MemoryTarget::SRAM {
                    old(self).sram@.update(off as int, value)
                } else {
                    old(self).sram@
                })
            }),
    {
        let (target, offset) = self.target_for_addr(addr);
        match target {
            MemoryTarget::Mapper => {
                if offset == 5 {
                    self.bank.bank = value & 0x04 != 0;
                }
                if offset == 4 {
                    self.sync.set_hz_70(value & 0x10 != 0);
                }
                self.mapper.set(offset as u8, value);
            },
            MemoryTarget::DUART => {
                let register = match WriteRegister::from_offset(offset as u8) {
                    Ok(r) => r,
                    Err(_) => WriteRegister::ResetOutputPortBitsCommand,
                };
                self.duart.write(register, value);
            },
            MemoryTarget::Peripheral => {
                self.peripheral[offset as usize] = value;
            },
            MemoryTarget::VRAM => {
                self.vram.set(offset as usize, value);
            },
            MemoryTarget::SRAM => {
                self.sram.set(offset as usize, value);
            },
        }
    }

    /// One machine step of the bus devices: drive the NVRAM from the DUART's
    /// output bits (CS bit 4, SK bit 5, DI bit 6, each active low), feed its
    /// DO and READY back to DUART inputs 3 and 4, then tick the DUART.
    /// Returns what the DUART did on its host links.
    pub fn tick(&mut self) -> (io: (ChannelIo, ChannelIo))
        requires
            old(self).wf(),
        ensures
            final(self).wf(),
            bus_ticked(old(self), final(self), io),
            final(self).peripheral@ == old(self).peripheral@,
            final(self).sram@ == old(self).sram@,
            final(self).vram@ == old(self).vram@,
            final(self).mapper.mapper@ == old(self).mapper.mapper@,
            final(self).mapper.mapper2@ == old(self).mapper.mapper2@,
            final(self).bank == old(self).bank,
            final(self).sync.hz_70 == old(self).sync.hz_70,
            final(self).sync.sync_gen == old(self).sync.sync_gen,
    {
        let o = self.duart.output_bits_inv;
        let (do_line, ready) = self.nvr.tick(o & 0x10 == 0, o & 0x20 == 0, o & 0x40 == 0);
        self.duart.input_bits = (self.duart.input_bits & !0x18u8) | (if ready {
            0x10u8
        } else {
            0
        }) | (if do_line {
            0x08u8
        } else {
            0
        });
        self.duart.tick()
    }
}

} // verus!

verus! {

/// A bank-switch thunk found in the ROM (`74 id 02 00 xx`): where it is, and
/// where in the other bank it lands.
#[derive(Clone, Copy, Debug, PartialEq, Eq, Structural)]
pub struct BankDispatch {
    pub id: u8,
    pub dispatch_addr: u32,
    pub target_addr: u32,
}

/// Bytes searched for thunks at the start of each bank.
pub const BANK_SEARCH_LENGTH: usize = 0x250;

/// Thunks found at positions `p` onwards of the bank at `off`, jumping into
/// the bank at `other`: a thunk with id `a` lands at the little-endian
/// address stored at 0x100 + 2a in the other bank.
pub open spec fn dispatches_from(rom: Seq<u8>, off: int, other: int, p: int) -> Seq<BankDispatch>
    decreases BANK_SEARCH_LENGTH - 4 - p,
{
    if p >= BANK_SEARCH_LENGTH - 4 {
        seq![]
    } else {
        let rest = dispatches_from(rom, off, other, p + 1);
        if rom[off + p] == 0x74 && rom[off + p + 2] == 0x02 && rom[off + p + 3] == 0x00 {
            let a = rom[off + p + 1];
            let target = other + 0x100 + 2 * a;
            let addr = rom[target + 1] * 256 + rom[target];
            seq![BankDispatch { id: a, dispatch_addr: (off + p) as u32, target_addr: (addr + other) as u32 }]
                + rest
        } else {
            rest
        }
    }
}

/// The firmware image, read in 64 KiB banks.
pub struct ROM {
    rom: Vec<u8>,
    rom_bank: bool,
}

impl ROM {
    pub closed spec fn image(&self) -> Seq<u8> {
        self.rom@
    }

    pub closed spec fn bank_bit(&self) -> bool {
        self.rom_bank
    }

    /// The image, with bank 0 selected.
    pub fn new(rom: Vec<u8>) -> (r: ROM)
        ensures
            r.image() == rom@,
            !r.bank_bit(),
    {
        ROM { rom, rom_bank: false }
    }

    /// Bank `bank` of the image: 64 KiB from `bank * BANK_SIZE`, or what is
    /// left of the image.
    pub open spec fn bank_image(&self, bank: int) -> Seq<u8> {
        self.image().subrange(
            bank * BANK_SIZE,
            if (bank + 1) * BANK_SIZE < self.image().len() {
                (bank + 1) * BANK_SIZE
            } else {
                self.image().len() as int
            },
        )
    }

    /// The bank starting at `bank * BANK_SIZE` (the last one may be short).
    pub fn bank(&self, bank: usize) -> (r: Vec<u8>)
        requires
            bank < self.num_banks_spec(),
        ensures
            r@ == self.bank_image(bank as int),
    {
        let len = self.rom.len();
        proof {
            let n = len as int;
            let b = bank as int;
            assert(b * 0x10000 < n) by (nonlinear_arith)
                requires
                    b < (n + 0x10000 - 1) / 0x10000,
                    n >= 0,
            ;
        }
        let start = bank * BANK_SIZE;
        let end = if self.rom.len() - start > BANK_SIZE {
            start + BANK_SIZE
        } else {
            self.rom.len()
        };
        let mut out: Vec<u8> = Vec::new();
        let mut i = start;
        while i < end
            invariant
                start <= i <= end <= self.rom@.len(),
                out@ == self.rom@.subrange(start as int, i as int),
            decreases end - i,
        {
            out.push(self.rom[i]);
            i = i + 1;
            assert(out@ =~= self.rom@.subrange(start as int, i as int));
        }
        out
    }

    /// All banks, in order.
    pub fn banks(&self) -> (r: Vec<Vec<u8>>)
        ensures
            r@.len() == self.num_banks_spec(),
            forall|b: int| 0 <= b < r@.len() ==> #[trigger] r@[b]@ == self.bank_image(b),
    {
        let n = self.num_banks();
        let mut out: Vec<Vec<u8>> = Vec::new();
        let mut b: usize = 0;
        while b < n
            invariant
                b <= n == self.num_banks_spec(),
                out@.len() == b,
                forall|k: int| 0 <= k < b ==> #[trigger] out@[k]@ == self.bank_image(k),
            decreases n - b,
        {
            out.push(self.bank(b));
            b = b + 1;
        }
        out
    }

    /// The bank-switch thunks in the first 0x250 bytes of banks 0 and 1, bank
    /// 0's first. The image must hold bank 0 whole and the first 0x300 bytes
    /// of bank 1, so that every target table entry (at 0x100 + 2 * id, id up
    /// to 0xFF) lies inside the other bank; a firmware image of whole 64 KiB
    /// banks always does.
    pub fn find_bank_dispatch(&self) -> (r: Vec<BankDispatch>)
        requires
            self.image().len() >= BANK_SIZE + 0x300,
        ensures
            r@ == dispatches_from(self.image(), 0, BANK_SIZE as int, 0) + dispatches_from(
                self.image(),
                BANK_SIZE as int,
                0,
                0,
            ),
    {
        let mut out: Vec<BankDispatch> = Vec::new();
        self.scan_bank(&mut out, 0, BANK_SIZE);
        self.scan_bank(&mut out, BANK_SIZE, 0);
        assert(out@ =~= dispatches_from(self.rom@, 0, BANK_SIZE as int, 0) + dispatches_from(
            self.rom@,
            BANK_SIZE as int,
            0,
            0,
        ));
        out
    }

    fn scan_bank(&self, out: &mut Vec<BankDispatch>, off: usize, other: usize)
        requires
            self.rom@.len() >= BANK_SIZE + 0x300,
            off == 0 || off == BANK_SIZE,
            other == 0 || other == BANK_SIZE,
        ensures
            final(out)@ == old(out)@ + dispatches_from(self.rom@, off as int, other as int, 0),
    {
        let ghost start = out@;
        let mut p: usize = 0;
        while p < BANK_SEARCH_LENGTH - 4
            invariant
                p <= BANK_SEARCH_LENGTH - 4,
                self.rom@.len() >= BANK_SIZE + 0x300,
                off == 0 || off == BANK_SIZE,
                other == 0 || other == BANK_SIZE,
                out@ + dispatches_from(self.rom@, off as int, other as int, p as int) =~= start
                    + dispatches_from(self.rom@, off as int, other as int, 0),
            decreases BANK_SEARCH_LENGTH - 4 - p,
        {
            let q = off + p;
            if self.rom[q] == 0x74 && self.rom[q + 2] == 0x02 && self.rom[q + 3] == 0x00 {
                let a = self.rom[q + 1];
                let target = other + 0x100 + 2 * (a as usize);
                let addr = self.rom[target + 1] as u32 * 256 + self.rom[target] as u32;
                let d = BankDispatch { id: a, dispatch_addr: q as u32, target_addr: addr + other as u32 };
                let ghost prev = out@;
                out.push(d);
                assert(out@ =~= prev + seq![d]);
            }
            p = p + 1;
        }
    }

    /// A code fetch at the 17-bit address `addr`; 0xFF past the image.
    pub fn read_code(&self, addr: u32) -> (r: u8)
        ensures
            r == (if addr < self.image().len() { self.image()[addr as int] } else { 0xffu8 }),
    {
        if addr as usize >= self.rom.len() {
            0xff
        } else {
            self.rom[addr as usize]
        }
    }

    /// A read of `addr` in the selected bank; 0xFF past the image.
    pub fn read(&self, addr: u16) -> (r: u8)
        ensures
            ({
                let a = (if self.bank_bit() { BANK_SIZE as int } else { 0 }) + addr;
                r == (if a < self.image().len() { self.image()[a] } else { 0xffu8 })
            }),
    {
        let base: usize = if self.rom_bank {
            BANK_SIZE
        } else {
            0
        };
        let a = base + addr as usize;
        if a < self.rom.len() {
            self.rom[a]
        } else {
            0xff
        }
    }

    /// Image size in bytes.
    pub fn len(&self) -> (r: usize)
        ensures
            r == self.image().len(),
    {
        self.rom.len()
    }

    pub fn rom_size(&self) -> (r: usize)
        ensures
            r == self.image().len(),
    {
        self.rom.len()
    }

    /// The selected bank, 0 or 1.
    pub fn rom_bank(&self) -> (r: u8)
        ensures
            r == (if self.bank_bit() { 1u8 } else { 0u8 }),
    {
        if self.rom_bank {
            1
        } else {
            0
        }
    }

    /// Select bank 0 or 1; other values change nothing.
    pub fn set_rom_bank(&mut self, bank: u8)
        ensures
            final(self).image() == old(self).image(),
            final(self).bank_bit() == (if bank <= 1 { bank == 1 } else { old(self).bank_bit() }),
    {
        if bank <= 1 {
            self.rom_bank = bank == 1;
        }
    }

    pub fn bank_size(&self) -> (r: usize)
        ensures
            r == BANK_SIZE,
    {
        BANK_SIZE
    }

    pub open spec fn num_banks_spec(&self) -> int {
        (self.image().len() + BANK_SIZE - 1) / BANK_SIZE as int
    }

    /// Number of banks, counting a short last one.
    pub fn num_banks(&self) -> (r: usize)
        ensures
            r == self.num_banks_spec(),
    {
        let n = self.rom.len();
        n / BANK_SIZE + if n % BANK_SIZE != 0 {
            1
        } else {
            0
        }
    }

    pub fn switch_to_lower_bank(&mut self)
        ensures
            final(self).image() == old(self).image(),
            !final(self).bank_bit(),
    {
        self.rom_bank = false;
    }

    pub fn switch_to_upper_bank(&mut self)
        ensures
            final(self).image() == old(self).image(),
            final(self).bank_bit(),
    {
        self.rom_bank = true;
    }
}

} // verus!
