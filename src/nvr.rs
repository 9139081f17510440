//! A 3-wire serial NVRAM (93C46-style, 128 x 8) driven bit by bit through
//! chip select (CS), serial clock (SK) and data in (DI), answering on data out
//! (DO) and a ready line.
use vstd::prelude::*;

verus! {

/// The serial protocol state.
#[derive(Clone, Copy, Debug, PartialEq, Eq, Structural)]
pub enum NvrState {
    Idle,
    /// Shifting in a command: `bits` clocked so far into `shift`.
    ShiftCmd { bits: u8, shift: u16 },
    /// Clocking out the byte `data` of `addr`; `bit_pos` 0 is a leading zero,
    /// 1 to 8 the data bits from the most significant.
    ReadOut { addr: u8, bit_pos: u8, data: u8 },
    /// Shifting in a data byte for `addr`.
    WriteData { addr: u8, bits: u8, data: u8 },
    /// An internal write cycle, `countdown` SK falling edges from its end.
    Busy { countdown: u8 },
}

/// The NVRAM. `write_count` grows with each completed write or erase.
pub struct Nvr {
    pub mem: [u8; 128],
    pub write_count: usize,
    pub state: NvrState,
    pub w_enable: bool,
    pub last_cs: bool,
    pub last_sk: bool,
    pub do_line: bool,
}

/// The NVRAM as a value: its memory as a sequence of bytes.
pub struct NvrModel {
    pub mem: Seq<u8>,
    pub write_count: usize,
    pub state: NvrState,
    pub w_enable: bool,
    pub last_cs: bool,
    pub last_sk: bool,
    pub do_line: bool,
}

impl View for Nvr {
    type V = NvrModel;

    open spec fn view(&self) -> NvrModel {
        NvrModel {
            mem: self.mem@,
            write_count: self.write_count,
            state: self.state,
            w_enable: self.w_enable,
            last_cs: self.last_cs,
            last_sk: self.last_sk,
            do_line: self.do_line,
        }
    }
}

/// Counters and addresses of a state lie in range.
pub open spec fn state_wf(s: NvrState) -> bool {
    match s {
        NvrState::Idle => true,
        NvrState::ShiftCmd { bits, shift } => bits < 13 && shift < 0x2000,
        NvrState::ReadOut { addr, bit_pos, data } => addr < 128 && bit_pos <= 8,
        NvrState::WriteData { addr, bits, data } => addr < 128 && bits < 8,
        NvrState::Busy { countdown } => true,
    }
}

impl NvrModel {
    pub open spec fn wf(self) -> bool {
        self.mem.len() == 128 && state_wf(self.state)
    }

    /// False while an internal write cycle runs.
    pub open spec fn ready(self) -> bool {
        !(self.state is Busy)
    }
}

pub open spec fn bump(c: usize) -> usize {
    if c < usize::MAX {
        (c + 1) as usize
    } else {
        c
    }
}

/// Bit `k` of `data`.
pub open spec fn bit_of(data: u8, k: u8) -> bool {
    (data >> k) & 1 != 0
}

/// Act on a complete 13-bit command: the first bit clocked in is ignored,
/// then a start bit (which must be 1), a 4-bit opcode and a 7-bit address.
pub open spec fn spec_decode(m: NvrModel, cmd: u16) -> NvrModel {
    let start = cmd / 2048 % 2;
    let op = cmd / 128 % 16;
    let addr = (cmd % 128) as u8;
    if start == 0 {
        NvrModel { state: NvrState::Idle, ..m }
    } else if op == 8 {
        NvrModel {
            state: NvrState::ReadOut { addr, bit_pos: 0, data: m.mem[addr as int] },
            do_line: false,
            ..m
        }
    } else if op == 4 || op == 12 {
        NvrModel {
            state: if m.w_enable {
                NvrState::WriteData { addr, bits: 0, data: 0 }
            } else {
                NvrState::Idle
            },
            ..m
        }
    } else if op == 3 {
        NvrModel { state: NvrState::Idle, w_enable: true, ..m }
    } else if op == 2 {
        NvrModel { state: NvrState::Idle, w_enable: false, ..m }
    } else if op == 1 && m.w_enable {
        NvrModel {
            mem: Seq::new(128, |i: int| 0xffu8),
            write_count: bump(m.write_count),
            state: NvrState::Busy { countdown: 2 },
            do_line: true,
            ..m
        }
    } else {
        NvrModel { state: NvrState::Idle, ..m }
    }
}

/// SK rising edge: sample DI.
pub open spec fn spec_sk_rise(m: NvrModel, di: bool) -> NvrModel {
    let d: int = if di { 1 } else { 0 };
    match m.state {
        NvrState::ShiftCmd { bits, shift } => {
            let shift2 = ((shift * 2 + d) % 0x2000) as u16;
            if bits + 1 == 13 {
                spec_decode(m, shift2)
            } else {
                NvrModel { state: NvrState::ShiftCmd { bits: (bits + 1) as u8, shift: shift2 }, ..m }
            }
        },
        NvrState::WriteData { addr, bits, data } => {
            let data2 = ((data * 2 + d) % 256) as u8;
            if bits + 1 == 8 {
                NvrModel {
                    mem: if m.w_enable {
                        m.mem.update(addr as int, data2)
                    } else {
                        m.mem
                    },
                    write_count: bump(m.write_count),
                    state: NvrState::Busy { countdown: 2 },
                    do_line: true,
                    ..m
                }
            } else {
                NvrModel {
                    state: NvrState::WriteData { addr, bits: (bits + 1) as u8, data: data2 },
                    ..m
                }
            }
        },
        _ => m,
    }
}

/// SK falling edge: clock out the next read bit, or count down a write cycle.
pub open spec fn spec_sk_fall(m: NvrModel) -> NvrModel {
    match m.state {
        NvrState::ReadOut { addr, bit_pos, data } => {
            let bit = bit_pos != 0 && bit_of(data, (8 - bit_pos) as u8);
            if bit_pos + 1 > 8 {
                let next = ((addr + 1) % 128) as u8;
                NvrModel {
                    state: NvrState::ReadOut { addr: next, bit_pos: 0, data: m.mem[next as int] },
                    do_line: bit,
                    ..m
                }
            } else {
                NvrModel {
                    state: NvrState::ReadOut { addr, bit_pos: (bit_pos + 1) as u8, data },
                    do_line: bit,
                    ..m
                }
            }
        },
        NvrState::Busy { countdown } => {
            if countdown == 0 {
                m
            } else if countdown == 1 {
                NvrModel { state: NvrState::Idle, do_line: false, ..m }
            } else {
                NvrModel { state: NvrState::Busy { countdown: (countdown - 1) as u8 }, ..m }
            }
        },
        _ => m,
    }
}

/// One sample of the three lines. CS low deselects and resets; a CS rising
/// edge starts a command; SK edges then shift bits in or out.
pub open spec fn spec_tick(m: NvrModel, cs: bool, sk: bool, di: bool) -> NvrModel {
    if !cs {
        NvrModel { state: NvrState::Idle, do_line: false, last_cs: cs, last_sk: sk, ..m }
    } else {
        let m1 = if !m.last_cs {
            NvrModel { state: NvrState::ShiftCmd { bits: 0, shift: 0 }, do_line: false, ..m }
        } else {
            m
        };
        let m2 = if sk && !m.last_sk {
            spec_sk_rise(m1, di)
        } else {
            m1
        };
        let m3 = if !sk && m.last_sk {
            spec_sk_fall(m2)
        } else {
            m2
        };
        NvrModel { last_cs: cs, last_sk: sk, ..m3 }
    }
}

impl Nvr {
    pub open spec fn wf(&self) -> bool {
        self@.wf()
    }

    /// A blank, idle, write-protected part.
    pub fn new() -> (r: Nvr)
        ensures
            r.wf(),
            r@.mem == Seq::new(128, |i: int| 0u8),
            r.write_count == 0,
            r.state == NvrState::Idle,
            !r.w_enable,
            !r.last_cs,
            !r.last_sk,
            !r.do_line,
    {
        let r = Nvr {
            mem: [0; 128],
            write_count: 0,
            state: NvrState::Idle,
            w_enable: false,
            last_cs: false,
            last_sk: false,
            do_line: false,
        };
        assert(r@.mem =~= Seq::new(128, |i: int| 0u8));
        r
    }

    fn decode_command(&mut self, cmd: u16)
        requires
            old(self).wf(),
            cmd < 0x2000,
        ensures
            final(self)@ == spec_decode(old(self)@, cmd),
            final(self).wf(),
    {
        let start = cmd / 2048 % 2;
        let op = cmd / 128 % 16;
        let addr = (cmd % 128) as u8;
        if start == 0 {
            self.state = NvrState::Idle;
            return;
        }
        if op == 8 {
            let data = self.mem[addr as usize];
            self.state = NvrState::ReadOut { addr, bit_pos: 0, data };
            self.do_line = false;
        } else if op == 4 || op == 12 {
            if self.w_enable {
                self.state = NvrState::WriteData { addr, bits: 0, data: 0 };
            } else {
                self.state = NvrState::Idle;
            }
        } else if op == 3 {
            self.w_enable = true;
            self.state = NvrState::Idle;
        } else if op == 2 {
            self.w_enable = false;
            self.state = NvrState::Idle;
        } else if op == 1 && self.w_enable {
            self.mem = [0xff; 128];
            assert(self.mem@ =~= Seq::new(128, |i: int| 0xffu8));
            if self.write_count < usize::MAX {
                self.write_count = self.write_count + 1;
            }
            self.state = NvrState::Busy { countdown: 2 };
            self.do_line = true;
        } else {
            self.state = NvrState::Idle;
        }
    }

    fn sk_rise(&mut self, di: bool)
        requires
            old(self).wf(),
        ensures
            final(self)@ == spec_sk_rise(old(self)@, di),
            final(self).wf(),
    {
        let d: u16 = if di {
            1
        } else {
            0
        };
        match self.state {
            NvrState::ShiftCmd { bits, shift } => {
                let shift2 = (shift * 2 + d) % 0x2000;
                if bits + 1 == 13 {
                    self.decode_command(shift2);
                } else {
                    self.state = NvrState::ShiftCmd { bits: bits + 1, shift: shift2 };
                }
            },
            NvrState::WriteData { addr, bits, data } => {
                let data2 = ((data as u16 * 2 + d) % 256) as u8;
                if bits + 1 == 8 {
                    if self.write_count < usize::MAX {
                        self.write_count = self.write_count + 1;
                    }
                    if self.w_enable {
                        self.mem[addr as usize] = data2;
                    }
                    self.state = NvrState::Busy { countdown: 2 };
                    self.do_line = true;
                } else {
                    self.state = NvrState::WriteData { addr, bits: bits + 1, data: data2 };
                }
            },
            _ => {},
        }
    }

    fn sk_fall(&mut self)
        requires
            old(self).wf(),
        ensures
            final(self)@ == spec_sk_fall(old(self)@),
            final(self).wf(),
    {
        match self.state {
            NvrState::ReadOut { addr, bit_pos, data } => {
                let bit = bit_pos != 0 && (data >> (8 - bit_pos)) & 1 != 0;
                self.do_line = bit;
                if bit_pos + 1 > 8 {
                    let next = (addr + 1) % 128;
                    let data = self.mem[next as usize];
                    self.state = NvrState::ReadOut { addr: next, bit_pos: 0, data };
                } else {
                    self.state = NvrState::ReadOut { addr, bit_pos: bit_pos + 1, data };
                }
            },
            NvrState::Busy { countdown } => {
                if countdown == 1 {
                    self.state = NvrState::Idle;
                    self.do_line = false;
                } else if countdown > 1 {
                    self.state = NvrState::Busy { countdown: countdown - 1 };
                }
            },
            _ => {},
        }
    }

    /// Sample chip select `cs`, serial clock `sk` and data in `di`; return
    /// what the part drives on DO and whether it is ready (not inside a
    /// write cycle).
    pub fn tick(&mut self, cs: bool, sk: bool, di: bool) -> (r: (bool, bool))
        requires
            old(self).wf(),
        ensures
            final(self).wf(),
            final(self)@ == spec_tick(old(self)@, cs, sk, di),
            r == (final(self).do_line, final(self)@.ready()),
    {
        if !cs {
            self.state = NvrState::Idle;
            self.do_line = false;
            self.last_cs = cs;
            self.last_sk = sk;
            return (false, true);
        }
        if !self.last_cs {
            self.state = NvrState::ShiftCmd { bits: 0, shift: 0 };
            self.do_line = false;
        }
        let rise = sk && !self.last_sk;
        let fall = !sk && self.last_sk;
        if rise {
            self.sk_rise(di);
        }
        if fall {
            self.sk_fall();
        }
        self.last_cs = cs;
        self.last_sk = sk;
        let ready = match self.state {
            NvrState::Busy { .. } => false,
            _ => true,
        };
        (self.do_line, ready)
    }
}

/// Deselect the part, then select it: ready for a command.
pub open spec fn select(m: NvrModel) -> NvrModel {
    spec_tick(spec_tick(m, false, false, false), true, false, false)
}

/// One clock with chip select held: SK low, then SK high, with DI = `b`.
pub open spec fn clock_bit(m: NvrModel, b: bool) -> NvrModel {
    spec_tick(spec_tick(m, true, false, b), true, true, b)
}

/// Clock in `bits`, first bit first.
pub open spec fn clock_bits(m: NvrModel, bits: Seq<bool>) -> NvrModel
    decreases bits.len(),
{
    if bits.len() == 0 {
        m
    } else {
        clock_bits(clock_bit(m, bits[0]), bits.drop_first())
    }
}

/// The `n` low bits of `w`, most significant first.
pub open spec fn word_bits(w: u16, n: nat) -> Seq<bool> {
    Seq::new(n, |i: int| (w >> ((n - 1 - i) as u16)) & 1 == 1)
}

/// The `n` low bits of `v`, most significant first.
pub open spec fn msb_bits(v: u8, n: nat) -> Seq<bool> {
    Seq::new(n, |i: int| bit_of(v, (n - 1 - i) as u8))
}

/// The 13-bit word of a command: a leading zero, the start bit, a 4-bit
/// opcode and a 7-bit address.
pub open spec fn command_word(op: u8, addr: u8) -> u16 {
    (2048 + op * 128 + addr) as u16
}

pub open spec fn command_bits(op: u8, addr: u8) -> Seq<bool> {
    word_bits(command_word(op, addr), 13)
}

pub const OP_READ: u8 = 0b1000;

pub const OP_WRITE: u8 = 0b0100;

pub const OP_WRITE_ENABLE: u8 = 0b0011;

/// Select the part and clock in a command.
pub open spec fn send_command(m: NvrModel, op: u8, addr: u8) -> NvrModel {
    clock_bits(select(m), command_bits(op, addr))
}

/// Clock SK down, up and down again with chip select held: enough for a
/// write cycle to end.
pub open spec fn wait_ready(m: NvrModel) -> NvrModel {
    spec_tick(spec_tick(spec_tick(m, true, false, false), true, true, false), true, false, false)
}

/// Clock out `n` bits: for each, SK falls (the part drives DO) and rises.
/// Returns the DO levels and the final state.
pub open spec fn read_bits(m: NvrModel, n: nat) -> (Seq<bool>, NvrModel)
    decreases n,
{
    if n == 0 {
        (seq![], m)
    } else {
        let m1 = spec_tick(m, true, false, false);
        let r = read_bits(spec_tick(m1, true, true, false), (n - 1) as nat);
        (seq![m1.do_line] + r.0, r.1)
    }
}

#[verifier::spinoff_prover]
#[verifier::rlimit(80)]
proof fn lemma_shift_command(m: NvrModel, k: int, w: u16)
    requires
        m.wf(),
        m.last_cs,
        w < 0x2000,
        0 <= k < 13,
        m.state == (NvrState::ShiftCmd { bits: k as u8, shift: w >> ((13 - k) as u16) }),
    ensures
        clock_bits(m, word_bits(w, 13).subrange(k, 13)) == (NvrModel {
            last_cs: true,
            last_sk: true,
            ..spec_decode(m, w)
        }),
    decreases 13 - k,
{
    let bits = word_bits(w, 13).subrange(k, 13);
    let sh = (13 - k) as u16;
    let sh1 = (12 - k) as u16;
    let b = (w >> sh1) & 1;
    assert(bits[0] == (b == 1));
    assert((w >> sh) * 2 + b == w >> sh1 && w >> sh1 < 0x2000 && b <= 1) by (bit_vector)
        requires
            w < 0x2000,
            sh1 < 13,
            sh == sh1 + 1,
            b == (w >> sh1) & 1,
    ;
    let m1 = NvrModel { last_cs: true, last_sk: false, ..m };
    assert(spec_tick(m, true, false, bits[0]) == m1);
    if k < 12 {
        let m2 = NvrModel {
            state: NvrState::ShiftCmd { bits: (k + 1) as u8, shift: w >> sh1 },
            last_cs: true,
            last_sk: true,
            ..m
        };
        assert(clock_bit(m, bits[0]) == m2);
        assert(bits.drop_first() =~= word_bits(w, 13).subrange(k + 1, 13));
        lemma_shift_command(m2, k + 1, w);
    } else {
        assert(w >> sh1 == w) by (bit_vector)
            requires
                sh1 == 0,
        ;
        assert(bits.drop_first().len() == 0);
        assert(clock_bits(clock_bit(m, bits[0]), bits.drop_first()) == clock_bit(m, bits[0]));
    }
}

#[verifier::spinoff_prover]
#[verifier::rlimit(80)]
proof fn lemma_shift_data(m: NvrModel, addr: u8, k: int, d: u8)
    requires
        m.wf(),
        m.last_cs,
        0 <= k < 8,
        addr < 128,
        m.state == (NvrState::WriteData { addr, bits: k as u8, data: ((d as u16) >> ((8 - k) as u16)) as u8 }),
    ensures
        clock_bits(m, msb_bits(d, 8).subrange(k, 8)) == (NvrModel {
            mem: if m.w_enable {
                m.mem.update(addr as int, d)
            } else {
                m.mem
            },
            write_count: bump(m.write_count),
            state: NvrState::Busy { countdown: 2 },
            do_line: true,
            last_cs: true,
            last_sk: true,
            ..m
        }),
    decreases 8 - k,
{
    let bits = msb_bits(d, 8).subrange(k, 8);
    let dw = d as u16;
    let sh = (8 - k) as u16;
    let sh1 = (7 - k) as u16;
    let b = (dw >> sh1) & 1;
    let kk = (7 - k) as u8;
    assert(bits[0] == (b == 1)) by {
        assert(bits[0] == bit_of(d, kk));
        assert(((d >> kk) & 1 != 0) == ((dw >> sh1) & 1 == 1)) by (bit_vector)
            requires
                dw == d as u16,
                sh1 == kk as u16,
                kk < 8,
        ;
    }
    assert((dw >> sh) * 2 + b == dw >> sh1 && dw >> sh1 < 256 && b <= 1) by (bit_vector)
        requires
            dw < 256,
            sh1 < 8,
            sh == sh1 + 1,
            b == (dw >> sh1) & 1,
    ;
    let m1 = NvrModel { last_cs: true, last_sk: false, ..m };
    assert(spec_tick(m, true, false, bits[0]) == m1);
    if k < 7 {
        let m2 = NvrModel {
            state: NvrState::WriteData { addr, bits: (k + 1) as u8, data: (dw >> sh1) as u8 },
            last_cs: true,
            last_sk: true,
            ..m
        };
        assert(clock_bit(m, bits[0]) == m2);
        assert(bits.drop_first() =~= msb_bits(d, 8).subrange(k + 1, 8));
        lemma_shift_data(m2, addr, k + 1, d);
    } else {
        assert(dw >> sh1 == dw) by (bit_vector)
            requires
                sh1 == 0,
        ;
        assert(bits.drop_first().len() == 0);
        assert(clock_bits(clock_bit(m, bits[0]), bits.drop_first()) == clock_bit(m, bits[0]));
    }
}

proof fn lemma_read_bits(m: NvrModel, j: int, addr: u8, data: u8)
    requires
        m.wf(),
        m.last_cs,
        m.last_sk,
        addr < 128,
        0 <= j <= 8,
        m.state == (NvrState::ReadOut { addr, bit_pos: j as u8, data }),
    ensures
        read_bits(m, (9 - j) as nat).0 == Seq::new(
            (9 - j) as nat,
            |i: int| (i + j) != 0 && bit_of(data, (8 - (i + j)) as u8),
        ),
        read_bits(m, (9 - j) as nat).1.state == (NvrState::ReadOut {
            addr: ((addr + 1) % 128) as u8,
            bit_pos: 0,
            data: m.mem[(addr + 1) % 128],
        }),
        read_bits(m, (9 - j) as nat).1.mem == m.mem,
        read_bits(m, (9 - j) as nat).1.wf(),
        read_bits(m, (9 - j) as nat).1.last_cs,
        read_bits(m, (9 - j) as nat).1.last_sk,
    decreases 9 - j,
{
    let m1 = spec_tick(m, true, false, false);
    let m2 = spec_tick(m1, true, true, false);
    if j < 8 {
        lemma_read_bits(m2, j + 1, addr, data);
        assert((9 - j - 1) as nat == ((9 - j) as nat - 1) as nat);
        let r = read_bits(m2, (9 - j - 1) as nat);
        assert(read_bits(m, (9 - j) as nat).0 =~= seq![m1.do_line] + r.0);
        assert(read_bits(m, (9 - j) as nat).0 =~= Seq::new(
            (9 - j) as nat,
            |i: int| (i + j) != 0 && bit_of(data, (8 - (i + j)) as u8),
        ));
    } else {
        assert(read_bits(m2, 0).0 =~= Seq::<bool>::empty());
        assert(read_bits(m, 1).0 =~= seq![m1.do_line]);
    }
}

proof fn lemma_command_fields(op: u8, addr: u8)
    requires
        op < 16,
        addr < 128,
    ensures
        command_word(op, addr) < 0x2000,
        command_word(op, addr) / 2048 % 2 == 1,
        command_word(op, addr) / 128 % 16 == op,
        command_word(op, addr) % 128 == addr,
{
}

/// A command sent after selecting the part acts as `spec_decode` says.
proof fn lemma_send_command(m: NvrModel, op: u8, addr: u8)
    requires
        m.wf(),
        op < 16,
        addr < 128,
    ensures
        send_command(m, op, addr) == (NvrModel {
            last_cs: true,
            last_sk: true,
            ..spec_decode(
                NvrModel {
                    state: NvrState::ShiftCmd { bits: 0, shift: 0 },
                    do_line: false,
                    last_cs: true,
                    last_sk: false,
                    ..m
                },
                command_word(op, addr),
            )
        }),
{
    let w = command_word(op, addr);
    lemma_command_fields(op, addr);
    let m_sel = NvrModel { state: NvrState::ShiftCmd { bits: 0, shift: 0 }, do_line: false, last_cs: true, last_sk: false, ..m };
    assert(select(m) == m_sel);
    assert(w >> 13u16 == 0) by (bit_vector)
        requires
            w < 0x2000,
    ;
    assert(word_bits(w, 13).subrange(0, 13) =~= command_bits(op, addr));
    lemma_shift_command(m_sel, 0, w);
}

/// The bits a read clocks out for `k` words from `addr`: for each, a
/// leading zero and then the byte, most significant bit first; the address
/// wraps modulo 128.
pub open spec fn read_words(mem: Seq<u8>, addr: int, k: nat) -> Seq<bool>
    decreases k,
{
    if k == 0 {
        seq![]
    } else {
        seq![false] + msb_bits(mem[addr], 8) + read_words(mem, (addr + 1) % 128, (k - 1) as nat)
    }
}

proof fn lemma_read_bits_split(m: NvrModel, p: nat, q: nat)
    ensures
        read_bits(m, p + q) == ({
            let r1 = read_bits(m, p);
            let r2 = read_bits(r1.1, q);
            (r1.0 + r2.0, r2.1)
        }),
    decreases p,
{
    if p == 0 {
        assert(read_bits(m, q).0 =~= Seq::<bool>::empty() + read_bits(m, q).0);
    } else {
        let m1 = spec_tick(m, true, false, false);
        let m2 = spec_tick(m1, true, true, false);
        lemma_read_bits_split(m2, (p - 1) as nat, q);
        assert((p + q - 1) as nat == ((p - 1) as nat + q) as nat);
        let r1 = read_bits(m2, (p - 1) as nat);
        let r2 = read_bits(r1.1, q);
        assert(seq![m1.do_line] + (r1.0 + r2.0) =~= (seq![m1.do_line] + r1.0) + r2.0);
    }
}

/// Once a read has started at `addr`, holding chip select and clocking on
/// reads out word after word: `k` words of 9 clocks give `read_words`, and
/// the part is then ready to send the word `k` addresses on (modulo 128).
pub proof fn lemma_read_stream(m: NvrModel, addr: u8, k: nat)
    requires
        m.wf(),
        m.last_cs,
        m.last_sk,
        addr < 128,
        m.state == (NvrState::ReadOut { addr, bit_pos: 0, data: m.mem[addr as int] }),
    ensures
        read_bits(m, 9 * k).0 == read_words(m.mem, addr as int, k),
        read_bits(m, 9 * k).1.state == (NvrState::ReadOut {
            addr: ((addr + k) % 128) as u8,
            bit_pos: 0,
            data: m.mem[(addr + k) % 128],
        }),
        read_bits(m, 9 * k).1.mem == m.mem,
        read_bits(m, 9 * k).1.wf(),
        read_bits(m, 9 * k).1.last_cs,
        read_bits(m, 9 * k).1.last_sk,
    decreases k,
{
    if k == 0 {
        assert(addr % 128 == addr);
    } else {
        let data = m.mem[addr as int];
        lemma_read_bits(m, 0, addr, data);
        let w = read_bits(m, 9);
        assert(w.0 =~= seq![false] + msb_bits(data, 8));
        let next = ((addr + 1) % 128) as u8;
        lemma_read_stream(w.1, next, (k - 1) as nat);
        assert(9 * k == 9 + 9 * (k - 1) as nat);
        lemma_read_bits_split(m, 9, (9 * (k - 1)) as nat);
        assert((next + (k - 1)) % 128 == (addr + k) % 128) by (nonlinear_arith)
            requires
                next == (addr + 1) % 128,
                k >= 1,
        ;
    }
}

/// Write enable, a write of `d` to `addr`, the end of the write cycle, and
/// a read of `addr`: the read clocks out a zero and then `d`, most
/// significant bit first, and moves on to the next address (modulo 128).
#[verifier::spinoff_prover]
#[verifier::rlimit(80)]
pub proof fn lemma_write_then_read(m: NvrModel, wen_addr: u8, addr: u8, d: u8)
    requires
        m.wf(),
        wen_addr < 128,
        addr < 128,
    ensures
        ({
            let m1 = send_command(m, OP_WRITE_ENABLE, wen_addr);
            let m2 = clock_bits(send_command(m1, OP_WRITE, addr), msb_bits(d, 8));
            let m3 = wait_ready(m2);
            let m4 = send_command(m3, OP_READ, addr);
            let (out, m5) = read_bits(m4, 9);
            &&& m2.mem[addr as int] == d
            &&& m3.state == NvrState::Idle
            &&& out == seq![false] + msb_bits(d, 8)
            &&& m5.state == (NvrState::ReadOut {
                addr: ((addr + 1) % 128) as u8,
                bit_pos: 0,
                data: m2.mem[(addr + 1) % 128],
            })
        }),
{
    lemma_command_fields(OP_WRITE_ENABLE, wen_addr);
    lemma_send_command(m, OP_WRITE_ENABLE, wen_addr);
    let m1 = send_command(m, OP_WRITE_ENABLE, wen_addr);
    assert(m1.w_enable && m1.wf() && m1.state == NvrState::Idle);
    lemma_command_fields(OP_WRITE, addr);
    lemma_send_command(m1, OP_WRITE, addr);
    let mw = send_command(m1, OP_WRITE, addr);
    assert(mw.state == (NvrState::WriteData { addr, bits: 0, data: 0 }));
    assert((d as u16) >> 8u16 == 0) by (bit_vector);
    lemma_shift_data(mw, addr, 0, d);
    assert(msb_bits(d, 8).subrange(0, 8) =~= msb_bits(d, 8));
    let m2 = clock_bits(mw, msb_bits(d, 8));
    assert(m2.mem[addr as int] == d);
    let m3 = wait_ready(m2);
    assert(m3.state == NvrState::Idle);
    lemma_command_fields(OP_READ, addr);
    lemma_send_command(m3, OP_READ, addr);
    let m4 = send_command(m3, OP_READ, addr);
    assert(m4.state == (NvrState::ReadOut { addr, bit_pos: 0, data: d }));
    lemma_read_bits(m4, 0, addr, d);
    let out = read_bits(m4, 9).0;
    assert(out =~= seq![false] + msb_bits(d, 8));
}

} // verus!
