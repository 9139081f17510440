use std::sync::mpsc;

use vt_emulator::comm::{flow_control, CommConfig, FlowAction};
use vt_emulator::duart::{ChannelIo, ReadRegister, WriteRegister, DUART};
use vt_emulator::lk201::LK201;
use vt_emulator::machine::Board;
use vt_emulator::machine::{default_nvr_image, nvr_image_from_file, screen_text, NVR_SIZE};
use vt_emulator::memory::{swizzle_video_ram, MemoryTarget, VideoProcessor, RAM, ROM, SFR_P3};
use vt_emulator::nvr::{Nvr, NvrState};
use vt_emulator::video::Mapper;

/// Clock `bits` into the part with CS held high: DI set, SK low, SK high.
fn clock_in(nvr: &mut Nvr, bits: &[bool]) {
    for &b in bits {
        nvr.tick(true, false, b);
        nvr.tick(true, true, b);
    }
}

fn bits_of(s: &str) -> Vec<bool> {
    s.chars().filter(|c| *c == '0' || *c == '1').map(|c| c == '1').collect()
}

fn select(nvr: &mut Nvr) {
    nvr.tick(false, false, false);
    nvr.tick(true, false, false);
}

#[test]
fn nvram_write_then_read_scenario() {
    let mut nvr = Nvr::new();
    // A leading bit, then start 1, opcode 0011 (write enable), address 0.
    select(&mut nvr);
    clock_in(&mut nvr, &bits_of("0 1 0011 0000000"));
    assert_eq!(nvr.state, NvrState::Idle);
    assert!(nvr.w_enable);
    // Write 10101010 to address 1.
    select(&mut nvr);
    clock_in(&mut nvr, &bits_of("0 1 0100 0000001"));
    clock_in(&mut nvr, &bits_of("10101010"));
    assert_eq!(nvr.mem[1], 0b1010_1010);
    assert_eq!(nvr.write_count, 1);
    // Busy until two SK falling edges.
    let (_, ready) = nvr.tick(true, false, false);
    assert!(!ready);
    nvr.tick(true, true, false);
    let (_, ready) = nvr.tick(true, false, false);
    assert!(ready);
    // Read address 1: a leading zero, then the data MSB first.
    select(&mut nvr);
    clock_in(&mut nvr, &bits_of("0 1 1000 0000001"));
    let mut out = Vec::new();
    for _ in 0..9 {
        let (d, _) = nvr.tick(true, false, false);
        out.push(d);
        nvr.tick(true, true, false);
    }
    assert_eq!(out, bits_of("0 10101010"));
}

#[test]
fn nvram_read_wraps_address() {
    let mut nvr = Nvr::new();
    nvr.mem[127] = 0x80;
    nvr.mem[0] = 0x01;
    select(&mut nvr);
    clock_in(&mut nvr, &bits_of("0 1 1000 1111111"));
    let mut out = Vec::new();
    for _ in 0..18 {
        let (d, _) = nvr.tick(true, false, false);
        out.push(d);
        nvr.tick(true, true, false);
    }
    assert_eq!(out, bits_of("0 10000000 0 00000001"));
}

#[test]
fn nvram_protect_and_erase() {
    let mut nvr = Nvr::new();
    select(&mut nvr);
    clock_in(&mut nvr, &bits_of("0 1 0100 0000011"));
    assert_eq!(nvr.state, NvrState::Idle);
    select(&mut nvr);
    clock_in(&mut nvr, &bits_of("0 1 0011 0000000"));
    select(&mut nvr);
    clock_in(&mut nvr, &bits_of("0 1 0001 0000000"));
    assert!(nvr.mem.iter().all(|&b| b == 0xff));
    assert_eq!(nvr.write_count, 1);
    select(&mut nvr);
    clock_in(&mut nvr, &bits_of("0 1 0010 0000000"));
    assert!(!nvr.w_enable);
    // A zero start bit is ignored.
    select(&mut nvr);
    clock_in(&mut nvr, &bits_of("0 0 0011 0000000"));
    assert!(!nvr.w_enable);
}

#[test]
fn nvr_images() {
    let image = default_nvr_image();
    assert_eq!(image.len(), NVR_SIZE);
    assert_eq!(image[0], 0x65);
    assert_eq!(image[112], 0x4a);
    assert_eq!(image[113], 0xff);
    let short = nvr_image_from_file(&vec![1, 2, 3]);
    assert_eq!(&short[..4], &[1, 2, 3, 0xff]);
    let long = nvr_image_from_file(&vec![7; 200]);
    assert_eq!(long, vec![7; 128]);
    let mut nvr = Nvr::new();
    nvr.load(&image);
    assert_eq!(nvr.image(), image);
}

#[test]
fn duart_loopback_scenario() {
    let (mut duart, host_a, _host_b) = DUART::new();
    for _ in 0..0xffff {
        duart.tick();
    }
    duart.write(WriteRegister::CommandRegisterA, 0x10);
    duart.write(WriteRegister::ModeRegisterA, 0x13);
    duart.write(WriteRegister::ModeRegisterA, 0x80);
    duart.write(WriteRegister::TxHoldingRegisterA, 0x41);
    let (io_a, _) = duart.tick();
    assert_eq!(io_a, ChannelIo { sent: None, dtr: false, polled: false, received: None });
    assert_eq!(duart.read(ReadRegister::StatusRegisterA) & 1, 1);
    assert_eq!(duart.read(ReadRegister::RxHoldingRegisterA), 0x41);
    assert!(host_a.rx.try_recv().is_err());
    // Mode register pointer.
    duart.write(WriteRegister::CommandRegisterA, 0x10);
    assert_eq!(duart.read(ReadRegister::ModeRegisterA), 0x13);
    assert_eq!(duart.read(ReadRegister::ModeRegisterA), 0x80);
}

#[test]
fn duart_host_channel() {
    let (mut duart, host_a, _host_b) = DUART::new();
    duart.write(WriteRegister::TxHoldingRegisterA, 0x99);
    host_a.tx.send(0x10).unwrap();
    let (io_a, io_b) = duart.tick();
    // The power-on delay touches neither host link.
    assert_eq!(io_a, ChannelIo { sent: None, dtr: false, polled: false, received: None });
    assert_eq!(io_b, io_a);
    assert_eq!(host_a.rx.try_recv().is_err(), true);
    for _ in 1..0xffff {
        duart.tick();
    }
    duart.write(WriteRegister::CommandRegisterA, 0x30);
    duart.tick();
    assert_eq!(duart.read(ReadRegister::RxHoldingRegisterA), 0x10);
    for _ in 0..100 {
        duart.tick();
    }
    duart.write(WriteRegister::TxHoldingRegisterA, 0x55);
    host_a.tx.send(0x41).unwrap();
    host_a.tx.send(0x42).unwrap();
    duart.write(WriteRegister::InterruptMaskRegister, 0x22);
    let (io_a, io_b) = duart.tick();
    assert_eq!(io_a, ChannelIo { sent: Some(0x55), dtr: true, polled: true, received: Some(0x41) });
    assert_eq!(io_b, ChannelIo { sent: None, dtr: true, polled: true, received: None });
    assert_eq!(host_a.rx.try_recv(), Ok(0x55));
    assert!(duart.interrupt);
    assert_eq!(duart.read(ReadRegister::InterruptStatusRegister), 0x01 | 0x02 | 0x10);
    assert_eq!(duart.read(ReadRegister::RxHoldingRegisterA), 0x41);
    // The next byte waits out the cooldown.
    duart.tick();
    assert_eq!(duart.read(ReadRegister::RxHoldingRegisterA), 0);
    for _ in 0..100 {
        duart.tick();
    }
    assert_eq!(duart.read(ReadRegister::RxHoldingRegisterA), 0x42);
    duart.write(WriteRegister::SetOutputPortBitsCommand, 0x82);
    duart.write(WriteRegister::ResetOutputPortBitsCommand, 0x02);
    assert_eq!(duart.output_bits_inv, 0x80);
}

#[test]
fn swizzle_window() {
    assert_eq!(swizzle_video_ram(0x0250, 0x10), 0x0350);
    assert_eq!(swizzle_video_ram(0x0350, 0x10), 0x0250);
    assert_eq!(swizzle_video_ram(0x0250, 0x00), 0x0250);
    assert_eq!(swizzle_video_ram(0x0450, 0x10), 0x0450);
    assert_eq!(swizzle_video_ram(0x01ff, 0x10), 0x01ff);
    for addr in 0x200u16..0x400 {
        assert_eq!(swizzle_video_ram(swizzle_video_ram(addr, 0x10), 0x10), addr);
    }
}

#[test]
fn bus_decode_and_access() {
    let (duart, _a, _b) = DUART::new();
    let mut ram = RAM::new(duart);
    assert_eq!(ram.target_for_addr(0x7ff3), (MemoryTarget::Mapper, 3));
    assert_eq!(ram.target_for_addr(0x7fe5), (MemoryTarget::DUART, 5));
    assert_eq!(ram.target_for_addr(0x7e10), (MemoryTarget::Peripheral, 0x10));
    assert_eq!(ram.target_for_addr(0x0300), (MemoryTarget::VRAM, 0x0200));
    // mapper[5] = 0xF4 at reset: VRAM at 0x8000.
    assert_eq!(ram.target_for_addr(0x8001), (MemoryTarget::VRAM, 0x8001));
    ram.write(0x7ff5, 0x04);
    assert!(ram.bank.bank);
    assert_eq!(ram.bank.pc_extension(), 1);
    assert_eq!(ram.target_for_addr(0x8001), (MemoryTarget::SRAM, 0x0001));
    ram.write(0x8001, 0x5a);
    assert_eq!(ram.sram[1], 0x5a);
    assert_eq!(ram.read(0x8001), 0x5a);
    ram.write(0x7e10, 0x33);
    assert_eq!(ram.read(0x7e10), 0x33);
    ram.write(0x7ff4, 0x10);
    assert!(ram.sync.hz_70);
    assert_eq!(ram.sync.sync_gen.t.vtot(), 536);
    ram.write(0x7ff3, 0x04);
    ram.write(0x7ff4, 0x1b);
    assert_eq!(ram.read(0x7ff6), 0x0b);
    assert_eq!(ram.len(), 0x28000);
}

#[test]
fn bus_tick_drives_nvram() {
    let (duart, _a, _b) = DUART::new();
    let mut ram = RAM::new(duart);
    // All output bits clear: CS, SK and DI are asserted (active low).
    ram.tick();
    assert_eq!(ram.nvr.state, NvrState::ShiftCmd { bits: 1, shift: 1 });
    assert_eq!(ram.duart.input_bits & 0x10, 0x10);
}

#[test]
fn ports() {
    let (duart, _a, _b) = DUART::new();
    let mut ram = RAM::new(duart);
    let mut vp = VideoProcessor::new();
    assert!(vp.interest(SFR_P3));
    assert!(!vp.interest(0x80));
    vp.write(SFR_P3, 0x12);
    assert_eq!(vp.read_latch(SFR_P3), 0x12);
    // Top of the frame: inside vertical sync, serrated, low in the
    // horizontal sync window and high after it.
    vp.tick(&mut ram.sync);
    assert_eq!(vp.read(SFR_P3) & 0x10, 0);
    for _ in 0..6 {
        vp.tick(&mut ram.sync);
    }
    assert_eq!(vp.read(SFR_P3) & 0x10, 0x10);
    vp.set_int1(true);
    assert_eq!(vp.read(SFR_P3) & 0x08, 0);
    vp.set_int1(false);
    assert_eq!(vp.read(SFR_P3) & 0x08, 0x08);
}

#[test]
fn rom_banks_and_dispatch() {
    let mut image = vec![0u8; 0x20000];
    // Bank 0 thunk at 0x10 with id 3 into bank 1 at 0x1234.
    image[0x10..0x15].copy_from_slice(&[0x74, 0x03, 0x02, 0x00, 0x99]);
    image[0x10000 + 0x106] = 0x34;
    image[0x10000 + 0x107] = 0x12;
    image[5] = 0xAA;
    image[0x10005] = 0xBB;
    let mut rom = ROM::new(image);
    let found = rom.find_bank_dispatch();
    assert_eq!(found.len(), 1);
    assert_eq!(found[0].id, 3);
    assert_eq!(found[0].dispatch_addr, 0x10);
    assert_eq!(found[0].target_addr, 0x11234);
    assert_eq!(rom.num_banks(), 2);
    assert_eq!(rom.banks().len(), 2);
    assert_eq!(rom.bank(1).len(), 0x10000);
    assert_eq!(rom.read(5), 0xAA);
    rom.switch_to_upper_bank();
    assert_eq!(rom.rom_bank(), 1);
    assert_eq!(rom.read(5), 0xBB);
    rom.set_rom_bank(0);
    assert_eq!(rom.read(5), 0xAA);
    rom.switch_to_lower_bank();
    assert_eq!(rom.read_code(0x10005), 0xBB);
    assert_eq!(rom.read_code(0x20000), 0xFF);
    assert_eq!(rom.rom_size(), 0x20000);
    assert_eq!(rom.bank_size(), 0x10000);
}

#[test]
fn screen_text_of_one_row() {
    let mut vram = vec![0u8; 0x20000];
    let mut mapper = Mapper::new();
    mapper.set(3, 0x00);
    mapper.set(6, 0x00);
    mapper.set(6, 0x00);
    vram[0] = 0x02;
    vram[0x100] = b'V';
    vram[0x102] = (b'T' >> 4) as u8;
    vram[0x101] = (b'T' & 0x0f) << 4;
    let text = screen_text(&vram, &mapper);
    assert_eq!(text.len(), 81);
    assert_eq!(&text[..3], b"\nVT");
}

#[test]
fn comm_config_precedence() {
    let s = |x: &str| Some(x.to_string());
    assert!(matches!(
        CommConfig::from_args(s("p"), Some(("r".into(), "t".into())), s("cmd"), s("pty"), true),
        CommConfig::ExecPty(c) if c == "pty"
    ));
    assert!(matches!(
        CommConfig::from_args(s("p"), Some(("r".into(), "t".into())), s("cmd"), None, false),
        CommConfig::Exec(c) if c == "cmd"
    ));
    assert!(matches!(
        CommConfig::from_args(s("p"), Some(("r".into(), "t".into())), None, None, false),
        CommConfig::Pipes { rx, tx } if rx == "r" && tx == "t"
    ));
    assert!(matches!(CommConfig::from_args(s("p"), None, None, None, false), CommConfig::Pipe(p) if p == "p"));
    assert!(matches!(CommConfig::from_args(None, None, None, None, true), CommConfig::Loopback));
    assert!(matches!(CommConfig::from_args(None, None, None, None, false), CommConfig::Loopback));
    assert_eq!(flow_control(0x11), FlowAction::Resume);
    assert_eq!(flow_control(0x13), FlowAction::Pause);
    assert_eq!(flow_control(0x41), FlowAction::Forward(0x41));
}

#[test]
fn board_step_and_nvram_persistence() {
    let (duart, host_a, host_b) = DUART::new();
    let (send, _recv_host) = mpsc::channel::<u8>();
    let (_send_host, recv) = mpsc::channel::<u8>();
    let image = default_nvr_image();
    let mut board = Board::new(duart, LK201::new(send, recv), host_a.dtr.clone(), host_b.dtr.clone(), &image);
    assert_eq!(board.memory.nvr.mem.to_vec(), image);
    // Output bits all clear: DTR A and B (bits 1 and 7) are deasserted on the host flags.
    let step = board.tick();
    assert!(!step.nvr_written);
    assert!(!step.dtr_a && !step.dtr_b);
    assert!(!host_a.dtr.get());
    assert!(!host_b.dtr.get());
    board.memory.duart.write(WriteRegister::SetOutputPortBitsCommand, 0x82);
    let step = board.tick();
    assert!(step.dtr_a && step.dtr_b);
    assert!(host_a.dtr.get());
    assert!(host_b.dtr.get());
    // A write that completes is reported once.
    board.memory.nvr.write_count += 1;
    assert!(board.tick().nvr_written);
    assert!(!board.tick().nvr_written);
    assert!(board.screen_text().is_empty() || board.screen_text()[0] == b'\n');
}

#[test]
fn register_offsets() {
    assert_eq!(ReadRegister::try_from(5u8), Ok(ReadRegister::InterruptStatusRegister));
    assert_eq!(ReadRegister::try_from(16u8), Err(()));
    assert_eq!(WriteRegister::try_from(14u8), Ok(WriteRegister::SetOutputPortBitsCommand));
    assert_eq!(WriteRegister::try_from(200u8), Err(()));
    assert_eq!(ReadRegister::from_offset(13), Ok(ReadRegister::InputPortsIP0ToIP6));
    assert_eq!(WriteRegister::from_offset(3), Ok(WriteRegister::TxHoldingRegisterA));
}

#[test]
fn duart_drops_on_full_host_channel() {
    let (mut duart, host_a, _host_b) = DUART::new();
    for _ in 0..0xffff {
        duart.tick();
    }
    for i in 0..20u8 {
        duart.write(WriteRegister::TxHoldingRegisterA, i);
        let (io_a, _) = duart.tick();
        assert_eq!(io_a.sent, Some(i));
    }
    let got: Vec<u8> = host_a.rx.try_iter().collect();
    assert_eq!(got, (0..16u8).collect::<Vec<u8>>());
}

#[test]
fn font_132_near_end() {
    let vram = vec![0xfcu8; 16];
    let mut glyph = [0u16; 16];
    vt_emulator::video::decode_font(&vram, 0, false, &mut glyph);
    assert_eq!(glyph, [0x3f; 16]);
}
