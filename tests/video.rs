use vt_emulator::video::{
    calculate_7ff6_read, decode_font, decode_vram, timing_60hz, timing_70hz, DecodedCell, Mapper, Row,
};
use vt_emulator::vsync::{SyncGen, SyncPhase, Timing};

fn frame_line_count(timing: Timing) -> (SyncGen, u16) {
    let mut sync_gen = SyncGen::new(timing);
    let mut csync_low = false;
    let mut line_count = 0;
    for _ in 0..timing.pixel_tot() {
        let next = sync_gen.tick();
        if csync_low && !next {
            line_count += 1;
        }
        csync_low = next;
    }
    (sync_gen, line_count)
}

fn check_sync_gen_60hz() {
    let (sync_gen, line_count) = frame_line_count(timing_60hz());
    assert_eq!(sync_gen.x, 0);
    assert_eq!(sync_gen.y, 0);
    assert_eq!(line_count, timing_60hz().vtot());
    assert!((0x4e00..0x4f00).contains(&timing_60hz().pixel_tot()));
}

fn check_sync_gen_70hz() {
    let (sync_gen, line_count) = frame_line_count(timing_70hz());
    assert_eq!(sync_gen.x, 0);
    assert_eq!(sync_gen.y, 0);
    assert_eq!(line_count, timing_70hz().vtot());
    assert!((0x4300..0x4400).contains(&timing_70hz().pixel_tot()));
}

fn check_32_clocks_per_line() {
    assert_eq!(timing_60hz().htot(), 32);
    assert_eq!(timing_70hz().htot(), 32);
}

fn check_line_count() {
    assert_eq!(timing_60hz().vtot(), 625);
    assert_eq!(timing_70hz().vtot(), 536);
}

#[test]
fn video_test_sync_gen_60hz() {
    check_sync_gen_60hz();
}

#[test]
fn test_sync_gen_60hz() {
    check_sync_gen_60hz();
}

#[test]
fn video_test_sync_gen_70hz() {
    check_sync_gen_70hz();
}

#[test]
fn test_sync_gen_70hz() {
    check_sync_gen_70hz();
}

#[test]
fn video_test_32_clocks_per_line() {
    check_32_clocks_per_line();
}

#[test]
fn test_32_clocks_per_line() {
    check_32_clocks_per_line();
}

#[test]
fn video_test_line_count() {
    check_line_count();
}

#[test]
fn test_line_count() {
    check_line_count();
}

#[test]
fn video_test_syncable() {
    check_syncable();
}

#[test]
fn test_syncable() {
    check_syncable();
}

fn check_syncable() {
    for timing in [timing_60hz(), timing_70hz()] {
        let mut runs = Vec::new();
        let mut current_value = None;
        let mut current_count = 0;
        let mut sync_gen = SyncGen::new(timing);
        for _ in 0..timing.pixel_tot() / 4 {
            sync_gen.tick();
        }
        for _ in 0..timing.pixel_tot() {
            let next = sync_gen.tick();
            if Some(next) == current_value {
                current_count += 1;
            } else {
                if let Some(value) = current_value {
                    runs.push((value, current_count));
                }
                current_value = Some(next);
                current_count = 1;
            }
        }
        runs.push((current_value.unwrap(), current_count));
        println!("Runs: {:?}", runs);
        assert!(runs.windows(2).any(|w| w[0].0 && w[0].1 >= 15 && !w[1].0 && w[1].1 >= 15));
    }
}

#[test]
fn sync_60hz_frame_scenario() {
    let mut sync_gen = SyncGen::new(timing_60hz());
    let mut previous = false;
    let mut rising = 0;
    for _ in 0..20000 {
        let next = sync_gen.tick();
        if previous && !next {
            rising += 1;
        }
        previous = next;
    }
    assert_eq!((sync_gen.x, sync_gen.y), (0, 0));
    assert_eq!(rising, 625);
}

#[test]
fn sync_phases() {
    let mut sync_gen = SyncGen::new(timing_60hz());
    assert_eq!(sync_gen.phase(), SyncPhase::VSync(0));
    sync_gen.y = 16;
    assert_eq!(sync_gen.phase(), SyncPhase::BackPorch(0));
    sync_gen.y = 16 + 188 + 5;
    assert_eq!(sync_gen.phase(), SyncPhase::Active(5));
    sync_gen.y = 16 + 188 + 417 + 1;
    assert_eq!(sync_gen.phase(), SyncPhase::FrontPorch(1));
}

fn check_7ff6_tables() {
    const ROWS: [u8; 27] = [
        0x01, 0x02, 0x04, 0x08, 0x05, 0x10, 0x20, 0x40, 0x50, 0x70, 0x11, 0x22, 0x44, 0x2a, 0x55, 0x03, 0x06,
        0x0c, 0x18, 0x30, 0x60, 0x07, 0x0e, 0x1c, 0x38, 0x0f, 0x1e,
    ];
    let mut vram = [0_u8; 0x40];
    for (i, &row) in ROWS.iter().enumerate() {
        vram[i * 2] = row << 1;
    }

    const EXPECTED_0: [u8; 32] = [
        0x0b, 0x0b, 0x0b, 0x0d, 0x0b, 0x04, 0x0b, 0x0d, 0x03, 0x03, 0x03, 0x0d, 0x03, 0x01, 0x03, 0x0d,
        0x0b, 0x0b, 0x0b, 0x0d, 0x0b, 0x04, 0x0b, 0x0d, 0x03, 0x03, 0x03, 0x0d, 0x03, 0x01, 0x03, 0x0d,
    ];
    let mut mapper3 = 0;
    let mut mapper4 = 0;
    for i in 0..32 {
        let i2 = (i & (1 << 2)) != 0;
        let i3 = (i & (1 << 3)) != 0;
        mapper3 &= 0b10111111;
        if (i & (1 << 1)) != 0 {
            mapper3 |= 0b01000000;
        }
        mapper3 |= 0b00001000;
        if (i & (1 << 4)) != 1 {
            mapper3 = (mapper3 & 0b11110100) | (i3 as u8) | ((i2 as u8) << 1);
        }
        mapper4 &= 0b11110111;
        if (i & (1 << 0)) != 0 {
            mapper4 |= 0b00001000;
        }
        if (i & (1 << 4)) != 0 {
            mapper4 = (mapper4 & 0b11111100) | (i3 as u8) | ((i2 as u8) << 1);
        }
        let result = calculate_7ff6_read(mapper3, mapper4, &vram);
        assert_eq!(result, EXPECTED_0[i], "vram = {:02X?}", vram);
    }

    const EXPECTED_1: [u8; 4] = [0x0a, 0x00, 0x05, 0x0b];
    for (i, &v) in [0x0c, 0x08, 0x04, 0].iter().enumerate() {
        let mapper3 = 4;
        let mapper4 = 0x1b;
        for j in 0..vram.len() {
            if j % 2 == 1 {
                vram[j] = v;
            }
        }
        let result = calculate_7ff6_read(mapper3, mapper4, &vram);
        assert_eq!(result, EXPECTED_1[i], "vram = {:02X?}", vram);
    }

    const EXPECTED_2: [u8; 26] = [
        0x04, 0x06, 0x08, 0x0a, 0x0c, 0x0e, 0x0f, 0x00, 0x01, 0x02, 0x03, 0x05, 0x07, 0x09, 0x0b, 0x0d,
        0x0e, 0x0f, 0x00, 0x01, 0x02, 0x04, 0x06, 0x08, 0x0a, 0x0c,
    ];
    for i in (0..26).rev() {
        vram[i * 2 + 1] ^= 2;
        vram[i * 2 + 3] = 0;
        let result = calculate_7ff6_read(mapper3, mapper4, &vram);
        assert_eq!(result, EXPECTED_2[i], "vram = {:02X?}", vram);
    }
}

#[test]
fn video_test_calculate_mapper_7ff6() {
    check_7ff6_tables();
}

#[test]
fn memory_test_calculate_mapper_7ff6() {
    check_7ff6_tables();
}

#[test]
fn read_7ff6_empty_vram_scenario() {
    let vram = vec![0u8; 0x100];
    assert_eq!(calculate_7ff6_read(0x04, 0x1B, &vram), 0x0B);
    let mut mapper = Mapper::new();
    mapper.set(3, 0x04);
    mapper.set(4, 0x1B);
    assert_eq!(mapper.read_7ff6(&vram), 0x0B);
}

#[test]
fn mapper_registers() {
    let mut mapper = Mapper::new();
    assert_eq!(mapper.get(3), 0xff);
    assert_eq!(mapper.get(5), 0xf4);
    mapper.set(6, 0x12);
    mapper.set(6, 0x34);
    assert_eq!(mapper.get(6), 0x34);
    assert_eq!(mapper.get2(6), 0x12);
    assert_eq!(mapper.row_height_screen_1(), 2);
    assert_eq!(mapper.row_height_screen_2(), 4);
    mapper.set(6, 0x30);
    assert_eq!(mapper.row_height_screen_2(), 16);
    assert_eq!(mapper.map_vram_at_8000(), 1);
    mapper.set(5, 0x04);
    assert_eq!(mapper.map_vram_at_8000(), 0);
    assert_eq!(mapper.vram_8000_bit(), 1);
    assert_eq!(mapper.vram_8000_bit_value(0x20), 1);
    assert!(mapper.is_screen_2());
    assert!(mapper.screen_1_132_columns());
    assert!(mapper.screen_2_invert());
    assert!(mapper.is_blink());
    assert_eq!(mapper.vram_offset(), 0x8000);
    assert_eq!(mapper.vram_offset_0(), 0);
    assert_eq!(mapper.vram_offset_display(), 0);
}

#[test]
fn row_count_and_refresh() {
    let vram = vec![0u8; 0x20000];
    let mut mapper = Mapper::new();
    mapper.set(3, 0x00);
    // Row height 16 on both screens: 417 / 16 = 26 rows.
    mapper.set(6, 0x00);
    mapper.set(6, 0x00);
    assert_eq!(mapper.row_count(&vram), Some(26));
    mapper.set(6, 0xF0);
    assert_eq!(mapper.row_count(&vram), None);
    assert!(decode_vram(&vram, &mapper).is_empty());
}

#[test]
fn decode_one_row() {
    let mut vram = vec![0u8; 0x20000];
    let mut mapper = Mapper::new();
    mapper.set(3, 0x00);
    mapper.set(6, 0x00);
    mapper.set(6, 0x00);
    // Row 0 at 0x0100, single width; characters 'A' (with high nibble 1) and 'B'.
    vram[0] = 0x02;
    vram[1] = 0x00;
    vram[0x100] = 0x41;
    vram[0x101] = 0x21;
    vram[0x102] = 0x04;
    // Column 0 attribute bits: byte 0xDD, bits 2-3.
    vram[0x100 + 0xdd] = 0b0000_1000;
    let rows = decode_vram(&vram, &mapper);
    assert_eq!(rows.len(), 1);
    let row = &rows[0];
    assert_eq!(row.index, 0);
    assert_eq!(row.row, Row(0x02, 0x00));
    assert!(row.flags.is_80);
    assert_eq!(row.cells.len(), 80);
    assert_eq!(row.cells[0], DecodedCell { col: 0, ch: 0x41, attr: 0x100 | 0x04 | 0x02 });
    assert_eq!(row.cells[1], DecodedCell { col: 1, ch: 0x42, attr: 0 });
}

#[test]
fn row_attributes() {
    let row = Row(0x1E, 0b0000_1010);
    assert!(row.is_status_row());
    assert!(row.is_screen_swap_row());
    assert!(row.is_double_height_top());
    assert!(!row.is_single_width());
    assert!(!row.is_single_height_double_width());
    assert!(!row.is_double_height_bottom());
    assert_eq!(row.vram_offset(), 0x0F00);
    assert!(!row.is_invalid());
    assert!(Row(0, 0).is_invalid());
}

#[test]
fn font_decoding() {
    let mut vram = vec![0u8; 64];
    for i in 0..32 {
        vram[i] = i as u8 * 7;
    }
    let mut glyph = [0u16; 16];
    decode_font(&vram, 0, true, &mut glyph);
    assert_eq!(glyph[1], 7 + (119 % 4) * 256);
    decode_font(&vram, 0, false, &mut glyph);
    assert_eq!(glyph[3], (21 / 4) as u16);
}

#[test]
fn sync_run_matches_ticks() {
    let mut a = SyncGen::new(timing_70hz());
    let mut b = SyncGen::new(timing_70hz());
    let levels = a.run(1000);
    let ticked: Vec<bool> = (0..1000).map(|_| b.tick()).collect();
    assert_eq!(levels, ticked);
    assert_eq!((a.x, a.y), (b.x, b.y));
}
