use ic7300_cat::bcd::{bcd_to_freq, bcd_to_span_val, bcd_to_u8, freq_to_bcd, level_to_bcd, span_to_bcd_bytes};
use ic7300_cat::civ::{build_civ_frame, build_reply_frame, find_frame, Command, FrameScan, RadioMode, RadioUpdate};
use ic7300_cat::decode::{decode_scope_frame, decode_state_frame};
use ic7300_cat::link::{elapsed_ms, encode_command, rx_poll_frames, tx_poll_frames, RadioLink};

#[test]
fn freq_to_bcd_encodes_ft8_frequency() {
    assert_eq!(freq_to_bcd(14_074_000), vec![0x00, 0x40, 0x07, 0x14, 0x00]);
}

#[test]
fn freq_to_bcd_keeps_the_ten_lowest_digits() {
    assert_eq!(freq_to_bcd(12_345_678_901), vec![0x01, 0x89, 0x67, 0x45, 0x23]);
    assert_eq!(freq_to_bcd(0), vec![0x00, 0x00, 0x00, 0x00, 0x00]);
}

#[test]
fn bcd_to_freq_reads_back_freq_to_bcd() {
    for f in [0u64, 1, 30_000, 1_840_000, 14_074_000, 74_800_000, 9_999_999_999] {
        assert_eq!(bcd_to_freq(&freq_to_bcd(f)), f);
    }
    assert_eq!(bcd_to_freq(&freq_to_bcd(12_345_678_901)), 2_345_678_901);
}

#[test]
fn bcd_to_freq_reads_the_first_five_bytes() {
    assert_eq!(bcd_to_freq(&[0x00, 0x40, 0x07, 0x14, 0x00, 0xFD]), 14_074_000);
}

#[test]
fn level_to_bcd_splits_hundreds() {
    assert_eq!(level_to_bcd(255), [0x02, 0x55]);
    assert_eq!(level_to_bcd(128), [0x01, 0x28]);
    assert_eq!(level_to_bcd(9), [0x00, 0x09]);
    assert_eq!(level_to_bcd(0), [0x00, 0x00]);
}

#[test]
fn bcd_to_u8_reads_levels() {
    assert_eq!(bcd_to_u8(&[]), 0);
    assert_eq!(bcd_to_u8(&[0x42]), 42);
    assert_eq!(bcd_to_u8(&[0x01, 0x28]), 128);
    assert_eq!(bcd_to_u8(&[0x02, 0x55]), 255);
}

#[test]
fn bcd_to_u8_saturates_above_255() {
    assert_eq!(bcd_to_u8(&[0x03, 0x00]), 255);
    assert_eq!(bcd_to_u8(&[0x09, 0x99]), 255);
}

#[test]
fn level_bcd_roundtrip_for_every_level() {
    for level in 0..=255u8 {
        assert_eq!(bcd_to_u8(&level_to_bcd(level)), level);
    }
}

#[test]
fn span_to_bcd_bytes_table() {
    assert_eq!(span_to_bcd_bytes(5_000), [0x00, 0x00, 0x25, 0x00, 0x00, 0x00]);
    assert_eq!(span_to_bcd_bytes(20_000), [0x00, 0x00, 0x00, 0x01, 0x00, 0x00]);
    assert_eq!(span_to_bcd_bytes(50_000), [0x00, 0x00, 0x50, 0x02, 0x00, 0x00]);
    assert_eq!(span_to_bcd_bytes(1_000_000), [0x00, 0x00, 0x00, 0x50, 0x00, 0x00]);
}

#[test]
fn span_to_bcd_bytes_defaults_to_ten_khz() {
    assert_eq!(span_to_bcd_bytes(12_345), [0x00, 0x00, 0x50, 0x00, 0x00, 0x00]);
}

#[test]
fn span_roundtrip_for_offered_spans() {
    for span in [5_000u32, 10_000, 20_000, 50_000, 100_000, 200_000, 500_000, 1_000_000] {
        assert_eq!(bcd_to_span_val(&span_to_bcd_bytes(span)), span);
    }
}

#[test]
fn span_of_50_khz_reads_back_as_50_khz() {
    assert_eq!(bcd_to_span_val(&span_to_bcd_bytes(50_000)), 50_000);
    assert_eq!(bcd_to_span_val(&[0x00, 0x00, 0x50, 0x02, 0x00, 0x00]), 50_000);
    assert_eq!(bcd_to_span_val(&[0x00, 0x50, 0x02, 0x00, 0x00]), 50_000);
}

#[test]
fn bcd_to_span_val_edge_cases() {
    assert_eq!(bcd_to_span_val(&[0x00, 0x00, 0x00]), 0);
    assert_eq!(bcd_to_span_val(&[0x00, 0x00, 0x01, 0x00, 0x00]), 20_000);
    assert_eq!(bcd_to_span_val(&[0x00, 0x00, 0x00, 0x00, 0x01, 0x00]), 0);
}

#[test]
fn build_civ_frame_without_subcommand() {
    assert_eq!(build_civ_frame(0x03, None, &[]), vec![0xFE, 0xFE, 0x94, 0xE0, 0x03, 0xFD]);
}

#[test]
fn build_civ_frame_with_subcommand_and_data() {
    assert_eq!(
        build_civ_frame(0x14, Some(0x01), &[0x01, 0x28]),
        vec![0xFE, 0xFE, 0x94, 0xE0, 0x14, 0x01, 0x01, 0x28, 0xFD]
    );
}

#[test]
fn build_reply_frame_swaps_addresses() {
    assert_eq!(build_reply_frame(0xFB, &[]), vec![0xFE, 0xFE, 0xE0, 0x94, 0xFB, 0xFD]);
}

#[test]
fn find_frame_cases() {
    assert_eq!(find_frame(&[0x01, 0x02]), FrameScan::NoStart);
    assert_eq!(find_frame(&[0xFE, 0xFE, 0x94]), FrameScan::Incomplete(0));
    assert_eq!(find_frame(&[0x00, 0xFE, 0xFE, 0x94, 0xE0, 0x03, 0xFD, 0x11]), FrameScan::Complete(1, 6));
    assert_eq!(find_frame(&[]), FrameScan::NoStart);
}

#[test]
fn decode_frequency_reply() {
    let f = [0xFE, 0xFE, 0xE0, 0x94, 0x03, 0x00, 0x40, 0x07, 0x14, 0x00, 0xFD];
    assert!(matches!(decode_state_frame(&f, false), Some(RadioUpdate::Frequency(14_074_000))));
}

#[test]
fn decode_transceive_frequency_broadcast() {
    let f = [0xFE, 0xFE, 0x00, 0x94, 0x00, 0x00, 0x00, 0x10, 0x07, 0x00, 0xFD];
    assert!(matches!(decode_state_frame(&f, false), Some(RadioUpdate::Frequency(7_100_000))));
}

#[test]
fn decode_frequency_out_of_range_is_ignored() {
    let f = [0xFE, 0xFE, 0xE0, 0x94, 0x03, 0x00, 0x00, 0x00, 0x80, 0x00, 0xFD];
    assert!(decode_state_frame(&f, false).is_none());
}

#[test]
fn decode_mode_with_data_byte() {
    let f = [0xFE, 0xFE, 0xE0, 0x94, 0x04, 0x01, 0x01, 0x02, 0xFD];
    assert!(matches!(decode_state_frame(&f, false), Some(RadioUpdate::ModeAndFilter(RadioMode::Usb, 2, true))));
}

#[test]
fn decode_mode_without_data_byte_keeps_commanded_data_state() {
    let f = [0xFE, 0xFE, 0xE0, 0x94, 0x04, 0x03, 0x01, 0xFD];
    assert!(matches!(decode_state_frame(&f, false), Some(RadioUpdate::ModeAndFilter(RadioMode::Cw, 1, false))));
    assert!(matches!(decode_state_frame(&f, true), Some(RadioUpdate::ModeAndFilter(RadioMode::Cw, 1, true))));
}

#[test]
fn decode_unknown_mode_is_ignored() {
    let f = [0xFE, 0xFE, 0xE0, 0x94, 0x04, 0x07, 0x01, 0xFD];
    assert!(decode_state_frame(&f, false).is_none());
}

#[test]
fn decode_levels_and_meters() {
    let af = [0xFE, 0xFE, 0xE0, 0x94, 0x14, 0x01, 0x01, 0x28, 0xFD];
    assert!(matches!(decode_state_frame(&af, false), Some(RadioUpdate::AfGain(128))));
    let smeter = [0xFE, 0xFE, 0xE0, 0x94, 0x15, 0x02, 0x01, 0x20, 0xFD];
    assert!(matches!(decode_state_frame(&smeter, false), Some(RadioUpdate::Meter(0x02, 120))));
    let usb_rx = [0xFE, 0xFE, 0xE0, 0x94, 0x1A, 0x05, 0x00, 0x60, 0x00, 0x50, 0xFD];
    assert!(matches!(decode_state_frame(&usb_rx, false), Some(RadioUpdate::UsbRxLevel(50))));
}

#[test]
fn decode_switches() {
    let ptt = [0xFE, 0xFE, 0xE0, 0x94, 0x1C, 0x00, 0x01, 0xFD];
    assert!(matches!(decode_state_frame(&ptt, false), Some(RadioUpdate::PTTState(true))));
    let att = [0xFE, 0xFE, 0xE0, 0x94, 0x11, 0x20, 0xFD];
    assert!(matches!(decode_state_frame(&att, false), Some(RadioUpdate::Attenuator(true))));
    let vfo = [0xFE, 0xFE, 0xE0, 0x94, 0x07, 0x01, 0xFD];
    assert!(matches!(decode_state_frame(&vfo, false), Some(RadioUpdate::ActiveVfo(1))));
    let nb = [0xFE, 0xFE, 0xE0, 0x94, 0x16, 0x22, 0x01, 0xFD];
    assert!(matches!(decode_state_frame(&nb, false), Some(RadioUpdate::NoiseBlanker(true))));
}

#[test]
fn link_ignores_frames_not_from_the_radio() {
    let mut link = RadioLink::new(0);
    let f = [0xFE, 0xFE, 0x94, 0xE0, 0x03, 0x00, 0x40, 0x07, 0x14, 0x00, 0xFD];
    assert!(link.receive(&f, 9).is_empty());
    assert_eq!(link.last_read_ms, 0);
    assert!(link.serial_buffer.is_empty());
}

#[test]
fn decode_scope_last_packet_reports_sweep() {
    let mut scope: Vec<u8> = vec![0x01, 0x02];
    let f = [0xFE, 0xFE, 0xE0, 0x94, 0x27, 0x00, 0x00, 0x11, 0x11, 0xAA, 0xBB, 0xFD];
    match decode_scope_frame(&f, &mut scope) {
        Some(RadioUpdate::ScopeSweep(sweep)) => assert_eq!(sweep, vec![0x01, 0x02, 0xAA, 0xBB]),
        _ => panic!("expected a sweep"),
    }
    assert_eq!(scope, vec![0x01, 0x02, 0xAA, 0xBB]);
}

#[test]
fn decode_scope_first_packet_restarts_sweep() {
    let mut scope: Vec<u8> = vec![0x01, 0x02];
    let f = [0xFE, 0xFE, 0xE0, 0x94, 0x27, 0x00, 0x00, 0x01, 0x11, 0x00, 0xFD];
    assert!(decode_scope_frame(&f, &mut scope).is_none());
    assert!(scope.is_empty());
}

#[test]
fn decode_scope_span_answer() {
    let mut scope: Vec<u8> = Vec::new();
    let f = [0xFE, 0xFE, 0xE0, 0x94, 0x27, 0x15, 0x00, 0x00, 0x00, 0x05, 0x00, 0x00, 0xFD];
    assert!(matches!(decode_scope_frame(&f, &mut scope), Some(RadioUpdate::ScopeSpan(100_000))));
}

#[test]
fn encode_frequency_command() {
    assert_eq!(
        encode_command(Command::SetFrequency(14_074_000), 1),
        vec![vec![0xFE, 0xFE, 0x94, 0xE0, 0x05, 0x00, 0x40, 0x07, 0x14, 0x00, 0xFD]]
    );
}

#[test]
fn encode_data_mode_uses_last_filter() {
    assert_eq!(
        encode_command(Command::SetDataMode(true), 2),
        vec![vec![0xFE, 0xFE, 0x94, 0xE0, 0x1A, 0x06, 0x01, 0x02, 0xFD]]
    );
    assert_eq!(
        encode_command(Command::SetDataMode(false), 2),
        vec![vec![0xFE, 0xFE, 0x94, 0xE0, 0x1A, 0x06, 0x00, 0x00, 0xFD]]
    );
}

#[test]
fn encode_scope_output_sends_two_frames() {
    assert_eq!(
        encode_command(Command::SetScopeOutput(true), 1),
        vec![
            vec![0xFE, 0xFE, 0x94, 0xE0, 0x27, 0x10, 0x01, 0xFD],
            vec![0xFE, 0xFE, 0x94, 0xE0, 0x27, 0x11, 0x01, 0xFD],
        ]
    );
}

#[test]
fn encode_power_on_wakes_the_radio() {
    let frames = encode_command(Command::SetPower(true), 1);
    assert_eq!(frames.len(), 1);
    let f = &frames[0];
    assert_eq!(f.len(), 157);
    assert!(f[..150].iter().all(|b| *b == 0xFE));
    assert_eq!(&f[150..], &[0xFE, 0xFE, 0x94, 0xE0, 0x18, 0x01, 0xFD]);
}

#[test]
fn encode_levels_and_disconnect() {
    assert_eq!(
        encode_command(Command::SetRfPower(255), 1),
        vec![vec![0xFE, 0xFE, 0x94, 0xE0, 0x14, 0x0A, 0x02, 0x55, 0xFD]]
    );
    assert_eq!(
        encode_command(Command::SetUsbTxLevel(128), 1),
        vec![vec![0xFE, 0xFE, 0x94, 0xE0, 0x1A, 0x05, 0x00, 0x65, 0x01, 0x28, 0xFD]]
    );
    assert!(encode_command(Command::Disconnect, 1).is_empty());
}

#[test]
fn link_records_filter_then_uses_it_for_data_mode() {
    let mut link = RadioLink::new(0);
    let plan = link.handle_command(Command::SetModeAndFilter(RadioMode::Usb, 2));
    assert_eq!(plan.frames, vec![vec![0xFE, 0xFE, 0x94, 0xE0, 0x06, 0x01, 0x02, 0xFD]]);
    assert_eq!(plan.pause_ms, 0);
    assert!(!plan.stop);
    assert_eq!(link.filter, 2);
    let plan = link.handle_command(Command::SetDataMode(true));
    assert_eq!(plan.frames, vec![vec![0xFE, 0xFE, 0x94, 0xE0, 0x1A, 0x06, 0x01, 0x02, 0xFD]]);
    assert!(link.data_mode);
}

#[test]
fn link_pauses_and_stop() {
    let mut link = RadioLink::new(0);
    assert_eq!(link.handle_command(Command::SetScopeSpan(50_000)).pause_ms, 25);
    assert_eq!(link.handle_command(Command::SetScopeOutput(true)).pause_ms, 20);
    assert!(link.handle_command(Command::Disconnect).stop);
}

#[test]
fn link_receive_frames_across_reads() {
    let mut link = RadioLink::new(0);
    let first = link.receive(&[0x00, 0xFE, 0xFE, 0xE0, 0x94, 0x03, 0x00], 5);
    assert!(first.is_empty());
    let second = link.receive(&[0x40, 0x07, 0x14, 0x00, 0xFD], 7);
    assert_eq!(second.len(), 1);
    assert!(matches!(second[0], RadioUpdate::Frequency(14_074_000)));
    assert!(link.serial_buffer.is_empty());
    assert_eq!(link.last_read_ms, 7);
}

#[test]
fn link_receive_tracks_transmit_state() {
    let mut link = RadioLink::new(0);
    let ups = link.receive(&[0xFE, 0xFE, 0xE0, 0x94, 0x1C, 0x00, 0x01, 0xFD], 1);
    assert_eq!(ups.len(), 1);
    assert!(link.is_tx);
}

#[test]
fn link_poll_schedule() {
    let mut link = RadioLink::new(0);
    let p = link.poll(40);
    assert!(!p.lost);
    assert_eq!(p.frames, vec![vec![0xFE, 0xFE, 0x94, 0xE0, 0x15, 0x02, 0xFD]]);
    let p = link.poll(150);
    assert_eq!(
        p.frames,
        vec![
            vec![0xFE, 0xFE, 0x94, 0xE0, 0x15, 0x02, 0xFD],
            vec![0xFE, 0xFE, 0x94, 0xE0, 0x1C, 0x00, 0xFD],
            vec![0xFE, 0xFE, 0x94, 0xE0, 0x03, 0xFD],
        ]
    );
    assert_eq!(link.rx_poll_index, 1);
}

#[test]
fn link_watchdog_fires_after_silence() {
    let mut link = RadioLink::new(0);
    let p = link.poll(2_500);
    assert!(p.lost);
    assert!(p.frames.is_empty());
}

#[test]
fn poll_request_tables() {
    assert_eq!(rx_poll_frames(21), vec![vec![0xFE, 0xFE, 0x94, 0xE0, 0x27, 0x15, 0xFD]]);
    assert!(rx_poll_frames(22).is_empty());
    assert_eq!(tx_poll_frames(1), vec![vec![0xFE, 0xFE, 0x94, 0xE0, 0x15, 0x12, 0xFD]]);
    assert!(tx_poll_frames(4).is_empty());
}

#[test]
fn elapsed_saturates_at_zero() {
    assert_eq!(elapsed_ms(100, 40), 60);
    assert_eq!(elapsed_ms(40, 100), 0);
}

#[test]
fn level_written_reads_back() {
    for v in 0..=255u8 {
        let lv = level_to_bcd(v);
        let f = build_reply_frame(0x14, &[0x01, lv[0], lv[1]]);
        assert!(matches!(decode_state_frame(&f, false), Some(RadioUpdate::AfGain(x)) if x == v));
        let u = build_reply_frame(0x1A, &[0x05, 0x00, 0x65, lv[0], lv[1]]);
        assert!(matches!(decode_state_frame(&u, false), Some(RadioUpdate::UsbTxLevel(x)) if x == v));
    }
}

#[test]
fn frequency_reply_reaches_the_panel() {
    for f in [30_000u64, 1_840_000, 14_074_000, 74_800_000] {
        let mut link = RadioLink::new(0);
        let ups = link.receive(&build_reply_frame(0x03, &freq_to_bcd(f)), 3);
        assert_eq!(ups.len(), 1);
        assert!(matches!(ups[0], RadioUpdate::Frequency(x) if x == f));
        assert!(link.serial_buffer.is_empty());
    }
}
