use ic7300_cat::bands::{amateur_bands, cb_bands, pirate_bands, step_label, RightTab};
use ic7300_cat::civ::{Command, RadioMode, RadioUpdate};
use ic7300_cat::keyer::{
    is_radio_sound_card, names_audio_file, sound_card_label, KeyerLoop, KeyerSlot, KeyerStage,
};
use ic7300_cat::settings::{apply_imported_settings, restore_panel_settings, restore_radio_state, save_settings, PanelSettings};
use ic7300_cat::station::RadioState;
use ic7300_cat::waterfall::{waterfall_history_bytes, waterfall_history_rows, WaterfallHistory};

fn panel() -> PanelSettings {
    PanelSettings {
        port_name: "COM3".to_owned(),
        baud_rate: 115200,
        scope_show_window: false,
        scope_palette: 0,
        scope_width: 475,
        scope_height: 100,
    }
}

fn pairs(v: &[(&str, &str)]) -> Vec<(String, String)> {
    v.iter().map(|(k, x)| (k.to_string(), x.to_string())).collect()
}

#[test]
fn initial_state_is_ft8_on_20m() {
    let s = RadioState::initial(5);
    assert_eq!(s.frequency, 14_074_000);
    assert_eq!(s.mode, RadioMode::Usb);
    assert_eq!(s.active_vfo, 0);
    assert_eq!(s.vfo_step, 10);
    assert_eq!(s.last_user_write_ms, 5);
    assert!(!s.is_connected);
}

#[test]
fn set_frequency_tunes_active_vfo_and_scope() {
    let mut s = RadioState::initial(0);
    let r = s.set_frequency_from_i64(7_100_000, 10);
    assert!(r.refresh_stations);
    assert!(r.commands.is_empty());
    assert_eq!(s.frequency, 7_100_000);
    assert_eq!(s.frequency_a, 7_100_000);
    assert_eq!(s.frequency_b, 14_074_000);
    assert_eq!(s.scope_center_frequency, 7_100_000);
    assert_eq!(s.last_user_write_ms, 10);
}

#[test]
fn set_frequency_clamps_to_tuning_range() {
    let mut s = RadioState::initial(0);
    s.set_frequency_from_i64(-5, 1);
    assert_eq!(s.frequency, 30_000);
    s.set_frequency_from_i64(100_000_000, 2);
    assert_eq!(s.frequency, 74_800_000);
}

#[test]
fn set_same_frequency_changes_nothing() {
    let mut s = RadioState::initial(0);
    let before = s;
    let r = s.set_frequency_from_i64(14_074_000, 50);
    assert!(!r.refresh_stations);
    assert!(r.commands.is_empty());
    assert_eq!(s, before);
}

#[test]
fn connected_panel_sends_frequency() {
    let mut s = RadioState::initial(0);
    let sync = s.connected();
    assert_eq!(sync.len(), 29);
    assert_eq!(sync[0], Command::SetVfo(0));
    assert_eq!(sync[1], Command::SetFrequency(14_074_000));
    assert_eq!(sync[28], Command::SetPTT(false));
    let r = s.set_frequency_from_i64(7_100_000, 10);
    assert_eq!(r.commands, vec![Command::SetFrequency(7_100_000)]);
}

#[test]
fn recall_memory_on_vfo_b() {
    let mut s = RadioState::initial(0);
    s.select_vfo(1, 0);
    s.is_connected = true;
    let r = s.recall_memory(15_300_000, RadioMode::Am, false, 2, 1, 20);
    assert_eq!(s.frequency, 15_300_000);
    assert_eq!(s.frequency_b, 15_300_000);
    assert_eq!(s.frequency_a, 14_074_000);
    assert_eq!(s.mode_b, RadioMode::Am);
    assert_eq!(s.filter_b, 2);
    assert_eq!(s.preamp, 1);
    assert_eq!(
        r.commands,
        vec![
            Command::SetFrequency(15_300_000),
            Command::SetModeAndFilter(RadioMode::Am, 2),
            Command::SetDataMode(false),
            Command::SetPreamp(1),
        ]
    );
}

#[test]
fn swap_vfo_twice_restores_state() {
    let mut s = RadioState::initial(0);
    s.set_frequency_from_i64(7_100_000, 1);
    s.select_vfo(1, 2);
    s.set_frequency_from_i64(3_650_000, 3);
    s.select_mode(RadioMode::Lsb, 4);
    let before = s;
    s.swap_vfo(5);
    assert_eq!(s.active_vfo, 0);
    assert_eq!(s.frequency, 7_100_000);
    assert_eq!(s.mode, RadioMode::Usb);
    s.swap_vfo(6);
    let mut expected = before;
    expected.last_user_write_ms = 6;
    assert_eq!(s, expected);
}

#[test]
fn equalize_copies_active_vfo() {
    let mut s = RadioState::initial(0);
    s.set_frequency_from_i64(7_100_000, 1);
    s.select_filter(3, 2);
    s.equalize_vfo(3);
    assert_eq!(s.frequency_b, 7_100_000);
    assert_eq!(s.filter_b, 3);
    assert_eq!(s.frequency_a, s.frequency_b);
}

#[test]
fn data_toggle_follows_active_vfo() {
    let mut s = RadioState::initial(0);
    s.is_connected = true;
    let cmds = s.toggle_data_mode(7);
    assert_eq!(cmds, vec![Command::SetDataMode(true)]);
    assert!(s.is_data_mode && s.is_data_mode_a && !s.is_data_mode_b);
}

#[test]
fn reports_wait_for_operator_hold_time() {
    let mut s = RadioState::initial(0);
    s.set_frequency_from_i64(7_100_000, 1_000);
    assert!(!s.apply_update(&RadioUpdate::Frequency(3_650_000), 1_200));
    assert_eq!(s.frequency, 7_100_000);
    s.apply_update(&RadioUpdate::Meter(0x02, 120), 1_200);
    assert_eq!(s.s_meter, 120);
    s.apply_update(&RadioUpdate::PTTState(true), 1_200);
    assert!(s.is_tx);
    assert!(s.apply_update(&RadioUpdate::Frequency(3_650_000), 1_600));
    assert_eq!(s.frequency, 3_650_000);
    assert_eq!(s.frequency_a, 3_650_000);
}

#[test]
fn report_of_active_vfo_loads_that_vfo() {
    let mut s = RadioState::initial(0);
    s.frequency_b = 3_650_000;
    s.apply_update(&RadioUpdate::ActiveVfo(1), 10_000);
    assert_eq!(s.active_vfo, 1);
    assert_eq!(s.frequency, 3_650_000);
}

#[test]
fn scope_span_and_sweep_reports_leave_state() {
    let mut s = RadioState::initial(0);
    let before = s;
    s.apply_update(&RadioUpdate::ScopeSpan(100_000), 10_000);
    s.apply_update(&RadioUpdate::ScopeSweep(vec![1, 2, 3]), 10_000);
    assert_eq!(s, before);
}

#[test]
fn ptt_and_tx_lock() {
    let mut s = RadioState::initial(0);
    s.is_connected = true;
    assert_eq!(s.set_ptt(true, 1), vec![Command::SetPTT(true)]);
    assert!(s.set_ptt(true, 2).is_empty());
    assert_eq!(s.toggle_ptt(3), vec![Command::SetPTT(false)]);
    assert!(!s.is_tx);
    s.toggle_tx_lock(4);
    assert!(s.tx_lock);
}

#[test]
fn apply_setting_sets_level() {
    let mut s = RadioState::initial(0);
    s.is_connected = true;
    let cmds = s.apply_setting(Command::SetAfGain(80), 9);
    assert_eq!(cmds, vec![Command::SetAfGain(80)]);
    assert_eq!(s.af_gain, 80);
    assert_eq!(s.last_user_write_ms, 9);
    s.apply_setting(Command::SetScopeOutput(true), 10);
    assert!(s.scope_enabled);
}

#[test]
fn disconnect_releases_ptt_first() {
    let mut s = RadioState::initial(0);
    s.connected();
    s.set_ptt(true, 1);
    assert_eq!(s.disconnect(), vec![Command::SetPTT(false), Command::Disconnect]);
    assert!(!s.is_connected);
    assert_eq!(s.disconnect(), vec![Command::SetPTT(false), Command::Disconnect]);
}

#[test]
fn band_tables() {
    let am = amateur_bands();
    assert_eq!(am.len(), 10);
    assert_eq!(am[0].name, "160m");
    assert_eq!(am[3].default_mode, RadioMode::Cw);
    assert_eq!(cb_bands().len(), 2);
    let pirate = pirate_bands();
    assert_eq!(pirate.len(), 3);
    assert_eq!(pirate[0].name, "11m DX");
    assert_eq!(pirate[0].default_freq, 27_555_000);
}

#[test]
fn band_membership() {
    let mut s = RadioState::initial(0);
    let am = amateur_bands();
    assert!(s.is_freq_in_band(&am[4]));
    assert!(s.has_any_active_band());
    s.set_frequency_from_i64(5_000_000, 1);
    assert!(!s.has_any_active_band());
    s.set_frequency_from_i64(27_555_000, 2);
    assert!(s.has_any_active_band());
    s.set_frequency_from_i64(2_000_000, 3);
    assert!(s.is_freq_in_band(&am[0]));
}

#[test]
fn every_band_button_tunes_into_its_band() {
    for band in amateur_bands().iter().chain(cb_bands().iter()).chain(pirate_bands().iter()) {
        let mut s = RadioState::initial(0);
        s.change_band_and_mode(band.default_freq, band.default_mode, 1);
        assert!(s.is_freq_in_band(band));
        assert_eq!(s.mode, band.default_mode);
        assert!(s.has_any_active_band());
    }
}

#[test]
fn tuning_steps() {
    let mut s = RadioState::initial(0);
    s.select_coarser_step();
    assert_eq!(s.vfo_step, 100);
    s.select_finer_step();
    s.select_finer_step();
    assert_eq!(s.vfo_step, 1);
    s.select_finer_step();
    assert_eq!(s.vfo_step, 1);
    s.vfo_step = 1_000_000;
    s.select_coarser_step();
    assert_eq!(s.vfo_step, 1_000_000);
    s.vfo_step = 25;
    s.select_coarser_step();
    assert_eq!(s.vfo_step, 25);
}

#[test]
fn step_from_display_digit() {
    let mut s = RadioState::initial(0);
    s.select_step_digit(0);
    assert_eq!(s.vfo_step, 10_000_000);
    s.select_step_digit(4);
    assert_eq!(s.vfo_step, 1_000);
    s.select_step_digit(7);
    assert_eq!(s.vfo_step, 1);
}

#[test]
fn step_labels() {
    assert_eq!(step_label(1), "1 Hz");
    assert_eq!(step_label(1_000), "1 kHz");
    assert_eq!(step_label(1_000_000), "1 MHz");
    assert_eq!(step_label(25), "Custom");
}

#[test]
fn tune_by_knob_ticks() {
    let mut s = RadioState::initial(0);
    s.tune_steps(3, 1);
    assert_eq!(s.frequency, 14_074_030);
    s.tune_steps(-1, 2);
    assert_eq!(s.frequency, 14_074_020);
    s.vfo_step = 1_000_000;
    s.set_frequency_from_i64(500_000, 3);
    s.tune_steps(-1, 4);
    assert_eq!(s.frequency, 30_000);
}

#[test]
fn right_tab_values() {
    assert_ne!(RightTab::Bandes, RightTab::Eibi);
    assert_eq!(RightTab::Memoires, RightTab::Memoires);
}

fn slot() -> KeyerSlot {
    KeyerSlot { transmit_ms: 5_000, listen_ms: 10_000, data_mode: true, has_audio: true }
}

#[test]
fn stopped_keyer_does_nothing() {
    let mut s = RadioState::initial(0);
    let mut k = KeyerLoop::new();
    let before = s;
    let fx = s.keyer_tick(&mut k, &slot(), 100);
    assert!(fx.commands.is_empty() && !fx.start_audio && !fx.stop_audio);
    assert_eq!(s, before);
    assert_eq!(k, KeyerLoop::new());
}

#[test]
fn keyer_cycles_transmit_and_listen() {
    let mut s = RadioState::initial(0);
    s.is_connected = true;
    let mut k = KeyerLoop::new();
    k.start();
    let fx = s.keyer_tick(&mut k, &slot(), 0);
    assert_eq!(fx.commands, vec![Command::SetDataMode(true), Command::SetPTT(true)]);
    assert!(fx.start_audio);
    assert!(s.is_tx && s.is_data_mode);
    assert_eq!(k.stage, KeyerStage::Transmitting { start_ms: 0, duration_ms: 5_000 });
    let fx = s.keyer_tick(&mut k, &slot(), 4_999);
    assert!(fx.commands.is_empty());
    let fx = s.keyer_tick(&mut k, &slot(), 5_000);
    assert_eq!(fx.commands, vec![Command::SetPTT(false)]);
    assert!(fx.stop_audio);
    assert!(!s.is_tx);
    assert_eq!(k.stage, KeyerStage::Listening { start_ms: 5_000, duration_ms: 10_000 });
    let fx = s.keyer_tick(&mut k, &slot(), 15_000);
    assert_eq!(fx.commands, vec![Command::SetDataMode(true), Command::SetPTT(true)]);
    assert_eq!(k.stage, KeyerStage::Transmitting { start_ms: 15_000, duration_ms: 5_000 });
}

#[test]
fn keyer_aborts_when_operator_takes_ptt() {
    let mut s = RadioState::initial(0);
    s.is_connected = true;
    let mut k = KeyerLoop::new();
    k.start();
    s.keyer_tick(&mut k, &slot(), 0);
    s.set_ptt(false, 100);
    let fx = s.keyer_tick(&mut k, &slot(), 200);
    assert_eq!(fx.commands, vec![Command::SetPTT(false), Command::SetDataMode(false)]);
    assert!(fx.stop_audio);
    assert!(!k.is_active);
    assert_eq!(k.stage, KeyerStage::Idle);
    assert!(!s.is_data_mode);
}

#[test]
fn keyer_stop_button() {
    let mut s = RadioState::initial(0);
    let mut k = KeyerLoop::new();
    k.start();
    s.keyer_tick(&mut k, &slot(), 0);
    let fx = s.abort_keyer(&mut k, 10);
    assert!(fx.commands.is_empty());
    assert!(!s.is_tx);
    assert!(!k.is_active);
}

#[test]
fn audio_file_names() {
    assert!(!names_audio_file("   "));
    assert!(!names_audio_file(""));
    assert!(names_audio_file(" samples/cq.mp3 "));
}

#[test]
fn saved_settings_list() {
    let s = RadioState::initial(0);
    let saved = save_settings(&s, &panel(), "15".to_owned(), "2.5".to_owned());
    assert_eq!(saved.len(), 43);
    assert_eq!(saved[0], ("port_name".to_owned(), "COM3".to_owned()));
    assert_eq!(saved[2], ("frequency".to_owned(), "14074000".to_owned()));
    assert_eq!(saved[3], ("mode".to_owned(), "USB".to_owned()));
    assert_eq!(saved[5], ("is_data_mode".to_owned(), "0".to_owned()));
    assert_eq!(saved[25], ("scope_waterfall_offset".to_owned(), "15".to_owned()));
    assert_eq!(saved[26], ("scope_waterfall_gain".to_owned(), "2.5".to_owned()));
    assert_eq!(saved[42], ("is_data_mode_b".to_owned(), "0".to_owned()));
}

#[test]
fn restart_restores_saved_settings() {
    let mut s = RadioState::initial(0);
    s.set_frequency_from_i64(7_100_000, 1);
    s.select_mode(RadioMode::Lsb, 2);
    s.select_vfo(1, 3);
    s.set_frequency_from_i64(3_650_000, 4);
    s.select_filter(2, 5);
    s.apply_setting(Command::SetRfPower(50), 6);
    s.apply_setting(Command::SetNoiseReduction(true), 7);
    s.toggle_tx_lock(8);
    s.vfo_step = 1_000;
    s.s_meter = 77;
    let mut p = panel();
    p.port_name = "/dev/ttyUSB1".to_owned();
    p.scope_width = 375;
    let saved = save_settings(&s, &p, "15".to_owned(), "2.5".to_owned());
    let restored = restore_radio_state(&saved, RadioState::initial(99));
    let mut expected = s;
    expected.last_user_write_ms = 99;
    expected.s_meter = 0;
    expected.scope_center_frequency = s.frequency;
    assert_eq!(restored, expected);
    let q = restore_panel_settings(&saved, "COM1".to_owned());
    assert_eq!(q.port_name, "/dev/ttyUSB1");
    assert_eq!(q.scope_width, 375);
    assert_eq!(q.baud_rate, 115200);
}

#[test]
fn restore_without_settings_keeps_factory_state() {
    let base = RadioState::initial(3);
    assert_eq!(restore_radio_state(&[], base), base);
    let p = restore_panel_settings(&[], "COM9".to_owned());
    assert_eq!(p.port_name, "COM9");
    assert_eq!(p.baud_rate, 115200);
    assert_eq!(p.scope_width, 475);
    assert_eq!(p.scope_height, 100);
}

#[test]
fn restore_skips_unreadable_values() {
    let base = RadioState::initial(0);
    let st = pairs(&[("frequency", "abc"), ("filter", "300"), ("af_gain", "+42"), ("mode", "XYZ"), ("tuner", "yes")]);
    let s = restore_radio_state(&st, base);
    assert_eq!(s.frequency, 14_074_000);
    assert_eq!(s.filter, 1);
    assert_eq!(s.af_gain, 42);
    assert_eq!(s.mode, RadioMode::Usb);
    assert!(!s.tuner);
}

#[test]
fn restore_uses_active_vfo_b() {
    let base = RadioState::initial(0);
    let st = pairs(&[("frequency_a", "7100000"), ("frequency_b", "3650000"), ("mode_b", "LSB"), ("active_vfo", "1")]);
    let s = restore_radio_state(&st, base);
    assert_eq!(s.frequency, 3_650_000);
    assert_eq!(s.mode, RadioMode::Lsb);
    assert_eq!(s.frequency_a, 7_100_000);
    assert_eq!(s.scope_center_frequency, 3_650_000);
}

#[test]
fn later_setting_wins() {
    let base = RadioState::initial(0);
    let st = pairs(&[("squelch", "10"), ("squelch", "20")]);
    assert_eq!(restore_radio_state(&st, base).squelch, 20);
}

#[test]
fn imported_settings_apply_at_once() {
    let mut s = RadioState::initial(0);
    s.is_connected = true;
    let mut p = panel();
    let st = pairs(&[("port_name", "COM7"), ("baud_rate", "9600"), ("frequency", "7100000"), ("tx_lock", "1"), ("af_gain", "5")]);
    let r = apply_imported_settings(&mut s, &mut p, &st, 50);
    assert_eq!(r.commands, vec![Command::SetFrequency(7_100_000)]);
    assert_eq!(s.frequency, 7_100_000);
    assert!(s.tx_lock);
    assert_eq!(s.af_gain, 60);
    assert_eq!(p.port_name, "COM7");
    assert_eq!(p.baud_rate, 9600);
}

#[test]
fn imported_negative_frequency_is_clamped() {
    let mut s = RadioState::initial(0);
    let mut p = panel();
    apply_imported_settings(&mut s, &mut p, &pairs(&[("frequency", "-5")]), 1);
    assert_eq!(s.frequency, 30_000);
}

#[test]
fn waterfall_keeps_newest_sweeps() {
    let mut w = WaterfallHistory::new(4, 2);
    assert_eq!(w.current_sweep, vec![0, 0, 0, 0]);
    w.push_sweep(&[1, 2, 3, 4]);
    w.push_sweep(&[5, 6, 7, 8]);
    assert_eq!(w.rows, vec![vec![5, 6, 7, 8], vec![1, 2, 3, 4]]);
    w.push_sweep(&[9, 9, 9, 9]);
    assert_eq!(w.rows, vec![vec![9, 9, 9, 9], vec![5, 6, 7, 8]]);
    assert_eq!(w.current_sweep, vec![9, 9, 9, 9]);
}

#[test]
fn waterfall_ignores_empty_sweep() {
    let mut w = WaterfallHistory::new(2, 3);
    w.push_sweep(&[1, 2]);
    w.push_sweep(&[]);
    assert_eq!(w.rows, vec![vec![1, 2]]);
}

#[test]
fn waterfall_resizes_on_new_width() {
    let mut w = WaterfallHistory::new(4, 3);
    w.push_sweep(&[1, 2, 3, 4]);
    w.push_sweep(&[7, 8]);
    assert_eq!(w.width, 2);
    assert_eq!(w.rows, vec![vec![7, 8]]);
}

#[test]
fn waterfall_history_roundtrip() {
    let rows = vec![vec![1, 2, 3], vec![4, 5, 6], vec![7, 8, 9]];
    let bytes = waterfall_history_bytes(&rows);
    assert_eq!(bytes, vec![1, 2, 3, 4, 5, 6, 7, 8, 9]);
    assert_eq!(waterfall_history_rows(&bytes, 3), rows);
}

#[test]
fn waterfall_history_drops_partial_rest() {
    assert_eq!(waterfall_history_rows(&[1, 2, 3, 4, 5], 2), vec![vec![1, 2], vec![3, 4]]);
    assert!(waterfall_history_rows(&[1], 2).is_empty());
}

#[test]
fn arrow_keys_walk_the_steps() {
    let steps = [1u64, 10, 100, 1_000, 10_000, 100_000, 1_000_000];
    for (i, step) in steps.iter().enumerate() {
        let mut s = RadioState::initial(0);
        s.vfo_step = *step;
        s.select_coarser_step();
        assert_eq!(s.vfo_step, steps[(i + 1).min(6)]);
        s.select_finer_step();
        if i < 6 {
            assert_eq!(s.vfo_step, *step);
        }
    }
}

#[test]
fn space_bar_press_and_release() {
    let mut s = RadioState::initial(0);
    s.is_connected = true;
    assert_eq!(s.set_ptt(true, 1), vec![Command::SetPTT(true)]);
    assert_eq!(s.set_ptt(false, 2), vec![Command::SetPTT(false)]);
    s.toggle_tx_lock(3);
    assert_eq!(s.toggle_ptt(4), vec![Command::SetPTT(true)]);
    assert_eq!(s.toggle_ptt(5), vec![Command::SetPTT(false)]);
}

#[test]
fn radio_sound_card_is_found_by_name() {
    assert!(is_radio_sound_card("Haut-parleurs (USB Audio CODEC)"));
    assert!(is_radio_sound_card("ICOM IC-7300"));
    assert!(is_radio_sound_card("IC-7300 Audio"));
    assert!(is_radio_sound_card("iCoM"));
    assert!(!is_radio_sound_card("Speakers (Realtek High Definition Audio)"));
    assert!(!is_radio_sound_card("IC-730"));
    assert!(!is_radio_sound_card(""));
}

#[test]
fn sound_cards_are_listed_by_number() {
    assert_eq!(sound_card_label(0, "USB Audio CODEC"), "1. USB Audio CODEC");
    assert_eq!(sound_card_label(11, "Speakers"), "12. Speakers");
    assert_eq!(sound_card_label(4, ""), "5. ");
}

#[test]
fn restart_takes_working_values_from_the_active_vfo() {
    let mut s = RadioState::initial(0);
    s.active_vfo = 1;
    s.frequency_a = 7_074_000;
    s.frequency_b = 10_136_000;
    s.mode_b = RadioMode::Cw;
    s.filter_b = 3;
    s.is_data_mode_b = true;
    s.frequency = 14_074_000;
    s.af_gain = 77;
    s.vfo_step = 1_000;
    let saved = save_settings(&s, &panel(), "15".to_owned(), "2.5".to_owned());
    let r = restore_radio_state(&saved, RadioState::initial(5));
    assert_eq!(r.active_vfo, 1);
    assert_eq!(r.frequency_a, 7_074_000);
    assert_eq!(r.frequency_b, 10_136_000);
    assert_eq!(r.frequency, 10_136_000);
    assert_eq!(r.mode, RadioMode::Cw);
    assert_eq!(r.filter, 3);
    assert!(r.is_data_mode);
    assert_eq!(r.scope_center_frequency, 10_136_000);
    assert_eq!(r.af_gain, 77);
    assert_eq!(r.vfo_step, 1_000);
}

#[test]
fn left_arrow_makes_the_step_finer() {
    let mut s = RadioState::initial(0);
    s.vfo_step = 10;
    s.select_finer_step();
    assert_eq!(s.vfo_step, 1);
    s.select_coarser_step();
    s.select_coarser_step();
    assert_eq!(s.vfo_step, 100);
}
