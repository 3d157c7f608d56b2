use ic7300_cat::civ::{Command, RadioMode, RadioUpdate};
use ic7300_cat::link::encode_command;
use ic7300_cat::memories::{chars_less, is_near_memory, memories_in_category, memories_near, memory_categories, memory_form_named};
use ic7300_cat::proxy::CatProxy;
use ic7300_cat::records::{
    db_load_settings, db_reload_memories, eibi_csv_line, eibi_from_csv, eibi_search_plan, memory_csv_line,
    memory_from_row, memory_record, memory_record_from_csv, mode_from_name, mode_name, probable_stations_plan,
    schedule_line, setting_from_csv, setting_value, settings_csv_line, DbMemoryEntry, EibiEntry, EibiQuery,
    MemoryRow,
};
use ic7300_cat::text::{
    csv_line, decimal_string, escape_csv_field, format_vfo_freq, is_time_in_range, parse_csv_line,
    parse_i32_chars, parse_i64_chars, parse_unsigned_chars, s_meter_label, station_search_url, text_lines,
    trim_chars, url_encode,
};

fn strings(v: &[&str]) -> Vec<String> {
    v.iter().map(|s| s.to_string()).collect()
}

fn entry(id: i32, category: &str, name: &str, frequency: u64) -> DbMemoryEntry {
    DbMemoryEntry {
        id,
        category: category.to_owned(),
        name: name.to_owned(),
        frequency,
        mode: RadioMode::Am,
        is_data: false,
        filter: 1,
        preamp: 0,
    }
}

#[test]
fn format_vfo_freq_groups_digits() {
    assert_eq!(format_vfo_freq(14_074_000), "14.074.000");
    assert_eq!(format_vfo_freq(7_100_000), "07.100.000");
    assert_eq!(format_vfo_freq(0), "00.000.000");
    assert_eq!(format_vfo_freq(123_456_789), "12.345.6789");
}

#[test]
fn url_encode_cases() {
    assert_eq!(url_encode("Radio France 2"), "Radio+France+2");
    assert_eq!(url_encode("a/b"), "a%2Fb");
    assert_eq!(url_encode("-_.~"), "-_.~");
    assert_eq!(url_encode("é"), "%C3%A9");
    assert_eq!(url_encode(""), "");
}

#[test]
fn escape_csv_field_cases() {
    assert_eq!(escape_csv_field("abc"), "abc");
    assert_eq!(escape_csv_field("a;b"), "\"a;b\"");
    assert_eq!(escape_csv_field("say \"hi\""), "\"say \"\"hi\"\"\"");
    assert_eq!(escape_csv_field("line\nbreak"), "\"line\nbreak\"");
    assert_eq!(escape_csv_field("cr\r"), "\"cr\r\"");
    assert_eq!(escape_csv_field(""), "");
}

#[test]
fn parse_csv_line_cases() {
    assert_eq!(parse_csv_line("a;b;c"), strings(&["a", "b", "c"]));
    assert_eq!(parse_csv_line("\"a;b\";c"), strings(&["a;b", "c"]));
    assert_eq!(parse_csv_line(""), strings(&[""]));
    assert_eq!(parse_csv_line("\"x\"\"y\""), strings(&["x\"y"]));
    assert_eq!(parse_csv_line("a;"), strings(&["a", ""]));
}

#[test]
fn csv_line_roundtrip() {
    let fields = strings(&["📻 SWL", "Radio \"Caroline\"", "3985000", "a;b", ""]);
    let line = csv_line(&fields);
    assert_eq!(line, "📻 SWL;\"Radio \"\"Caroline\"\"\";3985000;\"a;b\";");
    assert_eq!(parse_csv_line(&line), fields);
}

#[test]
fn time_ranges() {
    assert!(is_time_in_range("0600-1800", 12, 0));
    assert!(is_time_in_range("0600-1800", 18, 0));
    assert!(!is_time_in_range("0600-1800", 18, 1));
    assert!(is_time_in_range("2200-0200", 23, 30));
    assert!(is_time_in_range("2200-0200", 1, 59));
    assert!(!is_time_in_range("2200-0200", 12, 0));
    assert!(!is_time_in_range("bad", 1, 0));
    assert!(!is_time_in_range("0600-", 3, 0));
    assert!(is_time_in_range("-", 0, 0));
    assert!(!is_time_in_range("01-02-03", 1, 0));
}

#[test]
fn number_parsing_as_std() {
    assert_eq!(parse_unsigned_chars(&['+', '4', '2'], 255), Some(42));
    assert_eq!(parse_unsigned_chars(&['2', '5', '6'], 255), None);
    assert_eq!(parse_unsigned_chars(&[], 255), None);
    assert_eq!(parse_unsigned_chars(&['+'], 255), None);
    assert_eq!(parse_i32_chars(&['-', '1', '2']), Some(-12));
    assert_eq!(parse_i64_chars(&['-', '9', '2', '2', '3', '3', '7', '2', '0', '3', '6', '8', '5', '4', '7', '7', '5', '8', '0', '8']), Some(i64::MIN));
    assert_eq!(parse_i64_chars(&['1', 'x']), None);
    assert_eq!(parse_i64_chars(&['-', '+', '1']), None);
}

#[test]
fn decimal_and_trim() {
    assert_eq!(decimal_string(0), "0");
    assert_eq!(decimal_string(14_074_000), "14074000");
    assert_eq!(decimal_string(u64::MAX), u64::MAX.to_string());
    assert_eq!(trim_chars(&[' ', 'a', '\t', 'b', '\n']), vec!['a', '\t', 'b']);
}

#[test]
fn text_lines_as_std_lines() {
    assert_eq!(text_lines("a\r\nb\n"), strings(&["a", "b"]));
    assert_eq!(text_lines("a\n\nb"), strings(&["a", "", "b"]));
    assert!(text_lines("").is_empty());
}

#[test]
fn mode_names() {
    assert_eq!(mode_name(RadioMode::Lsb), "LSB");
    assert_eq!(mode_name(RadioMode::Fm), "FM");
    assert_eq!(mode_from_name("CW", RadioMode::Usb), RadioMode::Cw);
    assert_eq!(mode_from_name("cw", RadioMode::Usb), RadioMode::Usb);
    for m in [RadioMode::Lsb, RadioMode::Usb, RadioMode::Am, RadioMode::Cw, RadioMode::Fm] {
        assert_eq!(mode_from_name(&mode_name(m), RadioMode::Am), m);
    }
}

#[test]
fn memory_record_stores_mode_by_name() {
    let r = memory_record("SWL", "RFI", 15_300_000, RadioMode::Am, true, 2, 1);
    assert_eq!(r.category, "SWL");
    assert_eq!(r.mode, "AM");
    assert_eq!(r.is_data, 1);
    assert_eq!(r.filter, 2);
}

fn row(id: Option<i32>, mode: Option<&str>) -> MemoryRow {
    MemoryRow {
        id,
        category: Some("SWL".to_owned()),
        name: Some("RFI".to_owned()),
        frequency: Some(15_300_000),
        mode: mode.map(|m| m.to_owned()),
        is_data: None,
        filter: None,
        preamp: Some(2),
    }
}

#[test]
fn memory_rows_read_back() {
    let e = memory_from_row(row(Some(4), Some("XX"))).unwrap();
    assert_eq!(e.id, 4);
    assert_eq!(e.mode, RadioMode::Am);
    assert!(!e.is_data);
    assert_eq!(e.filter, 1);
    assert_eq!(e.preamp, 2);
    assert!(memory_from_row(row(None, Some("USB"))).is_none());
    let list = db_reload_memories(vec![row(Some(1), Some("USB")), row(Some(2), None), row(Some(3), Some("LSB"))]);
    assert_eq!(list.len(), 2);
    assert_eq!(list[0].mode, RadioMode::Usb);
    assert_eq!(list[1].id, 3);
}

#[test]
fn memory_csv_roundtrip() {
    let mut m = entry(7, "✈️ AVIATION", "Shannon; Volmet", 5_505_000);
    m.mode = RadioMode::Usb;
    m.is_data = true;
    m.filter = 3;
    let line = memory_csv_line(&m);
    assert_eq!(line, "✈️ AVIATION;\"Shannon; Volmet\";5505000;USB;1;3;0");
    let r = memory_record_from_csv(&parse_csv_line(&line)).unwrap();
    assert_eq!(r.category, m.category);
    assert_eq!(r.name, m.name);
    assert_eq!(r.frequency, 5_505_000);
    assert_eq!(r.mode, "USB");
    assert_eq!(r.is_data, 1);
    assert_eq!(r.filter, 3);
    assert_eq!(r.preamp, 0);
}

#[test]
fn memory_csv_import_defaults() {
    assert!(memory_record_from_csv(&strings(&["a", "b", "1"])).is_none());
    let r = memory_record_from_csv(&strings(&["a", "b", "x", "AM"])).unwrap();
    assert_eq!(r.frequency, 0);
    assert_eq!(r.is_data, 0);
    assert_eq!(r.filter, 1);
    assert_eq!(r.preamp, 0);
}

#[test]
fn settings_rows_and_lookup() {
    let rows = vec![
        (Some("a".to_owned()), Some("1".to_owned())),
        (None, Some("x".to_owned())),
        (Some("a".to_owned()), Some("2".to_owned())),
    ];
    let st = db_load_settings(rows);
    assert_eq!(st.len(), 2);
    assert_eq!(setting_value(&st, "a"), Some("2".to_owned()));
    assert_eq!(setting_value(&st, "b"), None);
}

#[test]
fn settings_csv_roundtrip() {
    let line = settings_csv_line("port_name", "COM;3");
    assert_eq!(line, "port_name;\"COM;3\"");
    assert_eq!(setting_from_csv(&parse_csv_line(&line)), Some(("port_name".to_owned(), "COM;3".to_owned())));
    assert_eq!(setting_from_csv(&strings(&["only"])), None);
}

#[test]
fn eibi_csv_roundtrip() {
    let e = EibiEntry {
        frequency: 6_070_000,
        station: "Channel 292".to_owned(),
        time: "0000-2400".to_owned(),
        language: "E".to_owned(),
        target: "Eu".to_owned(),
    };
    let line = eibi_csv_line(&e);
    assert_eq!(line, "6070000;Channel 292;0000-2400;E;Eu");
    let back = eibi_from_csv(&parse_csv_line(&line)).unwrap();
    assert_eq!(back.frequency, 6_070_000);
    assert_eq!(back.station, "Channel 292");
    assert_eq!(back.target, "Eu");
    assert!(eibi_from_csv(&strings(&["1", "2", "3", "4"])).is_none());
}

#[test]
fn schedule_lines() {
    assert!(schedule_line("kHz:75;Time(UTC):93;Days:59").is_none());
    assert!(schedule_line("   ").is_none());
    assert!(schedule_line("6070;0000-2400;;;").is_none());
    let l = schedule_line(" 6070 ;0000-2400;Mo-Fr;D; Channel 292 ;E;Eu;x").unwrap();
    assert_eq!(l.khz, "6070");
    assert_eq!(l.time, "0000-2400");
    assert_eq!(l.station, "Channel 292");
    assert_eq!(l.language, "E");
    assert_eq!(l.target, "Eu");
}

#[test]
fn eibi_search_plans() {
    match eibi_search_plan("  ", 14_074_000, None) {
        EibiQuery::FrequencyRange { min_hz, max_hz, limit } => {
            assert_eq!((min_hz, max_hz, limit), (13_974_000, 14_174_000, Some(50)));
        },
        _ => panic!("expected a frequency range"),
    }
    match eibi_search_plan("6070", 14_074_000, Some(6_070_000)) {
        EibiQuery::FrequencyRange { min_hz, max_hz, limit } => {
            assert_eq!((min_hz, max_hz, limit), (6_060_000, 6_080_000, Some(50)));
        },
        _ => panic!("expected a frequency range"),
    }
    match eibi_search_plan("BBC", 14_074_000, None) {
        EibiQuery::StationLike { pattern, limit } => {
            assert_eq!(pattern, "%BBC%");
            assert_eq!(limit, Some(50));
        },
        _ => panic!("expected a station search"),
    }
    match eibi_search_plan("", 50_000, None) {
        EibiQuery::FrequencyRange { min_hz, .. } => assert_eq!(min_hz, 0),
        _ => panic!("expected a frequency range"),
    }
    match probable_stations_plan(1_000) {
        EibiQuery::FrequencyRange { min_hz, max_hz, limit } => {
            assert_eq!((min_hz, max_hz, limit), (0, 3_000, None));
        },
        _ => panic!("expected a frequency range"),
    }
}

#[test]
fn categories_sorted_and_unique() {
    let ms = vec![
        entry(1, "📻 SWL", "a", 1),
        entry(2, "⏰ TIME", "b", 2),
        entry(3, "📻 SWL", "c", 3),
        entry(4, "B", "d", 4),
        entry(5, "A", "e", 5),
    ];
    assert_eq!(memory_categories(&ms), strings(&["A", "B", "⏰ TIME", "📻 SWL"]));
    let mut sorted: Vec<String> = ms.iter().map(|m| m.category.clone()).collect();
    sorted.sort();
    sorted.dedup();
    assert_eq!(memory_categories(&ms), sorted);
    assert!(memory_categories(&[]).is_empty());
}

#[test]
fn memories_of_a_category() {
    let ms = vec![entry(1, "b", "x", 1), entry(2, "a", "y", 2), entry(3, "b", "z", 3)];
    assert_eq!(memories_in_category(&ms, "b"), vec![0, 2]);
    assert!(memories_in_category(&ms, "c").is_empty());
}

#[test]
fn string_order() {
    assert!(chars_less(&['a'], &['a', 'b']));
    assert!(!chars_less(&['a', 'b'], &['a', 'b']));
    assert!(chars_less(&['Z'], &['a']));
    assert!(!chars_less(&['b'], &['a', 'z']));
}

#[test]
fn memory_near_radio() {
    assert!(is_near_memory(14_074_000, 14_075_000));
    assert!(is_near_memory(14_075_000, 14_074_000));
    assert!(!is_near_memory(14_074_000, 14_075_001));
}

#[test]
fn memory_form_needs_names() {
    assert!(memory_form_named("SWL", "RFI"));
    assert!(!memory_form_named("SWL", "  "));
    assert!(!memory_form_named("", "RFI"));
}

#[test]
fn proxy_answers_reads_from_cache() {
    let mut p = CatProxy::new();
    let out = p.receive(&[0xFE, 0xFE, 0x94, 0xE0, 0x03, 0xFD]);
    assert_eq!(out.replies, vec![vec![0xFE, 0xFE, 0xE0, 0x94, 0x03, 0x00, 0x40, 0x07, 0x14, 0x00, 0xFD]]);
    assert!(out.commands.is_empty());
    let out = p.receive(&[0xFE, 0xFE, 0x94, 0xE0, 0x04, 0xFD]);
    assert_eq!(out.replies, vec![vec![0xFE, 0xFE, 0xE0, 0x94, 0x04, 0x01, 0x01, 0xFD]]);
}

#[test]
fn proxy_follows_radio_updates() {
    let mut p = CatProxy::new();
    p.apply_update(&RadioUpdate::Frequency(7_100_000));
    p.apply_update(&RadioUpdate::ModeAndFilter(RadioMode::Lsb, 2, true));
    p.apply_update(&RadioUpdate::AfGain(3));
    let out = p.receive(&[0xFE, 0xFE, 0x94, 0xE0, 0x03, 0xFD, 0xFE, 0xFE, 0x94, 0xE0, 0x04, 0xFD]);
    assert_eq!(
        out.replies,
        vec![
            vec![0xFE, 0xFE, 0xE0, 0x94, 0x03, 0x00, 0x00, 0x10, 0x07, 0x00, 0xFD],
            vec![0xFE, 0xFE, 0xE0, 0x94, 0x04, 0x00, 0x02, 0x01, 0xFD],
        ]
    );
}

#[test]
fn proxy_forwards_panel_frequency_and_ptt() {
    let mut p = CatProxy::new();
    let f = encode_command(Command::SetFrequency(3_650_000), 1).remove(0);
    let out = p.receive(&f);
    assert_eq!(out.replies, vec![vec![0xFE, 0xFE, 0xE0, 0x94, 0xFB, 0xFD]]);
    assert_eq!(out.commands, vec![Command::SetFrequency(3_650_000)]);
    assert!(p.serial_buffer.is_empty());
    let out = p.receive(&[0xFE, 0xFE, 0x94, 0xE0, 0x1C, 0x00, 0x01, 0xFD]);
    assert_eq!(out.commands, vec![Command::SetPTT(true)]);
}

#[test]
fn proxy_acknowledges_other_orders_and_ignores_foreign_frames() {
    let mut p = CatProxy::new();
    let out = p.receive(&[0xFE, 0xFE, 0x94, 0xE0, 0x07, 0x00, 0xFD]);
    assert_eq!(out.replies, vec![vec![0xFE, 0xFE, 0xE0, 0x94, 0xFB, 0xFD]]);
    assert!(out.commands.is_empty());
    let out = p.receive(&[0xFE, 0xFE, 0xE0, 0x94, 0x03, 0xFD]);
    assert!(out.replies.is_empty());
    let far = encode_command(Command::SetFrequency(80_000_000), 1).remove(0);
    let out = p.receive(&far);
    assert_eq!(out.replies.len(), 1);
    assert!(out.commands.is_empty());
}

#[test]
fn proxy_keeps_partial_frame() {
    let mut p = CatProxy::new();
    let out = p.receive(&[0xFE, 0xFE, 0x94]);
    assert!(out.replies.is_empty());
    assert_eq!(p.serial_buffer, vec![0xFE, 0xFE, 0x94]);
    let out = p.receive(&[0xE0, 0x03, 0xFD]);
    assert_eq!(out.replies.len(), 1);
}

#[test]
fn memories_within_two_khz() {
    let ms = vec![entry(1, "a", "x", 6_070_000), entry(2, "a", "y", 6_072_001), entry(3, "b", "z", 6_068_000)];
    assert_eq!(memories_near(&ms, 6_070_000), vec![0, 2]);
    assert!(memories_near(&ms, 1_000).is_empty());
}

#[test]
fn s_meter_labels() {
    assert_eq!(s_meter_label(0), "S0");
    assert_eq!(s_meter_label(13), "S1");
    assert_eq!(s_meter_label(119), "S9");
    assert_eq!(s_meter_label(120), "S9 +0dB");
    assert_eq!(s_meter_label(241), "S9 +60dB");
}

#[test]
fn station_search_urls() {
    assert_eq!(
        station_search_url("Radio Caroline", 3_985_000),
        "https://www.google.com/search?q=Radio+Caroline+3985+kHz"
    );
    for (name, f) in [("Radio Chine (FR)", 13_645_000u64), ("Météo", 5_505_500), ("", 999)] {
        let expected = format!("https://www.google.com/search?q={}", url_encode(&format!("{} {} kHz", name, f / 1000)));
        assert_eq!(station_search_url(name, f), expected);
    }
}
