//! The panel's saved settings: how they are read back at start-up and what is
//! written when the panel closes.

use vstd::prelude::*;
use crate::civ::RadioMode;
use crate::records::{chars_equal, flag_text, lemma_mode_name_roundtrip, mode_from_name, mode_name, mode_name_of, mode_named, setting_of, setting_value, settings_view};
use crate::civ::Command;
use crate::station::{after_set_frequency, clamp_freq, vfo_consistent, when_connected, Reaction, RadioState};
use crate::text::{chars_of, decimal, decimal_string, lemma_decimal_parses, parse_i64_chars, parse_signed, parse_unsigned, parse_unsigned_chars, string_from_chars};

verus! {

/// The saved settings of the panel that are not transceiver state.
pub struct PanelSettings {
    pub port_name: String,
    pub baud_rate: u32,
    pub scope_show_window: bool,
    pub scope_palette: u8,
    pub scope_width: usize,
    pub scope_height: usize,
}

/// The panel settings with the port name as characters.
pub struct PanelModel {
    pub port_name: Seq<char>,
    pub baud_rate: u32,
    pub scope_show_window: bool,
    pub scope_palette: u8,
    pub scope_width: usize,
    pub scope_height: usize,
}

impl View for PanelSettings {
    type V = PanelModel;

    open spec fn view(&self) -> PanelModel {
        PanelModel {
            port_name: self.port_name@,
            baud_rate: self.baud_rate,
            scope_show_window: self.scope_show_window,
            scope_palette: self.scope_palette,
            scope_width: self.scope_width,
            scope_height: self.scope_height,
        }
    }
}

/// Serial speed used until another is saved.
pub const DEFAULT_BAUD_RATE: u32 = 115200;

/// Waterfall width (points per sweep) used until another is saved.
pub const DEFAULT_WATERFALL_WIDTH: usize = 475;

/// Waterfall height (sweeps kept) used until another is saved.
pub const DEFAULT_WATERFALL_HEIGHT: usize = 100;

/// A numeric setting: the saved value when it reads as a number up to `max`,
/// `default` otherwise.
pub open spec fn num_setting(st: Seq<(Seq<char>, Seq<char>)>, key: Seq<char>, max: nat, default: nat) -> nat {
    match setting_of(st, key) {
        Some(v) => match parse_unsigned(v, max) {
            Some(x) => x,
            None => default,
        },
        None => default,
    }
}

/// An on/off setting: on when saved as "1", off when saved as anything else,
/// `default` when not saved.
pub open spec fn flag_setting(st: Seq<(Seq<char>, Seq<char>)>, key: Seq<char>, default: bool) -> bool {
    match setting_of(st, key) {
        Some(v) => v == seq!['1'],
        None => default,
    }
}

/// A mode setting: the saved mode name (USB for an unknown name), `default`
/// when not saved.
pub open spec fn mode_setting(st: Seq<(Seq<char>, Seq<char>)>, key: Seq<char>, default: RadioMode) -> RadioMode {
    match setting_of(st, key) {
        Some(v) => mode_named(v, RadioMode::Usb),
        None => default,
    }
}

/// Reads a numeric setting.
fn read_num(settings: &[(String, String)], key: &str, max: u64, default: u64) -> (v: u64)
    requires
        default <= max,
    ensures
        v == num_setting(settings_view(settings@), key@, max as nat, default as nat),
        v <= max,
{
    match setting_value(settings, key) {
        Some(s) => {
            let c = chars_of(s.as_str());
            match parse_unsigned_chars(c.as_slice(), max) {
                Some(x) => x,
                None => default,
            }
        },
        None => default,
    }
}

/// Reads an on/off setting.
fn read_flag(settings: &[(String, String)], key: &str, default: bool) -> (v: bool)
    ensures
        v == flag_setting(settings_view(settings@), key@, default),
{
    match setting_value(settings, key) {
        Some(s) => {
            let c = chars_of(s.as_str());
            let one = ['1'];
            assert(one@ =~= seq!['1']);
            chars_equal(c.as_slice(), one.as_slice())
        },
        None => default,
    }
}

/// Reads a mode setting.
fn read_mode(settings: &[(String, String)], key: &str, default: RadioMode) -> (v: RadioMode)
    ensures
        v == mode_setting(settings_view(settings@), key@, default),
{
    match setting_value(settings, key) {
        Some(s) => mode_from_name(s.as_str(), RadioMode::Usb),
        None => default,
    }
}

/// The transceiver state restored from saved settings, starting from the
/// factory state `base`: each saved value replaces the factory one, the
/// per-VFO values default to the restored working values, and the working
/// values are finally taken from the active VFO.
pub open spec fn restored(st: Seq<(Seq<char>, Seq<char>)>, base: RadioState) -> RadioState {
    let frequency = num_setting(st, "frequency"@, u64::MAX as nat, base.frequency as nat) as u64;
    let mode = mode_setting(st, "mode"@, base.mode);
    let filter = num_setting(st, "filter"@, 255, base.filter as nat) as u8;
    let is_data = flag_setting(st, "is_data_mode"@, base.is_data_mode);
    let active_vfo = num_setting(st, "active_vfo"@, 255, base.active_vfo as nat) as u8;
    let fa = num_setting(st, "frequency_a"@, u64::MAX as nat, frequency as nat) as u64;
    let fb = num_setting(st, "frequency_b"@, u64::MAX as nat, frequency as nat) as u64;
    let ma = mode_setting(st, "mode_a"@, mode);
    let mb = mode_setting(st, "mode_b"@, mode);
    let fila = num_setting(st, "filter_a"@, 255, filter as nat) as u8;
    let filb = num_setting(st, "filter_b"@, 255, filter as nat) as u8;
    let da = flag_setting(st, "is_data_mode_a"@, is_data);
    let db = flag_setting(st, "is_data_mode_b"@, is_data);
    let a = active_vfo == 0;
    RadioState {
        frequency: if a { fa } else { fb },
        mode: if a { ma } else { mb },
        filter: if a { fila } else { filb },
        is_data_mode: if a { da } else { db },
        frequency_a: fa,
        frequency_b: fb,
        mode_a: ma,
        mode_b: mb,
        filter_a: fila,
        filter_b: filb,
        is_data_mode_a: da,
        is_data_mode_b: db,
        active_vfo,
        vfo_step: num_setting(st, "vfo_step"@, u64::MAX as nat, base.vfo_step as nat) as u64,
        af_gain: num_setting(st, "af_gain"@, 255, base.af_gain as nat) as u8,
        rf_gain: num_setting(st, "rf_gain"@, 255, base.rf_gain as nat) as u8,
        squelch: num_setting(st, "squelch"@, 255, base.squelch as nat) as u8,
        mic_gain: num_setting(st, "mic_gain"@, 255, base.mic_gain as nat) as u8,
        rf_power: num_setting(st, "rf_power"@, 255, base.rf_power as nat) as u8,
        comp_level: num_setting(st, "comp_level"@, 255, base.comp_level as nat) as u8,
        monitor_level: num_setting(st, "monitor_level"@, 255, base.monitor_level as nat) as u8,
        preamp: num_setting(st, "preamp"@, 255, base.preamp as nat) as u8,
        attenuator: flag_setting(st, "attenuator"@, base.attenuator),
        agc: num_setting(st, "agc"@, 255, base.agc as nat) as u8,
        tuner: flag_setting(st, "tuner"@, base.tuner),
        noise_blanker: flag_setting(st, "noise_blanker"@, base.noise_blanker),
        noise_reduction: flag_setting(st, "noise_reduction"@, base.noise_reduction),
        noise_blanker_level: num_setting(st, "noise_blanker_level"@, 255, base.noise_blanker_level as nat) as u8,
        noise_reduction_level: num_setting(st, "noise_reduction_level"@, 255, base.noise_reduction_level as nat) as u8,
        scope_enabled: flag_setting(st, "scope_enabled"@, base.scope_enabled),
        scope_span: num_setting(st, "scope_span"@, u32::MAX as nat, base.scope_span as nat) as u32,
        tx_lock: flag_setting(st, "tx_lock"@, base.tx_lock),
        usb_rx_level: num_setting(st, "usb_rx_level"@, 255, base.usb_rx_level as nat) as u8,
        usb_tx_level: num_setting(st, "usb_tx_level"@, 255, base.usb_tx_level as nat) as u8,
        split_active: flag_setting(st, "split_active"@, base.split_active),
        scope_center_frequency: if a { fa } else { fb },
        ..base
    }
}

/// Restores the transceiver state from saved settings onto the factory state.
pub fn restore_radio_state(settings: &[(String, String)], base: RadioState) -> (s: RadioState)
    ensures
        s == restored(settings_view(settings@), base),
{
    let frequency = read_num(settings, "frequency", u64::MAX, base.frequency);
    let mode = read_mode(settings, "mode", base.mode);
    let filter = read_num(settings, "filter", 255, base.filter as u64) as u8;
    let is_data = read_flag(settings, "is_data_mode", base.is_data_mode);
    let active_vfo = read_num(settings, "active_vfo", 255, base.active_vfo as u64) as u8;
    let fa = read_num(settings, "frequency_a", u64::MAX, frequency);
    let fb = read_num(settings, "frequency_b", u64::MAX, frequency);
    let ma = read_mode(settings, "mode_a", mode);
    let mb = read_mode(settings, "mode_b", mode);
    let fila = read_num(settings, "filter_a", 255, filter as u64) as u8;
    let filb = read_num(settings, "filter_b", 255, filter as u64) as u8;
    let da = read_flag(settings, "is_data_mode_a", is_data);
    let db = read_flag(settings, "is_data_mode_b", is_data);
    let a = active_vfo == 0;
    RadioState {
        frequency: if a { fa } else { fb },
        mode: if a { ma } else { mb },
        filter: if a { fila } else { filb },
        is_data_mode: if a { da } else { db },
        frequency_a: fa,
        frequency_b: fb,
        mode_a: ma,
        mode_b: mb,
        filter_a: fila,
        filter_b: filb,
        is_data_mode_a: da,
        is_data_mode_b: db,
        active_vfo,
        vfo_step: read_num(settings, "vfo_step", u64::MAX, base.vfo_step),
        af_gain: read_num(settings, "af_gain", 255, base.af_gain as u64) as u8,
        rf_gain: read_num(settings, "rf_gain", 255, base.rf_gain as u64) as u8,
        squelch: read_num(settings, "squelch", 255, base.squelch as u64) as u8,
        mic_gain: read_num(settings, "mic_gain", 255, base.mic_gain as u64) as u8,
        rf_power: read_num(settings, "rf_power", 255, base.rf_power as u64) as u8,
        comp_level: read_num(settings, "comp_level", 255, base.comp_level as u64) as u8,
        monitor_level: read_num(settings, "monitor_level", 255, base.monitor_level as u64) as u8,
        preamp: read_num(settings, "preamp", 255, base.preamp as u64) as u8,
        attenuator: read_flag(settings, "attenuator", base.attenuator),
        agc: read_num(settings, "agc", 255, base.agc as u64) as u8,
        tuner: read_flag(settings, "tuner", base.tuner),
        noise_blanker: read_flag(settings, "noise_blanker", base.noise_blanker),
        noise_reduction: read_flag(settings, "noise_reduction", base.noise_reduction),
        noise_blanker_level: read_num(settings, "noise_blanker_level", 255, base.noise_blanker_level as u64) as u8,
        noise_reduction_level: read_num(settings, "noise_reduction_level", 255, base.noise_reduction_level as u64) as u8,
        scope_enabled: read_flag(settings, "scope_enabled", base.scope_enabled),
        scope_span: read_num(settings, "scope_span", 0xFFFF_FFFF, base.scope_span as u64) as u32,
        tx_lock: read_flag(settings, "tx_lock", base.tx_lock),
        usb_rx_level: read_num(settings, "usb_rx_level", 255, base.usb_rx_level as u64) as u8,
        usb_tx_level: read_num(settings, "usb_tx_level", 255, base.usb_tx_level as u64) as u8,
        split_active: read_flag(settings, "split_active", base.split_active),
        scope_center_frequency: if a { fa } else { fb },
        ..base
    }
}


/// The panel settings restored from saved settings; `default_port` is the
/// port used when none is saved.
pub open spec fn panel_restored(st: Seq<(Seq<char>, Seq<char>)>, default_port: Seq<char>) -> PanelModel {
    PanelModel {
        port_name: match setting_of(st, "port_name"@) {
            Some(v) => v,
            None => default_port,
        },
        baud_rate: num_setting(st, "baud_rate"@, u32::MAX as nat, DEFAULT_BAUD_RATE as nat) as u32,
        scope_show_window: flag_setting(st, "scope_show_window"@, false),
        scope_palette: num_setting(st, "scope_waterfall_palette"@, 255, 0) as u8,
        scope_width: num_setting(st, "scope_waterfall_width"@, usize::MAX as nat, DEFAULT_WATERFALL_WIDTH as nat) as usize,
        scope_height: num_setting(st, "scope_waterfall_height"@, usize::MAX as nat, DEFAULT_WATERFALL_HEIGHT as nat) as usize,
    }
}

/// Restores the panel settings from saved settings.
pub fn restore_panel_settings(settings: &[(String, String)], default_port: String) -> (p: PanelSettings)
    ensures
        p@ == panel_restored(settings_view(settings@), default_port@),
{
    let port_name = match setting_value(settings, "port_name") {
        Some(v) => v,
        None => default_port,
    };
    PanelSettings {
        port_name,
        baud_rate: read_num(settings, "baud_rate", 0xFFFF_FFFF, DEFAULT_BAUD_RATE as u64) as u32,
        scope_show_window: read_flag(settings, "scope_show_window", false),
        scope_palette: read_num(settings, "scope_waterfall_palette", 255, 0) as u8,
        scope_width: read_num(settings, "scope_waterfall_width", usize::MAX as u64, DEFAULT_WATERFALL_WIDTH as u64) as usize,
        scope_height: read_num(settings, "scope_waterfall_height", usize::MAX as u64, DEFAULT_WATERFALL_HEIGHT as u64) as usize,
    }
}

/// What a settings backup import changes at once in the running panel: the
/// port, the serial speed, the working frequency (tuned to as a typed
/// frequency is) and the TX lock, each when stored and readable.
pub open spec fn imported_panel(p: PanelModel, st: Seq<(Seq<char>, Seq<char>)>) -> PanelModel {
    PanelModel {
        port_name: match setting_of(st, "port_name"@) {
            Some(v) => v,
            None => p.port_name,
        },
        baud_rate: num_setting(st, "baud_rate"@, u32::MAX as nat, p.baud_rate as nat) as u32,
        ..p
    }
}

/// The frequency a settings backup import tunes to, if any.
pub open spec fn imported_frequency(st: Seq<(Seq<char>, Seq<char>)>) -> Option<i64> {
    match setting_of(st, "frequency"@) {
        Some(v) => match parse_signed(v, i64::MAX as nat) {
            Some(f) => Some(f as i64),
            None => None,
        },
        None => None,
    }
}

/// The transceiver state after a settings backup import.
pub open spec fn imported_state(s: RadioState, st: Seq<(Seq<char>, Seq<char>)>, now: u64) -> RadioState {
    let t = match imported_frequency(st) {
        Some(f) => after_set_frequency(s, f, now),
        None => s,
    };
    RadioState { tx_lock: flag_setting(st, "tx_lock"@, t.tx_lock), ..t }
}

/// Applies, at once, the settings just imported from a backup: port, serial
/// speed, working frequency and TX lock. The other settings apply at the
/// next start.
#[verifier::rlimit(60)]
pub fn apply_imported_settings(
    state: &mut RadioState,
    panel: &mut PanelSettings,
    settings: &[(String, String)],
    now_ms: u64,
) -> (r: Reaction)
    ensures
        final(panel)@ == imported_panel(old(panel)@, settings_view(settings@)),
        *final(state) == imported_state(*old(state), settings_view(settings@), now_ms),
        r.refresh_stations == (match imported_frequency(settings_view(settings@)) {
            Some(f) => clamp_freq(f) != old(state).frequency,
            None => false,
        }),
        r.commands@ == (match imported_frequency(settings_view(settings@)) {
            Some(f) => if clamp_freq(f) != old(state).frequency {
                when_connected(*old(state), seq![Command::SetFrequency(clamp_freq(f))])
            } else {
                seq![]
            },
            None => seq![],
        }),
{
    import_panel(panel, settings);
    let reaction = import_frequency(state, settings, now_ms);
    let lock = read_flag(settings, "tx_lock", state.tx_lock);
    *state = RadioState { tx_lock: lock, ..*state };
    reaction
}

/// Takes the port and the serial speed of imported settings.
fn import_panel(panel: &mut PanelSettings, settings: &[(String, String)])
    ensures
        final(panel)@ == imported_panel(old(panel)@, settings_view(settings@)),
{
    let port_name = match setting_value(settings, "port_name") {
        Some(v) => v,
        None => panel.port_name.clone(),
    };
    let baud_rate = read_num(settings, "baud_rate", 0xFFFF_FFFF, panel.baud_rate as u64) as u32;
    panel.port_name = port_name;
    panel.baud_rate = baud_rate;
}

/// Tunes to the frequency of imported settings, if one is stored and
/// readable.
fn import_frequency(state: &mut RadioState, settings: &[(String, String)], now_ms: u64) -> (r: Reaction)
    ensures
        *final(state) == (match imported_frequency(settings_view(settings@)) {
            Some(f) => after_set_frequency(*old(state), f, now_ms),
            None => *old(state),
        }),
        r.refresh_stations == (match imported_frequency(settings_view(settings@)) {
            Some(f) => clamp_freq(f) != old(state).frequency,
            None => false,
        }),
        r.commands@ == (match imported_frequency(settings_view(settings@)) {
            Some(f) => if clamp_freq(f) != old(state).frequency {
                when_connected(*old(state), seq![Command::SetFrequency(clamp_freq(f))])
            } else {
                seq![]
            },
            None => seq![],
        }),
{
    match setting_value(settings, "frequency") {
        Some(v) => {
            let c = chars_of(v.as_str());
            match parse_i64_chars(c.as_slice()) {
                Some(f) => state.set_frequency_from_i64(f, now_ms),
                None => Reaction { commands: Vec::new(), refresh_stations: false },
            }
        },
        None => Reaction { commands: Vec::new(), refresh_stations: false },
    }
}

/// "1" for on, "0" for off.
fn flag_string(b: bool) -> (s: String)
    ensures
        s@ == flag_text(b),
{
    let c = if b { ['1'] } else { ['0'] };
    assert(c@ =~= flag_text(b));
    string_from_chars(c.as_slice())
}

/// Appends one setting.
fn push_setting(settings: &mut Vec<(String, String)>, key: &str, value: String)
    ensures
        settings_view(final(settings)@) == settings_view(old(settings)@).push((key@, value@)),
{
    settings.push((key.to_owned(), value));
    assert(settings_view(settings@) =~= settings_view(old(settings)@).push((key@, value@)));
}

/// Stored settings: the active VFO's tuning, the serial port and the tuning step.
pub open spec fn tuning_settings(s: RadioState, p: PanelModel) -> Seq<(Seq<char>, Seq<char>)> {
    Seq::empty()
        .push(("port_name"@, p.port_name))
        .push(("baud_rate"@, decimal(p.baud_rate as nat)))
        .push(("frequency"@, decimal(s.frequency as nat)))
        .push(("mode"@, mode_name_of(s.mode)))
        .push(("filter"@, decimal(s.filter as nat)))
        .push(("is_data_mode"@, flag_text(s.is_data_mode)))
        .push(("vfo_step"@, decimal(s.vfo_step as nat)))
}

/// Stored settings: the receive and transmit levels and the preamplifier.
pub open spec fn level_settings(s: RadioState) -> Seq<(Seq<char>, Seq<char>)> {
    Seq::empty()
        .push(("af_gain"@, decimal(s.af_gain as nat)))
        .push(("rf_gain"@, decimal(s.rf_gain as nat)))
        .push(("squelch"@, decimal(s.squelch as nat)))
        .push(("mic_gain"@, decimal(s.mic_gain as nat)))
        .push(("rf_power"@, decimal(s.rf_power as nat)))
        .push(("comp_level"@, decimal(s.comp_level as nat)))
        .push(("monitor_level"@, decimal(s.monitor_level as nat)))
        .push(("preamp"@, decimal(s.preamp as nat)))
}

/// Stored settings: the attenuator, AGC, tuner and noise reduction settings.
pub open spec fn receiver_settings(s: RadioState) -> Seq<(Seq<char>, Seq<char>)> {
    Seq::empty()
        .push(("attenuator"@, flag_text(s.attenuator)))
        .push(("agc"@, decimal(s.agc as nat)))
        .push(("tuner"@, flag_text(s.tuner)))
        .push(("noise_blanker"@, flag_text(s.noise_blanker)))
        .push(("noise_reduction"@, flag_text(s.noise_reduction)))
        .push(("noise_blanker_level"@, decimal(s.noise_blanker_level as nat)))
        .push(("noise_reduction_level"@, decimal(s.noise_reduction_level as nat)))
}

/// Stored settings: the band scope and waterfall settings.
pub open spec fn scope_settings(s: RadioState, p: PanelModel, offset: Seq<char>, gain: Seq<char>) -> Seq<(Seq<char>, Seq<char>)> {
    Seq::empty()
        .push(("scope_show_window"@, flag_text(p.scope_show_window)))
        .push(("scope_enabled"@, flag_text(s.scope_enabled)))
        .push(("scope_span"@, decimal(s.scope_span as nat)))
        .push(("scope_waterfall_offset"@, offset))
        .push(("scope_waterfall_gain"@, gain))
        .push(("scope_waterfall_palette"@, decimal(p.scope_palette as nat)))
        .push(("scope_waterfall_width"@, decimal(p.scope_width as nat)))
        .push(("scope_waterfall_height"@, decimal(p.scope_height as nat)))
}

/// Stored settings: the transmit lock, USB audio levels and VFO selection.
pub open spec fn transmit_settings(s: RadioState) -> Seq<(Seq<char>, Seq<char>)> {
    Seq::empty()
        .push(("tx_lock"@, flag_text(s.tx_lock)))
        .push(("usb_rx_level"@, decimal(s.usb_rx_level as nat)))
        .push(("usb_tx_level"@, decimal(s.usb_tx_level as nat)))
        .push(("active_vfo"@, decimal(s.active_vfo as nat)))
        .push(("split_active"@, flag_text(s.split_active)))
}

/// Stored settings: the tuning of each VFO.
pub open spec fn vfo_settings(s: RadioState) -> Seq<(Seq<char>, Seq<char>)> {
    Seq::empty()
        .push(("frequency_a"@, decimal(s.frequency_a as nat)))
        .push(("frequency_b"@, decimal(s.frequency_b as nat)))
        .push(("mode_a"@, mode_name_of(s.mode_a)))
        .push(("mode_b"@, mode_name_of(s.mode_b)))
        .push(("filter_a"@, decimal(s.filter_a as nat)))
        .push(("filter_b"@, decimal(s.filter_b as nat)))
        .push(("is_data_mode_a"@, flag_text(s.is_data_mode_a)))
        .push(("is_data_mode_b"@, flag_text(s.is_data_mode_b)))
}

/// What the panel stores when it closes, key by key, in this order.
pub open spec fn saved_settings(s: RadioState, p: PanelModel, offset: Seq<char>, gain: Seq<char>) -> Seq<(Seq<char>, Seq<char>)> {
    tuning_settings(s, p) + level_settings(s) + receiver_settings(s) + scope_settings(s, p, offset, gain)
        + transmit_settings(s) + vfo_settings(s)
}

/// Appends the stored settings: the active VFO's tuning, the serial port and the tuning step.
fn push_tuning_settings(settings: &mut Vec<(String, String)>, state: &RadioState, panel: &PanelSettings)
    ensures
        settings_view(final(settings)@) == settings_view(old(settings)@) + tuning_settings(*state, panel@),
{
    let ghost start = settings_view(settings@);
    push_setting(settings, "port_name", panel.port_name.clone());
    push_setting(settings, "baud_rate", decimal_string(panel.baud_rate as u64));
    push_setting(settings, "frequency", decimal_string(state.frequency));
    push_setting(settings, "mode", mode_name(state.mode));
    push_setting(settings, "filter", decimal_string(state.filter as u64));
    push_setting(settings, "is_data_mode", flag_string(state.is_data_mode));
    push_setting(settings, "vfo_step", decimal_string(state.vfo_step));
    assert(settings_view(settings@) =~= start + tuning_settings(*state, panel@));
}

/// Appends the stored settings: the receive and transmit levels and the preamplifier.
fn push_level_settings(settings: &mut Vec<(String, String)>, state: &RadioState)
    ensures
        settings_view(final(settings)@) == settings_view(old(settings)@) + level_settings(*state),
{
    let ghost start = settings_view(settings@);
    push_setting(settings, "af_gain", decimal_string(state.af_gain as u64));
    push_setting(settings, "rf_gain", decimal_string(state.rf_gain as u64));
    push_setting(settings, "squelch", decimal_string(state.squelch as u64));
    push_setting(settings, "mic_gain", decimal_string(state.mic_gain as u64));
    push_setting(settings, "rf_power", decimal_string(state.rf_power as u64));
    push_setting(settings, "comp_level", decimal_string(state.comp_level as u64));
    push_setting(settings, "monitor_level", decimal_string(state.monitor_level as u64));
    push_setting(settings, "preamp", decimal_string(state.preamp as u64));
    assert(settings_view(settings@) =~= start + level_settings(*state));
}

/// Appends the stored settings: the attenuator, AGC, tuner and noise reduction settings.
fn push_receiver_settings(settings: &mut Vec<(String, String)>, state: &RadioState)
    ensures
        settings_view(final(settings)@) == settings_view(old(settings)@) + receiver_settings(*state),
{
    let ghost start = settings_view(settings@);
    push_setting(settings, "attenuator", flag_string(state.attenuator));
    push_setting(settings, "agc", decimal_string(state.agc as u64));
    push_setting(settings, "tuner", flag_string(state.tuner));
    push_setting(settings, "noise_blanker", flag_string(state.noise_blanker));
    push_setting(settings, "noise_reduction", flag_string(state.noise_reduction));
    push_setting(settings, "noise_blanker_level", decimal_string(state.noise_blanker_level as u64));
    push_setting(settings, "noise_reduction_level", decimal_string(state.noise_reduction_level as u64));
    assert(settings_view(settings@) =~= start + receiver_settings(*state));
}

/// Appends the stored settings: the band scope and waterfall settings.
fn push_scope_settings(settings: &mut Vec<(String, String)>, state: &RadioState, panel: &PanelSettings, waterfall_offset: String, waterfall_gain: String)
    ensures
        settings_view(final(settings)@) == settings_view(old(settings)@) + scope_settings(*state, panel@, waterfall_offset@, waterfall_gain@),
{
    let ghost start = settings_view(settings@);
    push_setting(settings, "scope_show_window", flag_string(panel.scope_show_window));
    push_setting(settings, "scope_enabled", flag_string(state.scope_enabled));
    push_setting(settings, "scope_span", decimal_string(state.scope_span as u64));
    push_setting(settings, "scope_waterfall_offset", waterfall_offset);
    push_setting(settings, "scope_waterfall_gain", waterfall_gain);
    push_setting(settings, "scope_waterfall_palette", decimal_string(panel.scope_palette as u64));
    push_setting(settings, "scope_waterfall_width", decimal_string(panel.scope_width as u64));
    push_setting(settings, "scope_waterfall_height", decimal_string(panel.scope_height as u64));
    assert(settings_view(settings@) =~= start + scope_settings(*state, panel@, waterfall_offset@, waterfall_gain@));
}

/// Appends the stored settings: the transmit lock, USB audio levels and VFO selection.
fn push_transmit_settings(settings: &mut Vec<(String, String)>, state: &RadioState)
    ensures
        settings_view(final(settings)@) == settings_view(old(settings)@) + transmit_settings(*state),
{
    let ghost start = settings_view(settings@);
    push_setting(settings, "tx_lock", flag_string(state.tx_lock));
    push_setting(settings, "usb_rx_level", decimal_string(state.usb_rx_level as u64));
    push_setting(settings, "usb_tx_level", decimal_string(state.usb_tx_level as u64));
    push_setting(settings, "active_vfo", decimal_string(state.active_vfo as u64));
    push_setting(settings, "split_active", flag_string(state.split_active));
    assert(settings_view(settings@) =~= start + transmit_settings(*state));
}

/// Appends the stored settings: the tuning of each VFO.
fn push_vfo_settings(settings: &mut Vec<(String, String)>, state: &RadioState)
    ensures
        settings_view(final(settings)@) == settings_view(old(settings)@) + vfo_settings(*state),
{
    let ghost start = settings_view(settings@);
    push_setting(settings, "frequency_a", decimal_string(state.frequency_a));
    push_setting(settings, "frequency_b", decimal_string(state.frequency_b));
    push_setting(settings, "mode_a", mode_name(state.mode_a));
    push_setting(settings, "mode_b", mode_name(state.mode_b));
    push_setting(settings, "filter_a", decimal_string(state.filter_a as u64));
    push_setting(settings, "filter_b", decimal_string(state.filter_b as u64));
    push_setting(settings, "is_data_mode_a", flag_string(state.is_data_mode_a));
    push_setting(settings, "is_data_mode_b", flag_string(state.is_data_mode_b));
    assert(settings_view(settings@) =~= start + vfo_settings(*state));
}

/// The settings the panel stores when it closes: the transceiver state, the
/// panel's own settings, and the waterfall contrast settings as written by
/// the caller.
pub fn save_settings(state: &RadioState, panel: &PanelSettings, waterfall_offset: String, waterfall_gain: String) -> (settings: Vec<(String, String)>)
    ensures
        settings_view(settings@) == saved_settings(*state, panel@, waterfall_offset@, waterfall_gain@),
{
    let mut settings: Vec<(String, String)> = Vec::new();
    assert(settings_view(settings@) =~= Seq::<(Seq<char>, Seq<char>)>::empty());
    push_tuning_settings(&mut settings, state, panel);
    push_level_settings(&mut settings, state);
    push_receiver_settings(&mut settings, state);
    push_scope_settings(&mut settings, state, panel, waterfall_offset, waterfall_gain);
    push_transmit_settings(&mut settings, state);
    push_vfo_settings(&mut settings, state);
    assert(settings_view(settings@) =~= saved_settings(*state, panel@, waterfall_offset@, waterfall_gain@));
    settings
}


/// Lookup in a list of settings with one more stored at its end: the new one
/// wins for its key.
proof fn lemma_setting_of_push()
    ensures
        forall|st: Seq<(Seq<char>, Seq<char>)>, e: (Seq<char>, Seq<char>), k: Seq<char>|
            #[trigger] setting_of(st.push(e), k) == (if e.0 == k {
                Some(e.1)
            } else {
                setting_of(st, k)
            }),
{
    assert forall|st: Seq<(Seq<char>, Seq<char>)>, e: (Seq<char>, Seq<char>), k: Seq<char>|
        #[trigger] setting_of(st.push(e), k) == (if e.0 == k {
            Some(e.1)
        } else {
            setting_of(st, k)
        }) by {
        assert(st.push(e).drop_last() =~= st);
    }
}

/// Lookup in two lists of settings stored one after the other: the later
/// list wins.
proof fn lemma_setting_of_concat(a: Seq<(Seq<char>, Seq<char>)>, b: Seq<(Seq<char>, Seq<char>)>)
    ensures
        forall|k: Seq<char>|
            #[trigger] setting_of(a + b, k) == (match setting_of(b, k) {
                Some(v) => Some(v),
                None => setting_of(a, k),
            }),
    decreases b.len(),
{
    if b.len() == 0 {
        assert(a + b =~= a);
    } else {
        lemma_setting_of_concat(a, b.drop_last());
        assert((a + b).drop_last() =~= a + b.drop_last());
        assert((a + b).last() == b.last());
        assert forall|k: Seq<char>|
            #[trigger] setting_of(a + b, k) == (match setting_of(b, k) {
                Some(v) => Some(v),
                None => setting_of(a, k),
            }) by {
            assert(setting_of(a + b.drop_last(), k) == (match setting_of(b.drop_last(), k) {
                Some(v) => Some(v),
                None => setting_of(a, k),
            }));
        }
    }
}

/// Which settings one group of stored settings holds.
proof fn lemma_tuning_settings_lookup(s: RadioState, p: PanelModel)
    ensures
        setting_of(tuning_settings(s, p), "port_name"@) == Some(p.port_name),
        setting_of(tuning_settings(s, p), "baud_rate"@) == Some(decimal(p.baud_rate as nat)),
        setting_of(tuning_settings(s, p), "frequency"@) == Some(decimal(s.frequency as nat)),
        setting_of(tuning_settings(s, p), "mode"@) == Some(mode_name_of(s.mode)),
        setting_of(tuning_settings(s, p), "filter"@) == Some(decimal(s.filter as nat)),
        setting_of(tuning_settings(s, p), "is_data_mode"@) == Some(flag_text(s.is_data_mode)),
        setting_of(tuning_settings(s, p), "vfo_step"@) == Some(decimal(s.vfo_step as nat)),
{
    reveal_strlit("port_name");
    assert("port_name"@.len() == 9);
    reveal_strlit("baud_rate");
    assert("baud_rate"@.len() == 9);
    reveal_strlit("frequency");
    assert("frequency"@.len() == 9);
    reveal_strlit("mode");
    assert("mode"@.len() == 4);
    reveal_strlit("filter");
    assert("filter"@.len() == 6);
    reveal_strlit("is_data_mode");
    assert("is_data_mode"@.len() == 12);
    reveal_strlit("vfo_step");
    assert("vfo_step"@.len() == 8);
    assert("baud_rate"@[0] != "frequency"@[0]);
    assert("baud_rate"@[0] != "port_name"@[0]);
    assert("frequency"@[0] != "port_name"@[0]);
    lemma_setting_of_push();
}

/// Which settings one group of stored settings holds.
proof fn lemma_level_settings_lookup(s: RadioState)
    ensures
        setting_of(level_settings(s), "af_gain"@) == Some(decimal(s.af_gain as nat)),
        setting_of(level_settings(s), "rf_gain"@) == Some(decimal(s.rf_gain as nat)),
        setting_of(level_settings(s), "squelch"@) == Some(decimal(s.squelch as nat)),
        setting_of(level_settings(s), "mic_gain"@) == Some(decimal(s.mic_gain as nat)),
        setting_of(level_settings(s), "rf_power"@) == Some(decimal(s.rf_power as nat)),
        setting_of(level_settings(s), "comp_level"@) == Some(decimal(s.comp_level as nat)),
        setting_of(level_settings(s), "monitor_level"@) == Some(decimal(s.monitor_level as nat)),
        setting_of(level_settings(s), "preamp"@) == Some(decimal(s.preamp as nat)),
        setting_of(level_settings(s), "port_name"@) is None,
        setting_of(level_settings(s), "baud_rate"@) is None,
        setting_of(level_settings(s), "frequency"@) is None,
        setting_of(level_settings(s), "mode"@) is None,
        setting_of(level_settings(s), "filter"@) is None,
        setting_of(level_settings(s), "is_data_mode"@) is None,
        setting_of(level_settings(s), "vfo_step"@) is None,
{
    reveal_strlit("af_gain");
    assert("af_gain"@.len() == 7);
    reveal_strlit("rf_gain");
    assert("rf_gain"@.len() == 7);
    reveal_strlit("squelch");
    assert("squelch"@.len() == 7);
    reveal_strlit("mic_gain");
    assert("mic_gain"@.len() == 8);
    reveal_strlit("rf_power");
    assert("rf_power"@.len() == 8);
    reveal_strlit("comp_level");
    assert("comp_level"@.len() == 10);
    reveal_strlit("monitor_level");
    assert("monitor_level"@.len() == 13);
    reveal_strlit("preamp");
    assert("preamp"@.len() == 6);
    reveal_strlit("port_name");
    assert("port_name"@.len() == 9);
    reveal_strlit("baud_rate");
    assert("baud_rate"@.len() == 9);
    reveal_strlit("frequency");
    assert("frequency"@.len() == 9);
    reveal_strlit("mode");
    assert("mode"@.len() == 4);
    reveal_strlit("filter");
    assert("filter"@.len() == 6);
    reveal_strlit("is_data_mode");
    assert("is_data_mode"@.len() == 12);
    reveal_strlit("vfo_step");
    assert("vfo_step"@.len() == 8);
    assert("af_gain"@[0] != "rf_gain"@[0]);
    assert("af_gain"@[0] != "squelch"@[0]);
    assert("filter"@[0] != "preamp"@[0]);
    assert("mic_gain"@[0] != "rf_power"@[0]);
    assert("mic_gain"@[0] != "vfo_step"@[0]);
    assert("rf_gain"@[0] != "squelch"@[0]);
    assert("rf_power"@[0] != "vfo_step"@[0]);
    lemma_setting_of_push();
}

/// Which settings one group of stored settings holds.
proof fn lemma_receiver_settings_lookup(s: RadioState)
    ensures
        setting_of(receiver_settings(s), "attenuator"@) == Some(flag_text(s.attenuator)),
        setting_of(receiver_settings(s), "agc"@) == Some(decimal(s.agc as nat)),
        setting_of(receiver_settings(s), "tuner"@) == Some(flag_text(s.tuner)),
        setting_of(receiver_settings(s), "noise_blanker"@) == Some(flag_text(s.noise_blanker)),
        setting_of(receiver_settings(s), "noise_reduction"@) == Some(flag_text(s.noise_reduction)),
        setting_of(receiver_settings(s), "noise_blanker_level"@) == Some(decimal(s.noise_blanker_level as nat)),
        setting_of(receiver_settings(s), "noise_reduction_level"@) == Some(decimal(s.noise_reduction_level as nat)),
        setting_of(receiver_settings(s), "port_name"@) is None,
        setting_of(receiver_settings(s), "baud_rate"@) is None,
        setting_of(receiver_settings(s), "frequency"@) is None,
        setting_of(receiver_settings(s), "mode"@) is None,
        setting_of(receiver_settings(s), "filter"@) is None,
        setting_of(receiver_settings(s), "is_data_mode"@) is None,
        setting_of(receiver_settings(s), "vfo_step"@) is None,
        setting_of(receiver_settings(s), "af_gain"@) is None,
        setting_of(receiver_settings(s), "rf_gain"@) is None,
        setting_of(receiver_settings(s), "squelch"@) is None,
        setting_of(receiver_settings(s), "mic_gain"@) is None,
        setting_of(receiver_settings(s), "rf_power"@) is None,
        setting_of(receiver_settings(s), "comp_level"@) is None,
        setting_of(receiver_settings(s), "monitor_level"@) is None,
        setting_of(receiver_settings(s), "preamp"@) is None,
{
    reveal_strlit("attenuator");
    assert("attenuator"@.len() == 10);
    reveal_strlit("agc");
    assert("agc"@.len() == 3);
    reveal_strlit("tuner");
    assert("tuner"@.len() == 5);
    reveal_strlit("noise_blanker");
    assert("noise_blanker"@.len() == 13);
    reveal_strlit("noise_reduction");
    assert("noise_reduction"@.len() == 15);
    reveal_strlit("noise_blanker_level");
    assert("noise_blanker_level"@.len() == 19);
    reveal_strlit("noise_reduction_level");
    assert("noise_reduction_level"@.len() == 21);
    reveal_strlit("port_name");
    assert("port_name"@.len() == 9);
    reveal_strlit("baud_rate");
    assert("baud_rate"@.len() == 9);
    reveal_strlit("frequency");
    assert("frequency"@.len() == 9);
    reveal_strlit("mode");
    assert("mode"@.len() == 4);
    reveal_strlit("filter");
    assert("filter"@.len() == 6);
    reveal_strlit("is_data_mode");
    assert("is_data_mode"@.len() == 12);
    reveal_strlit("vfo_step");
    assert("vfo_step"@.len() == 8);
    reveal_strlit("af_gain");
    assert("af_gain"@.len() == 7);
    reveal_strlit("rf_gain");
    assert("rf_gain"@.len() == 7);
    reveal_strlit("squelch");
    assert("squelch"@.len() == 7);
    reveal_strlit("mic_gain");
    assert("mic_gain"@.len() == 8);
    reveal_strlit("rf_power");
    assert("rf_power"@.len() == 8);
    reveal_strlit("comp_level");
    assert("comp_level"@.len() == 10);
    reveal_strlit("monitor_level");
    assert("monitor_level"@.len() == 13);
    reveal_strlit("preamp");
    assert("preamp"@.len() == 6);
    assert("attenuator"@[0] != "comp_level"@[0]);
    assert("monitor_level"@[0] != "noise_blanker"@[0]);
    lemma_setting_of_push();
}

/// Which settings one group of stored settings holds.
proof fn lemma_scope_settings_lookup(s: RadioState, p: PanelModel, offset: Seq<char>, gain: Seq<char>)
    ensures
        setting_of(scope_settings(s, p, offset, gain), "scope_show_window"@) == Some(flag_text(p.scope_show_window)),
        setting_of(scope_settings(s, p, offset, gain), "scope_enabled"@) == Some(flag_text(s.scope_enabled)),
        setting_of(scope_settings(s, p, offset, gain), "scope_span"@) == Some(decimal(s.scope_span as nat)),
        setting_of(scope_settings(s, p, offset, gain), "scope_waterfall_palette"@) == Some(decimal(p.scope_palette as nat)),
        setting_of(scope_settings(s, p, offset, gain), "scope_waterfall_width"@) == Some(decimal(p.scope_width as nat)),
        setting_of(scope_settings(s, p, offset, gain), "scope_waterfall_height"@) == Some(decimal(p.scope_height as nat)),
        setting_of(scope_settings(s, p, offset, gain), "port_name"@) is None,
        setting_of(scope_settings(s, p, offset, gain), "baud_rate"@) is None,
        setting_of(scope_settings(s, p, offset, gain), "frequency"@) is None,
        setting_of(scope_settings(s, p, offset, gain), "mode"@) is None,
        setting_of(scope_settings(s, p, offset, gain), "filter"@) is None,
        setting_of(scope_settings(s, p, offset, gain), "is_data_mode"@) is None,
        setting_of(scope_settings(s, p, offset, gain), "vfo_step"@) is None,
        setting_of(scope_settings(s, p, offset, gain), "af_gain"@) is None,
        setting_of(scope_settings(s, p, offset, gain), "rf_gain"@) is None,
        setting_of(scope_settings(s, p, offset, gain), "squelch"@) is None,
        setting_of(scope_settings(s, p, offset, gain), "mic_gain"@) is None,
        setting_of(scope_settings(s, p, offset, gain), "rf_power"@) is None,
        setting_of(scope_settings(s, p, offset, gain), "comp_level"@) is None,
        setting_of(scope_settings(s, p, offset, gain), "monitor_level"@) is None,
        setting_of(scope_settings(s, p, offset, gain), "preamp"@) is None,
        setting_of(scope_settings(s, p, offset, gain), "attenuator"@) is None,
        setting_of(scope_settings(s, p, offset, gain), "agc"@) is None,
        setting_of(scope_settings(s, p, offset, gain), "tuner"@) is None,
        setting_of(scope_settings(s, p, offset, gain), "noise_blanker"@) is None,
        setting_of(scope_settings(s, p, offset, gain), "noise_reduction"@) is None,
        setting_of(scope_settings(s, p, offset, gain), "noise_blanker_level"@) is None,
        setting_of(scope_settings(s, p, offset, gain), "noise_reduction_level"@) is None,
{
    reveal_strlit("scope_show_window");
    assert("scope_show_window"@.len() == 17);
    reveal_strlit("scope_enabled");
    assert("scope_enabled"@.len() == 13);
    reveal_strlit("scope_span");
    assert("scope_span"@.len() == 10);
    reveal_strlit("scope_waterfall_offset");
    assert("scope_waterfall_offset"@.len() == 22);
    reveal_strlit("scope_waterfall_gain");
    assert("scope_waterfall_gain"@.len() == 20);
    reveal_strlit("scope_waterfall_palette");
    assert("scope_waterfall_palette"@.len() == 23);
    reveal_strlit("scope_waterfall_width");
    assert("scope_waterfall_width"@.len() == 21);
    reveal_strlit("scope_waterfall_height");
    assert("scope_waterfall_height"@.len() == 22);
    reveal_strlit("port_name");
    assert("port_name"@.len() == 9);
    reveal_strlit("baud_rate");
    assert("baud_rate"@.len() == 9);
    reveal_strlit("frequency");
    assert("frequency"@.len() == 9);
    reveal_strlit("mode");
    assert("mode"@.len() == 4);
    reveal_strlit("filter");
    assert("filter"@.len() == 6);
    reveal_strlit("is_data_mode");
    assert("is_data_mode"@.len() == 12);
    reveal_strlit("vfo_step");
    assert("vfo_step"@.len() == 8);
    reveal_strlit("af_gain");
    assert("af_gain"@.len() == 7);
    reveal_strlit("rf_gain");
    assert("rf_gain"@.len() == 7);
    reveal_strlit("squelch");
    assert("squelch"@.len() == 7);
    reveal_strlit("mic_gain");
    assert("mic_gain"@.len() == 8);
    reveal_strlit("rf_power");
    assert("rf_power"@.len() == 8);
    reveal_strlit("comp_level");
    assert("comp_level"@.len() == 10);
    reveal_strlit("monitor_level");
    assert("monitor_level"@.len() == 13);
    reveal_strlit("preamp");
    assert("preamp"@.len() == 6);
    reveal_strlit("attenuator");
    assert("attenuator"@.len() == 10);
    reveal_strlit("agc");
    assert("agc"@.len() == 3);
    reveal_strlit("tuner");
    assert("tuner"@.len() == 5);
    reveal_strlit("noise_blanker");
    assert("noise_blanker"@.len() == 13);
    reveal_strlit("noise_reduction");
    assert("noise_reduction"@.len() == 15);
    reveal_strlit("noise_blanker_level");
    assert("noise_blanker_level"@.len() == 19);
    reveal_strlit("noise_reduction_level");
    assert("noise_reduction_level"@.len() == 21);
    assert("attenuator"@[0] != "scope_span"@[0]);
    assert("comp_level"@[0] != "scope_span"@[0]);
    assert("monitor_level"@[0] != "scope_enabled"@[0]);
    assert("noise_blanker"@[0] != "scope_enabled"@[0]);
    assert("noise_reduction_level"@[0] != "scope_waterfall_width"@[0]);
    assert("scope_waterfall_height"@[16] != "scope_waterfall_offset"@[16]);
    lemma_setting_of_push();
}

/// Which settings one group of stored settings holds.
proof fn lemma_transmit_settings_lookup(s: RadioState)
    ensures
        setting_of(transmit_settings(s), "tx_lock"@) == Some(flag_text(s.tx_lock)),
        setting_of(transmit_settings(s), "usb_rx_level"@) == Some(decimal(s.usb_rx_level as nat)),
        setting_of(transmit_settings(s), "usb_tx_level"@) == Some(decimal(s.usb_tx_level as nat)),
        setting_of(transmit_settings(s), "active_vfo"@) == Some(decimal(s.active_vfo as nat)),
        setting_of(transmit_settings(s), "split_active"@) == Some(flag_text(s.split_active)),
        setting_of(transmit_settings(s), "port_name"@) is None,
        setting_of(transmit_settings(s), "baud_rate"@) is None,
        setting_of(transmit_settings(s), "frequency"@) is None,
        setting_of(transmit_settings(s), "mode"@) is None,
        setting_of(transmit_settings(s), "filter"@) is None,
        setting_of(transmit_settings(s), "is_data_mode"@) is None,
        setting_of(transmit_settings(s), "vfo_step"@) is None,
        setting_of(transmit_settings(s), "af_gain"@) is None,
        setting_of(transmit_settings(s), "rf_gain"@) is None,
        setting_of(transmit_settings(s), "squelch"@) is None,
        setting_of(transmit_settings(s), "mic_gain"@) is None,
        setting_of(transmit_settings(s), "rf_power"@) is None,
        setting_of(transmit_settings(s), "comp_level"@) is None,
        setting_of(transmit_settings(s), "monitor_level"@) is None,
        setting_of(transmit_settings(s), "preamp"@) is None,
        setting_of(transmit_settings(s), "attenuator"@) is None,
        setting_of(transmit_settings(s), "agc"@) is None,
        setting_of(transmit_settings(s), "tuner"@) is None,
        setting_of(transmit_settings(s), "noise_blanker"@) is None,
        setting_of(transmit_settings(s), "noise_reduction"@) is None,
        setting_of(transmit_settings(s), "noise_blanker_level"@) is None,
        setting_of(transmit_settings(s), "noise_reduction_level"@) is None,
        setting_of(transmit_settings(s), "scope_show_window"@) is None,
        setting_of(transmit_settings(s), "scope_enabled"@) is None,
        setting_of(transmit_settings(s), "scope_span"@) is None,
        setting_of(transmit_settings(s), "scope_waterfall_palette"@) is None,
        setting_of(transmit_settings(s), "scope_waterfall_width"@) is None,
        setting_of(transmit_settings(s), "scope_waterfall_height"@) is None,
{
    reveal_strlit("tx_lock");
    assert("tx_lock"@.len() == 7);
    reveal_strlit("usb_rx_level");
    assert("usb_rx_level"@.len() == 12);
    reveal_strlit("usb_tx_level");
    assert("usb_tx_level"@.len() == 12);
    reveal_strlit("active_vfo");
    assert("active_vfo"@.len() == 10);
    reveal_strlit("split_active");
    assert("split_active"@.len() == 12);
    reveal_strlit("port_name");
    assert("port_name"@.len() == 9);
    reveal_strlit("baud_rate");
    assert("baud_rate"@.len() == 9);
    reveal_strlit("frequency");
    assert("frequency"@.len() == 9);
    reveal_strlit("mode");
    assert("mode"@.len() == 4);
    reveal_strlit("filter");
    assert("filter"@.len() == 6);
    reveal_strlit("is_data_mode");
    assert("is_data_mode"@.len() == 12);
    reveal_strlit("vfo_step");
    assert("vfo_step"@.len() == 8);
    reveal_strlit("af_gain");
    assert("af_gain"@.len() == 7);
    reveal_strlit("rf_gain");
    assert("rf_gain"@.len() == 7);
    reveal_strlit("squelch");
    assert("squelch"@.len() == 7);
    reveal_strlit("mic_gain");
    assert("mic_gain"@.len() == 8);
    reveal_strlit("rf_power");
    assert("rf_power"@.len() == 8);
    reveal_strlit("comp_level");
    assert("comp_level"@.len() == 10);
    reveal_strlit("monitor_level");
    assert("monitor_level"@.len() == 13);
    reveal_strlit("preamp");
    assert("preamp"@.len() == 6);
    reveal_strlit("attenuator");
    assert("attenuator"@.len() == 10);
    reveal_strlit("agc");
    assert("agc"@.len() == 3);
    reveal_strlit("tuner");
    assert("tuner"@.len() == 5);
    reveal_strlit("noise_blanker");
    assert("noise_blanker"@.len() == 13);
    reveal_strlit("noise_reduction");
    assert("noise_reduction"@.len() == 15);
    reveal_strlit("noise_blanker_level");
    assert("noise_blanker_level"@.len() == 19);
    reveal_strlit("noise_reduction_level");
    assert("noise_reduction_level"@.len() == 21);
    reveal_strlit("scope_show_window");
    assert("scope_show_window"@.len() == 17);
    reveal_strlit("scope_enabled");
    assert("scope_enabled"@.len() == 13);
    reveal_strlit("scope_span");
    assert("scope_span"@.len() == 10);
    reveal_strlit("scope_waterfall_palette");
    assert("scope_waterfall_palette"@.len() == 23);
    reveal_strlit("scope_waterfall_width");
    assert("scope_waterfall_width"@.len() == 21);
    reveal_strlit("scope_waterfall_height");
    assert("scope_waterfall_height"@.len() == 22);
    assert("active_vfo"@[1] != "attenuator"@[1]);
    assert("active_vfo"@[0] != "comp_level"@[0]);
    assert("active_vfo"@[0] != "scope_span"@[0]);
    assert("af_gain"@[0] != "tx_lock"@[0]);
    assert("is_data_mode"@[0] != "split_active"@[0]);
    assert("is_data_mode"@[0] != "usb_rx_level"@[0]);
    assert("is_data_mode"@[0] != "usb_tx_level"@[0]);
    assert("rf_gain"@[0] != "tx_lock"@[0]);
    assert("split_active"@[0] != "usb_rx_level"@[0]);
    assert("split_active"@[0] != "usb_tx_level"@[0]);
    assert("squelch"@[0] != "tx_lock"@[0]);
    assert("usb_rx_level"@[4] != "usb_tx_level"@[4]);
    lemma_setting_of_push();
}

/// Which settings one group of stored settings holds.
proof fn lemma_vfo_settings_lookup(s: RadioState)
    ensures
        setting_of(vfo_settings(s), "frequency_a"@) == Some(decimal(s.frequency_a as nat)),
        setting_of(vfo_settings(s), "frequency_b"@) == Some(decimal(s.frequency_b as nat)),
        setting_of(vfo_settings(s), "mode_a"@) == Some(mode_name_of(s.mode_a)),
        setting_of(vfo_settings(s), "mode_b"@) == Some(mode_name_of(s.mode_b)),
        setting_of(vfo_settings(s), "filter_a"@) == Some(decimal(s.filter_a as nat)),
        setting_of(vfo_settings(s), "filter_b"@) == Some(decimal(s.filter_b as nat)),
        setting_of(vfo_settings(s), "is_data_mode_a"@) == Some(flag_text(s.is_data_mode_a)),
        setting_of(vfo_settings(s), "is_data_mode_b"@) == Some(flag_text(s.is_data_mode_b)),
        setting_of(vfo_settings(s), "port_name"@) is None,
        setting_of(vfo_settings(s), "baud_rate"@) is None,
        setting_of(vfo_settings(s), "frequency"@) is None,
        setting_of(vfo_settings(s), "mode"@) is None,
        setting_of(vfo_settings(s), "filter"@) is None,
        setting_of(vfo_settings(s), "is_data_mode"@) is None,
        setting_of(vfo_settings(s), "vfo_step"@) is None,
        setting_of(vfo_settings(s), "af_gain"@) is None,
        setting_of(vfo_settings(s), "rf_gain"@) is None,
        setting_of(vfo_settings(s), "squelch"@) is None,
        setting_of(vfo_settings(s), "mic_gain"@) is None,
        setting_of(vfo_settings(s), "rf_power"@) is None,
        setting_of(vfo_settings(s), "comp_level"@) is None,
        setting_of(vfo_settings(s), "monitor_level"@) is None,
        setting_of(vfo_settings(s), "preamp"@) is None,
        setting_of(vfo_settings(s), "attenuator"@) is None,
        setting_of(vfo_settings(s), "agc"@) is None,
        setting_of(vfo_settings(s), "tuner"@) is None,
        setting_of(vfo_settings(s), "noise_blanker"@) is None,
        setting_of(vfo_settings(s), "noise_reduction"@) is None,
        setting_of(vfo_settings(s), "noise_blanker_level"@) is None,
        setting_of(vfo_settings(s), "noise_reduction_level"@) is None,
        setting_of(vfo_settings(s), "scope_show_window"@) is None,
        setting_of(vfo_settings(s), "scope_enabled"@) is None,
        setting_of(vfo_settings(s), "scope_span"@) is None,
        setting_of(vfo_settings(s), "scope_waterfall_palette"@) is None,
        setting_of(vfo_settings(s), "scope_waterfall_width"@) is None,
        setting_of(vfo_settings(s), "scope_waterfall_height"@) is None,
        setting_of(vfo_settings(s), "tx_lock"@) is None,
        setting_of(vfo_settings(s), "usb_rx_level"@) is None,
        setting_of(vfo_settings(s), "usb_tx_level"@) is None,
        setting_of(vfo_settings(s), "active_vfo"@) is None,
        setting_of(vfo_settings(s), "split_active"@) is None,
{
    reveal_strlit("frequency_a");
    assert("frequency_a"@.len() == 11);
    reveal_strlit("frequency_b");
    assert("frequency_b"@.len() == 11);
    reveal_strlit("mode_a");
    assert("mode_a"@.len() == 6);
    reveal_strlit("mode_b");
    assert("mode_b"@.len() == 6);
    reveal_strlit("filter_a");
    assert("filter_a"@.len() == 8);
    reveal_strlit("filter_b");
    assert("filter_b"@.len() == 8);
    reveal_strlit("is_data_mode_a");
    assert("is_data_mode_a"@.len() == 14);
    reveal_strlit("is_data_mode_b");
    assert("is_data_mode_b"@.len() == 14);
    reveal_strlit("port_name");
    assert("port_name"@.len() == 9);
    reveal_strlit("baud_rate");
    assert("baud_rate"@.len() == 9);
    reveal_strlit("frequency");
    assert("frequency"@.len() == 9);
    reveal_strlit("mode");
    assert("mode"@.len() == 4);
    reveal_strlit("filter");
    assert("filter"@.len() == 6);
    reveal_strlit("is_data_mode");
    assert("is_data_mode"@.len() == 12);
    reveal_strlit("vfo_step");
    assert("vfo_step"@.len() == 8);
    reveal_strlit("af_gain");
    assert("af_gain"@.len() == 7);
    reveal_strlit("rf_gain");
    assert("rf_gain"@.len() == 7);
    reveal_strlit("squelch");
    assert("squelch"@.len() == 7);
    reveal_strlit("mic_gain");
    assert("mic_gain"@.len() == 8);
    reveal_strlit("rf_power");
    assert("rf_power"@.len() == 8);
    reveal_strlit("comp_level");
    assert("comp_level"@.len() == 10);
    reveal_strlit("monitor_level");
    assert("monitor_level"@.len() == 13);
    reveal_strlit("preamp");
    assert("preamp"@.len() == 6);
    reveal_strlit("attenuator");
    assert("attenuator"@.len() == 10);
    reveal_strlit("agc");
    assert("agc"@.len() == 3);
    reveal_strlit("tuner");
    assert("tuner"@.len() == 5);
    reveal_strlit("noise_blanker");
    assert("noise_blanker"@.len() == 13);
    reveal_strlit("noise_reduction");
    assert("noise_reduction"@.len() == 15);
    reveal_strlit("noise_blanker_level");
    assert("noise_blanker_level"@.len() == 19);
    reveal_strlit("noise_reduction_level");
    assert("noise_reduction_level"@.len() == 21);
    reveal_strlit("scope_show_window");
    assert("scope_show_window"@.len() == 17);
    reveal_strlit("scope_enabled");
    assert("scope_enabled"@.len() == 13);
    reveal_strlit("scope_span");
    assert("scope_span"@.len() == 10);
    reveal_strlit("scope_waterfall_palette");
    assert("scope_waterfall_palette"@.len() == 23);
    reveal_strlit("scope_waterfall_width");
    assert("scope_waterfall_width"@.len() == 21);
    reveal_strlit("scope_waterfall_height");
    assert("scope_waterfall_height"@.len() == 22);
    reveal_strlit("tx_lock");
    assert("tx_lock"@.len() == 7);
    reveal_strlit("usb_rx_level");
    assert("usb_rx_level"@.len() == 12);
    reveal_strlit("usb_tx_level");
    assert("usb_tx_level"@.len() == 12);
    reveal_strlit("active_vfo");
    assert("active_vfo"@.len() == 10);
    reveal_strlit("split_active");
    assert("split_active"@.len() == 12);
    assert("filter"@[0] != "mode_a"@[0]);
    assert("filter"@[0] != "mode_b"@[0]);
    assert("filter_a"@[7] != "filter_b"@[7]);
    assert("filter_a"@[0] != "mic_gain"@[0]);
    assert("filter_a"@[0] != "rf_power"@[0]);
    assert("filter_a"@[0] != "vfo_step"@[0]);
    assert("filter_b"@[0] != "mic_gain"@[0]);
    assert("filter_b"@[0] != "rf_power"@[0]);
    assert("filter_b"@[0] != "vfo_step"@[0]);
    assert("frequency_a"@[10] != "frequency_b"@[10]);
    assert("is_data_mode_a"@[13] != "is_data_mode_b"@[13]);
    assert("mode_a"@[5] != "mode_b"@[5]);
    assert("mode_a"@[0] != "preamp"@[0]);
    assert("mode_b"@[0] != "preamp"@[0]);
    lemma_setting_of_push();
}

/// What each stored setting key holds.
proof fn lemma_saved_settings_lookup(s: RadioState, p: PanelModel, offset: Seq<char>, gain: Seq<char>)
    ensures
        setting_of(saved_settings(s, p, offset, gain), "port_name"@) == Some(p.port_name),
        setting_of(saved_settings(s, p, offset, gain), "baud_rate"@) == Some(decimal(p.baud_rate as nat)),
        setting_of(saved_settings(s, p, offset, gain), "frequency"@) == Some(decimal(s.frequency as nat)),
        setting_of(saved_settings(s, p, offset, gain), "mode"@) == Some(mode_name_of(s.mode)),
        setting_of(saved_settings(s, p, offset, gain), "filter"@) == Some(decimal(s.filter as nat)),
        setting_of(saved_settings(s, p, offset, gain), "is_data_mode"@) == Some(flag_text(s.is_data_mode)),
        setting_of(saved_settings(s, p, offset, gain), "vfo_step"@) == Some(decimal(s.vfo_step as nat)),
        setting_of(saved_settings(s, p, offset, gain), "af_gain"@) == Some(decimal(s.af_gain as nat)),
        setting_of(saved_settings(s, p, offset, gain), "rf_gain"@) == Some(decimal(s.rf_gain as nat)),
        setting_of(saved_settings(s, p, offset, gain), "squelch"@) == Some(decimal(s.squelch as nat)),
        setting_of(saved_settings(s, p, offset, gain), "mic_gain"@) == Some(decimal(s.mic_gain as nat)),
        setting_of(saved_settings(s, p, offset, gain), "rf_power"@) == Some(decimal(s.rf_power as nat)),
        setting_of(saved_settings(s, p, offset, gain), "comp_level"@) == Some(decimal(s.comp_level as nat)),
        setting_of(saved_settings(s, p, offset, gain), "monitor_level"@) == Some(decimal(s.monitor_level as nat)),
        setting_of(saved_settings(s, p, offset, gain), "preamp"@) == Some(decimal(s.preamp as nat)),
        setting_of(saved_settings(s, p, offset, gain), "attenuator"@) == Some(flag_text(s.attenuator)),
        setting_of(saved_settings(s, p, offset, gain), "agc"@) == Some(decimal(s.agc as nat)),
        setting_of(saved_settings(s, p, offset, gain), "tuner"@) == Some(flag_text(s.tuner)),
        setting_of(saved_settings(s, p, offset, gain), "noise_blanker"@) == Some(flag_text(s.noise_blanker)),
        setting_of(saved_settings(s, p, offset, gain), "noise_reduction"@) == Some(flag_text(s.noise_reduction)),
        setting_of(saved_settings(s, p, offset, gain), "noise_blanker_level"@) == Some(decimal(s.noise_blanker_level as nat)),
        setting_of(saved_settings(s, p, offset, gain), "noise_reduction_level"@) == Some(decimal(s.noise_reduction_level as nat)),
        setting_of(saved_settings(s, p, offset, gain), "scope_show_window"@) == Some(flag_text(p.scope_show_window)),
        setting_of(saved_settings(s, p, offset, gain), "scope_enabled"@) == Some(flag_text(s.scope_enabled)),
        setting_of(saved_settings(s, p, offset, gain), "scope_span"@) == Some(decimal(s.scope_span as nat)),
        setting_of(saved_settings(s, p, offset, gain), "scope_waterfall_palette"@) == Some(decimal(p.scope_palette as nat)),
        setting_of(saved_settings(s, p, offset, gain), "scope_waterfall_width"@) == Some(decimal(p.scope_width as nat)),
        setting_of(saved_settings(s, p, offset, gain), "scope_waterfall_height"@) == Some(decimal(p.scope_height as nat)),
        setting_of(saved_settings(s, p, offset, gain), "tx_lock"@) == Some(flag_text(s.tx_lock)),
        setting_of(saved_settings(s, p, offset, gain), "usb_rx_level"@) == Some(decimal(s.usb_rx_level as nat)),
        setting_of(saved_settings(s, p, offset, gain), "usb_tx_level"@) == Some(decimal(s.usb_tx_level as nat)),
        setting_of(saved_settings(s, p, offset, gain), "active_vfo"@) == Some(decimal(s.active_vfo as nat)),
        setting_of(saved_settings(s, p, offset, gain), "split_active"@) == Some(flag_text(s.split_active)),
        setting_of(saved_settings(s, p, offset, gain), "frequency_a"@) == Some(decimal(s.frequency_a as nat)),
        setting_of(saved_settings(s, p, offset, gain), "frequency_b"@) == Some(decimal(s.frequency_b as nat)),
        setting_of(saved_settings(s, p, offset, gain), "mode_a"@) == Some(mode_name_of(s.mode_a)),
        setting_of(saved_settings(s, p, offset, gain), "mode_b"@) == Some(mode_name_of(s.mode_b)),
        setting_of(saved_settings(s, p, offset, gain), "filter_a"@) == Some(decimal(s.filter_a as nat)),
        setting_of(saved_settings(s, p, offset, gain), "filter_b"@) == Some(decimal(s.filter_b as nat)),
        setting_of(saved_settings(s, p, offset, gain), "is_data_mode_a"@) == Some(flag_text(s.is_data_mode_a)),
        setting_of(saved_settings(s, p, offset, gain), "is_data_mode_b"@) == Some(flag_text(s.is_data_mode_b)),
{
    lemma_tuning_settings_lookup(s, p);
    lemma_level_settings_lookup(s);
    lemma_receiver_settings_lookup(s);
    lemma_scope_settings_lookup(s, p, offset, gain);
    lemma_transmit_settings_lookup(s);
    lemma_vfo_settings_lookup(s);
    let t = tuning_settings(s, p);
    let l = level_settings(s);
    let r = receiver_settings(s);
    let c = scope_settings(s, p, offset, gain);
    let x = transmit_settings(s);
    let v = vfo_settings(s);
    lemma_setting_of_concat(t, l);
    lemma_setting_of_concat(t + l, r);
    lemma_setting_of_concat(t + l + r, c);
    lemma_setting_of_concat(t + l + r + c, x);
    lemma_setting_of_concat(t + l + r + c + x, v);
}

/// The transceiver state after a restart, when the settings stored at the
/// previous close are restored onto the factory state `base`: every stored
/// setting comes back, the scope is centred on the working frequency, and
/// the rest is as at start-up.
pub open spec fn kept_across_restart(s: RadioState, base: RadioState) -> RadioState {
    RadioState {
        frequency: s.frequency,
        mode: s.mode,
        filter: s.filter,
        is_data_mode: s.is_data_mode,
        frequency_a: s.frequency_a,
        frequency_b: s.frequency_b,
        mode_a: s.mode_a,
        mode_b: s.mode_b,
        filter_a: s.filter_a,
        filter_b: s.filter_b,
        is_data_mode_a: s.is_data_mode_a,
        is_data_mode_b: s.is_data_mode_b,
        active_vfo: s.active_vfo,
        vfo_step: s.vfo_step,
        af_gain: s.af_gain,
        rf_gain: s.rf_gain,
        squelch: s.squelch,
        mic_gain: s.mic_gain,
        rf_power: s.rf_power,
        comp_level: s.comp_level,
        monitor_level: s.monitor_level,
        preamp: s.preamp,
        attenuator: s.attenuator,
        agc: s.agc,
        tuner: s.tuner,
        noise_blanker: s.noise_blanker,
        noise_reduction: s.noise_reduction,
        noise_blanker_level: s.noise_blanker_level,
        noise_reduction_level: s.noise_reduction_level,
        scope_enabled: s.scope_enabled,
        scope_span: s.scope_span,
        tx_lock: s.tx_lock,
        usb_rx_level: s.usb_rx_level,
        usb_tx_level: s.usb_tx_level,
        split_active: s.split_active,
        scope_center_frequency: s.frequency,
        ..base
    }
}

/// The transceiver state after a restart, for any state at the previous
/// close: every stored setting comes back, and the working frequency, mode,
/// filter and DATA state (and the scope centre) are taken from the stored
/// active VFO.
pub open spec fn restarted(s: RadioState, base: RadioState) -> RadioState {
    let a = s.active_vfo == 0;
    let f = if a { s.frequency_a } else { s.frequency_b };
    RadioState {
        frequency: f,
        mode: if a { s.mode_a } else { s.mode_b },
        filter: if a { s.filter_a } else { s.filter_b },
        is_data_mode: if a { s.is_data_mode_a } else { s.is_data_mode_b },
        scope_center_frequency: f,
        ..kept_across_restart(s, base)
    }
}

/// Settings stored when the panel closes come back when it starts again, for
/// every state: restoring what `save_settings` stored gives back both VFOs,
/// the active VFO, the step, every level and switch, the scope span and the
/// panel settings, with the working values those of the active VFO; when the
/// working values already were the active VFO's, the whole state comes back.
pub proof fn lemma_restart_restores_settings(
    s: RadioState,
    p: PanelModel,
    offset: Seq<char>,
    gain: Seq<char>,
    base: RadioState,
    default_port: Seq<char>,
)
    ensures
        restored(saved_settings(s, p, offset, gain), base) == restarted(s, base),
        vfo_consistent(s) ==> restarted(s, base) == kept_across_restart(s, base),
        panel_restored(saved_settings(s, p, offset, gain), default_port) == p,
{
    lemma_saved_settings_lookup(s, p, offset, gain);
    lemma_decimal_parses(p.baud_rate as nat, u32::MAX as nat);
    lemma_decimal_parses(s.frequency as nat, u64::MAX as nat);
    lemma_decimal_parses(s.filter as nat, 255);
    lemma_decimal_parses(s.vfo_step as nat, u64::MAX as nat);
    lemma_decimal_parses(s.af_gain as nat, 255);
    lemma_decimal_parses(s.rf_gain as nat, 255);
    lemma_decimal_parses(s.squelch as nat, 255);
    lemma_decimal_parses(s.mic_gain as nat, 255);
    lemma_decimal_parses(s.rf_power as nat, 255);
    lemma_decimal_parses(s.comp_level as nat, 255);
    lemma_decimal_parses(s.monitor_level as nat, 255);
    lemma_decimal_parses(s.preamp as nat, 255);
    lemma_decimal_parses(s.agc as nat, 255);
    lemma_decimal_parses(s.noise_blanker_level as nat, 255);
    lemma_decimal_parses(s.noise_reduction_level as nat, 255);
    lemma_decimal_parses(s.scope_span as nat, u32::MAX as nat);
    lemma_decimal_parses(p.scope_palette as nat, 255);
    lemma_decimal_parses(p.scope_width as nat, usize::MAX as nat);
    lemma_decimal_parses(p.scope_height as nat, usize::MAX as nat);
    lemma_decimal_parses(s.usb_rx_level as nat, 255);
    lemma_decimal_parses(s.usb_tx_level as nat, 255);
    lemma_decimal_parses(s.active_vfo as nat, 255);
    lemma_decimal_parses(s.frequency_a as nat, u64::MAX as nat);
    lemma_decimal_parses(s.frequency_b as nat, u64::MAX as nat);
    lemma_decimal_parses(s.filter_a as nat, 255);
    lemma_decimal_parses(s.filter_b as nat, 255);
    lemma_mode_name_roundtrip(s.mode, RadioMode::Usb);
    lemma_mode_name_roundtrip(s.mode_a, RadioMode::Usb);
    lemma_mode_name_roundtrip(s.mode_b, RadioMode::Usb);
    assert(flag_text(false) != seq!['1']) by {
        assert(flag_text(false)[0] != seq!['1'][0]);
    }
}

} // verus!
