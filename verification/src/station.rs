//! The panel's view of the transceiver: the two VFOs, the receive and
//! transmit settings, the meters, and what each operator action or radio
//! report changes and sends.

use vstd::prelude::*;
use crate::civ::{confirming_report, reply_frame, Command, RadioMode, RadioReport, RadioUpdate};
use crate::bcd::{lemma_level_bcd_roundtrip, level_bcd};
use crate::decode::state_report;
use crate::link::elapsed;

verus! {

/// After an operator action, reports from the radio on the settings it
/// touched are ignored for this long (milliseconds), so that the radio's
/// stale answers do not undo the action.
pub const USER_HOLD_MS: u64 = 500;

/// Lowest frequency the panel tunes to, in Hz.
pub const MIN_FREQ: u64 = 30_000;

/// Highest frequency the panel tunes to, in Hz.
pub const MAX_FREQ: u64 = 74_800_000;

/// The state the panel keeps of the transceiver.
#[derive(Clone, Copy, PartialEq, Eq, Debug, Structural)]
pub struct RadioState {
    pub is_connected: bool,
    pub frequency: u64,
    pub mode: RadioMode,
    pub filter: u8,
    pub is_data_mode: bool,
    pub is_tx: bool,
    pub tx_lock: bool,
    pub af_gain: u8,
    pub rf_gain: u8,
    pub squelch: u8,
    pub mic_gain: u8,
    pub rf_power: u8,
    pub comp_level: u8,
    pub monitor_level: u8,
    pub preamp: u8,
    pub attenuator: bool,
    pub agc: u8,
    pub tuner: bool,
    pub noise_blanker: bool,
    pub noise_reduction: bool,
    pub noise_blanker_level: u8,
    pub noise_reduction_level: u8,
    pub usb_rx_level: u8,
    pub usb_tx_level: u8,
    pub frequency_a: u64,
    pub frequency_b: u64,
    pub mode_a: RadioMode,
    pub mode_b: RadioMode,
    pub filter_a: u8,
    pub filter_b: u8,
    pub is_data_mode_a: bool,
    pub is_data_mode_b: bool,
    pub active_vfo: u8,
    pub split_active: bool,
    pub s_meter: u8,
    pub po_meter: u8,
    pub swr_meter: u8,
    pub alc_meter: u8,
    pub comp_meter: u8,
    pub vfo_step: u64,
    pub scope_enabled: bool,
    pub scope_span: u32,
    pub scope_center_frequency: u64,
    pub last_user_write_ms: u64,
}

/// What an action sends to the radio, and whether the station lists (EiBi
/// search results, probable stations) must be read again.
pub struct Reaction {
    pub commands: Vec<Command>,
    pub refresh_stations: bool,
}

/// The commands an action sends: all of them when connected, none otherwise.
pub open spec fn when_connected(s: RadioState, cmds: Seq<Command>) -> Seq<Command> {
    if s.is_connected { cmds } else { seq![] }
}

/// The working frequency, mode, filter and DATA state are those of the active
/// VFO (VFO A when `active_vfo` is 0, VFO B otherwise).
pub open spec fn vfo_consistent(s: RadioState) -> bool {
    if s.active_vfo == 0 {
        s.frequency == s.frequency_a && s.mode == s.mode_a && s.filter == s.filter_a
            && s.is_data_mode == s.is_data_mode_a
    } else {
        s.frequency == s.frequency_b && s.mode == s.mode_b && s.filter == s.filter_b
            && s.is_data_mode == s.is_data_mode_b
    }
}

/// A requested frequency brought into the tuning range.
pub open spec fn clamp_freq(f: i64) -> u64 {
    if f < MIN_FREQ as i64 {
        MIN_FREQ
    } else if f > MAX_FREQ as i64 {
        MAX_FREQ
    } else {
        f as u64
    }
}

/// The state tuned to `f` on the active VFO.
pub open spec fn tuned(s: RadioState, f: u64) -> RadioState {
    RadioState {
        frequency: f,
        frequency_a: if s.active_vfo == 0 { f } else { s.frequency_a },
        frequency_b: if s.active_vfo == 0 { s.frequency_b } else { f },
        ..s
    }
}

/// The state after tuning to a requested frequency: nothing changes when the
/// clamped frequency is the current one; otherwise the active VFO and the
/// scope centre follow it.
pub open spec fn after_set_frequency(s: RadioState, f: i64, now: u64) -> RadioState {
    let c = clamp_freq(f);
    if c == s.frequency {
        s
    } else {
        RadioState { scope_center_frequency: c, last_user_write_ms: now, ..tuned(s, c) }
    }
}

/// The state after a memory recall on the active VFO.
pub open spec fn after_recall(
    s: RadioState,
    frequency: u64,
    mode: RadioMode,
    is_data: bool,
    filter: u8,
    preamp: u8,
    now: u64,
) -> RadioState {
    let a = s.active_vfo == 0;
    RadioState {
        frequency,
        mode,
        is_data_mode: is_data,
        filter,
        preamp,
        frequency_a: if a { frequency } else { s.frequency_a },
        mode_a: if a { mode } else { s.mode_a },
        filter_a: if a { filter } else { s.filter_a },
        is_data_mode_a: if a { is_data } else { s.is_data_mode_a },
        frequency_b: if a { s.frequency_b } else { frequency },
        mode_b: if a { s.mode_b } else { mode },
        filter_b: if a { s.filter_b } else { filter },
        is_data_mode_b: if a { s.is_data_mode_b } else { is_data },
        last_user_write_ms: now,
        ..s
    }
}

/// The state after selecting a mode on the active VFO.
pub open spec fn after_mode(s: RadioState, mode: RadioMode, now: u64) -> RadioState {
    RadioState {
        mode,
        mode_a: if s.active_vfo == 0 { mode } else { s.mode_a },
        mode_b: if s.active_vfo == 0 { s.mode_b } else { mode },
        last_user_write_ms: now,
        ..s
    }
}

/// The state with VFO A (`vfo` 0) or VFO B active, loaded into the working state.
pub open spec fn with_active_vfo(s: RadioState, vfo: u8) -> RadioState {
    if vfo == 0 {
        RadioState {
            active_vfo: vfo,
            frequency: s.frequency_a,
            mode: s.mode_a,
            filter: s.filter_a,
            is_data_mode: s.is_data_mode_a,
            ..s
        }
    } else {
        RadioState {
            active_vfo: vfo,
            frequency: s.frequency_b,
            mode: s.mode_b,
            filter: s.filter_b,
            is_data_mode: s.is_data_mode_b,
            ..s
        }
    }
}

/// The state after copying the active VFO onto the other one (A = B).
pub open spec fn after_equalize(s: RadioState, now: u64) -> RadioState {
    if s.active_vfo == 0 {
        RadioState {
            frequency_b: s.frequency_a,
            mode_b: s.mode_a,
            filter_b: s.filter_a,
            is_data_mode_b: s.is_data_mode_a,
            last_user_write_ms: now,
            ..s
        }
    } else {
        RadioState {
            frequency_a: s.frequency_b,
            mode_a: s.mode_b,
            filter_a: s.filter_b,
            is_data_mode_a: s.is_data_mode_b,
            last_user_write_ms: now,
            ..s
        }
    }
}

/// The state after selecting a filter on the active VFO.
pub open spec fn after_filter(s: RadioState, filter: u8, now: u64) -> RadioState {
    RadioState {
        filter,
        filter_a: if s.active_vfo == 0 { filter } else { s.filter_a },
        filter_b: if s.active_vfo == 0 { s.filter_b } else { filter },
        last_user_write_ms: now,
        ..s
    }
}

/// The state after switching DATA mode over on the active VFO.
pub open spec fn after_data_toggle(s: RadioState, now: u64) -> RadioState {
    let d = !s.is_data_mode;
    RadioState {
        is_data_mode: d,
        is_data_mode_a: if s.active_vfo == 0 { d } else { s.is_data_mode_a },
        is_data_mode_b: if s.active_vfo == 0 { s.is_data_mode_b } else { d },
        last_user_write_ms: now,
        ..s
    }
}

/// The state after swapping VFO A and VFO B: the other VFO becomes active.
pub open spec fn after_swap(s: RadioState, now: u64) -> RadioState {
    RadioState { last_user_write_ms: now, ..with_active_vfo(s, if s.active_vfo == 0 { 1 } else { 0 }) }
}

/// Operator actions have been quiet long enough for radio reports to apply.
pub open spec fn reports_apply(s: RadioState, now: u64) -> bool {
    elapsed(now, s.last_user_write_ms) >= USER_HOLD_MS
}

/// The state after a report from the radio: meter readings and the transmit
/// state always apply; the other settings apply only once operator actions
/// have been quiet for `USER_HOLD_MS`; spectrum sweeps, span reports and the
/// loss of the link leave the state as it is.
pub open spec fn after_report(s: RadioState, r: RadioReport, now: u64) -> RadioState {
    after_report_with(s, r, reports_apply(s, now))
}

/// The state after a report from the radio, given whether the settings it
/// carries apply (`ok`); meters and the transmit state always apply.
pub open spec fn after_report_with(s: RadioState, r: RadioReport, ok: bool) -> RadioState {
    match r {
        RadioReport::Frequency(f) => if ok { tuned(s, f) } else { s },
        RadioReport::ModeAndFilter(m, fil, d) => if ok {
            if s.active_vfo == 0 {
                RadioState { mode: m, filter: fil, is_data_mode: d, mode_a: m, filter_a: fil, is_data_mode_a: d, ..s }
            } else {
                RadioState { mode: m, filter: fil, is_data_mode: d, mode_b: m, filter_b: fil, is_data_mode_b: d, ..s }
            }
        } else {
            s
        },
        RadioReport::ActiveVfo(v) => if ok { with_active_vfo(s, v) } else { s },
        RadioReport::SplitState(v) => if ok { RadioState { split_active: v, ..s } } else { s },
        RadioReport::Meter(sub, v) => if sub == 0x02 {
            RadioState { s_meter: v, ..s }
        } else if sub == 0x11 {
            RadioState { po_meter: v, ..s }
        } else if sub == 0x12 {
            RadioState { swr_meter: v, ..s }
        } else if sub == 0x13 {
            RadioState { alc_meter: v, ..s }
        } else if sub == 0x14 {
            RadioState { comp_meter: v, ..s }
        } else {
            s
        },
        RadioReport::PTTState(v) => RadioState { is_tx: v, ..s },
        RadioReport::AfGain(v) => if ok { RadioState { af_gain: v, ..s } } else { s },
        RadioReport::RfGain(v) => if ok { RadioState { rf_gain: v, ..s } } else { s },
        RadioReport::Squelch(v) => if ok { RadioState { squelch: v, ..s } } else { s },
        RadioReport::RfPower(v) => if ok { RadioState { rf_power: v, ..s } } else { s },
        RadioReport::MicGain(v) => if ok { RadioState { mic_gain: v, ..s } } else { s },
        RadioReport::CompLevel(v) => if ok { RadioState { comp_level: v, ..s } } else { s },
        RadioReport::MonitorLevel(v) => if ok { RadioState { monitor_level: v, ..s } } else { s },
        RadioReport::Preamp(v) => if ok { RadioState { preamp: v, ..s } } else { s },
        RadioReport::Attenuator(v) => if ok { RadioState { attenuator: v, ..s } } else { s },
        RadioReport::Agc(v) => if ok { RadioState { agc: v, ..s } } else { s },
        RadioReport::Tuner(v) => if ok { RadioState { tuner: v, ..s } } else { s },
        RadioReport::NoiseBlanker(v) => if ok { RadioState { noise_blanker: v, ..s } } else { s },
        RadioReport::NoiseReduction(v) => if ok { RadioState { noise_reduction: v, ..s } } else { s },
        RadioReport::NoiseBlankerLevel(v) => if ok { RadioState { noise_blanker_level: v, ..s } } else { s },
        RadioReport::NoiseReductionLevel(v) => if ok { RadioState { noise_reduction_level: v, ..s } } else { s },
        RadioReport::UsbRxLevel(v) => if ok { RadioState { usb_rx_level: v, ..s } } else { s },
        RadioReport::UsbTxLevel(v) => if ok { RadioState { usb_tx_level: v, ..s } } else { s },
        RadioReport::ScopeSweep(_) => s,
        RadioReport::ScopeSpan(_) => s,
        RadioReport::Disconnected(_) => s,
    }
}

/// The commands that bring the radio in line with the panel after connecting:
/// both VFOs, the active VFO, then every other setting.
pub open spec fn sync_commands(s: RadioState) -> Seq<Command> {
    seq![
        Command::SetVfo(0),
        Command::SetFrequency(s.frequency_a),
        Command::SetModeAndFilter(s.mode_a, s.filter_a),
        Command::SetDataMode(s.is_data_mode_a),
        Command::SetVfo(1),
        Command::SetFrequency(s.frequency_b),
        Command::SetModeAndFilter(s.mode_b, s.filter_b),
        Command::SetDataMode(s.is_data_mode_b),
        Command::SetVfo(s.active_vfo),
        Command::SetSplit(s.split_active),
        Command::SetAfGain(s.af_gain),
        Command::SetRfGain(s.rf_gain),
        Command::SetSquelch(s.squelch),
        Command::SetMicGain(s.mic_gain),
        Command::SetRfPower(s.rf_power),
        Command::SetCompLevel(s.comp_level),
        Command::SetMonitorLevel(s.monitor_level),
        Command::SetPreamp(s.preamp),
        Command::SetAttenuator(s.attenuator),
        Command::SetAgc(s.agc),
        Command::SetTuner(s.tuner),
        Command::SetNoiseBlanker(s.noise_blanker),
        Command::SetNoiseReduction(s.noise_reduction),
        Command::SetNoiseBlankerLevel(s.noise_blanker_level),
        Command::SetNoiseReductionLevel(s.noise_reduction_level),
        Command::SetScopeOutput(s.scope_enabled),
        Command::SetUsbRxLevel(s.usb_rx_level),
        Command::SetUsbTxLevel(s.usb_tx_level),
        Command::SetPTT(s.is_tx),
    ]
}

/// A list of commands built from a fixed sequence.
fn command_list(cmds: &[Command]) -> (v: Vec<Command>)
    ensures
        v@ == cmds@,
{
    let mut v: Vec<Command> = Vec::new();
    let mut i: usize = 0;
    while i < cmds.len()
        invariant
            i <= cmds@.len(),
            v@ == cmds@.take(i as int),
        decreases cmds@.len() - i,
    {
        v.push(cmds[i]);
        i = i + 1;
        assert(v@ =~= cmds@.take(i as int));
    }
    assert(cmds@.take(cmds@.len() as int) =~= cmds@);
    v
}

/// The commands of an action: sent only when connected.
fn connected_commands(connected: bool, cmds: &[Command]) -> (v: Vec<Command>)
    ensures
        v@ == (if connected { cmds@ } else { seq![] }),
{
    if connected {
        command_list(cmds)
    } else {
        Vec::new()
    }
}

impl RadioState {
    /// The state the panel starts from before its saved settings are read:
    /// 14.074 MHz USB on VFO A, filter 1, the factory levels, disconnected.
    pub fn initial(now_ms: u64) -> (s: RadioState)
        ensures
            s.frequency == 14_074_000 && s.mode == RadioMode::Usb && s.filter == 1,
            !s.is_data_mode && !s.is_tx && !s.tx_lock && !s.is_connected,
            s.af_gain == 60 && s.rf_gain == 255 && s.squelch == 0 && s.mic_gain == 128,
            s.rf_power == 255 && s.comp_level == 128 && s.monitor_level == 128 && s.preamp == 0,
            !s.attenuator && s.agc == 2 && !s.tuner && !s.noise_blanker && !s.noise_reduction,
            s.noise_blanker_level == 128 && s.noise_reduction_level == 128,
            s.usb_rx_level == 128 && s.usb_tx_level == 128,
            s.frequency_a == 14_074_000 && s.frequency_b == 14_074_000,
            s.mode_a == RadioMode::Usb && s.mode_b == RadioMode::Usb,
            s.filter_a == 1 && s.filter_b == 1 && !s.is_data_mode_a && !s.is_data_mode_b,
            s.active_vfo == 0 && !s.split_active,
            s.s_meter == 0 && s.po_meter == 0 && s.swr_meter == 0 && s.alc_meter == 0 && s.comp_meter == 0,
            s.vfo_step == 10 && !s.scope_enabled && s.scope_span == 50_000,
            s.scope_center_frequency == 14_074_000 && s.last_user_write_ms == now_ms,
            vfo_consistent(s),
    {
        RadioState {
            is_connected: false,
            frequency: 14_074_000,
            mode: RadioMode::Usb,
            filter: 1,
            is_data_mode: false,
            is_tx: false,
            tx_lock: false,
            af_gain: 60,
            rf_gain: 255,
            squelch: 0,
            mic_gain: 128,
            rf_power: 255,
            comp_level: 128,
            monitor_level: 128,
            preamp: 0,
            attenuator: false,
            agc: 2,
            tuner: false,
            noise_blanker: false,
            noise_reduction: false,
            noise_blanker_level: 128,
            noise_reduction_level: 128,
            usb_rx_level: 128,
            usb_tx_level: 128,
            frequency_a: 14_074_000,
            frequency_b: 14_074_000,
            mode_a: RadioMode::Usb,
            mode_b: RadioMode::Usb,
            filter_a: 1,
            filter_b: 1,
            is_data_mode_a: false,
            is_data_mode_b: false,
            active_vfo: 0,
            split_active: false,
            s_meter: 0,
            po_meter: 0,
            swr_meter: 0,
            alc_meter: 0,
            comp_meter: 0,
            vfo_step: 10,
            scope_enabled: false,
            scope_span: 50_000,
            scope_center_frequency: 14_074_000,
            last_user_write_ms: now_ms,
        }
    }

    /// Tunes to a requested frequency, clamped to 30 kHz .. 74.8 MHz, on the
    /// active VFO; the radio is told when connected.
    pub fn set_frequency_from_i64(&mut self, freq: i64, now_ms: u64) -> (r: Reaction)
        ensures
            *final(self) == after_set_frequency(*old(self), freq, now_ms),
            r.refresh_stations == (clamp_freq(freq) != old(self).frequency),
            r.commands@ == if clamp_freq(freq) != old(self).frequency {
                when_connected(*old(self), seq![Command::SetFrequency(clamp_freq(freq))])
            } else {
                seq![]
            },
    {
        let clamped: u64 = if freq < 30_000 {
            30_000
        } else if freq > 74_800_000 {
            74_800_000
        } else {
            freq as u64
        };
        if clamped == self.frequency {
            return Reaction { commands: Vec::new(), refresh_stations: false };
        }
        let s = *self;
        let t = tuned_state(s, clamped);
        *self = RadioState { scope_center_frequency: clamped, last_user_write_ms: now_ms, ..t };
        let cmds = [Command::SetFrequency(clamped)];
        Reaction { commands: connected_commands(s.is_connected, cmds.as_slice()), refresh_stations: true }
    }

    /// Recalls a memory onto the active VFO; the radio is told when connected.
    pub fn recall_memory(
        &mut self,
        frequency: u64,
        mode: RadioMode,
        is_data: bool,
        filter: u8,
        preamp: u8,
        now_ms: u64,
    ) -> (r: Reaction)
        ensures
            *final(self) == after_recall(*old(self), frequency, mode, is_data, filter, preamp, now_ms),
            r.refresh_stations,
            r.commands@ == when_connected(
                *old(self),
                seq![
                    Command::SetFrequency(frequency),
                    Command::SetModeAndFilter(mode, filter),
                    Command::SetDataMode(is_data),
                    Command::SetPreamp(preamp),
                ],
            ),
    {
        self.frequency = frequency;
        if self.active_vfo == 0 {
            self.frequency_a = frequency;
            self.mode_a = mode;
            self.filter_a = filter;
            self.is_data_mode_a = is_data;
        } else {
            self.frequency_b = frequency;
            self.mode_b = mode;
            self.filter_b = filter;
            self.is_data_mode_b = is_data;
        }
        self.mode = mode;
        self.is_data_mode = is_data;
        self.filter = filter;
        self.preamp = preamp;
        self.last_user_write_ms = now_ms;
        let cmds = [
            Command::SetFrequency(frequency),
            Command::SetModeAndFilter(mode, filter),
            Command::SetDataMode(is_data),
            Command::SetPreamp(preamp),
        ];
        assert(cmds@ =~= seq![
            Command::SetFrequency(frequency),
            Command::SetModeAndFilter(mode, filter),
            Command::SetDataMode(is_data),
            Command::SetPreamp(preamp),
        ]);
        Reaction { commands: connected_commands(self.is_connected, cmds.as_slice()), refresh_stations: true }
    }

    /// Tunes to a band's (or a station's) frequency and mode.
    pub fn change_band_and_mode(&mut self, freq: u64, mode: RadioMode, now_ms: u64) -> (r: Reaction)
        ensures
            ({
                let t = after_set_frequency(*old(self), freq as i64, now_ms);
                &&& *final(self) == after_mode(t, mode, now_ms)
                &&& r.refresh_stations
                &&& r.commands@ == (if clamp_freq(freq as i64) != old(self).frequency {
                    when_connected(*old(self), seq![Command::SetFrequency(clamp_freq(freq as i64))])
                } else {
                    seq![]
                }) + when_connected(
                    *old(self),
                    seq![Command::SetModeAndFilter(mode, t.filter), Command::SetDataMode(t.is_data_mode)],
                )
            }),
    {
        let first = self.set_frequency_from_i64(freq as i64, now_ms);
        let mut commands = first.commands;
        let t = *self;
        *self = mode_state(t, mode, now_ms);
        let cmds = [Command::SetModeAndFilter(mode, t.filter), Command::SetDataMode(t.is_data_mode)];
        let mut more = connected_commands(t.is_connected, cmds.as_slice());
        assert(cmds@ =~= seq![Command::SetModeAndFilter(mode, t.filter), Command::SetDataMode(t.is_data_mode)]);
        commands.append(&mut more);
        Reaction { commands, refresh_stations: true }
    }

    /// The commands that bring the radio in line with the panel.
    pub fn sync_all_to_radio(&self) -> (cmds: Vec<Command>)
        ensures
            cmds@ == sync_commands(*self),
    {
        let list = [
            Command::SetVfo(0),
            Command::SetFrequency(self.frequency_a),
            Command::SetModeAndFilter(self.mode_a, self.filter_a),
            Command::SetDataMode(self.is_data_mode_a),
            Command::SetVfo(1),
            Command::SetFrequency(self.frequency_b),
            Command::SetModeAndFilter(self.mode_b, self.filter_b),
            Command::SetDataMode(self.is_data_mode_b),
            Command::SetVfo(self.active_vfo),
            Command::SetSplit(self.split_active),
            Command::SetAfGain(self.af_gain),
            Command::SetRfGain(self.rf_gain),
            Command::SetSquelch(self.squelch),
            Command::SetMicGain(self.mic_gain),
            Command::SetRfPower(self.rf_power),
            Command::SetCompLevel(self.comp_level),
            Command::SetMonitorLevel(self.monitor_level),
            Command::SetPreamp(self.preamp),
            Command::SetAttenuator(self.attenuator),
            Command::SetAgc(self.agc),
            Command::SetTuner(self.tuner),
            Command::SetNoiseBlanker(self.noise_blanker),
            Command::SetNoiseReduction(self.noise_reduction),
            Command::SetNoiseBlankerLevel(self.noise_blanker_level),
            Command::SetNoiseReductionLevel(self.noise_reduction_level),
            Command::SetScopeOutput(self.scope_enabled),
            Command::SetUsbRxLevel(self.usb_rx_level),
            Command::SetUsbTxLevel(self.usb_tx_level),
            Command::SetPTT(self.is_tx),
        ];
        assert(list@ =~= sync_commands(*self));
        command_list(list.as_slice())
    }

    /// Marks the link open and gives the commands that align the radio with
    /// the panel.
    pub fn connected(&mut self) -> (cmds: Vec<Command>)
        ensures
            *final(self) == (RadioState { is_connected: true, ..*old(self) }),
            cmds@ == sync_commands(*old(self)),
    {
        self.is_connected = true;
        self.sync_all_to_radio()
    }

    /// Closes the link: releases the PTT first when transmitting.
    pub fn disconnect(&mut self) -> (cmds: Vec<Command>)
        ensures
            *final(self) == (RadioState { is_connected: false, ..*old(self) }),
            cmds@ == (if old(self).is_tx { seq![Command::SetPTT(false)] } else { seq![] }) + seq![Command::Disconnect],
    {
        let mut cmds: Vec<Command> = Vec::new();
        if self.is_tx {
            cmds.push(Command::SetPTT(false));
        }
        cmds.push(Command::Disconnect);
        self.is_connected = false;
        assert(cmds@ =~= (if old(self).is_tx { seq![Command::SetPTT(false)] } else { seq![] }) + seq![Command::Disconnect]);
        cmds
    }

    /// Selects a mode on the active VFO.
    pub fn select_mode(&mut self, mode: RadioMode, now_ms: u64) -> (cmds: Vec<Command>)
        ensures
            *final(self) == after_mode(*old(self), mode, now_ms),
            cmds@ == when_connected(
                *old(self),
                seq![Command::SetModeAndFilter(mode, old(self).filter), Command::SetDataMode(old(self).is_data_mode)],
            ),
    {
        self.last_user_write_ms = now_ms;
        self.mode = mode;
        if self.active_vfo == 0 {
            self.mode_a = mode;
        } else {
            self.mode_b = mode;
        }
        let cmds = [Command::SetModeAndFilter(self.mode, self.filter), Command::SetDataMode(self.is_data_mode)];
        assert(cmds@ =~= seq![Command::SetModeAndFilter(mode, old(self).filter), Command::SetDataMode(old(self).is_data_mode)]);
        connected_commands(self.is_connected, cmds.as_slice())
    }

    /// Selects a filter on the active VFO.
    pub fn select_filter(&mut self, filter: u8, now_ms: u64) -> (cmds: Vec<Command>)
        ensures
            *final(self) == after_filter(*old(self), filter, now_ms),
            cmds@ == when_connected(
                *old(self),
                seq![Command::SetModeAndFilter(old(self).mode, filter), Command::SetDataMode(old(self).is_data_mode)],
            ),
    {
        self.last_user_write_ms = now_ms;
        self.filter = filter;
        if self.active_vfo == 0 {
            self.filter_a = filter;
        } else {
            self.filter_b = filter;
        }
        let cmds = [Command::SetModeAndFilter(self.mode, self.filter), Command::SetDataMode(self.is_data_mode)];
        assert(cmds@ =~= seq![Command::SetModeAndFilter(old(self).mode, filter), Command::SetDataMode(old(self).is_data_mode)]);
        connected_commands(self.is_connected, cmds.as_slice())
    }

    /// Switches DATA mode on or off on the active VFO.
    pub fn toggle_data_mode(&mut self, now_ms: u64) -> (cmds: Vec<Command>)
        ensures
            *final(self) == after_data_toggle(*old(self), now_ms),
            cmds@ == when_connected(*old(self), seq![Command::SetDataMode(!old(self).is_data_mode)]),
    {
        self.last_user_write_ms = now_ms;
        self.is_data_mode = !self.is_data_mode;
        if self.active_vfo == 0 {
            self.is_data_mode_a = self.is_data_mode;
        } else {
            self.is_data_mode_b = self.is_data_mode;
        }
        let cmds = [Command::SetDataMode(self.is_data_mode)];
        connected_commands(self.is_connected, cmds.as_slice())
    }

    /// Swaps VFO A and VFO B (the A / B button): the other VFO becomes active.
    pub fn swap_vfo(&mut self, now_ms: u64) -> (cmds: Vec<Command>)
        ensures
            *final(self) == after_swap(*old(self), now_ms),
            cmds@ == when_connected(*old(self), seq![Command::SwapVfo]),
    {
        let s = *self;
        let v = active_vfo_state(s, if s.active_vfo == 0 { 1 } else { 0 });
        *self = RadioState { last_user_write_ms: now_ms, ..v };
        let cmds = [Command::SwapVfo];
        connected_commands(s.is_connected, cmds.as_slice())
    }

    /// Copies the active VFO onto the other one (the A = B button).
    pub fn equalize_vfo(&mut self, now_ms: u64) -> (cmds: Vec<Command>)
        ensures
            *final(self) == after_equalize(*old(self), now_ms),
            cmds@ == when_connected(*old(self), seq![Command::EqualizeVfo]),
    {
        let s = *self;
        *self = if s.active_vfo == 0 {
            RadioState {
                frequency_b: s.frequency_a,
                mode_b: s.mode_a,
                filter_b: s.filter_a,
                is_data_mode_b: s.is_data_mode_a,
                last_user_write_ms: now_ms,
                ..s
            }
        } else {
            RadioState {
                frequency_a: s.frequency_b,
                mode_a: s.mode_b,
                filter_a: s.filter_b,
                is_data_mode_a: s.is_data_mode_b,
                last_user_write_ms: now_ms,
                ..s
            }
        };
        let cmds = [Command::EqualizeVfo];
        connected_commands(s.is_connected, cmds.as_slice())
    }

    /// Makes VFO A (`vfo` 0) or VFO B active (the Activate buttons).
    pub fn select_vfo(&mut self, vfo: u8, now_ms: u64) -> (cmds: Vec<Command>)
        ensures
            *final(self) == (RadioState { last_user_write_ms: now_ms, ..with_active_vfo(*old(self), vfo) }),
            cmds@ == when_connected(*old(self), seq![Command::SetVfo(vfo)]),
    {
        let s = *self;
        let v = active_vfo_state(s, vfo);
        *self = RadioState { last_user_write_ms: now_ms, ..v };
        let cmds = [Command::SetVfo(vfo)];
        connected_commands(s.is_connected, cmds.as_slice())
    }

    /// Switches split operation on or off.
    pub fn toggle_split(&mut self, now_ms: u64) -> (cmds: Vec<Command>)
        ensures
            *final(self) == (RadioState { split_active: !old(self).split_active, last_user_write_ms: now_ms, ..*old(self) }),
            cmds@ == when_connected(*old(self), seq![Command::SetSplit(!old(self).split_active)]),
    {
        self.last_user_write_ms = now_ms;
        self.split_active = !self.split_active;
        let cmds = [Command::SetSplit(self.split_active)];
        connected_commands(self.is_connected, cmds.as_slice())
    }

    /// Toggles transmission (the PTT button, or the space bar with TX lock on).
    pub fn toggle_ptt(&mut self, now_ms: u64) -> (cmds: Vec<Command>)
        ensures
            *final(self) == (RadioState { is_tx: !old(self).is_tx, last_user_write_ms: now_ms, ..*old(self) }),
            cmds@ == when_connected(*old(self), seq![Command::SetPTT(!old(self).is_tx)]),
    {
        self.last_user_write_ms = now_ms;
        self.is_tx = !self.is_tx;
        let cmds = [Command::SetPTT(self.is_tx)];
        connected_commands(self.is_connected, cmds.as_slice())
    }

    /// Sets the transmission state (space bar pressed or released with TX
    /// lock off); nothing happens when the state is already the requested one.
    pub fn set_ptt(&mut self, tx: bool, now_ms: u64) -> (cmds: Vec<Command>)
        ensures
            old(self).is_tx == tx ==> *final(self) == *old(self) && cmds@ == Seq::<Command>::empty(),
            old(self).is_tx != tx ==> *final(self) == (RadioState { is_tx: tx, last_user_write_ms: now_ms, ..*old(self) })
                && cmds@ == when_connected(*old(self), seq![Command::SetPTT(tx)]),
    {
        if self.is_tx == tx {
            return Vec::new();
        }
        self.last_user_write_ms = now_ms;
        self.is_tx = tx;
        let cmds = [Command::SetPTT(tx)];
        connected_commands(self.is_connected, cmds.as_slice())
    }

    /// Toggles the TX lock (PTT latching on the space bar).
    pub fn toggle_tx_lock(&mut self, now_ms: u64)
        ensures
            *final(self) == (RadioState { tx_lock: !old(self).tx_lock, last_user_write_ms: now_ms, ..*old(self) }),
    {
        self.last_user_write_ms = now_ms;
        self.tx_lock = !self.tx_lock;
    }

    /// Sets a receive/transmit setting from its button or slider, and the
    /// command that carries it. `cmd` names the setting by its command.
    pub fn apply_setting(&mut self, cmd: Command, now_ms: u64) -> (cmds: Vec<Command>)
        requires
            setting_command(cmd),
        ensures
            *final(self) == (RadioState { last_user_write_ms: now_ms, ..with_setting(*old(self), cmd) }),
            cmds@ == when_connected(*old(self), seq![cmd]),
    {
        let s = *self;
        let v = setting_state(s, cmd);
        *self = RadioState { last_user_write_ms: now_ms, ..v };
        let cmds = [cmd];
        connected_commands(s.is_connected, cmds.as_slice())
    }

    /// Applies a report from the radio; tells whether the frequency changed
    /// (the station lists must then be read again).
    pub fn apply_update(&mut self, update: &RadioUpdate, now_ms: u64) -> (freq_changed: bool)
        ensures
            *final(self) == after_report(*old(self), update@, now_ms),
            freq_changed == (update@ is Frequency && reports_apply(*old(self), now_ms)),
    {
        let s = *self;
        let ok = if now_ms >= s.last_user_write_ms {
            now_ms - s.last_user_write_ms >= USER_HOLD_MS
        } else {
            0 >= USER_HOLD_MS
        };
        *self = report_state(s, update, ok);
        match update {
            RadioUpdate::Frequency(_) => ok,
            _ => false,
        }
    }
}

/// The state tuned to `f` on the active VFO.
fn tuned_state(s: RadioState, f: u64) -> (t: RadioState)
    ensures
        t == tuned(s, f),
{
    if s.active_vfo == 0 {
        RadioState { frequency: f, frequency_a: f, ..s }
    } else {
        RadioState { frequency: f, frequency_b: f, ..s }
    }
}

/// The state with a mode selected on the active VFO.
fn mode_state(s: RadioState, mode: RadioMode, now_ms: u64) -> (t: RadioState)
    ensures
        t == after_mode(s, mode, now_ms),
{
    if s.active_vfo == 0 {
        RadioState { mode, mode_a: mode, last_user_write_ms: now_ms, ..s }
    } else {
        RadioState { mode, mode_b: mode, last_user_write_ms: now_ms, ..s }
    }
}

/// The state with a VFO made active.
fn active_vfo_state(s: RadioState, vfo: u8) -> (t: RadioState)
    ensures
        t == with_active_vfo(s, vfo),
{
    if vfo == 0 {
        RadioState {
            active_vfo: vfo,
            frequency: s.frequency_a,
            mode: s.mode_a,
            filter: s.filter_a,
            is_data_mode: s.is_data_mode_a,
            ..s
        }
    } else {
        RadioState {
            active_vfo: vfo,
            frequency: s.frequency_b,
            mode: s.mode_b,
            filter: s.filter_b,
            is_data_mode: s.is_data_mode_b,
            ..s
        }
    }
}

/// The state with the setting a command carries.
fn setting_state(s: RadioState, cmd: Command) -> (t: RadioState)
    ensures
        t == with_setting(s, cmd),
{
    match cmd {
        Command::SetAfGain(v) => RadioState { af_gain: v, ..s },
        Command::SetRfGain(v) => RadioState { rf_gain: v, ..s },
        Command::SetSquelch(v) => RadioState { squelch: v, ..s },
        Command::SetMicGain(v) => RadioState { mic_gain: v, ..s },
        Command::SetRfPower(v) => RadioState { rf_power: v, ..s },
        Command::SetCompLevel(v) => RadioState { comp_level: v, ..s },
        Command::SetMonitorLevel(v) => RadioState { monitor_level: v, ..s },
        Command::SetPreamp(v) => RadioState { preamp: v, ..s },
        Command::SetAttenuator(v) => RadioState { attenuator: v, ..s },
        Command::SetAgc(v) => RadioState { agc: v, ..s },
        Command::SetTuner(v) => RadioState { tuner: v, ..s },
        Command::SetNoiseBlanker(v) => RadioState { noise_blanker: v, ..s },
        Command::SetNoiseReduction(v) => RadioState { noise_reduction: v, ..s },
        Command::SetNoiseBlankerLevel(v) => RadioState { noise_blanker_level: v, ..s },
        Command::SetNoiseReductionLevel(v) => RadioState { noise_reduction_level: v, ..s },
        Command::SetUsbRxLevel(v) => RadioState { usb_rx_level: v, ..s },
        Command::SetUsbTxLevel(v) => RadioState { usb_tx_level: v, ..s },
        Command::SetScopeOutput(v) => RadioState { scope_enabled: v, ..s },
        _ => s,
    }
}

/// The state after a report from the radio, given whether reports apply.
#[verifier::rlimit(80)]
#[verifier::spinoff_prover]
fn report_state(s: RadioState, update: &RadioUpdate, ok: bool) -> (t: RadioState)
    ensures
        t == after_report_with(s, update@, ok),
{
    match update {
        RadioUpdate::Frequency(f) => if ok { tuned_state(s, *f) } else { s },
        RadioUpdate::ModeAndFilter(m, fil, d) => if ok {
            if s.active_vfo == 0 {
                RadioState { mode: *m, filter: *fil, is_data_mode: *d, mode_a: *m, filter_a: *fil, is_data_mode_a: *d, ..s }
            } else {
                RadioState { mode: *m, filter: *fil, is_data_mode: *d, mode_b: *m, filter_b: *fil, is_data_mode_b: *d, ..s }
            }
        } else {
            s
        },
        RadioUpdate::ActiveVfo(v) => if ok { active_vfo_state(s, *v) } else { s },
        RadioUpdate::SplitState(v) => if ok { RadioState { split_active: *v, ..s } } else { s },
        RadioUpdate::Meter(sub, v) => if *sub == 0x02 {
            RadioState { s_meter: *v, ..s }
        } else if *sub == 0x11 {
            RadioState { po_meter: *v, ..s }
        } else if *sub == 0x12 {
            RadioState { swr_meter: *v, ..s }
        } else if *sub == 0x13 {
            RadioState { alc_meter: *v, ..s }
        } else if *sub == 0x14 {
            RadioState { comp_meter: *v, ..s }
        } else {
            s
        },
        RadioUpdate::PTTState(v) => RadioState { is_tx: *v, ..s },
        RadioUpdate::AfGain(v) => if ok { RadioState { af_gain: *v, ..s } } else { s },
        RadioUpdate::RfGain(v) => if ok { RadioState { rf_gain: *v, ..s } } else { s },
        RadioUpdate::Squelch(v) => if ok { RadioState { squelch: *v, ..s } } else { s },
        RadioUpdate::RfPower(v) => if ok { RadioState { rf_power: *v, ..s } } else { s },
        RadioUpdate::MicGain(v) => if ok { RadioState { mic_gain: *v, ..s } } else { s },
        RadioUpdate::CompLevel(v) => if ok { RadioState { comp_level: *v, ..s } } else { s },
        RadioUpdate::MonitorLevel(v) => if ok { RadioState { monitor_level: *v, ..s } } else { s },
        RadioUpdate::Preamp(v) => if ok { RadioState { preamp: *v, ..s } } else { s },
        RadioUpdate::Attenuator(v) => if ok { RadioState { attenuator: *v, ..s } } else { s },
        RadioUpdate::Agc(v) => if ok { RadioState { agc: *v, ..s } } else { s },
        RadioUpdate::Tuner(v) => if ok { RadioState { tuner: *v, ..s } } else { s },
        RadioUpdate::NoiseBlanker(v) => if ok { RadioState { noise_blanker: *v, ..s } } else { s },
        RadioUpdate::NoiseReduction(v) => if ok { RadioState { noise_reduction: *v, ..s } } else { s },
        RadioUpdate::NoiseBlankerLevel(v) => if ok { RadioState { noise_blanker_level: *v, ..s } } else { s },
        RadioUpdate::NoiseReductionLevel(v) => if ok { RadioState { noise_reduction_level: *v, ..s } } else { s },
        RadioUpdate::UsbRxLevel(v) => if ok { RadioState { usb_rx_level: *v, ..s } } else { s },
        RadioUpdate::UsbTxLevel(v) => if ok { RadioState { usb_tx_level: *v, ..s } } else { s },
        RadioUpdate::ScopeSweep(_) => s,
        RadioUpdate::ScopeSpan(_) => s,
        RadioUpdate::Disconnected(_) => s,
    }
}

/// A command that carries one receive/transmit setting of the panel.
pub open spec fn setting_command(cmd: Command) -> bool {
    match cmd {
        Command::SetAfGain(_) | Command::SetRfGain(_) | Command::SetSquelch(_) | Command::SetMicGain(_)
        | Command::SetRfPower(_) | Command::SetCompLevel(_) | Command::SetMonitorLevel(_)
        | Command::SetPreamp(_) | Command::SetAttenuator(_) | Command::SetAgc(_) | Command::SetTuner(_)
        | Command::SetNoiseBlanker(_) | Command::SetNoiseReduction(_) | Command::SetNoiseBlankerLevel(_)
        | Command::SetNoiseReductionLevel(_) | Command::SetUsbRxLevel(_) | Command::SetUsbTxLevel(_)
        | Command::SetScopeOutput(_) => true,
        _ => false,
    }
}

/// The state with the setting a command carries.
pub open spec fn with_setting(s: RadioState, cmd: Command) -> RadioState {
    match cmd {
        Command::SetAfGain(v) => RadioState { af_gain: v, ..s },
        Command::SetRfGain(v) => RadioState { rf_gain: v, ..s },
        Command::SetSquelch(v) => RadioState { squelch: v, ..s },
        Command::SetMicGain(v) => RadioState { mic_gain: v, ..s },
        Command::SetRfPower(v) => RadioState { rf_power: v, ..s },
        Command::SetCompLevel(v) => RadioState { comp_level: v, ..s },
        Command::SetMonitorLevel(v) => RadioState { monitor_level: v, ..s },
        Command::SetPreamp(v) => RadioState { preamp: v, ..s },
        Command::SetAttenuator(v) => RadioState { attenuator: v, ..s },
        Command::SetAgc(v) => RadioState { agc: v, ..s },
        Command::SetTuner(v) => RadioState { tuner: v, ..s },
        Command::SetNoiseBlanker(v) => RadioState { noise_blanker: v, ..s },
        Command::SetNoiseReduction(v) => RadioState { noise_reduction: v, ..s },
        Command::SetNoiseBlankerLevel(v) => RadioState { noise_blanker_level: v, ..s },
        Command::SetNoiseReductionLevel(v) => RadioState { noise_reduction_level: v, ..s },
        Command::SetUsbRxLevel(v) => RadioState { usb_rx_level: v, ..s },
        Command::SetUsbTxLevel(v) => RadioState { usb_tx_level: v, ..s },
        Command::SetScopeOutput(v) => RadioState { scope_enabled: v, ..s },
        _ => s,
    }
}

/// Tuning always lands on the requested frequency brought into the tuning
/// range, 30 kHz to 74.8 MHz.
pub proof fn lemma_tuning_stays_in_range(s: RadioState, f: i64, now: u64)
    ensures
        after_set_frequency(s, f, now).frequency == clamp_freq(f),
        MIN_FREQ <= clamp_freq(f) <= MAX_FREQ,
        MIN_FREQ as i64 <= f <= MAX_FREQ as i64 ==> clamp_freq(f) == f,
{
}

/// Every operator action on the VFOs keeps the working frequency, mode,
/// filter and DATA state those of the active VFO; selecting a VFO makes them
/// so whatever they were.
pub proof fn lemma_vfo_actions_keep_consistency(
    s: RadioState,
    f: i64,
    mem: (u64, RadioMode, bool, u8, u8),
    mode: RadioMode,
    filter: u8,
    vfo: u8,
    now: u64,
)
    requires
        vfo_consistent(s),
    ensures
        vfo_consistent(after_set_frequency(s, f, now)),
        vfo_consistent(after_recall(s, mem.0, mem.1, mem.2, mem.3, mem.4, now)),
        vfo_consistent(after_mode(s, mode, now)),
        vfo_consistent(after_filter(s, filter, now)),
        vfo_consistent(after_data_toggle(s, now)),
        vfo_consistent(after_swap(s, now)),
        vfo_consistent(after_equalize(s, now)),
        vfo_consistent(with_active_vfo(s, vfo)),
{
}

/// Every report from the radio keeps the working frequency, mode, filter and
/// DATA state those of the active VFO.
pub proof fn lemma_reports_keep_consistency(s: RadioState, r: RadioReport, now: u64)
    requires
        vfo_consistent(s),
    ensures
        vfo_consistent(after_report(s, r, now)),
{
    let ok = reports_apply(s, now);
    match r {
        RadioReport::Frequency(f) => {},
        RadioReport::ModeAndFilter(m, fil, d) => {},
        RadioReport::ActiveVfo(v) => {},
        _ => {
            assert(after_report(s, r, now).active_vfo == s.active_vfo);
        },
    }
}

/// Swapping the VFOs twice gives back the state as it was, but for the time
/// of the last operator action.
pub proof fn lemma_swap_twice_restores(s: RadioState, t1: u64, t2: u64)
    requires
        vfo_consistent(s),
        s.active_vfo <= 1,
    ensures
        after_swap(after_swap(s, t1), t2) == (RadioState { last_user_write_ms: t2, ..s }),
{
}

/// After copying the active VFO onto the other, both VFOs hold the same
/// frequency, mode, filter and DATA state.
pub proof fn lemma_equalize_copies_active_vfo(s: RadioState, now: u64)
    requires
        vfo_consistent(s),
    ensures
        ({
            let t = after_equalize(s, now);
            &&& t.frequency_a == t.frequency_b && t.frequency_a == s.frequency
            &&& t.mode_a == t.mode_b && t.mode_a == s.mode
            &&& t.filter_a == t.filter_b && t.filter_a == s.filter
            &&& t.is_data_mode_a == t.is_data_mode_b && t.is_data_mode_a == s.is_data_mode
        }),
{
}

/// Within the hold time after an operator action, reports from the radio
/// leave the settings alone: only meter readings and the transmit state
/// apply.
pub proof fn lemma_reports_held_after_action(s: RadioState, r: RadioReport, now: u64)
    requires
        !reports_apply(s, now),
        !(r is Meter),
        !(r is PTTState),
    ensures
        after_report(s, r, now) == s,
{
}

/// A setting the operator orders and the transceiver's report of that same
/// setting agree: once reports apply, the report confirming an order leaves
/// the panel exactly as the order itself does (the microphone gain report
/// sets the microphone gain the microphone slider sets, and so on); and the
/// panel, brought back in line with the radio after connecting, sends the
/// order again with the value it carried (see `lemma_settings_are_resent`).
pub proof fn lemma_setting_and_report_agree(s: RadioState, cmd: Command, r: RadioReport, now: u64)
    requires
        setting_command(cmd),
        confirming_report(cmd) == Some(r),
    ensures
        after_report_with(s, r, true) == with_setting(s, cmd),
        reports_apply(s, now) ==> after_report(s, r, now) == with_setting(s, cmd),
{
}

/// Where the resynchronisation after connecting sends each setting.
proof fn lemma_sync_entries(t: RadioState)
    ensures
        sync_commands(t).len() == 29,
        sync_commands(t)[10] == Command::SetAfGain(t.af_gain),
        sync_commands(t)[11] == Command::SetRfGain(t.rf_gain),
        sync_commands(t)[12] == Command::SetSquelch(t.squelch),
        sync_commands(t)[13] == Command::SetMicGain(t.mic_gain),
        sync_commands(t)[14] == Command::SetRfPower(t.rf_power),
        sync_commands(t)[15] == Command::SetCompLevel(t.comp_level),
        sync_commands(t)[16] == Command::SetMonitorLevel(t.monitor_level),
        sync_commands(t)[17] == Command::SetPreamp(t.preamp),
        sync_commands(t)[18] == Command::SetAttenuator(t.attenuator),
        sync_commands(t)[19] == Command::SetAgc(t.agc),
        sync_commands(t)[20] == Command::SetTuner(t.tuner),
        sync_commands(t)[21] == Command::SetNoiseBlanker(t.noise_blanker),
        sync_commands(t)[22] == Command::SetNoiseReduction(t.noise_reduction),
        sync_commands(t)[23] == Command::SetNoiseBlankerLevel(t.noise_blanker_level),
        sync_commands(t)[24] == Command::SetNoiseReductionLevel(t.noise_reduction_level),
        sync_commands(t)[25] == Command::SetScopeOutput(t.scope_enabled),
        sync_commands(t)[26] == Command::SetUsbRxLevel(t.usb_rx_level),
        sync_commands(t)[27] == Command::SetUsbTxLevel(t.usb_tx_level),
{
}

/// Every setting the panel orders comes back when it brings the radio in
/// line after connecting: the resynchronisation sends the order itself,
/// with the value it carried.
pub proof fn lemma_settings_are_resent(s: RadioState, cmd: Command)
    requires
        setting_command(cmd),
    ensures
        sync_commands(with_setting(s, cmd)).contains(cmd),
{
    let t = with_setting(s, cmd);
    let c = sync_commands(t);
    lemma_sync_entries(t);
    let k: int = match cmd {
        Command::SetAfGain(_) => 10,
        Command::SetRfGain(_) => 11,
        Command::SetSquelch(_) => 12,
        Command::SetMicGain(_) => 13,
        Command::SetRfPower(_) => 14,
        Command::SetCompLevel(_) => 15,
        Command::SetMonitorLevel(_) => 16,
        Command::SetPreamp(_) => 17,
        Command::SetAttenuator(_) => 18,
        Command::SetAgc(_) => 19,
        Command::SetTuner(_) => 20,
        Command::SetNoiseBlanker(_) => 21,
        Command::SetNoiseReduction(_) => 22,
        Command::SetNoiseBlankerLevel(_) => 23,
        Command::SetNoiseReductionLevel(_) => 24,
        Command::SetScopeOutput(_) => 25,
        Command::SetUsbRxLevel(_) => 26,
        _ => 27,
    };
    assert(c[k] == cmd);
}

/// The meter frame the transceiver sends for a reading `v` of meter `sub`.
pub open spec fn meter_frame(sub: u8, v: u8) -> Seq<u8> {
    reply_frame(0x15, seq![sub] + level_bcd(v))
}

/// Each meter reading the transceiver sends shows on the meter it names, at
/// any time (even during the hold after an operator action), and leaves the
/// other meters and every setting alone: S (15 02), PO output power (15 11),
/// SWR (15 12), ALC (15 13) and compression (15 14).
pub proof fn lemma_meter_readings_show_on_their_meters(s: RadioState, v: u8, now: u64, data_mode: bool)
    ensures
        state_report(meter_frame(0x02, v), data_mode) == Some(RadioReport::Meter(0x02, v)),
        state_report(meter_frame(0x11, v), data_mode) == Some(RadioReport::Meter(0x11, v)),
        state_report(meter_frame(0x12, v), data_mode) == Some(RadioReport::Meter(0x12, v)),
        state_report(meter_frame(0x13, v), data_mode) == Some(RadioReport::Meter(0x13, v)),
        state_report(meter_frame(0x14, v), data_mode) == Some(RadioReport::Meter(0x14, v)),
        after_report(s, RadioReport::Meter(0x02, v), now) == (RadioState { s_meter: v, ..s }),
        after_report(s, RadioReport::Meter(0x11, v), now) == (RadioState { po_meter: v, ..s }),
        after_report(s, RadioReport::Meter(0x12, v), now) == (RadioState { swr_meter: v, ..s }),
        after_report(s, RadioReport::Meter(0x13, v), now) == (RadioState { alc_meter: v, ..s }),
        after_report(s, RadioReport::Meter(0x14, v), now) == (RadioState { comp_meter: v, ..s }),
        after_report(s, RadioReport::Meter(0x11, v), now).po_meter == v,
        after_report(s, RadioReport::Meter(0x11, v), now).swr_meter == s.swr_meter,
        after_report(s, RadioReport::Meter(0x12, v), now).swr_meter == v,
        after_report(s, RadioReport::Meter(0x12, v), now).po_meter == s.po_meter,
{
    lemma_level_bcd_roundtrip(v);
    assert(meter_frame(0x02, v).subrange(6, 8) =~= level_bcd(v));
    assert(meter_frame(0x11, v).subrange(6, 8) =~= level_bcd(v));
    assert(meter_frame(0x12, v).subrange(6, 8) =~= level_bcd(v));
    assert(meter_frame(0x13, v).subrange(6, 8) =~= level_bcd(v));
    assert(meter_frame(0x14, v).subrange(6, 8) =~= level_bcd(v));
}

} // verus!
