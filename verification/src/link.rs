//! The serial link to the transceiver as a state machine: what to write for a
//! command, which polls are due, and how received bytes turn into updates.

use vstd::prelude::*;
use crate::bcd::{
    bcd_digits, freq_to_bcd, lemma_bcd_digits_bytes, lemma_freq_bcd_roundtrip, level_bcd, level_to_bcd, span_bcd,
    span_to_bcd_bytes,
};
use crate::civ::{
    build_civ_frame, civ_frame, find_frame, first_end, first_preamble, frame_scan,
    lemma_first_end_bounds, lemma_first_preamble_bounds, mode_code, reply_frame, Command, FrameScan,
    RadioReport, RadioUpdate,
};
use crate::decode::{
    decode_scope_frame, decode_state_frame, frame_from_radio, freq_in_range, is_scope_frame,
    lemma_frequency_reply_decodes, report_of, scope_report, state_report,
};

verus! {

/// The byte sequences of a list of frames.
pub open spec fn frames_view(frames: Seq<Vec<u8>>) -> Seq<Seq<u8>> {
    frames.map_values(|f: Vec<u8>| f@)
}

/// 1 for `true`, 0 for `false`.
pub open spec fn flag_byte(b: bool) -> u8 {
    if b { 1 } else { 0 }
}

/// The data field of the USB audio level settings (menu items 00 60 and 00 65).
pub open spec fn usb_level_data(item: u8, level: u8) -> Seq<u8> {
    seq![0x00u8, item] + level_bcd(level)
}

/// The frames written to the transceiver for a command, given the filter
/// last selected (used when switching DATA mode on).
pub open spec fn command_frames(cmd: Command, filter: u8) -> Seq<Seq<u8>> {
    match cmd {
        Command::SetFrequency(f) => seq![civ_frame(0x05, None, bcd_digits(f as nat, 5))],
        Command::SetModeAndFilter(m, fil) => seq![civ_frame(0x06, None, seq![mode_code(m), fil])],
        Command::SetDataMode(v) => if v {
            seq![civ_frame(0x1A, Some(0x06u8), seq![0x01u8, filter])]
        } else {
            seq![civ_frame(0x1A, Some(0x06u8), seq![0x00u8, 0x00])]
        },
        Command::SetPTT(v) => seq![civ_frame(0x1C, Some(0x00u8), seq![flag_byte(v)])],
        Command::SetVfo(vfo) => seq![civ_frame(0x07, Some(if vfo == 0 { 0x00u8 } else { 0x01u8 }), seq![])],
        Command::SwapVfo => seq![civ_frame(0x07, Some(0xB0u8), seq![])],
        Command::EqualizeVfo => seq![civ_frame(0x07, Some(0xA0u8), seq![])],
        Command::SetSplit(v) => seq![civ_frame(0x0F, Some(flag_byte(v)), seq![])],
        Command::SetAfGain(v) => seq![civ_frame(0x14, Some(0x01u8), level_bcd(v))],
        Command::SetRfGain(v) => seq![civ_frame(0x14, Some(0x02u8), level_bcd(v))],
        Command::SetSquelch(v) => seq![civ_frame(0x14, Some(0x03u8), level_bcd(v))],
        Command::SetRfPower(v) => seq![civ_frame(0x14, Some(0x0Au8), level_bcd(v))],
        Command::SetMicGain(v) => seq![civ_frame(0x14, Some(0x0Bu8), level_bcd(v))],
        Command::SetCompLevel(v) => seq![civ_frame(0x14, Some(0x0Eu8), level_bcd(v))],
        Command::SetMonitorLevel(v) => seq![civ_frame(0x14, Some(0x15u8), level_bcd(v))],
        Command::SetPreamp(v) => seq![civ_frame(0x16, Some(0x02u8), seq![v])],
        Command::SetAttenuator(v) => seq![civ_frame(0x11, None, seq![if v { 0x20u8 } else { 0x00u8 }])],
        Command::SetAgc(v) => seq![civ_frame(0x16, Some(0x12u8), seq![v])],
        Command::SetTuner(v) => seq![civ_frame(0x1C, Some(0x01u8), seq![flag_byte(v)])],
        Command::SetNoiseBlanker(v) => seq![civ_frame(0x16, Some(0x22u8), seq![flag_byte(v)])],
        Command::SetNoiseReduction(v) => seq![civ_frame(0x16, Some(0x40u8), seq![flag_byte(v)])],
        Command::SetNoiseBlankerLevel(v) => seq![civ_frame(0x14, Some(0x12u8), level_bcd(v))],
        Command::SetNoiseReductionLevel(v) => seq![civ_frame(0x14, Some(0x06u8), level_bcd(v))],
        Command::SetScopeOutput(v) => seq![
            civ_frame(0x27, Some(0x10u8), seq![flag_byte(v)]),
            civ_frame(0x27, Some(0x11u8), seq![flag_byte(v)]),
        ],
        Command::SetScopeSpan(span) => seq![
            civ_frame(0x27, Some(0x14u8), seq![0x00u8, 0x00]),
            civ_frame(0x27, Some(0x15u8), span_bcd(span)),
        ],
        Command::SetPower(v) => if v {
            seq![Seq::new(150, |i: int| 0xFEu8) + civ_frame(0x18, Some(0x01u8), seq![])]
        } else {
            seq![civ_frame(0x18, Some(0x00u8), seq![])]
        },
        Command::SetUsbRxLevel(v) => seq![civ_frame(0x1A, Some(0x05u8), usb_level_data(0x60, v))],
        Command::SetUsbTxLevel(v) => seq![civ_frame(0x1A, Some(0x05u8), usb_level_data(0x65, v))],
        Command::Disconnect => seq![],
    }
}

/// The pause, in milliseconds, between two consecutive frames of a command.
pub open spec fn command_pause(cmd: Command) -> u64 {
    match cmd {
        Command::SetScopeOutput(_) => 20,
        Command::SetScopeSpan(_) => 25,
        _ => 0,
    }
}

/// What the link writes for one command.
pub struct CommandPlan {
    /// Frames to write, in order.
    pub frames: Vec<Vec<u8>>,
    /// Pause in milliseconds between two consecutive frames.
    pub pause_ms: u64,
    /// The command closes the link.
    pub stop: bool,
}

/// One frame of a command, as the only frame of a list.
fn single(frame: Vec<u8>) -> (frames: Vec<Vec<u8>>)
    ensures
        frames_view(frames@) == seq![frame@],
{
    let mut frames: Vec<Vec<u8>> = Vec::new();
    frames.push(frame);
    assert(frames_view(frames@) =~= seq![frame@]);
    frames
}

/// A level-setting frame (command 14 with the given sub-command).
fn level_frame(sub: u8, level: u8) -> (frame: Vec<u8>)
    ensures
        frame@ == civ_frame(0x14, Some(sub), level_bcd(level)),
{
    let lv = level_to_bcd(level);
    build_civ_frame(0x14, Some(sub), lv.as_slice())
}

/// The frames of a command, given the filter last selected.
pub fn encode_command(cmd: Command, filter: u8) -> (frames: Vec<Vec<u8>>)
    ensures
        frames_view(frames@) == command_frames(cmd, filter),
{
    match cmd {
        Command::SetFrequency(f) => {
            let bcd = freq_to_bcd(f);
            single(build_civ_frame(0x05, None, bcd.as_slice()))
        },
        Command::SetModeAndFilter(m, fil) => {
            let data: [u8; 2] = [m.code(), fil];
            assert(data@ =~= seq![mode_code(m), fil]);
            single(build_civ_frame(0x06, None, data.as_slice()))
        },
        Command::SetDataMode(v) => {
            if v {
                let data: [u8; 2] = [0x01, filter];
                assert(data@ =~= seq![0x01u8, filter]);
                single(build_civ_frame(0x1A, Some(0x06), data.as_slice()))
            } else {
                let data: [u8; 2] = [0x00, 0x00];
                assert(data@ =~= seq![0x00u8, 0x00]);
                single(build_civ_frame(0x1A, Some(0x06), data.as_slice()))
            }
        },
        Command::SetPTT(v) => {
            let data: [u8; 1] = [if v { 1 } else { 0 }];
            assert(data@ =~= seq![flag_byte(v)]);
            single(build_civ_frame(0x1C, Some(0x00), data.as_slice()))
        },
        Command::SetVfo(vfo) => {
            let sub: u8 = if vfo == 0 { 0x00 } else { 0x01 };
            let data: [u8; 0] = [];
            assert(data@ =~= Seq::<u8>::empty());
            single(build_civ_frame(0x07, Some(sub), data.as_slice()))
        },
        Command::SwapVfo => {
            let data: [u8; 0] = [];
            assert(data@ =~= Seq::<u8>::empty());
            single(build_civ_frame(0x07, Some(0xB0), data.as_slice()))
        },
        Command::EqualizeVfo => {
            let data: [u8; 0] = [];
            assert(data@ =~= Seq::<u8>::empty());
            single(build_civ_frame(0x07, Some(0xA0), data.as_slice()))
        },
        Command::SetSplit(v) => {
            let data: [u8; 0] = [];
            assert(data@ =~= Seq::<u8>::empty());
            single(build_civ_frame(0x0F, Some(if v { 0x01 } else { 0x00 }), data.as_slice()))
        },
        Command::SetAfGain(v) => single(level_frame(0x01, v)),
        Command::SetRfGain(v) => single(level_frame(0x02, v)),
        Command::SetSquelch(v) => single(level_frame(0x03, v)),
        Command::SetRfPower(v) => single(level_frame(0x0A, v)),
        Command::SetMicGain(v) => single(level_frame(0x0B, v)),
        Command::SetCompLevel(v) => single(level_frame(0x0E, v)),
        Command::SetMonitorLevel(v) => single(level_frame(0x15, v)),
        Command::SetPreamp(v) => {
            let data: [u8; 1] = [v];
            assert(data@ =~= seq![v]);
            single(build_civ_frame(0x16, Some(0x02), data.as_slice()))
        },
        Command::SetAttenuator(v) => {
            let data: [u8; 1] = [if v { 0x20 } else { 0x00 }];
            assert(data@ =~= seq![if v { 0x20u8 } else { 0x00u8 }]);
            single(build_civ_frame(0x11, None, data.as_slice()))
        },
        Command::SetAgc(v) => {
            let data: [u8; 1] = [v];
            assert(data@ =~= seq![v]);
            single(build_civ_frame(0x16, Some(0x12), data.as_slice()))
        },
        Command::SetTuner(v) => {
            let data: [u8; 1] = [if v { 1 } else { 0 }];
            assert(data@ =~= seq![flag_byte(v)]);
            single(build_civ_frame(0x1C, Some(0x01), data.as_slice()))
        },
        Command::SetNoiseBlanker(v) => {
            let data: [u8; 1] = [if v { 1 } else { 0 }];
            assert(data@ =~= seq![flag_byte(v)]);
            single(build_civ_frame(0x16, Some(0x22), data.as_slice()))
        },
        Command::SetNoiseReduction(v) => {
            let data: [u8; 1] = [if v { 1 } else { 0 }];
            assert(data@ =~= seq![flag_byte(v)]);
            single(build_civ_frame(0x16, Some(0x40), data.as_slice()))
        },
        Command::SetNoiseBlankerLevel(v) => single(level_frame(0x12, v)),
        Command::SetNoiseReductionLevel(v) => single(level_frame(0x06, v)),
        Command::SetScopeOutput(v) => {
            let data: [u8; 1] = [if v { 1 } else { 0 }];
            assert(data@ =~= seq![flag_byte(v)]);
            let first = build_civ_frame(0x27, Some(0x10), data.as_slice());
            let second = build_civ_frame(0x27, Some(0x11), data.as_slice());
            let mut frames: Vec<Vec<u8>> = Vec::new();
            frames.push(first);
            frames.push(second);
            assert(frames_view(frames@) =~= command_frames(cmd, filter));
            frames
        },
        Command::SetScopeSpan(span) => {
            let data: [u8; 2] = [0x00, 0x00];
            assert(data@ =~= seq![0x00u8, 0x00]);
            let first = build_civ_frame(0x27, Some(0x14), data.as_slice());
            let bcd = span_to_bcd_bytes(span);
            let second = build_civ_frame(0x27, Some(0x15), bcd.as_slice());
            let mut frames: Vec<Vec<u8>> = Vec::new();
            frames.push(first);
            frames.push(second);
            assert(frames_view(frames@) =~= command_frames(cmd, filter));
            frames
        },
        Command::SetPower(v) => {
            let data: [u8; 0] = [];
            assert(data@ =~= Seq::<u8>::empty());
            if v {
                let mut wake: Vec<u8> = Vec::new();
                let mut i: usize = 0;
                while i < 150
                    invariant
                        i <= 150,
                        wake@ =~= Seq::new(i as nat, |k: int| 0xFEu8),
                    decreases 150 - i,
                {
                    wake.push(0xFE);
                    i = i + 1;
                }
                let frame = build_civ_frame(0x18, Some(0x01), data.as_slice());
                let ghost w = wake@;
                let mut k: usize = 0;
                while k < frame.len()
                    invariant
                        k <= frame@.len(),
                        wake@ =~= w + frame@.take(k as int),
                    decreases frame@.len() - k,
                {
                    wake.push(frame[k]);
                    k = k + 1;
                }
                assert(frame@.take(frame@.len() as int) =~= frame@);
                single(wake)
            } else {
                single(build_civ_frame(0x18, Some(0x00), data.as_slice()))
            }
        },
        Command::SetUsbRxLevel(v) => {
            let lv = level_to_bcd(v);
            let data: [u8; 4] = [0x00, 0x60, lv[0], lv[1]];
            assert(data@ =~= usb_level_data(0x60, v));
            single(build_civ_frame(0x1A, Some(0x05), data.as_slice()))
        },
        Command::SetUsbTxLevel(v) => {
            let lv = level_to_bcd(v);
            let data: [u8; 4] = [0x00, 0x65, lv[0], lv[1]];
            assert(data@ =~= usb_level_data(0x65, v));
            single(build_civ_frame(0x1A, Some(0x05), data.as_slice()))
        },
        Command::Disconnect => {
            let frames: Vec<Vec<u8>> = Vec::new();
            assert(frames_view(frames@) =~= Seq::<Seq<u8>>::empty());
            frames
        },
    }
}

/// Time after which a silent transceiver is taken as lost, in milliseconds.
pub const WATCHDOG_MS: u64 = 2500;

/// Period of the meter poll, in milliseconds.
pub const METER_POLL_MS: u64 = 40;

/// Period of the PTT poll, in milliseconds.
pub const PTT_POLL_MS: u64 = 80;

/// Period of the status poll while receiving, in milliseconds.
pub const STATUS_POLL_MS: u64 = 150;

/// Size above which an unterminated frame is dropped from the receive buffer.
pub const MAX_PENDING: usize = 1024;

/// Milliseconds from `since` to `now`, 0 when `now` comes first.
pub open spec fn elapsed(now: u64, since: u64) -> u64 {
    if now >= since { (now - since) as u64 } else { 0 }
}

/// The index after `i` in a cycle of `n` entries.
pub open spec fn next_index(i: usize, n: usize) -> usize {
    if i + 1 >= n { 0 } else { (i + 1) as usize }
}

/// The read requests cycled through while receiving, one every status period:
/// command, sub-command and data of each.
pub open spec fn rx_poll_request(index: usize) -> Option<(u8, Option<u8>, Seq<u8>)> {
    if index == 0 {
        Some((0x03u8, None, seq![]))
    } else if index == 1 {
        Some((0x04u8, None, seq![]))
    } else if index == 2 {
        Some((0x07u8, None, seq![]))
    } else if index == 3 {
        Some((0x0Fu8, None, seq![]))
    } else if index == 4 {
        Some((0x14u8, Some(0x01u8), seq![]))
    } else if index == 5 {
        Some((0x14u8, Some(0x02u8), seq![]))
    } else if index == 6 {
        Some((0x14u8, Some(0x03u8), seq![]))
    } else if index == 7 {
        Some((0x14u8, Some(0x0Au8), seq![]))
    } else if index == 8 {
        Some((0x14u8, Some(0x0Bu8), seq![]))
    } else if index == 9 {
        Some((0x14u8, Some(0x0Eu8), seq![]))
    } else if index == 10 {
        Some((0x14u8, Some(0x15u8), seq![]))
    } else if index == 11 {
        Some((0x16u8, Some(0x02u8), seq![]))
    } else if index == 12 {
        Some((0x11u8, None, seq![]))
    } else if index == 13 {
        Some((0x16u8, Some(0x12u8), seq![]))
    } else if index == 14 {
        Some((0x1Cu8, Some(0x01u8), seq![]))
    } else if index == 15 {
        Some((0x1Au8, Some(0x05u8), seq![0x00u8, 0x60]))
    } else if index == 16 {
        Some((0x1Au8, Some(0x05u8), seq![0x00u8, 0x65]))
    } else if index == 17 {
        Some((0x16u8, Some(0x22u8), seq![]))
    } else if index == 18 {
        Some((0x16u8, Some(0x40u8), seq![]))
    } else if index == 19 {
        Some((0x14u8, Some(0x12u8), seq![]))
    } else if index == 20 {
        Some((0x14u8, Some(0x06u8), seq![]))
    } else if index == 21 {
        Some((0x27u8, Some(0x15u8), seq![]))
    } else {
        None
    }
}

/// The frames of an optional request.
pub open spec fn request_frames(req: Option<(u8, Option<u8>, Seq<u8>)>) -> Seq<Seq<u8>> {
    match req {
        Some((cmd, sub, data)) => seq![civ_frame(cmd, sub, data)],
        None => seq![],
    }
}

/// The meter read requests cycled through while transmitting (power, SWR,
/// ALC, compression), one every meter period.
pub open spec fn tx_poll_request(index: usize) -> Option<(u8, Option<u8>, Seq<u8>)> {
    if index == 0 {
        Some((0x15u8, Some(0x11u8), seq![]))
    } else if index == 1 {
        Some((0x15u8, Some(0x12u8), seq![]))
    } else if index == 2 {
        Some((0x15u8, Some(0x13u8), seq![]))
    } else if index == 3 {
        Some((0x15u8, Some(0x14u8), seq![]))
    } else {
        None
    }
}

/// The S-meter read request.
pub open spec fn meter_poll() -> Seq<u8> {
    civ_frame(0x15, Some(0x02u8), seq![])
}

/// The PTT state read request.
pub open spec fn ptt_poll() -> Seq<u8> {
    civ_frame(0x1C, Some(0x00u8), seq![])
}

/// The value of a `RadioLink`.
pub struct LinkModel {
    pub filter: u8,
    pub data_mode: bool,
    pub is_tx: bool,
    pub scope: Seq<u8>,
    pub buffer: Seq<u8>,
    pub rx_poll_index: usize,
    pub tx_poll_index: usize,
    pub last_meter_poll_ms: u64,
    pub last_ptt_poll_ms: u64,
    pub last_status_poll_ms: u64,
    pub last_read_ms: u64,
}

/// The computer's side of the serial link: the filter and DATA state last
/// commanded, the transmit state, the spectrum sweep being assembled, the bytes
/// received and not yet framed, and the poll and watchdog clocks.
pub struct RadioLink {
    pub filter: u8,
    pub data_mode: bool,
    pub is_tx: bool,
    pub scope_buffer: Vec<u8>,
    pub serial_buffer: Vec<u8>,
    pub rx_poll_index: usize,
    pub tx_poll_index: usize,
    pub last_meter_poll_ms: u64,
    pub last_ptt_poll_ms: u64,
    pub last_status_poll_ms: u64,
    pub last_read_ms: u64,
}

impl View for RadioLink {
    type V = LinkModel;

    open spec fn view(&self) -> LinkModel {
        LinkModel {
            filter: self.filter,
            data_mode: self.data_mode,
            is_tx: self.is_tx,
            scope: self.scope_buffer@,
            buffer: self.serial_buffer@,
            rx_poll_index: self.rx_poll_index,
            tx_poll_index: self.tx_poll_index,
            last_meter_poll_ms: self.last_meter_poll_ms,
            last_ptt_poll_ms: self.last_ptt_poll_ms,
            last_status_poll_ms: self.last_status_poll_ms,
            last_read_ms: self.last_read_ms,
        }
    }
}

/// The link state after a command: the filter, DATA and transmit states it sets.
pub open spec fn after_command(m: LinkModel, cmd: Command) -> LinkModel {
    match cmd {
        Command::SetModeAndFilter(_, fil) => LinkModel { filter: fil, ..m },
        Command::SetDataMode(v) => LinkModel { data_mode: v, ..m },
        Command::SetPTT(v) => LinkModel { is_tx: v, ..m },
        _ => m,
    }
}

/// The update a frame reports and the link state after it: frames not from
/// the radio are ignored; the others feed the watchdog, the scope sweep and
/// the transmit state.
pub open spec fn frame_effect(m: LinkModel, f: Seq<u8>, now: u64) -> (Option<RadioReport>, LinkModel) {
    if !frame_from_radio(f) {
        (None, m)
    } else if is_scope_frame(f) {
        let (r, scope) = scope_report(f, m.scope);
        (r, LinkModel { scope: scope, last_read_ms: now, ..m })
    } else {
        let is_tx = if f[4] == 0x1C && f.len() >= 7 && f[5] == 0x00 {
            f[6] == 0x01
        } else {
            m.is_tx
        };
        (state_report(f, m.data_mode), LinkModel { is_tx: is_tx, last_read_ms: now, ..m })
    }
}

/// An optional report as a sequence of zero or one reports.
pub open spec fn opt_seq(r: Option<RadioReport>) -> Seq<RadioReport> {
    match r {
        Some(r) => seq![r],
        None => seq![],
    }
}

/// Frames the receive buffer: every complete frame is taken out (with the
/// bytes before it) and applied in turn; the scan stops at the first
/// unterminated frame, whose preamble and what precedes it are dropped when
/// the buffer has grown beyond `MAX_PENDING` bytes.
pub open spec fn drain(m: LinkModel, now: u64) -> (Seq<RadioReport>, LinkModel)
    decreases m.buffer.len(),
{
    let b = m.buffer;
    match first_preamble(b, 0) {
        None => (seq![], m),
        Some(s) => match first_end(b, s) {
            None => (
                seq![],
                if b.len() > MAX_PENDING { LinkModel { buffer: b.skip(s + 1), ..m } } else { m },
            ),
            Some(e) => {
                proof {
                    lemma_first_preamble_bounds(b, 0);
                    lemma_first_end_bounds(b, s);
                }
                let (r, m1) = frame_effect(m, b.subrange(s, e + 1), now);
                let (rest, m2) = drain(LinkModel { buffer: b.skip(e + 1), ..m1 }, now);
                (opt_seq(r) + rest, m2)
            },
        },
    }
}

/// The frames a poll writes, whether the watchdog fired, and the link state
/// after it.
pub open spec fn poll_effect(m: LinkModel, now: u64) -> (Seq<Seq<u8>>, bool, LinkModel) {
    if elapsed(now, m.last_read_ms) >= WATCHDOG_MS {
        (seq![], true, m)
    } else {
        let meter_due = elapsed(now, m.last_meter_poll_ms) >= METER_POLL_MS;
        let ptt_due = elapsed(now, m.last_ptt_poll_ms) >= PTT_POLL_MS;
        let status_due = elapsed(now, m.last_status_poll_ms) >= STATUS_POLL_MS;
        if !m.is_tx {
            let f1: Seq<Seq<u8>> = if meter_due { seq![meter_poll()] } else { seq![] };
            let f2: Seq<Seq<u8>> = if ptt_due { seq![ptt_poll()] } else { seq![] };
            let f3: Seq<Seq<u8>> = if status_due {
                request_frames(rx_poll_request(m.rx_poll_index))
            } else {
                seq![]
            };
            (
                f1 + f2 + f3,
                false,
                LinkModel {
                    last_meter_poll_ms: if meter_due { now } else { m.last_meter_poll_ms },
                    last_ptt_poll_ms: if ptt_due { now } else { m.last_ptt_poll_ms },
                    last_status_poll_ms: if status_due { now } else { m.last_status_poll_ms },
                    rx_poll_index: if status_due { next_index(m.rx_poll_index, 22) } else { m.rx_poll_index },
                    ..m
                },
            )
        } else {
            let f1: Seq<Seq<u8>> = if meter_due {
                request_frames(tx_poll_request(m.tx_poll_index))
            } else {
                seq![]
            };
            let f2: Seq<Seq<u8>> = if ptt_due { seq![ptt_poll()] } else { seq![] };
            (
                f1 + f2,
                false,
                LinkModel {
                    last_meter_poll_ms: if meter_due { now } else { m.last_meter_poll_ms },
                    last_ptt_poll_ms: if ptt_due { now } else { m.last_ptt_poll_ms },
                    tx_poll_index: if meter_due { next_index(m.tx_poll_index, 4) } else { m.tx_poll_index },
                    ..m
                },
            )
        }
    }
}

/// What a poll writes.
pub struct PollPlan {
    /// Read requests to write, in order.
    pub frames: Vec<Vec<u8>>,
    /// The transceiver has been silent for `WATCHDOG_MS`: the link is lost.
    pub lost: bool,
}

/// Builds the frame of an optional request.
fn request_frame(req: Option<(u8, Option<u8>, Vec<u8>)>) -> (frames: Vec<Vec<u8>>)
    ensures
        frames_view(frames@) == request_frames(match req {
            Some((c, s, d)) => Some((c, s, d@)),
            None => None,
        }),
{
    let mut frames: Vec<Vec<u8>> = Vec::new();
    if let Some((cmd, sub, data)) = req {
        frames.push(build_civ_frame(cmd, sub, data.as_slice()));
    }
    assert(frames_view(frames@) =~= request_frames(match req {
        Some((c, s, d)) => Some((c, s, d@)),
        None => None,
    }));
    frames
}

/// The read request at `index` of the receive-time cycle.
pub fn rx_poll_frames(index: usize) -> (frames: Vec<Vec<u8>>)
    ensures
        frames_view(frames@) == request_frames(rx_poll_request(index)),
{
    let none: Vec<u8> = Vec::new();
    let req: Option<(u8, Option<u8>, Vec<u8>)> = match index {
        0 => Some((0x03, None, none)),
        1 => Some((0x04, None, none)),
        2 => Some((0x07, None, none)),
        3 => Some((0x0F, None, none)),
        4 => Some((0x14, Some(0x01), none)),
        5 => Some((0x14, Some(0x02), none)),
        6 => Some((0x14, Some(0x03), none)),
        7 => Some((0x14, Some(0x0A), none)),
        8 => Some((0x14, Some(0x0B), none)),
        9 => Some((0x14, Some(0x0E), none)),
        10 => Some((0x14, Some(0x15), none)),
        11 => Some((0x16, Some(0x02), none)),
        12 => Some((0x11, None, none)),
        13 => Some((0x16, Some(0x12), none)),
        14 => Some((0x1C, Some(0x01), none)),
        15 => Some((0x1A, Some(0x05), vec![0x00u8, 0x60u8])),
        16 => Some((0x1A, Some(0x05), vec![0x00u8, 0x65u8])),
        17 => Some((0x16, Some(0x22), none)),
        18 => Some((0x16, Some(0x40), none)),
        19 => Some((0x14, Some(0x12), none)),
        20 => Some((0x14, Some(0x06), none)),
        21 => Some((0x27, Some(0x15), none)),
        _ => None,
    };
    proof {
        assert(seq![0x00u8, 0x60u8] =~= seq![0x00u8, 0x60]);
        assert(none@ =~= Seq::<u8>::empty());
    }
    request_frame(req)
}

/// The meter read request at `index` of the transmit-time cycle.
pub fn tx_poll_frames(index: usize) -> (frames: Vec<Vec<u8>>)
    ensures
        frames_view(frames@) == request_frames(tx_poll_request(index)),
{
    let none: Vec<u8> = Vec::new();
    let req: Option<(u8, Option<u8>, Vec<u8>)> = match index {
        0 => Some((0x15, Some(0x11), none)),
        1 => Some((0x15, Some(0x12), none)),
        2 => Some((0x15, Some(0x13), none)),
        3 => Some((0x15, Some(0x14), none)),
        _ => None,
    };
    proof {
        assert(none@ =~= Seq::<u8>::empty());
    }
    request_frame(req)
}

/// Milliseconds from `since` to `now`, 0 when `now` comes first.
pub fn elapsed_ms(now: u64, since: u64) -> (ms: u64)
    ensures
        ms == elapsed(now, since),
{
    if now >= since {
        now - since
    } else {
        0
    }
}

impl RadioLink {
    /// A link opened at `now_ms`: filter 1, DATA off, receiving, nothing
    /// buffered, every clock started.
    pub fn new(now_ms: u64) -> (link: RadioLink)
        ensures
            link@ == (LinkModel {
                filter: 1,
                data_mode: false,
                is_tx: false,
                scope: seq![],
                buffer: seq![],
                rx_poll_index: 0,
                tx_poll_index: 0,
                last_meter_poll_ms: now_ms,
                last_ptt_poll_ms: now_ms,
                last_status_poll_ms: now_ms,
                last_read_ms: now_ms,
            }),
    {
        RadioLink {
            filter: 1,
            data_mode: false,
            is_tx: false,
            scope_buffer: Vec::new(),
            serial_buffer: Vec::new(),
            rx_poll_index: 0,
            tx_poll_index: 0,
            last_meter_poll_ms: now_ms,
            last_ptt_poll_ms: now_ms,
            last_status_poll_ms: now_ms,
            last_read_ms: now_ms,
        }
    }

    /// What to write for a command; records the filter, DATA and transmit
    /// states it sets.
    pub fn handle_command(&mut self, cmd: Command) -> (plan: CommandPlan)
        ensures
            frames_view(plan.frames@) == command_frames(cmd, old(self).filter),
            plan.pause_ms == command_pause(cmd),
            plan.stop == (cmd == Command::Disconnect),
            final(self)@ == after_command(old(self)@, cmd),
    {
        let frames = encode_command(cmd, self.filter);
        match cmd {
            Command::SetModeAndFilter(_, fil) => {
                self.filter = fil;
            },
            Command::SetDataMode(v) => {
                self.data_mode = v;
            },
            Command::SetPTT(v) => {
                self.is_tx = v;
            },
            _ => {},
        }
        let pause_ms: u64 = match cmd {
            Command::SetScopeOutput(_) => 20,
            Command::SetScopeSpan(_) => 25,
            _ => 0,
        };
        let stop = match cmd {
            Command::Disconnect => true,
            _ => false,
        };
        CommandPlan { frames, pause_ms, stop }
    }

    /// Applies one frame taken from the receive buffer.
    fn apply_frame(&mut self, f: &[u8], now_ms: u64) -> (update: Option<RadioUpdate>)
        requires
            old(self).serial_buffer@.len() == 0,
        ensures
            (report_of(update), final(self)@) == frame_effect(old(self)@, f@, now_ms),
    {
        if !(f.len() >= 6 && (f[2] == crate::civ::PC_ADDR || f[2] == 0x00) && f[3] == crate::civ::IC7300_ADDR) {
            return None;
        }
        self.last_read_ms = now_ms;
        if f[4] == 0x27 && f.len() >= 9 {
            decode_scope_frame(f, &mut self.scope_buffer)
        } else {
            if f[4] == 0x1C && f.len() >= 7 && f[5] == 0x00 {
                self.is_tx = f[6] == 0x01;
            }
            decode_state_frame(f, self.data_mode)
        }
    }

    /// Appends received bytes to the receive buffer and decodes every complete
    /// frame in it, in order.
    pub fn receive(&mut self, bytes: &[u8], now_ms: u64) -> (updates: Vec<RadioUpdate>)
        ensures
            ({
                let start = LinkModel { buffer: old(self)@.buffer + bytes@, ..old(self)@ };
                &&& updates@.map_values(|u: RadioUpdate| u@) == drain(start, now_ms).0
                &&& final(self)@ == drain(start, now_ms).1
            }),
    {
        let ghost start = LinkModel { buffer: self@.buffer + bytes@, ..self@ };
        let mut i: usize = 0;
        while i < bytes.len()
            invariant
                i <= bytes@.len(),
                self@ == (LinkModel { buffer: old(self)@.buffer + bytes@.take(i as int), ..old(self)@ }),
            decreases bytes@.len() - i,
        {
            self.serial_buffer.push(bytes[i]);
            i = i + 1;
            assert(self@.buffer =~= old(self)@.buffer + bytes@.take(i as int));
        }
        assert(bytes@.take(bytes@.len() as int) =~= bytes@);
        assert(self@ == start);
        let mut updates: Vec<RadioUpdate> = Vec::new();
        loop
            invariant
                start == (LinkModel { buffer: old(self)@.buffer + bytes@, ..old(self)@ }),
                drain(start, now_ms).1 == drain(self@, now_ms).1,
                drain(start, now_ms).0 == updates@.map_values(|u: RadioUpdate| u@) + drain(self@, now_ms).0,
            decreases self@.buffer.len(),
        {
            let ghost before = self@;
            let buffered: usize = self.serial_buffer.len();
            let scan = find_frame(self.serial_buffer.as_slice());
            proof {
                lemma_first_preamble_bounds(before.buffer, 0);
            }
            assert(scan == frame_scan(before.buffer));
            proof {
                lemma_first_preamble_bounds(before.buffer, 0);
                if first_preamble(before.buffer, 0) is Some {
                    lemma_first_end_bounds(before.buffer, first_preamble(before.buffer, 0)->0);
                }
            }
            match scan {
                FrameScan::NoStart => {
                    assert(drain(before, now_ms) == (Seq::<RadioReport>::empty(), before));
                    assert(updates@.map_values(|u: RadioUpdate| u@) + Seq::<RadioReport>::empty() =~= updates@.map_values(|u: RadioUpdate| u@));
                    return updates;
                },
                FrameScan::Incomplete(s) => {
                    assert(first_preamble(before.buffer, 0) == Some(s as int));
                    assert(first_end(before.buffer, s as int) is None);
                    if self.serial_buffer.len() > MAX_PENDING {
                        let rest = self.serial_buffer.split_off(s + 1);
                        self.serial_buffer = rest;
                    }
                    assert(updates@.map_values(|u: RadioUpdate| u@) + Seq::<RadioReport>::empty() =~= updates@.map_values(|u: RadioUpdate| u@));
                    assert(self@ == drain(before, now_ms).1);
                    return updates;
                },
                FrameScan::Complete(s, e) => {
                    assert(first_preamble(before.buffer, 0) == Some(s as int));
                    assert(first_end(before.buffer, s as int) == Some(e as int));
                    let mut frame = self.serial_buffer.split_off(e + 1);
                    std::mem::swap(&mut frame, &mut self.serial_buffer);
                    let ghost rest_buffer = self.serial_buffer@;
                    let mut pending: Vec<u8> = Vec::new();
                    std::mem::swap(&mut pending, &mut self.serial_buffer);
                    let frame_slice = &frame.as_slice()[s..e + 1];
                    assert(frame_slice@ =~= before.buffer.subrange(s as int, e + 1));
                    let u = self.apply_frame(frame_slice, now_ms);
                    self.serial_buffer = pending;
                    assert(self@.buffer =~= before.buffer.skip(e + 1));
                    let ghost prev = updates@.map_values(|x: RadioUpdate| x@);
                    match u {
                        Some(u) => {
                            updates.push(u);
                            assert(updates@.map_values(|x: RadioUpdate| x@) =~= prev + seq![u@]);
                        },
                        None => {},
                    }
                    assert(drain(before, now_ms).0 =~= opt_seq(report_of(u)) + drain(self@, now_ms).0);
                    assert(updates@.map_values(|x: RadioUpdate| x@) + drain(self@, now_ms).0 =~= prev + (opt_seq(report_of(u)) + drain(self@, now_ms).0));
                },
            }
        }
    }

    /// The polls due at `now_ms`, or the loss of the link when the transceiver
    /// has been silent for `WATCHDOG_MS`.
    pub fn poll(&mut self, now_ms: u64) -> (plan: PollPlan)
        ensures
            (frames_view(plan.frames@), plan.lost, final(self)@) == poll_effect(old(self)@, now_ms),
    {
        if elapsed_ms(now_ms, self.last_read_ms) >= WATCHDOG_MS {
            return PollPlan { frames: Vec::new(), lost: true };
        }
        let mut frames: Vec<Vec<u8>> = Vec::new();
        let meter_due = elapsed_ms(now_ms, self.last_meter_poll_ms) >= METER_POLL_MS;
        let ptt_due = elapsed_ms(now_ms, self.last_ptt_poll_ms) >= PTT_POLL_MS;
        let status_due = elapsed_ms(now_ms, self.last_status_poll_ms) >= STATUS_POLL_MS;
        let ghost f1: Seq<Seq<u8>>;
        if !self.is_tx {
            if meter_due {
                self.last_meter_poll_ms = now_ms;
                let data: [u8; 0] = [];
                frames.push(build_civ_frame(0x15, Some(0x02), data.as_slice()));
            }
            if ptt_due {
                self.last_ptt_poll_ms = now_ms;
                let data: [u8; 0] = [];
                frames.push(build_civ_frame(0x1C, Some(0x00), data.as_slice()));
            }
            if status_due {
                self.last_status_poll_ms = now_ms;
                let mut more = rx_poll_frames(self.rx_poll_index);
                frames.append(&mut more);
                self.rx_poll_index = if self.rx_poll_index >= 21 { 0 } else { self.rx_poll_index + 1 };
            }
        } else {
            if meter_due {
                self.last_meter_poll_ms = now_ms;
                let mut more = tx_poll_frames(self.tx_poll_index);
                frames.append(&mut more);
                self.tx_poll_index = if self.tx_poll_index >= 3 { 0 } else { self.tx_poll_index + 1 };
            }
            if ptt_due {
                self.last_ptt_poll_ms = now_ms;
                let data: [u8; 0] = [];
                frames.push(build_civ_frame(0x1C, Some(0x00), data.as_slice()));
            }
        }
        assert(frames_view(frames@) =~= poll_effect(old(self)@, now_ms).0);
        PollPlan { frames, lost: false }
    }
}

/// After the receive buffer is drained, no complete frame is left in it:
/// every frame received whole has been decoded.
pub proof fn lemma_drain_leaves_no_complete_frame(m: LinkModel, now: u64)
    ensures
        !(frame_scan(drain(m, now).1.buffer) is Complete),
    decreases m.buffer.len(),
{
    let b = m.buffer;
    lemma_first_preamble_bounds(b, 0);
    match first_preamble(b, 0) {
        None => {},
        Some(s) => {
            lemma_first_end_bounds(b, s);
            match first_end(b, s) {
                None => {
                    if b.len() > MAX_PENDING {
                        let r = b.skip(s + 1);
                        lemma_first_preamble_bounds(r, 0);
                        match first_preamble(r, 0) {
                            None => {},
                            Some(t) => {
                                lemma_first_end_bounds(r, t);
                                if first_end(r, t) is Some {
                                    let e = first_end(r, t)->0;
                                    assert(r[e] == b[s + 1 + e]);
                                }
                            },
                        }
                    }
                },
                Some(e) => {
                    let (r, m1) = frame_effect(m, b.subrange(s, e + 1), now);
                    lemma_drain_leaves_no_complete_frame(LinkModel { buffer: b.skip(e + 1), ..m1 }, now);
                },
            }
        },
    }
}

/// Polling walks the request cycles without leaving them: the receive-time
/// index stays below 22 and the transmit-time index below 4.
pub proof fn lemma_poll_indices_stay_in_cycle(m: LinkModel, now: u64)
    requires
        m.rx_poll_index < 22,
        m.tx_poll_index < 4,
    ensures
        poll_effect(m, now).2.rx_poll_index < 22,
        poll_effect(m, now).2.tx_poll_index < 4,
        poll_effect(m, now).2.buffer == m.buffer,
{
}

/// A frequency report received whole reaches the panel: draining a buffer
/// that holds the transceiver's frequency frame gives that frequency, feeds
/// the watchdog, and leaves nothing behind.
pub proof fn lemma_link_reads_frequency_reply(m: LinkModel, freq: u64, now: u64)
    requires
        freq_in_range(freq as nat),
    ensures
        drain(LinkModel { buffer: reply_frame(0x03, bcd_digits(freq as nat, 5)), ..m }, now)
            == (seq![RadioReport::Frequency(freq)], LinkModel { buffer: Seq::<u8>::empty(), last_read_ms: now, ..m }),
{
    lemma_frequency_reply_decodes(freq, m.data_mode);
    lemma_freq_bcd_roundtrip(freq);
    lemma_bcd_digits_bytes(freq as nat, 5);
    let f = reply_frame(0x03, bcd_digits(freq as nat, 5));
    let m0 = LinkModel { buffer: f, ..m };
    assert(f.len() == 11);
    assert(first_preamble(f, 0) == Some(0int));
    lemma_first_end_bounds(f, 0);
    assert forall|i: int| 0 <= i < 10 implies f[i] != 0xFD by {
        if 5 <= i {
            assert(f[i] == bcd_digits(freq as nat, 5)[i - 5]);
        }
    }
    assert(f[10] == 0xFD);
    assert(first_end(f, 0) == Some(10int));
    assert(f.subrange(0, 11) =~= f);
    assert(f.skip(11) =~= Seq::<u8>::empty());
    let (r, m1) = frame_effect(m0, f, now);
    assert(r == Some(RadioReport::Frequency(freq)));
    let m2 = LinkModel { buffer: f.skip(11), ..m1 };
    assert(first_preamble(m2.buffer, 0) is None);
    assert(drain(m2, now) == (Seq::<RadioReport>::empty(), m2));
    assert(opt_seq(r) + Seq::<RadioReport>::empty() =~= seq![RadioReport::Frequency(freq)]);
}

} // verus!
