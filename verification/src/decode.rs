//! Decoding of the frames the transceiver sends to the computer.

use vstd::prelude::*;
use crate::bcd::{
    bcd_be_value, bcd_digits, bcd_to_freq, bcd_to_span_val, bcd_to_u8, bcd_value, clamp_u8, lemma_freq_bcd_roundtrip,
    lemma_level_bcd_roundtrip, level_bcd, span_value,
};
use crate::civ::{
    answer_to, civ_frame, confirming_report, lemma_mode_code_roundtrip, mode_code, mode_from_code, reply_frame, Command,
    RadioMode, RadioReport, RadioUpdate, IC7300_ADDR, PC_ADDR,
};
use crate::link::{command_frames, flag_byte};
use crate::proxy::mode_reply_data;

verus! {

/// A frame addressed by the transceiver to the computer (or broadcast to all)
/// that holds at least a command byte and one more byte.
pub open spec fn frame_from_radio(f: Seq<u8>) -> bool {
    f.len() >= 6 && (f[2] == PC_ADDR || f[2] == 0x00) && f[3] == IC7300_ADDR
}

/// The level carried by a frame from byte `from` up to the end-of-message byte.
pub open spec fn level_at(f: Seq<u8>, from: int) -> u8 {
    clamp_u8(bcd_be_value(f.subrange(from, f.len() - 1)))
}

/// The lowest and highest frequencies, in Hz, the panel accepts from the radio.
pub open spec fn freq_in_range(freq: nat) -> bool {
    30_000 <= freq <= 74_800_000
}

/// The update reported by a level frame (command 14) for a sub-command.
pub open spec fn level_report(sub: u8, val: u8) -> Option<RadioReport> {
    if sub == 0x01 {
        Some(RadioReport::AfGain(val))
    } else if sub == 0x02 {
        Some(RadioReport::RfGain(val))
    } else if sub == 0x03 {
        Some(RadioReport::Squelch(val))
    } else if sub == 0x06 {
        Some(RadioReport::NoiseReductionLevel(val))
    } else if sub == 0x0A {
        Some(RadioReport::RfPower(val))
    } else if sub == 0x0B {
        Some(RadioReport::MicGain(val))
    } else if sub == 0x0E {
        Some(RadioReport::CompLevel(val))
    } else if sub == 0x12 {
        Some(RadioReport::NoiseBlankerLevel(val))
    } else if sub == 0x15 {
        Some(RadioReport::MonitorLevel(val))
    } else {
        None
    }
}

/// The update reported by a function frame (command 16) for a sub-command.
pub open spec fn function_report(sub: u8, val: u8) -> Option<RadioReport> {
    if sub == 0x02 {
        Some(RadioReport::Preamp(val))
    } else if sub == 0x12 {
        Some(RadioReport::Agc(val))
    } else if sub == 0x22 {
        Some(RadioReport::NoiseBlanker(val == 0x01))
    } else if sub == 0x40 {
        Some(RadioReport::NoiseReduction(val == 0x01))
    } else {
        None
    }
}

/// The update a frame from the radio reports, for every command but the
/// spectrum scope (27); `data_mode` is the DATA state last commanded, used when
/// a mode frame carries no DATA byte.
pub open spec fn state_report(f: Seq<u8>, data_mode: bool) -> Option<RadioReport> {
    let cmd = f[4];
    let len = f.len();
    if (cmd == 0x03 || cmd == 0x00) && len >= 11 {
        let freq = bcd_value(f.subrange(5, 10));
        if freq_in_range(freq) {
            Some(RadioReport::Frequency(freq as u64))
        } else {
            None
        }
    } else if (cmd == 0x04 || cmd == 0x01) && len >= 8 {
        let is_data = if len >= 9 { f[6] == 0x01 } else { data_mode };
        let filter = if len >= 9 { f[7] } else { f[6] };
        match mode_from_code(f[5]) {
            Some(m) => Some(RadioReport::ModeAndFilter(m, filter, is_data)),
            None => None,
        }
    } else if cmd == 0x07 && len >= 7 {
        if f[5] == 0x00 {
            Some(RadioReport::ActiveVfo(0))
        } else if f[5] == 0x01 {
            Some(RadioReport::ActiveVfo(1))
        } else {
            None
        }
    } else if cmd == 0x0F && len >= 7 {
        Some(RadioReport::SplitState(f[5] == 0x01))
    } else if cmd == 0x15 && len >= 8 {
        Some(RadioReport::Meter(f[5], level_at(f, 6)))
    } else if cmd == 0x11 && len >= 7 {
        Some(RadioReport::Attenuator(f[5] == 0x20))
    } else if cmd == 0x14 && len >= 8 {
        level_report(f[5], level_at(f, 6))
    } else if cmd == 0x16 && len >= 7 {
        function_report(f[5], f[6])
    } else if cmd == 0x1A && len >= 11 {
        if f[5] == 0x05 && f[6] == 0x00 && f[7] == 0x60 {
            Some(RadioReport::UsbRxLevel(level_at(f, 8)))
        } else if f[5] == 0x05 && f[6] == 0x00 && f[7] == 0x65 {
            Some(RadioReport::UsbTxLevel(level_at(f, 8)))
        } else {
            None
        }
    } else if cmd == 0x1C && len >= 7 {
        if f[5] == 0x00 {
            Some(RadioReport::PTTState(f[6] == 0x01))
        } else if f[5] == 0x01 {
            Some(RadioReport::Tuner(f[6] == 0x01))
        } else {
            None
        }
    } else {
        None
    }
}

/// A spectrum scope frame (command 27) long enough to be read.
pub open spec fn is_scope_frame(f: Seq<u8>) -> bool {
    f[4] == 0x27 && f.len() >= 9
}

/// The update a spectrum scope frame reports, and the sweep accumulated so far
/// after it: the first packet of a sweep (27 00, order 01) restarts the sweep
/// and may carry the span; packets 02 to 11 append their data; packet 11 ends
/// the sweep and reports it; a span answer (27 15) reports the span.
pub open spec fn scope_report(f: Seq<u8>, scope: Seq<u8>) -> (Option<RadioReport>, Seq<u8>) {
    if f[5] == 0x00 {
        if f[7] == 0x01 {
            let report = if f.len() >= 22 && (f[9] == 0x00 || f[9] == 0x02) && span_value(
                f.subrange(15, 20),
            ) > 0 {
                Some(RadioReport::ScopeSpan(span_value(f.subrange(15, 20))))
            } else {
                None
            };
            (report, seq![])
        } else if 0x02 <= f[7] <= 0x11 {
            let acc = if f.len() >= 10 { scope + f.subrange(9, f.len() - 1) } else { scope };
            let report = if f[7] == 0x11 && acc.len() > 0 {
                Some(RadioReport::ScopeSweep(acc))
            } else {
                None
            };
            (report, acc)
        } else {
            (None, scope)
        }
    } else if f[5] == 0x15 && f.len() >= 13 {
        let span = span_value(f.subrange(6, 12));
        (if span > 0 { Some(RadioReport::ScopeSpan(span)) } else { None }, scope)
    } else {
        (None, scope)
    }
}

/// The value of an optional update.
pub open spec fn report_of(u: Option<RadioUpdate>) -> Option<RadioReport> {
    match u {
        Some(u) => Some(u@),
        None => None,
    }
}

/// The level carried by a frame from byte `from` up to its end-of-message byte.
fn level_from(f: &[u8], from: usize) -> (val: u8)
    requires
        from < f@.len(),
    ensures
        val == level_at(f@, from as int),
{
    bcd_to_u8(&f[from..f.len() - 1])
}

/// Decodes a frame from the radio, for every command but the spectrum scope.
pub fn decode_state_frame(f: &[u8], data_mode: bool) -> (update: Option<RadioUpdate>)
    requires
        f@.len() >= 6,
    ensures
        report_of(update) == state_report(f@, data_mode),
{
    let cmd = f[4];
    let len = f.len();
    if (cmd == 0x03 || cmd == 0x00) && len >= 11 {
        let freq = bcd_to_freq(&f[5..10]);
        assert(f@.subrange(5, 10).subrange(0, 5) =~= f@.subrange(5, 10));
        if freq >= 30_000 && freq <= 74_800_000 {
            Some(RadioUpdate::Frequency(freq))
        } else {
            None
        }
    } else if (cmd == 0x04 || cmd == 0x01) && len >= 8 {
        let (is_data, filter) = if len >= 9 {
            (f[6] == 0x01, f[7])
        } else {
            (data_mode, f[6])
        };
        match RadioMode::from_code(f[5]) {
            Some(m) => Some(RadioUpdate::ModeAndFilter(m, filter, is_data)),
            None => None,
        }
    } else if cmd == 0x07 && len >= 7 {
        if f[5] == 0x00 {
            Some(RadioUpdate::ActiveVfo(0))
        } else if f[5] == 0x01 {
            Some(RadioUpdate::ActiveVfo(1))
        } else {
            None
        }
    } else if cmd == 0x0F && len >= 7 {
        Some(RadioUpdate::SplitState(f[5] == 0x01))
    } else if cmd == 0x15 && len >= 8 {
        Some(RadioUpdate::Meter(f[5], level_from(f, 6)))
    } else if cmd == 0x11 && len >= 7 {
        Some(RadioUpdate::Attenuator(f[5] == 0x20))
    } else if cmd == 0x14 && len >= 8 {
        let val = level_from(f, 6);
        match f[5] {
            0x01 => Some(RadioUpdate::AfGain(val)),
            0x02 => Some(RadioUpdate::RfGain(val)),
            0x03 => Some(RadioUpdate::Squelch(val)),
            0x06 => Some(RadioUpdate::NoiseReductionLevel(val)),
            0x0A => Some(RadioUpdate::RfPower(val)),
            0x0B => Some(RadioUpdate::MicGain(val)),
            0x0E => Some(RadioUpdate::CompLevel(val)),
            0x12 => Some(RadioUpdate::NoiseBlankerLevel(val)),
            0x15 => Some(RadioUpdate::MonitorLevel(val)),
            _ => None,
        }
    } else if cmd == 0x16 && len >= 7 {
        let val = f[6];
        match f[5] {
            0x02 => Some(RadioUpdate::Preamp(val)),
            0x12 => Some(RadioUpdate::Agc(val)),
            0x22 => Some(RadioUpdate::NoiseBlanker(val == 0x01)),
            0x40 => Some(RadioUpdate::NoiseReduction(val == 0x01)),
            _ => None,
        }
    } else if cmd == 0x1A && len >= 11 {
        if f[5] == 0x05 && f[6] == 0x00 {
            let val = level_from(f, 8);
            if f[7] == 0x60 {
                Some(RadioUpdate::UsbRxLevel(val))
            } else if f[7] == 0x65 {
                Some(RadioUpdate::UsbTxLevel(val))
            } else {
                None
            }
        } else {
            None
        }
    } else if cmd == 0x1C && len >= 7 {
        if f[5] == 0x00 {
            Some(RadioUpdate::PTTState(f[6] == 0x01))
        } else if f[5] == 0x01 {
            Some(RadioUpdate::Tuner(f[6] == 0x01))
        } else {
            None
        }
    } else {
        None
    }
}

/// Decodes a spectrum scope frame, accumulating sweep data in `scope`.
pub fn decode_scope_frame(f: &[u8], scope: &mut Vec<u8>) -> (update: Option<RadioUpdate>)
    requires
        is_scope_frame(f@),
    ensures
        (report_of(update), final(scope)@) == scope_report(f@, old(scope)@),
{
    let len = f.len();
    if f[5] == 0x00 {
        let order = f[7];
        if order == 0x01 {
            scope.clear();
            if len >= 22 && (f[9] == 0x00 || f[9] == 0x02) {
                let span = bcd_to_span_val(&f[15..20]);
                if span > 0 {
                    return Some(RadioUpdate::ScopeSpan(span));
                }
            }
            None
        } else if order >= 0x02 && order <= 0x11 {
            if len >= 10 {
                let ghost before = scope@;
                let mut i: usize = 9;
                while i < len - 1
                    invariant
                        9 <= i <= len - 1,
                        len == f@.len(),
                        scope@ == before + f@.subrange(9, i as int),
                    decreases len - 1 - i,
                {
                    scope.push(f[i]);
                    i = i + 1;
                    assert(scope@ =~= before + f@.subrange(9, i as int));
                }
            }
            if order == 0x11 && scope.len() > 0 {
                Some(RadioUpdate::ScopeSweep(scope.clone()))
            } else {
                None
            }
        } else {
            None
        }
    } else if f[5] == 0x15 && len >= 13 {
        let span = bcd_to_span_val(&f[6..12]);
        if span > 0 {
            Some(RadioUpdate::ScopeSpan(span))
        } else {
            None
        }
    } else {
        None
    }
}

/// The transceiver's answer to a frequency read, for a frequency the panel
/// accepts, decodes to that frequency.
pub proof fn lemma_frequency_reply_decodes(freq: u64, data_mode: bool)
    requires
        freq_in_range(freq as nat),
    ensures
        frame_from_radio(reply_frame(0x03, bcd_digits(freq as nat, 5))),
        state_report(reply_frame(0x03, bcd_digits(freq as nat, 5)), data_mode) == Some(RadioReport::Frequency(freq)),
{
    lemma_freq_bcd_roundtrip(freq);
    let f = reply_frame(0x03, bcd_digits(freq as nat, 5));
    assert(f.len() == 11);
    assert(f.subrange(5, 10) =~= bcd_digits(freq as nat, 5));
}

/// The transceiver's answer to a mode read decodes to its mode and filter;
/// without the DATA byte the DATA state last commanded stands. With the DATA
/// byte the answer puts the filter before it while the decoder reads the DATA
/// byte first, so the two agree only for filter 1.
pub proof fn lemma_mode_reply_decodes(mode: RadioMode, filter: u8, data: bool, data_mode: bool)
    requires
        !data || filter == 0x01,
    ensures
        frame_from_radio(reply_frame(0x04, mode_reply_data(mode, filter, data))),
        state_report(reply_frame(0x04, mode_reply_data(mode, filter, data)), data_mode)
            == Some(RadioReport::ModeAndFilter(mode, filter, if data { true } else { data_mode })),
{
    lemma_mode_code_roundtrip(mode);
    let f = reply_frame(0x04, mode_reply_data(mode, filter, data));
    if data {
        assert(f =~= seq![0xFEu8, 0xFE, PC_ADDR, IC7300_ADDR, 0x04, mode_code(mode), filter, 0x01, 0xFD]);
    } else {
        assert(f =~= seq![0xFEu8, 0xFE, PC_ADDR, IC7300_ADDR, 0x04, mode_code(mode), filter, 0xFD]);
    }
}

/// The transceiver's answer to a level read, carrying the level the panel
/// set in the form the panel writes it, decodes to that level: what the
/// panel writes, it reads back.
pub proof fn lemma_level_reply_decodes(sub: u8, level: u8, data_mode: bool)
    ensures
        frame_from_radio(reply_frame(0x14, seq![sub] + level_bcd(level))),
        state_report(reply_frame(0x14, seq![sub] + level_bcd(level)), data_mode) == level_report(sub, level),
        state_report(reply_frame(0x1A, seq![0x05u8, 0x00, 0x60] + level_bcd(level)), data_mode)
            == Some(RadioReport::UsbRxLevel(level)),
        state_report(reply_frame(0x1A, seq![0x05u8, 0x00, 0x65] + level_bcd(level)), data_mode)
            == Some(RadioReport::UsbTxLevel(level)),
{
    lemma_level_bcd_roundtrip(level);
    let f = reply_frame(0x14, seq![sub] + level_bcd(level));
    assert(f.len() == 9);
    assert(f.subrange(6, 8) =~= level_bcd(level));
    let u = reply_frame(0x1A, seq![0x05u8, 0x00, 0x60] + level_bcd(level));
    assert(u.len() == 11);
    assert(u.subrange(8, 10) =~= level_bcd(level));
    let t = reply_frame(0x1A, seq![0x05u8, 0x00, 0x65] + level_bcd(level));
    assert(t.subrange(8, 10) =~= level_bcd(level));
}

/// The answer to a level order: the order's command and sub-command, then
/// the level in the form the order wrote it.
proof fn lemma_level_answer(sub: u8, v: u8, data_mode: bool)
    ensures
        answer_to(civ_frame(0x14, Some(sub), level_bcd(v))) == reply_frame(0x14, seq![sub] + level_bcd(v)),
        frame_from_radio(answer_to(civ_frame(0x14, Some(sub), level_bcd(v)))),
        state_report(answer_to(civ_frame(0x14, Some(sub), level_bcd(v))), data_mode) == level_report(sub, v),
{
    let f = civ_frame(0x14, Some(sub), level_bcd(v));
    assert(f.len() == 9);
    assert(f.subrange(5, 8) =~= seq![sub] + level_bcd(v));
    lemma_level_reply_decodes(sub, v, data_mode);
}

/// Whatever setting the panel orders, the transceiver's statement of that
/// setting, laid out as the order was, decodes to the report of that same
/// setting with the value ordered: RF power (14 0A) comes back as RF power,
/// microphone gain (14 0B) as microphone gain, split on (0F 01) as split on,
/// and so on for every setting the transceiver reports.
pub proof fn lemma_answers_decode_to_their_setting(cmd: Command, filter: u8, data_mode: bool)
    requires
        confirming_report(cmd) is Some,
    ensures
        frame_from_radio(answer_to(command_frames(cmd, filter)[0])),
        state_report(answer_to(command_frames(cmd, filter)[0]), data_mode) == confirming_report(cmd),
{
    let f = command_frames(cmd, filter)[0];
    match cmd {
        Command::SetAfGain(v) => lemma_level_answer(0x01, v, data_mode),
        Command::SetRfGain(v) => lemma_level_answer(0x02, v, data_mode),
        Command::SetSquelch(v) => lemma_level_answer(0x03, v, data_mode),
        Command::SetRfPower(v) => lemma_level_answer(0x0A, v, data_mode),
        Command::SetMicGain(v) => lemma_level_answer(0x0B, v, data_mode),
        Command::SetCompLevel(v) => lemma_level_answer(0x0E, v, data_mode),
        Command::SetMonitorLevel(v) => lemma_level_answer(0x15, v, data_mode),
        Command::SetNoiseBlankerLevel(v) => lemma_level_answer(0x12, v, data_mode),
        Command::SetNoiseReductionLevel(v) => lemma_level_answer(0x06, v, data_mode),
        Command::SetUsbRxLevel(v) => {
            assert(answer_to(f) =~= reply_frame(0x1A, seq![0x05u8, 0x00, 0x60] + level_bcd(v)));
            lemma_level_reply_decodes(0x05, v, data_mode);
        },
        Command::SetUsbTxLevel(v) => {
            assert(answer_to(f) =~= reply_frame(0x1A, seq![0x05u8, 0x00, 0x65] + level_bcd(v)));
            lemma_level_reply_decodes(0x05, v, data_mode);
        },
        Command::SetPTT(v) => {
            assert(answer_to(f) =~= seq![0xFEu8, 0xFE, PC_ADDR, IC7300_ADDR, 0x1C, 0x00, flag_byte(v), 0xFD]);
        },
        Command::SetTuner(v) => {
            assert(answer_to(f) =~= seq![0xFEu8, 0xFE, PC_ADDR, IC7300_ADDR, 0x1C, 0x01, flag_byte(v), 0xFD]);
        },
        Command::SetVfo(v) => {
            assert(answer_to(f) =~= seq![0xFEu8, 0xFE, PC_ADDR, IC7300_ADDR, 0x07, if v == 0 { 0x00u8 } else { 0x01u8 }, 0xFD]);
        },
        Command::SetSplit(v) => {
            assert(answer_to(f) =~= seq![0xFEu8, 0xFE, PC_ADDR, IC7300_ADDR, 0x0F, flag_byte(v), 0xFD]);
        },
        Command::SetPreamp(v) => {
            assert(answer_to(f) =~= seq![0xFEu8, 0xFE, PC_ADDR, IC7300_ADDR, 0x16, 0x02, v, 0xFD]);
        },
        Command::SetAgc(v) => {
            assert(answer_to(f) =~= seq![0xFEu8, 0xFE, PC_ADDR, IC7300_ADDR, 0x16, 0x12, v, 0xFD]);
        },
        Command::SetNoiseBlanker(v) => {
            assert(answer_to(f) =~= seq![0xFEu8, 0xFE, PC_ADDR, IC7300_ADDR, 0x16, 0x22, flag_byte(v), 0xFD]);
        },
        Command::SetNoiseReduction(v) => {
            assert(answer_to(f) =~= seq![0xFEu8, 0xFE, PC_ADDR, IC7300_ADDR, 0x16, 0x40, flag_byte(v), 0xFD]);
        },
        Command::SetAttenuator(v) => {
            assert(answer_to(f) =~= seq![0xFEu8, 0xFE, PC_ADDR, IC7300_ADDR, 0x11, if v { 0x20u8 } else { 0x00u8 }, 0xFD]);
        },
        _ => {},
    }
}

} // verus!
