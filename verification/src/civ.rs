//! CI-V frames exchanged with the IC-7300: addresses, modes, the commands the
//! panel sends and the updates it receives, and the frame encoder.

use vstd::prelude::*;

verus! {

/// CI-V address of the IC-7300.
pub const IC7300_ADDR: u8 = 0x94;

/// CI-V address of the controlling computer.
pub const PC_ADDR: u8 = 0xE0;

/// Operating modes of the transceiver.
#[derive(Clone, Copy, PartialEq, Eq, Debug, Structural)]
pub enum RadioMode {
    Lsb,
    Usb,
    Am,
    Cw,
    Fm,
}

/// The CI-V byte of an operating mode.
pub open spec fn mode_code(mode: RadioMode) -> u8 {
    match mode {
        RadioMode::Lsb => 0x00,
        RadioMode::Usb => 0x01,
        RadioMode::Am => 0x02,
        RadioMode::Cw => 0x03,
        RadioMode::Fm => 0x05,
    }
}

/// The operating mode a CI-V mode byte names, if any.
pub open spec fn mode_from_code(code: u8) -> Option<RadioMode> {
    if code == 0x00 {
        Some(RadioMode::Lsb)
    } else if code == 0x01 {
        Some(RadioMode::Usb)
    } else if code == 0x02 {
        Some(RadioMode::Am)
    } else if code == 0x03 {
        Some(RadioMode::Cw)
    } else if code == 0x05 {
        Some(RadioMode::Fm)
    } else {
        None
    }
}

impl RadioMode {
    /// The CI-V byte of this mode.
    pub fn code(self) -> (code: u8)
        ensures
            code == mode_code(self),
    {
        match self {
            RadioMode::Lsb => 0x00,
            RadioMode::Usb => 0x01,
            RadioMode::Am => 0x02,
            RadioMode::Cw => 0x03,
            RadioMode::Fm => 0x05,
        }
    }

    /// The mode a CI-V mode byte names, if any.
    pub fn from_code(code: u8) -> (mode: Option<RadioMode>)
        ensures
            mode == mode_from_code(code),
    {
        match code {
            0x00 => Some(RadioMode::Lsb),
            0x01 => Some(RadioMode::Usb),
            0x02 => Some(RadioMode::Am),
            0x03 => Some(RadioMode::Cw),
            0x05 => Some(RadioMode::Fm),
            _ => None,
        }
    }
}

/// Every mode byte names back its mode.
pub proof fn lemma_mode_code_roundtrip(mode: RadioMode)
    ensures
        mode_from_code(mode_code(mode)) == Some(mode),
{
}

/// State reported by the transceiver.
#[derive(Clone, Debug)]
pub enum RadioUpdate {
    Frequency(u64),
    ModeAndFilter(RadioMode, u8, bool),
    ActiveVfo(u8),
    SplitState(bool),
    Meter(u8, u8),
    PTTState(bool),
    AfGain(u8),
    RfGain(u8),
    Squelch(u8),
    RfPower(u8),
    MicGain(u8),
    CompLevel(u8),
    MonitorLevel(u8),
    Preamp(u8),
    Attenuator(bool),
    Agc(u8),
    Tuner(bool),
    NoiseBlanker(bool),
    NoiseReduction(bool),
    NoiseBlankerLevel(u8),
    NoiseReductionLevel(u8),
    ScopeSweep(Vec<u8>),
    ScopeSpan(u32),
    UsbRxLevel(u8),
    UsbTxLevel(u8),
    Disconnected(String),
}

/// The value of a `RadioUpdate`: the same variants, with the spectrum sweep and
/// the disconnection message taken by their contents.
pub enum RadioReport {
    Frequency(u64),
    ModeAndFilter(RadioMode, u8, bool),
    ActiveVfo(u8),
    SplitState(bool),
    Meter(u8, u8),
    PTTState(bool),
    AfGain(u8),
    RfGain(u8),
    Squelch(u8),
    RfPower(u8),
    MicGain(u8),
    CompLevel(u8),
    MonitorLevel(u8),
    Preamp(u8),
    Attenuator(bool),
    Agc(u8),
    Tuner(bool),
    NoiseBlanker(bool),
    NoiseReduction(bool),
    NoiseBlankerLevel(u8),
    NoiseReductionLevel(u8),
    ScopeSweep(Seq<u8>),
    ScopeSpan(u32),
    UsbRxLevel(u8),
    UsbTxLevel(u8),
    Disconnected(Seq<char>),
}

impl View for RadioUpdate {
    type V = RadioReport;

    open spec fn view(&self) -> RadioReport {
        match self {
            RadioUpdate::Frequency(f) => RadioReport::Frequency(*f),
            RadioUpdate::ModeAndFilter(m, f, d) => RadioReport::ModeAndFilter(*m, *f, *d),
            RadioUpdate::ActiveVfo(v) => RadioReport::ActiveVfo(*v),
            RadioUpdate::SplitState(v) => RadioReport::SplitState(*v),
            RadioUpdate::Meter(s, v) => RadioReport::Meter(*s, *v),
            RadioUpdate::PTTState(v) => RadioReport::PTTState(*v),
            RadioUpdate::AfGain(v) => RadioReport::AfGain(*v),
            RadioUpdate::RfGain(v) => RadioReport::RfGain(*v),
            RadioUpdate::Squelch(v) => RadioReport::Squelch(*v),
            RadioUpdate::RfPower(v) => RadioReport::RfPower(*v),
            RadioUpdate::MicGain(v) => RadioReport::MicGain(*v),
            RadioUpdate::CompLevel(v) => RadioReport::CompLevel(*v),
            RadioUpdate::MonitorLevel(v) => RadioReport::MonitorLevel(*v),
            RadioUpdate::Preamp(v) => RadioReport::Preamp(*v),
            RadioUpdate::Attenuator(v) => RadioReport::Attenuator(*v),
            RadioUpdate::Agc(v) => RadioReport::Agc(*v),
            RadioUpdate::Tuner(v) => RadioReport::Tuner(*v),
            RadioUpdate::NoiseBlanker(v) => RadioReport::NoiseBlanker(*v),
            RadioUpdate::NoiseReduction(v) => RadioReport::NoiseReduction(*v),
            RadioUpdate::NoiseBlankerLevel(v) => RadioReport::NoiseBlankerLevel(*v),
            RadioUpdate::NoiseReductionLevel(v) => RadioReport::NoiseReductionLevel(*v),
            RadioUpdate::ScopeSweep(v) => RadioReport::ScopeSweep(v@),
            RadioUpdate::ScopeSpan(v) => RadioReport::ScopeSpan(*v),
            RadioUpdate::UsbRxLevel(v) => RadioReport::UsbRxLevel(*v),
            RadioUpdate::UsbTxLevel(v) => RadioReport::UsbTxLevel(*v),
            RadioUpdate::Disconnected(m) => RadioReport::Disconnected(m@),
        }
    }
}

/// Orders the panel sends to the transceiver.
#[derive(Clone, Copy, PartialEq, Eq, Debug, Structural)]
pub enum Command {
    SetFrequency(u64),
    SetModeAndFilter(RadioMode, u8),
    SetDataMode(bool),
    SetPTT(bool),
    SetVfo(u8),
    SwapVfo,
    EqualizeVfo,
    SetSplit(bool),
    SetAfGain(u8),
    SetRfGain(u8),
    SetSquelch(u8),
    SetMicGain(u8),
    SetRfPower(u8),
    SetCompLevel(u8),
    SetMonitorLevel(u8),
    SetPreamp(u8),
    SetAttenuator(bool),
    SetAgc(u8),
    SetTuner(bool),
    SetNoiseBlanker(bool),
    SetNoiseReduction(bool),
    SetNoiseBlankerLevel(u8),
    SetNoiseReductionLevel(u8),
    SetScopeOutput(bool),
    SetScopeSpan(u32),
    SetPower(bool),
    SetUsbRxLevel(u8),
    SetUsbTxLevel(u8),
    Disconnect,
}

/// The optional sub-command byte of a frame, as a sequence.
pub open spec fn sub_bytes(sub: Option<u8>) -> Seq<u8> {
    match sub {
        Some(s) => seq![s],
        None => seq![],
    }
}

/// A frame from the computer to the transceiver: preamble, addresses, command,
/// optional sub-command, data, end-of-message byte.
pub open spec fn civ_frame(cmd: u8, sub: Option<u8>, data: Seq<u8>) -> Seq<u8> {
    seq![0xFEu8, 0xFE, IC7300_ADDR, PC_ADDR, cmd] + sub_bytes(sub) + data + seq![0xFDu8]
}

/// A frame from the transceiver to the computer: preamble, addresses,
/// command, data, end-of-message byte.
pub open spec fn reply_frame(cmd: u8, data: Seq<u8>) -> Seq<u8> {
    seq![0xFEu8, 0xFE, PC_ADDR, IC7300_ADDR, cmd] + data + seq![0xFDu8]
}

/// The frame in which the transceiver states a setting that an order frame
/// set: the order's command, sub-command and data, addressed back to the
/// computer (the CI-V answer to a read repeats the layout of the setting).
pub open spec fn answer_to(order: Seq<u8>) -> Seq<u8> {
    reply_frame(order[4], order.subrange(5, order.len() - 1))
}

/// The report by which the transceiver states the setting a command sets,
/// for the commands whose setting it reports back: each setting is reported
/// under its own name, with the value the command carried.
pub open spec fn confirming_report(cmd: Command) -> Option<RadioReport> {
    match cmd {
        Command::SetPTT(v) => Some(RadioReport::PTTState(v)),
        Command::SetVfo(v) => Some(RadioReport::ActiveVfo(if v == 0 { 0u8 } else { 1u8 })),
        Command::SetSplit(v) => Some(RadioReport::SplitState(v)),
        Command::SetAfGain(v) => Some(RadioReport::AfGain(v)),
        Command::SetRfGain(v) => Some(RadioReport::RfGain(v)),
        Command::SetSquelch(v) => Some(RadioReport::Squelch(v)),
        Command::SetMicGain(v) => Some(RadioReport::MicGain(v)),
        Command::SetRfPower(v) => Some(RadioReport::RfPower(v)),
        Command::SetCompLevel(v) => Some(RadioReport::CompLevel(v)),
        Command::SetMonitorLevel(v) => Some(RadioReport::MonitorLevel(v)),
        Command::SetPreamp(v) => Some(RadioReport::Preamp(v)),
        Command::SetAttenuator(v) => Some(RadioReport::Attenuator(v)),
        Command::SetAgc(v) => Some(RadioReport::Agc(v)),
        Command::SetTuner(v) => Some(RadioReport::Tuner(v)),
        Command::SetNoiseBlanker(v) => Some(RadioReport::NoiseBlanker(v)),
        Command::SetNoiseReduction(v) => Some(RadioReport::NoiseReduction(v)),
        Command::SetNoiseBlankerLevel(v) => Some(RadioReport::NoiseBlankerLevel(v)),
        Command::SetNoiseReductionLevel(v) => Some(RadioReport::NoiseReductionLevel(v)),
        Command::SetUsbRxLevel(v) => Some(RadioReport::UsbRxLevel(v)),
        Command::SetUsbTxLevel(v) => Some(RadioReport::UsbTxLevel(v)),
        _ => None,
    }
}

/// Appends `data` to `out`.
pub fn push_all(out: &mut Vec<u8>, data: &[u8])
    ensures
        final(out)@ == old(out)@ + data@,
{
    let mut i: usize = 0;
    while i < data.len()
        invariant
            i <= data@.len(),
            out@ == old(out)@ + data@.take(i as int),
        decreases data@.len() - i,
    {
        out.push(data[i]);
        i = i + 1;
        assert(out@ =~= old(out)@ + data@.take(i as int));
    }
    assert(data@.take(data@.len() as int) =~= data@);
}

/// Builds a frame from the computer to the transceiver.
pub fn build_civ_frame(cmd: u8, subcmd: Option<u8>, data: &[u8]) -> (frame: Vec<u8>)
    ensures
        frame@ == civ_frame(cmd, subcmd, data@),
{
    let mut frame: Vec<u8> = Vec::new();
    frame.push(0xFE);
    frame.push(0xFE);
    frame.push(IC7300_ADDR);
    frame.push(PC_ADDR);
    frame.push(cmd);
    if let Some(sc) = subcmd {
        frame.push(sc);
    }
    push_all(&mut frame, data);
    frame.push(0xFD);
    assert(frame@ =~= civ_frame(cmd, subcmd, data@));
    frame
}

/// Where the next frame stands in a receive buffer.
#[derive(Clone, Copy, PartialEq, Eq, Debug, Structural)]
pub enum FrameScan {
    /// No FE FE preamble in the buffer.
    NoStart,
    /// A preamble at this index, with no end-of-message byte after it yet.
    Incomplete(usize),
    /// A frame from the preamble at the first index to the end-of-message byte
    /// at the second, both included.
    Complete(usize, usize),
}

/// The first index at or after `from` where two FE bytes start.
pub open spec fn first_preamble(buf: Seq<u8>, from: int) -> Option<int>
    decreases buf.len() - from,
{
    if from < 0 || from + 1 >= buf.len() {
        None
    } else if buf[from] == 0xFE && buf[from + 1] == 0xFE {
        Some(from)
    } else {
        first_preamble(buf, from + 1)
    }
}

/// The first index at or after `from` holding the end-of-message byte FD.
pub open spec fn first_end(buf: Seq<u8>, from: int) -> Option<int>
    decreases buf.len() - from,
{
    if from < 0 || from >= buf.len() {
        None
    } else if buf[from] == 0xFD {
        Some(from)
    } else {
        first_end(buf, from + 1)
    }
}

/// Where the next frame stands in `buf`: the first preamble, and the first
/// end-of-message byte after it.
pub open spec fn frame_scan(buf: Seq<u8>) -> FrameScan {
    match first_preamble(buf, 0) {
        None => FrameScan::NoStart,
        Some(s) => match first_end(buf, s) {
            None => FrameScan::Incomplete(s as usize),
            Some(e) => FrameScan::Complete(s as usize, e as usize),
        },
    }
}

/// A preamble found from `from` lies in the buffer, at or after `from`.
pub proof fn lemma_first_preamble_bounds(buf: Seq<u8>, from: int)
    ensures
        first_preamble(buf, from) matches Some(s) ==> from <= s && s + 1 < buf.len() && buf[s]
            == 0xFE && buf[s + 1] == 0xFE,
        first_preamble(buf, from) is None && from >= 0 ==> forall|i: int|
            from <= i && i + 1 < buf.len() ==> !(#[trigger] buf[i] == 0xFE && buf[i + 1] == 0xFE),
        first_preamble(buf, from) matches Some(s) ==> forall|i: int|
            from <= i < s ==> !(#[trigger] buf[i] == 0xFE && buf[i + 1] == 0xFE),
    decreases buf.len() - from,
{
    if from >= 0 && from + 1 < buf.len() {
        lemma_first_preamble_bounds(buf, from + 1);
    }
}

/// An end-of-message byte found from `from` lies in the buffer, at or after
/// `from`, and is the first one there.
pub proof fn lemma_first_end_bounds(buf: Seq<u8>, from: int)
    ensures
        first_end(buf, from) matches Some(e) ==> from <= e < buf.len() && buf[e] == 0xFD,
        first_end(buf, from) matches Some(e) ==> forall|i: int| from <= i < e ==> buf[i] != 0xFD,
        first_end(buf, from) is None && from >= 0 ==> forall|i: int| from <= i < buf.len() ==> buf[i] != 0xFD,
    decreases buf.len() - from,
{
    if from >= 0 && from < buf.len() {
        lemma_first_end_bounds(buf, from + 1);
    }
}

/// Finds the next frame in a receive buffer.
pub fn find_frame(buf: &[u8]) -> (scan: FrameScan)
    ensures
        scan == frame_scan(buf@),
{
    let n = buf.len();
    let mut i: usize = 0;
    while n > 0 && i < n - 1
        invariant
            n == buf@.len(),
            i <= n,
            first_preamble(buf@, 0) == first_preamble(buf@, i as int),
        decreases n - i,
    {
        if buf[i] == 0xFE && buf[i + 1] == 0xFE {
            assert(first_preamble(buf@, i as int) == Some(i as int));
            let mut j: usize = i;
            while j < n
                invariant
                    n == buf@.len(),
                    first_preamble(buf@, 0) == Some(i as int),
                    i <= j <= n,
                    first_end(buf@, i as int) == first_end(buf@, j as int),
                decreases n - j,
            {
                if buf[j] == 0xFD {
                    assert(first_end(buf@, j as int) == Some(j as int));
                    return FrameScan::Complete(i, j);
                }
                j = j + 1;
            }
            return FrameScan::Incomplete(i);
        }
        i = i + 1;
    }
    FrameScan::NoStart
}

/// Builds a frame from the transceiver to the computer.
pub fn build_reply_frame(cmd: u8, data: &[u8]) -> (frame: Vec<u8>)
    ensures
        frame@ == reply_frame(cmd, data@),
{
    let mut frame: Vec<u8> = Vec::new();
    frame.push(0xFE);
    frame.push(0xFE);
    frame.push(PC_ADDR);
    frame.push(IC7300_ADDR);
    frame.push(cmd);
    push_all(&mut frame, data);
    frame.push(0xFD);
    assert(frame@ =~= reply_frame(cmd, data@));
    frame
}

} // verus!
