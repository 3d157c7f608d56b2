//! The CAT proxy: a virtual transceiver on a second serial port that answers
//! another program (an SSTV or digital-mode program) from a cache of the real
//! transceiver's state, and forwards its frequency and PTT orders.

use vstd::prelude::*;
use crate::bcd::{bcd_digits, bcd_to_freq, bcd_value, freq_to_bcd, lemma_bcd_digits_bytes, lemma_freq_bcd_roundtrip};
use crate::civ::{
    build_reply_frame, civ_frame, find_frame, first_end, first_preamble, frame_scan, lemma_first_end_bounds,
    lemma_first_preamble_bounds, mode_code, reply_frame, Command, FrameScan, RadioMode, RadioReport,
    RadioUpdate, IC7300_ADDR, PC_ADDR,
};
use crate::decode::{freq_in_range, lemma_frequency_reply_decodes, state_report};
use crate::link::{command_frames, flag_byte, frames_view, MAX_PENDING};

verus! {

/// The value of a `CatProxy`.
pub struct ProxyModel {
    pub frequency: u64,
    pub mode: RadioMode,
    pub filter: u8,
    pub data_mode: bool,
    pub buffer: Seq<u8>,
}

/// The proxy's cache of the transceiver state and its receive buffer.
pub struct CatProxy {
    pub frequency: u64,
    pub mode: RadioMode,
    pub filter: u8,
    pub data_mode: bool,
    pub serial_buffer: Vec<u8>,
}

impl View for CatProxy {
    type V = ProxyModel;

    open spec fn view(&self) -> ProxyModel {
        ProxyModel {
            frequency: self.frequency,
            mode: self.mode,
            filter: self.filter,
            data_mode: self.data_mode,
            buffer: self.serial_buffer@,
        }
    }
}

/// The acknowledgement the transceiver sends for an accepted order.
pub open spec fn ok_reply() -> Seq<u8> {
    reply_frame(0xFB, seq![])
}

/// The answer to a mode read: mode byte, filter, and a DATA byte when DATA is on.
pub open spec fn mode_reply_data(mode: RadioMode, filter: u8, data_mode: bool) -> Seq<u8> {
    seq![mode_code(mode), filter] + if data_mode { seq![0x01u8] } else { seq![] }
}

/// A frame from the other program to the transceiver.
pub open spec fn frame_to_radio(f: Seq<u8>) -> bool {
    f.len() >= 6 && f[2] == IC7300_ADDR && f[3] == PC_ADDR
}

/// What the proxy answers to a frame and the order it forwards: frequency and
/// mode reads are answered from the cache; a frequency setting in the
/// accepted range and a PTT order are forwarded; every other order is
/// acknowledged.
pub open spec fn proxy_answer(c: ProxyModel, f: Seq<u8>) -> (Option<Seq<u8>>, Option<Command>) {
    if !frame_to_radio(f) {
        (None, None)
    } else if f[4] == 0x03 {
        (Some(reply_frame(0x03, bcd_digits(c.frequency as nat, 5))), None)
    } else if f[4] == 0x04 {
        (Some(reply_frame(0x04, mode_reply_data(c.mode, c.filter, c.data_mode))), None)
    } else if f[4] == 0x05 {
        (
            Some(ok_reply()),
            if f.len() >= 11 && freq_in_range(bcd_value(f.subrange(5, 10))) {
                Some(Command::SetFrequency(bcd_value(f.subrange(5, 10)) as u64))
            } else {
                None
            },
        )
    } else if f[4] == 0x1C {
        (
            Some(ok_reply()),
            if f.len() >= 8 && f[5] == 0x00 {
                Some(Command::SetPTT(f[6] == 0x01))
            } else {
                None
            },
        )
    } else {
        (Some(ok_reply()), None)
    }
}

/// The bytes of an optional frame.
pub open spec fn opt_bytes(o: Option<Vec<u8>>) -> Option<Seq<u8>> {
    match o {
        Some(r) => Some(r@),
        None => None,
    }
}

/// An optional value as a sequence of zero or one values.
pub open spec fn opt_to_seq<T>(o: Option<T>) -> Seq<T> {
    match o {
        Some(v) => seq![v],
        None => seq![],
    }
}

/// Frames the proxy's receive buffer as the link does, answering each frame:
/// the answers to write, the orders to forward, and the bytes left.
pub open spec fn proxy_drain(c: ProxyModel) -> (Seq<Seq<u8>>, Seq<Command>, Seq<u8>)
    decreases c.buffer.len(),
{
    let b = c.buffer;
    match first_preamble(b, 0) {
        None => (seq![], seq![], b),
        Some(s) => match first_end(b, s) {
            None => (seq![], seq![], if b.len() > MAX_PENDING { b.skip(s + 1) } else { b }),
            Some(e) => {
                proof {
                    lemma_first_preamble_bounds(b, 0);
                    lemma_first_end_bounds(b, s);
                }
                let (reply, cmd) = proxy_answer(c, b.subrange(s, e + 1));
                let (replies, cmds, rest) = proxy_drain(ProxyModel { buffer: b.skip(e + 1), ..c });
                (opt_to_seq(reply) + replies, opt_to_seq(cmd) + cmds, rest)
            },
        },
    }
}

/// The cache after an update from the transceiver: frequency and mode updates
/// are kept, the others ignored.
pub open spec fn proxy_after_update(c: ProxyModel, u: RadioUpdate) -> ProxyModel {
    match u {
        RadioUpdate::Frequency(f) => ProxyModel { frequency: f, ..c },
        RadioUpdate::ModeAndFilter(m, fil, d) => ProxyModel { mode: m, filter: fil, data_mode: d, ..c },
        _ => c,
    }
}

/// What the proxy writes and forwards for received bytes.
pub struct ProxyOutput {
    /// Answers to write back to the other program, in order.
    pub replies: Vec<Vec<u8>>,
    /// Orders to forward to the transceiver, in order.
    pub commands: Vec<Command>,
}

impl CatProxy {
    /// A proxy whose cache starts at 14.074 MHz, USB, filter 1, DATA off.
    pub fn new() -> (p: CatProxy)
        ensures
            p@ == (ProxyModel {
                frequency: 14_074_000,
                mode: RadioMode::Usb,
                filter: 1,
                data_mode: false,
                buffer: seq![],
            }),
    {
        CatProxy {
            frequency: 14_074_000,
            mode: RadioMode::Usb,
            filter: 1,
            data_mode: false,
            serial_buffer: Vec::new(),
        }
    }

    /// Keeps the frequency and mode the transceiver reports.
    pub fn apply_update(&mut self, update: &RadioUpdate)
        ensures
            final(self)@ == proxy_after_update(old(self)@, *update),
    {
        match update {
            RadioUpdate::Frequency(f) => {
                self.frequency = *f;
            },
            RadioUpdate::ModeAndFilter(m, fil, d) => {
                self.mode = *m;
                self.filter = *fil;
                self.data_mode = *d;
            },
            _ => {},
        }
    }

    /// The answer to one frame and the order it forwards.
    pub fn answer(&self, f: &[u8]) -> (out: (Option<Vec<u8>>, Option<Command>))
        ensures
            (opt_bytes(out.0), out.1) == proxy_answer(self@, f@),
    {
        if !(f.len() >= 6 && f[2] == IC7300_ADDR && f[3] == PC_ADDR) {
            return (None, None);
        }
        let no_data: [u8; 0] = [];
        assert(no_data@ =~= Seq::<u8>::empty());
        let cmd = f[4];
        if cmd == 0x03 {
            let bcd = freq_to_bcd(self.frequency);
            (Some(build_reply_frame(0x03, bcd.as_slice())), None)
        } else if cmd == 0x04 {
            let mut data: Vec<u8> = Vec::new();
            data.push(self.mode.code());
            data.push(self.filter);
            if self.data_mode {
                data.push(0x01);
            }
            assert(data@ =~= mode_reply_data(self.mode, self.filter, self.data_mode));
            (Some(build_reply_frame(0x04, data.as_slice())), None)
        } else if cmd == 0x05 {
            let mut order: Option<Command> = None;
            if f.len() >= 11 {
                let freq = bcd_to_freq(&f[5..10]);
                assert(f@.subrange(5, 10).subrange(0, 5) =~= f@.subrange(5, 10));
                if freq >= 30_000 && freq <= 74_800_000 {
                    order = Some(Command::SetFrequency(freq));
                }
            }
            (Some(build_reply_frame(0xFB, no_data.as_slice())), order)
        } else if cmd == 0x1C {
            let mut order: Option<Command> = None;
            if f.len() >= 8 && f[5] == 0x00 {
                order = Some(Command::SetPTT(f[6] == 0x01));
            }
            (Some(build_reply_frame(0xFB, no_data.as_slice())), order)
        } else {
            (Some(build_reply_frame(0xFB, no_data.as_slice())), None)
        }
    }

    /// Appends received bytes to the buffer and answers every complete frame.
    pub fn receive(&mut self, bytes: &[u8]) -> (out: ProxyOutput)
        ensures
            ({
                let start = ProxyModel { buffer: old(self)@.buffer + bytes@, ..old(self)@ };
                &&& frames_view(out.replies@) == proxy_drain(start).0
                &&& out.commands@ == proxy_drain(start).1
                &&& final(self)@ == ProxyModel { buffer: proxy_drain(start).2, ..old(self)@ }
            }),
    {
        let ghost start = ProxyModel { buffer: self@.buffer + bytes@, ..self@ };
        let mut i: usize = 0;
        while i < bytes.len()
            invariant
                i <= bytes@.len(),
                self@ == (ProxyModel { buffer: old(self)@.buffer + bytes@.take(i as int), ..old(self)@ }),
            decreases bytes@.len() - i,
        {
            self.serial_buffer.push(bytes[i]);
            i = i + 1;
            assert(self@.buffer =~= old(self)@.buffer + bytes@.take(i as int));
        }
        assert(bytes@.take(bytes@.len() as int) =~= bytes@);
        let mut replies: Vec<Vec<u8>> = Vec::new();
        let mut commands: Vec<Command> = Vec::new();
        loop
            invariant
                start == (ProxyModel { buffer: old(self)@.buffer + bytes@, ..old(self)@ }),
                self@ == (ProxyModel { buffer: self@.buffer, ..old(self)@ }),
                proxy_drain(start).2 == proxy_drain(self@).2,
                proxy_drain(start).0 == frames_view(replies@) + proxy_drain(self@).0,
                proxy_drain(start).1 == commands@ + proxy_drain(self@).1,
            decreases self@.buffer.len(),
        {
            let ghost before = self@;
            let buffered: usize = self.serial_buffer.len();
            let scan = find_frame(self.serial_buffer.as_slice());
            assert(scan == frame_scan(before.buffer));
            proof {
                lemma_first_preamble_bounds(before.buffer, 0);
                if first_preamble(before.buffer, 0) is Some {
                    lemma_first_end_bounds(before.buffer, first_preamble(before.buffer, 0)->0);
                }
            }
            match scan {
                FrameScan::NoStart => {
                    assert(frames_view(replies@) + Seq::<Seq<u8>>::empty() =~= frames_view(replies@));
                    assert(commands@ + Seq::<Command>::empty() =~= commands@);
                    return ProxyOutput { replies, commands };
                },
                FrameScan::Incomplete(s) => {
                    assert(first_preamble(before.buffer, 0) == Some(s as int));
                    assert(first_end(before.buffer, s as int) is None);
                    if self.serial_buffer.len() > MAX_PENDING {
                        let rest = self.serial_buffer.split_off(s + 1);
                        self.serial_buffer = rest;
                    }
                    assert(frames_view(replies@) + Seq::<Seq<u8>>::empty() =~= frames_view(replies@));
                    assert(commands@ + Seq::<Command>::empty() =~= commands@);
                    return ProxyOutput { replies, commands };
                },
                FrameScan::Complete(s, e) => {
                    assert(first_preamble(before.buffer, 0) == Some(s as int));
                    assert(first_end(before.buffer, s as int) == Some(e as int));
                    let mut frame = self.serial_buffer.split_off(e + 1);
                    std::mem::swap(&mut frame, &mut self.serial_buffer);
                    let frame_slice = &frame.as_slice()[s..e + 1];
                    assert(frame_slice@ =~= before.buffer.subrange(s as int, e + 1));
                    let (reply, order) = self.answer(frame_slice);
                    assert(self@.buffer =~= before.buffer.skip(e + 1));
                    let ghost prev_r = frames_view(replies@);
                    let ghost prev_c = commands@;
                    let ghost reply_v = opt_bytes(reply);
                    match reply {
                        Some(r) => {
                            replies.push(r);
                        },
                        None => {},
                    }
                    assert(frames_view(replies@) =~= prev_r + opt_to_seq(reply_v));
                    match order {
                        Some(o) => {
                            commands.push(o);
                        },
                        None => {},
                    }
                    assert(commands@ =~= prev_c + opt_to_seq(order));
                    assert(frames_view(replies@) + proxy_drain(self@).0 =~= prev_r + (opt_to_seq(reply_v) + proxy_drain(self@).0));
                    assert(commands@ + proxy_drain(self@).1 =~= prev_c + (opt_to_seq(order) + proxy_drain(self@).1));
                },
            }
        }
    }
}

/// The proxy, standing in for the transceiver, takes the panel's own
/// frequency and PTT frames as the orders they carry, and acknowledges them.
pub proof fn lemma_proxy_follows_panel_orders(c: ProxyModel, freq: u64, tx: bool, filter: u8)
    requires
        freq_in_range(freq as nat),
    ensures
        proxy_answer(c, command_frames(Command::SetFrequency(freq), filter)[0])
            == (Some(ok_reply()), Some(Command::SetFrequency(freq))),
        proxy_answer(c, command_frames(Command::SetPTT(tx), filter)[0])
            == (Some(ok_reply()), Some(Command::SetPTT(tx))),
{
    lemma_freq_bcd_roundtrip(freq);
    let f = command_frames(Command::SetFrequency(freq), filter)[0];
    assert(f.len() == 11);
    assert(f.subrange(5, 10) =~= bcd_digits(freq as nat, 5));
    let p = command_frames(Command::SetPTT(tx), filter)[0];
    assert(p =~= seq![0xFEu8, 0xFE, IC7300_ADDR, PC_ADDR, 0x1C, 0x00, flag_byte(tx), 0xFD]);
}

/// A program that reads the frequency through the proxy gets, in a frame the
/// panel's own decoder reads back, the frequency the transceiver last
/// reported.
pub proof fn lemma_proxy_reports_latest_frequency(c: ProxyModel, freq: u64, data_mode: bool)
    requires
        freq_in_range(freq as nat),
    ensures
        ({
            let c2 = proxy_after_update(c, RadioUpdate::Frequency(freq));
            let (answer, order) = proxy_answer(c2, civ_frame(0x03, None, seq![]));
            &&& order is None
            &&& answer == Some(reply_frame(0x03, bcd_digits(freq as nat, 5)))
            &&& state_report(answer.unwrap(), data_mode) == Some(RadioReport::Frequency(freq))
        }),
{
    lemma_frequency_reply_decodes(freq, data_mode);
    assert(civ_frame(0x03, None, seq![]) =~= seq![0xFEu8, 0xFE, IC7300_ADDR, PC_ADDR, 0x03, 0xFD]);
}

/// The proxy, receiving the panel's frequency frame whole on an empty
/// buffer, acknowledges it, forwards the frequency, and keeps nothing.
pub proof fn lemma_proxy_takes_panel_frequency_frame(c: ProxyModel, freq: u64, filter: u8)
    requires
        freq_in_range(freq as nat),
    ensures
        proxy_drain(ProxyModel { buffer: command_frames(Command::SetFrequency(freq), filter)[0], ..c })
            == (seq![ok_reply()], seq![Command::SetFrequency(freq)], Seq::<u8>::empty()),
{
    lemma_proxy_follows_panel_orders(c, freq, true, filter);
    lemma_freq_bcd_roundtrip(freq);
    lemma_bcd_digits_bytes(freq as nat, 5);
    let f = command_frames(Command::SetFrequency(freq), filter)[0];
    let m = ProxyModel { buffer: f, ..c };
    assert(f.len() == 11);
    assert(first_preamble(f, 0) == Some(0int));
    lemma_first_end_bounds(f, 0);
    assert forall|i: int| 0 <= i < 10 implies f[i] != 0xFD by {
        if 5 <= i {
            assert(f[i] == bcd_digits(freq as nat, 5)[i - 5]);
        }
    }
    assert(f[10] == 0xFD);
    assert(first_end(f, 0) == Some(10int));
    assert(f.subrange(0, 11) =~= f);
    let rest = ProxyModel { buffer: f.skip(11), ..m };
    assert(f.skip(11) =~= Seq::<u8>::empty());
    assert(first_preamble(rest.buffer, 0) is None);
    assert(proxy_drain(rest) == (Seq::<Seq<u8>>::empty(), Seq::<Command>::empty(), Seq::<u8>::empty()));
    assert(ProxyModel { buffer: f, ..m } == m);
    assert(proxy_drain(m) == (seq![ok_reply()] + Seq::<Seq<u8>>::empty(), seq![Command::SetFrequency(freq)]
        + Seq::<Command>::empty(), Seq::<u8>::empty()));
    assert(seq![ok_reply()] + Seq::<Seq<u8>>::empty() =~= seq![ok_reply()]);
    assert(seq![Command::SetFrequency(freq)] + Seq::<Command>::empty() =~= seq![Command::SetFrequency(freq)]);
}

} // verus!
