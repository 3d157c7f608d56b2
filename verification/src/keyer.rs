//! The automatic caller: a loop that transmits a message slot for its
//! duration, listens for its interval, and starts again, until the operator
//! stops it or takes over the PTT.

use vstd::prelude::*;
use crate::civ::Command;
use crate::link::elapsed;
use crate::station::{when_connected, RadioState};
use crate::text::{append_chars, chars_of, decimal, decimal_chars, string_from_chars, trim_chars, trimmed};

verus! {

/// Where the loop stands; times are in milliseconds.
#[derive(Clone, Copy, PartialEq, Eq, Debug, Structural)]
pub enum KeyerStage {
    Idle,
    Transmitting { start_ms: u64, duration_ms: u64 },
    Listening { start_ms: u64, duration_ms: u64 },
}

/// The loop's stage and whether it runs.
#[derive(Clone, Copy, PartialEq, Eq, Debug, Structural)]
pub struct KeyerLoop {
    pub stage: KeyerStage,
    pub is_active: bool,
}

/// What the loop needs of the selected message slot.
#[derive(Clone, Copy, PartialEq, Eq, Debug, Structural)]
pub struct KeyerSlot {
    /// How long each transmission lasts.
    pub transmit_ms: u64,
    /// How long the loop listens between transmissions.
    pub listen_ms: u64,
    /// Whether the DATA mode is switched on for each transmission.
    pub data_mode: bool,
    /// Whether an audio file is played during each transmission.
    pub has_audio: bool,
}

/// What one step of the loop asks of the outside: commands to the radio,
/// and whether to start or to stop the slot's audio.
pub struct KeyerEffects {
    pub commands: Vec<Command>,
    pub start_audio: bool,
    pub stop_audio: bool,
}

/// The loop, stopped.
pub open spec fn keyer_stopped() -> KeyerLoop {
    KeyerLoop { stage: KeyerStage::Idle, is_active: false }
}

/// The state when a transmission starts: DATA on if the slot asks for it,
/// PTT on.
pub open spec fn transmitting_state(s: RadioState, slot: KeyerSlot, now: u64) -> RadioState {
    RadioState {
        is_data_mode: if slot.data_mode { true } else { s.is_data_mode },
        is_tx: true,
        last_user_write_ms: now,
        ..s
    }
}

/// The commands when a transmission starts.
pub open spec fn transmitting_commands(s: RadioState, slot: KeyerSlot) -> Seq<Command> {
    when_connected(
        s,
        if slot.data_mode {
            seq![Command::SetDataMode(true), Command::SetPTT(true)]
        } else {
            seq![Command::SetPTT(true)]
        },
    )
}

/// The state when the loop is aborted: PTT and DATA off.
pub open spec fn aborted_state(s: RadioState, now: u64) -> RadioState {
    RadioState { is_tx: false, is_data_mode: false, last_user_write_ms: now, ..s }
}

/// The commands when the loop is aborted.
pub open spec fn aborted_commands(s: RadioState) -> Seq<Command> {
    when_connected(s, seq![Command::SetPTT(false), Command::SetDataMode(false)])
}

/// Whether the current stage ends at `now`.
pub open spec fn stage_over(start_ms: u64, duration_ms: u64, now: u64) -> bool {
    elapsed(now, start_ms) >= duration_ms
}

/// One step of a running loop at `now`: the new transceiver state, the new
/// loop, the commands, and whether audio starts and stops.
pub open spec fn keyer_step(s: RadioState, k: KeyerLoop, slot: KeyerSlot, now: u64) -> (
    RadioState,
    KeyerLoop,
    Seq<Command>,
    bool,
    bool,
) {
    if !k.is_active {
        (s, k, seq![], false, false)
    } else {
        match k.stage {
            KeyerStage::Idle => (
                transmitting_state(s, slot, now),
                KeyerLoop {
                    stage: KeyerStage::Transmitting { start_ms: now, duration_ms: slot.transmit_ms },
                    is_active: true,
                },
                transmitting_commands(s, slot),
                slot.has_audio,
                false,
            ),
            KeyerStage::Transmitting { start_ms, duration_ms } => if !s.is_tx {
                (aborted_state(s, now), keyer_stopped(), aborted_commands(s), false, true)
            } else if stage_over(start_ms, duration_ms, now) {
                (
                    RadioState { is_tx: false, last_user_write_ms: now, ..s },
                    KeyerLoop {
                        stage: KeyerStage::Listening { start_ms: now, duration_ms: slot.listen_ms },
                        is_active: true,
                    },
                    when_connected(s, seq![Command::SetPTT(false)]),
                    false,
                    true,
                )
            } else {
                (s, k, seq![], false, false)
            },
            KeyerStage::Listening { start_ms, duration_ms } => if s.is_tx {
                (aborted_state(s, now), keyer_stopped(), aborted_commands(s), false, true)
            } else if stage_over(start_ms, duration_ms, now) {
                (
                    transmitting_state(s, slot, now),
                    KeyerLoop {
                        stage: KeyerStage::Transmitting { start_ms: now, duration_ms: slot.transmit_ms },
                        is_active: true,
                    },
                    transmitting_commands(s, slot),
                    slot.has_audio,
                    false,
                )
            } else {
                (s, k, seq![], false, false)
            },
        }
    }
}

/// Whether a slot's audio file name names a file: anything but blanks.
pub fn names_audio_file(path: &str) -> (b: bool)
    ensures
        b == (trimmed(path@).len() > 0),
{
    let c = chars_of(path);
    let t = trim_chars(c.as_slice());
    t.len() > 0
}

/// A character in ASCII lower case: `A`..`Z` become `a`..`z`, any other
/// character is kept.
pub open spec fn ascii_lower(c: char) -> char {
    if 'A' <= c && c <= 'Z' {
        ((c as u32) + 32) as char
    } else {
        c
    }
}

/// A text in ASCII lower case.
pub open spec fn lower_text(s: Seq<char>) -> Seq<char> {
    s.map_values(|c: char| ascii_lower(c))
}

/// Whether `needle` occurs in `hay` as a run of consecutive characters.
pub open spec fn has_infix(hay: Seq<char>, needle: Seq<char>) -> bool {
    exists|i: int|
        0 <= i && i + needle.len() <= hay.len() && #[trigger] hay.subrange(i, i + needle.len())
            == needle
}

/// Whether an output device's name is that of the transceiver's own USB sound
/// card: it holds "codec", "icom" or "7300", whatever the case of its letters.
/// (Full Unicode lower-casing gives the same answer for these words: no other
/// character lowers to one of their letters or digits.)
pub open spec fn names_radio_sound_card(name: Seq<char>) -> bool {
    let l = lower_text(name);
    has_infix(l, "codec"@) || has_infix(l, "icom"@) || has_infix(l, "7300"@)
}

/// A character in ASCII lower case.
fn lower_char(c: char) -> (l: char)
    ensures
        l == ascii_lower(c),
{
    if 'A' <= c && c <= 'Z' {
        let b: u8 = c as u8;
        assert(b == c as u32);
        let l: char = (b + 32) as char;
        assert(l == ((c as u32) + 32) as char);
        l
    } else {
        c
    }
}

/// Whether the lower-cased `hay`, from position `at`, starts with `needle`.
fn lowered_match_at(hay: &[char], needle: &[char], at: usize) -> (b: bool)
    requires
        at + needle@.len() <= hay@.len(),
    ensures
        b == (lower_text(hay@).subrange(at as int, at + needle@.len()) == needle@),
{
    let ghost want = lower_text(hay@).subrange(at as int, at + needle@.len());
    let hay_len: usize = hay.len();
    let mut j: usize = 0;
    while j < needle.len()
        invariant
            at + needle@.len() <= hay@.len(),
            hay_len == hay@.len(),
            j <= needle@.len(),
            want == lower_text(hay@).subrange(at as int, at + needle@.len()),
            forall|k: int| 0 <= k < j ==> want[k] == needle@[k],
        decreases needle@.len() - j,
    {
        let l = lower_char(hay[at + j]);
        if l != needle[j] {
            assert(want[j as int] != needle@[j as int]);
            return false;
        }
        j = j + 1;
    }
    assert(want =~= needle@);
    true
}

/// Whether the lower-cased `hay` holds `needle`.
fn lowered_contains(hay: &[char], needle: &[char]) -> (b: bool)
    ensures
        b == has_infix(lower_text(hay@), needle@),
{
    let ghost l = lower_text(hay@);
    if needle.len() > hay.len() {
        return false;
    }
    let last: usize = hay.len() - needle.len();
    let mut i: usize = 0;
    while i <= last
        invariant
            last + needle@.len() == hay@.len(),
            l == lower_text(hay@),
            l.len() == hay@.len(),
            forall|k: int| 0 <= k < i ==> #[trigger] l.subrange(k, k + needle@.len()) != needle@,
        decreases last + 1 - i,
    {
        if lowered_match_at(hay, needle, i) {
            return true;
        }
        if i == last {
            assert forall|k: int|
                0 <= k && k + needle@.len() <= l.len() implies #[trigger] l.subrange(
                k,
                k + needle@.len(),
            ) != needle@ by {
                assert(k <= i);
            }
            return false;
        }
        i = i + 1;
    }
    false
}

/// Whether an output device's name is that of the transceiver's own sound card.
pub fn is_radio_sound_card(name: &str) -> (b: bool)
    ensures
        b == names_radio_sound_card(name@),
{
    let hay = chars_of(name);
    let codec = chars_of("codec");
    let icom = chars_of("icom");
    let model = chars_of("7300");
    lowered_contains(hay.as_slice(), codec.as_slice()) || lowered_contains(
        hay.as_slice(),
        icom.as_slice(),
    ) || lowered_contains(hay.as_slice(), model.as_slice())
}

/// The label under which the output device at `index` (counted from 0) is
/// listed for choosing: its number counted from 1, a dot, a space, its name.
pub open spec fn sound_card_text(index: nat, name: Seq<char>) -> Seq<char> {
    decimal(index + 1) + ". "@ + name
}

/// The label of the output device at `index` in the list of devices.
pub fn sound_card_label(index: usize, name: &str) -> (label: String)
    requires
        index < u64::MAX,
    ensures
        label@ == sound_card_text(index as nat, name@),
{
    let mut out = decimal_chars(index as u64 + 1);
    let sep = chars_of(". ");
    append_chars(&mut out, sep.as_slice());
    let n = chars_of(name);
    append_chars(&mut out, n.as_slice());
    string_from_chars(out.as_slice())
}

impl KeyerLoop {
    /// The loop as the panel opens: stopped.
    pub fn new() -> (k: KeyerLoop)
        ensures
            k == keyer_stopped(),
    {
        KeyerLoop { stage: KeyerStage::Idle, is_active: false }
    }

    /// Starts the loop; its first step starts a transmission.
    pub fn start(&mut self)
        ensures
            *final(self) == (KeyerLoop { stage: KeyerStage::Idle, is_active: true }),
    {
        self.is_active = true;
        self.stage = KeyerStage::Idle;
    }
}

/// The commands that start a transmission.
fn transmit_commands(s: &RadioState, slot: &KeyerSlot) -> (cmds: Vec<Command>)
    ensures
        cmds@ == transmitting_commands(*s, *slot),
{
    let mut cmds: Vec<Command> = Vec::new();
    if s.is_connected {
        if slot.data_mode {
            cmds.push(Command::SetDataMode(true));
        }
        cmds.push(Command::SetPTT(true));
    }
    proof {
        if s.is_connected {
            if slot.data_mode {
                assert(cmds@ =~= seq![Command::SetDataMode(true), Command::SetPTT(true)]);
            } else {
                assert(cmds@ =~= seq![Command::SetPTT(true)]);
            }
        } else {
            assert(cmds@ =~= Seq::<Command>::empty());
        }
    }
    cmds
}

/// The state at the start of a transmission.
fn transmitting(s: &RadioState, slot: &KeyerSlot, now_ms: u64) -> (r: RadioState)
    ensures
        r == transmitting_state(*s, *slot, now_ms),
{
    RadioState { is_data_mode: if slot.data_mode { true } else { s.is_data_mode }, is_tx: true, last_user_write_ms: now_ms, ..*s }
}

/// The state after an abort.
fn aborted(s: &RadioState, now_ms: u64) -> (r: RadioState)
    ensures
        r == aborted_state(*s, now_ms),
{
    RadioState { is_tx: false, is_data_mode: false, last_user_write_ms: now_ms, ..*s }
}

/// The state when a transmission ends.
fn listening(s: &RadioState, now_ms: u64) -> (r: RadioState)
    ensures
        r == (RadioState { is_tx: false, last_user_write_ms: now_ms, ..*s }),
{
    RadioState { is_tx: false, last_user_write_ms: now_ms, ..*s }
}

/// The effects of nothing happening.
fn no_effects() -> (fx: KeyerEffects)
    ensures
        fx.commands@ == Seq::<Command>::empty(),
        !fx.start_audio,
        !fx.stop_audio,
{
    KeyerEffects { commands: Vec::new(), start_audio: false, stop_audio: false }
}

impl RadioState {
    /// Stops the loop at once (the stop button, or the operator taking over
    /// the PTT): PTT and DATA off, audio stopped.
    pub fn abort_keyer(&mut self, keyer: &mut KeyerLoop, now_ms: u64) -> (fx: KeyerEffects)
        ensures
            *final(self) == aborted_state(*old(self), now_ms),
            *final(keyer) == keyer_stopped(),
            fx.commands@ == aborted_commands(*old(self)),
            !fx.start_audio,
            fx.stop_audio,
    {
        let mut commands: Vec<Command> = Vec::new();
        if self.is_connected {
            commands.push(Command::SetPTT(false));
            commands.push(Command::SetDataMode(false));
        }
        assert(commands@ =~= aborted_commands(*old(self)));
        *keyer = KeyerLoop { stage: KeyerStage::Idle, is_active: false };
        *self = aborted(self, now_ms);
        KeyerEffects { commands, start_audio: false, stop_audio: true }
    }

    /// One step of the loop, run at each refresh of the panel: a stopped
    /// loop does nothing; a starting loop transmits; a transmission or a
    /// listening period that is over gives way to the other; the operator
    /// switching the PTT against the loop aborts it.
    pub fn keyer_tick(&mut self, keyer: &mut KeyerLoop, slot: &KeyerSlot, now_ms: u64) -> (fx: KeyerEffects)
        ensures
            ({
                let (s, k, cmds, start, stop) = keyer_step(*old(self), *old(keyer), *slot, now_ms);
                &&& *final(self) == s
                &&& *final(keyer) == k
                &&& fx.commands@ == cmds
                &&& fx.start_audio == start
                &&& fx.stop_audio == stop
            }),
    {
        if !keyer.is_active {
            return no_effects();
        }
        let (start_ms, duration_ms, transmitting_now) = match keyer.stage {
            KeyerStage::Idle => {
                let commands = transmit_commands(self, slot);
                *keyer = KeyerLoop {
                    stage: KeyerStage::Transmitting { start_ms: now_ms, duration_ms: slot.transmit_ms },
                    is_active: true,
                };
                *self = transmitting(self, slot, now_ms);
                return KeyerEffects { commands, start_audio: slot.has_audio, stop_audio: false };
            },
            KeyerStage::Transmitting { start_ms, duration_ms } => (start_ms, duration_ms, true),
            KeyerStage::Listening { start_ms, duration_ms } => (start_ms, duration_ms, false),
        };
        if self.is_tx != transmitting_now {
            return self.abort_keyer(keyer, now_ms);
        }
        let gone: u64 = if now_ms >= start_ms { now_ms - start_ms } else { 0 };
        if gone < duration_ms {
            return no_effects();
        }
        if transmitting_now {
            let mut commands: Vec<Command> = Vec::new();
            if self.is_connected {
                commands.push(Command::SetPTT(false));
            }
            assert(commands@ =~= when_connected(*old(self), seq![Command::SetPTT(false)]));
            *keyer = KeyerLoop {
                stage: KeyerStage::Listening { start_ms: now_ms, duration_ms: slot.listen_ms },
                is_active: true,
            };
            *self = listening(self, now_ms);
            KeyerEffects { commands, start_audio: false, stop_audio: true }
        } else {
            let commands = transmit_commands(self, slot);
            *keyer = KeyerLoop {
                stage: KeyerStage::Transmitting { start_ms: now_ms, duration_ms: slot.transmit_ms },
                is_active: true,
            };
            *self = transmitting(self, slot, now_ms);
            KeyerEffects { commands, start_audio: slot.has_audio, stop_audio: false }
        }
    }
}

/// Whether a running loop and the PTT agree: the radio transmits exactly in
/// the transmitting stage.
pub open spec fn keyer_agrees(s: RadioState, k: KeyerLoop) -> bool {
    k.is_active ==> match k.stage {
        KeyerStage::Idle => true,
        KeyerStage::Transmitting { .. } => s.is_tx,
        KeyerStage::Listening { .. } => !s.is_tx,
    }
}

/// After any step of the loop, whatever came before, a running loop and the
/// PTT agree: a loop that finds the PTT switched against it stops.
pub proof fn lemma_keyer_step_agrees(s: RadioState, k: KeyerLoop, slot: KeyerSlot, now: u64)
    ensures
        ({
            let (s2, k2, _c, _a, _b) = keyer_step(s, k, slot, now);
            keyer_agrees(s2, k2)
        }),
{
}

/// A stopped loop changes nothing and sends nothing.
pub proof fn lemma_stopped_keyer_is_inert(s: RadioState, k: KeyerLoop, slot: KeyerSlot, now: u64)
    requires
        !k.is_active,
    ensures
        keyer_step(s, k, slot, now) == (s, k, Seq::<Command>::empty(), false, false),
{
}

/// Every transmission of the automatic caller carries the slot's message:
/// whenever a step starts a transmission (the loop's first step, or the end
/// of a listening period), the slot's audio starts when it has one, the PTT
/// goes on and, when connected, the last order sent is PTT on; audio never
/// starts at any other step.
pub proof fn lemma_every_transmission_plays_the_slot(s: RadioState, k: KeyerLoop, slot: KeyerSlot, now: u64)
    ensures
        ({
            let (s2, k2, cmds, start, stop) = keyer_step(s, k, slot, now);
            let begins = k2.stage is Transmitting && !(k.stage is Transmitting);
            &&& start <==> (begins && slot.has_audio)
            &&& begins ==> s2.is_tx && !stop && k2.is_active
            &&& begins && s.is_connected ==> cmds.len() > 0 && cmds.last() == Command::SetPTT(true)
            &&& begins ==> k2.stage == (KeyerStage::Transmitting { start_ms: now, duration_ms: slot.transmit_ms })
        }),
{
}

/// A transmission of the automatic caller ends with the audio stopped and
/// the PTT off (PTT off sent first when connected); a listening period that
/// follows lasts the slot's listening time; audio stops at no other step but
/// the loop being stopped.
pub proof fn lemma_every_transmission_ends_silent(s: RadioState, k: KeyerLoop, slot: KeyerSlot, now: u64)
    ensures
        ({
            let (s2, k2, cmds, start, stop) = keyer_step(s, k, slot, now);
            let ends = k.is_active && k.stage is Transmitting && !(k2.stage is Transmitting);
            &&& stop <==> (ends || (k.is_active && !k2.is_active))
            &&& ends ==> !s2.is_tx && !start
            &&& ends && s.is_connected ==> cmds.len() > 0 && cmds[0] == Command::SetPTT(false)
            &&& k2.stage is Listening && !(k.stage is Listening) ==> k2.stage == (KeyerStage::Listening {
                start_ms: now,
                duration_ms: slot.listen_ms,
            })
        }),
{
}

} // verus!
