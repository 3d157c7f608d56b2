//! The band buttons and the tuning step of the panel: the band tables, which
//! band the working frequency falls in, the step the VFO knob and the arrow
//! keys tune by, and tuning by knob ticks.

use vstd::prelude::*;
use crate::civ::{Command, RadioMode};
use crate::station::{after_mode, after_set_frequency, clamp_freq, when_connected, Reaction, RadioState, MAX_FREQ, MIN_FREQ};

verus! {

/// The tab shown in the panel's right-hand column.
#[derive(Clone, Copy, PartialEq, Eq, Debug, Structural)]
pub enum RightTab {
    Bandes,
    Memoires,
    Eibi,
}

/// A band button: the band's edges, and the frequency and mode it tunes to.
pub struct BandInfo {
    pub name: &'static str,
    pub min: u64,
    pub max: u64,
    pub default_freq: u64,
    pub default_mode: RadioMode,
}

/// A band button with its name as characters.
pub struct BandModel {
    pub name: Seq<char>,
    pub min: u64,
    pub max: u64,
    pub default_freq: u64,
    pub default_mode: RadioMode,
}

impl View for BandInfo {
    type V = BandModel;

    open spec fn view(&self) -> BandModel {
        BandModel {
            name: self.name@,
            min: self.min,
            max: self.max,
            default_freq: self.default_freq,
            default_mode: self.default_mode,
        }
    }
}

/// The band buttons of a list.
pub open spec fn bands_view(bands: Seq<BandInfo>) -> Seq<BandModel> {
    bands.map_values(|b: BandInfo| b@)
}

/// Whether a frequency lies within a band, edges included.
pub open spec fn in_band(freq: u64, band: BandModel) -> bool {
    band.min <= freq && freq <= band.max
}

/// Whether a frequency lies within one of the bands of a list.
pub open spec fn in_some_band(freq: u64, bands: Seq<BandModel>) -> bool {
    exists|i: int| 0 <= i < bands.len() && in_band(freq, #[trigger] bands[i])
}

/// Whether a frequency lies within one of the bands that have a button.
pub open spec fn has_band_button(freq: u64) -> bool {
    in_some_band(freq, amateur_band_table()) || in_some_band(freq, cb_band_table())
        || in_some_band(freq, pirate_band_table())
}

/// The tuning step one notch coarser, when the step is one of 1 Hz to
/// 100 kHz; any other step stays.
pub open spec fn coarser(step: u64) -> u64 {
    if step == 1 {
        10
    } else if step == 10 {
        100
    } else if step == 100 {
        1_000
    } else if step == 1_000 {
        10_000
    } else if step == 10_000 {
        100_000
    } else if step == 100_000 {
        1_000_000
    } else {
        step
    }
}

/// The tuning step one notch finer, when the step is one of 10 Hz to 1 MHz;
/// any other step stays.
pub open spec fn finer(step: u64) -> u64 {
    if step == 10 {
        1
    } else if step == 100 {
        10
    } else if step == 1_000 {
        100
    } else if step == 10_000 {
        1_000
    } else if step == 100_000 {
        10_000
    } else if step == 1_000_000 {
        100_000
    } else {
        step
    }
}

/// Ten to the power `n`.
pub open spec fn pow10(n: nat) -> nat
    decreases n,
{
    if n == 0 { 1 } else { 10 * pow10((n - 1) as nat) }
}

/// The label of a tuning step.
pub open spec fn step_label_of(step: u64) -> Seq<char> {
    if step == 1 {
        "1 Hz"@
    } else if step == 10 {
        "10 Hz"@
    } else if step == 100 {
        "100 Hz"@
    } else if step == 1_000 {
        "1 kHz"@
    } else if step == 10_000 {
        "10 kHz"@
    } else if step == 100_000 {
        "100 kHz"@
    } else if step == 1_000_000 {
        "1 MHz"@
    } else {
        "Custom"@
    }
}

/// The frequency `ticks` knob notches away, each of one tuning step, as the
/// panel computes it in 64-bit signed arithmetic.
pub open spec fn ticks_target(s: RadioState, ticks: i64) -> int {
    (s.frequency as i64) + ticks * (s.vfo_step as i64)
}


/// The amateur bands, 160 m to 6 m, with the frequency and mode a band
/// button tunes to.
pub open spec fn amateur_band_table() -> Seq<BandModel> {
    Seq::empty()
        .push(BandModel { name: "160m"@, min: 1_800_000, max: 2_000_000, default_freq: 1_840_000, default_mode: RadioMode::Lsb })
        .push(BandModel { name: "80m"@, min: 3_500_000, max: 3_800_000, default_freq: 3_650_000, default_mode: RadioMode::Lsb })
        .push(BandModel { name: "40m"@, min: 7_000_000, max: 7_200_000, default_freq: 7_100_000, default_mode: RadioMode::Lsb })
        .push(BandModel { name: "30m"@, min: 10_100_000, max: 10_150_000, default_freq: 10_100_000, default_mode: RadioMode::Cw })
        .push(BandModel { name: "20m"@, min: 14_000_000, max: 14_350_000, default_freq: 14_200_000, default_mode: RadioMode::Usb })
        .push(BandModel { name: "17m"@, min: 18_068_000, max: 18_168_000, default_freq: 18_100_000, default_mode: RadioMode::Usb })
        .push(BandModel { name: "15m"@, min: 21_000_000, max: 21_450_000, default_freq: 21_200_000, default_mode: RadioMode::Usb })
        .push(BandModel { name: "12m"@, min: 24_890_000, max: 24_990_000, default_freq: 24_900_000, default_mode: RadioMode::Usb })
        .push(BandModel { name: "10m"@, min: 28_000_000, max: 29_700_000, default_freq: 28_500_000, default_mode: RadioMode::Usb })
        .push(BandModel { name: "6m"@, min: 50_000_000, max: 52_000_000, default_freq: 50_100_000, default_mode: RadioMode::Usb })
}

/// The CB and SSTV channels of the 11 m band.
pub open spec fn cb_band_table() -> Seq<BandModel> {
    Seq::empty()
        .push(BandModel { name: "CB C19"@, min: 26_960_000, max: 27_410_000, default_freq: 27_185_000, default_mode: RadioMode::Am })
        .push(BandModel { name: "SSTV"@, min: 27_650_000, max: 27_750_000, default_freq: 27_700_000, default_mode: RadioMode::Usb })
}

/// The free-radio bands: 11 m DX, 45 m and 88 m.
pub open spec fn pirate_band_table() -> Seq<BandModel> {
    Seq::empty()
        .push(BandModel { name: "11m DX"@, min: 27_553_000, max: 27_557_000, default_freq: 27_555_000, default_mode: RadioMode::Usb })
        .push(BandModel { name: "45m"@, min: 6_500_000, max: 6_700_000, default_freq: 6_660_000, default_mode: RadioMode::Lsb })
        .push(BandModel { name: "88m"@, min: 3_200_000, max: 3_500_000, default_freq: 3_420_000, default_mode: RadioMode::Lsb })
}

/// The amateur bands, 160 m to 6 m, with the frequency and mode a band
/// button tunes to.
pub fn amateur_bands() -> (bands: Vec<BandInfo>)
    ensures
        bands_view(bands@) == amateur_band_table(),
{
    let mut bands: Vec<BandInfo> = Vec::new();
    bands.push(BandInfo { name: "160m", min: 1_800_000, max: 2_000_000, default_freq: 1_840_000, default_mode: RadioMode::Lsb });
    bands.push(BandInfo { name: "80m", min: 3_500_000, max: 3_800_000, default_freq: 3_650_000, default_mode: RadioMode::Lsb });
    bands.push(BandInfo { name: "40m", min: 7_000_000, max: 7_200_000, default_freq: 7_100_000, default_mode: RadioMode::Lsb });
    bands.push(BandInfo { name: "30m", min: 10_100_000, max: 10_150_000, default_freq: 10_100_000, default_mode: RadioMode::Cw });
    bands.push(BandInfo { name: "20m", min: 14_000_000, max: 14_350_000, default_freq: 14_200_000, default_mode: RadioMode::Usb });
    bands.push(BandInfo { name: "17m", min: 18_068_000, max: 18_168_000, default_freq: 18_100_000, default_mode: RadioMode::Usb });
    bands.push(BandInfo { name: "15m", min: 21_000_000, max: 21_450_000, default_freq: 21_200_000, default_mode: RadioMode::Usb });
    bands.push(BandInfo { name: "12m", min: 24_890_000, max: 24_990_000, default_freq: 24_900_000, default_mode: RadioMode::Usb });
    bands.push(BandInfo { name: "10m", min: 28_000_000, max: 29_700_000, default_freq: 28_500_000, default_mode: RadioMode::Usb });
    bands.push(BandInfo { name: "6m", min: 50_000_000, max: 52_000_000, default_freq: 50_100_000, default_mode: RadioMode::Usb });
    assert(bands_view(bands@) =~= amateur_band_table());
    bands
}

/// The CB and SSTV channels of the 11 m band.
pub fn cb_bands() -> (bands: Vec<BandInfo>)
    ensures
        bands_view(bands@) == cb_band_table(),
{
    let mut bands: Vec<BandInfo> = Vec::new();
    bands.push(BandInfo { name: "CB C19", min: 26_960_000, max: 27_410_000, default_freq: 27_185_000, default_mode: RadioMode::Am });
    bands.push(BandInfo { name: "SSTV", min: 27_650_000, max: 27_750_000, default_freq: 27_700_000, default_mode: RadioMode::Usb });
    assert(bands_view(bands@) =~= cb_band_table());
    bands
}

/// The free-radio bands: 11 m DX, 45 m and 88 m.
pub fn pirate_bands() -> (bands: Vec<BandInfo>)
    ensures
        bands_view(bands@) == pirate_band_table(),
{
    let mut bands: Vec<BandInfo> = Vec::new();
    bands.push(BandInfo { name: "11m DX", min: 27_553_000, max: 27_557_000, default_freq: 27_555_000, default_mode: RadioMode::Usb });
    bands.push(BandInfo { name: "45m", min: 6_500_000, max: 6_700_000, default_freq: 6_660_000, default_mode: RadioMode::Lsb });
    bands.push(BandInfo { name: "88m", min: 3_200_000, max: 3_500_000, default_freq: 3_420_000, default_mode: RadioMode::Lsb });
    assert(bands_view(bands@) =~= pirate_band_table());
    bands
}

/// Whether a frequency lies within one of the bands of a list.
fn any_band_holds(freq: u64, bands: &Vec<BandInfo>) -> (b: bool)
    ensures
        b == in_some_band(freq, bands_view(bands@)),
{
    let mut i: usize = 0;
    while i < bands.len()
        invariant
            i <= bands@.len(),
            forall|j: int| 0 <= j < i ==> !in_band(freq, #[trigger] bands_view(bands@)[j]),
        decreases bands@.len() - i,
    {
        if bands[i].min <= freq && freq <= bands[i].max {
            assert(in_band(freq, bands_view(bands@)[i as int]));
            return true;
        }
        i = i + 1;
    }
    false
}

/// The label of a tuning step ("1 Hz" to "1 MHz", "Custom" for another).
pub fn step_label(step: u64) -> (label: &'static str)
    ensures
        label@ == step_label_of(step),
{
    match step {
        1 => "1 Hz",
        10 => "10 Hz",
        100 => "100 Hz",
        1_000 => "1 kHz",
        10_000 => "10 kHz",
        100_000 => "100 kHz",
        1_000_000 => "1 MHz",
        _ => "Custom",
    }
}

impl RadioState {
    /// Whether the working frequency lies within a band, edges included.
    pub fn is_freq_in_band(&self, band: &BandInfo) -> (b: bool)
        ensures
            b == in_band(self.frequency, band@),
    {
        self.frequency >= band.min && self.frequency <= band.max
    }

    /// Whether the working frequency lies within one of the bands that have
    /// a button.
    pub fn has_any_active_band(&self) -> (b: bool)
        ensures
            b == has_band_button(self.frequency),
    {
        let amateur = amateur_bands();
        let cb = cb_bands();
        let pirate = pirate_bands();
        any_band_holds(self.frequency, &amateur) || any_band_holds(self.frequency, &cb)
            || any_band_holds(self.frequency, &pirate)
    }

    /// Makes the tuning step one notch coarser (right arrow key).
    pub fn select_coarser_step(&mut self)
        ensures
            *final(self) == (RadioState { vfo_step: coarser(old(self).vfo_step), ..*old(self) }),
    {
        let step = self.vfo_step;
        self.vfo_step = if step == 1 {
            10
        } else if step == 10 {
            100
        } else if step == 100 {
            1_000
        } else if step == 1_000 {
            10_000
        } else if step == 10_000 {
            100_000
        } else if step == 100_000 {
            1_000_000
        } else {
            step
        };
    }

    /// Makes the tuning step one notch finer (left arrow key).
    pub fn select_finer_step(&mut self)
        ensures
            *final(self) == (RadioState { vfo_step: finer(old(self).vfo_step), ..*old(self) }),
    {
        let step = self.vfo_step;
        self.vfo_step = if step == 10 {
            1
        } else if step == 100 {
            10
        } else if step == 1_000 {
            100
        } else if step == 10_000 {
            1_000
        } else if step == 100_000 {
            10_000
        } else if step == 1_000_000 {
            100_000
        } else {
            step
        };
    }

    /// Sets the tuning step from a click on a digit of the eight-digit
    /// frequency display: the digit's own weight, 10 MHz for the first
    /// digit down to 1 Hz for the last.
    pub fn select_step_digit(&mut self, digit: usize)
        requires
            digit < 8,
        ensures
            *final(self) == (RadioState { vfo_step: pow10((7 - digit) as nat) as u64, ..*old(self) }),
    {
        let mut step: u64 = 1;
        let mut k: usize = 0;
        while k < 7 - digit
            invariant
                digit < 8,
                k <= 7 - digit,
                step == pow10(k as nat),
                step <= 10_000_000,
            decreases 7 - digit - k,
        {
            assert(pow10((k + 1) as nat) == 10 * pow10(k as nat));
            proof {
                if k + 1 <= 7 - digit {
                    lemma_pow10_bound((k + 1) as nat);
                }
            }
            step = step * 10;
            k = k + 1;
        }
        self.vfo_step = step;
    }

    /// Tunes by `ticks` knob notches (negative ones tune down), each of one
    /// tuning step, then clamps into the tuning range as a typed frequency is.
    pub fn tune_steps(&mut self, ticks: i64, now_ms: u64) -> (r: Reaction)
        requires
            i64::MIN <= ticks * (old(self).vfo_step as i64) <= i64::MAX,
            i64::MIN <= ticks_target(*old(self), ticks) <= i64::MAX,
        ensures
            *final(self) == after_set_frequency(*old(self), ticks_target(*old(self), ticks) as i64, now_ms),
            r.refresh_stations == (clamp_freq(ticks_target(*old(self), ticks) as i64) != old(self).frequency),
            r.commands@ == if clamp_freq(ticks_target(*old(self), ticks) as i64) != old(self).frequency {
                when_connected(*old(self), seq![Command::SetFrequency(clamp_freq(ticks_target(*old(self), ticks) as i64))])
            } else {
                seq![]
            },
    {
        let step = self.vfo_step as i64;
        let offset: i64 = ticks * step;
        let target: i64 = self.frequency as i64 + offset;
        self.set_frequency_from_i64(target, now_ms)
    }
}

/// Ten to the power `n` is at most ten million for `n` up to seven.
proof fn lemma_pow10_bound(n: nat)
    requires
        n <= 7,
    ensures
        pow10(n) <= 10_000_000,
    decreases 7 - n,
{
    if n < 7 {
        lemma_pow10_bound(n + 1);
        assert(pow10(n + 1) == 10 * pow10(n));
    } else {
        reveal_with_fuel(pow10, 8);
    }
}

/// Whether a band is one of those that have a button.
pub open spec fn is_band_button(b: BandModel) -> bool {
    amateur_band_table().contains(b) || cb_band_table().contains(b) || pirate_band_table().contains(b)
}

/// Every band button tunes to a frequency within its band and within the
/// panel's tuning range.
pub proof fn lemma_band_defaults_within(b: BandModel)
    requires
        is_band_button(b),
    ensures
        in_band(b.default_freq, b),
        MIN_FREQ <= b.default_freq <= MAX_FREQ,
{
    if amateur_band_table().contains(b) {
        let i = choose|i: int| 0 <= i < amateur_band_table().len() && amateur_band_table()[i] == b;
        assert(0 <= i < 10);
    } else if cb_band_table().contains(b) {
        let i = choose|i: int| 0 <= i < cb_band_table().len() && cb_band_table()[i] == b;
        assert(0 <= i < 2);
    } else {
        let i = choose|i: int| 0 <= i < pirate_band_table().len() && pirate_band_table()[i] == b;
        assert(0 <= i < 3);
    }
}

/// Pressing a band button tunes into that band, in the band's mode, and the
/// band then shows as active.
pub proof fn lemma_band_button_selects_band(s: RadioState, b: BandModel, now: u64)
    requires
        is_band_button(b),
    ensures
        ({
            let t = after_mode(after_set_frequency(s, b.default_freq as i64, now), b.default_mode, now);
            &&& t.frequency == b.default_freq
            &&& t.mode == b.default_mode
            &&& in_band(t.frequency, b)
            &&& has_band_button(t.frequency)
        }),
{
    lemma_band_defaults_within(b);
    if amateur_band_table().contains(b) {
        let i = choose|i: int| 0 <= i < amateur_band_table().len() && amateur_band_table()[i] == b;
        assert(in_band(b.default_freq, amateur_band_table()[i]));
    } else if cb_band_table().contains(b) {
        let i = choose|i: int| 0 <= i < cb_band_table().len() && cb_band_table()[i] == b;
        assert(in_band(b.default_freq, cb_band_table()[i]));
    } else {
        let i = choose|i: int| 0 <= i < pirate_band_table().len() && pirate_band_table()[i] == b;
        assert(in_band(b.default_freq, pirate_band_table()[i]));
    }
}

/// Whether a step is one of the tuning steps the arrow keys walk through,
/// 1 Hz to 1 MHz.
pub open spec fn is_tuning_step(step: u64) -> bool {
    step == 1 || step == 10 || step == 100 || step == 1_000 || step == 10_000 || step == 100_000
        || step == 1_000_000
}

/// The arrow keys walk the tuning steps from 1 Hz to 1 MHz: each step stays
/// among them, and one notch finer undoes one notch coarser (and the other
/// way round) below the coarsest (above the finest) step.
pub proof fn lemma_step_keys_walk_the_steps(step: u64)
    ensures
        is_tuning_step(step) ==> is_tuning_step(coarser(step)) && is_tuning_step(finer(step)),
        is_tuning_step(step) && step != 1_000_000 ==> finer(coarser(step)) == step,
        is_tuning_step(step) && step != 1 ==> coarser(finer(step)) == step,
        !is_tuning_step(step) ==> coarser(step) == step && finer(step) == step,
{
}

} // verus!
