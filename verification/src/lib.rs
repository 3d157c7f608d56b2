//! CI-V control library for the Icom IC-7300 transceiver: BCD codecs, frame
//! building and decoding, the serial link and CAT proxy state machines, the
//! CSV and database records, and the state kept by the control panel (VFOs,
//! bands and tuning steps, saved settings, memory lists, the automatic
//! caller and the waterfall history).

pub mod bcd;
pub mod civ;
pub mod decode;
pub mod link;
pub mod proxy;
pub mod text;
pub mod records;
pub mod station;
pub mod settings;
pub mod keyer;
pub mod bands;
pub mod waterfall;
pub mod memories;
