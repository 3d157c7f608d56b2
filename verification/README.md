# ic7300_cat

A control panel for the Icom IC-7300 transceiver over its CI-V (CAT) serial
link, with a CAT proxy for other programs, a memory bank, the EiBi broadcast
schedule, a band scope waterfall and an automatic caller.

The logic lives in a library verified with Verus:

- `src/bcd.rs`, `src/civ.rs`, `src/decode.rs`: the CI-V encodings, frames and
  the decoding of what the transceiver reports.
- `src/link.rs`: the serial link as a state machine (commands to frames, the
  poll schedule, the watchdog, framing of received bytes).
- `src/proxy.rs`: the virtual transceiver answering another program.
- `src/station.rs`, `src/bands.rs`, `src/keyer.rs`: the panel's view of the
  transceiver and what each action or report changes and sends.
- `src/settings.rs`, `src/records.rs`, `src/memories.rs`, `src/text.rs`: saved
  settings, database rows, CSV backups, the memory lists and text helpers.
- `src/waterfall.rs`: the sweep history of the waterfall and its file form.

`app/` is the program around it: the window, the serial and network I/O, the
SQLite database and the sound card. `tests/` exercises the library.
