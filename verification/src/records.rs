//! The records the panel keeps in its database (memories, settings, EiBi
//! broadcast schedule) and their CSV backups: what is stored for a record,
//! what is read back from a stored row, and the CSV lines written and read.

use vstd::prelude::*;
use crate::civ::RadioMode;
use crate::text::{
    chars_of, csv_fields, csv_line, csv_line_of, decimal, lemma_csv_roundtrip, lemma_decimal_parses,
    split_chars, split_on, trim_chars, trimmed, decimal_string,
    parse_i32_chars, parse_signed, parse_unsigned, parse_unsigned_chars, string_from_chars,
    strings_view,
};

verus! {

/// A frequency memory.
#[derive(Clone, Debug)]
pub struct DbMemoryEntry {
    pub id: i32,
    pub category: String,
    pub name: String,
    pub frequency: u64,
    pub mode: RadioMode,
    pub is_data: bool,
    pub filter: u8,
    pub preamp: u8,
}

/// The value of a memory.
pub struct MemoryModel {
    pub id: i32,
    pub category: Seq<char>,
    pub name: Seq<char>,
    pub frequency: u64,
    pub mode: RadioMode,
    pub is_data: bool,
    pub filter: u8,
    pub preamp: u8,
}

impl View for DbMemoryEntry {
    type V = MemoryModel;

    open spec fn view(&self) -> MemoryModel {
        MemoryModel {
            id: self.id,
            category: self.category@,
            name: self.name@,
            frequency: self.frequency,
            mode: self.mode,
            is_data: self.is_data,
            filter: self.filter,
            preamp: self.preamp,
        }
    }
}

/// An entry of the EiBi broadcast schedule.
#[derive(Clone, Debug)]
pub struct EibiEntry {
    pub frequency: u64,
    pub station: String,
    pub time: String,
    pub language: String,
    pub target: String,
}

/// The value of an EiBi entry.
pub struct EibiModel {
    pub frequency: u64,
    pub station: Seq<char>,
    pub time: Seq<char>,
    pub language: Seq<char>,
    pub target: Seq<char>,
}

impl View for EibiEntry {
    type V = EibiModel;

    open spec fn view(&self) -> EibiModel {
        EibiModel {
            frequency: self.frequency,
            station: self.station@,
            time: self.time@,
            language: self.language@,
            target: self.target@,
        }
    }
}

/// The name under which a mode is stored ("LSB", "USB", "AM", "CW", "FM").
pub open spec fn mode_name_of(mode: RadioMode) -> Seq<char> {
    match mode {
        RadioMode::Lsb => seq!['L', 'S', 'B'],
        RadioMode::Usb => seq!['U', 'S', 'B'],
        RadioMode::Am => seq!['A', 'M'],
        RadioMode::Cw => seq!['C', 'W'],
        RadioMode::Fm => seq!['F', 'M'],
    }
}

/// The mode a stored name stands for, `default` for an unknown name.
pub open spec fn mode_named(name: Seq<char>, default: RadioMode) -> RadioMode {
    if name == mode_name_of(RadioMode::Lsb) {
        RadioMode::Lsb
    } else if name == mode_name_of(RadioMode::Usb) {
        RadioMode::Usb
    } else if name == mode_name_of(RadioMode::Am) {
        RadioMode::Am
    } else if name == mode_name_of(RadioMode::Cw) {
        RadioMode::Cw
    } else if name == mode_name_of(RadioMode::Fm) {
        RadioMode::Fm
    } else {
        default
    }
}

/// Every stored mode name names back its mode.
pub proof fn lemma_mode_name_roundtrip(mode: RadioMode, default: RadioMode)
    ensures
        mode_named(mode_name_of(mode), default) == mode,
{
    assert(seq!['L', 'S', 'B'] != seq!['U', 'S', 'B']) by {
        assert(seq!['L', 'S', 'B'][0] != seq!['U', 'S', 'B'][0]);
    }
    assert(seq!['A', 'M'] != seq!['L', 'S', 'B']) by {
        assert(seq!['A', 'M'].len() != seq!['L', 'S', 'B'].len());
    }
    assert(seq!['A', 'M'] != seq!['U', 'S', 'B']) by {
        assert(seq!['A', 'M'].len() != seq!['U', 'S', 'B'].len());
    }
    assert(seq!['C', 'W'] != seq!['L', 'S', 'B']) by {
        assert(seq!['C', 'W'].len() != seq!['L', 'S', 'B'].len());
    }
    assert(seq!['C', 'W'] != seq!['U', 'S', 'B']) by {
        assert(seq!['C', 'W'].len() != seq!['U', 'S', 'B'].len());
    }
    assert(seq!['C', 'W'] != seq!['A', 'M']) by {
        assert(seq!['C', 'W'][0] != seq!['A', 'M'][0]);
    }
    assert(seq!['F', 'M'] != seq!['L', 'S', 'B']) by {
        assert(seq!['F', 'M'].len() != seq!['L', 'S', 'B'].len());
    }
    assert(seq!['F', 'M'] != seq!['U', 'S', 'B']) by {
        assert(seq!['F', 'M'].len() != seq!['U', 'S', 'B'].len());
    }
    assert(seq!['F', 'M'] != seq!['A', 'M']) by {
        assert(seq!['F', 'M'][0] != seq!['A', 'M'][0]);
    }
    assert(seq!['F', 'M'] != seq!['C', 'W']) by {
        assert(seq!['F', 'M'][0] != seq!['C', 'W'][0]);
    }
}

/// Whether two character sequences are equal.
pub fn chars_equal(a: &[char], b: &[char]) -> (eq: bool)
    ensures
        eq == (a@ == b@),
{
    if a.len() != b.len() {
        return false;
    }
    let mut i: usize = 0;
    while i < a.len()
        invariant
            i <= a@.len(),
            a@.len() == b@.len(),
            forall|k: int| 0 <= k < i ==> a@[k] == b@[k],
        decreases a@.len() - i,
    {
        if a[i] != b[i] {
            return false;
        }
        i = i + 1;
    }
    assert(a@ =~= b@);
    true
}

/// The name under which a mode is stored.
pub fn mode_name(mode: RadioMode) -> (name: String)
    ensures
        name@ == mode_name_of(mode),
{
    match mode {
        RadioMode::Lsb => {
            let c = ['L', 'S', 'B'];
            assert(c@ =~= mode_name_of(mode));
            string_from_chars(c.as_slice())
        },
        RadioMode::Usb => {
            let c = ['U', 'S', 'B'];
            assert(c@ =~= mode_name_of(mode));
            string_from_chars(c.as_slice())
        },
        RadioMode::Am => {
            let c = ['A', 'M'];
            assert(c@ =~= mode_name_of(mode));
            string_from_chars(c.as_slice())
        },
        RadioMode::Cw => {
            let c = ['C', 'W'];
            assert(c@ =~= mode_name_of(mode));
            string_from_chars(c.as_slice())
        },
        RadioMode::Fm => {
            let c = ['F', 'M'];
            assert(c@ =~= mode_name_of(mode));
            string_from_chars(c.as_slice())
        },
    }
}

/// The mode a stored name stands for, `default` for an unknown name.
pub fn mode_from_name(name: &str, default: RadioMode) -> (mode: RadioMode)
    ensures
        mode == mode_named(name@, default),
{
    let c = chars_of(name);
    let lsb = ['L', 'S', 'B'];
    let usb = ['U', 'S', 'B'];
    let am = ['A', 'M'];
    let cw = ['C', 'W'];
    let fm = ['F', 'M'];
    assert(lsb@ =~= mode_name_of(RadioMode::Lsb));
    assert(usb@ =~= mode_name_of(RadioMode::Usb));
    assert(am@ =~= mode_name_of(RadioMode::Am));
    assert(cw@ =~= mode_name_of(RadioMode::Cw));
    assert(fm@ =~= mode_name_of(RadioMode::Fm));
    if chars_equal(c.as_slice(), lsb.as_slice()) {
        RadioMode::Lsb
    } else if chars_equal(c.as_slice(), usb.as_slice()) {
        RadioMode::Usb
    } else if chars_equal(c.as_slice(), am.as_slice()) {
        RadioMode::Am
    } else if chars_equal(c.as_slice(), cw.as_slice()) {
        RadioMode::Cw
    } else if chars_equal(c.as_slice(), fm.as_slice()) {
        RadioMode::Fm
    } else {
        default
    }
}

/// A memory as the database stores it: the mode by its name and the DATA
/// flag as an integer (1 for on).
pub struct MemoryRecord {
    pub category: String,
    pub name: String,
    pub frequency: u64,
    pub mode: String,
    pub is_data: i32,
    pub filter: u8,
    pub preamp: u8,
}

/// The value of a stored memory.
pub struct RecordModel {
    pub category: Seq<char>,
    pub name: Seq<char>,
    pub frequency: u64,
    pub mode: Seq<char>,
    pub is_data: i32,
    pub filter: u8,
    pub preamp: u8,
}

impl View for MemoryRecord {
    type V = RecordModel;

    open spec fn view(&self) -> RecordModel {
        RecordModel {
            category: self.category@,
            name: self.name@,
            frequency: self.frequency,
            mode: self.mode@,
            is_data: self.is_data,
            filter: self.filter,
            preamp: self.preamp,
        }
    }
}

/// What the database stores for a memory added or updated from the editor.
pub open spec fn record_of(
    category: Seq<char>,
    name: Seq<char>,
    frequency: u64,
    mode: RadioMode,
    is_data: bool,
    filter: u8,
    preamp: u8,
) -> RecordModel {
    RecordModel {
        category,
        name,
        frequency,
        mode: mode_name_of(mode),
        is_data: if is_data { 1 } else { 0 },
        filter,
        preamp,
    }
}

/// The record stored when a memory is added or updated.
pub fn memory_record(
    category: &str,
    name: &str,
    frequency: u64,
    mode: RadioMode,
    is_data: bool,
    filter: u8,
    preamp: u8,
) -> (rec: MemoryRecord)
    ensures
        rec@ == record_of(category@, name@, frequency, mode, is_data, filter, preamp),
{
    let c = chars_of(category);
    let n = chars_of(name);
    MemoryRecord {
        category: string_from_chars(c.as_slice()),
        name: string_from_chars(n.as_slice()),
        frequency,
        mode: mode_name(mode),
        is_data: if is_data { 1 } else { 0 },
        filter,
        preamp,
    }
}

/// The columns of a stored memory row, each as read from the database (`None`
/// when the column could not be read as that type).
pub struct MemoryRow {
    pub id: Option<i32>,
    pub category: Option<String>,
    pub name: Option<String>,
    pub frequency: Option<u64>,
    pub mode: Option<String>,
    pub is_data: Option<i32>,
    pub filter: Option<u8>,
    pub preamp: Option<u8>,
}

/// The characters of an optional string.
pub open spec fn opt_chars(s: Option<String>) -> Option<Seq<char>> {
    match s {
        Some(s) => Some(s@),
        None => None,
    }
}

/// The memory a stored row stands for: none when the id, category, name,
/// frequency or mode cannot be read; an unknown mode name reads as AM; an
/// unreadable DATA flag, filter or preamp reads as 0, 1 and 0.
pub open spec fn memory_of_row(row: MemoryRow) -> Option<MemoryModel> {
    if row.id is Some && row.category is Some && row.name is Some && row.frequency is Some
        && row.mode is Some {
        Some(
            MemoryModel {
                id: row.id->0,
                category: row.category->0@,
                name: row.name->0@,
                frequency: row.frequency->0,
                mode: mode_named(row.mode->0@, RadioMode::Am),
                is_data: (match row.is_data {
                    Some(v) => v,
                    None => 0,
                }) == 1,
                filter: match row.filter {
                    Some(v) => v,
                    None => 1,
                },
                preamp: match row.preamp {
                    Some(v) => v,
                    None => 0,
                },
            },
        )
    } else {
        None
    }
}

/// The memories that stored rows stand for, in order, skipping unreadable rows.
pub open spec fn memories_of_rows(rows: Seq<MemoryRow>) -> Seq<MemoryModel>
    decreases rows.len(),
{
    if rows.len() == 0 {
        seq![]
    } else {
        memories_of_rows(rows.drop_last()) + match memory_of_row(rows.last()) {
            Some(m) => seq![m],
            None => seq![],
        }
    }
}

/// The memory a stored row stands for.
pub fn memory_from_row(row: MemoryRow) -> (entry: Option<DbMemoryEntry>)
    ensures
        match entry {
            Some(e) => memory_of_row(row) == Some(e@),
            None => memory_of_row(row) is None,
        },
{
    match (row.id, row.category, row.name, row.frequency, row.mode) {
        (Some(id), Some(category), Some(name), Some(frequency), Some(mode_str)) => {
            let mode = mode_from_name(mode_str.as_str(), RadioMode::Am);
            let is_data_val: i32 = match row.is_data {
                Some(v) => v,
                None => 0,
            };
            let filter: u8 = match row.filter {
                Some(v) => v,
                None => 1,
            };
            let preamp: u8 = match row.preamp {
                Some(v) => v,
                None => 0,
            };
            Some(DbMemoryEntry { id, category, name, frequency, mode, is_data: is_data_val == 1, filter, preamp })
        },
        _ => None,
    }
}

/// The memories read back from the database rows, in their stored order;
/// rows that cannot be read are skipped.
pub fn db_reload_memories(rows: Vec<MemoryRow>) -> (entries: Vec<DbMemoryEntry>)
    ensures
        entries@.map_values(|e: DbMemoryEntry| e@) == memories_of_rows(rows@),
{
    let mut entries: Vec<DbMemoryEntry> = Vec::new();
    let mut rows = rows;
    let ghost all = rows@;
    let n = rows.len();
    let mut i: usize = 0;
    assert(all.take(0) =~= Seq::<MemoryRow>::empty());
    assert(all.skip(0) =~= all);
    while i < n
        invariant
            n == all.len(),
            i <= n,
            rows@ == all.skip(i as int),
            entries@.map_values(|e: DbMemoryEntry| e@) == memories_of_rows(all.take(i as int)),
        decreases n - i,
    {
        let row = rows.remove(0);
        assert(row == all[i as int]);
        let ghost prev = entries@.map_values(|e: DbMemoryEntry| e@);
        match memory_from_row(row) {
            Some(e) => {
                entries.push(e);
            },
            None => {},
        }
        assert(all.take(i + 1).drop_last() =~= all.take(i as int));
        assert(entries@.map_values(|e: DbMemoryEntry| e@) =~= memories_of_rows(all.take(i + 1)));
        i = i + 1;
        assert(rows@ =~= all.skip(i as int));
    }
    assert(all.take(n as int) =~= all);
    entries
}

/// A stored memory reads back as the memory that was stored, under the id the
/// database gave it: what the editor writes, the list shows.
pub proof fn lemma_stored_memory_reads_back(
    row: MemoryRow,
    id: i32,
    category: Seq<char>,
    name: Seq<char>,
    frequency: u64,
    mode: RadioMode,
    is_data: bool,
    filter: u8,
    preamp: u8,
)
    requires
        row.id == Some(id),
        opt_chars(row.category) == Some(category),
        opt_chars(row.name) == Some(name),
        row.frequency == Some(frequency),
        opt_chars(row.mode) == Some(record_of(category, name, frequency, mode, is_data, filter, preamp).mode),
        row.is_data == Some(record_of(category, name, frequency, mode, is_data, filter, preamp).is_data),
        row.filter == Some(filter),
        row.preamp == Some(preamp),
    ensures
        memory_of_row(row) == Some(
            MemoryModel { id, category, name, frequency, mode, is_data, filter, preamp },
        ),
{
    lemma_mode_name_roundtrip(mode, RadioMode::Am);
}

/// The decimal writing of a flag: "1" or "0".
pub open spec fn flag_text(b: bool) -> Seq<char> {
    if b { seq!['1'] } else { seq!['0'] }
}

/// The fields of a memory's line in the memories CSV backup.
pub open spec fn memory_csv_fields(m: MemoryModel) -> Seq<Seq<char>> {
    seq![
        m.category,
        m.name,
        decimal(m.frequency as nat),
        mode_name_of(m.mode),
        flag_text(m.is_data),
        decimal(m.filter as nat),
        decimal(m.preamp as nat),
    ]
}

/// The line of a memory in the memories CSV backup.
pub fn memory_csv_line(m: &DbMemoryEntry) -> (line: String)
    ensures
        line@ == csv_line_of(memory_csv_fields(m@)),
{
    let mut fields: Vec<String> = Vec::new();
    fields.push(m.category.clone());
    fields.push(m.name.clone());
    fields.push(decimal_string(m.frequency));
    fields.push(mode_name(m.mode));
    let flag = if m.is_data { ['1'] } else { ['0'] };
    assert(flag@ =~= flag_text(m.is_data));
    fields.push(string_from_chars(flag.as_slice()));
    fields.push(decimal_string(m.filter as u64));
    fields.push(decimal_string(m.preamp as u64));
    assert(strings_view(fields@) =~= memory_csv_fields(m@));
    csv_line(fields.as_slice())
}

/// A parsed value, or a default when the text is not a number.
pub open spec fn or_default(v: Option<nat>, default: nat) -> nat {
    match v {
        Some(x) => x,
        None => default,
    }
}

/// A parsed signed value, or 0 when the text is not a number.
pub open spec fn signed_or_zero(v: Option<int>) -> int {
    match v {
        Some(x) => x,
        None => 0,
    }
}

/// The record the memories CSV import stores for a line's fields: none below
/// four fields; an unreadable frequency or DATA flag counts as 0, a missing or
/// unreadable filter as 1 and preamp as 0.
pub open spec fn record_of_csv(f: Seq<Seq<char>>) -> Option<RecordModel> {
    if f.len() < 4 {
        None
    } else {
        Some(
            RecordModel {
                category: f[0],
                name: f[1],
                frequency: or_default(parse_unsigned(f[2], u64::MAX as nat), 0) as u64,
                mode: f[3],
                is_data: if f.len() >= 5 {
                    signed_or_zero(parse_signed(f[4], 0x7FFF_FFFF)) as i32
                } else {
                    0
                },
                filter: if f.len() >= 6 {
                    or_default(parse_unsigned(f[5], 255), 1) as u8
                } else {
                    1
                },
                preamp: if f.len() >= 7 {
                    or_default(parse_unsigned(f[6], 255), 0) as u8
                } else {
                    0
                },
            },
        )
    }
}

/// The record the memories CSV import stores for a line's fields.
pub fn memory_record_from_csv(fields: &[String]) -> (rec: Option<MemoryRecord>)
    ensures
        match rec {
            Some(r) => record_of_csv(strings_view(fields@)) == Some(r@),
            None => record_of_csv(strings_view(fields@)) is None,
        },
{
    if fields.len() < 4 {
        return None;
    }
    let ghost f = strings_view(fields@);
    let freq_chars = chars_of(fields[2].as_str());
    let frequency: u64 = match parse_unsigned_chars(freq_chars.as_slice(), u64::MAX) {
        Some(v) => v,
        None => 0,
    };
    let is_data: i32 = if fields.len() >= 5 {
        let c = chars_of(fields[4].as_str());
        match parse_i32_chars(c.as_slice()) {
            Some(v) => v,
            None => 0,
        }
    } else {
        0
    };
    let filter: u8 = if fields.len() >= 6 {
        let c = chars_of(fields[5].as_str());
        match parse_unsigned_chars(c.as_slice(), 255) {
            Some(v) => v as u8,
            None => 1,
        }
    } else {
        1
    };
    let preamp: u8 = if fields.len() >= 7 {
        let c = chars_of(fields[6].as_str());
        match parse_unsigned_chars(c.as_slice(), 255) {
            Some(v) => v as u8,
            None => 0,
        }
    } else {
        0
    };
    Some(MemoryRecord {
        category: fields[0].clone(),
        name: fields[1].clone(),
        frequency,
        mode: fields[3].clone(),
        is_data,
        filter,
        preamp,
    })
}

/// A memory written to the CSV backup and imported again is stored exactly as
/// the editor would store it: the backup loses nothing but the database id.
pub proof fn lemma_memory_csv_roundtrip(m: MemoryModel)
    ensures
        record_of_csv(csv_fields(csv_line_of(memory_csv_fields(m)))) == Some(
            record_of(m.category, m.name, m.frequency, m.mode, m.is_data, m.filter, m.preamp),
        ),
{
    let f = memory_csv_fields(m);
    lemma_csv_roundtrip(f);
    lemma_decimal_parses(m.frequency as nat, u64::MAX as nat);
    lemma_decimal_parses(m.filter as nat, 255);
    lemma_decimal_parses(m.preamp as nat, 255);
    lemma_decimal_parses(if m.is_data { 1 } else { 0 }, 0x7FFF_FFFF);
    assert(flag_text(m.is_data) == decimal(if m.is_data { 1nat } else { 0nat }));
}

/// The settings read back from the database rows, in order, skipping rows
/// whose key or value cannot be read.
pub open spec fn settings_of_rows(rows: Seq<(Option<String>, Option<String>)>) -> Seq<(Seq<char>, Seq<char>)>
    decreases rows.len(),
{
    if rows.len() == 0 {
        seq![]
    } else {
        settings_of_rows(rows.drop_last()) + match rows.last() {
            (Some(k), Some(v)) => seq![(k@, v@)],
            _ => seq![],
        }
    }
}

/// The characters of a list of settings.
pub open spec fn settings_view(s: Seq<(String, String)>) -> Seq<(Seq<char>, Seq<char>)> {
    s.map_values(|p: (String, String)| (p.0@, p.1@))
}

/// The settings read back from the database rows (key, value), skipping rows
/// that cannot be read.
pub fn db_load_settings(rows: Vec<(Option<String>, Option<String>)>) -> (settings: Vec<(String, String)>)
    ensures
        settings_view(settings@) == settings_of_rows(rows@),
{
    let mut settings: Vec<(String, String)> = Vec::new();
    let mut rows = rows;
    let ghost all = rows@;
    let n = rows.len();
    let mut i: usize = 0;
    assert(all.take(0) =~= Seq::<(Option<String>, Option<String>)>::empty());
    assert(all.skip(0) =~= all);
    while i < n
        invariant
            n == all.len(),
            i <= n,
            rows@ == all.skip(i as int),
            settings_view(settings@) == settings_of_rows(all.take(i as int)),
        decreases n - i,
    {
        let row = rows.remove(0);
        assert(row == all[i as int]);
        let ghost prev = settings_view(settings@);
        match row {
            (Some(k), Some(v)) => {
                settings.push((k, v));
            },
            _ => {},
        }
        assert(all.take(i + 1).drop_last() =~= all.take(i as int));
        assert(settings_view(settings@) =~= settings_of_rows(all.take(i + 1)));
        i = i + 1;
        assert(rows@ =~= all.skip(i as int));
    }
    assert(all.take(n as int) =~= all);
    settings
}

/// The value stored last under a key, as a map filled in order keeps it.
pub open spec fn setting_of(settings: Seq<(Seq<char>, Seq<char>)>, key: Seq<char>) -> Option<Seq<char>>
    decreases settings.len(),
{
    if settings.len() == 0 {
        None
    } else if settings.last().0 == key {
        Some(settings.last().1)
    } else {
        setting_of(settings.drop_last(), key)
    }
}

/// The value of a setting, if stored.
pub fn setting_value(settings: &[(String, String)], key: &str) -> (value: Option<String>)
    ensures
        match value {
            Some(v) => setting_of(settings_view(settings@), key@) == Some(v@),
            None => setting_of(settings_view(settings@), key@) is None,
        },
{
    let k = chars_of(key);
    let mut i: usize = settings.len();
    assert(settings@.take(i as int) =~= settings@);
    while i > 0
        invariant
            i <= settings@.len(),
            k@ == key@,
            setting_of(settings_view(settings@), key@) == setting_of(settings_view(settings@.take(i as int)), key@),
        decreases i,
    {
        let entry_key = chars_of(settings[i - 1].0.as_str());
        assert(settings_view(settings@.take(i as int)).last() == (settings@[i - 1].0@, settings@[i - 1].1@));
        if chars_equal(entry_key.as_slice(), k.as_slice()) {
            return Some(settings[i - 1].1.clone());
        }
        assert(settings_view(settings@.take(i as int)).drop_last() =~= settings_view(settings@.take(i - 1)));
        i = i - 1;
    }
    assert(settings_view(settings@.take(0)) =~= Seq::<(Seq<char>, Seq<char>)>::empty());
    None
}

/// The line of a setting in the settings CSV backup.
pub fn settings_csv_line(key: &str, value: &str) -> (line: String)
    ensures
        line@ == csv_line_of(seq![key@, value@]),
{
    let k = chars_of(key);
    let v = chars_of(value);
    let mut fields: Vec<String> = Vec::new();
    fields.push(string_from_chars(k.as_slice()));
    fields.push(string_from_chars(v.as_slice()));
    assert(strings_view(fields@) =~= seq![key@, value@]);
    csv_line(fields.as_slice())
}

/// The setting the settings CSV import stores for a line's fields: the first
/// two fields, none below two fields.
pub fn setting_from_csv(fields: &[String]) -> (setting: Option<(String, String)>)
    ensures
        match setting {
            Some((k, v)) => strings_view(fields@).len() >= 2 && k@ == strings_view(fields@)[0] && v@
                == strings_view(fields@)[1],
            None => strings_view(fields@).len() < 2,
        },
{
    if fields.len() < 2 {
        None
    } else {
        Some((fields[0].clone(), fields[1].clone()))
    }
}

/// A setting written to the CSV backup reads back as the same key and value.
pub proof fn lemma_setting_csv_roundtrip(key: Seq<char>, value: Seq<char>)
    ensures
        csv_fields(csv_line_of(seq![key, value])) == seq![key, value],
{
    lemma_csv_roundtrip(seq![key, value]);
}

/// The fields of an entry's line in the EiBi CSV backup.
pub open spec fn eibi_csv_fields(e: EibiModel) -> Seq<Seq<char>> {
    seq![decimal(e.frequency as nat), e.station, e.time, e.language, e.target]
}

/// The line of an entry in the EiBi CSV backup.
pub fn eibi_csv_line(e: &EibiEntry) -> (line: String)
    ensures
        line@ == csv_line_of(eibi_csv_fields(e@)),
{
    let mut fields: Vec<String> = Vec::new();
    fields.push(decimal_string(e.frequency));
    fields.push(e.station.clone());
    fields.push(e.time.clone());
    fields.push(e.language.clone());
    fields.push(e.target.clone());
    assert(strings_view(fields@) =~= eibi_csv_fields(e@));
    csv_line(fields.as_slice())
}

/// The entry the EiBi CSV import stores for a line's fields: none below five
/// fields; an unreadable frequency counts as 0.
pub open spec fn eibi_of_csv(f: Seq<Seq<char>>) -> Option<EibiModel> {
    if f.len() < 5 {
        None
    } else {
        Some(
            EibiModel {
                frequency: or_default(parse_unsigned(f[0], u64::MAX as nat), 0) as u64,
                station: f[1],
                time: f[2],
                language: f[3],
                target: f[4],
            },
        )
    }
}

/// The entry the EiBi CSV import stores for a line's fields.
pub fn eibi_from_csv(fields: &[String]) -> (entry: Option<EibiEntry>)
    ensures
        match entry {
            Some(e) => eibi_of_csv(strings_view(fields@)) == Some(e@),
            None => eibi_of_csv(strings_view(fields@)) is None,
        },
{
    if fields.len() < 5 {
        return None;
    }
    let freq_chars = chars_of(fields[0].as_str());
    let frequency: u64 = match parse_unsigned_chars(freq_chars.as_slice(), u64::MAX) {
        Some(v) => v,
        None => 0,
    };
    Some(EibiEntry {
        frequency,
        station: fields[1].clone(),
        time: fields[2].clone(),
        language: fields[3].clone(),
        target: fields[4].clone(),
    })
}

/// An EiBi entry written to the CSV backup and imported again is the same entry.
pub proof fn lemma_eibi_csv_roundtrip(e: EibiModel)
    ensures
        eibi_of_csv(csv_fields(csv_line_of(eibi_csv_fields(e)))) == Some(e),
{
    lemma_csv_roundtrip(eibi_csv_fields(e));
    lemma_decimal_parses(e.frequency as nat, u64::MAX as nat);
}

/// The fields of a line of the EiBi schedule file, as the download keeps
/// them: frequency in kHz (as text), time range, station, language, target.
pub struct ScheduleLine {
    pub khz: String,
    pub time: String,
    pub station: String,
    pub language: String,
    pub target: String,
}

/// `s` begins with "kHz" (the header line of the schedule file).
pub open spec fn is_schedule_header(s: Seq<char>) -> bool {
    s.len() >= 3 && s[0] == 'k' && s[1] == 'H' && s[2] == 'z'
}

/// The fields the download keeps from a schedule line: none for the header,
/// a blank line, or a line of fewer than seven `;`-separated parts; otherwise
/// parts 0, 1, 4, 5 and 6, trimmed.
pub open spec fn schedule_fields(line: Seq<char>) -> Option<Seq<Seq<char>>> {
    let parts = split_on(line, ';');
    if is_schedule_header(line) || trimmed(line).len() == 0 || parts.len() < 7 {
        None
    } else {
        Some(seq![trimmed(parts[0]), trimmed(parts[1]), trimmed(parts[4]), trimmed(parts[5]), trimmed(parts[6])])
    }
}

/// Reads the fields of a line of the EiBi schedule file.
pub fn schedule_line(line: &str) -> (fields: Option<ScheduleLine>)
    ensures
        match fields {
            Some(f) => schedule_fields(line@) == Some(seq![f.khz@, f.time@, f.station@, f.language@, f.target@]),
            None => schedule_fields(line@) is None,
        },
{
    let chars = chars_of(line);
    if chars.len() >= 3 && chars[0] == 'k' && chars[1] == 'H' && chars[2] == 'z' {
        return None;
    }
    let t = trim_chars(chars.as_slice());
    if t.len() == 0 {
        return None;
    }
    let parts = split_chars(chars.as_slice(), ';');
    if parts.len() < 7 {
        return None;
    }
    let ghost pv = parts@.map_values(|p: Vec<char>| p@);
    assert(pv[0] == parts@[0]@ && pv[1] == parts@[1]@ && pv[4] == parts@[4]@ && pv[5] == parts@[5]@ && pv[6] == parts@[6]@);
    let khz = trim_chars(parts[0].as_slice());
    let time = trim_chars(parts[1].as_slice());
    let station = trim_chars(parts[4].as_slice());
    let language = trim_chars(parts[5].as_slice());
    let target = trim_chars(parts[6].as_slice());
    Some(ScheduleLine {
        khz: string_from_chars(khz.as_slice()),
        time: string_from_chars(time.as_slice()),
        station: string_from_chars(station.as_slice()),
        language: string_from_chars(language.as_slice()),
        target: string_from_chars(target.as_slice()),
    })
}

/// How the schedule is searched.
pub enum EibiQuery {
    /// Entries between two frequencies in Hz (both included), by frequency, at
    /// most `limit` of them (no limit when `None`).
    FrequencyRange { min_hz: u64, max_hz: u64, limit: Option<u32> },
    /// Entries whose station name matches an SQL `LIKE` pattern, by frequency,
    /// at most `limit` of them.
    StationLike { pattern: String, limit: Option<u32> },
}

/// `a - b`, or 0 below zero.
pub open spec fn sat_sub(a: u64, b: u64) -> u64 {
    if a >= b { (a - b) as u64 } else { 0 }
}

/// `a + b`, or `u64::MAX` above it.
pub open spec fn sat_add(a: u64, b: u64) -> u64 {
    if a + b <= u64::MAX { (a + b) as u64 } else { u64::MAX }
}

/// The search for a query typed in the schedule panel: a blank query lists up
/// to 50 entries within 100 kHz of the current frequency; a query that reads
/// as a frequency in kHz (`query_hz`, that frequency in Hz) lists up to 50
/// entries within 10 kHz of it; any other query lists up to 50 stations whose
/// name contains it.
pub fn eibi_search_plan(query: &str, current_freq: u64, query_hz: Option<u64>) -> (plan: EibiQuery)
    ensures
        trimmed(query@).len() == 0 ==> plan == (EibiQuery::FrequencyRange {
            min_hz: sat_sub(current_freq, 100_000),
            max_hz: sat_add(current_freq, 100_000),
            limit: Some(50),
        }),
        trimmed(query@).len() != 0 && query_hz is Some ==> plan == (EibiQuery::FrequencyRange {
            min_hz: sat_sub(query_hz->0, 10_000),
            max_hz: sat_add(query_hz->0, 10_000),
            limit: Some(50),
        }),
        trimmed(query@).len() != 0 && query_hz is None ==> (plan matches EibiQuery::StationLike { pattern, limit }
            && pattern@ == seq!['%'] + query@ + seq!['%'] && limit == Some(50u32)),
{
    let chars = chars_of(query);
    let t = trim_chars(chars.as_slice());
    if t.len() == 0 {
        return EibiQuery::FrequencyRange {
            min_hz: current_freq.saturating_sub(100_000),
            max_hz: current_freq.saturating_add(100_000),
            limit: Some(50),
        };
    }
    match query_hz {
        Some(hz) => EibiQuery::FrequencyRange {
            min_hz: hz.saturating_sub(10_000),
            max_hz: hz.saturating_add(10_000),
            limit: Some(50),
        },
        None => {
            let mut p: Vec<char> = Vec::new();
            p.push('%');
            let mut i: usize = 0;
            while i < chars.len()
                invariant
                    i <= chars@.len(),
                    p@ == seq!['%'] + chars@.take(i as int),
                decreases chars@.len() - i,
            {
                p.push(chars[i]);
                i = i + 1;
                assert(p@ =~= seq!['%'] + chars@.take(i as int));
            }
            p.push('%');
            assert(chars@.take(chars@.len() as int) =~= chars@);
            EibiQuery::StationLike { pattern: string_from_chars(p.as_slice()), limit: Some(50) }
        },
    }
}

/// The schedule entries shown as probable stations: those within 2 kHz of the
/// frequency, by frequency, without limit.
pub fn probable_stations_plan(freq_hz: u64) -> (plan: EibiQuery)
    ensures
        plan == (EibiQuery::FrequencyRange {
            min_hz: sat_sub(freq_hz, 2000),
            max_hz: sat_add(freq_hz, 2000),
            limit: None,
        }),
{
    EibiQuery::FrequencyRange {
        min_hz: freq_hz.saturating_sub(2000),
        max_hz: freq_hz.saturating_add(2000),
        limit: None,
    }
}

} // verus!
