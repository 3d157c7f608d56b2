//! Text helpers: characters of strings, decimal numbers, CSV fields, time
//! ranges, frequency display and URL encoding.

use vstd::prelude::*;
use vstd::string::StringSliceAdditionalSpecFns;

verus! {

/// `String::push`: appends one character to the string.
#[verifier::external_body]
fn push_char(s: &mut String, c: char)
    ensures
        final(s)@ == old(s)@.push(c),
{
    s.push(c);
}

/// The characters of a string.
pub fn chars_of(s: &str) -> (chars: Vec<char>)
    ensures
        chars@ == s@,
{
    let mut chars: Vec<char> = Vec::new();
    for c in it: s.chars()
        invariant
            chars@ == it.seq().take(it.index()),
    {
        chars.push(c);
        assert(chars@ =~= it.seq().take(it.index() + 1));
    }
    chars
}

/// A string made of the given characters.
pub fn string_from_chars(chars: &[char]) -> (s: String)
    ensures
        s@ == chars@,
{
    let mut s = String::new();
    let mut i: usize = 0;
    while i < chars.len()
        invariant
            i <= chars@.len(),
            s@ == chars@.take(i as int),
        decreases chars@.len() - i,
    {
        push_char(&mut s, chars[i]);
        i = i + 1;
        assert(s@ =~= chars@.take(i as int));
    }
    assert(chars@.take(chars@.len() as int) =~= chars@);
    s
}

/// The decimal digit character of `d` (0..=9).
pub open spec fn digit_char(d: nat) -> char {
    (('0' as u32) + d) as char
}

/// The value of a decimal digit character.
pub open spec fn digit_value(c: char) -> nat {
    (c as u32 - '0' as u32) as nat
}

/// A decimal digit character.
pub open spec fn is_digit(c: char) -> bool {
    '0' <= c && c <= '9'
}

/// The decimal digits of `n`, most significant first, without leading zeros
/// ("0" for zero).
pub open spec fn decimal(n: nat) -> Seq<char>
    decreases n,
{
    if n < 10 {
        seq![digit_char(n)]
    } else {
        decimal(n / 10).push(digit_char(n % 10))
    }
}

/// The number written by a sequence of decimal digits, most significant first
/// (0 for the empty sequence).
pub open spec fn digits_value(d: Seq<char>) -> nat
    decreases d.len(),
{
    if d.len() == 0 {
        0
    } else {
        10 * digits_value(d.drop_last()) + digit_value(d.last())
    }
}

/// `s` is a non-empty run of decimal digits.
pub open spec fn all_digits(s: Seq<char>) -> bool {
    s.len() > 0 && forall|i: int| 0 <= i < s.len() ==> is_digit(#[trigger] s[i])
}

/// How the standard library reads an unsigned integer no larger than `max`:
/// an optional `+`, then one or more decimal digits, with a value within range.
pub open spec fn parse_unsigned(s: Seq<char>, max: nat) -> Option<nat> {
    let d = if s.len() > 0 && s[0] == '+' { s.drop_first() } else { s };
    if all_digits(d) && digits_value(d) <= max {
        Some(digits_value(d))
    } else {
        None
    }
}

/// Reads an unsigned integer no larger than `max` from characters, as the
/// standard library's `parse` does.
pub fn parse_unsigned_chars(s: &[char], max: u64) -> (v: Option<u64>)
    ensures
        v matches Some(x) ==> parse_unsigned(s@, max as nat) == Some(x as nat),
        v is None ==> parse_unsigned(s@, max as nat) is None,
{
    let start: usize = if s.len() > 0 && s[0] == '+' { 1 } else { 0 };
    let ghost d = if s@.len() > 0 && s@[0] == '+' { s@.drop_first() } else { s@ };
    assert(d =~= s@.skip(start as int));
    if start >= s.len() {
        return None;
    }
    let mut value: u64 = 0;
    let mut i: usize = start;
    while i < s.len()
        invariant
            start <= i <= s@.len(),
            d == (if s@.len() > 0 && s@[0] == '+' { s@.drop_first() } else { s@ }),
            d =~= s@.skip(start as int),
            value == digits_value(s@.subrange(start as int, i as int)),
            value <= max,
            forall|k: int| start <= k < i ==> is_digit(#[trigger] s@[k]),
        decreases s@.len() - i,
    {
        let c = s[i];
        if !('0' <= c && c <= '9') {
            assert(d[i - start] == c);
            assert(!is_digit(d[i - start]));
            assert(!all_digits(d));
            assert(parse_unsigned(s@, max as nat) is None);
            return None;
        }
        let dv: u64 = (c as u32 - '0' as u32) as u64;
        assert(s@.subrange(start as int, i + 1).drop_last() =~= s@.subrange(start as int, i as int));
        assert(digits_value(s@.subrange(start as int, i + 1)) == 10 * value + dv);
        assert(digits_value(d) >= digits_value(s@.subrange(start as int, i + 1))) by {
            lemma_digits_value_prefix_grows(d, (i - start + 1) as int);
            assert(d.take((i - start + 1) as int) =~= s@.subrange(start as int, i + 1));
        }
        if value > max / 10 {
            proof {
                assert(10 * value + dv > max) by (nonlinear_arith)
                    requires
                        value > max / 10,
                ;
                lemma_digits_value_prefix_grows(s@.skip(start as int), (i - start + 1) as int);
                assert(s@.skip(start as int).take((i - start + 1) as int) =~= s@.subrange(start as int, i + 1));
            }
            return None;
        }
        assert(value * 10 <= max) by (nonlinear_arith)
            requires
                value <= max / 10,
        ;
        let tens: u64 = value * 10;
        if dv > max - tens {
            proof {
                lemma_digits_value_prefix_grows(s@.skip(start as int), (i - start + 1) as int);
                assert(s@.skip(start as int).take((i - start + 1) as int) =~= s@.subrange(start as int, i + 1));
            }
            return None;
        }
        value = tens + dv;
        i = i + 1;
    }
    assert(s@.subrange(start as int, s@.len() as int) =~= d);
    Some(value)
}

/// The decimal writing of a number is a run of digits worth the number.
pub proof fn lemma_decimal_value(n: nat)
    ensures
        all_digits(decimal(n)),
        digits_value(decimal(n)) == n,
        decimal(n)[0] != '+',
    decreases n,
{
    assert(digit_value(digit_char(n % 10)) == n % 10);
    if n < 10 {
        assert(decimal(n).drop_last() =~= Seq::<char>::empty());
        assert(decimal(n).last() == digit_char(n % 10));
        assert(digits_value(decimal(n).drop_last()) == 0);
        assert(digits_value(decimal(n)) == 10 * digits_value(decimal(n).drop_last()) + digit_value(decimal(n).last()));
    } else {
        lemma_decimal_value(n / 10);
        let d = decimal(n);
        assert(d.last() == digit_char(n % 10));
        assert(n == 10 * (n / 10) + n % 10);
        assert(digits_value(d) == 10 * digits_value(d.drop_last()) + digit_value(d.last()));
        assert(d.drop_last() =~= decimal(n / 10));
        assert forall|i: int| 0 <= i < d.len() implies is_digit(#[trigger] d[i]) by {
            if i < d.len() - 1 {
                assert(d[i] == decimal(n / 10)[i]);
            }
        }
        assert(d[0] == decimal(n / 10)[0]);
    }
}

/// The standard library reads back the decimal writing of a number within range.
pub proof fn lemma_decimal_parses(n: nat, max: nat)
    requires
        n <= max,
    ensures
        parse_unsigned(decimal(n), max) == Some(n),
{
    lemma_decimal_value(n);
}

/// Among digit strings, a longer prefix is worth at least as much as a shorter one.
pub proof fn lemma_digits_value_prefix_grows(d: Seq<char>, k: int)
    requires
        0 <= k <= d.len(),
    ensures
        digits_value(d.take(k)) <= digits_value(d),
    decreases d.len() - k,
{
    if k < d.len() {
        lemma_digits_value_prefix_grows(d, k + 1);
        assert(d.take(k + 1).drop_last() =~= d.take(k));
    } else {
        assert(d.take(k) =~= d);
    }
}

/// The decimal digit character of `d` (0..=9).
fn digit_to_char(d: u64) -> (c: char)
    requires
        d < 10,
    ensures
        c == digit_char(d as nat),
{
    let b: u8 = (d as u8) + 48;
    b as char
}

/// The decimal digits of `n`, most significant first.
pub fn decimal_chars(n: u64) -> (digits: Vec<char>)
    ensures
        digits@ == decimal(n as nat),
    decreases n,
{
    if n < 10 {
        let mut digits: Vec<char> = Vec::new();
        digits.push(digit_to_char(n));
        assert(digits@ =~= decimal(n as nat));
        digits
    } else {
        let mut digits = decimal_chars(n / 10);
        digits.push(digit_to_char(n % 10));
        digits
    }
}

/// The decimal writing of `n`, as `to_string` gives it.
pub fn decimal_string(n: u64) -> (s: String)
    ensures
        s@ == decimal(n as nat),
{
    let digits = decimal_chars(n);
    string_from_chars(digits.as_slice())
}

/// `d` padded on the left with zeros up to `width` characters.
pub open spec fn zero_padded(d: Seq<char>, width: nat) -> Seq<char> {
    if d.len() < width {
        Seq::new((width - d.len()) as nat, |i: int| '0') + d
    } else {
        d
    }
}

/// A frequency in Hz as the panel displays it: decimal, padded to eight
/// digits, with a dot after the second and the fifth digit (MM.kkk.hhh).
pub open spec fn vfo_display(freq: nat) -> Seq<char> {
    let p = zero_padded(decimal(freq), 8);
    p.take(2) + seq!['.'] + p.subrange(2, 5) + seq!['.'] + p.skip(5)
}

/// Formats a frequency in Hz for the VFO display (e.g. 14.074.000).
pub fn format_vfo_freq(freq: u64) -> (s: String)
    ensures
        s@ == vfo_display(freq as nat),
{
    let digits = decimal_chars(freq);
    let mut padded: Vec<char> = Vec::new();
    let mut k: usize = digits.len();
    while k < 8
        invariant
            digits.len() <= k <= 8 || (k == digits.len() && k >= 8),
            padded@ =~= Seq::new((k - digits.len()) as nat, |i: int| '0'),
        decreases 8 - k,
    {
        padded.push('0');
        k = k + 1;
    }
    let ghost zeros = padded@;
    let mut j: usize = 0;
    while j < digits.len()
        invariant
            j <= digits@.len(),
            padded@ == zeros + digits@.take(j as int),
        decreases digits@.len() - j,
    {
        padded.push(digits[j]);
        j = j + 1;
        assert(padded@ =~= zeros + digits@.take(j as int));
    }
    assert(digits@.take(digits@.len() as int) =~= digits@);
    assert(padded@ =~= zero_padded(decimal(freq as nat), 8));
    let mut res: Vec<char> = Vec::new();
    let mut idx: usize = 0;
    let ghost p = padded@;
    while idx < padded.len()
        invariant
            p == padded@,
            p.len() >= 8,
            idx <= p.len(),
            idx <= 2 ==> res@ == p.take(idx as int),
            2 < idx <= 5 ==> res@ == p.take(2) + seq!['.'] + p.subrange(2, idx as int),
            5 < idx ==> res@ == p.take(2) + seq!['.'] + p.subrange(2, 5) + seq!['.'] + p.subrange(5, idx as int),
        decreases p.len() - idx,
    {
        if idx == 2 || idx == 5 {
            res.push('.');
        }
        res.push(padded[idx]);
        idx = idx + 1;
        assert(idx <= 2 ==> res@ =~= p.take(idx as int));
        assert(2 < idx <= 5 ==> res@ =~= p.take(2) + seq!['.'] + p.subrange(2, idx as int));
        assert(5 < idx ==> res@ =~= p.take(2) + seq!['.'] + p.subrange(2, 5) + seq!['.'] + p.subrange(5, idx as int));
    }
    assert(p.subrange(5, p.len() as int) =~= p.skip(5));
    string_from_chars(res.as_slice())
}

/// A field character that forces quoting in the CSV files (`;`, `"`, line breaks).
pub open spec fn is_special(c: char) -> bool {
    c == ';' || c == '"' || c == '\n' || c == '\r'
}

/// `s` holds a character that forces quoting.
pub open spec fn needs_quoting(s: Seq<char>) -> bool {
    exists|i: int| 0 <= i < s.len() && is_special(#[trigger] s[i])
}

/// `s` with every double quote doubled.
pub open spec fn double_quotes(s: Seq<char>) -> Seq<char>
    decreases s.len(),
{
    if s.len() == 0 {
        seq![]
    } else {
        double_quotes(s.drop_last()) + if s.last() == '"' { seq!['"', '"'] } else { seq![s.last()] }
    }
}

/// A field as the CSV files write it: quoted, with doubled quotes, when it
/// holds a special character; as it is otherwise.
pub open spec fn escaped_field(s: Seq<char>) -> Seq<char> {
    if needs_quoting(s) {
        seq!['"'] + double_quotes(s) + seq!['"']
    } else {
        s
    }
}

/// Escapes a field for the semicolon-separated CSV files.
pub fn escape_csv_field(field: &str) -> (escaped: String)
    ensures
        escaped@ == escaped_field(field@),
{
    let chars = chars_of(field);
    let mut special = false;
    let mut i: usize = 0;
    while i < chars.len()
        invariant
            i <= chars@.len(),
            chars@ == field@,
            special == exists|k: int| 0 <= k < i && is_special(#[trigger] chars@[k]),
        decreases chars@.len() - i,
    {
        let c = chars[i];
        if c == ';' || c == '"' || c == '\n' || c == '\r' {
            special = true;
        }
        i = i + 1;
    }
    if !special {
        return string_from_chars(chars.as_slice());
    }
    let mut out: Vec<char> = Vec::new();
    out.push('"');
    let mut j: usize = 0;
    while j < chars.len()
        invariant
            j <= chars@.len(),
            out@ == seq!['"'] + double_quotes(chars@.take(j as int)),
        decreases chars@.len() - j,
    {
        let c = chars[j];
        if c == '"' {
            out.push('"');
            out.push('"');
        } else {
            out.push(c);
        }
        j = j + 1;
        assert(chars@.take(j as int).drop_last() =~= chars@.take(j - 1));
        assert(out@ =~= seq!['"'] + double_quotes(chars@.take(j as int)));
    }
    out.push('"');
    assert(chars@.take(chars@.len() as int) =~= chars@);
    string_from_chars(out.as_slice())
}

/// How a CSV line splits into fields from the current position: `in_quotes`
/// tells whether a quoted section is open, `cur` holds the field read so far
/// and `fields` the fields already closed. A doubled quote inside quotes
/// stands for one quote; any other quote opens or closes quoting; a
/// semicolon outside quotes closes the field.
pub open spec fn csv_parse_from(
    s: Seq<char>,
    in_quotes: bool,
    cur: Seq<char>,
    fields: Seq<Seq<char>>,
) -> Seq<Seq<char>>
    decreases s.len(),
{
    if s.len() == 0 {
        fields.push(cur)
    } else if s[0] == '"' {
        if in_quotes && s.len() >= 2 && s[1] == '"' {
            csv_parse_from(s.skip(2), in_quotes, cur.push('"'), fields)
        } else {
            csv_parse_from(s.drop_first(), !in_quotes, cur, fields)
        }
    } else if s[0] == ';' && !in_quotes {
        csv_parse_from(s.drop_first(), in_quotes, seq![], fields.push(cur))
    } else {
        csv_parse_from(s.drop_first(), in_quotes, cur.push(s[0]), fields)
    }
}

/// The fields of a CSV line.
pub open spec fn csv_fields(line: Seq<char>) -> Seq<Seq<char>> {
    csv_parse_from(line, false, seq![], seq![])
}

/// The characters of a list of strings.
pub open spec fn strings_view(v: Seq<String>) -> Seq<Seq<char>> {
    v.map_values(|s: String| s@)
}

/// Splits a semicolon-separated CSV line into its fields.
pub fn parse_csv_line(line: &str) -> (fields: Vec<String>)
    ensures
        strings_view(fields@) == csv_fields(line@),
{
    let chars = chars_of(line);
    let n = chars.len();
    let mut fields: Vec<String> = Vec::new();
    let mut current: Vec<char> = Vec::new();
    let mut in_quotes = false;
    let mut i: usize = 0;
    assert(chars@.skip(0) =~= chars@);
    assert(strings_view(fields@) =~= Seq::<Seq<char>>::empty());
    assert(current@ =~= Seq::<char>::empty());
    while i < n
        invariant
            n == chars@.len(),
            chars@ == line@,
            i <= n,
            csv_fields(line@) == csv_parse_from(chars@.skip(i as int), in_quotes, current@, strings_view(fields@)),
        decreases n - i,
    {
        let c = chars[i];
        let ghost rest = chars@.skip(i as int);
        if c == '"' {
            if in_quotes && i + 1 < n && chars[i + 1] == '"' {
                current.push('"');
                i = i + 2;
                assert(rest.skip(2) =~= chars@.skip(i as int));
            } else {
                in_quotes = !in_quotes;
                i = i + 1;
                assert(rest.drop_first() =~= chars@.skip(i as int));
            }
        } else if c == ';' && !in_quotes {
            let ghost prev = strings_view(fields@);
            let ghost closed = current@;
            fields.push(string_from_chars(current.as_slice()));
            current = Vec::new();
            i = i + 1;
            assert(rest.drop_first() =~= chars@.skip(i as int));
            assert(strings_view(fields@) =~= prev.push(closed));
            assert(current@ =~= Seq::<char>::empty());
        } else {
            current.push(c);
            i = i + 1;
            assert(rest.drop_first() =~= chars@.skip(i as int));
        }
    }
    let ghost prev = strings_view(fields@);
    fields.push(string_from_chars(current.as_slice()));
    assert(chars@.skip(n as int) =~= Seq::<char>::empty());
    assert(strings_view(fields@) =~= prev.push(current@));
    fields
}

/// The piece `double_quotes` writes for one character.
pub open spec fn quote_piece(c: char) -> Seq<char> {
    if c == '"' { seq!['"', '"'] } else { seq![c] }
}

/// Doubling quotes works piecewise over a concatenation.
pub proof fn lemma_double_quotes_concat(a: Seq<char>, b: Seq<char>)
    ensures
        double_quotes(a + b) == double_quotes(a) + double_quotes(b),
    decreases b.len(),
{
    if b.len() == 0 {
        assert(a + b =~= a);
        assert(double_quotes(a) + double_quotes(b) =~= double_quotes(a));
    } else {
        lemma_double_quotes_concat(a, b.drop_last());
        assert((a + b).drop_last() =~= a + b.drop_last());
        assert((a + b).last() == b.last());
        assert(double_quotes(a) + double_quotes(b) =~= double_quotes(a) + double_quotes(b.drop_last()) + quote_piece(b.last()));
    }
}

/// The body of a quoted field, followed by its closing quote, reads back as
/// the field's own characters, provided what follows does not start with a quote.
pub proof fn lemma_quoted_body(u: Seq<char>, rest: Seq<char>, cur: Seq<char>, fs: Seq<Seq<char>>)
    requires
        rest.len() == 0 || rest[0] != '"',
    ensures
        csv_parse_from(double_quotes(u) + seq!['"'] + rest, true, cur, fs) == csv_parse_from(rest, false, cur + u, fs),
    decreases u.len(),
{
    let s = double_quotes(u) + seq!['"'] + rest;
    if u.len() == 0 {
        assert(double_quotes(u) =~= Seq::<char>::empty());
        assert(s =~= seq!['"'] + rest);
        assert(s.drop_first() =~= rest);
        assert(cur + u =~= cur);
    } else {
        let c = u[0];
        let tail = u.drop_first();
        assert(u =~= seq![c] + tail);
        lemma_double_quotes_concat(seq![c], tail);
        assert(double_quotes(seq![c]) == double_quotes(seq![c].drop_last()) + quote_piece(c));
        assert(seq![c].drop_last() =~= Seq::<char>::empty());
        assert(double_quotes(seq![c]) =~= quote_piece(c));
        lemma_quoted_body(tail, rest, cur.push(c), fs);
        assert(cur.push(c) + tail =~= cur + u);
        let next = double_quotes(tail) + seq!['"'] + rest;
        if c == '"' {
            assert(s =~= seq!['"', '"'] + next);
            assert(s.skip(2) =~= next);
        } else {
            assert(s =~= seq![c] + next);
            assert(s.drop_first() =~= next);
        }
    }
}

/// A field without special characters reads back as itself.
pub proof fn lemma_plain_body(u: Seq<char>, rest: Seq<char>, cur: Seq<char>, fs: Seq<Seq<char>>)
    requires
        !needs_quoting(u),
    ensures
        csv_parse_from(u + rest, false, cur, fs) == csv_parse_from(rest, false, cur + u, fs),
    decreases u.len(),
{
    if u.len() == 0 {
        assert(u + rest =~= rest);
        assert(cur + u =~= cur);
    } else {
        let c = u[0];
        let tail = u.drop_first();
        assert(!is_special(u[0]));
        assert(!needs_quoting(tail)) by {
            if needs_quoting(tail) {
                let k = choose|k: int| 0 <= k < tail.len() && is_special(#[trigger] tail[k]);
                assert(u[k + 1] == tail[k]);
            }
        }
        lemma_plain_body(tail, rest, cur.push(c), fs);
        assert((u + rest).drop_first() =~= tail + rest);
        assert(cur.push(c) + tail =~= cur + u);
    }
}

/// An escaped field reads back as the field, provided what follows does not
/// start with a quote.
pub proof fn lemma_escaped_field(u: Seq<char>, rest: Seq<char>, fs: Seq<Seq<char>>)
    requires
        rest.len() == 0 || rest[0] != '"',
    ensures
        csv_parse_from(escaped_field(u) + rest, false, seq![], fs) == csv_parse_from(rest, false, u, fs),
{
    if needs_quoting(u) {
        let s = escaped_field(u) + rest;
        assert(s =~= seq!['"'] + (double_quotes(u) + seq!['"'] + rest));
        assert(s.drop_first() =~= double_quotes(u) + seq!['"'] + rest);
        lemma_quoted_body(u, rest, seq![], fs);
        assert(Seq::<char>::empty() + u =~= u);
    } else {
        lemma_plain_body(u, rest, seq![], fs);
        assert(Seq::<char>::empty() + u =~= u);
    }
}

/// A CSV line made of the escaped fields, separated by semicolons.
pub open spec fn csv_line_of(fields: Seq<Seq<char>>) -> Seq<char>
    decreases fields.len(),
{
    if fields.len() <= 1 {
        if fields.len() == 1 { escaped_field(fields[0]) } else { seq![] }
    } else {
        escaped_field(fields[0]) + seq![';'] + csv_line_of(fields.drop_first())
    }
}

/// Reading a CSV line written from fields gives back the same fields: what
/// the CSV export writes, the CSV import reads.
pub proof fn lemma_csv_roundtrip(fields: Seq<Seq<char>>)
    requires
        fields.len() >= 1,
    ensures
        csv_fields(csv_line_of(fields)) == fields,
{
    lemma_csv_roundtrip_from(fields, seq![]);
    assert(Seq::<Seq<char>>::empty() + fields =~= fields);
}

/// Reading a CSV line written from fields appends those fields to the ones
/// already read.
pub proof fn lemma_csv_roundtrip_from(fields: Seq<Seq<char>>, fs: Seq<Seq<char>>)
    requires
        fields.len() >= 1,
    ensures
        csv_parse_from(csv_line_of(fields), false, seq![], fs) == fs + fields,
    decreases fields.len(),
{
    if fields.len() == 1 {
        lemma_escaped_field(fields[0], seq![], fs);
        assert(escaped_field(fields[0]) + Seq::<char>::empty() =~= escaped_field(fields[0]));
        assert(fs.push(fields[0]) =~= fs + fields);
    } else {
        let rest = seq![';'] + csv_line_of(fields.drop_first());
        lemma_escaped_field(fields[0], rest, fs);
        assert(csv_line_of(fields) =~= escaped_field(fields[0]) + rest);
        assert(rest.drop_first() =~= csv_line_of(fields.drop_first()));
        lemma_csv_roundtrip_from(fields.drop_first(), fs.push(fields[0]));
        assert(fs.push(fields[0]) + fields.drop_first() =~= fs + fields);
    }
}

/// Writes a CSV line from its fields, escaping each one.
pub fn csv_line(fields: &[String]) -> (line: String)
    requires
        fields@.len() >= 1,
    ensures
        line@ == csv_line_of(strings_view(fields@)),
{
    let n = fields.len();
    let mut out: Vec<char> = Vec::new();
    let mut i: usize = n;
    let ghost fv = strings_view(fields@);
    while i > 0
        invariant
            i <= n,
            n == fields@.len(),
            n >= 1,
            fv == strings_view(fields@),
            i < n ==> out@ == csv_line_of(fv.skip(i as int)),
            i == n ==> out@.len() == 0,
        decreases i,
    {
        let esc = escape_csv_field(fields[i - 1].as_str());
        let esc_chars = chars_of(esc.as_str());
        let mut piece: Vec<char> = Vec::new();
        let mut k: usize = 0;
        while k < esc_chars.len()
            invariant
                k <= esc_chars@.len(),
                piece@ == esc_chars@.take(k as int),
            decreases esc_chars@.len() - k,
        {
            piece.push(esc_chars[k]);
            k = k + 1;
            assert(piece@ =~= esc_chars@.take(k as int));
        }
        assert(esc_chars@.take(esc_chars@.len() as int) =~= esc_chars@);
        let ghost prev = out@;
        if i < n {
            piece.push(';');
        }
        let mut j: usize = 0;
        let ghost head = piece@;
        while j < out.len()
            invariant
                j <= prev.len(),
                out@ == prev,
                piece@ == head + prev.take(j as int),
            decreases prev.len() - j,
        {
            piece.push(out[j]);
            j = j + 1;
            assert(piece@ =~= head + prev.take(j as int));
        }
        assert(prev.take(prev.len() as int) =~= prev);
        out = piece;
        i = i - 1;
        assert(fv.skip(i as int).drop_first() =~= fv.skip(i + 1));
        assert(fv.skip(i as int)[0] == fields@[i as int]@);
        if i + 1 < n {
            assert(out@ =~= escaped_field(fv.skip(i as int)[0]) + seq![';'] + csv_line_of(fv.skip(i + 1)));
        } else {
            assert(fv.skip(i as int).len() == 1);
            assert(out@ =~= escaped_field(fv.skip(i as int)[0]));
        }
    }
    assert(fv.skip(0) =~= fv);
    string_from_chars(out.as_slice())
}

/// `s` cut at every `sep`, from the current position: `cur` holds the part
/// read so far and `parts` the parts already closed.
pub open spec fn split_from(s: Seq<char>, sep: char, cur: Seq<char>, parts: Seq<Seq<char>>) -> Seq<Seq<char>>
    decreases s.len(),
{
    if s.len() == 0 {
        parts.push(cur)
    } else if s[0] == sep {
        split_from(s.drop_first(), sep, seq![], parts.push(cur))
    } else {
        split_from(s.drop_first(), sep, cur.push(s[0]), parts)
    }
}

/// The parts of `s` between occurrences of `sep`, as `str::split` gives them.
pub open spec fn split_on(s: Seq<char>, sep: char) -> Seq<Seq<char>> {
    split_from(s, sep, seq![], seq![])
}

/// Cuts characters at every occurrence of `sep`.
pub fn split_chars(s: &[char], sep: char) -> (parts: Vec<Vec<char>>)
    ensures
        parts@.map_values(|p: Vec<char>| p@) == split_on(s@, sep),
{
    let n = s.len();
    let mut parts: Vec<Vec<char>> = Vec::new();
    let mut cur: Vec<char> = Vec::new();
    let mut i: usize = 0;
    assert(s@.skip(0) =~= s@);
    assert(parts@.map_values(|p: Vec<char>| p@) =~= Seq::<Seq<char>>::empty());
    assert(cur@ =~= Seq::<char>::empty());
    while i < n
        invariant
            n == s@.len(),
            i <= n,
            split_on(s@, sep) == split_from(s@.skip(i as int), sep, cur@, parts@.map_values(|p: Vec<char>| p@)),
        decreases n - i,
    {
        let ghost rest = s@.skip(i as int);
        let c = s[i];
        if c == sep {
            let ghost prev = parts@.map_values(|p: Vec<char>| p@);
            let ghost closed = cur@;
            parts.push(cur);
            cur = Vec::new();
            assert(parts@.map_values(|p: Vec<char>| p@) =~= prev.push(closed));
            assert(cur@ =~= Seq::<char>::empty());
        } else {
            cur.push(c);
        }
        i = i + 1;
        assert(rest.drop_first() =~= s@.skip(i as int));
    }
    let ghost prev = parts@.map_values(|p: Vec<char>| p@);
    let ghost last = cur@;
    parts.push(cur);
    assert(s@.skip(n as int) =~= Seq::<char>::empty());
    assert(parts@.map_values(|p: Vec<char>| p@) =~= prev.push(last));
    parts
}

/// How the standard library reads a signed integer between `-(max + 1)` and
/// `max`: an optional sign, then one or more decimal digits.
pub open spec fn parse_signed(s: Seq<char>, max: nat) -> Option<int> {
    if s.len() > 0 && s[0] == '-' {
        let d = s.drop_first();
        if all_digits(d) && digits_value(d) <= max + 1 {
            Some(-(digits_value(d) as int))
        } else {
            None
        }
    } else {
        match parse_unsigned(s, max) {
            Some(v) => Some(v as int),
            None => None,
        }
    }
}

/// Reads an `i32` from characters, as the standard library's `parse` does.
pub fn parse_i32_chars(s: &[char]) -> (v: Option<i32>)
    ensures
        v matches Some(x) ==> parse_signed(s@, 0x7FFF_FFFF) == Some(x as int),
        v is None ==> parse_signed(s@, 0x7FFF_FFFF) is None,
{
    if s.len() > 0 && s[0] == '-' {
        let digits = &s[1..s.len()];
        assert(digits@ =~= s@.drop_first());
        if digits.len() > 0 && digits[0] == '+' {
            assert(!is_digit(s@.drop_first()[0]));
            return None;
        }
        assert(parse_unsigned(digits@, 0x8000_0000) == (if all_digits(digits@) && digits_value(digits@) <= 0x8000_0000 { Some(digits_value(digits@)) } else { None }));
        match parse_unsigned_chars(digits, 0x8000_0000) {
            Some(m) => {
                if m == 0x8000_0000 {
                    Some(-2147483648i32)
                } else {
                    Some(-(m as i32))
                }
            },
            None => None,
        }
    } else {
        match parse_unsigned_chars(s, 0x7FFF_FFFF) {
            Some(m) => Some(m as i32),
            None => None,
        }
    }
}

/// Reads an `i64` from characters, as the standard library's `parse` does.
pub fn parse_i64_chars(s: &[char]) -> (v: Option<i64>)
    ensures
        v matches Some(x) ==> parse_signed(s@, 0x7FFF_FFFF_FFFF_FFFF) == Some(x as int),
        v is None ==> parse_signed(s@, 0x7FFF_FFFF_FFFF_FFFF) is None,
{
    if s.len() > 0 && s[0] == '-' {
        let digits = &s[1..s.len()];
        assert(digits@ =~= s@.drop_first());
        if digits.len() > 0 && digits[0] == '+' {
            assert(!is_digit(s@.drop_first()[0]));
            return None;
        }
        assert(parse_unsigned(digits@, 0x8000_0000_0000_0000) == (if all_digits(digits@) && digits_value(digits@)
            <= 0x8000_0000_0000_0000 { Some(digits_value(digits@)) } else { None }));
        match parse_unsigned_chars(digits, 0x8000_0000_0000_0000) {
            Some(m) => {
                if m == 0x8000_0000_0000_0000 {
                    Some(i64::MIN)
                } else {
                    Some(-(m as i64))
                }
            },
            None => None,
        }
    } else {
        match parse_unsigned_chars(s, 0x7FFF_FFFF_FFFF_FFFF) {
            Some(m) => Some(m as i64),
            None => None,
        }
    }
}

/// The characters Unicode counts as white space (`char::is_whitespace`).
pub open spec fn is_space(c: char) -> bool {
    ('\u{9}' <= c && c <= '\u{d}') || c == ' ' || c == '\u{85}' || c == '\u{a0}' || c == '\u{1680}'
        || ('\u{2000}' <= c && c <= '\u{200a}') || c == '\u{2028}' || c == '\u{2029}'
        || c == '\u{202f}' || c == '\u{205f}' || c == '\u{3000}'
}

/// `s` without its leading white space.
pub open spec fn trim_start(s: Seq<char>) -> Seq<char>
    decreases s.len(),
{
    if s.len() > 0 && is_space(s[0]) { trim_start(s.drop_first()) } else { s }
}

/// `s` without its trailing white space.
pub open spec fn trim_end(s: Seq<char>) -> Seq<char>
    decreases s.len(),
{
    if s.len() > 0 && is_space(s.last()) { trim_end(s.drop_last()) } else { s }
}

/// `s` without its leading and trailing white space, as `str::trim` gives it.
pub open spec fn trimmed(s: Seq<char>) -> Seq<char> {
    trim_end(trim_start(s))
}

/// Whether a character is white space.
fn is_space_char(c: char) -> (b: bool)
    ensures
        b == is_space(c),
{
    (c >= '\u{9}' && c <= '\u{d}') || c == ' ' || c == '\u{85}' || c == '\u{a0}' || c == '\u{1680}'
        || (c >= '\u{2000}' && c <= '\u{200a}') || c == '\u{2028}' || c == '\u{2029}'
        || c == '\u{202f}' || c == '\u{205f}' || c == '\u{3000}'
}

/// Characters without their leading and trailing white space.
pub fn trim_chars(s: &[char]) -> (t: Vec<char>)
    ensures
        t@ == trimmed(s@),
{
    let n = s.len();
    let mut a: usize = 0;
    assert(s@.skip(0) =~= s@);
    while a < n && is_space_char(s[a])
        invariant
            a <= n,
            n == s@.len(),
            trim_start(s@) == trim_start(s@.skip(a as int)),
        decreases n - a,
    {
        assert(s@.skip(a as int).drop_first() =~= s@.skip(a + 1));
        a = a + 1;
    }
    let mut b: usize = n;
    let ghost st = s@.skip(a as int);
    assert(st.len() == 0 || !is_space(st[0]));
    assert(st =~= s@.subrange(a as int, n as int));
    while b > a && is_space_char(s[b - 1])
        invariant
            a <= b <= n,
            n == s@.len(),
            st == s@.subrange(a as int, n as int),
            trim_end(st) == trim_end(s@.subrange(a as int, b as int)),
        decreases b,
    {
        assert(s@.subrange(a as int, b as int).drop_last() =~= s@.subrange(a as int, b - 1));
        b = b - 1;
    }
    let mut t: Vec<char> = Vec::new();
    let mut k: usize = a;
    while k < b
        invariant
            a <= k <= b,
            b <= n,
            n == s@.len(),
            t@ == s@.subrange(a as int, k as int),
        decreases b - k,
    {
        t.push(s[k]);
        k = k + 1;
        assert(t@ =~= s@.subrange(a as int, k as int));
    }
    t
}

/// A line without the carriage return of a CR LF line ending.
pub open spec fn strip_cr(p: Seq<char>) -> Seq<char> {
    if p.len() > 0 && p.last() == '\r' { p.drop_last() } else { p }
}

/// The lines of a text, as `str::lines` gives them: cut at each line feed,
/// with the carriage return before a line feed removed; a last line is kept
/// only when something follows the last line feed.
pub open spec fn text_lines_of(s: Seq<char>) -> Seq<Seq<char>> {
    let parts = split_on(s, '\n');
    let body = parts.drop_last().map_values(|p: Seq<char>| strip_cr(p));
    if parts.last().len() == 0 { body } else { body.push(parts.last()) }
}

/// `split_on` always gives at least one part.
pub proof fn lemma_split_from_nonempty(s: Seq<char>, sep: char, cur: Seq<char>, parts: Seq<Seq<char>>)
    ensures
        split_from(s, sep, cur, parts).len() >= 1,
    decreases s.len(),
{
    if s.len() > 0 {
        if s[0] == sep {
            lemma_split_from_nonempty(s.drop_first(), sep, seq![], parts.push(cur));
        } else {
            lemma_split_from_nonempty(s.drop_first(), sep, cur.push(s[0]), parts);
        }
    }
}

/// The lines of a text.
pub fn text_lines(text: &str) -> (lines: Vec<String>)
    ensures
        strings_view(lines@) == text_lines_of(text@),
{
    let chars = chars_of(text);
    let parts = split_chars(chars.as_slice(), '\n');
    let ghost pv = parts@.map_values(|p: Vec<char>| p@);
    proof {
        lemma_split_from_nonempty(text@, '\n', seq![], seq![]);
    }
    let n = parts.len();
    let mut lines: Vec<String> = Vec::new();
    let mut i: usize = 0;
    while i + 1 < n
        invariant
            n == parts@.len(),
            n >= 1,
            pv == parts@.map_values(|p: Vec<char>| p@),
            i < n,
            strings_view(lines@) == pv.take(i as int).map_values(|p: Seq<char>| strip_cr(p)),
        decreases n - i,
    {
        let p = &parts[i];
        let m = p.len();
        let line = if m > 0 && p[m - 1] == '\r' {
            let sub = &p.as_slice()[0..m - 1];
            assert(sub@ =~= strip_cr(p@));
            string_from_chars(sub)
        } else {
            assert(strip_cr(p@) == p@);
            string_from_chars(p.as_slice())
        };
        assert(pv[i as int] == p@);
        assert(line@ == strip_cr(pv[i as int]));
        let ghost prev = strings_view(lines@);
        let ghost lv = line@;
        lines.push(line);
        assert(strings_view(lines@) =~= prev.push(lv));
        assert(pv.take(i + 1).map_values(|p: Seq<char>| strip_cr(p)) =~= pv.take(i as int).map_values(
            |p: Seq<char>| strip_cr(p),
        ).push(strip_cr(pv[i as int])));
        i = i + 1;
    }
    assert(pv.take(i as int) =~= pv.drop_last());
    let last = &parts[n - 1];
    assert(pv.last() == last@);
    if last.len() > 0 {
        lines.push(string_from_chars(last.as_slice()));
        assert(strings_view(lines@) =~= text_lines_of(text@));
    } else {
        assert(strings_view(lines@) =~= text_lines_of(text@));
    }
    lines
}

/// A parsed value, or 0 when the text is not a number.
pub open spec fn or_zero(v: Option<nat>) -> nat {
    match v {
        Some(x) => x,
        None => 0,
    }
}

/// Whether the time `hour:minute` (UTC) lies in a broadcast schedule range
/// written `HHMM-HHMM`; a range whose start comes after its end wraps past
/// midnight; a text that is not two parts around one dash matches nothing,
/// and a part that is not a number counts as 0.
pub open spec fn time_in_range(range: Seq<char>, hour: u32, minute: u32) -> bool {
    let parts = split_on(range, '-');
    parts.len() == 2 && {
        let start = or_zero(parse_unsigned(parts[0], u32::MAX as nat));
        let end = or_zero(parse_unsigned(parts[1], u32::MAX as nat));
        let cur = hour * 100 + minute;
        if start <= end {
            start <= cur && cur <= end
        } else {
            cur >= start || cur <= end
        }
    }
}

/// Whether a broadcast is on the air at `utc_hour:utc_minute`, from its
/// schedule range `HHMM-HHMM`.
pub fn is_time_in_range(time_range: &str, utc_hour: u32, utc_minute: u32) -> (on_air: bool)
    requires
        utc_hour * 100 + utc_minute <= u32::MAX,
    ensures
        on_air == time_in_range(time_range@, utc_hour, utc_minute),
{
    let chars = chars_of(time_range);
    let parts = split_chars(chars.as_slice(), '-');
    if parts.len() != 2 {
        return false;
    }
    let start_val: u32 = match parse_unsigned_chars(parts[0].as_slice(), 0xFFFF_FFFF) {
        Some(v) => v as u32,
        None => 0,
    };
    let end_val: u32 = match parse_unsigned_chars(parts[1].as_slice(), 0xFFFF_FFFF) {
        Some(v) => v as u32,
        None => 0,
    };
    assert(parts@.map_values(|p: Vec<char>| p@)[0] == parts@[0]@);
    assert(parts@.map_values(|p: Vec<char>| p@)[1] == parts@[1]@);
    let current_val: u32 = utc_hour * 100 + utc_minute;
    if start_val <= end_val {
        current_val >= start_val && current_val <= end_val
    } else {
        current_val >= start_val || current_val <= end_val
    }
}

/// A byte that URL encoding keeps as it is.
pub open spec fn is_unreserved(b: u8) -> bool {
    (0x61 <= b <= 0x7A) || (0x41 <= b <= 0x5A) || (0x30 <= b <= 0x39) || b == 0x2D || b == 0x5F
        || b == 0x2E || b == 0x7E
}

/// The upper-case hexadecimal digit of `n` (0..=15).
pub open spec fn hex_char(n: u8) -> char {
    if n < 10 { ((0x30 + n) as u8) as char } else { ((0x41 + n - 10) as u8) as char }
}

/// What URL encoding writes for one byte: unreserved bytes as themselves, a
/// space as `+`, any other byte as `%` and two upper-case hexadecimal digits.
pub open spec fn url_piece(b: u8) -> Seq<char> {
    if is_unreserved(b) {
        seq![b as char]
    } else if b == 0x20 {
        seq!['+']
    } else {
        seq!['%', hex_char(b / 16), hex_char(b % 16)]
    }
}

/// The URL encoding of a byte sequence.
pub open spec fn url_encoded(bytes: Seq<u8>) -> Seq<char>
    decreases bytes.len(),
{
    if bytes.len() == 0 {
        seq![]
    } else {
        url_encoded(bytes.drop_last()) + url_piece(bytes.last())
    }
}

/// The upper-case hexadecimal digit of `n` (0..=15).
fn hex_digit(n: u8) -> (c: char)
    requires
        n < 16,
    ensures
        c == hex_char(n),
{
    if n < 10 {
        (0x30 + n) as char
    } else {
        (0x41 + n - 10) as char
    }
}

/// URL-encodes the UTF-8 bytes of a text for a web search query.
pub fn url_encode(input: &str) -> (encoded: String)
    ensures
        encoded@ == url_encoded(input.spec_bytes()),
{
    let bytes = input.as_bytes();
    let mut out: Vec<char> = Vec::new();
    let mut i: usize = 0;
    assert(bytes@.take(0) =~= Seq::<u8>::empty());
    while i < bytes.len()
        invariant
            i <= bytes@.len(),
            out@ == url_encoded(bytes@.take(i as int)),
        decreases bytes@.len() - i,
    {
        let b = bytes[i];
        if (b >= 0x61 && b <= 0x7A) || (b >= 0x41 && b <= 0x5A) || (b >= 0x30 && b <= 0x39) || b == 0x2D
            || b == 0x5F || b == 0x2E || b == 0x7E {
            out.push(b as char);
        } else if b == 0x20 {
            out.push('+');
        } else {
            out.push('%');
            out.push(hex_digit(b / 16));
            out.push(hex_digit(b % 16));
        }
        i = i + 1;
        assert(bytes@.take(i as int).drop_last() =~= bytes@.take(i - 1));
        assert(out@ =~= url_encoded(bytes@.take(i as int)));
    }
    assert(bytes@.take(bytes@.len() as int) =~= bytes@);
    string_from_chars(out.as_slice())
}

/// Appends characters to a list.
pub(crate) fn append_chars(out: &mut Vec<char>, more: &[char])
    ensures
        final(out)@ == old(out)@ + more@,
{
    let mut i: usize = 0;
    while i < more.len()
        invariant
            i <= more@.len(),
            out@ == old(out)@ + more@.take(i as int),
        decreases more@.len() - i,
    {
        out.push(more[i]);
        i = i + 1;
        assert(out@ =~= old(out)@ + more@.take(i as int));
    }
    assert(more@.take(more@.len() as int) =~= more@);
}

/// The web search the panel opens for a station: its name and its frequency
/// in whole kHz, as in "name 6070 kHz", URL-encoded (a space becoming `+`;
/// digits and letters of "kHz" are kept as they are).
pub fn station_search_url(name: &str, freq_hz: u64) -> (url: String)
    ensures
        url@ == "https://www.google.com/search?q="@ + url_encoded(name.spec_bytes()) + seq!['+']
            + decimal((freq_hz / 1000) as nat) + "+kHz"@,
{
    let mut out = chars_of("https://www.google.com/search?q=");
    let encoded = url_encode(name);
    let e = chars_of(encoded.as_str());
    append_chars(&mut out, e.as_slice());
    out.push('+');
    let digits = decimal_chars(freq_hz / 1000);
    append_chars(&mut out, digits.as_slice());
    let tail = chars_of("+kHz");
    append_chars(&mut out, tail.as_slice());
    string_from_chars(out.as_slice())
}

/// The S-meter reading shown for a raw meter value: "S0" to "S9" in steps
/// of 13 below 120, then "S9 +NdB" with 2 raw units a dB.
pub open spec fn s_meter_text(val: u8) -> Seq<char> {
    if val < 120 {
        seq!['S'] + decimal((val / 13) as nat)
    } else {
        "S9 +"@ + decimal(((val - 120) / 2) as nat) + "dB"@
    }
}

/// The S-meter reading shown for a raw meter value.
pub fn s_meter_label(val: u8) -> (label: String)
    ensures
        label@ == s_meter_text(val),
{
    let mut out: Vec<char> = Vec::new();
    if val < 120 {
        out.push('S');
        let d = decimal_chars((val / 13) as u64);
        append_chars(&mut out, d.as_slice());
        assert(out@ =~= seq!['S'] + decimal((val / 13) as nat));
    } else {
        let head = chars_of("S9 +");
        append_chars(&mut out, head.as_slice());
        let d = decimal_chars(((val - 120) / 2) as u64);
        append_chars(&mut out, d.as_slice());
        let tail = chars_of("dB");
        append_chars(&mut out, tail.as_slice());
    }
    string_from_chars(out.as_slice())
}

} // verus!
