//! The waterfall's history of band-scope sweeps: newest sweep first, at most
//! as many sweeps as the waterfall is high, all as wide as the last sweep;
//! and the raw form in which the history is kept between sessions.

use vstd::prelude::*;

verus! {

/// The sweeps the waterfall shows, and its size.
pub struct WaterfallHistory {
    /// Points per sweep.
    pub width: usize,
    /// Sweeps shown.
    pub height: usize,
    /// The sweeps, newest first.
    pub rows: Vec<Vec<u8>>,
    /// The last sweep received.
    pub current_sweep: Vec<u8>,
}

/// The waterfall as plain sequences.
pub struct WaterfallModel {
    pub width: nat,
    pub height: nat,
    pub rows: Seq<Seq<u8>>,
    pub current_sweep: Seq<u8>,
}

/// The sequences of a list of rows.
pub open spec fn rows_view(rows: Seq<Vec<u8>>) -> Seq<Seq<u8>> {
    rows.map_values(|r: Vec<u8>| r@)
}

impl View for WaterfallHistory {
    type V = WaterfallModel;

    open spec fn view(&self) -> WaterfallModel {
        WaterfallModel {
            width: self.width as nat,
            height: self.height as nat,
            rows: rows_view(self.rows@),
            current_sweep: self.current_sweep@,
        }
    }
}

/// The waterfall after a sweep arrives. An empty sweep changes nothing.
/// A sweep of another width resizes the waterfall and forgets the older
/// sweeps. The sweep goes first; when the history then holds more sweeps
/// than the waterfall is high, the oldest one goes.
pub open spec fn pushed(w: WaterfallModel, sweep: Seq<u8>) -> WaterfallModel {
    if sweep.len() == 0 {
        w
    } else {
        let kept = if w.width == sweep.len() { w.rows } else { Seq::<Seq<u8>>::empty() };
        let rows = seq![sweep] + kept;
        WaterfallModel {
            width: sweep.len(),
            height: w.height,
            rows: if rows.len() > w.height { rows.drop_last() } else { rows },
            current_sweep: sweep,
        }
    }
}

/// A copy of a byte slice.
fn bytes_copy(b: &[u8]) -> (v: Vec<u8>)
    ensures
        v@ == b@,
{
    let mut v: Vec<u8> = Vec::new();
    let mut i: usize = 0;
    while i < b.len()
        invariant
            i <= b@.len(),
            v@ == b@.take(i as int),
        decreases b@.len() - i,
    {
        v.push(b[i]);
        i = i + 1;
        assert(v@ =~= b@.take(i as int));
    }
    assert(b@.take(b@.len() as int) =~= b@);
    v
}

impl WaterfallHistory {
    /// An empty waterfall of the given size.
    pub fn new(width: usize, height: usize) -> (w: WaterfallHistory)
        ensures
            w@ == (WaterfallModel {
                width: width as nat,
                height: height as nat,
                rows: Seq::<Seq<u8>>::empty(),
                current_sweep: Seq::new(width as nat, |i: int| 0u8),
            }),
    {
        let mut sweep: Vec<u8> = Vec::new();
        let mut i: usize = 0;
        while i < width
            invariant
                i <= width,
                sweep@ == Seq::new(i as nat, |j: int| 0u8),
            decreases width - i,
        {
            sweep.push(0);
            i = i + 1;
            assert(sweep@ =~= Seq::new(i as nat, |j: int| 0u8));
        }
        let rows: Vec<Vec<u8>> = Vec::new();
        assert(rows_view(rows@) =~= Seq::<Seq<u8>>::empty());
        WaterfallHistory { width, height, rows, current_sweep: sweep }
    }

    /// Takes a new sweep into the waterfall.
    pub fn push_sweep(&mut self, sweep: &[u8])
        ensures
            final(self)@ == pushed(old(self)@, sweep@),
    {
        if sweep.len() == 0 {
            return;
        }
        if self.width != sweep.len() {
            self.width = sweep.len();
            self.rows = Vec::new();
            assert(rows_view(self.rows@) =~= Seq::<Seq<u8>>::empty());
        }
        let ghost kept = rows_view(self.rows@);
        self.current_sweep = bytes_copy(sweep);
        self.rows.insert(0, bytes_copy(sweep));
        assert(rows_view(self.rows@) =~= seq![sweep@] + kept);
        if self.rows.len() > self.height {
            self.rows.pop();
            assert(rows_view(self.rows@) =~= (seq![sweep@] + kept).drop_last());
        }
    }
}

/// The bytes of a history kept between sessions: the sweeps one after the
/// other, newest first.
pub open spec fn history_bytes(rows: Seq<Seq<u8>>) -> Seq<u8>
    decreases rows.len(),
{
    if rows.len() == 0 {
        Seq::empty()
    } else {
        history_bytes(rows.drop_last()) + rows.last()
    }
}

/// A history read back from its bytes: the whole sweeps of `width` bytes
/// each, any shorter rest left out.
pub open spec fn history_rows(bytes: Seq<u8>, width: nat) -> Seq<Seq<u8>>
    recommends
        width > 0,
    decreases bytes.len(),
{
    if width == 0 || bytes.len() < width {
        Seq::empty()
    } else {
        seq![bytes.take(width as int)] + history_rows(bytes.skip(width as int), width)
    }
}

/// The bytes under which the waterfall history is kept between sessions.
pub fn waterfall_history_bytes(rows: &Vec<Vec<u8>>) -> (bytes: Vec<u8>)
    ensures
        bytes@ == history_bytes(rows_view(rows@)),
{
    let mut bytes: Vec<u8> = Vec::new();
    let mut i: usize = 0;
    while i < rows.len()
        invariant
            i <= rows@.len(),
            bytes@ == history_bytes(rows_view(rows@).take(i as int)),
        decreases rows@.len() - i,
    {
        let row = &rows[i];
        let ghost before = bytes@;
        let mut j: usize = 0;
        while j < row.len()
            invariant
                j <= row@.len(),
                bytes@ == before + row@.take(j as int),
            decreases row@.len() - j,
        {
            bytes.push(row[j]);
            j = j + 1;
            assert(bytes@ =~= before + row@.take(j as int));
        }
        assert(row@.take(row@.len() as int) =~= row@);
        assert(rows_view(rows@).take(i + 1).drop_last() =~= rows_view(rows@).take(i as int));
        i = i + 1;
    }
    assert(rows_view(rows@).take(rows@.len() as int) =~= rows_view(rows@));
    bytes
}

/// Reads a waterfall history back from its bytes, in sweeps of `width`
/// bytes; a shorter rest is left out.
pub fn waterfall_history_rows(bytes: &[u8], width: usize) -> (rows: Vec<Vec<u8>>)
    requires
        width > 0,
    ensures
        rows_view(rows@) == history_rows(bytes@, width as nat),
{
    let mut rows: Vec<Vec<u8>> = Vec::new();
    let mut start: usize = 0;
    assert(bytes@.skip(0) =~= bytes@);
    while bytes.len() - start >= width
        invariant
            width > 0,
            start <= bytes@.len(),
            rows_view(rows@) + history_rows(bytes@.skip(start as int), width as nat)
                == history_rows(bytes@, width as nat),
        decreases bytes@.len() - start,
    {
        let mut row: Vec<u8> = Vec::new();
        let mut j: usize = 0;
        while j < width
            invariant
                start + width <= bytes.len(),
                j <= width,
                row@ == bytes@.subrange(start as int, start + j),
            decreases width - j,
        {
            row.push(bytes[start + j]);
            j = j + 1;
            assert(row@ =~= bytes@.subrange(start as int, start + j));
        }
        let ghost rest = bytes@.skip(start as int);
        assert(rest.take(width as int) =~= row@);
        assert(rest.skip(width as int) =~= bytes@.skip(start + width));
        let ghost before = rows_view(rows@);
        rows.push(row);
        assert(rows_view(rows@) =~= before + seq![row@]);
        assert(before + seq![row@] + history_rows(bytes@.skip(start + width), width as nat)
            =~= before + (seq![row@] + history_rows(bytes@.skip(start + width), width as nat)));
        start = start + width;
    }
    assert(history_rows(bytes@.skip(start as int), width as nat) =~= Seq::<Seq<u8>>::empty());
    assert(rows_view(rows@) + Seq::<Seq<u8>>::empty() =~= rows_view(rows@));
    rows
}

/// A waterfall as it is kept: no more sweeps than it is high, each as wide
/// as the waterfall.
pub open spec fn waterfall_wf(w: WaterfallModel) -> bool {
    &&& w.rows.len() <= w.height
    &&& forall|i: int| 0 <= i < w.rows.len() ==> #[trigger] w.rows[i].len() == w.width
}

/// Taking a sweep in keeps a waterfall as it is kept, and a waterfall at
/// least one sweep high then shows the new sweep first.
pub proof fn lemma_push_keeps_waterfall(w: WaterfallModel, sweep: Seq<u8>)
    requires
        waterfall_wf(w),
    ensures
        waterfall_wf(pushed(w, sweep)),
        sweep.len() > 0 && w.height > 0 ==> pushed(w, sweep).rows[0] == sweep,
{
    if sweep.len() > 0 {
        let kept = if w.width == sweep.len() { w.rows } else { Seq::<Seq<u8>>::empty() };
        let rows = seq![sweep] + kept;
        assert forall|i: int| 0 <= i < rows.len() implies #[trigger] rows[i].len() == sweep.len() by {
            if i > 0 {
                assert(rows[i] == kept[i - 1]);
            }
        }
        if rows.len() > w.height {
            assert forall|i: int| 0 <= i < rows.drop_last().len() implies #[trigger] rows.drop_last()[i].len()
                == sweep.len() by {
                assert(rows.drop_last()[i] == rows[i]);
            }
        }
    }
}

/// The bytes of a history that starts with one sweep: that sweep's bytes,
/// then those of the rest.
proof fn lemma_history_bytes_first(r: Seq<u8>, rest: Seq<Seq<u8>>)
    ensures
        history_bytes(seq![r] + rest) == r + history_bytes(rest),
    decreases rest.len(),
{
    if rest.len() == 0 {
        assert(seq![r] + rest =~= seq![r]);
        assert(seq![r].drop_last() =~= Seq::<Seq<u8>>::empty());
        assert(history_bytes(seq![r]) == history_bytes(Seq::<Seq<u8>>::empty()) + r);
        assert(r + history_bytes(rest) =~= r);
        assert(Seq::<u8>::empty() + r =~= r);
    } else {
        lemma_history_bytes_first(r, rest.drop_last());
        assert((seq![r] + rest).drop_last() =~= seq![r] + rest.drop_last());
        assert((seq![r] + rest).last() == rest.last());
        assert(r + history_bytes(rest.drop_last()) + rest.last() =~= r + (history_bytes(rest.drop_last())
            + rest.last()));
    }
}

/// The waterfall history kept between sessions reads back as it was, when
/// its sweeps all have the width it is read with.
pub proof fn lemma_history_bytes_read_back(rows: Seq<Seq<u8>>, width: nat)
    requires
        width > 0,
        forall|i: int| 0 <= i < rows.len() ==> #[trigger] rows[i].len() == width,
    ensures
        history_rows(history_bytes(rows), width) == rows,
    decreases rows.len(),
{
    if rows.len() == 0 {
        assert(history_bytes(rows) =~= Seq::<u8>::empty());
    } else {
        let r = rows[0];
        let rest = rows.drop_first();
        assert(rows =~= seq![r] + rest);
        lemma_history_bytes_first(r, rest);
        assert forall|i: int| 0 <= i < rest.len() implies #[trigger] rest[i].len() == width by {
            assert(rest[i] == rows[i + 1]);
        }
        lemma_history_bytes_read_back(rest, width);
        let b = r + history_bytes(rest);
        assert(b.take(width as int) =~= r);
        assert(b.skip(width as int) =~= history_bytes(rest));
    }
}

} // verus!
