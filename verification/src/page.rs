//! The model of a waveform page: the sample buffer, the selection within it,
//! and the edit session in which the selected samples are redrawn by hand
//! and rewritten by the formula.
//!
//! Everything that depends on the on-screen transform (pixel positions,
//! zoom factors) is computed by the view; the model receives sample indices
//! and amplitudes and tells the view what it has left to do.
use vstd::prelude::*;
use crate::sources::random_sample;

verus! {

/// Largest magnitude of a generated noise sample.
pub const LIMIT: i16 = 256;

/// The value of `wrap(v)`: `v` brought into `[-LIMIT, LIMIT]` by whole steps
/// of `LIMIT`, stopping at the first value inside the range.
pub open spec fn spec_wrap(v: int) -> int {
    if v < -256 {
        -256 + (v + 256) % 256
    } else if v > 256 {
        256 - (256 - v) % 256
    } else {
        v
    }
}

/// Brings `val` into `[-LIMIT, LIMIT]` by adding or subtracting `LIMIT`.
pub fn wrap(val: i16) -> (r: i16)
    ensures
        r == spec_wrap(val as int),
{
    let ghost orig = val as int;
    let mut val = val;
    let ghost mut k: int = 0;
    while val < -LIMIT
        invariant
            val == orig + 256 * k,
            k >= 0,
            k > 0 ==> val < 0 && orig < -256,
            k == 0 ==> val == orig,
        decreases 0 - val,
    {
        val += LIMIT;
        proof {
            k = k + 1;
        }
    }
    let ghost mid = val as int;
    let ghost mut j: int = 0;
    while val > LIMIT
        invariant
            val == mid - 256 * j,
            j >= 0,
            j > 0 ==> val > 0 && mid > 256,
            j == 0 ==> val == mid,
        decreases val,
    {
        val -= LIMIT;
        proof {
            j = j + 1;
        }
    }
    proof {
        if orig < -256 {
            vstd::arithmetic::div_mod::lemma_fundamental_div_mod_converse(
                orig + 256,
                256,
                -k,
                val + 256,
            );
        } else if orig > 256 {
            vstd::arithmetic::div_mod::lemma_fundamental_div_mod_converse(
                256 - orig,
                256,
                -j,
                256 - val,
            );
        }
    }
    val
}

/// Law: wrapping yields a value within `[-LIMIT, LIMIT]` that differs from
/// the input by a whole multiple of `LIMIT`, and wrapping it again changes
/// nothing.
pub proof fn law_wrap(v: int)
    ensures
        -256 <= spec_wrap(v) <= 256,
        (spec_wrap(v) - v) % 256 == 0,
        spec_wrap(spec_wrap(v)) == spec_wrap(v),
{
    if v < -256 {
        let q = (v + 256) / 256;
        vstd::arithmetic::div_mod::lemma_fundamental_div_mod(v + 256, 256);
        vstd::arithmetic::div_mod::lemma_fundamental_div_mod_converse(spec_wrap(v) - v, 256, -q, 0);
    } else if v > 256 {
        let q = (256 - v) / 256;
        vstd::arithmetic::div_mod::lemma_fundamental_div_mod(256 - v, 256);
        vstd::arithmetic::div_mod::lemma_fundamental_div_mod_converse(spec_wrap(v) - v, 256, q, 0);
    }
}


/// Sample `i` of a wedge whose sign alternates around `focus`.
pub open spec fn wedge_sample(i: int, focus: int) -> int {
    if i % 2 == 0 {
        -(i - focus)
    } else {
        i - focus
    }
}

/// Every sample of a wedge of `len` samples around `focus` fits in an `i16`.
pub open spec fn wedge_fits(len: usize, focus: i16) -> bool {
    &&& len <= 32768
    &&& len > 0 ==> len - 1 - focus <= i16::MAX
}

/// `len` samples of a wedge that alternates in sign around `focus`.
pub fn wedge(len: usize, focus: i16) -> (r: Vec<i16>)
    requires
        wedge_fits(len, focus),
    ensures
        r@.len() == len,
        forall|i: int| 0 <= i < len ==> #[trigger] r@[i] == wedge_sample(i, focus as int),
{
    let mut data: Vec<i16> = Vec::new();
    let mut i: usize = 0;
    while i < len
        invariant
            i <= len,
            wedge_fits(len, focus),
            data@.len() == i,
            forall|j: int| 0 <= j < i ==> #[trigger] data@[j] == wedge_sample(j, focus as int),
        decreases len - i,
    {
        let mut res: i16 = i as i16;
        assert(res == i);
        res -= focus;
        assert(res == i - focus);
        if i % 2 == 0 {
            res = -res;
        }
        assert(res == wedge_sample(i as int, focus as int));
        let ghost prev = data@;
        data.push(res);
        assert(data@ == prev.push(res));
        i = i + 1;
    }
    data
}

/// `raw` with every sample wrapped into `[-LIMIT, LIMIT]`.
pub fn noise_from(raw: &Vec<i16>) -> (r: Vec<i16>)
    ensures
        r@.len() == raw@.len(),
        forall|i: int| 0 <= i < raw@.len() ==> r@[i] == spec_wrap(raw@[i] as int),
{
    let mut data: Vec<i16> = Vec::new();
    let mut i: usize = 0;
    while i < raw.len()
        invariant
            i <= raw@.len(),
            data@.len() == i,
            forall|j: int| 0 <= j < i ==> data@[j] == spec_wrap(raw@[j] as int),
        decreases raw.len() - i,
    {
        data.push(wrap(raw[i]));
        i = i + 1;
    }
    data
}

/// `len` noise samples: random values wrapped into `[-LIMIT, LIMIT]`.
pub fn noise(len: usize) -> (r: Vec<i16>)
    ensures
        r@.len() == len,
        forall|i: int| 0 <= i < len ==> -LIMIT <= #[trigger] r@[i] <= LIMIT,
{
    let mut raw: Vec<i16> = Vec::new();
    let mut i: usize = 0;
    while i < len
        invariant
            i <= len,
            raw@.len() == i,
        decreases len - i,
    {
        raw.push(random_sample());
        i = i + 1;
    }
    let r = noise_from(&raw);
    assert forall|i: int| 0 <= i < len implies -LIMIT <= #[trigger] r@[i] <= LIMIT by {
        law_wrap(raw@[i] as int);
    }
    r
}


/// The samples a cut removes: positions `s0` through `s1`.
pub open spec fn cut_piece(d: Seq<i16>, s0: int, s1: int) -> Seq<i16> {
    d.subrange(s0, s1 + 1)
}

/// The samples a cut leaves: everything before `s0` and after `s1`.
pub open spec fn cut_rest(d: Seq<i16>, s0: int, s1: int) -> Seq<i16> {
    d.subrange(0, s0) + d.subrange(s1 + 1, d.len() as int)
}

/// `n` silent samples.
pub open spec fn silence(n: nat) -> Seq<i16> {
    Seq::new(n, |i: int| 0i16)
}

/// `chunk` inserted into `d` before position `at`.
pub open spec fn spliced(d: Seq<i16>, at: int, chunk: Seq<i16>) -> Seq<i16> {
    d.subrange(0, at) + chunk + d.subrange(at, d.len() as int)
}

/// The samples a copy takes: positions `s0` through `s1`, as far as `d` reaches.
pub open spec fn copy_range(d: Seq<i16>, s0: int, s1: int) -> Seq<i16> {
    let hi = if s1 + 1 < d.len() { s1 + 1 } else { d.len() as int };
    if s0 < hi {
        d.subrange(s0, hi)
    } else {
        Seq::empty()
    }
}

/// `d` with `piece` written over it from position `at` on.
pub open spec fn written_back(d: Seq<i16>, at: int, piece: Seq<i16>) -> Seq<i16> {
    Seq::new(d.len(), |i: int| if at <= i < at + piece.len() { piece[i - at] } else { d[i] })
}

/// `buf` with the entries from `lo` up to (not including) `hi`, and the
/// entry `p`, emptied.
pub open spec fn erased(buf: Seq<Option<i16>>, lo: int, hi: int, p: int) -> Seq<Option<i16>> {
    Seq::new(buf.len(), |i: int| if lo <= i < hi || i == p { None } else { buf[i] })
}

/// `aff` with the entries `lo` through `hi` taken back from `d`, which `aff`
/// mirrors from position `off` on.
pub open spec fn restored(aff: Seq<i16>, d: Seq<i16>, off: int, lo: int, hi: int) -> Seq<i16> {
    Seq::new(aff.len(), |i: int| if lo <= i <= hi { d[i + off] } else { aff[i] })
}

/// The position `pos` kept within a buffer of `len` samples.
pub open spec fn last_index(pos: usize, len: nat) -> usize {
    if pos < len { pos } else { (len - 1) as usize }
}

/// The position `pos` moved into the selection `[s0, s1]`.
pub open spec fn clamp_pos(pos: int, s0: int, s1: int) -> int {
    let p = if pos < s1 { pos } else { s1 };
    if p > s0 { p } else { s0 }
}

/// The hand-drawn amplitudes of `buf` at entries `lo` through `hi` (as far as
/// `buf` reaches), each with its entry index, in order.
pub open spec fn edits_in(buf: Seq<Option<i16>>, lo: int, hi: int) -> Seq<(usize, i16)>
    decreases hi - lo,
{
    if hi <= lo {
        Seq::empty()
    } else {
        let prev = edits_in(buf, lo, hi - 1);
        match buf[hi - 1] {
            Some(v) => prev.push(((hi - 1) as usize, v)),
            None => prev,
        }
    }
}

/// What the view still has to do after the model handled a signal.
#[derive(Debug, PartialEq, Eq, Clone, Copy, Structural)]
pub enum PageWork {
    /// Nothing changed on screen.
    Nothing,
    /// Redraw.
    Redraw,
    /// Scroll the view by the signal's wheel delta, then redraw.
    Scroll,
    /// Zoom the view by the signal's factors, then redraw.
    Scale,
    /// Fit the view to the selection, then redraw.
    AllignSelect,
    /// Make both zoom factors positive, then redraw.
    FixNegScale,
    /// Restore the initial view, then redraw.
    ResetView,
    /// Run the formula on the hand-drawn samples at positions `begin`
    /// through `end`, after interpolating the samples between them when
    /// `smooth` holds, then redraw.
    Recalc { begin: usize, end: usize, smooth: bool },
}

/// A pointer gesture on the waveform, with positions already turned into
/// sample indices and amplitudes by the view.
#[derive(Debug, PartialEq, Eq, Clone, Copy, Structural)]
pub enum DrawerInput {
    Scroll,
    ResizeBegin,
    ResizeOrEraseEnd,
    /// A drag with the right button; `pos` is the sample under the pointer.
    ResizeOrErase { pos: usize },
    /// The left button went down over sample `pos`.
    SelectOrEditBegin { pos: usize },
    /// A drag with the left button over sample `pos` at amplitude `amp`.
    SelectOrEdit { pos: usize, amp: i16 },
    /// The left button came up over sample `pos`.
    SelectOrEditEnd { pos: usize },
    ForceRedraw,
}

/// A command from the page's menus.
#[derive(Debug, PartialEq, Eq, Clone, Copy, Structural)]
pub enum WavePageSig {
    AllignSelect,
    FixNegScale,
    ToggleEditMode { save: bool },
    ResetView,
    Cut { delete: bool },
    Copy,
    Paste { empty: Option<usize> },
    /// The formula was replaced by one that resolved without error.
    FormulaChanged,
}

/// The state of a waveform page.
#[derive(Debug)]
pub struct WaveformPage {
    /// The samples.
    pub data: Vec<i16>,
    /// First and last selected sample.
    pub selection: (usize, usize),
    /// In edit mode: the hand-drawn amplitude of each selected sample, if any.
    pub edit_buffer: Vec<Option<i16>>,
    /// In edit mode: the selected samples as the edit would leave them.
    pub affected_data: Vec<i16>,
    pub sample_rate: u32,
    pub channels: u16,
    pub edit_mode: bool,
    /// The sample last drawn or erased in the current stroke.
    pub edit_last_pos: Option<usize>,
}

/// `n` is `o` with the selection started at sample `pos`, kept within the data.
pub open spec fn select_begun(o: WaveformPage, pos: usize, n: WaveformPage) -> bool {
    n == (WaveformPage { selection: (last_index(pos, o.data@.len()), o.selection.1), ..o })
}

/// `n` is `o` with the selection ended at sample `pos`, kept within the data.
pub open spec fn select_ended(o: WaveformPage, pos: usize, n: WaveformPage) -> bool {
    n == (WaveformPage { selection: (o.selection.0, last_index(pos, o.data@.len())), ..o })
}

/// `n` is `o` with the two ends of the selection in order.
pub open spec fn selection_fixed(o: WaveformPage, n: WaveformPage) -> bool {
    n == (WaveformPage {
        selection: if o.selection.0 > o.selection.1 {
            (o.selection.1, o.selection.0)
        } else {
            o.selection
        },
        ..o
    })
}

/// `n` is `o` with the current stroke ended.
pub open spec fn stroke_ended(o: WaveformPage, n: WaveformPage) -> bool {
    n == (WaveformPage { edit_last_pos: None, ..o })
}

/// The first and last sample a stroke step to `p` covers.
pub open spec fn stroke_span(last: Option<usize>, p: int) -> (int, int) {
    match last {
        Some(q) => if q < p { (q as int, p) } else { (p, q as int) },
        None => (p, p),
    }
}

/// `n` is `o` after erasing at sample `pos` (see `erase`).
pub open spec fn erased_at(o: WaveformPage, pos: usize, n: WaveformPage) -> bool {
    let s0 = o.selection.0 as int;
    let p = clamp_pos(pos as int, s0, o.selection.1 as int);
    let (lo, hi) = stroke_span(o.edit_last_pos, p);
    &&& n.edit_buffer@ == erased(o.edit_buffer@, lo - s0, hi - s0, p - s0)
    &&& n.affected_data@ == restored(o.affected_data@, o.data@, s0, lo - s0, hi - s0)
    &&& n.edit_last_pos == Some(p as usize)
    &&& n.data == o.data
    &&& n.selection == o.selection
    &&& n.edit_mode == o.edit_mode
    &&& n.sample_rate == o.sample_rate
    &&& n.channels == o.channels
}

/// `n` is `o` after drawing amplitude `amp` at sample `pos`, and `w` is the
/// work left to the view (see `mark_edit`).
pub open spec fn drawn_at(o: WaveformPage, pos: usize, amp: i16, n: WaveformPage, w: PageWork) -> bool {
    let s0 = o.selection.0 as int;
    let p = clamp_pos(pos as int, s0, o.selection.1 as int);
    let (lo, hi) = stroke_span(o.edit_last_pos, p);
    &&& n.edit_buffer@ == o.edit_buffer@.update(p - s0, Some(amp))
    &&& n.edit_last_pos == Some(p as usize)
    &&& w == PageWork::Recalc { begin: lo as usize, end: hi as usize, smooth: o.edit_last_pos is Some }
    &&& n.data == o.data
    &&& n.affected_data == o.affected_data
    &&& n.selection == o.selection
    &&& n.edit_mode == o.edit_mode
    &&& n.sample_rate == o.sample_rate
    &&& n.channels == o.channels
}

/// `n` is `o` after cutting out the selection, which held `piece`.
pub open spec fn cut_done(o: WaveformPage, n: WaveformPage, piece: Seq<i16>) -> bool {
    &&& piece == cut_piece(o.data@, o.selection.0 as int, o.selection.1 as int)
    &&& n.data@ == cut_rest(o.data@, o.selection.0 as int, o.selection.1 as int)
    &&& n.selection == (o.selection.0, o.selection.0)
    &&& n.edit_buffer@.len() == 0
    &&& n.affected_data@.len() == 0
    &&& n.edit_mode == o.edit_mode
    &&& n.edit_last_pos == o.edit_last_pos
    &&& n.sample_rate == o.sample_rate
    &&& n.channels == o.channels
}

/// `n` is `o` with `chunk` inserted before the start of the selection.
pub open spec fn inserted(o: WaveformPage, chunk: Seq<i16>, n: WaveformPage) -> bool {
    &&& n.data@ == spliced(o.data@, o.selection.0 as int, chunk)
    &&& n.selection == o.selection
    &&& n.edit_buffer == o.edit_buffer
    &&& n.affected_data == o.affected_data
    &&& n.edit_mode == o.edit_mode
    &&& n.edit_last_pos == o.edit_last_pos
    &&& n.sample_rate == o.sample_rate
    &&& n.channels == o.channels
}

/// `n` is `o` after entering or leaving edit mode (see `switch_mode`).
pub open spec fn switched(o: WaveformPage, save: bool, n: WaveformPage) -> bool {
    &&& n.edit_mode == !o.edit_mode
    &&& n.selection == o.selection
    &&& n.edit_last_pos == o.edit_last_pos
    &&& n.sample_rate == o.sample_rate
    &&& n.channels == o.channels
    &&& !o.edit_mode ==> {
        &&& n.data == o.data
        &&& n.edit_buffer@ == Seq::new(
            (o.selection.1 - o.selection.0 + 1) as nat,
            |i: int| None::<i16>,
        )
        &&& n.affected_data@ == o.data@.subrange(o.selection.0 as int, o.selection.1 + 1)
    }
    &&& o.edit_mode ==> {
        &&& n.data@ == if save {
            written_back(o.data@, o.selection.0 as int, o.affected_data@)
        } else {
            o.data@
        }
        &&& n.edit_buffer@.len() == 0
        &&& n.affected_data@.len() == 0
    }
}


impl Default for WaveformPage {
    /// An empty page: no samples, nothing selected, no edit, sample rate
    /// and channel count zero.
    fn default() -> (r: Self)
        ensures
            r.data@.len() == 0,
            r.selection == (0usize, 0usize),
            r.edit_buffer@.len() == 0,
            r.affected_data@.len() == 0,
            r.sample_rate == 0,
            r.channels == 0,
            !r.edit_mode,
            r.edit_last_pos is None,
    {
        WaveformPage {
            data: Vec::new(),
            selection: (0, 0),
            edit_buffer: Vec::new(),
            affected_data: Vec::new(),
            sample_rate: 0,
            channels: 0,
            edit_mode: false,
            edit_last_pos: None,
        }
    }
}

impl WaveformPage {
    /// The edit session matches the selection: one buffer entry per selected
    /// sample, the selection within the data, and the last stroke position
    /// within the selection.
    pub open spec fn edit_ready(&self) -> bool {
        &&& self.selection.0 <= self.selection.1 < self.data@.len()
        &&& self.edit_buffer@.len() == self.selection.1 - self.selection.0 + 1
        &&& self.affected_data@.len() == self.edit_buffer@.len()
        &&& self.edit_last_pos matches Some(p) ==> self.selection.0 <= p <= self.selection.1
    }

    /// A page of `len` wedge samples around `focus`, with the first half selected.
    pub fn new_wedge(len: usize, focus: i16) -> (r: Self)
        requires
            wedge_fits(len, focus),
        ensures
            r.data@.len() == len,
            forall|i: int| 0 <= i < len ==> #[trigger] r.data@[i] == wedge_sample(i, focus as int),
            r.selection == (0usize, len / 2),
            r.edit_buffer@.len() == 0,
            r.affected_data@.len() == 0,
            r.sample_rate == 44800,
            r.channels == 1,
            !r.edit_mode,
            r.edit_last_pos is None,
    {
        WaveformPage {
            data: wedge(len, focus),
            selection: (0, len / 2),
            edit_buffer: Vec::new(),
            affected_data: Vec::new(),
            sample_rate: 44800,
            channels: 1,
            edit_mode: false,
            edit_last_pos: None,
        }
    }

    /// A page of `len` noise samples, each within `[-LIMIT, LIMIT]`.
    pub fn new_noisy(len: usize) -> (r: Self)
        ensures
            r.data@.len() == len,
            forall|i: int| 0 <= i < len ==> -LIMIT <= #[trigger] r.data@[i] <= LIMIT,
            r.selection == (0usize, 0usize),
            r.edit_buffer@.len() == 0,
            r.affected_data@.len() == 0,
            r.sample_rate == 44800,
            r.channels == 1,
            !r.edit_mode,
            r.edit_last_pos is None,
    {
        WaveformPage {
            data: noise(len),
            selection: (0, 0),
            edit_buffer: Vec::new(),
            affected_data: Vec::new(),
            sample_rate: 44800,
            channels: 1,
            edit_mode: false,
            edit_last_pos: None,
        }
    }

    /// A page holding the given samples, nothing selected.
    pub fn new_widh_data(data: Vec<i16>, sample_rate: u32, channels: u16) -> (r: Self)
        ensures
            r.data == data,
            r.selection == (0usize, 0usize),
            r.edit_buffer@.len() == 0,
            r.affected_data@.len() == 0,
            r.sample_rate == sample_rate,
            r.channels == channels,
            !r.edit_mode,
            r.edit_last_pos is None,
    {
        WaveformPage {
            data,
            selection: (0, 0),
            edit_buffer: Vec::new(),
            affected_data: Vec::new(),
            sample_rate,
            channels,
            edit_mode: false,
            edit_last_pos: None,
        }
    }

    /// Appends `len` noise samples, each within `[-LIMIT, LIMIT]`.
    pub fn append_noise(&mut self, len: usize)
        ensures
            final(self).data@.len() == old(self).data@.len() + len,
            final(self).data@.subrange(0, old(self).data@.len() as int) == old(self).data@,
            forall|i: int|
                old(self).data@.len() <= i < final(self).data@.len() ==> -LIMIT
                    <= #[trigger] final(self).data@[i] <= LIMIT,
            final(self).selection == old(self).selection,
            final(self).edit_buffer == old(self).edit_buffer,
            final(self).affected_data == old(self).affected_data,
            final(self).sample_rate == old(self).sample_rate,
            final(self).channels == old(self).channels,
            final(self).edit_mode == old(self).edit_mode,
            final(self).edit_last_pos == old(self).edit_last_pos,
    {
        let mut extra = noise(len);
        let ghost before = self.data@;
        self.data.append(&mut extra);
        assert(self.data@.subrange(0, before.len() as int) =~= before);
    }

    /// The samples a spectrogram is made of: the edited selection in edit
    /// mode, otherwise the selected samples `selection.0 .. selection.1`.
    pub fn focus_data(&self) -> (r: Vec<i16>)
        requires
            !self.edit_mode ==> self.selection.0 <= self.selection.1 <= self.data@.len(),
        ensures
            r@ == if self.edit_mode {
                self.affected_data@
            } else {
                self.data@.subrange(self.selection.0 as int, self.selection.1 as int)
            },
    {
        if self.edit_mode {
            self.affected_data.clone()
        } else {
            slice_of(&self.data, self.selection.0, self.selection.1)
        }
    }

    pub fn sample_rate(&self) -> (r: u32)
        ensures
            r == self.sample_rate,
    {
        self.sample_rate
    }

    /// The number of samples between the two ends of the selection.
    pub fn select_len(&self) -> (r: usize)
        ensures
            r == if self.selection.0 <= self.selection.1 {
                self.selection.1 - self.selection.0
            } else {
                self.selection.0 - self.selection.1
            },
    {
        let hi = if self.selection.1 > self.selection.0 { self.selection.1 } else { self.selection.0 };
        let lo = if self.selection.0 < self.selection.1 { self.selection.0 } else { self.selection.1 };
        hi - lo
    }
}

/// The samples `from .. to` of `d`.
pub fn slice_of(d: &Vec<i16>, from: usize, to: usize) -> (r: Vec<i16>)
    requires
        from <= to <= d@.len(),
    ensures
        r@ == d@.subrange(from as int, to as int),
{
    let mut out: Vec<i16> = Vec::new();
    let mut i: usize = from;
    while i < to
        invariant
            from <= i <= to <= d@.len(),
            out@ == d@.subrange(from as int, i as int),
        decreases to - i,
    {
        out.push(d[i]);
        i = i + 1;
        assert(out@ =~= d@.subrange(from as int, i as int));
    }
    out
}


impl WaveformPage {
    /// Starts a selection at sample `pos`, kept within the data.
    fn select_begin(&mut self, pos: usize)
        requires
            old(self).data@.len() > 0,
        ensures
            select_begun(*old(self), pos, *final(self)),
    {
        let last = self.data.len() - 1;
        self.selection.0 = if pos < last { pos } else { last };
    }

    /// Moves the end of the selection to sample `pos`, kept within the data.
    fn select_end(&mut self, pos: usize)
        requires
            old(self).data@.len() > 0,
        ensures
            select_ended(*old(self), pos, *final(self)),
    {
        let last = self.data.len() - 1;
        self.selection.1 = if pos < last { pos } else { last };
    }

    /// Orders the two ends of the selection.
    fn fix_select(&mut self)
        ensures
            selection_fixed(*old(self), *final(self)),
    {
        if self.selection.0 > self.selection.1 {
            self.selection = (self.selection.1, self.selection.0);
        }
    }

    /// Takes the edited samples at positions `begin` through `end` back from
    /// the data.
    fn reset_range(&mut self, begin: usize, end: usize)
        requires
            old(self).edit_ready(),
            old(self).selection.0 <= begin <= end <= old(self).selection.1,
        ensures
            final(self).affected_data@ == restored(
                old(self).affected_data@,
                old(self).data@,
                old(self).selection.0 as int,
                begin - old(self).selection.0,
                end - old(self).selection.0,
            ),
            final(self).data == old(self).data,
            final(self).selection == old(self).selection,
            final(self).edit_buffer == old(self).edit_buffer,
            final(self).edit_mode == old(self).edit_mode,
            final(self).edit_last_pos == old(self).edit_last_pos,
            final(self).sample_rate == old(self).sample_rate,
            final(self).channels == old(self).channels,
    {
        let lo = begin - self.selection.0;
        let hi = end - self.selection.0;
        let ghost aff = self.affected_data@;
        let mut i = lo;
        while i <= hi
            invariant
                lo <= i <= hi + 1,
                self.selection == old(self).selection,
                self.data == old(self).data,
                self.edit_buffer == old(self).edit_buffer,
                self.edit_mode == old(self).edit_mode,
                self.edit_last_pos == old(self).edit_last_pos,
                self.sample_rate == old(self).sample_rate,
                self.channels == old(self).channels,
                hi + self.selection.0 < self.data.len(),
                self.affected_data@.len() == aff.len(),
                hi < self.affected_data.len(),
                forall|k: int|
                    0 <= k < aff.len() ==> #[trigger] self.affected_data@[k] == if lo <= k < i {
                        self.data@[k + self.selection.0]
                    } else {
                        aff[k]
                    },
            decreases hi + 1 - i,
        {
            let v = self.data[i + self.selection.0];
            self.affected_data.set(i, v);
            i = i + 1;
        }
        assert(self.affected_data@ =~= restored(aff, self.data@, self.selection.0 as int, lo as int, hi as int));
    }

    /// The hand-drawn amplitudes at positions `begin` through `end` that the
    /// formula has to be run on, each with its index within the selection.
    pub fn pending_edits(&self, begin: usize, end: usize) -> (r: Vec<(usize, i16)>)
        requires
            self.selection.0 <= begin <= end,
        ensures
            r@ == edits_in(
                self.edit_buffer@,
                begin - self.selection.0,
                if end - self.selection.0 + 1 < self.edit_buffer@.len() {
                    end - self.selection.0 + 1
                } else {
                    self.edit_buffer@.len() as int
                },
            ),
    {
        let lo = begin - self.selection.0;
        let hi = end - self.selection.0;
        let stop = if hi < self.edit_buffer.len() { hi + 1 } else { self.edit_buffer.len() };
        let mut out: Vec<(usize, i16)> = Vec::new();
        let mut i = lo;
        if stop <= lo {
            return out;
        }
        while i < stop
            invariant
                lo <= i <= stop <= self.edit_buffer@.len(),
                out@ == edits_in(self.edit_buffer@, lo as int, i as int),
            decreases stop - i,
        {
            match self.edit_buffer[i] {
                Some(v) => out.push((i, v)),
                None => {},
            }
            i = i + 1;
        }
        out
    }

    /// Erases the hand-drawn amplitude at sample `pos` (kept within the
    /// selection) and, within a stroke, at the samples between it and where
    /// the stroke last was (that end itself excluded when it lies after
    /// `pos`); all samples from one end to the other take their unedited
    /// values again.
    fn erase(&mut self, pos: usize)
        requires
            old(self).edit_ready(),
        ensures
            erased_at(*old(self), pos, *final(self)),
            final(self).edit_ready(),
    {
        let s0 = self.selection.0;
        let p0 = if pos < self.selection.1 { pos } else { self.selection.1 };
        let p = if p0 > s0 { p0 } else { s0 };
        let ghost buf = self.edit_buffer@;
        self.edit_buffer.set(p - s0, None);
        let (lo, hi) = match self.edit_last_pos {
            Some(q) => if q < p { (q, p) } else { (p, q) },
            None => (p, p),
        };
        let mut i = lo;
        while i < hi
            invariant
                lo <= i <= hi,
                s0 == self.selection.0,
                self.selection == old(self).selection,
                self.data == old(self).data,
                self.affected_data == old(self).affected_data,
                self.edit_mode == old(self).edit_mode,
                self.edit_last_pos == old(self).edit_last_pos,
                self.sample_rate == old(self).sample_rate,
                self.channels == old(self).channels,
                buf.len() == self.selection.1 - s0 + 1,
                s0 <= lo <= p <= hi <= self.selection.1,
                hi == p || lo == p,
                self.edit_buffer@.len() == buf.len(),
                forall|k: int|
                    0 <= k < buf.len() ==> #[trigger] self.edit_buffer@[k] == if (lo - s0 <= k
                        < i - s0) || k == p - s0 {
                        None
                    } else {
                        buf[k]
                    },
            decreases hi - i,
        {
            self.edit_buffer.set(i - s0, None);
            i = i + 1;
        }
        assert(self.edit_buffer@ =~= erased(buf, lo - s0, hi - s0, p - s0));
        self.reset_range(lo, hi);
        self.edit_last_pos = Some(p);
    }

    /// Records the hand-drawn amplitude `amp` at sample `pos` (kept within
    /// the selection) and says which samples have to be recomputed: within a
    /// stroke, those back to where the stroke last was, interpolated first.
    fn mark_edit(&mut self, pos: usize, amp: i16) -> (w: PageWork)
        requires
            old(self).edit_ready(),
        ensures
            drawn_at(*old(self), pos, amp, *final(self), w),
            final(self).edit_ready(),
    {
        let s0 = self.selection.0;
        let p0 = if pos < self.selection.1 { pos } else { self.selection.1 };
        let p = if p0 > s0 { p0 } else { s0 };
        self.edit_buffer.set(p - s0, Some(amp));
        let w = match self.edit_last_pos {
            Some(q) => if q < p {
                PageWork::Recalc { begin: q, end: p, smooth: true }
            } else {
                PageWork::Recalc { begin: p, end: q, smooth: true }
            },
            None => PageWork::Recalc { begin: p, end: p, smooth: false },
        };
        self.edit_last_pos = Some(p);
        w
    }
}


impl WaveformPage {
    /// Removes the selected samples (both ends included) and returns them;
    /// the selection collapses onto its start and any edit is dropped.
    fn cut_data(&mut self) -> (r: Vec<i16>)
        requires
            old(self).selection.1 < old(self).data@.len(),
            old(self).selection.0 <= old(self).selection.1 + 1,
        ensures
            cut_done(*old(self), *final(self), r@),
    {
        let ghost d = self.data@;
        assert(self.data@.len() == self.data.len());
        let mut tail = self.data.split_off(self.selection.1 + 1);
        let mid = self.data.split_off(self.selection.0);
        self.data.append(&mut tail);
        self.affected_data = Vec::new();
        self.edit_buffer = Vec::new();
        self.selection.1 = self.selection.0;
        assert(mid@ =~= cut_piece(d, old(self).selection.0 as int, old(self).selection.1 as int));
        assert(self.data@ =~= cut_rest(d, old(self).selection.0 as int, old(self).selection.1 as int));
        mid
    }

    /// The selected samples (both ends included), as far as the data reaches.
    fn copy_data(&self) -> (r: Vec<i16>)
        requires
            self.selection.1 < usize::MAX,
        ensures
            r@ == copy_range(self.data@, self.selection.0 as int, self.selection.1 as int),
    {
        let end = self.selection.1 + 1;
        let hi = if end < self.data.len() { end } else { self.data.len() };
        if self.selection.0 < hi {
            slice_of(&self.data, self.selection.0, hi)
        } else {
            Vec::new()
        }
    }

    /// Inserts `data` before the start of the selection.
    fn insert_data(&mut self, data: &[i16])
        requires
            old(self).selection.0 <= old(self).data@.len(),
        ensures
            inserted(*old(self), data@, *final(self)),
    {
        let ghost d = self.data@;
        let mut odata: Vec<i16> = Vec::new();
        let mut i: usize = 0;
        while i < data.len()
            invariant
                i <= data@.len(),
                odata@ == data@.subrange(0, i as int),
            decreases data.len() - i,
        {
            odata.push(data[i]);
            i = i + 1;
            assert(odata@ =~= data@.subrange(0, i as int));
        }
        assert(odata@ =~= data@);
        let mut tail = self.data.split_off(self.selection.0);
        self.data.append(&mut odata);
        self.data.append(&mut tail);
        assert(self.data@ =~= spliced(d, self.selection.0 as int, data@));
    }

    /// Inserts `n` silent samples before the start of the selection.
    fn pad_data(&mut self, n: usize)
        requires
            old(self).selection.0 <= old(self).data@.len(),
        ensures
            inserted(*old(self), silence(n as nat), *final(self)),
    {
        let ghost d = self.data@;
        let mut odata: Vec<i16> = Vec::new();
        let mut i: usize = 0;
        while i < n
            invariant
                i <= n,
                odata@ == silence(i as nat),
            decreases n - i,
        {
            odata.push(0);
            i = i + 1;
            assert(odata@ =~= silence(i as nat));
        }
        let mut tail = self.data.split_off(self.selection.0);
        self.data.append(&mut odata);
        self.data.append(&mut tail);
        assert(self.data@ =~= spliced(d, self.selection.0 as int, silence(n as nat)));
    }

    /// Enters or leaves edit mode. Entering starts an edit of the selected
    /// samples (both ends included) with nothing drawn yet, so the formula
    /// has nothing to rewrite. Leaving writes the edited samples into the
    /// data when `save` holds, and drops the edit.
    fn switch_mode(&mut self, save: bool)
        requires
            !old(self).edit_mode ==> old(self).selection.0 <= old(self).selection.1 < old(self).data@.len(),
            old(self).edit_mode && save ==> old(self).selection.0 + old(self).affected_data@.len()
                <= old(self).data@.len(),
        ensures
            switched(*old(self), save, *final(self)),
    {
        self.edit_mode = !self.edit_mode;
        if self.edit_mode {
            assert(self.data@.len() == self.data.len());
            let n = 1 + self.selection.1 - self.selection.0;
            let mut buf: Vec<Option<i16>> = Vec::new();
            let mut i: usize = 0;
            #[verifier::loop_isolation(false)]
            while i < n
                invariant
                    i <= n,
                    buf@ == Seq::new(i as nat, |k: int| None::<i16>),
                decreases n - i,
            {
                buf.push(None);
                i = i + 1;
                assert(buf@ =~= Seq::new(i as nat, |k: int| None::<i16>));
            }
            self.edit_buffer = buf;
            self.affected_data = slice_of(&self.data, self.selection.0, self.selection.1 + 1);
        } else {
            if save {
                let ghost d = self.data@;
                let s0 = self.selection.0;
                let mut i: usize = 0;
                while i < self.affected_data.len()
                    invariant
                        i <= self.affected_data@.len(),
                        s0 == self.selection.0,
                        self.selection == old(self).selection,
                        self.affected_data == old(self).affected_data,
                        self.edit_mode == !old(self).edit_mode,
                        self.edit_last_pos == old(self).edit_last_pos,
                        self.sample_rate == old(self).sample_rate,
                        self.channels == old(self).channels,
                        self.data.len() == d.len(),
                        s0 + self.affected_data@.len() <= self.data@.len(),
                        self.data@.len() == d.len(),
                        forall|k: int|
                            0 <= k < d.len() ==> #[trigger] self.data@[k] == if s0 <= k < s0 + i {
                                self.affected_data@[k - s0]
                            } else {
                                d[k]
                            },
                    decreases self.affected_data.len() - i,
                {
                    let v = self.affected_data[i];
                    self.data.set(i + s0, v);
                    i = i + 1;
                }
                assert(self.data@ =~= written_back(d, s0 as int, self.affected_data@));
            }
            self.affected_data = Vec::new();
            self.edit_buffer = Vec::new();
        }
    }
}

/// Law: pasting what a cut removed, at the start of the selection that the
/// cut leaves, gives back the samples as they were before the cut.
pub proof fn law_cut_then_paste_restores(d: Seq<i16>, s0: int, s1: int)
    requires
        0 <= s0 <= s1 + 1,
        s1 < d.len(),
    ensures
        spliced(cut_rest(d, s0, s1), s0, cut_piece(d, s0, s1)) == d,
{
    assert(spliced(cut_rest(d, s0, s1), s0, cut_piece(d, s0, s1)) =~= d);
}

/// Law: within the data, a copy takes exactly what a cut would remove.
pub proof fn law_copy_is_cut_piece(d: Seq<i16>, s0: int, s1: int)
    requires
        0 <= s0 <= s1 + 1,
        s1 < d.len(),
    ensures
        copy_range(d, s0, s1) == cut_piece(d, s0, s1),
{
    assert(copy_range(d, s0, s1) =~= cut_piece(d, s0, s1));
}

/// Law: an edit that is saved without any change leaves the data as it was.
pub proof fn law_unchanged_edit_saves_nothing(d: Seq<i16>, s0: int, s1: int)
    requires
        0 <= s0 <= s1 < d.len(),
    ensures
        written_back(d, s0, d.subrange(s0, s1 + 1)) == d,
{
    assert(written_back(d, s0, d.subrange(s0, s1 + 1)) =~= d);
}

/// Law: padding inserts exactly `n` silent samples and moves the rest along.
pub proof fn law_pad_inserts_silence(d: Seq<i16>, at: int, n: nat)
    requires
        0 <= at <= d.len(),
    ensures
        spliced(d, at, silence(n)).len() == d.len() + n,
        forall|i: int| at <= i < at + n ==> #[trigger] spliced(d, at, silence(n))[i] == 0,
        forall|i: int| 0 <= i < at ==> #[trigger] spliced(d, at, silence(n))[i] == d[i],
        forall|i: int| at <= i < d.len() ==> spliced(d, at, silence(n))[i + n] == d[i],
{
}


/// `n` and the clipboard `nb` are what the menu command `signal` makes of
/// the page `o` and the clipboard `ob`, and `w` is the work left to the view.
pub open spec fn page_signal_done(
    o: WaveformPage,
    signal: WavePageSig,
    ob: Seq<i16>,
    n: WaveformPage,
    nb: Seq<i16>,
    w: PageWork,
) -> bool {
    match signal {
        WavePageSig::AllignSelect => w == PageWork::AllignSelect && n == o
            && nb == ob,
        WavePageSig::FixNegScale => w == PageWork::FixNegScale && n == o
            && nb == ob,
        WavePageSig::ResetView => w == PageWork::ResetView && n == o
            && nb == ob,
        WavePageSig::ToggleEditMode { save } => w == PageWork::Redraw && switched(
            o,
            save,
            n,
        ) && nb == ob,
        WavePageSig::Cut { delete } => w == PageWork::Redraw && exists|piece: Seq<i16>|
            cut_done(o, n, piece) && nb == if delete {
                ob
            } else {
                piece
            },
        WavePageSig::Copy => w == PageWork::Redraw && n == o
            && nb == copy_range(
            o.data@,
            o.selection.0 as int,
            o.selection.1 as int,
        ),
        WavePageSig::Paste { empty } => w == PageWork::Redraw && nb == ob && inserted(
            o,
            match empty {
                Some(k) => silence(k as nat),
                None => ob,
            },
            n,
        ),
        WavePageSig::FormulaChanged => w == PageWork::Recalc {
            begin: o.selection.0,
            end: o.selection.1,
            smooth: false,
        } && n == o && nb == ob,
    }
}

/// `n` is what the pointer gesture `signal` makes of the page `o`, and `w`
/// is the work left to the view.
pub open spec fn drawer_input_done(o: WaveformPage, signal: DrawerInput, n: WaveformPage, w: PageWork) -> bool {
    match signal {
        DrawerInput::Scroll => w == PageWork::Scroll && n == o,
        DrawerInput::ResizeBegin | DrawerInput::ResizeOrEraseEnd => w == PageWork::Nothing
            && if o.edit_mode {
            stroke_ended(o, n)
        } else {
            n == o
        },
        DrawerInput::ResizeOrErase { pos } => if o.edit_mode {
            w == PageWork::Redraw && erased_at(o, pos, n)
        } else {
            w == PageWork::Scale && n == o
        },
        DrawerInput::SelectOrEditBegin { pos } => if o.edit_mode {
            w == PageWork::Nothing && stroke_ended(o, n)
        } else {
            w == PageWork::Redraw && select_begun(o, pos, n)
        },
        DrawerInput::SelectOrEdit { pos, amp } => if o.edit_mode {
            drawn_at(o, pos, amp, n, w)
        } else {
            w == PageWork::Redraw && select_ended(o, pos, n)
        },
        DrawerInput::SelectOrEditEnd { pos } => if o.edit_mode {
            w == PageWork::Nothing && stroke_ended(o, n)
        } else {
            w == PageWork::Redraw && exists|m: WaveformPage|
                select_ended(o, pos, m) && selection_fixed(m, n)
        },
        DrawerInput::ForceRedraw => w == PageWork::Redraw && n == o,
    }
}

/// Law: an erase step at sample `pos` (moved into the selection `[s0, s1]`,
/// giving `p`) within a stroke that was last at `q` clears the hand-drawn
/// amplitude of every sample from the smaller of `p` and `q` to the larger,
/// except `q` itself when the stroke moves back towards the start (that
/// sample was cleared by the step that reached it); it gives every sample
/// from one end to the other its unedited value again, leaves the other
/// samples' entries alone, and the stroke is now at `p`. Without an earlier
/// step, `q` is `p`.
pub proof fn law_erase_clears_the_swept_samples(o: WaveformPage, pos: usize, n: WaveformPage, w: PageWork)
    requires
        o.edit_mode,
        o.edit_ready(),
        drawer_input_done(o, DrawerInput::ResizeOrErase { pos }, n, w),
    ensures
        ({
            let s0 = o.selection.0 as int;
            let s1 = o.selection.1 as int;
            let p: int = if pos <= s0 { s0 } else if pos >= s1 { s1 } else { pos as int };
            let q: int = match o.edit_last_pos {
                Some(q) => q as int,
                None => p,
            };
            let lo: int = if p <= q { p } else { q };
            let hi: int = if p <= q { q } else { p };
            &&& w == PageWork::Redraw
            &&& n.edit_buffer@.len() == o.edit_buffer@.len()
            &&& forall|k: int|
                s0 <= k <= s1 ==> #[trigger] n.edit_buffer@[k - s0] == if lo <= k <= hi && (k != q
                    || q <= p) {
                    None
                } else {
                    o.edit_buffer@[k - s0]
                }
            &&& forall|k: int|
                s0 <= k <= s1 ==> #[trigger] n.affected_data@[k - s0] == if lo <= k <= hi {
                    o.data@[k]
                } else {
                    o.affected_data@[k - s0]
                }
            &&& o.edit_buffer@[q - s0] is None ==> forall|k: int|
                lo <= k <= hi ==> #[trigger] n.edit_buffer@[k - s0] is None
            &&& n.edit_last_pos == Some(p as usize)
            &&& n.data == o.data
            &&& n.selection == o.selection
            &&& n.edit_mode
        }),
{
    let s0 = o.selection.0 as int;
    let s1 = o.selection.1 as int;
    let p: int = if pos <= s0 { s0 } else if pos >= s1 { s1 } else { pos as int };
    let q: int = match o.edit_last_pos {
        Some(q) => q as int,
        None => p,
    };
    let lo: int = if p <= q { p } else { q };
    let hi: int = if p <= q { q } else { p };
    if o.edit_buffer@[q - s0] is None {
        assert forall|k: int| lo <= k <= hi implies #[trigger] n.edit_buffer@[k - s0] is None by {
            if k == q && q > p {
                assert(n.edit_buffer@[k - s0] == o.edit_buffer@[q - s0]);
            }
        }
    }
}

/// Law: a drawing step at sample `pos` (moved into the selection `[s0, s1]`,
/// giving `p`) records the amplitude at `p` and nowhere else, and leaves the
/// view to recompute: within a stroke that was last at `q`, every sample from
/// the smaller of `p` and `q` to the larger, interpolated first, whichever way
/// the stroke runs; at the start of a stroke, just `p`.
pub proof fn law_draw_step_recomputes_the_swept_samples(
    o: WaveformPage,
    pos: usize,
    amp: i16,
    n: WaveformPage,
    w: PageWork,
)
    requires
        o.edit_mode,
        o.edit_ready(),
        drawer_input_done(o, DrawerInput::SelectOrEdit { pos, amp }, n, w),
    ensures
        ({
            let s0 = o.selection.0 as int;
            let s1 = o.selection.1 as int;
            let p: int = if pos <= s0 { s0 } else if pos >= s1 { s1 } else { pos as int };
            &&& w == match o.edit_last_pos {
                Some(q) => PageWork::Recalc {
                    begin: if p <= q { p as usize } else { q },
                    end: if p <= q { q } else { p as usize },
                    smooth: true,
                },
                None => PageWork::Recalc { begin: p as usize, end: p as usize, smooth: false },
            }
            &&& n.edit_buffer@.len() == o.edit_buffer@.len()
            &&& forall|k: int|
                s0 <= k <= s1 ==> #[trigger] n.edit_buffer@[k - s0] == if k == p {
                    Some(amp)
                } else {
                    o.edit_buffer@[k - s0]
                }
            &&& n.edit_last_pos == Some(p as usize)
            &&& n.data == o.data
            &&& n.affected_data == o.affected_data
            &&& n.selection == o.selection
            &&& n.edit_mode
        }),
{
}

/// Law: entering edit mode and leaving it again with no drawing or erasing in
/// between, whether the edit is then applied or discarded, leaves the
/// samples, the selection and the clipboard as they were, out of edit mode
/// and with no edit kept.
pub proof fn law_untouched_edit_changes_nothing(
    o: WaveformPage,
    enter_save: bool,
    ob: Seq<i16>,
    m: WaveformPage,
    mb: Seq<i16>,
    w1: PageWork,
    save: bool,
    n: WaveformPage,
    nb: Seq<i16>,
    w2: PageWork,
)
    requires
        !o.edit_mode,
        o.selection.0 <= o.selection.1 < o.data@.len(),
        page_signal_done(o, WavePageSig::ToggleEditMode { save: enter_save }, ob, m, mb, w1),
        page_signal_done(m, WavePageSig::ToggleEditMode { save }, mb, n, nb, w2),
    ensures
        n.data@ == o.data@,
        !n.edit_mode,
        n.edit_buffer@.len() == 0,
        n.affected_data@.len() == 0,
        n.selection == o.selection,
        nb == ob,
{
    law_unchanged_edit_saves_nothing(o.data@, o.selection.0 as int, o.selection.1 as int);
}

/// Law: entering edit mode on a page whose selection lies within the data
/// and whose last stroke is over starts an edit session that matches the
/// selection.
pub proof fn law_entering_edit_mode_is_ready(o: WaveformPage, save: bool, n: WaveformPage)
    requires
        !o.edit_mode,
        o.edit_last_pos is None,
        o.selection.0 <= o.selection.1 < o.data@.len(),
        switched(o, save, n),
    ensures
        n.edit_mode,
        n.edit_ready(),
{
}

/// Law: an edit session stays in step with the selection through every
/// pointer gesture, so the page can always follow the next one.
pub proof fn law_gestures_keep_edit_ready(o: WaveformPage, s: DrawerInput, n: WaveformPage, w: PageWork)
    requires
        o.edit_mode,
        o.edit_ready(),
        drawer_input_done(o, s, n, w),
    ensures
        n.edit_mode,
        n.edit_ready(),
{
}

impl WaveformPage {
    /// The page can carry out the menu command without failing.
    pub open spec fn page_signal_ok(&self, signal: WavePageSig) -> bool {
        match signal {
            WavePageSig::ToggleEditMode { save } => {
                &&& !self.edit_mode ==> self.selection.0 <= self.selection.1 < self.data@.len()
                &&& self.edit_mode && save ==> self.selection.0 + self.affected_data@.len()
                    <= self.data@.len()
            },
            WavePageSig::Cut { .. } => self.selection.1 < self.data@.len() && self.selection.0
                <= self.selection.1 + 1,
            WavePageSig::Copy => self.selection.1 < usize::MAX,
            WavePageSig::Paste { .. } => self.selection.0 <= self.data@.len(),
            WavePageSig::FormulaChanged => self.selection.0 <= self.selection.1,
            _ => true,
        }
    }

    /// Carries out a menu command. `buffer` is the clipboard: a cut or a copy
    /// fills it, a paste without a length inserts it.
    pub fn process_page_signal(&mut self, signal: WavePageSig, buffer: &mut Vec<i16>) -> (w: PageWork)
        requires
            old(self).page_signal_ok(signal),
        ensures
            page_signal_done(*old(self), signal, old(buffer)@, *final(self), final(buffer)@, w),
    {
        match signal {
            WavePageSig::AllignSelect => PageWork::AllignSelect,
            WavePageSig::FixNegScale => PageWork::FixNegScale,
            WavePageSig::ToggleEditMode { save } => {
                self.switch_mode(save);
                PageWork::Redraw
            },
            WavePageSig::ResetView => PageWork::ResetView,
            WavePageSig::FormulaChanged => PageWork::Recalc {
                begin: self.selection.0,
                end: self.selection.1,
                smooth: false,
            },
            WavePageSig::Cut { delete } => {
                let x = self.cut_data();
                if !delete {
                    *buffer = x;
                }
                PageWork::Redraw
            },
            WavePageSig::Copy => {
                *buffer = self.copy_data();
                PageWork::Redraw
            },
            WavePageSig::Paste { empty } => {
                match empty {
                    Some(n) => self.pad_data(n),
                    None => self.insert_data(buffer),
                }
                PageWork::Redraw
            },
        }
    }

    /// The page can follow the pointer gesture without failing.
    pub open spec fn drawer_input_ok(&self, signal: DrawerInput) -> bool {
        match signal {
            DrawerInput::ResizeOrErase { .. } => self.edit_mode ==> self.edit_ready(),
            DrawerInput::SelectOrEdit { .. } => if self.edit_mode {
                self.edit_ready()
            } else {
                self.data@.len() > 0
            },
            DrawerInput::SelectOrEditBegin { .. } => !self.edit_mode ==> self.data@.len() > 0,
            DrawerInput::SelectOrEditEnd { .. } => !self.edit_mode ==> self.data@.len() > 0,
            _ => true,
        }
    }

    /// Follows a pointer gesture on the waveform: outside edit mode the left
    /// button selects and the right button zooms; in edit mode the left
    /// button draws samples and the right button erases them, and the press
    /// or release of a button ends the current stroke.
    pub fn process_wave_drawer_sig(&mut self, signal: DrawerInput) -> (w: PageWork)
        requires
            old(self).drawer_input_ok(signal),
        ensures
            drawer_input_done(*old(self), signal, *final(self), w),
    {
        match signal {
            DrawerInput::Scroll => PageWork::Scroll,
            DrawerInput::ResizeBegin | DrawerInput::ResizeOrEraseEnd => {
                if self.edit_mode {
                    self.edit_last_pos = None;
                }
                PageWork::Nothing
            },
            DrawerInput::ResizeOrErase { pos } => {
                if self.edit_mode {
                    self.erase(pos);
                    PageWork::Redraw
                } else {
                    PageWork::Scale
                }
            },
            DrawerInput::SelectOrEditBegin { pos } => {
                if !self.edit_mode {
                    self.select_begin(pos);
                    PageWork::Redraw
                } else {
                    self.edit_last_pos = None;
                    PageWork::Nothing
                }
            },
            DrawerInput::SelectOrEdit { pos, amp } => {
                if self.edit_mode {
                    self.mark_edit(pos, amp)
                } else {
                    self.select_end(pos);
                    PageWork::Redraw
                }
            },
            DrawerInput::SelectOrEditEnd { pos } => {
                if !self.edit_mode {
                    self.select_end(pos);
                    let ghost m = *self;
                    self.fix_select();
                    PageWork::Redraw
                } else {
                    self.edit_last_pos = None;
                    PageWork::Nothing
                }
            },
            DrawerInput::ForceRedraw => PageWork::Redraw,
        }
    }
}


/// Which controls of the page are available, and the length of the blank
/// that "Insert blank" inserts.
#[derive(Debug, PartialEq, Eq, Clone, Copy, Structural)]
pub struct PageMenus {
    pub allign_select: bool,
    /// "Edit Mode", outside edit mode.
    pub enter_edit: bool,
    /// "Apply Edit", in edit mode.
    pub apply_edit: bool,
    pub insert_len: usize,
    pub delete: bool,
    pub cut: bool,
    pub copy: bool,
    pub spectrogram: bool,
}

/// The number of samples between the two ends of a selection.
pub open spec fn spec_select_len(s: (usize, usize)) -> int {
    if s.0 <= s.1 { s.1 - s.0 } else { s.0 - s.1 }
}

impl WaveformPage {
    /// Which controls are available: aligning and entering edit mode need a
    /// selection whose ends differ, applying an edit needs a drawn sample,
    /// deleting, cutting and copying need a selection of some length, and a
    /// spectrogram needs more than one selected sample. A blank is as long
    /// as the selection, or 16 samples when the selection is empty.
    pub fn menus(&self) -> (r: PageMenus)
        ensures
            r.allign_select == (self.selection.0 != self.selection.1),
            r.enter_edit == (!self.edit_mode && self.selection.0 != self.selection.1),
            r.apply_edit == (self.edit_mode && exists|i: int|
                0 <= i < self.edit_buffer@.len() && #[trigger] self.edit_buffer@[i] is Some),
            r.insert_len == if spec_select_len(self.selection) == 0 {
                16
            } else {
                spec_select_len(self.selection)
            },
            r.delete == (spec_select_len(self.selection) > 0),
            r.cut == (spec_select_len(self.selection) > 0),
            r.copy == (spec_select_len(self.selection) > 0),
            r.spectrogram == (spec_select_len(self.selection) > 1),
    {
        let selecc = self.select_len();
        let mut drawn = false;
        let mut i: usize = 0;
        while i < self.edit_buffer.len()
            invariant
                i <= self.edit_buffer@.len(),
                drawn == exists|k: int| 0 <= k < i && #[trigger] self.edit_buffer@[k] is Some,
            decreases self.edit_buffer.len() - i,
        {
            if self.edit_buffer[i].is_some() {
                drawn = true;
            }
            i = i + 1;
        }
        PageMenus {
            allign_select: self.selection.0 != self.selection.1,
            enter_edit: !self.edit_mode && self.selection.0 != self.selection.1,
            apply_edit: self.edit_mode && drawn,
            insert_len: if selecc == 0 { 16 } else { selecc },
            delete: selecc > 0,
            cut: selecc > 0,
            copy: selecc > 0,
            spectrogram: selecc > 1,
        }
    }

    /// The samples to play: the focused samples (see `focus_data`) when
    /// `edited` holds, otherwise all samples.
    pub fn audio_to_play(&self, edited: bool) -> (r: Vec<i16>)
        requires
            edited && !self.edit_mode ==> self.selection.0 <= self.selection.1 <= self.data@.len(),
        ensures
            r@ == if edited {
                if self.edit_mode {
                    self.affected_data@
                } else {
                    self.data@.subrange(self.selection.0 as int, self.selection.1 as int)
                }
            } else {
                self.data@
            },
    {
        if edited {
            self.focus_data()
        } else {
            self.data.clone()
        }
    }

    /// All samples with the selection replaced by the edited samples.
    pub fn edited_data(&self) -> (r: Vec<i16>)
        requires
            self.selection.0 <= self.selection.1 <= self.data@.len(),
        ensures
            r@ == self.data@.subrange(0, self.selection.0 as int) + self.affected_data@
                + self.data@.subrange(self.selection.1 as int, self.data@.len() as int),
    {
        let mut out = slice_of(&self.data, 0, self.selection.0);
        let mut mid = self.affected_data.clone();
        let mut tail = slice_of(&self.data, self.selection.1, self.data.len());
        out.append(&mut mid);
        out.append(&mut tail);
        out
    }
}

impl WaveformPage {
    /// Whether the edit session matches the selection (see `edit_ready`).
    pub fn is_edit_ready(&self) -> (r: bool)
        ensures
            r == self.edit_ready(),
    {
        if !(self.selection.0 <= self.selection.1 && self.selection.1 < self.data.len()) {
            return false;
        }
        if self.edit_buffer.len() != self.selection.1 - self.selection.0 + 1 {
            return false;
        }
        if self.affected_data.len() != self.edit_buffer.len() {
            return false;
        }
        match self.edit_last_pos {
            Some(p) => self.selection.0 <= p && p <= self.selection.1,
            None => true,
        }
    }

    /// Whether the page can carry out the menu command (see `page_signal_ok`).
    pub fn takes_page_signal(&self, signal: WavePageSig) -> (r: bool)
        ensures
            r == self.page_signal_ok(signal),
    {
        match signal {
            WavePageSig::ToggleEditMode { save } => {
                let entering = self.edit_mode || (self.selection.0 <= self.selection.1
                    && self.selection.1 < self.data.len());
                let saving = !(self.edit_mode && save) || (self.affected_data.len()
                    <= self.data.len() && self.selection.0 <= self.data.len()
                    - self.affected_data.len());
                entering && saving
            },
            WavePageSig::Cut { .. } => self.selection.1 < self.data.len() && self.selection.0
                <= self.selection.1 + 1,
            WavePageSig::Copy => self.selection.1 < usize::MAX,
            WavePageSig::Paste { .. } => self.selection.0 <= self.data.len(),
            WavePageSig::FormulaChanged => self.selection.0 <= self.selection.1,
            _ => true,
        }
    }

    /// Whether the page can follow the pointer gesture (see `drawer_input_ok`).
    pub fn takes_drawer_input(&self, signal: DrawerInput) -> (r: bool)
        ensures
            r == self.drawer_input_ok(signal),
    {
        match signal {
            DrawerInput::ResizeOrErase { .. } => !self.edit_mode || self.is_edit_ready(),
            DrawerInput::SelectOrEdit { .. } => if self.edit_mode {
                self.is_edit_ready()
            } else {
                self.data.len() > 0
            },
            DrawerInput::SelectOrEditBegin { .. } => self.edit_mode || self.data.len() > 0,
            DrawerInput::SelectOrEditEnd { .. } => self.edit_mode || self.data.len() > 0,
            _ => true,
        }
    }
}

} // verus!
