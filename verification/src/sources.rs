//! Sources of sample data: raw sample buffers and waveform pages.
use vstd::prelude::*;
use crate::page::{
    drawer_input_done, noise, page_signal_done, wedge, wedge_fits, wedge_sample, DrawerInput, PageWork,
    WavePageSig, WaveformPage, LIMIT,
};

verus! {

/// A sample drawn from the thread-local generator of `rand`.
///
/// Calls `rand::Rng::gen::<i16>` on `rand::thread_rng()`. Nothing is claimed
/// of the value: any `i16` may come back.
#[verifier::external_body]
pub(crate) fn random_sample() -> (r: i16) {
    rand::Rng::gen::<i16>(&mut rand::thread_rng())
}

/// The samples held by an optional buffer.
pub open spec fn opt_view(v: Option<Vec<i16>>) -> Option<Seq<i16>> {
    match v {
        Some(x) => Some(x@),
        None => None,
    }
}

/// The samples of `data` in `selection`, both ends cut down to the length
/// of the data.
pub open spec fn selected(data: Option<Seq<i16>>, selection: (usize, usize)) -> Option<Seq<i16>> {
    match data {
        Some(d) => {
            let from = if selection.0 < d.len() { selection.0 as int } else { d.len() as int };
            let to = if selection.1 < d.len() { selection.1 as int } else { d.len() as int };
            Some(d.subrange(from, to))
        },
        None => None,
    }
}

/// Once cut down to the length of the data, the selection does not run backwards.
pub open spec fn selection_fits(data: Option<Seq<i16>>, selection: (usize, usize)) -> bool {
    match data {
        Some(d) => {
            let from = if selection.0 < d.len() { selection.0 as int } else { d.len() as int };
            let to = if selection.1 < d.len() { selection.1 as int } else { d.len() as int };
            from <= to
        },
        None => true,
    }
}

/// Something that provides samples.
pub trait DataSource {
    /// The samples, when they are at hand.
    spec fn spec_data(&self) -> Option<Seq<i16>>;

    spec fn spec_cached(&self) -> bool;

    spec fn spec_sample_rate(&self) -> u32;

    spec fn spec_channels(&self) -> u16;

    fn data(&self) -> (r: Option<Vec<i16>>)
        ensures
            opt_view(r) == self.spec_data(),
    ;

    fn set_cache(&mut self, data: Vec<i16>);

    fn clear_cache(&mut self);

    fn is_cached(&self) -> (r: bool)
        ensures
            r == self.spec_cached(),
    ;

    /// The samples in `selection`, both ends cut down to the length of the data.
    fn selected_data(&self, selection: (usize, usize)) -> (r: Option<Vec<i16>>)
        requires
            selection_fits(self.spec_data(), selection),
        ensures
            opt_view(r) == selected(self.spec_data(), selection),
    {
        let data = match self.data() {
            Some(d) => d,
            None => return None,
        };
        let (from, to) = selection;
        let len = data.len();
        let a = if from < len { from } else { len };
        let b = if to < len { to } else { len };
        Some(crate::page::slice_of(&data, a, b))
    }

    fn sample_rate(&self) -> (r: u32)
        ensures
            r == self.spec_sample_rate(),
    ;

    fn channels(&self) -> (r: u16)
        ensures
            r == self.spec_channels(),
    ;
}

/// Samples read from a file or generated.
#[derive(Debug)]
pub struct PCMFileSource {
    pub data: Vec<i16>,
    pub sample_rate: u32,
    pub channels: u16,
    /// The name of the file the samples come from.
    pub source_name: Option<String>,
}

impl Default for PCMFileSource {
    /// 256 silent samples at 44100 Hz, one channel.
    fn default() -> (r: Self)
        ensures
            r.data@ == Seq::new(256, |i: int| 0i16),
            r.sample_rate == 44100,
            r.channels == 1,
            r.source_name is None,
    {
        let mut data: Vec<i16> = Vec::new();
        let mut i: usize = 0;
        while i < 256
            invariant
                i <= 256,
                data@ == Seq::new(i as nat, |k: int| 0i16),
            decreases 256 - i,
        {
            data.push(0);
            i = i + 1;
            assert(data@ =~= Seq::new(i as nat, |k: int| 0i16));
        }
        PCMFileSource { data, sample_rate: 44100, channels: 1, source_name: None }
    }
}

impl PCMFileSource {
    /// Samples read from the file called `name`.
    pub fn new_widh_data(data: Vec<i16>, sample_rate: u32, channels: u16, name: &str) -> (r: Self)
        ensures
            r.data == data,
            r.sample_rate == sample_rate,
            r.channels == channels,
            r.source_name matches Some(n) && n@ == name@,
    {
        PCMFileSource { data, sample_rate, channels, source_name: Some(name.to_string()) }
    }

    /// `len` random samples, each within `[-LIMIT, LIMIT]`, at 44100 Hz.
    pub fn new_noisy(len: usize) -> (r: Self)
        ensures
            r.data@.len() == len,
            forall|i: int| 0 <= i < len ==> -LIMIT <= #[trigger] r.data@[i] <= LIMIT,
            r.sample_rate == 44100,
            r.channels == 1,
            r.source_name is None,
    {
        PCMFileSource { data: noise(len), sample_rate: 44100, channels: 1, source_name: None }
    }

    /// `len` samples of a wedge that alternates in sign around `focus`, at 44100 Hz.
    pub fn new_wedge(len: usize, focus: i16) -> (r: Self)
        requires
            wedge_fits(len, focus),
        ensures
            r.data@.len() == len,
            forall|i: int| 0 <= i < len ==> #[trigger] r.data@[i] == wedge_sample(i, focus as int),
            r.sample_rate == 44100,
            r.channels == 1,
            r.source_name is None,
    {
        PCMFileSource { data: wedge(len, focus), sample_rate: 44100, channels: 1, source_name: None }
    }
}

impl DataSource for PCMFileSource {
    open spec fn spec_data(&self) -> Option<Seq<i16>> {
        Some(self.data@)
    }

    open spec fn spec_cached(&self) -> bool {
        true
    }

    open spec fn spec_sample_rate(&self) -> u32 {
        self.sample_rate
    }

    open spec fn spec_channels(&self) -> u16 {
        self.channels
    }

    fn data(&self) -> (r: Option<Vec<i16>>) {
        Some(self.data.clone())
    }

    /// The samples are always at hand; nothing is cached.
    fn set_cache(&mut self, _data: Vec<i16>)
        ensures
            *final(self) == *old(self),
    {
    }

    fn clear_cache(&mut self)
        ensures
            *final(self) == *old(self),
    {
    }

    fn is_cached(&self) -> (r: bool) {
        true
    }

    fn sample_rate(&self) -> (r: u32) {
        self.sample_rate
    }

    fn channels(&self) -> (r: u16) {
        self.channels
    }
}

impl DataSource for WaveformPage {
    open spec fn spec_data(&self) -> Option<Seq<i16>> {
        Some(self.data@)
    }

    open spec fn spec_cached(&self) -> bool {
        true
    }

    open spec fn spec_sample_rate(&self) -> u32 {
        self.sample_rate
    }

    open spec fn spec_channels(&self) -> u16 {
        self.channels
    }

    fn data(&self) -> (r: Option<Vec<i16>>) {
        Some(self.data.clone())
    }

    /// The samples are always at hand; nothing is cached.
    fn set_cache(&mut self, _data: Vec<i16>)
        ensures
            *final(self) == *old(self),
    {
    }

    fn clear_cache(&mut self)
        ensures
            *final(self) == *old(self),
    {
    }

    fn is_cached(&self) -> (r: bool) {
        true
    }

    fn sample_rate(&self) -> (r: u32) {
        self.sample_rate
    }

    fn channels(&self) -> (r: u16) {
        self.channels
    }
}

/// A source of samples: a raw buffer or a waveform page.
#[derive(Debug)]
pub enum DataSourceType {
    RawData(PCMFileSource),
    WavePage(WaveformPage),
}

impl Default for DataSourceType {
    fn default() -> (r: Self)
        ensures
            r matches DataSourceType::RawData(x) && x.data@ == Seq::new(256, |i: int| 0i16)
                && x.sample_rate == 44100 && x.channels == 1 && x.source_name is None,
    {
        DataSourceType::RawData(PCMFileSource::default())
    }
}

impl DataSource for DataSourceType {
    open spec fn spec_data(&self) -> Option<Seq<i16>> {
        match self {
            DataSourceType::RawData(x) => x.spec_data(),
            DataSourceType::WavePage(x) => x.spec_data(),
        }
    }

    open spec fn spec_cached(&self) -> bool {
        match self {
            DataSourceType::RawData(x) => x.spec_cached(),
            DataSourceType::WavePage(x) => x.spec_cached(),
        }
    }

    open spec fn spec_sample_rate(&self) -> u32 {
        match self {
            DataSourceType::RawData(x) => x.spec_sample_rate(),
            DataSourceType::WavePage(x) => x.spec_sample_rate(),
        }
    }

    open spec fn spec_channels(&self) -> u16 {
        match self {
            DataSourceType::RawData(x) => x.spec_channels(),
            DataSourceType::WavePage(x) => x.spec_channels(),
        }
    }

    fn data(&self) -> (r: Option<Vec<i16>>) {
        match self {
            DataSourceType::RawData(x) => x.data(),
            DataSourceType::WavePage(x) => x.data(),
        }
    }

    fn set_cache(&mut self, data: Vec<i16>)
        ensures
            *final(self) == *old(self),
    {
        match self {
            DataSourceType::RawData(x) => x.set_cache(data),
            DataSourceType::WavePage(x) => x.set_cache(data),
        }
    }

    fn clear_cache(&mut self)
        ensures
            *final(self) == *old(self),
    {
        match self {
            DataSourceType::RawData(x) => x.clear_cache(),
            DataSourceType::WavePage(x) => x.clear_cache(),
        }
    }

    fn is_cached(&self) -> (r: bool) {
        match self {
            DataSourceType::RawData(x) => x.is_cached(),
            DataSourceType::WavePage(x) => x.is_cached(),
        }
    }

    fn sample_rate(&self) -> (r: u32) {
        match self {
            DataSourceType::RawData(x) => x.sample_rate(),
            DataSourceType::WavePage(x) => DataSource::sample_rate(x),
        }
    }

    fn channels(&self) -> (r: u16) {
        match self {
            DataSourceType::RawData(x) => x.channels(),
            DataSourceType::WavePage(x) => x.channels(),
        }
    }
}

impl DataSourceType {
    pub fn new_wedge(len: usize, focus: i16) -> (r: Self)
        requires
            wedge_fits(len, focus),
        ensures
            r matches DataSourceType::RawData(x) && x.data@.len() == len && (forall|i: int|
                0 <= i < len ==> #[trigger] x.data@[i] == wedge_sample(i, focus as int)) && x.sample_rate
                == 44100 && x.channels == 1 && x.source_name is None,
    {
        DataSourceType::RawData(PCMFileSource::new_wedge(len, focus))
    }

    pub fn new_noisy(len: usize) -> (r: Self)
        ensures
            r matches DataSourceType::RawData(x) && x.data@.len() == len && (forall|i: int|
                0 <= i < len ==> -LIMIT <= #[trigger] x.data@[i] <= LIMIT) && x.sample_rate
                == 44100 && x.channels == 1 && x.source_name is None,
    {
        DataSourceType::RawData(PCMFileSource::new_noisy(len))
    }

    pub fn new_widh_data(data: Vec<i16>, sample_rate: u32, channels: u16, name: &str) -> (r: Self)
        ensures
            r matches DataSourceType::RawData(x) && x.data == data && x.sample_rate == sample_rate
                && x.channels == channels && (x.source_name matches Some(n) && n@ == name@),
    {
        DataSourceType::RawData(PCMFileSource::new_widh_data(data, sample_rate, channels, name))
    }

    /// Passes a menu command on to the page; only a page takes commands.
    pub fn process_page_signal(&mut self, signal: WavePageSig, buffer: &mut Vec<i16>) -> (w: PageWork)
        requires
            *old(self) matches DataSourceType::WavePage(p) && p.page_signal_ok(signal),
        ensures
            *old(self) matches DataSourceType::WavePage(p0) && *final(self) matches DataSourceType::WavePage(p1)
                && page_signal_done(p0, signal, old(buffer)@, p1, final(buffer)@, w),
    {
        match self {
            DataSourceType::WavePage(wave) => wave.process_page_signal(signal, buffer),
            DataSourceType::RawData(_) => PageWork::Nothing,
        }
    }

    /// Passes a pointer gesture on to the page; only a page takes gestures.
    pub fn process_wave_drawer_sig(&mut self, signal: DrawerInput) -> (w: PageWork)
        requires
            *old(self) matches DataSourceType::WavePage(p) && p.drawer_input_ok(signal),
        ensures
            *old(self) matches DataSourceType::WavePage(p0) && *final(self) matches DataSourceType::WavePage(p1)
                && drawer_input_done(p0, signal, p1, w),
    {
        match self {
            DataSourceType::WavePage(wave) => wave.process_wave_drawer_sig(signal),
            DataSourceType::RawData(_) => PageWork::Nothing,
        }
    }
}

} // verus!
