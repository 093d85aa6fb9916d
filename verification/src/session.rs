//! The editor window's state: its pages, the clipboard and the spectrogram
//! on show, and what a message from the window does to them.
use vstd::prelude::*;
use crate::page::{
    drawer_input_done, page_signal_done, wedge_fits, wedge_sample, DrawerInput, PageWork,
    WavePageSig, WaveformPage, LIMIT,
};
use crate::spectrum::{get_spec, png_file};

verus! {

/// The page `p` was just made: `selection` selected, not in edit mode and no
/// edit under way, at `sample_rate` with `channels` channels.
pub open spec fn fresh_page(p: WaveformPage, selection: (usize, usize), sample_rate: u32, channels: u16) -> bool {
    &&& p.selection == selection
    &&& p.edit_buffer@.len() == 0
    &&& p.affected_data@.len() == 0
    &&& p.sample_rate == sample_rate
    &&& p.channels == channels
    &&& !p.edit_mode
    &&& p.edit_last_pos is None
}

/// The samples of page `p` that a spectrogram or "Play Selected" uses: the
/// edited selection in edit mode, otherwise the selected samples.
pub open spec fn focus_of(p: WaveformPage) -> Seq<i16> {
    if p.edit_mode {
        p.affected_data@
    } else {
        p.data@.subrange(p.selection.0 as int, p.selection.1 as int)
    }
}

/// A page of the editor.
#[derive(Debug)]
pub enum Pages {
    Wave(WaveformPage),
    OOga,
}

impl Pages {
    /// A waveform page of `len` wedge samples around `focus`, the first half selected.
    pub fn new_wedge(len: usize, focus: i16) -> (r: Self)
        requires
            wedge_fits(len, focus),
        ensures
            r matches Pages::Wave(p) && p.data@.len() == len && (forall|i: int|
                0 <= i < len ==> #[trigger] p.data@[i] == wedge_sample(i, focus as int)) && fresh_page(
                p,
                (0usize, len / 2),
                44800,
                1,
            ),
    {
        Pages::Wave(WaveformPage::new_wedge(len, focus))
    }

    /// A waveform page of `len` noise samples, each within `[-LIMIT, LIMIT]`.
    pub fn new_noisy(len: usize) -> (r: Self)
        ensures
            r matches Pages::Wave(p) && p.data@.len() == len && (forall|i: int|
                0 <= i < len ==> -LIMIT <= #[trigger] p.data@[i] <= LIMIT) && fresh_page(
                p,
                (0usize, 0usize),
                44800,
                1,
            ),
    {
        Pages::Wave(WaveformPage::new_noisy(len))
    }

    /// A waveform page holding the given samples, nothing selected.
    pub fn new_widh_data(data: Vec<i16>, sample_rate: u32, channels: u16) -> (r: Self)
        ensures
            r matches Pages::Wave(p) && p.data == data && fresh_page(
                p,
                (0usize, 0usize),
                sample_rate,
                channels,
            ),
    {
        Pages::Wave(WaveformPage::new_widh_data(data, sample_rate, channels))
    }

    /// Passes a menu command on to the page; only a waveform page takes commands.
    pub fn process_page_signal(&mut self, signal: WavePageSig, buffer: &mut Vec<i16>) -> (w: PageWork)
        requires
            *old(self) matches Pages::Wave(p) && p.page_signal_ok(signal),
        ensures
            *old(self) matches Pages::Wave(p0) && *final(self) matches Pages::Wave(p1)
                && page_signal_done(p0, signal, old(buffer)@, p1, final(buffer)@, w),
    {
        match self {
            Pages::Wave(wave) => wave.process_page_signal(signal, buffer),
            Pages::OOga => PageWork::Nothing,
        }
    }

    /// Passes a pointer gesture on to the page; only a waveform page takes gestures.
    pub fn process_wave_drawer_sig(&mut self, signal: DrawerInput) -> (w: PageWork)
        requires
            *old(self) matches Pages::Wave(p) && p.drawer_input_ok(signal),
        ensures
            *old(self) matches Pages::Wave(p0) && *final(self) matches Pages::Wave(p1)
                && drawer_input_done(p0, signal, p1, w),
    {
        match self {
            Pages::Wave(wave) => wave.process_wave_drawer_sig(signal),
            Pages::OOga => PageWork::Nothing,
        }
    }
}

/// A message from the editor window.
#[derive(Debug, PartialEq, Eq, Clone, Copy, Structural)]
pub enum MesDummies {
    /// Show the spectrogram of the focused samples.
    GetSpec,
    ClearSpec,
    NewWindow,
    OpenFile,
    WriteWav,
    /// Play all samples, or the focused ones when the flag holds.
    PlayAudio(bool),
    WaveDrawerSig { wd_sig: DrawerInput },
    WavePageSig { wp_sig: WavePageSig },
}

/// What the window still has to do after a message was handled.
#[derive(Debug)]
pub enum AdioAction {
    Done,
    /// Open another window.
    NewWindow,
    /// Let the user pick a sound file, and hand its samples to `Adio::load`.
    PickFile,
    /// Play the samples.
    Play { data: Vec<i16>, sample_rate: u32, channels: u16 },
    /// Let the user pick a file name, and save the samples there as WAV.
    SaveWav { data: Vec<i16>, sample_rate: u32, channels: u16 },
    /// Finish the work the current page left to the view.
    Page(PageWork),
}

/// The editor window.
#[derive(Debug)]
pub struct Adio {
    pub pages: Vec<WaveformPage>,
    /// The page on show.
    pub cur_page: usize,
    /// The clipboard.
    pub buffer: Vec<i16>,
    /// The PNG image of the spectrogram on show; empty when none is.
    pub cached_spec: Vec<u8>,
}

/// The page on show in `a`.
pub open spec fn current(a: Adio) -> WaveformPage {
    a.pages@[a.cur_page as int]
}

/// `n` is `o` with the page on show replaced by `p`.
pub open spec fn page_replaced(o: Adio, p: WaveformPage, n: Adio) -> bool {
    &&& n.pages@ == o.pages@.update(o.cur_page as int, p)
    &&& n.cur_page == o.cur_page
}

/// `n` and `a` are what the message `m` makes of the window `o` and leaves
/// to do.
pub open spec fn update_done(o: Adio, m: MesDummies, n: Adio, a: AdioAction) -> bool {
    let p = current(o);
    match m {
        MesDummies::GetSpec => a is Done && n.pages == o.pages && n.cur_page == o.cur_page
            && n.buffer == o.buffer && png_file(n.cached_spec@, 1000, 150),
        MesDummies::ClearSpec => a is Done && n.pages == o.pages && n.cur_page == o.cur_page
            && n.buffer == o.buffer && n.cached_spec@.len() == 0,
        MesDummies::NewWindow => a is NewWindow && n == o,
        MesDummies::OpenFile => a is PickFile && n == o,
        MesDummies::WriteWav => n == o && (a matches AdioAction::SaveWav {
            data,
            sample_rate,
            channels,
        } && data@ == p.data@ && sample_rate == p.sample_rate && channels == p.channels),
        MesDummies::PlayAudio(edited) => n == o && (a matches AdioAction::Play {
            data,
            sample_rate,
            channels,
        } && data@ == (if edited {
            focus_of(p)
        } else {
            p.data@
        }) && sample_rate == p.sample_rate && channels == p.channels),
        MesDummies::WaveDrawerSig { wd_sig } => a matches AdioAction::Page(w) && page_replaced(
            o,
            current(n),
            n,
        ) && drawer_input_done(p, wd_sig, current(n), w) && n.buffer == o.buffer && n.cached_spec
            == o.cached_spec,
        MesDummies::WavePageSig { wp_sig } => a matches AdioAction::Page(w) && page_replaced(
            o,
            current(n),
            n,
        ) && page_signal_done(p, wp_sig, o.buffer@, current(n), n.buffer@, w) && n.cached_spec
            == o.cached_spec,
    }
}

impl Adio {
    /// The page on show can take the message without failing: the
    /// spectrogram needs a focus of some samples within the data, playing
    /// the focus needs the selection within the data, and the page must be
    /// able to carry out a command or follow a gesture.
    pub open spec fn update_ok(&self, m: MesDummies) -> bool {
        &&& self.cur_page < self.pages@.len()
        &&& {
            let p = current(*self);
            match m {
                MesDummies::GetSpec => (!p.edit_mode ==> p.selection.0 <= p.selection.1
                    <= p.data@.len()) && focus_of(p).len() > 0,
                MesDummies::PlayAudio(edited) => edited && !p.edit_mode ==> p.selection.0
                    <= p.selection.1 <= p.data@.len(),
                MesDummies::WaveDrawerSig { wd_sig } => p.drawer_input_ok(wd_sig),
                MesDummies::WavePageSig { wp_sig } => p.page_signal_ok(wp_sig),
                _ => true,
            }
        }
    }

    /// Whether the window can take the message (see `update_ok`).
    pub fn takes(&self, m: MesDummies) -> (r: bool)
        ensures
            r == self.update_ok(m),
    {
        if self.cur_page >= self.pages.len() {
            return false;
        }
        let p = &self.pages[self.cur_page];
        let fits = p.selection.0 <= p.selection.1 && p.selection.1 <= p.data.len();
        match m {
            MesDummies::GetSpec => if p.edit_mode {
                p.affected_data.len() > 0
            } else {
                fits && p.selection.0 < p.selection.1
            },
            MesDummies::PlayAudio(edited) => !edited || p.edit_mode || fits,
            MesDummies::WaveDrawerSig { wd_sig } => p.takes_drawer_input(wd_sig),
            MesDummies::WavePageSig { wp_sig } => p.takes_page_signal(wp_sig),
            _ => true,
        }
    }

    /// The window as it opens: one page of 64 wedge samples around 32, on
    /// show, an empty clipboard and no spectrogram.
    pub fn new() -> (r: Self)
        ensures
            r.pages@.len() == 1,
            r.cur_page == 0,
            current(r).data@.len() == 64,
            forall|i: int| 0 <= i < 64 ==> #[trigger] current(r).data@[i] == wedge_sample(i, 32),
            fresh_page(current(r), (0usize, 32usize), 44800, 1),
            r.buffer@.len() == 0,
            r.cached_spec@.len() == 0,
    {
        let mut pages: Vec<WaveformPage> = Vec::new();
        pages.push(WaveformPage::new_wedge(64, 32));
        Adio { pages, cur_page: 0, buffer: Vec::new(), cached_spec: Vec::new() }
    }

    /// Handles a message from the window and says what is left to do.
    pub fn update(&mut self, message: MesDummies) -> (a: AdioAction)
        requires
            old(self).update_ok(message),
        ensures
            update_done(*old(self), message, *final(self), a),
    {
        let i = self.cur_page;
        match message {
            MesDummies::GetSpec => {
                let focus = self.pages[i].focus_data();
                let sample_rate = self.pages[i].sample_rate();
                self.cached_spec = get_spec(focus, sample_rate);
                AdioAction::Done
            },
            MesDummies::ClearSpec => {
                self.cached_spec.clear();
                AdioAction::Done
            },
            MesDummies::NewWindow => AdioAction::NewWindow,
            MesDummies::OpenFile => AdioAction::PickFile,
            MesDummies::WriteWav => AdioAction::SaveWav {
                data: self.pages[i].data.clone(),
                sample_rate: self.pages[i].sample_rate,
                channels: self.pages[i].channels,
            },
            MesDummies::PlayAudio(edited) => AdioAction::Play {
                data: self.pages[i].audio_to_play(edited),
                sample_rate: self.pages[i].sample_rate,
                channels: self.pages[i].channels,
            },
            MesDummies::WaveDrawerSig { wd_sig } => {
                let w = self.pages[i].process_wave_drawer_sig(wd_sig);
                AdioAction::Page(w)
            },
            MesDummies::WavePageSig { wp_sig } => {
                let w = self.pages[i].process_page_signal(wp_sig, &mut self.buffer);
                AdioAction::Page(w)
            },
        }
    }

    /// Shows the samples of a file the user picked: samples from an empty
    /// or unreadable file leave the window as it was; otherwise a page
    /// holding them, nothing selected, replaces the page on show.
    pub fn load(&mut self, data: Vec<i16>, sample_rate: u32, channels: u16)
        requires
            old(self).cur_page < old(self).pages@.len(),
        ensures
            data@.len() == 0 ==> *final(self) == *old(self),
            data@.len() > 0 ==> {
                &&& page_replaced(*old(self), current(*final(self)), *final(self))
                &&& current(*final(self)).data == data
                &&& fresh_page(current(*final(self)), (0usize, 0usize), sample_rate, channels)
                &&& final(self).buffer == old(self).buffer
                &&& final(self).cached_spec == old(self).cached_spec
            },
    {
        if data.len() == 0 {
            return;
        }
        let page = WaveformPage::new_widh_data(data, sample_rate, channels);
        let i = self.cur_page;
        self.pages.set(i, page);
    }
}

/// Law: handling a message keeps the number of pages and the page on show,
/// so the window can always take its next message.
pub proof fn law_update_keeps_page_on_show(o: Adio, m: MesDummies, n: Adio, a: AdioAction)
    requires
        o.cur_page < o.pages@.len(),
        update_done(o, m, n, a),
    ensures
        n.pages@.len() == o.pages@.len(),
        n.cur_page == o.cur_page,
{
}

} // verus!
