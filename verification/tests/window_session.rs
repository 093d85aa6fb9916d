use adios::ast::{Expr, Statement, Targets};
use adios::drawer::{stepped_positions, view_offset};
use adios::formula::{sample_at, store_at, FormulaState, ParseProblem};
use adios::page::{DrawerInput, PageWork, WavePageSig};
use adios::session::{Adio, AdioAction, MesDummies, Pages};

#[test]
fn window_opens_on_a_wedge_page() {
    let a = Adio::new();
    assert_eq!(a.pages.len(), 1);
    assert_eq!(a.cur_page, 0);
    let p = &a.pages[0];
    assert_eq!(p.data.len(), 64);
    assert_eq!(&p.data[..4], &[32, -31, 30, -29]);
    assert_eq!(p.selection, (0, 32));
    assert_eq!(p.sample_rate, 44800);
    assert!(a.buffer.is_empty());
    assert!(a.cached_spec.is_empty());
}

#[test]
fn play_and_save_hand_out_page_samples() {
    let mut a = Adio::new();
    a.load(vec![1, 2, 3, 4, 5], 8000, 2);
    match a.update(MesDummies::PlayAudio(false)) {
        AdioAction::Play { data, sample_rate, channels } => {
            assert_eq!(data, vec![1, 2, 3, 4, 5]);
            assert_eq!((sample_rate, channels), (8000, 2));
        }
        other => panic!("unexpected {:?}", other),
    }
    a.update(MesDummies::WaveDrawerSig { wd_sig: DrawerInput::SelectOrEditBegin { pos: 1 } });
    a.update(MesDummies::WaveDrawerSig { wd_sig: DrawerInput::SelectOrEditEnd { pos: 3 } });
    match a.update(MesDummies::PlayAudio(true)) {
        AdioAction::Play { data, .. } => assert_eq!(data, vec![2, 3]),
        other => panic!("unexpected {:?}", other),
    }
    match a.update(MesDummies::WriteWav) {
        AdioAction::SaveWav { data, sample_rate, channels } => {
            assert_eq!(data, vec![1, 2, 3, 4, 5]);
            assert_eq!((sample_rate, channels), (8000, 2));
        }
        other => panic!("unexpected {:?}", other),
    }
    assert!(matches!(a.update(MesDummies::OpenFile), AdioAction::PickFile));
    assert!(matches!(a.update(MesDummies::NewWindow), AdioAction::NewWindow));
}

#[test]
fn empty_file_leaves_the_page() {
    let mut a = Adio::new();
    a.load(Vec::new(), 0, 0);
    assert_eq!(a.pages[0].data.len(), 64);
    assert_eq!(a.pages[0].selection, (0, 32));
    a.load(vec![7, 8], 22050, 1);
    assert_eq!(a.pages[0].data, vec![7, 8]);
    assert_eq!(a.pages[0].selection, (0, 0));
    assert_eq!(a.pages[0].sample_rate, 22050);
}

#[test]
fn page_commands_use_the_clipboard() {
    let mut a = Adio::new();
    a.load((10..20).collect(), 8000, 1);
    a.update(MesDummies::WaveDrawerSig { wd_sig: DrawerInput::SelectOrEditBegin { pos: 2 } });
    a.update(MesDummies::WaveDrawerSig { wd_sig: DrawerInput::SelectOrEditEnd { pos: 4 } });
    let w = a.update(MesDummies::WavePageSig { wp_sig: WavePageSig::Cut { delete: false } });
    assert!(matches!(w, AdioAction::Page(PageWork::Redraw)));
    assert_eq!(a.buffer, vec![12, 13, 14]);
    assert_eq!(a.pages[0].data, vec![10, 11, 15, 16, 17, 18, 19]);
    a.update(MesDummies::WavePageSig { wp_sig: WavePageSig::Paste { empty: None } });
    assert_eq!(a.pages[0].data, (10..20).collect::<Vec<i16>>());
    let w = a.update(MesDummies::WaveDrawerSig { wd_sig: DrawerInput::Scroll });
    assert!(matches!(w, AdioAction::Page(PageWork::Scroll)));
}

#[test]
fn spectrogram_is_shown_and_cleared() {
    let mut a = Adio::new();
    assert!(matches!(a.update(MesDummies::GetSpec), AdioAction::Done));
    assert_eq!(&a.cached_spec[..8], &[0x89, b'P', b'N', b'G', 0x0d, 0x0a, 0x1a, 0x0a]);
    assert_eq!(&a.cached_spec[16..24], &[0, 0, 0x03, 0xe8, 0, 0, 0, 150]);
    assert_eq!(&a.cached_spec[a.cached_spec.len() - 8..a.cached_spec.len() - 4], b"IEND");
    assert!(matches!(a.update(MesDummies::ClearSpec), AdioAction::Done));
    assert!(a.cached_spec.is_empty());
    assert_eq!(a.pages[0].data.len(), 64);
}

#[test]
fn pages_pass_signals_to_waveforms() {
    let mut p = Pages::new_widh_data(vec![5, 6, 7, 8], 8000, 1);
    let mut clip = Vec::new();
    assert_eq!(p.process_wave_drawer_sig(DrawerInput::SelectOrEditBegin { pos: 3 }), PageWork::Redraw);
    assert_eq!(p.process_wave_drawer_sig(DrawerInput::SelectOrEditEnd { pos: 1 }), PageWork::Redraw);
    assert_eq!(p.process_page_signal(WavePageSig::Copy, &mut clip), PageWork::Redraw);
    assert_eq!(clip, vec![6, 7, 8]);
    assert!(matches!(Pages::new_wedge(4, 1), Pages::Wave(ref w) if w.data == vec![1, 0, -1, 2] && w.selection == (0, 2)));
    assert!(matches!(Pages::new_noisy(5), Pages::Wave(ref w) if w.data.len() == 5 && w.data.iter().all(|v| (-256..=256).contains(v))));
}

#[test]
fn parse_outcome_reaches_the_feedback() {
    let mut f = FormulaState::default();
    let text: Vec<char> = "[0]=&q".chars().collect();
    assert!(!f.parsed(&text, Err((4, ParseProblem::InvalidToken))));
    assert_eq!(f.message1, "      [0]=&q");
    assert_eq!(f.message2, "          ^ - bad token");
    assert_eq!(f.formula.len(), 1);

    let ok = vec![Statement::Assign { target: Targets::ArrAcc(1), expr: Expr::Float(0) }];
    assert!(f.parsed(&text, Ok(ok)));
    assert_eq!(f.message2, "Success!");
    assert_eq!(f.formula.len(), 1);
    let bad = vec![Statement::Assign { target: Targets::ArrAcc(1), expr: Expr::Var("k".to_string()) }];
    assert!(!f.parsed(&text, Ok(bad)));
    assert_eq!(f.message1, "k");
    assert!(f.formula.is_empty());
}

#[test]
fn formula_reads_and_writes_samples() {
    let data = vec![3, 4, 5];
    assert_eq!(sample_at(&data, 1, 1), 5);
    assert_eq!(sample_at(&data, 1, -1), 3);
    assert_eq!(sample_at(&data, 1, -5), 3);
    assert_eq!(sample_at(&data, 1, 2), 0);
    assert_eq!(sample_at(&data, usize::MAX, 1), 0);
    let mut t = vec![0, 0, 0];
    store_at(&mut t, 1, 1, 9);
    assert_eq!(t, vec![0, 0, 9]);
    store_at(&mut t, 1, -3, 7);
    assert_eq!(t, vec![7, 0, 9]);
    store_at(&mut t, 1, 2, 5);
    assert_eq!(t, vec![7, 0, 9]);
}

#[test]
fn view_positions() {
    assert_eq!(view_offset(10, 4), Some(6));
    assert_eq!(view_offset(4, 10), Some(-6));
    assert_eq!(view_offset(usize::MAX, 0), None);
    assert_eq!(stepped_positions(0, 10, 3), vec![0, 3, 6, 9]);
    assert_eq!(stepped_positions(2, 3, 5), vec![2]);
    assert_eq!(stepped_positions(5, 5, 1), Vec::<usize>::new());
    assert_eq!(stepped_positions(usize::MAX - 1, usize::MAX, 4), vec![usize::MAX - 1]);
}

#[test]
fn window_checks_what_the_page_can_take() {
    let mut a = Adio::new();
    assert!(a.takes(MesDummies::GetSpec));
    assert!(a.takes(MesDummies::WavePageSig { wp_sig: WavePageSig::Copy }));
    a.load(vec![1, 2, 3], 8000, 1);
    // Nothing selected: no spectrogram.
    assert!(!a.takes(MesDummies::GetSpec));
    assert!(a.takes(MesDummies::PlayAudio(true)));
    a.pages[0].selection = (2, 1);
    assert!(!a.takes(MesDummies::PlayAudio(true)));
    assert!(!a.takes(MesDummies::WavePageSig { wp_sig: WavePageSig::FormulaChanged }));
    a.pages[0].selection = (0, 2);
    assert!(a.takes(MesDummies::WavePageSig { wp_sig: WavePageSig::ToggleEditMode { save: false } }));
    a.update(MesDummies::WavePageSig { wp_sig: WavePageSig::ToggleEditMode { save: false } });
    assert!(a.pages[0].is_edit_ready());
    assert!(a.takes(MesDummies::WaveDrawerSig { wd_sig: DrawerInput::SelectOrEdit { pos: 1, amp: 4 } }));
    a.pages[0].edit_buffer.pop();
    assert!(!a.pages[0].is_edit_ready());
    assert!(!a.takes(MesDummies::WaveDrawerSig { wd_sig: DrawerInput::SelectOrEdit { pos: 1, amp: 4 } }));
    let empty = Adio { pages: Vec::new(), cur_page: 0, buffer: Vec::new(), cached_spec: Vec::new() };
    assert!(!empty.takes(MesDummies::OpenFile));
    assert!(adios::wav_writer::fits_wav(&vec![0; 10], 44100, 2));
    assert!(!adios::wav_writer::fits_wav(&vec![0; 10], u32::MAX, 2));
    assert!(!adios::wav_writer::fits_wav(&vec![0; 10], 8000, u16::MAX));
}

#[test]
fn edit_session_stays_ready() {
    let mut a = Adio::new();
    a.load((0..8).collect(), 8000, 1);
    a.update(MesDummies::WaveDrawerSig { wd_sig: DrawerInput::SelectOrEditBegin { pos: 2 } });
    a.update(MesDummies::WaveDrawerSig { wd_sig: DrawerInput::SelectOrEditEnd { pos: 5 } });
    a.update(MesDummies::WavePageSig { wp_sig: WavePageSig::ToggleEditMode { save: false } });
    assert!(a.pages[0].edit_mode);
    assert!(a.pages[0].is_edit_ready());
    let gestures = [
        DrawerInput::SelectOrEditBegin { pos: 0 },
        DrawerInput::SelectOrEdit { pos: 0, amp: 9 },
        DrawerInput::SelectOrEdit { pos: 7, amp: -9 },
        DrawerInput::SelectOrEditEnd { pos: 7 },
        DrawerInput::ResizeBegin,
        DrawerInput::ResizeOrErase { pos: 3 },
        DrawerInput::ResizeOrErase { pos: 100 },
        DrawerInput::ResizeOrEraseEnd,
        DrawerInput::Scroll,
        DrawerInput::ForceRedraw,
    ];
    for g in gestures {
        assert!(a.takes(MesDummies::WaveDrawerSig { wd_sig: g }));
        a.update(MesDummies::WaveDrawerSig { wd_sig: g });
        assert!(a.pages[0].edit_mode);
        assert!(a.pages[0].is_edit_ready());
        assert_eq!(a.pages.len(), 1);
        assert_eq!(a.cur_page, 0);
    }
    assert_eq!(a.pages[0].edit_buffer, vec![Some(9), None, None, None]);
}
