use adios::effects::EditEffects;
use adios::page::{noise_from, wrap, wedge, DrawerInput, PageWork, WavePageSig, WaveformPage, LIMIT};

fn page(data: Vec<i16>, sel: (usize, usize)) -> WaveformPage {
    let mut p = WaveformPage::new_widh_data(data, 8000, 1);
    p.selection = sel;
    p
}

#[test]
fn wrap_brings_samples_into_range() {
    assert_eq!(wrap(0), 0);
    assert_eq!(wrap(256), 256);
    assert_eq!(wrap(-256), -256);
    assert_eq!(wrap(300), 44);
    assert_eq!(wrap(-300), -44);
    assert_eq!(wrap(512), 256);
    assert_eq!(wrap(-512), -256);
    assert_eq!(wrap(i16::MAX), 255);
    assert_eq!(wrap(i16::MIN), -256);
    for v in [-30000i16, -1000, -257, 257, 1000, 30000] {
        let w = wrap(v);
        assert!(-LIMIT <= w && w <= LIMIT);
        assert_eq!((w as i32 - v as i32) % 256, 0);
        assert_eq!(wrap(w), w);
    }
}

#[test]
fn noise_is_wrapped() {
    assert_eq!(noise_from(&vec![1000, -1000, 3]), vec![232, -232, 3]);
    let p = WaveformPage::new_noisy(500);
    assert_eq!(p.data.len(), 500);
    assert!(p.data.iter().all(|&v| -LIMIT <= v && v <= LIMIT));
    assert_eq!(p.selection, (0, 0));
    assert_eq!(p.sample_rate, 44800);
    let mut q = page(vec![1, 2], (0, 0));
    q.append_noise(10);
    assert_eq!(q.data.len(), 12);
    assert_eq!(&q.data[..2], &[1, 2]);
    assert!(q.data[2..].iter().all(|&v| -LIMIT <= v && v <= LIMIT));
}

#[test]
fn wedge_alternates_around_focus() {
    assert_eq!(wedge(6, 2), vec![2, -1, 0, 1, -2, 3]);
    let p = WaveformPage::new_wedge(64, 32);
    assert_eq!(p.data.len(), 64);
    assert_eq!(p.data[0], 32);
    assert_eq!(p.data[1], -31);
    assert_eq!(p.data[63], 31);
    assert_eq!(p.selection, (0, 32));
    assert_eq!(p.sample_rate(), 44800);
    assert_eq!(p.channels, 1);
}

#[test]
fn cut_then_paste_restores_samples() {
    let before: Vec<i16> = (0..10).collect();
    let mut p = page(before.clone(), (3, 5));
    let mut clip = Vec::new();
    assert_eq!(p.process_page_signal(WavePageSig::Cut { delete: false }, &mut clip), PageWork::Redraw);
    assert_eq!(clip, vec![3, 4, 5]);
    assert_eq!(p.data, vec![0, 1, 2, 6, 7, 8, 9]);
    assert_eq!(p.selection, (3, 3));
    assert_eq!(p.process_page_signal(WavePageSig::Paste { empty: None }, &mut clip), PageWork::Redraw);
    assert_eq!(p.data, before);
    assert_eq!(clip, vec![3, 4, 5]);
}

#[test]
fn delete_keeps_clipboard() {
    let mut p = page((0..6).collect(), (1, 2));
    let mut clip = vec![42];
    p.process_page_signal(WavePageSig::Cut { delete: true }, &mut clip);
    assert_eq!(clip, vec![42]);
    assert_eq!(p.data, vec![0, 3, 4, 5]);
}

#[test]
fn copy_takes_selection_within_data() {
    let mut p = page((0..6).collect(), (2, 4));
    let mut clip = Vec::new();
    p.process_page_signal(WavePageSig::Copy, &mut clip);
    assert_eq!(clip, vec![2, 3, 4]);
    let mut q = page((0..6).collect(), (4, 9));
    q.process_page_signal(WavePageSig::Copy, &mut clip);
    assert_eq!(clip, vec![4, 5]);
    let mut r = page((0..6).collect(), (7, 9));
    r.process_page_signal(WavePageSig::Copy, &mut clip);
    assert!(clip.is_empty());
}

#[test]
fn insert_blank_pads_with_silence() {
    let mut p = page(vec![5, 6, 7], (1, 2));
    let mut clip = vec![9];
    p.process_page_signal(WavePageSig::Paste { empty: Some(3) }, &mut clip);
    assert_eq!(p.data, vec![5, 0, 0, 0, 6, 7]);
    assert_eq!(clip, vec![9]);
}

#[test]
fn view_commands_leave_model_alone() {
    let mut p = page(vec![1, 2, 3], (0, 2));
    let mut clip = Vec::new();
    assert_eq!(p.process_page_signal(WavePageSig::AllignSelect, &mut clip), PageWork::AllignSelect);
    assert_eq!(p.process_page_signal(WavePageSig::FixNegScale, &mut clip), PageWork::FixNegScale);
    assert_eq!(p.process_page_signal(WavePageSig::ResetView, &mut clip), PageWork::ResetView);
    assert_eq!(
        p.process_page_signal(WavePageSig::FormulaChanged, &mut clip),
        PageWork::Recalc { begin: 0, end: 2, smooth: false }
    );
    assert_eq!(p.data, vec![1, 2, 3]);
}

#[test]
fn edit_session_draws_erases_and_saves() {
    let mut p = page((0..10).collect(), (2, 6));
    let mut clip = Vec::new();
    p.process_page_signal(WavePageSig::ToggleEditMode { save: false }, &mut clip);
    assert!(p.edit_mode);
    assert_eq!(p.edit_buffer, vec![None; 5]);
    assert_eq!(p.affected_data, vec![2, 3, 4, 5, 6]);
    assert_eq!(p.focus_data(), vec![2, 3, 4, 5, 6]);

    assert_eq!(p.process_wave_drawer_sig(DrawerInput::SelectOrEditBegin { pos: 0 }), PageWork::Nothing);
    assert_eq!(
        p.process_wave_drawer_sig(DrawerInput::SelectOrEdit { pos: 3, amp: 100 }),
        PageWork::Recalc { begin: 3, end: 3, smooth: false }
    );
    assert_eq!(p.pending_edits(3, 3), vec![(1, 100)]);
    assert_eq!(
        p.process_wave_drawer_sig(DrawerInput::SelectOrEdit { pos: 20, amp: -7 }),
        PageWork::Recalc { begin: 3, end: 6, smooth: true }
    );
    assert_eq!(p.edit_buffer, vec![None, Some(100), None, None, Some(-7)]);
    assert_eq!(p.pending_edits(2, 6), vec![(1, 100), (4, -7)]);
    assert_eq!(p.pending_edits(2, 100), vec![(1, 100), (4, -7)]);

    p.affected_data = vec![20, 30, 40, 50, 60];
    assert_eq!(p.process_wave_drawer_sig(DrawerInput::ResizeBegin), PageWork::Nothing);
    assert_eq!(p.edit_last_pos, None);
    assert_eq!(p.process_wave_drawer_sig(DrawerInput::ResizeOrErase { pos: 6 }), PageWork::Redraw);
    assert_eq!(p.edit_buffer, vec![None, Some(100), None, None, None]);
    assert_eq!(p.affected_data, vec![20, 30, 40, 50, 6]);
    assert_eq!(p.process_wave_drawer_sig(DrawerInput::ResizeOrErase { pos: 4 }), PageWork::Redraw);
    assert_eq!(p.affected_data, vec![20, 30, 4, 5, 6]);

    p.process_page_signal(WavePageSig::ToggleEditMode { save: true }, &mut clip);
    assert!(!p.edit_mode);
    assert!(p.edit_buffer.is_empty() && p.affected_data.is_empty());
    assert_eq!(p.data, vec![0, 1, 20, 30, 4, 5, 6, 7, 8, 9]);
}

#[test]
fn discarded_edit_changes_nothing() {
    let mut p = page((0..5).collect(), (1, 3));
    let mut clip = Vec::new();
    p.process_page_signal(WavePageSig::ToggleEditMode { save: false }, &mut clip);
    p.affected_data = vec![9, 9, 9];
    p.process_page_signal(WavePageSig::ToggleEditMode { save: false }, &mut clip);
    assert_eq!(p.data, vec![0, 1, 2, 3, 4]);
}

#[test]
fn selection_follows_the_pointer() {
    let mut p = page((0..10).collect(), (0, 0));
    assert_eq!(p.process_wave_drawer_sig(DrawerInput::SelectOrEditBegin { pos: 7 }), PageWork::Redraw);
    assert_eq!(p.process_wave_drawer_sig(DrawerInput::SelectOrEdit { pos: 2, amp: 0 }), PageWork::Redraw);
    assert_eq!(p.selection, (7, 2));
    assert_eq!(p.select_len(), 5);
    assert_eq!(p.process_wave_drawer_sig(DrawerInput::SelectOrEditEnd { pos: 50 }), PageWork::Redraw);
    assert_eq!(p.selection, (7, 9));
    p.process_wave_drawer_sig(DrawerInput::SelectOrEditBegin { pos: 5 });
    p.process_wave_drawer_sig(DrawerInput::SelectOrEditEnd { pos: 1 });
    assert_eq!(p.selection, (1, 5));
    assert_eq!(p.focus_data(), vec![1, 2, 3, 4]);
    assert_eq!(p.process_wave_drawer_sig(DrawerInput::ResizeOrErase { pos: 3 }), PageWork::Scale);
    assert_eq!(p.process_wave_drawer_sig(DrawerInput::Scroll), PageWork::Scroll);
    assert_eq!(p.process_wave_drawer_sig(DrawerInput::ForceRedraw), PageWork::Redraw);
    assert_eq!(p.selection, (1, 5));
}

#[test]
fn edit_effects_build_replacements() {
    let mut p = page((0..8).collect(), (2, 5));
    assert_eq!(EditEffects::Unset.data(&p), vec![2, 3, 4]);
    assert_eq!(EditEffects::Loop(3).data(&p), vec![2, 3, 4, 2, 3, 4, 2, 3, 4]);
    assert_eq!(EditEffects::Loop(0).data(&p), Vec::<i16>::new());
    assert_eq!(EditEffects::Delete.data(&p), Vec::<i16>::new());
    assert_eq!(EditEffects::Paste(vec![7, 7]).data(&p), vec![7, 7]);
    p.affected_data = vec![1, 1];
    assert_eq!(EditEffects::MouseEdit.data(&p), vec![1, 1]);
    assert!(matches!(EditEffects::default(), EditEffects::Unset));
    let empty = page((0..8).collect(), (4, 4));
    assert_eq!(EditEffects::Loop(5).data(&empty), Vec::<i16>::new());
}

#[test]
fn default_page_is_empty() {
    let p = WaveformPage::default();
    assert!(p.data.is_empty());
    assert_eq!(p.selection, (0, 0));
    assert!(p.edit_buffer.is_empty() && p.affected_data.is_empty());
    assert_eq!((p.sample_rate, p.channels), (0, 0));
    assert!(!p.edit_mode);
    assert!(p.edit_last_pos.is_none());
}

#[test]
fn untouched_edit_changes_nothing_when_applied() {
    let before: Vec<i16> = vec![4, -3, 7, 0, 9];
    let mut p = page(before.clone(), (1, 3));
    let mut clip = vec![1, 2];
    p.process_page_signal(WavePageSig::ToggleEditMode { save: false }, &mut clip);
    assert!(p.edit_mode);
    p.process_page_signal(WavePageSig::ToggleEditMode { save: true }, &mut clip);
    assert_eq!(p.data, before);
    assert!(!p.edit_mode);
    assert!(p.edit_buffer.is_empty() && p.affected_data.is_empty());
    assert_eq!(p.selection, (1, 3));
    assert_eq!(clip, vec![1, 2]);
}
