use adios::drawer::{allign_middle, scroll_index, update, DrawerSignal, DrawerStep, MouseButton, PointerEvent, WDStates};
use adios::page::{DrawerInput, PageWork, WavePageSig, WaveformPage};
use adios::sources::{DataSource, DataSourceType, PCMFileSource};
use adios::spectrum::{get_spec, spectrum_input};
use adios::wav_writer::encode_wav;

#[test]
fn pcm_sources() {
    let d = PCMFileSource::default();
    assert_eq!(d.data, vec![0; 256]);
    assert_eq!(d.sample_rate(), 44100);
    assert_eq!(d.channels(), 1);
    assert!(d.is_cached());
    assert!(d.source_name.is_none());
    let w = PCMFileSource::new_wedge(4, 1);
    assert_eq!(w.data, vec![1, 0, -1, 2]);
    let n = PCMFileSource::new_noisy(100);
    assert_eq!(n.data.len(), 100);
    assert!(n.data.iter().all(|&v| (-256..=256).contains(&v)));
    let f = PCMFileSource::new_widh_data(vec![1, 2, 3], 22050, 2, "clip.wav");
    assert_eq!(f.source_name.as_deref(), Some("clip.wav"));
    assert_eq!(f.data(), Some(vec![1, 2, 3]));
}

#[test]
fn source_types_delegate() {
    let mut raw = DataSourceType::new_widh_data(vec![4, 5, 6, 7], 8000, 2, "x");
    assert_eq!(raw.data(), Some(vec![4, 5, 6, 7]));
    assert_eq!(raw.sample_rate(), 8000);
    assert_eq!(raw.channels(), 2);
    assert_eq!(raw.selected_data((1, 3)), Some(vec![5, 6]));
    raw.clear_cache();
    raw.set_cache(vec![1]);
    assert_eq!(raw.data(), Some(vec![4, 5, 6, 7]));
    assert!(matches!(DataSourceType::default(), DataSourceType::RawData(_)));
    assert!(matches!(DataSourceType::new_wedge(8, 0), DataSourceType::RawData(ref p) if p.data == vec![0, 1, -2, 3, -4, 5, -6, 7]));
    assert!(matches!(DataSourceType::new_noisy(3), DataSourceType::RawData(ref p) if p.data.len() == 3));

    let mut page = DataSourceType::WavePage(WaveformPage::new_widh_data((0..6).collect(), 8000, 1));
    let mut clip = Vec::new();
    assert_eq!(page.process_wave_drawer_sig(DrawerInput::SelectOrEditBegin { pos: 1 }), PageWork::Redraw);
    assert_eq!(page.process_wave_drawer_sig(DrawerInput::SelectOrEditEnd { pos: 3 }), PageWork::Redraw);
    assert_eq!(page.process_page_signal(WavePageSig::Copy, &mut clip), PageWork::Redraw);
    assert_eq!(clip, vec![1, 2, 3]);
    assert_eq!(page.data(), Some((0..6).collect()));
}

#[test]
fn pointer_state_machine() {
    let s = update(WDStates::Idle, true, PointerEvent::Pressed(MouseButton::Left));
    assert_eq!(s, DrawerStep { state: WDStates::Selecting, captured: true, signal: Some(DrawerSignal::SelectOrEditBegin) });
    let s = update(WDStates::Selecting, true, PointerEvent::Moved);
    assert_eq!(s.signal, Some(DrawerSignal::SelectOrEdit));
    let s = update(WDStates::Selecting, true, PointerEvent::Pressed(MouseButton::Right));
    assert_eq!(s, DrawerStep { state: WDStates::Selecting, captured: true, signal: None });
    let s = update(WDStates::Selecting, true, PointerEvent::Released(MouseButton::Left));
    assert_eq!(s.state, WDStates::Idle);
    assert_eq!(s.signal, Some(DrawerSignal::SelectOrEditEnd { at_origin: false }));
    let s = update(WDStates::Idle, true, PointerEvent::Pressed(MouseButton::Right));
    assert_eq!(s.state, WDStates::Resizing);
    assert_eq!(s.signal, Some(DrawerSignal::ResizeBegin));
    assert_eq!(update(WDStates::Resizing, true, PointerEvent::Wheel).signal, None);
    assert_eq!(update(WDStates::Idle, true, PointerEvent::Wheel).signal, Some(DrawerSignal::Scroll));
    let s = update(WDStates::Resizing, false, PointerEvent::Moved);
    assert_eq!(s, DrawerStep { state: WDStates::Idle, captured: true, signal: Some(DrawerSignal::ResizeOrEraseEnd { at_anchor: true }) });
    let s = update(WDStates::Idle, false, PointerEvent::Moved);
    assert_eq!(s, DrawerStep { state: WDStates::Idle, captured: false, signal: None });
    assert_eq!(update(WDStates::Idle, true, PointerEvent::Moved).signal, Some(DrawerSignal::ForceRedraw));
    assert_eq!(update(WDStates::Idle, true, PointerEvent::NotMouse).captured, false);
    assert_eq!(WDStates::default(), WDStates::Idle);
}

#[test]
fn view_index_arithmetic() {
    assert_eq!(scroll_index(10, 3, true, 100), 6);
    assert_eq!(scroll_index(2, 3, true, 100), 0);
    assert_eq!(scroll_index(10, 3, false, 100), 14);
    assert_eq!(scroll_index(98, 3, false, 100), 100);
    assert_eq!(scroll_index(usize::MAX - 1, 5, false, usize::MAX), usize::MAX);
    assert_eq!(allign_middle((10, 20)), 15);
    assert_eq!(allign_middle((20, 11)), 15);
}

#[test]
fn spectrum_input_repeats_short_stretches() {
    let s = spectrum_input(vec![1, 2, 3]);
    assert_eq!(s.len(), 32768);
    assert_eq!(&s[..7], &[1, 2, 3, 1, 2, 3, 1]);
    assert_eq!(s[32767], [1, 2, 3][32767 % 3]);
    let long: Vec<i16> = (0..3000).map(|i| i as i16).collect();
    assert_eq!(spectrum_input(long.clone()), long);
    assert!(spectrum_input(Vec::new()).is_empty());
    let png = get_spec(vec![0, 1000, -1000, 500], 8000);
    assert_eq!(&png[..8], &[0x89, b'P', b'N', b'G', 0x0d, 0x0a, 0x1a, 0x0a]);
    assert_eq!(&png[8..16], &[0, 0, 0, 13, b'I', b'H', b'D', b'R']);
    assert_eq!(&png[16..24], &[0, 0, 0x03, 0xe8, 0, 0, 0, 150]);
    assert_eq!(&png[24..29], &[8, 6, 0, 0, 0]);
    let long = get_spec((0..5000).map(|i| (i % 300) as i16).collect(), 44100);
    assert_eq!(&long[..29], &png[..29]);
    for file in [&png, &long] {
        let idat_len = u32::from_be_bytes([file[33], file[34], file[35], file[36]]) as usize;
        assert_eq!(file.len(), 57 + idat_len);
        assert_eq!(&file[37..41], b"IDAT");
        assert_eq!(&file[file.len() - 12..], &[0, 0, 0, 0, b'I', b'E', b'N', b'D', 0xae, 0x42, 0x60, 0x82]);
    }
}

#[test]
fn wav_bytes_follow_riff_layout() {
    let bytes = encode_wav(&vec![1, -2], 8000, 1);
    let mut expected: Vec<u8> = Vec::new();
    expected.extend_from_slice(b"RIFF");
    expected.extend_from_slice(&40u32.to_le_bytes());
    expected.extend_from_slice(b"WAVEfmt ");
    expected.extend_from_slice(&16u32.to_le_bytes());
    expected.extend_from_slice(&1u16.to_le_bytes());
    expected.extend_from_slice(&1u16.to_le_bytes());
    expected.extend_from_slice(&8000u32.to_le_bytes());
    expected.extend_from_slice(&16000u32.to_le_bytes());
    expected.extend_from_slice(&2u16.to_le_bytes());
    expected.extend_from_slice(&16u16.to_le_bytes());
    expected.extend_from_slice(b"data");
    expected.extend_from_slice(&4u32.to_le_bytes());
    expected.extend_from_slice(&[1, 0, 0xfe, 0xff]);
    assert_eq!(bytes, expected);
    assert_eq!(encode_wav(&Vec::new(), 44100, 2).len(), 44);
}
