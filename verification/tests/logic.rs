use muzik::args::parse_input_path;
use muzik::history::SampleHistory;
use muzik::muzik::{Button, Command, Muzik, MAX_VISIBLE_POINTS};
use muzik::speed::PlaybackSpeed;
use muzik::theme::{MuzikTheme, Rgb, VisualizationTheme, VisualizationType};
use muzik::window::{frame_scan_is_finite_exec, frame_starts, window_size_from_exponent};

fn args(list: &[&str]) -> Vec<String> {
    list.iter().map(|s| s.to_string()).collect()
}

#[test]
fn window_size_is_clamped_power_of_two() {
    assert_eq!(window_size_from_exponent(i32::MIN), 512);
    assert_eq!(window_size_from_exponent(-3), 512);
    assert_eq!(window_size_from_exponent(0), 512);
    assert_eq!(window_size_from_exponent(9), 512);
    assert_eq!(window_size_from_exponent(10), 1024);
    assert_eq!(window_size_from_exponent(11), 2048);
    assert_eq!(window_size_from_exponent(12), 4096);
    assert_eq!(window_size_from_exponent(13), 8192);
    assert_eq!(window_size_from_exponent(31), 8192);
    assert_eq!(window_size_from_exponent(i32::MAX), 8192);
}

#[test]
fn window_size_for_typical_rate() {
    // 44100 Hz for 46.4 ms is about 2046 samples: log2 rounds to 11.
    let exact: f32 = 44100.0 * 0.0464;
    let power = exact.log2().round();
    assert_eq!(window_size_from_exponent(power as i32), 2048);
}

#[test]
fn frames_step_by_hop_while_a_window_fits() {
    assert_eq!(frame_starts(10, 4, 2), vec![0, 2, 4, 6]);
    assert_eq!(frame_starts(10, 4, 3), vec![0, 3, 6]);
    assert_eq!(frame_starts(4, 4, 1), vec![0]);
    assert_eq!(frame_starts(8, 4, 100), vec![0]);
    assert_eq!(frame_starts(3, 4, 2), Vec::<usize>::new());
    assert_eq!(frame_starts(0, 0, 5), vec![0]);
}

#[test]
fn frame_scan_finiteness() {
    assert!(frame_scan_is_finite_exec(10, 4, 2));
    assert!(!frame_scan_is_finite_exec(10, 4, 0));
    assert!(frame_scan_is_finite_exec(3, 4, 0));
    assert!(!frame_scan_is_finite_exec(usize::MAX, 1, usize::MAX));
    assert!(frame_scan_is_finite_exec(usize::MAX, usize::MAX, 0) == false);
}

#[test]
fn speed_button_cycles_through_all_speeds() {
    let mut s = PlaybackSpeed::Normal;
    let mut seen = Vec::new();
    for _ in 0..4 {
        s = s.next();
        seen.push(s);
    }
    assert_eq!(
        seen,
        vec![
            PlaybackSpeed::Double,
            PlaybackSpeed::Quadruple,
            PlaybackSpeed::Half,
            PlaybackSpeed::Normal
        ]
    );
}

#[test]
fn speed_labels_and_ratios() {
    assert_eq!(PlaybackSpeed::Half.label(), "0.5x");
    assert_eq!(PlaybackSpeed::Normal.label(), "1x");
    assert_eq!(PlaybackSpeed::Double.label(), "2x");
    assert_eq!(PlaybackSpeed::Quadruple.label(), "4x");
    assert_eq!(PlaybackSpeed::Half.ratio(), (1, 2));
    assert_eq!(PlaybackSpeed::Quadruple.ratio(), (4, 1));
    assert_eq!(PlaybackSpeed::Double.position(), 2);
    assert_eq!(PlaybackSpeed::from_position(0), PlaybackSpeed::Half);
}

#[test]
fn speed_labels_match_float_display() {
    for s in [
        PlaybackSpeed::Half,
        PlaybackSpeed::Normal,
        PlaybackSpeed::Double,
        PlaybackSpeed::Quadruple,
    ] {
        let (n, d) = s.ratio();
        let f = n as f32 / d as f32;
        assert_eq!(format!("{}x", f), s.label());
    }
}

#[test]
fn theme_colours() {
    assert_eq!(MuzikTheme::Dark.get_rgb(), Rgb { r: 0, g: 0, b: 0 });
    assert_eq!(MuzikTheme::Light.get_rgb(), Rgb { r: 255, g: 255, b: 255 });
    assert_eq!(MuzikTheme::Nightly.get_rgb(), Rgb { r: 30, g: 32, b: 48 });
    assert_eq!(MuzikTheme::Dark.get_secondary_rgb(), Rgb { r: 20, g: 20, b: 20 });
    assert_eq!(MuzikTheme::Light.get_secondary_rgb(), Rgb { r: 239, g: 241, b: 245 });
    assert_eq!(MuzikTheme::Nightly.get_secondary_rgb(), Rgb { r: 48, g: 52, b: 70 });
    assert_eq!(MuzikTheme::Dark.get_noninteractive_rgb(), Rgb { r: 108, g: 112, b: 134 });
    assert_eq!(MuzikTheme::Light.get_noninteractive_rgb(), Rgb { r: 0, g: 0, b: 0 });
    assert_eq!(MuzikTheme::Nightly.get_noninteractive_rgb(), Rgb { r: 108, g: 112, b: 134 });
}

#[test]
fn visualisation_colours() {
    let expected = [
        (VisualizationTheme::Black, (0, 0, 0)),
        (VisualizationTheme::White, (255, 255, 255)),
        (VisualizationTheme::Lavender, (183, 189, 248)),
        (VisualizationTheme::Pink, (245, 194, 231)),
        (VisualizationTheme::Sky, (4, 165, 229)),
        (VisualizationTheme::Teal, (139, 213, 202)),
        (VisualizationTheme::Crust, (220, 224, 232)),
        (VisualizationTheme::Mauve, (198, 160, 246)),
    ];
    for (theme, (r, g, b)) in expected {
        assert_eq!(theme.get_rgb(), Rgb { r, g, b });
    }
}

#[test]
fn input_path_follows_flag() {
    assert_eq!(parse_input_path(&args(&["muzik"])), None);
    assert_eq!(parse_input_path(&args(&["muzik", "-i", "song.mp3"])), Some("song.mp3".to_string()));
    assert_eq!(parse_input_path(&args(&["muzik", "x", "-i", "a.wav", "y"])), Some("a.wav".to_string()));
    assert_eq!(parse_input_path(&args(&["muzik", "-i", "a.wav", "-i", "b.wav"])), Some("b.wav".to_string()));
    assert_eq!(parse_input_path(&args(&["muzik", "-i", "a.wav", "-i"])), None);
    assert_eq!(parse_input_path(&args(&["muzik", "-i", "-i"])), Some("-i".to_string()));
    assert_eq!(parse_input_path(&args(&["-i", "a.wav"])), None);
    assert_eq!(parse_input_path(&args(&[])), None);
}

#[test]
fn history_keeps_last_samples() {
    let mut h: SampleHistory<i32, 4> = SampleHistory::new(0);
    assert_eq!(h.samples().iter().copied().collect::<Vec<_>>(), vec![0, 0, 0, 0]);
    h.push_all(&vec![1, 2]);
    assert_eq!(h.samples().iter().copied().collect::<Vec<_>>(), vec![0, 0, 1, 2]);
    h.push_all(&vec![3, 4, 5, 6, 7]);
    assert_eq!(h.samples().iter().copied().collect::<Vec<_>>(), vec![4, 5, 6, 7]);
    h.push_all(&vec![]);
    assert_eq!(h.samples().iter().copied().collect::<Vec<_>>(), vec![4, 5, 6, 7]);
}

#[test]
fn history_batch_equals_one_by_one() {
    let mut batch: SampleHistory<i32, 3> = SampleHistory::new(-1);
    let mut single: SampleHistory<i32, 3> = SampleHistory::new(-1);
    let samples = vec![5, 6, 7, 8];
    batch.push_all(&samples);
    for s in &samples {
        single.push_all(&vec![*s]);
    }
    assert_eq!(batch.samples(), single.samples());
}

#[test]
fn startup_without_file_is_idle() {
    let mut m: Muzik<f32> = Muzik::new(None, 0.0);
    assert!(!m.is_playing());
    assert_eq!(m.input_path(), None);
    assert_eq!(m.playback_speed(), PlaybackSpeed::Normal);
    assert_eq!(m.theme(), MuzikTheme::Nightly);
    assert_eq!(m.visualisation_theme(), VisualizationTheme::Lavender);
    assert_eq!(m.visualisation_type(), VisualizationType::Type1);
    assert!(!m.settings_modal_open());
    assert_eq!(m.history().len(), MAX_VISIBLE_POINTS);
    assert!(m.history().iter().all(|&s| s == 0.0));
    assert_eq!(m.play_audio(), Command::Nothing);
}

#[test]
fn startup_with_file_starts_it() {
    let mut m: Muzik<f32> = Muzik::new(Some("song.mp3".to_string()), 0.0);
    assert!(m.is_playing());
    assert_eq!(m.play_audio(), Command::Start("song.mp3".to_string()));
    assert_eq!(m.playback_speed(), PlaybackSpeed::Normal);
}

#[test]
fn buttons_while_playing() {
    let mut m: Muzik<f32> = Muzik::new(Some("a.mp3".to_string()), 0.0);
    assert_eq!(m.press(Button::Pause), Command::Pause);
    assert_eq!(m.press(Button::Play), Command::Resume);
    assert_eq!(m.press(Button::Speed), Command::SetSpeed(PlaybackSpeed::Double));
    assert_eq!(m.press(Button::Speed), Command::SetSpeed(PlaybackSpeed::Quadruple));
    assert_eq!(m.press(Button::Speed), Command::SetSpeed(PlaybackSpeed::Half));
    assert_eq!(m.press(Button::Speed), Command::SetSpeed(PlaybackSpeed::Normal));
    assert_eq!(m.press(Button::Settings), Command::Nothing);
    assert!(m.settings_modal_open());
    m.close_settings();
    assert!(!m.settings_modal_open());
}

#[test]
fn stop_silences_and_ignores_transport() {
    let mut m: Muzik<f32> = Muzik::new(Some("a.mp3".to_string()), 0.0);
    m.update(&vec![0.5, -0.5]);
    assert_eq!(m.history()[MAX_VISIBLE_POINTS - 1], -0.5);
    assert_eq!(m.press(Button::Stop), Command::Stop);
    assert!(!m.is_playing());
    assert!(m.history().iter().all(|&s| s == 0.0));
    assert_eq!(m.input_path(), Some(&"a.mp3".to_string()));
    assert_eq!(m.press(Button::Play), Command::Nothing);
    assert_eq!(m.press(Button::Pause), Command::Nothing);
    assert_eq!(m.press(Button::Stop), Command::Nothing);
    assert_eq!(m.play_audio(), Command::Nothing);
    m.update(&vec![0.25]);
    assert!(m.history().iter().all(|&s| s == 0.0));
}

#[test]
fn speed_button_works_when_stopped() {
    let mut m: Muzik<f32> = Muzik::new(None, 0.0);
    assert_eq!(m.press(Button::Speed), Command::SetSpeed(PlaybackSpeed::Double));
    assert_eq!(m.playback_speed(), PlaybackSpeed::Double);
}

#[test]
fn dropped_file_starts_at_normal_speed() {
    let mut m: Muzik<f32> = Muzik::new(None, 0.0);
    m.press(Button::Speed);
    assert_eq!(m.drop_file("b.flac".to_string()), Command::Start("b.flac".to_string()));
    assert!(m.is_playing());
    assert_eq!(m.playback_speed(), PlaybackSpeed::Double);
    assert_eq!(m.input_path(), Some(&"b.flac".to_string()));
    m.start_succeeded();
    assert_eq!(m.playback_speed(), PlaybackSpeed::Normal);
    assert!(m.is_playing());
}

#[test]
fn speed_kept_until_file_opens() {
    let mut m: Muzik<f32> = Muzik::new(Some("a.mp3".to_string()), 0.0);
    m.press(Button::Speed);
    m.press(Button::Speed);
    assert_eq!(m.play_audio(), Command::Start("a.mp3".to_string()));
    assert_eq!(m.playback_speed(), PlaybackSpeed::Quadruple);
    m.start_succeeded();
    assert_eq!(m.playback_speed(), PlaybackSpeed::Normal);
}

#[test]
fn update_slides_history() {
    let mut m: Muzik<i16> = Muzik::new(Some("a".to_string()), 0);
    let batch: Vec<i16> = (1..=1030).collect();
    m.update(&batch);
    let h: Vec<i16> = m.history().iter().copied().collect();
    assert_eq!(h.len(), MAX_VISIBLE_POINTS);
    assert_eq!(h[0], 7);
    assert_eq!(h[MAX_VISIBLE_POINTS - 1], 1030);
}

#[test]
fn settings_selection() {
    let mut m: Muzik<f32> = Muzik::new(None, 0.0);
    m.set_theme(MuzikTheme::Light);
    m.set_visualisation_theme(VisualizationTheme::Teal);
    m.set_visualisation_type(VisualizationType::Type2);
    assert_eq!(m.theme(), MuzikTheme::Light);
    assert_eq!(m.visualisation_theme(), VisualizationTheme::Teal);
    assert_eq!(m.visualisation_type(), VisualizationType::Type2);
}
