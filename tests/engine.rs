use asmr_player::controller::{Controller, OpenRequest, Phase, PlaybackError, SinkAction};
use asmr_player::progress::ProgressReporter;
use asmr_player::session::{Session, TrackInfo};
use asmr_player::spectrum::{reduce_bars, MAX_BARS};
use asmr_player::tap::{SampleTap, WINDOW_SIZE};

fn loaded(path: &str) -> Controller {
    let mut c = Controller::new(true);
    let req = c.request_load(path.to_string()).expect("device present");
    c.complete_open(req, Ok(())).expect("open succeeds");
    c
}

#[test]
fn tap_emits_full_window_in_order() {
    let mut tap: SampleTap<f32> = SampleTap::new(4);
    assert!(tap.observe(0.1).is_none());
    assert!(tap.observe(0.2).is_none());
    assert!(tap.observe(0.3).is_none());
    let w = tap.observe(0.4).expect("window full");
    assert_eq!(w, vec![0.1, 0.2, 0.3, 0.4]);
    assert!(tap.observe(0.5).is_none());
}

#[test]
fn tap_short_stream_emits_nothing() {
    let mut tap: SampleTap<f32> = SampleTap::new(WINDOW_SIZE);
    for i in 0..(WINDOW_SIZE - 1) {
        assert!(tap.observe(i as f32).is_none());
    }
    assert_eq!(tap.observe(1.0).map(|w| w.len()), Some(WINDOW_SIZE));
}

#[test]
fn bars_are_truncated_to_the_limit() {
    let bins: Vec<f32> = (0..150).map(|i| i as f32).collect();
    let bars = reduce_bars(bins.clone());
    assert_eq!(bars.len(), MAX_BARS);
    assert_eq!(bars[..], bins[..100]);
    let few: Vec<f32> = vec![1.0, 2.0, 3.0];
    assert_eq!(reduce_bars(few.clone()), few);
    assert_eq!(reduce_bars(Vec::<f32>::new()).len(), 0);
}

#[test]
fn bar_count_depends_on_window_size_only() {
    let a: Vec<f32> = vec![0.5; 511];
    let b: Vec<f32> = (0..511).map(|i| i as f32 * 0.25).collect();
    assert_eq!(reduce_bars(a).len(), reduce_bars(b).len());
}

#[test]
fn progress_is_throttled_and_exact() {
    let mut r = ProgressReporter::new(44100, 1, 5_000_000);
    assert_eq!(r.on_window(1024, 100), None);
    // 2048 samples at 44.1 kHz mono are 46439.9 microseconds.
    assert_eq!(r.on_window(1024, 300), Some(5_046_439));
    assert_eq!(r.on_window(1024, 400), None);
    // 4096 samples are 92879.8 microseconds.
    assert_eq!(r.on_window(1024, 550), Some(5_092_879));
}

#[test]
fn progress_counts_channels() {
    let mut r = ProgressReporter::new(48000, 2, 0);
    assert_eq!(r.on_window(96000, 250), Some(1_000_000));
}

#[test]
fn progress_without_rate_is_not_published() {
    let mut r = ProgressReporter::new(0, 2, 0);
    assert_eq!(r.on_window(1024, 1000), None);
}

#[test]
fn session_publishes_duration_first() {
    let info = TrackInfo { sample_rate: 44100, channels: 2, duration_us: Some(3_000_000) };
    let (mut s, duration) = Session::start(&info, 0);
    assert_eq!(duration, Some(3_000_000));
    let ev = s.on_window(1024, Some(vec![1.0f32, 2.0]), 10);
    assert_eq!(ev.spectrum, Some(vec![1.0, 2.0]));
    assert_eq!(ev.progress_us, None);
}

#[test]
fn session_without_duration_publishes_none() {
    let info = TrackInfo { sample_rate: 44100, channels: 2, duration_us: None };
    let (_, duration) = Session::start(&info, 0);
    assert_eq!(duration, None);
}

#[test]
fn failed_analysis_drops_frame_only() {
    let info = TrackInfo { sample_rate: 1000, channels: 1, duration_us: Some(1) };
    let (mut s, _) = Session::start(&info, 0);
    let ev = s.on_window::<f32>(1000, None, 300);
    assert_eq!(ev.spectrum, None);
    assert_eq!(ev.progress_us, Some(1_000_000));
}

#[test]
fn seek_after_load_reports_file_duration_and_offset() {
    let mut c = loaded("/music/ten_seconds.wav");
    let req = c.request_seek(5_000_000).expect("track loaded");
    assert_eq!(req.path, "/music/ten_seconds.wav");
    assert_eq!(req.offset_us, 5_000_000);
    c.complete_open(req, Ok(())).expect("seek succeeds");
    assert_eq!(c.phase(), Phase::Playing);
    assert_eq!(c.offset_us(), 5_000_000);

    let info = TrackInfo { sample_rate: 44100, channels: 1, duration_us: Some(10_000_000) };
    let (mut s, duration) = Session::start(&info, c.offset_us());
    assert_eq!(duration, Some(10_000_000));
    let first = s.on_window(1024, Some(vec![0.0f32; 4]), 260).progress_us.expect("due");
    assert!(first >= 5_000_000);
    assert!(first < 5_000_000 + 1024 * 1_000_000 / 44100 + 1);
}

#[test]
fn failed_load_keeps_playing_session() {
    let mut c = loaded("/music/a.flac");
    let req = c.request_load("/music/empty.mp3".to_string()).expect("device present");
    let r = c.complete_open(req, Err(PlaybackError::Decode("unrecognized format".to_string())));
    match r {
        Err(PlaybackError::Decode(m)) => assert_eq!(m, "unrecognized format"),
        _ => panic!("expected a decode failure"),
    }
    assert_eq!(c.phase(), Phase::Playing);
    assert_eq!(c.current_path(), Some("/music/a.flac".to_string()));
}

#[test]
fn io_failure_is_reported() {
    let mut c = Controller::new(true);
    let req = c.request_load("/missing.mp3".to_string()).unwrap();
    let r = c.complete_open(req, Err(PlaybackError::Io("not found".to_string())));
    assert_eq!(r.err().map(|e| e.message()), Some("not found".to_string()));
    assert_eq!(c.phase(), Phase::Idle);
    assert_eq!(c.current_path(), None);
}

#[test]
fn device_failure_is_reported() {
    let mut c = Controller::new(true);
    let req = c.request_load("/x.ogg".to_string()).unwrap();
    let r = c.complete_open(req, Err(PlaybackError::Device("busy".to_string())));
    assert!(matches!(r, Err(PlaybackError::Device(_))));
}

#[test]
fn pause_then_resume_keeps_position() {
    let mut c = loaded("/music/a.flac");
    let req = c.request_seek(2_000_000).unwrap();
    c.complete_open(req, Ok(())).unwrap();
    assert_eq!(c.pause(), SinkAction::Pause);
    assert_eq!(c.phase(), Phase::Paused);
    assert_eq!(c.resume(), SinkAction::Play);
    assert_eq!(c.phase(), Phase::Playing);
    assert_eq!(c.offset_us(), 2_000_000);
    assert_eq!(c.current_path(), Some("/music/a.flac".to_string()));
}

#[test]
fn pause_twice_is_pause_once() {
    let mut c = loaded("/music/a.flac");
    assert_eq!(c.pause(), SinkAction::Pause);
    assert_eq!(c.pause(), SinkAction::Pause);
    assert_eq!(c.phase(), Phase::Paused);
}

#[test]
fn idle_commands_do_nothing() {
    let mut c = Controller::new(true);
    assert_eq!(c.pause(), SinkAction::Nothing);
    assert_eq!(c.resume(), SinkAction::Nothing);
    assert!(c.request_seek(1_000_000).is_none());
    assert_eq!(c.phase(), Phase::Idle);
    assert!(c.applies_volume());
}

#[test]
fn no_device_makes_commands_no_ops() {
    let c = Controller::new(false);
    assert!(c.request_load("/music/a.flac".to_string()).is_none());
    assert!(c.request_seek(0).is_none());
    assert!(!c.applies_volume());
}

#[test]
fn seek_past_end_is_not_an_error() {
    let mut c = loaded("/music/short.wav");
    let req = c.request_seek(3_600_000_000).unwrap();
    assert!(c.complete_open(req, Ok(())).is_ok());
    assert_eq!(c.phase(), Phase::Playing);
    // The decoder yields no sample past the end, so the tap hands out no window.
    let tap: SampleTap<f32> = SampleTap::new(WINDOW_SIZE);
    drop(tap);
}

#[test]
fn open_request_fields_are_plain() {
    let q = OpenRequest { path: "p".to_string(), offset_us: 7 };
    assert_eq!(q.offset_us, 7);
}

#[test]
fn first_progress_after_seek_is_near_seek() {
    let info = TrackInfo { sample_rate: 44100, channels: 1, duration_us: Some(10_000_000) };
    let (mut s, _) = Session::start(&info, 5_000_000);
    assert_eq!(s.on_window(1024, Some(vec![0.0f32]), 23).progress_us, None);
    let first = s.on_window(1024, Some(vec![0.0f32]), 251).progress_us.expect("due");
    assert_eq!(first, 5_046_439);
    assert!(first <= 5_000_000 + 250_000 + 1024 * 1_000_000 / 44100 + 1);
}

#[test]
fn each_open_starts_a_new_generation() {
    let mut c = Controller::new(true);
    assert_eq!(c.generation(), 0);
    let req = c.request_load("/a.mp3".to_string()).unwrap();
    c.complete_open(req, Ok(())).unwrap();
    assert_eq!(c.generation(), 1);
    let req = c.request_seek(1).unwrap();
    c.complete_open(req, Ok(())).unwrap();
    assert_eq!(c.generation(), 2);
    c.pause();
    c.resume();
    assert_eq!(c.generation(), 2);
    let req = c.request_load("/b.mp3".to_string()).unwrap();
    let _ = c.complete_open(req, Err(PlaybackError::Io("gone".to_string())));
    assert_eq!(c.generation(), 2);
}
