use audio_spectrum::bridge::Latest;
use audio_spectrum::engine::{AudioThread, BridgeAction};
use audio_spectrum::lifecycle::{transition, Command, LifecycleState, SpectrumError, Worker};
use audio_spectrum::scale::{ScaleMode, UNIT};

fn axis(n: u32) -> Vec<i64> {
    (0..n as i64).map(|i| i * 50 * UNIT).collect()
}

fn engine(mode: ScaleMode, alpha: u64) -> AudioThread {
    AudioThread::new(100, axis(100), 2, 480, mode, alpha).unwrap()
}

#[test]
fn transition_table() {
    let (stopped, running, paused) =
        (LifecycleState::Stopped, LifecycleState::Running, LifecycleState::Paused);
    assert_eq!(transition(stopped, Command::Start), Ok(running));
    assert_eq!(transition(running, Command::Pause), Ok(paused));
    assert_eq!(transition(paused, Command::Resume), Ok(running));
    assert_eq!(transition(running, Command::Stop), Ok(stopped));
    assert_eq!(transition(paused, Command::Stop), Ok(stopped));
    let refused = [
        (stopped, Command::Stop),
        (stopped, Command::Pause),
        (stopped, Command::Resume),
        (running, Command::Start),
        (running, Command::Resume),
        (paused, Command::Start),
        (paused, Command::Pause),
    ];
    for (s, c) in refused {
        assert_eq!(transition(s, c), Err(SpectrumError::InvalidStateTransition));
    }
}

#[test]
fn worker_defaults() {
    let w = Worker::new();
    assert!(w.is_stop());
    assert!(!w.is_pause());
    assert_eq!(w.timeout(), 50);
    assert_eq!(w.hz_gap(), 50);
    assert_eq!(w.smooth_alpha(), 500_000);
    assert_eq!(w.mode(), ScaleMode::Amplitude);
}

#[test]
fn worker_stop_when_stopped_is_refused() {
    let mut w = Worker::new();
    assert_eq!(w.stop(), Err(SpectrumError::InvalidStateTransition));
    assert!(w.is_stop());
}

#[test]
fn worker_lifecycle_round() {
    let mut w = Worker::new();
    assert_eq!(w.pause(), Err(SpectrumError::InvalidStateTransition));
    assert_eq!(w.start(), Ok(()));
    assert_eq!(w.state(), LifecycleState::Running);
    assert_eq!(w.start(), Err(SpectrumError::InvalidStateTransition));
    assert_eq!(w.pause(), Ok(()));
    assert!(w.is_pause());
    assert_eq!(w.resume(), Ok(()));
    assert_eq!(w.stop(), Ok(()));
    assert_eq!(w.stop(), Err(SpectrumError::InvalidStateTransition));
}

#[test]
fn worker_params_only_while_stopped() {
    let mut w = Worker::new();
    assert_eq!(w.set_timeout(200), Ok(()));
    assert_eq!(w.set_hz_gap(25), Ok(()));
    assert_eq!(w.set_smooth_alpha(100_000), Ok(()));
    assert_eq!(w.set_mode(ScaleMode::Decibel), Ok(()));
    w.start().unwrap();
    assert_eq!(w.set_timeout(20), Err(SpectrumError::InvalidStateTransition));
    assert_eq!(w.set_hz_gap(10), Err(SpectrumError::InvalidStateTransition));
    assert_eq!(w.set_smooth_alpha(UNIT as u64), Err(SpectrumError::InvalidStateTransition));
    assert_eq!(w.set_mode(ScaleMode::Amplitude), Err(SpectrumError::InvalidStateTransition));
    assert_eq!(w.reset_params(), Err(SpectrumError::InvalidStateTransition));
    assert_eq!((w.timeout(), w.hz_gap(), w.smooth_alpha()), (200, 25, 100_000));
    w.fail();
    assert!(w.is_stop());
    assert_eq!(w.reset_params(), Ok(()));
    assert_eq!((w.timeout(), w.hz_gap(), w.smooth_alpha()), (50, 50, 500_000));
    assert_eq!(w.mode(), ScaleMode::Decibel);
}

#[test]
fn engine_rejects_axis_of_wrong_length() {
    let r = AudioThread::new(100, axis(99), 2, 480, ScaleMode::Decibel, 500_000);
    assert!(matches!(r, Err(SpectrumError::BufferLengthMismatch)));
}

#[test]
fn engine_reports_session_shape() {
    let e = engine(ScaleMode::Decibel, 500_000);
    assert_eq!(e.get_am_len(), 100);
    assert_eq!(e.get_freq_range(), axis(100));
    assert_eq!(e.get_channels(), 2);
    assert_eq!(e.get_raw_len(), 480);
}

#[test]
fn engine_stopped_read_is_zero_filled() {
    let mut e = engine(ScaleMode::Decibel, 500_000);
    assert!(e.is_stop());
    assert_eq!(e.get_am(&vec![]), Ok(vec![0; 100]));
}

#[test]
fn engine_first_frame_is_unsmoothed_then_smoothed() {
    let mut e = engine(ScaleMode::Decibel, 500_000);
    e.start().unwrap();
    let first = e.get_am(&vec![-90 * UNIT; 100]).unwrap();
    assert_eq!(first, vec![10 * UNIT as u64; 100]);
    let second = e.get_am(&vec![-70 * UNIT; 100]).unwrap();
    assert_eq!(second, vec![20 * UNIT as u64; 100]);
    // the average follows the shown frame
    let third = e.get_am(&vec![-70 * UNIT; 100]).unwrap();
    assert_eq!(third, vec![25 * UNIT as u64; 100]);
}

#[test]
fn engine_full_alpha_shows_raw_scaled_frames() {
    let mut e = engine(ScaleMode::Amplitude, UNIT as u64);
    e.start().unwrap();
    for x in [10_000, 0, 2, 16_384] {
        let expected = vec![audio_spectrum::scale::amplitude_scale(x); 100];
        assert_eq!(e.get_am(&vec![x; 100]).unwrap(), expected);
    }
}

#[test]
fn engine_frames_match_axis_length() {
    let mut e = engine(ScaleMode::Amplitude, 300_000);
    e.start().unwrap();
    for k in 0..5 {
        let out = e.get_am(&vec![k * 1000; 100]).unwrap();
        assert_eq!(out.len(), e.get_freq_range().len());
        assert_eq!(out.len(), e.get_am_len() as usize);
    }
}

#[test]
fn engine_refuses_reading_of_wrong_length() {
    let mut e = engine(ScaleMode::Decibel, 500_000);
    e.start().unwrap();
    assert_eq!(e.get_am(&vec![0; 99]), Err(SpectrumError::BufferLengthMismatch));
    assert_eq!(e.get_am(&vec![-90 * UNIT; 100]), Ok(vec![10 * UNIT as u64; 100]));
}

#[test]
fn engine_pause_holds_the_frame() {
    let mut e = engine(ScaleMode::Decibel, 500_000);
    e.start().unwrap();
    let shown = e.get_am(&vec![-90 * UNIT; 100]).unwrap();
    e.pause().unwrap();
    let a = e.get_am(&vec![0; 100]).unwrap();
    let b = e.get_am(&vec![-10 * UNIT; 3]).unwrap();
    assert_eq!(a, shown);
    assert_eq!(b, shown);
    e.resume().unwrap();
    assert_eq!(e.get_am(&vec![-70 * UNIT; 100]), Ok(vec![20 * UNIT as u64; 100]));
}

#[test]
fn engine_pause_before_any_frame_reads_zeros() {
    let mut e = engine(ScaleMode::Decibel, 500_000);
    e.start().unwrap();
    e.pause().unwrap();
    assert_eq!(e.get_am(&vec![]), Ok(vec![0; 100]));
}

#[test]
fn engine_stop_clears_smoothing() {
    let mut e = engine(ScaleMode::Decibel, 500_000);
    e.start().unwrap();
    e.get_am(&vec![-90 * UNIT; 100]).unwrap();
    assert_eq!(e.stop(), Ok(()));
    assert_eq!(e.stop(), Err(SpectrumError::InvalidStateTransition));
    assert_eq!(e.get_am(&vec![]), Ok(vec![0; 100]));
    e.start().unwrap();
    assert_eq!(e.get_am(&vec![-50 * UNIT; 100]), Ok(vec![50 * UNIT as u64; 100]));
}

#[test]
fn engine_alpha_only_while_stopped() {
    let mut e = engine(ScaleMode::Decibel, 500_000);
    assert_eq!(e.set_smooth_alpha(UNIT as u64), Ok(()));
    e.start().unwrap();
    assert_eq!(e.set_smooth_alpha(500_000), Err(SpectrumError::InvalidStateTransition));
    e.get_am(&vec![-90 * UNIT; 100]).unwrap();
    assert_eq!(e.get_am(&vec![-70 * UNIT; 100]), Ok(vec![30 * UNIT as u64; 100]));
}

#[test]
fn engine_fail_stops_session() {
    let mut e = engine(ScaleMode::Decibel, 500_000);
    e.start().unwrap();
    e.pause().unwrap();
    e.fail();
    assert!(e.is_stop());
    assert_eq!(e.tick_action(false), BridgeAction::Exit);
}

#[test]
fn engine_raw_shape_checks() {
    let e = engine(ScaleMode::Decibel, 500_000);
    let good = vec![vec![1; 480], vec![-1; 480]];
    assert_eq!(e.get_raw(good.clone()), Ok(good));
    assert_eq!(e.get_raw(vec![vec![0; 480]]), Err(SpectrumError::BufferLengthMismatch));
    assert_eq!(
        e.get_raw(vec![vec![0; 480], vec![0; 479]]),
        Err(SpectrumError::BufferLengthMismatch)
    );
}

#[test]
fn bridge_decisions() {
    let mut e = engine(ScaleMode::Decibel, 500_000);
    assert_eq!(e.tick_action(false), BridgeAction::Exit);
    e.start().unwrap();
    assert_eq!(e.tick_action(false), BridgeAction::Publish);
    assert_eq!(e.tick_action(true), BridgeAction::Exit);
    e.pause().unwrap();
    assert_eq!(e.tick_action(false), BridgeAction::Idle);
    assert_eq!(e.tick_action(true), BridgeAction::Exit);
}

#[test]
fn start_then_stop_exits_at_next_tick() {
    let mut w = Worker::new();
    let mut e = engine(ScaleMode::Amplitude, w.smooth_alpha());
    w.start().unwrap();
    e.start().unwrap();
    // stop flag raised right away: the first tick leaves the loop
    assert_eq!(e.tick_action(true), BridgeAction::Exit);
    assert_eq!(e.stop(), Ok(()));
    assert_eq!(w.stop(), Ok(()));
}

#[test]
fn latest_value_wins() {
    let mut cell: Latest<Vec<u64>> = Latest::new();
    assert!(cell.is_empty());
    assert_eq!(cell.take(), None);
    cell.publish(vec![1]);
    cell.publish(vec![2]);
    assert!(!cell.is_empty());
    assert_eq!(cell.take(), Some(vec![2]));
    assert_eq!(cell.take(), None);
    cell.publish(vec![3]);
    cell.clear();
    assert!(cell.is_empty());
}
