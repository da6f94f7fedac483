use grid_sampler::sampler::{
    wrap, Direction, Frame, PlaybackState, Sampler, Step, StepBuilder, UNIT,
};
use std::sync::mpsc::channel;

const ONE: u128 = UNIT as u128;

fn trigger(slice: usize, direction: Direction) -> Step {
    Step::On(StepBuilder::default().with_slice(slice).with_direction(direction))
}

#[test]
fn step_builder_defaults_and_builders() {
    let b = StepBuilder::default();
    assert_eq!(b.slice(), 0);
    assert_eq!(b.pitch(), UNIT);
    assert_eq!(b.direction(), Direction::Forward);
    let b = b.with_slice(7).with_pitch(2 * UNIT).with_direction(Direction::Backward);
    assert_eq!(b.slice(), 7);
    assert_eq!(b.pitch(), 2 * UNIT);
    assert_eq!(b.direction(), Direction::Backward);
    assert_eq!(Step::default(), Step::Off);
}

#[test]
fn wrap_brings_indices_back() {
    assert_eq!(wrap(5, 0, 9), 5);
    assert_eq!(wrap(10, 0, 9), 0);
    assert_eq!(wrap(2, 3, 9), 9);
    assert_eq!(wrap(3, 3, 9), 3);
    assert_eq!(wrap(9, 3, 9), 9);
}

#[test]
fn new_engine_is_stopped() {
    let mut s = PlaybackState::new(1600);
    assert!(!s.is_playing());
    assert_eq!(s.slice_len(), 100);
    assert_eq!(s.position(), 0);
    assert_eq!(s.render(), None);
}

#[test]
fn trigger_forward_starts_at_slice_start() {
    let mut s = PlaybackState::new(1600);
    s.apply(trigger(3, Direction::Forward));
    assert!(s.is_playing());
    assert_eq!(s.current_slice(), 3);
    assert_eq!(s.position(), 300 * ONE);
}

#[test]
fn trigger_backward_starts_at_slice_end() {
    let mut s = PlaybackState::new(1600);
    s.apply(trigger(3, Direction::Backward));
    assert!(s.is_playing());
    assert_eq!(s.position(), (300 + 100 - 1) * ONE);
}

#[test]
fn trigger_past_last_slice_is_clamped() {
    let mut s = PlaybackState::new(1600);
    s.apply(trigger(40, Direction::Forward));
    assert_eq!(s.current_slice(), 15);
    assert_eq!(s.position(), 1500 * ONE);
}

#[test]
fn uneven_buffer_truncates_slices() {
    let mut s = PlaybackState::new(1615);
    assert_eq!(s.slice_len(), 100);
    s.apply(trigger(15, Direction::Backward));
    assert_eq!(s.position(), 1599 * ONE);
}

#[test]
fn empty_buffer_never_plays() {
    let mut s = PlaybackState::new(0);
    s.apply(trigger(0, Direction::Forward));
    assert!(!s.is_playing());
    assert_eq!(s.render(), None);
}

#[test]
fn render_reads_neighbour_in_direction_of_travel() {
    let mut s = PlaybackState::new(1600);
    s.apply(trigger(2, Direction::Forward));
    assert_eq!(s.render(), Some(Frame { fst: 201, snd: 202, weight: 0 }));
    let mut s = PlaybackState::new(1600);
    s.apply(trigger(2, Direction::Backward));
    assert_eq!(s.render(), Some(Frame { fst: 298, snd: 297, weight: 0 }));
}

#[test]
fn fractional_speed_gives_blend_weight() {
    let mut s = PlaybackState::new(1600);
    let b = StepBuilder::default().with_slice(1).with_pitch(UNIT + UNIT / 2);
    s.apply(Step::On(b));
    assert_eq!(s.render(), Some(Frame { fst: 101, snd: 102, weight: UNIT / 2 }));
    assert_eq!(s.position(), 100 * ONE + ONE + ONE / 2);
    assert_eq!(s.render(), Some(Frame { fst: 103, snd: 104, weight: 0 }));
}

#[test]
fn forward_playback_wraps_at_buffer_end() {
    let mut s = PlaybackState::new(32);
    s.apply(trigger(15, Direction::Forward));
    assert_eq!(s.render(), Some(Frame { fst: 31, snd: 0, weight: 0 }));
    assert!(s.is_playing());
    assert_eq!(s.render(), Some(Frame { fst: 0, snd: 1, weight: 0 }));
    assert_eq!(s.position(), 0);
    assert!(!s.is_playing());
    assert_eq!(s.render(), None);
}

#[test]
fn backward_playback_wraps_at_buffer_start() {
    let mut s = PlaybackState::new(32);
    s.apply(trigger(0, Direction::Backward));
    assert_eq!(s.position(), ONE);
    assert_eq!(s.render(), Some(Frame { fst: 0, snd: 31, weight: 0 }));
    assert!(!s.is_playing());
    let mut s = PlaybackState::new(32);
    s.apply(Step::On(StepBuilder::default().with_pitch(2 * UNIT).with_direction(Direction::Backward)));
    assert_eq!(s.render(), Some(Frame { fst: 31, snd: 30, weight: 0 }));
    assert_eq!(s.position(), 31 * ONE);
}

#[test]
fn forward_slice_plays_once_then_silence() {
    let mut s = PlaybackState::new(1600);
    s.apply(trigger(2, Direction::Forward));
    let mut frames = 0;
    while let Some(f) = s.render() {
        frames += 1;
        assert!(f.fst <= 300);
        if frames > 1000 {
            break;
        }
    }
    assert_eq!(frames, 100);
    assert_eq!(s.position(), 300 * ONE);
    assert_eq!(s.render(), None);
}

#[test]
fn backward_slice_plays_once_then_silence() {
    let mut s = PlaybackState::new(1600);
    s.apply(trigger(2, Direction::Backward));
    let mut frames = 0;
    while s.render().is_some() {
        frames += 1;
        if frames > 1000 {
            break;
        }
    }
    assert_eq!(frames, 99);
    assert_eq!(s.position(), 200 * ONE);
}

#[test]
fn stop_stops_playback() {
    let mut s = PlaybackState::new(1600);
    s.apply(trigger(2, Direction::Forward));
    s.apply(Step::Off);
    assert!(!s.is_playing());
    assert_eq!(s.render(), None);
}

#[test]
fn trigger_then_stop_in_one_drain_leaves_engine_stopped() {
    let (tx, rx) = channel();
    let mut sampler = Sampler::new(1600, rx);
    let b = StepBuilder::default().with_slice(2).with_pitch(UNIT).with_direction(Direction::Forward);
    tx.send(Step::On(b)).unwrap();
    tx.send(Step::Off).unwrap();
    assert_eq!(sampler.tick(), None);
    assert!(!sampler.is_playing());
}

#[test]
fn tick_plays_triggered_slice() {
    let (tx, rx) = channel();
    let mut sampler = Sampler::new(1600, rx);
    assert_eq!(sampler.tick(), None);
    tx.send(trigger(2, Direction::Forward)).unwrap();
    assert_eq!(sampler.tick(), Some(Frame { fst: 201, snd: 202, weight: 0 }));
    assert_eq!(sampler.state().current_slice(), 2);
}

#[test]
fn tick_drains_at_most_four_commands() {
    let (tx, rx) = channel();
    let mut sampler = Sampler::new(1600, rx);
    for k in 1..5 {
        tx.send(trigger(k, Direction::Forward)).unwrap();
    }
    tx.send(Step::Off).unwrap();
    assert_eq!(sampler.tick(), Some(Frame { fst: 401, snd: 402, weight: 0 }));
    assert!(sampler.is_playing());
    assert_eq!(sampler.tick(), None);
    assert!(!sampler.is_playing());
}

#[test]
fn tick_survives_a_dropped_sender() {
    let (tx, rx) = channel();
    let mut sampler = Sampler::new(1600, rx);
    tx.send(trigger(0, Direction::Forward)).unwrap();
    drop(tx);
    assert_eq!(sampler.tick(), Some(Frame { fst: 1, snd: 2, weight: 0 }));
    assert!(sampler.tick().is_some());
}
