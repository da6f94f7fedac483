use grid_sampler::common::{to_1d, ACCENT, DEFAULT_BPM, OFF, ON};
use grid_sampler::controller::{Controller, Screen};
use grid_sampler::destruction::Downsampler;
use grid_sampler::metro::Metro;
use grid_sampler::sampler::{Direction, Step, StepBuilder};
use grid_sampler::sequence::SequenceStore;
use grid_sampler::widgets::{Layout, Page, SequencerWidget, StepEditorWidget};

#[test]
fn to_1d_is_row_major() {
    assert_eq!(to_1d(0, 0), 0);
    assert_eq!(to_1d(3, 2), 35);
    assert_eq!(to_1d(15, 7), 127);
}

#[test]
fn tick_interval_at_172_bpm() {
    let m = Metro::new(DEFAULT_BPM, (), 0);
    assert_eq!(m.interval(), 87);
    assert_eq!(m.interval(), (60000.0f64 / 172.0 / 4.0) as u64);
    assert_eq!(Metro::new(120, (), 0).interval(), 125);
}

#[test]
fn metro_fires_after_interval() {
    let mut m = Metro::new(120, 5u32, 1000);
    assert!(!m.is_ready(1000));
    assert!(!m.is_ready(1124));
    assert!(m.is_ready(1125));
    assert!(m.is_ready(5000));
    *m.state_mut() += 1;
    m.fired(1130);
    assert_eq!(*m.state(), 6);
    assert!(!m.is_ready(1254));
    assert!(m.is_ready(1255));
}

#[test]
fn downsample_factor_one_requantizes_every_sample() {
    let mut d = Downsampler::new();
    for _ in 0..10 {
        assert!(d.advance(1));
    }
}

#[test]
fn downsample_factor_six_holds_five_of_six() {
    let mut d = Downsampler::new();
    let fresh: Vec<bool> = (0..12).map(|_| d.advance(6)).collect();
    let expected = [true, false, false, false, false, false];
    assert_eq!(&fresh[..6], &expected);
    assert_eq!(&fresh[6..], &expected);
}

#[test]
fn sequence_store_starts_empty() {
    let s = SequenceStore::new(2);
    assert_eq!(s.len(), 32);
    assert_eq!(s.num_patterns(), 2);
    assert!((0..32).all(|i| s.get(i).is_none()));
}

#[test]
fn growing_sequence_keeps_existing_slots() {
    let mut s = SequenceStore::new(1);
    let b = StepBuilder::default().with_slice(4);
    s.set(0, Some(Step::On(b)));
    s.set(9, Some(Step::Off));
    s.grow_to(3);
    assert_eq!(s.len(), 48);
    assert_eq!(s.num_patterns(), 3);
    assert_eq!(s.get(0), Some(Step::On(b)));
    assert_eq!(s.get(9), Some(Step::Off));
    assert!((16..48).all(|i| s.get(i).is_none()));
    s.grow_to(2);
    assert_eq!(s.len(), 48);
    assert_eq!(s.get(0), Some(Step::On(b)));
}

#[test]
fn page_starts_dark_and_writes_columns() {
    let mut p = Page::new();
    assert!(p.framebuffer.iter().all(|&v| v == 0));
    p.write_column(3, 9);
    for y in 0..8 {
        let expected = if y >= 4 { 9 } else { 0 };
        assert_eq!(p.framebuffer[to_1d(3, y)], expected);
    }
    assert_eq!(p.framebuffer.iter().filter(|&&v| v == 9).count(), 4);
}

#[test]
fn step_editor_hits() {
    assert_eq!(StepEditorWidget::hit(5, 0), Some(StepEditorWidget::SliceSelect(5)));
    assert_eq!(StepEditorWidget::hit(16, 0), None);
    assert_eq!(StepEditorWidget::hit(0, 1), Some(StepEditorWidget::Backward));
    assert_eq!(StepEditorWidget::hit(1, 1), Some(StepEditorWidget::Backward));
    assert_eq!(StepEditorWidget::hit(2, 1), None);
    assert_eq!(StepEditorWidget::hit(3, 1), Some(StepEditorWidget::Forward));
    assert_eq!(StepEditorWidget::hit(4, 1), Some(StepEditorWidget::Forward));
    assert_eq!(StepEditorWidget::hit(5, 1), None);
    assert_eq!(StepEditorWidget::hit(5, 4), None);
}

#[test]
fn sequencer_hits() {
    assert_eq!(SequencerWidget::hit(7, 0), Some(SequencerWidget::PatternSelect(7)));
    assert_eq!(SequencerWidget::hit(7, 3), None);
    assert_eq!(SequencerWidget::hit(7, 4), Some(SequencerWidget::Pattern(7)));
    assert_eq!(SequencerWidget::hit(15, 7), Some(SequencerWidget::Pattern(15)));
    assert_eq!(SequencerWidget::hit(0, 8), None);
    assert_eq!(SequencerWidget::hit(usize::MAX, 5), None);
}

#[test]
fn step_editor_renders() {
    let mut p = Page::new();
    StepEditorWidget::SliceSelect(2).render(&mut p, true, ());
    assert_eq!(p.framebuffer[2], ON);
    assert_eq!(p.framebuffer[0], OFF);
    assert_eq!(p.framebuffer[15], OFF);
    assert_eq!(p.framebuffer[16], 0);
    StepEditorWidget::Forward.render(&mut p, true, ());
    assert_eq!(&p.framebuffer[16..21], &[OFF, OFF, 0, ON, ON]);
    StepEditorWidget::Backward.render(&mut p, true, ());
    assert_eq!(&p.framebuffer[16..21], &[ON, ON, 0, OFF, OFF]);
    StepEditorWidget::CurrentStep(6).render(&mut p, true, ());
    assert_eq!(p.framebuffer[to_1d(6, 7)], ON);
    StepEditorWidget::CurrentStep(6).render(&mut p, false, ());
    assert_eq!(p.framebuffer[to_1d(6, 4)], 0);
}

#[test]
fn sequencer_renders() {
    let mut p = Page::new();
    SequencerWidget::Pattern(4).render(&mut p, false, 1);
    assert_eq!(p.framebuffer[to_1d(4, 5)], ACCENT);
    SequencerWidget::Pattern(5).render(&mut p, false, 1);
    assert_eq!(p.framebuffer[to_1d(5, 5)], OFF);
    SequencerWidget::Pattern(5).render(&mut p, true, 1);
    assert_eq!(p.framebuffer[to_1d(5, 5)], ON);
    SequencerWidget::PatternSelect(1).render(&mut p, true, 3);
    assert_eq!(&p.framebuffer[0..4], &[OFF, ON, OFF, 0]);
    SequencerWidget::PatternSelect(5).render(&mut p, true, 3);
    assert_eq!(&p.framebuffer[0..4], &[OFF, ON, OFF, 0]);
}

#[test]
fn screen_set_step_only_in_editor() {
    let b = StepBuilder::default().with_slice(9);
    let mut s = Screen::Sequencer(1);
    s.set_step(b);
    assert_eq!(s, Screen::Sequencer(1));
    let mut s = Screen::StepEdit { page: 0, step: 3, step_builder: StepBuilder::default() };
    s.set_step(b);
    assert_eq!(s, Screen::StepEdit { page: 0, step: 3, step_builder: b });
}

#[test]
fn controller_edits_and_plays_a_step() {
    let mut c = Controller::new();
    assert_eq!(c.screen(), Screen::Sequencer(0));
    assert_eq!(c.current_page().framebuffer[0], OFF);
    assert_eq!(c.current_page().framebuffer[to_1d(4, 4)], ACCENT);
    // open the editor of step 2, pick slice 5 and backward, then commit
    c.handle_key(2, 4, true);
    assert_eq!(
        c.screen(),
        Screen::StepEdit { page: 0, step: 2, step_builder: StepBuilder::default() }
    );
    c.handle_key(5, 0, true);
    c.handle_key(5, 0, false);
    c.handle_key(0, 1, true);
    c.handle_key(0, 1, false);
    let b = StepBuilder::default().with_slice(5).with_direction(Direction::Backward);
    assert_eq!(c.screen(), Screen::StepEdit { page: 0, step: 2, step_builder: b });
    assert_eq!(c.current_page().framebuffer[5], ON);
    c.handle_key(2, 4, false);
    assert_eq!(c.screen(), Screen::Sequencer(0));
    assert_eq!(c.sequence().get(2), Some(Step::On(b)));
    // the sequence plays it on the third tick
    assert_eq!(c.tick(), None);
    assert_eq!(c.tick(), None);
    assert_eq!(c.tick(), Some(Step::On(b)));
    assert_eq!(c.step_index(), 3);
    for _ in 3..16 {
        c.tick();
    }
    assert_eq!(c.step_index(), 0);
}

#[test]
fn controller_adds_a_pattern_while_first_is_held() {
    let mut c = Controller::new();
    c.handle_key(2, 4, true);
    c.handle_key(2, 4, false);
    c.handle_key(0, 0, true);
    c.handle_key(2, 0, true);
    c.handle_key(2, 0, false);
    assert_eq!(c.sequence().num_patterns(), 3);
    assert_eq!(c.sequence().get(2), Some(Step::On(StepBuilder::default())));
    c.handle_key(0, 0, false);
    assert_eq!(c.screen(), Screen::Sequencer(0));
    c.handle_key(1, 0, true);
    c.handle_key(1, 0, false);
    assert_eq!(c.screen(), Screen::Sequencer(1));
    c.handle_key(7, 0, true);
    c.handle_key(7, 0, false);
    assert_eq!(c.screen(), Screen::Sequencer(1));
}

#[test]
fn controller_ignores_keys_off_the_grid() {
    let mut c = Controller::new();
    c.handle_key(16, 4, true);
    c.handle_key(3, 8, true);
    assert_eq!(c.screen(), Screen::Sequencer(0));
}
