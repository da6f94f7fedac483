use crate::common::{DEFAULT_NUM_PATTERNS, DEFAULT_PATTERN, GRID_HEIGHT, GRID_WIDTH, OFF};
use crate::sampler::{Direction, Step, StepBuilder};
use crate::sequence::{empty_slots, SequenceStore};
use crate::widgets::{Layout, Page, SequencerWidget, StepEditorWidget};
use std::collections::HashSet;
use vstd::prelude::*;

verus! {

broadcast use vstd::std_specs::hash::group_hash_axioms;

/// What the grid shows: the sequencer at a pattern, or the editor of one step
/// of a pattern with the descriptor being built for it.
#[derive(Debug, Clone, Copy, PartialEq, Eq, Structural)]
pub enum Screen {
    Sequencer(usize),
    StepEdit { page: usize, step: usize, step_builder: StepBuilder },
}

impl Screen {
    /// Replaces the descriptor being edited; the sequencer screen stays as it is.
    pub fn set_step(&mut self, updated_step: StepBuilder)
        ensures
            *final(self) == (match *old(self) {
                Screen::Sequencer(page) => Screen::Sequencer(page),
                Screen::StepEdit { page, step, .. } => Screen::StepEdit {
                    page,
                    step,
                    step_builder: updated_step,
                },
            }),
    {
        match *self {
            Screen::Sequencer(_) => {},
            Screen::StepEdit { page, step, .. } => {
                *self = Screen::StepEdit { page, step, step_builder: updated_step };
            },
        }
    }
}

/// The descriptor a step's editor starts from: the step's own when it plays one,
/// else the default.
pub open spec fn builder_at(slot: Option<Step>) -> StepBuilder {
    match slot {
        Some(Step::On(b)) => b,
        _ => StepBuilder::spec_default(),
    }
}

/// `slots` grown to `num_patterns` patterns by empty slots, when it holds fewer.
pub open spec fn grown(slots: Seq<Option<Step>>, num_patterns: int) -> Seq<Option<Step>> {
    if num_patterns * GRID_WIDTH > slots.len() {
        slots + empty_slots((num_patterns * GRID_WIDTH - slots.len()) as nat)
    } else {
        slots
    }
}

/// The state of the sequencer and its editor, leaving out what the grid shows.
pub struct ControllerModel {
    pub screen: Screen,
    /// Pattern-select keys held down.
    pub pressed: Set<usize>,
    pub sequence: Seq<Option<Step>>,
    /// Step the next tick plays.
    pub step_index: nat,
}

impl ControllerModel {
    pub open spec fn num_patterns(self) -> int {
        self.sequence.len() as int / GRID_WIDTH as int
    }

    pub open spec fn well_formed(self) -> bool {
        &&& self.sequence.len() >= GRID_WIDTH
        &&& self.sequence.len() % GRID_WIDTH as nat == 0
        &&& self.sequence.len() <= GRID_WIDTH * GRID_WIDTH
        &&& self.step_index < self.sequence.len()
        &&& match self.screen {
            Screen::Sequencer(page) => page < self.num_patterns(),
            Screen::StepEdit { page, step, .. } => page < self.num_patterns() && step
                < GRID_WIDTH,
        }
    }

    /// The state after key `(x, y)` went down (`down`) or up. Keys off the grid are
    /// ignored. On the sequencer: pressing a pattern-select key holds it, pressing a
    /// step key opens that step's editor; releasing a pattern-select key lets it go
    /// and then, when no other is held, shows that pattern if it exists, or, while
    /// the first pattern's key is held, grows the sequence to that many patterns.
    /// In the editor: the slice row picks the slice, the direction buttons the
    /// direction, and releasing a key of the lower half writes the descriptor into
    /// the step and goes back to the sequencer.
    pub open spec fn after_key(self, x: usize, y: usize, down: bool) -> ControllerModel {
        if !(x < GRID_WIDTH && y < GRID_HEIGHT) {
            self
        } else {
            match self.screen {
                Screen::Sequencer(page) => if down {
                    match SequencerWidget::hit_spec(x, y) {
                        Some(SequencerWidget::PatternSelect(p)) => ControllerModel {
                            pressed: self.pressed.insert(p),
                            ..self
                        },
                        Some(SequencerWidget::Pattern(step)) => ControllerModel {
                            screen: Screen::StepEdit {
                                page,
                                step,
                                step_builder: builder_at(self.sequence[step + page * GRID_WIDTH]),
                            },
                            ..self
                        },
                        None => self,
                    }
                } else if y == 0 {
                    let pressed = self.pressed.remove(x);
                    if pressed.is_empty() {
                        if x < self.num_patterns() {
                            ControllerModel { pressed, screen: Screen::Sequencer(x), ..self }
                        } else {
                            ControllerModel { pressed, ..self }
                        }
                    } else if pressed.contains(0) {
                        ControllerModel {
                            pressed,
                            sequence: grown(self.sequence, x + 1),
                            ..self
                        }
                    } else {
                        ControllerModel { pressed, ..self }
                    }
                } else {
                    self
                },
                Screen::StepEdit { page, step, step_builder } => if down {
                    match StepEditorWidget::hit_spec(x, y) {
                        Some(StepEditorWidget::SliceSelect(_)) => ControllerModel {
                            screen: Screen::StepEdit {
                                page,
                                step,
                                step_builder: step_builder.spec_with_slice(x),
                            },
                            ..self
                        },
                        Some(StepEditorWidget::Backward) => ControllerModel {
                            screen: Screen::StepEdit {
                                page,
                                step,
                                step_builder: step_builder.spec_with_direction(Direction::Backward),
                            },
                            ..self
                        },
                        Some(StepEditorWidget::Forward) => ControllerModel {
                            screen: Screen::StepEdit {
                                page,
                                step,
                                step_builder: step_builder.spec_with_direction(Direction::Forward),
                            },
                            ..self
                        },
                        _ => self,
                    }
                } else if y >= 4 {
                    ControllerModel {
                        screen: Screen::Sequencer(page),
                        sequence: self.sequence.update(
                            step + page * GRID_WIDTH,
                            Some(Step::On(step_builder)),
                        ),
                        ..self
                    }
                } else {
                    self
                },
            }
        }
    }
}

/// The sequencer and its step editor: the pattern data, the step cursor, the
/// screen shown, and the two pages of LEDs.
pub struct Controller {
    screen: Screen,
    sequencer: Page,
    step_edit: Page,
    pressed: HashSet<usize>,
    step_index: usize,
    sequence: SequenceStore,
}

impl View for Controller {
    type V = ControllerModel;

    closed spec fn view(&self) -> ControllerModel {
        ControllerModel {
            screen: self.screen,
            pressed: self.pressed@,
            sequence: self.sequence@,
            step_index: self.step_index as nat,
        }
    }
}

impl Controller {
    /// What the sequencer page shows.
    pub closed spec fn sequencer_leds(&self) -> Seq<u8> {
        self.sequencer.framebuffer@
    }

    /// What the step editor page shows.
    pub closed spec fn step_edit_leds(&self) -> Seq<u8> {
        self.step_edit.framebuffer@
    }

    /// One empty pattern, the sequencer screen at the first pattern, cursor on the first step.
    pub fn new() -> (r: Self)
        ensures
            r@.screen == Screen::Sequencer(DEFAULT_PATTERN),
            r@.pressed == Set::<usize>::empty(),
            r@.sequence == empty_slots(GRID_WIDTH as nat),
            r@.step_index == 0,
            r@.well_formed(),
    {
        let mut sequencer = Page::new();
        let step_edit = Page::new();
        let mut x: usize = 0;
        while x < GRID_WIDTH
            decreases GRID_WIDTH - x,
        {
            SequencerWidget::Pattern(x).render(&mut sequencer, false, DEFAULT_NUM_PATTERNS);
            x = x + 1;
        }
        sequencer.framebuffer[0] = OFF;
        let sequence = SequenceStore::new(DEFAULT_NUM_PATTERNS);
        Controller {
            screen: Screen::Sequencer(DEFAULT_PATTERN),
            sequencer,
            step_edit,
            pressed: HashSet::new(),
            step_index: 0,
            sequence,
        }
    }

    pub fn screen(&self) -> (r: Screen)
        ensures
            r == self@.screen,
    {
        self.screen
    }

    pub fn step_index(&self) -> (r: usize)
        ensures
            r == self@.step_index,
    {
        self.step_index
    }

    pub fn sequence(&self) -> (r: &SequenceStore)
        ensures
            r@ == self@.sequence,
    {
        &self.sequence
    }

    /// The page of the screen shown.
    pub fn current_page(&self) -> (r: &Page)
        ensures
            r.framebuffer@ == (match self@.screen {
                Screen::Sequencer(_) => self.sequencer_leds(),
                Screen::StepEdit { .. } => self.step_edit_leds(),
            }),
    {
        match self.screen {
            Screen::Sequencer(_) => &self.sequencer,
            Screen::StepEdit { .. } => &self.step_edit,
        }
    }

    /// Draws the steps of pattern `page` on the sequencer page, lit where a step holds a command.
    fn write_pattern(&mut self, page: usize)
        requires
            old(self)@.well_formed(),
            page < old(self)@.num_patterns(),
        ensures
            final(self)@ == old(self)@,
    {
        proof {
            assert((page + 1) * 16 <= self.sequence@.len()) by (nonlinear_arith)
                requires
                    page < self.sequence@.len() / 16,
            ;
        }
        let num_patterns = self.sequence.num_patterns();
        let mut x: usize = 0;
        while x < GRID_WIDTH
            invariant
                x <= GRID_WIDTH,
                self@ == old(self)@,
                self@.well_formed(),
                (page + 1) * 16 <= self.sequence@.len(),
            decreases GRID_WIDTH - x,
        {
            assert(x + page * 16 < (page + 1) * 16) by (nonlinear_arith)
                requires
                    x < 16,
            ;
            let on = self.sequence.get(x + page * GRID_WIDTH).is_some();
            SequencerWidget::Pattern(x).render(&mut self.sequencer, on, num_patterns);
            x = x + 1;
        }
    }

    /// One tick of the sequence: hands out the command of the step under the
    /// cursor, if any, moves the cursor on by one step (back to the first after the
    /// last), and moves its mark on the sequencer page.
    pub fn tick(&mut self) -> (r: Option<Step>)
        requires
            old(self)@.well_formed(),
        ensures
            r == old(self)@.sequence[old(self)@.step_index as int],
            final(self)@ == (ControllerModel {
                step_index: (old(self)@.step_index + 1) % old(self)@.sequence.len(),
                ..old(self)@
            }),
            final(self)@.well_formed(),
    {
        let slot = self.sequence.get(self.step_index);
        let len = self.sequence.len();
        let num_patterns = self.sequence.num_patterns();
        match self.screen {
            Screen::Sequencer(page) => {
                if self.step_index / GRID_WIDTH == page {
                    SequencerWidget::Pattern(self.step_index % GRID_WIDTH).render(
                        &mut self.sequencer,
                        slot.is_some(),
                        num_patterns,
                    );
                }
                self.step_index = (self.step_index + 1) % len;
                if self.step_index / GRID_WIDTH == page {
                    SequencerWidget::Pattern(self.step_index % GRID_WIDTH).render(
                        &mut self.sequencer,
                        true,
                        num_patterns,
                    );
                }
            },
            Screen::StepEdit { .. } => {
                self.step_index = (self.step_index + 1) % len;
            },
        }
        slot
    }

    /// Acts on key `(x, y)` going down (`down`) or up, and redraws what it changed.
    pub fn handle_key(&mut self, x: usize, y: usize, down: bool)
        requires
            old(self)@.well_formed(),
        ensures
            final(self)@ == old(self)@.after_key(x, y, down),
            final(self)@.well_formed(),
    {
        if x < GRID_WIDTH && y < GRID_HEIGHT {
            let num_patterns = self.sequence.num_patterns();
            match self.screen {
                Screen::Sequencer(page) => {
                    if down {
                        self.press_on_sequencer(page, x, y, num_patterns);
                    } else {
                        self.release_on_sequencer(x, y, num_patterns);
                    }
                },
                Screen::StepEdit { page, step, step_builder } => {
                    if down {
                        match StepEditorWidget::hit(x, y) {
                            Some(widget) => {
                                match widget {
                                    StepEditorWidget::SliceSelect(_) => {
                                        self.screen.set_step(step_builder.with_slice(x));
                                    },
                                    StepEditorWidget::Backward => {
                                        self.screen.set_step(
                                            step_builder.with_direction(Direction::Backward),
                                        );
                                    },
                                    StepEditorWidget::Forward => {
                                        self.screen.set_step(
                                            step_builder.with_direction(Direction::Forward),
                                        );
                                    },
                                    StepEditorWidget::CurrentStep(_) => {},
                                }
                                widget.render(&mut self.step_edit, true, ());
                            },
                            None => {},
                        }
                    } else {
                        match SequencerWidget::hit(0, y) {
                            Some(SequencerWidget::Pattern(_)) => {
                                proof {
                                    assert(step + page * 16 < self.sequence@.len())
                                        by (nonlinear_arith)
                                        requires
                                            step < 16,
                                            page < self.sequence@.len() / 16,
                                    ;
                                }
                                self.sequence.set(
                                    step + page * GRID_WIDTH,
                                    Some(Step::On(step_builder)),
                                );
                                StepEditorWidget::CurrentStep(step).render(
                                    &mut self.step_edit,
                                    false,
                                    (),
                                );
                                self.screen = Screen::Sequencer(page);
                                self.write_pattern(page);
                            },
                            _ => {},
                        }
                    }
                },
            }
        }
    }

    /// A key went down on the sequencer screen.
    fn press_on_sequencer(&mut self, page: usize, x: usize, y: usize, num_patterns: usize)
        requires
            old(self)@.well_formed(),
            old(self)@.screen == Screen::Sequencer(page),
            num_patterns == old(self)@.num_patterns(),
            x < GRID_WIDTH,
            y < GRID_HEIGHT,
        ensures
            final(self)@ == old(self)@.after_key(x, y, true),
            final(self)@.well_formed(),
    {
        match SequencerWidget::hit(x, y) {
            Some(widget) => {
                match widget {
                    SequencerWidget::PatternSelect(selected_page) => {
                        self.pressed.insert(selected_page);
                        widget.render(&mut self.sequencer, true, num_patterns);
                    },
                    SequencerWidget::Pattern(step) => {
                        self.write_pattern(page);
                        proof {
                            assert(step + page * 16 < self.sequence@.len()) by (nonlinear_arith)
                                requires
                                    step < 16,
                                    page < self.sequence@.len() / 16,
                            ;
                        }
                        let step_builder = match self.sequence.get(step + page * GRID_WIDTH) {
                            Some(Step::On(b)) => b,
                            _ => StepBuilder::default(),
                        };
                        self.screen = Screen::StepEdit { page, step, step_builder };
                        StepEditorWidget::SliceSelect(step_builder.slice()).render(
                            &mut self.step_edit,
                            true,
                            (),
                        );
                        let dir = match step_builder.direction() {
                            Direction::Forward => StepEditorWidget::Forward,
                            Direction::Backward => StepEditorWidget::Backward,
                        };
                        dir.render(&mut self.step_edit, true, ());
                        StepEditorWidget::CurrentStep(x).render(&mut self.step_edit, true, ());
                    },
                }
            },
            None => {},
        }
    }

    /// A key went up on the sequencer screen.
    fn release_on_sequencer(&mut self, x: usize, y: usize, num_patterns: usize)
        requires
            old(self)@.well_formed(),
            old(self)@.screen is Sequencer,
            num_patterns == old(self)@.num_patterns(),
            x < GRID_WIDTH,
            y < GRID_HEIGHT,
        ensures
            final(self)@ == old(self)@.after_key(x, y, false),
            final(self)@.well_formed(),
    {
        match SequencerWidget::hit(x, y) {
            Some(SequencerWidget::PatternSelect(pattern)) => {
                self.pressed.remove(&pattern);
                if self.pressed.is_empty() {
                    if pattern < num_patterns {
                        self.write_pattern(pattern);
                        self.screen = Screen::Sequencer(pattern);
                    }
                } else if self.pressed.contains(&0) {
                    self.sequence.grow_to(pattern + 1);
                    proof {
                        let len = self.sequence@.len();
                        assert(pattern < len / 16) by (nonlinear_arith)
                            requires
                                (pattern + 1) * 16 <= len,
                        ;
                        let before = old(self)@.sequence.len();
                        assert(before / 16 <= len / 16) by (nonlinear_arith)
                            requires
                                before <= len,
                        ;
                    }
                    self.write_pattern(pattern);
                }
            },
            _ => {},
        }
    }
}

} // verus!
