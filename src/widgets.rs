use crate::common::{index_of, to_1d, ACCENT, GRID_HEIGHT, GRID_SIZE, GRID_WIDTH, OFF, ON};
use vstd::prelude::*;

verus! {

/// `fb` with the keys `lo..hi` set to `v`.
pub open spec fn filled(fb: Seq<u8>, lo: int, hi: int, v: u8) -> Seq<u8> {
    Seq::new(fb.len(), |i: int| if lo <= i && i < hi { v } else { fb[i] })
}

/// `fb` with the lower half (rows 4 to 7) of column `x` set to `level`.
pub open spec fn column_written(fb: Seq<u8>, x: int, level: u8) -> Seq<u8> {
    Seq::new(
        fb.len(),
        |i: int|
            if i % GRID_WIDTH as int == x && i / GRID_WIDTH as int >= 4 {
                level
            } else {
                fb[i]
            },
    )
}

/// `fb` with its first `n` keys dimmed but for key `sel`, which is lit.
pub open spec fn selected(fb: Seq<u8>, n: int, sel: int) -> Seq<u8> {
    Seq::new(
        fb.len(),
        |i: int|
            if i < n {
                if i == sel {
                    ON
                } else {
                    OFF
                }
            } else {
                fb[i]
            },
    )
}

/// The LED brightness of every key of the grid, row by row.
pub struct Page {
    pub framebuffer: [u8; 128],
}

impl Page {
    /// A dark page.
    pub fn new() -> (r: Self)
        ensures
            r.framebuffer@ == Seq::new(GRID_SIZE as nat, |i: int| 0u8),
    {
        let r = Page { framebuffer: [0u8; 128] };
        assert(r.framebuffer@ =~= Seq::new(GRID_SIZE as nat, |i: int| 0u8));
        r
    }

    /// Sets the keys `lo..hi` to `v`.
    fn fill(&mut self, lo: usize, hi: usize, v: u8)
        requires
            lo <= hi <= GRID_SIZE,
        ensures
            final(self).framebuffer@ == filled(old(self).framebuffer@, lo as int, hi as int, v),
    {
        let mut i = lo;
        while i < hi
            invariant
                lo <= i <= hi <= GRID_SIZE,
                self.framebuffer@.len() == GRID_SIZE,
                self.framebuffer@ =~= Seq::new(
                    GRID_SIZE as nat,
                    |j: int|
                        if lo <= j && j < i {
                            v
                        } else {
                            old(self).framebuffer@[j]
                        },
                ),
            decreases hi - i,
        {
            self.framebuffer[i] = v;
            i = i + 1;
        }
        assert(self.framebuffer@ =~= filled(old(self).framebuffer@, lo as int, hi as int, v));
    }

    /// Lights key `sel` and dims the other keys among the first `n`.
    fn select(&mut self, n: usize, sel: usize)
        ensures
            final(self).framebuffer@ == selected(old(self).framebuffer@, n as int, sel as int),
    {
        let end = if n < GRID_SIZE {
            n
        } else {
            GRID_SIZE
        };
        let mut i: usize = 0;
        while i < end
            invariant
                i <= end <= GRID_SIZE,
                end == n || end == GRID_SIZE,
                self.framebuffer@.len() == GRID_SIZE,
                self.framebuffer@ =~= Seq::new(
                    GRID_SIZE as nat,
                    |j: int|
                        if j < i {
                            if j == sel {
                                ON
                            } else {
                                OFF
                            }
                        } else {
                            old(self).framebuffer@[j]
                        },
                ),
            decreases end - i,
        {
            self.framebuffer[i] = if i == sel {
                ON
            } else {
                OFF
            };
            i = i + 1;
        }
        assert(self.framebuffer@ =~= selected(old(self).framebuffer@, n as int, sel as int));
    }

    /// Sets the lower half (rows 4 to 7) of column `x` to `level`.
    pub fn write_column(&mut self, x: usize, level: u8)
        requires
            x < GRID_WIDTH,
        ensures
            final(self).framebuffer@ == column_written(old(self).framebuffer@, x as int, level),
    {
        let mut y: usize = 4;
        while y < 8
            invariant
                4 <= y <= 8,
                x < GRID_WIDTH,
                self.framebuffer@.len() == GRID_SIZE,
                self.framebuffer@ =~= Seq::new(
                    GRID_SIZE as nat,
                    |j: int|
                        if j % 16 == x && j / 16 >= 4 && j / 16 < y {
                            level
                        } else {
                            old(self).framebuffer@[j]
                        },
                ),
            decreases 8 - y,
        {
            self.framebuffer[y * GRID_WIDTH + x] = level;
            y = y + 1;
        }
        assert(self.framebuffer@ =~= column_written(old(self).framebuffer@, x as int, level));
    }
}

/// A region of the grid that reacts to keys and draws itself on a page.
pub trait Layout: Sized {
    /// What drawing needs besides the page and whether the region is lit.
    type Context;

    /// The region the key at column `x`, row `y` falls in, if any.
    spec fn hit_spec(x: usize, y: usize) -> Option<Self>;

    /// The frame buffer `fb` once this region is drawn on it.
    spec fn drawn(&self, fb: Seq<u8>, on: bool, ctx: Self::Context) -> Seq<u8>;

    fn hit(x: usize, y: usize) -> (r: Option<Self>)
        ensures
            r == Self::hit_spec(x, y),
    ;

    fn render(&self, page: &mut Page, on: bool, ctx: Self::Context)
        ensures
            final(page).framebuffer@ == self.drawn(old(page).framebuffer@, on, ctx),
    ;
}

/// The regions of the step editor: the slice row, the column of the step being
/// edited, and the two direction buttons.
#[derive(Debug, Clone, Copy, PartialEq, Eq, Structural)]
pub enum StepEditorWidget {
    SliceSelect(usize),
    CurrentStep(usize),
    Forward,
    Backward,
}

impl Layout for StepEditorWidget {
    type Context = ();

    /// Row 0 selects a slice; on row 1, keys 0 and 1 choose backward, keys 3 and 4 forward.
    open spec fn hit_spec(x: usize, y: usize) -> Option<Self> {
        if y == 0 && x < GRID_WIDTH {
            Some(StepEditorWidget::SliceSelect(x))
        } else if y == 1 {
            if x < 2 {
                Some(StepEditorWidget::Backward)
            } else if 3 <= x && x < 5 {
                Some(StepEditorWidget::Forward)
            } else {
                None
            }
        } else {
            None
        }
    }

    /// The slice row lights the chosen slice and dims the others; the current step
    /// lights its column's lower half when on and darkens it when off (a column off
    /// the grid draws nothing); a direction button lights its own keys when on and
    /// the other button's keys when off, and dims the rest.
    open spec fn drawn(&self, fb: Seq<u8>, on: bool, ctx: ()) -> Seq<u8> {
        let w = GRID_WIDTH as int;
        match *self {
            StepEditorWidget::SliceSelect(index) => selected(fb, w, index as int),
            StepEditorWidget::CurrentStep(index) => if index < GRID_WIDTH {
                column_written(
                    fb,
                    index as int,
                    if on {
                        ON
                    } else {
                        0
                    },
                )
            } else {
                fb
            },
            StepEditorWidget::Forward => filled(
                filled(
                    fb,
                    w,
                    w + 2,
                    if on {
                        OFF
                    } else {
                        ON
                    },
                ),
                w + 3,
                w + 5,
                if on {
                    ON
                } else {
                    OFF
                },
            ),
            StepEditorWidget::Backward => filled(
                filled(
                    fb,
                    w + 3,
                    w + 5,
                    if on {
                        OFF
                    } else {
                        ON
                    },
                ),
                w,
                w + 2,
                if on {
                    ON
                } else {
                    OFF
                },
            ),
        }
    }

    fn hit(x: usize, y: usize) -> (r: Option<Self>) {
        if y == 0 && x < GRID_WIDTH {
            Some(StepEditorWidget::SliceSelect(x))
        } else if y == 1 {
            if x < 2 {
                Some(StepEditorWidget::Backward)
            } else if 3 <= x && x < 5 {
                Some(StepEditorWidget::Forward)
            } else {
                None
            }
        } else {
            None
        }
    }

    fn render(&self, page: &mut Page, on: bool, ctx: ()) {
        match *self {
            StepEditorWidget::SliceSelect(index) => {
                page.select(GRID_WIDTH, index);
            },
            StepEditorWidget::CurrentStep(index) => {
                if index < GRID_WIDTH {
                    page.write_column(index, on as u8 * ON);
                }
            },
            StepEditorWidget::Forward => {
                page.fill(
                    GRID_WIDTH,
                    GRID_WIDTH + 2,
                    if on {
                        OFF
                    } else {
                        ON
                    },
                );
                page.fill(
                    GRID_WIDTH + 3,
                    GRID_WIDTH + 5,
                    if on {
                        ON
                    } else {
                        OFF
                    },
                );
            },
            StepEditorWidget::Backward => {
                page.fill(
                    GRID_WIDTH + 3,
                    GRID_WIDTH + 5,
                    if on {
                        OFF
                    } else {
                        ON
                    },
                );
                page.fill(
                    GRID_WIDTH,
                    GRID_WIDTH + 2,
                    if on {
                        ON
                    } else {
                        OFF
                    },
                );
            },
        }
    }
}

/// The regions of the sequencer: the pattern-select row, and the step columns
/// of the lower half.
#[derive(Debug, Clone, Copy, PartialEq, Eq, Structural)]
pub enum SequencerWidget {
    Pattern(usize),
    PatternSelect(usize),
}

impl Layout for SequencerWidget {
    /// Number of patterns in the sequence.
    type Context = usize;

    /// Row 0 selects a pattern; a key whose row-major index lies in the lower half
    /// of the grid (64 to 127) edits the step of its column.
    open spec fn hit_spec(x: usize, y: usize) -> Option<Self> {
        if y == 0 {
            Some(SequencerWidget::PatternSelect(x))
        } else if 4 * GRID_WIDTH <= index_of(x as int, y as int) < GRID_SIZE {
            Some(SequencerWidget::Pattern(x))
        } else {
            None
        }
    }

    /// A step column's lower half is lit when on, else accented on every fourth
    /// step and dimmed elsewhere (a column off the grid draws nothing); selecting
    /// an existing pattern lights its key and dims the keys of the other patterns.
    open spec fn drawn(&self, fb: Seq<u8>, on: bool, num_patterns: usize) -> Seq<u8> {
        match *self {
            SequencerWidget::Pattern(step) => if step < GRID_WIDTH {
                column_written(fb, step as int, step_level(step as int, on))
            } else {
                fb
            },
            SequencerWidget::PatternSelect(pattern) => if pattern < num_patterns {
                selected(fb, num_patterns as int, pattern as int)
            } else {
                fb
            },
        }
    }

    fn hit(x: usize, y: usize) -> (r: Option<Self>) {
        if y == 0 {
            Some(SequencerWidget::PatternSelect(x))
        } else if y < GRID_HEIGHT && x < GRID_SIZE && 4 * GRID_WIDTH <= to_1d(x, y) && to_1d(
            x,
            y,
        ) < GRID_SIZE {
            Some(SequencerWidget::Pattern(x))
        } else {
            None
        }
    }

    fn render(&self, page: &mut Page, on: bool, num_patterns: usize) {
        match *self {
            SequencerWidget::Pattern(step) => {
                if step < GRID_WIDTH {
                    let level = if on {
                        ON
                    } else if step % 4 == 0 {
                        ACCENT
                    } else {
                        OFF
                    };
                    page.write_column(step, level);
                }
            },
            SequencerWidget::PatternSelect(pattern) => {
                if pattern < num_patterns {
                    page.select(num_patterns, pattern);
                }
            },
        }
    }
}

/// Brightness of a step column: lit when on, accented on every fourth step, dimmed elsewhere.
pub open spec fn step_level(step: int, on: bool) -> u8 {
    if on {
        ON
    } else if step % 4 == 0 {
        ACCENT
    } else {
        OFF
    }
}

} // verus!
